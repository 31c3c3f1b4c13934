use cratuity::app::App;
use cratuity::crates_io::{CrateSearch, CrateSearchResponse};
use cratuity::input::InputEvent;
use cratuity::screen::{
    footer, push_decimal, Card, Overlay, CARD_PERCENT, FOOTER_LINES, GRID_CARDS, GRID_MIN_LINES,
    HEADER_LINES,
};
use crossbeam_channel::unbounded;

fn found(count: usize) -> CrateSearchResponse {
    let mut crates = Vec::new();
    for i in 0..count {
        crates.push(CrateSearch {
            name: format!("crate{}", i),
            version: "1.0.0".to_string(),
            description: String::new(),
            downloads: 0,
            recent_downloads: 0,
        });
    }
    CrateSearchResponse { crates }
}

fn browser() -> App {
    let (_tx, rx) = unbounded();
    App::new(rx)
}

#[test]
fn decimal_digits() {
    let cases: Vec<(u32, &str)> = vec![
        (0, "0"),
        (1, "1"),
        (9, "9"),
        (10, "10"),
        (11, "11"),
        (100, "100"),
        (120, "120"),
        (1009, "1009"),
        (4294967295, "4294967295"),
    ];
    for (n, expected) in cases {
        let mut text = String::new();
        push_decimal(&mut text, n);
        assert_eq!(text, expected);
    }
}

#[test]
fn decimal_is_appended() {
    let mut text = "n=".to_string();
    push_decimal(&mut text, 42);
    assert_eq!(text, "n=42");
    push_decimal(&mut text, 7);
    assert_eq!(text, "n=427");
}

#[test]
fn footer_names_the_page() {
    assert_eq!(footer(1), "Page 1");
    assert_eq!(footer(2), "Page 2");
    assert_eq!(footer(37), "Page 37");
    assert_eq!(footer(u32::MAX), "Page 4294967295");
}

#[test]
fn frame_at_startup() {
    let screen = browser().draw();
    assert_eq!(screen.title, "Cratuity (A crates.io quick search TUI)");
    assert_eq!(
        screen.message,
        "Press N/P to move between pages.  Press f to search for a term\nPress J/K to change the highlighted Crate and press C to copy it's Cargo.toml string"
    );
    assert_eq!(screen.footer, "Page 1");
    assert_eq!(screen.cards, vec![]);
    assert_eq!(screen.overlay, Overlay::Hidden);
}

#[test]
fn frame_shows_the_page() {
    let mut app = browser();
    app.handle_event(InputEvent::Results(found(1)));
    for _ in 0..11 {
        app.handle_event(InputEvent::Char('n'));
    }
    assert_eq!(app.draw().footer, "Page 12");
}

#[test]
fn grid_shows_at_most_five_cards() {
    assert_eq!(GRID_CARDS, 5);
    for count in 0..9usize {
        let mut app = browser();
        app.handle_event(InputEvent::Results(found(count)));
        let cards = app.draw().cards;
        assert_eq!(cards.len(), count.min(5));
        for (i, card) in cards.iter().enumerate() {
            assert_eq!(card, &Card { index: i, selected: i == 0 });
        }
    }
}

#[test]
fn grid_highlights_the_selection() {
    let mut app = browser();
    app.handle_event(InputEvent::Results(found(7)));
    app.handle_event(InputEvent::Char('j'));
    app.handle_event(InputEvent::Char('j'));
    assert_eq!(
        app.draw().cards,
        vec![
            Card { index: 0, selected: false },
            Card { index: 1, selected: false },
            Card { index: 2, selected: true },
            Card { index: 3, selected: false },
            Card { index: 4, selected: false },
        ]
    );
    for _ in 0..4 {
        app.handle_event(InputEvent::Char('j'));
    }
    assert_eq!(app.selection(), Some(6));
    let cards = app.draw().cards;
    assert_eq!(cards.len(), 5);
    assert!(cards.iter().all(|card| !card.selected));
}

#[test]
fn query_editor_overlay() {
    let mut app = browser();
    app.handle_event(InputEvent::Char('f'));
    let screen = app.draw();
    assert_eq!(
        screen.message,
        "Type to enter your search term.  Press Enter to confirm.  Press ESC to cancel"
    );
    assert_eq!(
        screen.overlay,
        Overlay::Input {
            title: "Enter you search term".to_string(),
            text: String::new(),
            show_cursor: true,
        }
    );
    app.handle_event(InputEvent::Char('h'));
    app.handle_event(InputEvent::Char('i'));
    app.handle_event(InputEvent::Tick);
    assert_eq!(
        app.draw_mode(),
        Overlay::Input {
            title: "Enter you search term".to_string(),
            text: "hi".to_string(),
            show_cursor: false,
        }
    );
    app.handle_event(InputEvent::Tick);
    assert_eq!(
        app.draw_mode(),
        Overlay::Input {
            title: "Enter you search term".to_string(),
            text: "hi".to_string(),
            show_cursor: true,
        }
    );
}

#[test]
fn sort_picker_overlay() {
    let mut app = browser();
    app.handle_event(InputEvent::Char('s'));
    app.handle_event(InputEvent::Char('j'));
    let screen = app.draw();
    assert_eq!(
        screen.message,
        "Press J/K to move between options.  Press Enter to confirm.  Press ESC to cancel"
    );
    assert_eq!(
        screen.overlay,
        Overlay::Sorting {
            title: "Select you sorting method".to_string(),
            labels: vec![
                "Relevance".to_string(),
                "All Time Downloads".to_string(),
                "Recent Downloads".to_string(),
                "Recent Updates".to_string(),
                "Newly Added".to_string(),
            ],
            selection: 1,
        }
    );
}

#[test]
fn overlay_hidden_while_browsing() {
    let mut app = browser();
    app.handle_event(InputEvent::Char('f'));
    app.handle_event(InputEvent::Esc);
    assert_eq!(app.draw_mode(), Overlay::Hidden);
    app.handle_event(InputEvent::Char('s'));
    app.handle_event(InputEvent::Enter);
    assert_eq!(app.draw().overlay, Overlay::Hidden);
}

#[test]
fn frame_regions() {
    assert_eq!(HEADER_LINES, 2);
    assert_eq!(FOOTER_LINES, 1);
    assert_eq!(GRID_MIN_LINES, 5);
    assert_eq!(CARD_PERCENT, 20);
    assert_eq!(GRID_CARDS * CARD_PERCENT as usize, 100);
}
