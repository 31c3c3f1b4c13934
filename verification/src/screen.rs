//! What one frame shows, as plain values: the texts, the result cards and
//! the modal overlay. How they are painted is not decided here.

use crate::crates_io::CratesSort;
use crate::session::ModeView;
use vstd::prelude::*;

verus! {

/// The number of result cards that the grid has room for.
pub const GRID_CARDS: usize = 5;

/// The share of the grid's width that each card takes, in percent.
pub const CARD_PERCENT: u16 = 20;

/// The lines that the message at the top takes.
pub const HEADER_LINES: u16 = 2;

/// The lines that the footer takes.
pub const FOOTER_LINES: u16 = 1;

/// The lines that are kept for the grid at least.
pub const GRID_MIN_LINES: u16 = 5;

/// The cards of a full grid take the whole width between them.
pub proof fn lemma_cards_fill_the_grid()
    ensures
        GRID_CARDS * CARD_PERCENT == 100,
{
}

/// One card of the result grid: which package of the result set it shows,
/// and whether it is the highlighted one.
#[derive(Clone, Copy, Debug, PartialEq, Eq)]
pub struct Card {
    pub index: usize,
    pub selected: bool,
}

/// The modal overlay that covers the frame while a mode other than browsing
/// is active.
#[derive(Clone, Debug, PartialEq, Eq)]
pub enum Overlay {
    /// No overlay: the frame shows the results.
    Hidden,
    /// The query editor.
    Input { title: String, text: String, show_cursor: bool },
    /// The sort picker.
    Sorting { title: String, labels: Vec<String>, selection: usize },
}

/// An overlay as plain values.
pub enum OverlayView {
    Hidden,
    Input { title: Seq<char>, text: Seq<char>, show_cursor: bool },
    Sorting { title: Seq<char>, labels: Seq<Seq<char>>, selection: int },
}

impl View for Overlay {
    type V = OverlayView;

    open spec fn view(&self) -> OverlayView {
        match self {
            Overlay::Hidden => OverlayView::Hidden,
            Overlay::Input { title, text, show_cursor } => OverlayView::Input {
                title: title@,
                text: text@,
                show_cursor: *show_cursor,
            },
            Overlay::Sorting { title, labels, selection } => OverlayView::Sorting {
                title: title@,
                labels: Seq::new(labels@.len(), |i: int| labels@[i]@),
                selection: *selection as int,
            },
        }
    }
}

/// One frame.
#[derive(Clone, Debug, PartialEq, Eq)]
pub struct Screen {
    /// The title on the border of the frame.
    pub title: String,
    /// The lines at the top that name the keys of the active mode.
    pub message: String,
    /// The line at the bottom that names the page.
    pub footer: String,
    /// The cards of the result grid, left to right.
    pub cards: Vec<Card>,
    /// What covers the frame, if anything.
    pub overlay: Overlay,
}

/// The decimal digit for a number below ten.
pub open spec fn digit_spec(d: int) -> char {
    if d == 0 {
        '0'
    } else if d == 1 {
        '1'
    } else if d == 2 {
        '2'
    } else if d == 3 {
        '3'
    } else if d == 4 {
        '4'
    } else if d == 5 {
        '5'
    } else if d == 6 {
        '6'
    } else if d == 7 {
        '7'
    } else if d == 8 {
        '8'
    } else {
        '9'
    }
}

/// A number in decimal digits, without sign or leading zeros.
pub open spec fn decimal_spec(n: nat) -> Seq<char>
    decreases n,
{
    if n < 10 {
        seq![digit_spec(n as int)]
    } else {
        decimal_spec(n / 10).push(digit_spec((n % 10) as int))
    }
}

/// The title on the border of the frame.
pub open spec fn title_spec() -> Seq<char> {
    "Cratuity (A crates.io quick search TUI)"@
}

/// The lines that name the keys of a mode.
pub open spec fn message_spec(mode: ModeView) -> Seq<char> {
    match mode {
        ModeView::Normal =>
            "Press N/P to move between pages.  Press f to search for a term\nPress J/K to change the highlighted Crate and press C to copy it's Cargo.toml string"@,
        ModeView::Input { .. } =>
            "Type to enter your search term.  Press Enter to confirm.  Press ESC to cancel"@,
        ModeView::Sorting { .. } =>
            "Press J/K to move between options.  Press Enter to confirm.  Press ESC to cancel"@,
    }
}

/// The line that names a page: the word and the number.
pub open spec fn footer_spec(page: int) -> Seq<char> {
    "Page "@ + decimal_spec(page as nat)
}

/// The cards of the grid: one for each of the first packages of the result
/// set, as far as the grid has room, the selected package highlighted.
pub open spec fn cards_spec(found: int, selection: Option<int>) -> Seq<Card> {
    Seq::new(
        (if found < GRID_CARDS {
            found
        } else {
            GRID_CARDS as int
        }) as nat,
        |i: int| Card { index: i as usize, selected: selection == Some(i) },
    )
}

/// The title of the query editor.
pub open spec fn input_title_spec() -> Seq<char> {
    "Enter you search term"@
}

/// The title of the sort picker.
pub open spec fn sorting_title_spec() -> Seq<char> {
    "Select you sorting method"@
}

/// The overlay of a mode. The query editor shows its cursor on every other
/// heartbeat, starting with the first.
pub open spec fn overlay_spec(mode: ModeView) -> OverlayView {
    match mode {
        ModeView::Normal => OverlayView::Hidden,
        ModeView::Input { buffer, tick } => OverlayView::Input {
            title: input_title_spec(),
            text: buffer,
            show_cursor: tick % 2 == 0,
        },
        ModeView::Sorting { selection, items } => OverlayView::Sorting {
            title: sorting_title_spec(),
            labels: CratesSort::labels_spec(items),
            selection,
        },
    }
}

/// The decimal digit for a number below ten.
fn digit(d: u32) -> (c: char)
    requires
        d < 10,
    ensures
        c == digit_spec(d as int),
{
    if d == 0 {
        '0'
    } else if d == 1 {
        '1'
    } else if d == 2 {
        '2'
    } else if d == 3 {
        '3'
    } else if d == 4 {
        '4'
    } else if d == 5 {
        '5'
    } else if d == 6 {
        '6'
    } else if d == 7 {
        '7'
    } else if d == 8 {
        '8'
    } else {
        '9'
    }
}

/// Appends a number in decimal digits to a text.
pub fn push_decimal(text: &mut String, n: u32)
    ensures
        final(text)@ == old(text)@ + decimal_spec(n as nat),
    decreases n,
{
    if n >= 10 {
        push_decimal(text, n / 10);
    }
    text.push(digit(n % 10));
    assert(text@ =~= old(text)@ + decimal_spec(n as nat));
}

/// The line that names a page.
pub fn footer(page: u32) -> (line: String)
    ensures
        line@ == footer_spec(page as int),
{
    let mut line = "Page ".to_owned();
    push_decimal(&mut line, page);
    line
}

} // verus!
