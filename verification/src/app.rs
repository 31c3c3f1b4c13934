//! The application state and the one place where events change it.

use crate::channel::recv_event;
use crate::crates_io::{CrateSearchResponse, CratesSort, SearchRequest};
use crate::input::{EventView, InputEvent};
use crate::screen::{
    cards_spec, footer, footer_spec, message_spec, overlay_spec, title_spec, Card, Overlay, Screen,
    GRID_CARDS,
};
use crate::session::{lemma_step_preserves_wf, next_tick, EffectView, ModeView, Session};
use crossbeam_channel::Receiver;
use vstd::prelude::*;

verus! {

/// The state of the sort picker: the sort orders on offer, their labels, and
/// the one the picker points at. Every picker is valid: it offers the five
/// sort orders in their fixed order, each under its label, and points at one
/// of them.
#[derive(Debug, PartialEq, Eq)]
pub struct SortingField {
    selection: usize,
    items: Vec<CratesSort>,
    strs: Vec<String>,
}

impl SortingField {
    /// The index the picker points at.
    pub closed spec fn selection_spec(&self) -> int {
        self.selection as int
    }

    /// The sort orders on offer.
    pub closed spec fn items_spec(&self) -> Seq<CratesSort> {
        self.items@
    }

    /// The labels on offer.
    pub closed spec fn strs_spec(&self) -> Seq<Seq<char>> {
        Seq::new(self.strs@.len(), |i: int| self.strs@[i]@)
    }

    /// The validity of a picker.
    pub open spec fn wf(&self) -> bool {
        &&& self.items_spec() == CratesSort::all_spec()
        &&& self.strs_spec() == CratesSort::labels_spec(self.items_spec())
        &&& 0 <= self.selection_spec() < self.items_spec().len()
    }

    #[verifier::type_invariant]
    spec fn inv(&self) -> bool {
        self.wf()
    }

    /// A picker that offers the five sort orders and points at `sort`.
    pub fn from(sort: &CratesSort) -> (field: SortingField)
        ensures
            field.wf(),
            field.selection_spec() == sort.position_spec(),
    {
        let items = CratesSort::all();
        let mut strs: Vec<String> = Vec::with_capacity(5);
        let mut i: usize = 0;
        while i < items.len()
            invariant
                i <= items.len(),
                strs@.len() == i,
                forall|k: int| 0 <= k < i ==> (#[trigger] strs@[k])@ == items@[k].label_spec(),
            decreases items.len() - i,
        {
            strs.push(items[i].label());
            i += 1;
        }
        let selection = sort.position();
        assert(Seq::new(strs@.len(), |i: int| strs@[i]@) =~= CratesSort::labels_spec(items@));
        SortingField { selection, items, strs }
    }

    /// The index the picker points at, which is that of one of the five
    /// sort orders.
    pub fn selection(&self) -> (i: usize)
        ensures
            i as int == self.selection_spec(),
            self.wf(),
    {
        proof {
            use_type_invariant(self);
        }
        self.selection
    }

    /// The sort orders on offer: the five, in their fixed order.
    pub fn items(&self) -> (items: &Vec<CratesSort>)
        ensures
            items@ == self.items_spec(),
            self.wf(),
    {
        proof {
            use_type_invariant(self);
        }
        &self.items
    }

    /// The labels on offer, one for each sort order.
    pub fn strs(&self) -> (strs: &Vec<String>)
        ensures
            strs@.len() == self.strs_spec().len(),
            forall|i: int| 0 <= i < strs@.len() ==> (#[trigger] strs@[i])@ == self.strs_spec()[i],
            self.wf(),
    {
        proof {
            use_type_invariant(self);
        }
        &self.strs
    }

    /// The sort order the picker points at.
    pub fn chosen(&self) -> (sort: CratesSort)
        ensures
            sort == self.items_spec()[self.selection_spec()],
            self.wf(),
    {
        proof {
            use_type_invariant(self);
        }
        self.items[self.selection]
    }

    /// Moves the selection for one key: up or down by one, not past the
    /// first or the last sort order; any other key leaves it.
    fn on_key(&mut self, c: char)
        ensures
            final(self).selection_spec() == Session::step_key_sorting(
                old(self).selection_spec(),
                old(self).items_spec(),
                c,
            ),
            final(self).items_spec() == old(self).items_spec(),
            final(self).wf(),
    {
        proof {
            use_type_invariant(&*self);
        }
        if c == 'k' || c == 'K' {
            if self.selection > 0 {
                self.selection -= 1;
            }
        } else if c == 'j' || c == 'J' {
            if self.selection + 1 <= self.items.len() - 1 {
                self.selection += 1;
            }
        }
    }
}

/// The mode that decides how the next event is read.
#[derive(Debug, PartialEq, Eq)]
pub enum AppMode {
    /// Browsing the results.
    Normal,
    /// Composing a query: the text so far and the heartbeats counted.
    Input(String, u64),
    /// Choosing a sort order.
    Sorting(SortingField),
}

impl View for AppMode {
    type V = ModeView;

    open spec fn view(&self) -> ModeView {
        match self {
            AppMode::Normal => ModeView::Normal,
            AppMode::Input(buffer, ticks) => ModeView::Input { buffer: buffer@, tick: *ticks },
            AppMode::Sorting(field) => ModeView::Sorting {
                selection: field.selection_spec(),
                items: field.items_spec(),
            },
        }
    }
}

/// What the surroundings are asked to do after an event.
#[derive(Clone, Debug, PartialEq, Eq)]
pub enum Effect {
    /// Nothing.
    Nothing,
    /// Start this search; its outcome comes back as an event.
    Search(SearchRequest),
    /// Put this text on the clipboard, where there is one.
    Copy(String),
}

impl View for Effect {
    type V = EffectView;

    open spec fn view(&self) -> EffectView {
        match self {
            Effect::Nothing => EffectView::Nothing,
            Effect::Search(request) => EffectView::Search(request@),
            Effect::Copy(text) => EffectView::Copy(text@),
        }
    }
}

/// The heartbeats counted after one more: the counter wraps to zero after
/// its largest value.
pub fn tick_after(ticks: u64) -> (next: u64)
    ensures
        next == next_tick(ticks),
{
    if ticks == u64::MAX {
        0
    } else {
        ticks + 1
    }
}

/// The seconds for which the application waits for an event before it
/// paints again.
pub const RECEIVE_TIMEOUT_SECS: u64 = 1;

/// The fields of a session. They change one at a time while an event is
/// applied, so a value of this type may be between two valid sessions.
struct State {
    crates: Option<CrateSearchResponse>,
    quit: bool,
    inpt: String,
    page: u32,
    sort: CratesSort,
    mode: AppMode,
    selection: Option<usize>,
}

impl View for State {
    type V = Session;

    closed spec fn view(&self) -> Session {
        Session {
            query: self.inpt@,
            page: self.page as int,
            sort: self.sort,
            results: match self.crates {
                Some(response) => Some(response@),
                None => None,
            },
            selection: match self.selection {
                Some(i) => Some(i as int),
                None => None,
            },
            mode: self.mode@,
            quit: self.quit,
        }
    }
}

impl State {
    /// The fields of the session at startup.
    fn initial() -> (state: State)
        ensures
            state@ == Session::initial(),
    {
        let state = State {
            crates: None,
            quit: false,
            inpt: String::new(),
            page: 1,
            sort: CratesSort::Relevance,
            mode: AppMode::Normal,
            selection: None,
        };
        assert(state@.query =~= Session::initial().query);
        state
    }

    /// The search that the session asks for as it stands.
    fn search_request(&self) -> (request: SearchRequest)
        ensures
            request@ == self@.request(),
    {
        SearchRequest { query: self.inpt.clone(), page: self.page, sort: self.sort }
    }

    /// Takes in the packages that a search came back with.
    fn take_results(&mut self, response: CrateSearchResponse)
        ensures
            final(self)@ == old(self)@.with_results(response@),
            final(self).mode == old(self).mode,
    {
        self.selection = if response.crates.len() > 0 {
            Some(0)
        } else {
            None
        };
        self.crates = Some(response);
    }

    /// Takes in the outcome of a search, and nothing else.
    fn on_search(&mut self, event: InputEvent)
        ensures
            final(self)@ == old(self)@.step_search(event@),
            final(self).mode == old(self).mode,
    {
        match event {
            InputEvent::Results(response) => self.take_results(response),
            InputEvent::SearchFailed => self.take_results(CrateSearchResponse::empty()),
            _ => {},
        }
    }

    /// What the copy key asks for: the dependency declaration of the
    /// selected package on the clipboard, if a package is selected.
    fn copy_selection(&self) -> (effect: Effect)
        requires
            self@.wf(),
        ensures
            effect@ == match self@.selection {
                Some(i) => EffectView::Copy(self@.results->0[i].toml_line()),
                None => EffectView::Nothing,
            },
    {
        match self.selection {
            Some(i) => match &self.crates {
                Some(response) => Effect::Copy(response.crates[i].get_toml_str()),
                None => Effect::Nothing,
            },
            None => Effect::Nothing,
        }
    }

    /// One key while browsing.
    fn on_key_normal(&mut self, c: char) -> (effect: Effect)
        requires
            old(self)@.wf(),
            old(self).mode is Normal,
        ensures
            (final(self)@, effect@) == old(self)@.step_key_normal(c),
    {
        if c == 'f' || c == 'F' {
            self.mode = AppMode::Input(String::new(), 0);
            Effect::Nothing
        } else if c == 'q' || c == 'Q' {
            self.quit = true;
            Effect::Nothing
        } else if c == 'n' || c == 'N' {
            let found = match &self.crates {
                Some(response) => response.crates.len(),
                None => 0,
            };
            if found > 0 && self.page < u32::MAX {
                self.page += 1;
                Effect::Search(self.search_request())
            } else {
                Effect::Nothing
            }
        } else if c == 'p' || c == 'P' {
            if self.page > 1 {
                self.page -= 1;
                Effect::Search(self.search_request())
            } else {
                Effect::Nothing
            }
        } else if c == 'j' || c == 'J' {
            if let Some(i) = self.selection {
                let last = match &self.crates {
                    Some(response) => response.crates.len() - 1,
                    None => 0,
                };
                self.selection = Some(if i + 1 <= last {
                    i + 1
                } else {
                    last
                });
            }
            Effect::Nothing
        } else if c == 'k' || c == 'K' {
            if let Some(i) = self.selection {
                if i > 0 {
                    self.selection = Some(i - 1);
                }
            }
            Effect::Nothing
        } else if c == 's' || c == 'S' {
            self.mode = AppMode::Sorting(SortingField::from(&self.sort));
            Effect::Nothing
        } else if c == 'c' || c == 'C' {
            self.copy_selection()
        } else {
            Effect::Nothing
        }
    }

    /// One event while browsing.
    fn on_normal(&mut self, event: InputEvent) -> (effect: Effect)
        requires
            old(self)@.wf(),
            old(self).mode is Normal,
        ensures
            (final(self)@, effect@) == old(self)@.step_normal(event@),
    {
        match event {
            InputEvent::Char(c) => self.on_key_normal(c),
            other => {
                self.on_search(other);
                Effect::Nothing
            },
        }
    }

    /// One event in the query editor, whose text and heartbeats were taken
    /// out of the mode before the call.
    fn on_input(&mut self, buffer: String, ticks: u64, event: InputEvent) -> (effect: Effect)
        requires
            old(self).mode is Normal,
        ensures
            (final(self)@, effect@) == old(self)@.step_input(buffer@, ticks, event@),
    {
        let mut buffer = buffer;
        match event {
            InputEvent::Esc => Effect::Nothing,
            InputEvent::Enter => {
                self.page = 1;
                self.inpt = buffer;
                Effect::Search(self.search_request())
            },
            InputEvent::Backspace => {
                let _ = buffer.pop();
                self.mode = AppMode::Input(buffer, ticks);
                Effect::Nothing
            },
            InputEvent::Char(c) => {
                buffer.push(c);
                self.mode = AppMode::Input(buffer, ticks);
                Effect::Nothing
            },
            InputEvent::Tick => {
                self.mode = AppMode::Input(buffer, tick_after(ticks));
                Effect::Nothing
            },
            other => {
                self.on_search(other);
                self.mode = AppMode::Input(buffer, ticks);
                Effect::Nothing
            },
        }
    }

    /// One event in the sort picker, which was taken out of the mode before
    /// the call.
    fn on_sorting(&mut self, field: SortingField, event: InputEvent) -> (effect: Effect)
        requires
            old(self).mode is Normal,
        ensures
            (final(self)@, effect@) == old(self)@.step_sorting(
                field.selection_spec(),
                field.items_spec(),
                event@,
            ),
    {
        let mut field = field;
        match event {
            InputEvent::Esc => Effect::Nothing,
            InputEvent::Enter => {
                self.sort = field.chosen();
                self.page = 1;
                Effect::Search(self.search_request())
            },
            InputEvent::Char(c) => {
                field.on_key(c);
                self.mode = AppMode::Sorting(field);
                Effect::Nothing
            },
            other => {
                self.on_search(other);
                self.mode = AppMode::Sorting(field);
                Effect::Nothing
            },
        }
    }

    /// One event, in whatever mode.
    fn handle_event(&mut self, event: InputEvent) -> (effect: Effect)
        requires
            old(self)@.wf(),
        ensures
            final(self)@.wf(),
            (final(self)@, effect@) == old(self)@.step(event@),
    {
        proof {
            lemma_step_preserves_wf(self@, event@);
        }
        let mut mode = AppMode::Normal;
        std::mem::swap(&mut self.mode, &mut mode);
        match mode {
            AppMode::Normal => self.on_normal(event),
            AppMode::Input(buffer, ticks) => self.on_input(buffer, ticks, event),
            AppMode::Sorting(field) => self.on_sorting(field, event),
        }
    }

    /// The cards of the result grid.
    fn draw_cards(&self) -> (cards: Vec<Card>)
        ensures
            cards@ == cards_spec(
                match self@.results {
                    Some(found) => found.len() as int,
                    None => 0,
                },
                self@.selection,
            ),
    {
        let found = match &self.crates {
            Some(response) => response.crates.len(),
            None => 0,
        };
        let shown = if found < GRID_CARDS {
            found
        } else {
            GRID_CARDS
        };
        let mut cards: Vec<Card> = Vec::new();
        let mut i: usize = 0;
        while i < shown
            invariant
                i <= shown,
                cards@.len() == i,
                forall|k: int|
                    0 <= k < i ==> cards@[k] == (Card {
                        index: k as usize,
                        selected: self@.selection == Some(k),
                    }),
            decreases shown - i,
        {
            let selected = match self.selection {
                Some(s) => s == i,
                None => false,
            };
            cards.push(Card { index: i, selected });
            i += 1;
        }
        assert(cards@ =~= cards_spec(found as int, self@.selection));
        cards
    }

    /// The overlay of the active mode.
    fn draw_mode(&self) -> (overlay: Overlay)
        ensures
            overlay@ == overlay_spec(self@.mode),
    {
        match &self.mode {
            AppMode::Normal => Overlay::Hidden,
            AppMode::Input(buffer, ticks) => Overlay::Input {
                title: "Enter you search term".to_owned(),
                text: buffer.clone(),
                show_cursor: *ticks % 2 == 0,
            },
            AppMode::Sorting(field) => {
                let strs = field.strs();
                let mut labels: Vec<String> = Vec::new();
                let mut i: usize = 0;
                while i < strs.len()
                    invariant
                        i <= strs@.len(),
                        labels@.len() == i,
                        forall|k: int| 0 <= k < i ==> (#[trigger] labels@[k])@ == strs@[k]@,
                    decreases strs@.len() - i,
                {
                    labels.push(strs[i].clone());
                    i += 1;
                }
                let overlay = Overlay::Sorting {
                    title: "Select you sorting method".to_owned(),
                    labels,
                    selection: field.selection(),
                };
                assert(overlay@->Sorting_labels =~= CratesSort::labels_spec(field.items_spec()));
                overlay
            },
        }
    }

    /// One frame of the session as it stands.
    fn draw(&self) -> (screen: Screen)
        ensures
            screen.title@ == title_spec(),
            screen.message@ == message_spec(self@.mode),
            screen.footer@ == footer_spec(self@.page),
            screen.cards@ == cards_spec(
                match self@.results {
                    Some(found) => found.len() as int,
                    None => 0,
                },
                self@.selection,
            ),
            screen.overlay@ == overlay_spec(self@.mode),
    {
        let message = match &self.mode {
            AppMode::Normal =>
                "Press N/P to move between pages.  Press f to search for a term\nPress J/K to change the highlighted Crate and press C to copy it's Cargo.toml string".to_owned(),
            AppMode::Input(_, _) =>
                "Type to enter your search term.  Press Enter to confirm.  Press ESC to cancel".to_owned(),
            AppMode::Sorting(_) =>
                "Press J/K to move between options.  Press Enter to confirm.  Press ESC to cancel".to_owned(),
        };
        Screen {
            title: "Cratuity (A crates.io quick search TUI)".to_owned(),
            message,
            footer: footer(self.page),
            cards: self.draw_cards(),
            overlay: self.draw_mode(),
        }
    }
}

/// The application: the receiving end of the event channel and the session
/// that the events shape. The session of every application is well formed.
pub struct App {
    input_rx: Receiver<InputEvent>,
    state: State,
}

impl View for App {
    type V = Session;

    closed spec fn view(&self) -> Session {
        self.state@
    }
}

impl App {
    /// The receiving end from which this application takes its events.
    pub closed spec fn receiver(&self) -> Receiver<InputEvent> {
        self.input_rx
    }

    #[verifier::type_invariant]
    spec fn inv(&self) -> bool {
        self.state@.wf()
    }

    /// The application at startup, taking its events from `input_rx`.
    pub fn new(input_rx: Receiver<InputEvent>) -> (app: App)
        ensures
            app@ == Session::initial(),
            app.receiver() == input_rx,
    {
        App { input_rx, state: State::initial() }
    }

    /// Applies one event to the session and says what the surroundings are
    /// asked to do. The outcome is that of the transition function, in every
    /// mode and for every event, and the session stays well formed.
    pub fn handle_event(&mut self, event: InputEvent) -> (effect: Effect)
        ensures
            (final(self)@, effect@) == old(self)@.step(event@),
            old(self)@.wf(),
            final(self)@.wf(),
            final(self).receiver() == old(self).receiver(),
    {
        proof {
            use_type_invariant(&*self);
        }
        let mut state = State::initial();
        std::mem::swap(&mut self.state, &mut state);
        let effect = state.handle_event(event);
        self.state = state;
        effect
    }

    /// Waits up to a second for the next event and applies it. When none
    /// arrives in time, or no sender is left, the session stays as it is.
    pub fn await_input(&mut self) -> (effect: Effect)
        ensures
            (final(self)@, effect@) == (old(self)@, EffectView::Nothing) || exists|event: EventView|
                (final(self)@, effect@) == old(self)@.step(event),
            final(self)@.wf(),
            final(self).receiver() == old(self).receiver(),
    {
        proof {
            use_type_invariant(&*self);
        }
        match recv_event(&self.input_rx, RECEIVE_TIMEOUT_SECS) {
            Some(event) => self.handle_event(event),
            None => Effect::Nothing,
        }
    }

    /// The overlay of the active mode: none while browsing, the query editor
    /// with its text and cursor, or the sort picker with its labels and
    /// selection.
    pub fn draw_mode(&self) -> (overlay: Overlay)
        ensures
            overlay@ == overlay_spec(self@.mode),
    {
        self.state.draw_mode()
    }

    /// One frame of the session as it stands: the title, the keys of the
    /// active mode, the page, the result cards and the overlay.
    pub fn draw(&self) -> (screen: Screen)
        ensures
            screen.title@ == title_spec(),
            screen.message@ == message_spec(self@.mode),
            screen.footer@ == footer_spec(self@.page),
            screen.cards@ == cards_spec(
                match self@.results {
                    Some(found) => found.len() as int,
                    None => 0,
                },
                self@.selection,
            ),
            screen.overlay@ == overlay_spec(self@.mode),
    {
        self.state.draw()
    }

    /// Whether the user asked to leave.
    pub fn quit(&self) -> (quit: bool)
        ensures
            quit == self@.quit,
    {
        self.state.quit
    }

    /// The query of the last search that was asked for.
    pub fn query(&self) -> (query: &String)
        ensures
            query@ == self@.query,
    {
        &self.state.inpt
    }

    /// The page of the results, which is at least one.
    pub fn page(&self) -> (page: u32)
        ensures
            page as int == self@.page,
            page >= 1,
    {
        proof {
            use_type_invariant(self);
        }
        self.state.page
    }

    /// The sort order of the results.
    pub fn sort(&self) -> (sort: CratesSort)
        ensures
            sort == self@.sort,
    {
        self.state.sort
    }

    /// The packages that the last search came back with, if one came back.
    pub fn crates(&self) -> (crates: &Option<CrateSearchResponse>)
        ensures
            match crates {
                Some(response) => self@.results == Some(response@),
                None => self@.results is None,
            },
    {
        &self.state.crates
    }

    /// The index of the highlighted package. There is one exactly when the
    /// result set is there and is not empty, and it is the index of one of
    /// its packages.
    pub fn selection(&self) -> (selection: Option<usize>)
        ensures
            match selection {
                Some(i) => self@.selection == Some(i as int),
                None => self@.selection is None,
            },
            selection is Some <==> self@.results is Some && self@.results->0.len() > 0,
            selection is Some ==> selection->0 < self@.results->0.len(),
    {
        proof {
            use_type_invariant(self);
        }
        self.state.selection
    }

    /// The active mode, in a session that is well formed as every session
    /// is.
    pub fn mode(&self) -> (mode: &AppMode)
        ensures
            mode@ == self@.mode,
            self@.wf(),
    {
        proof {
            use_type_invariant(self);
        }
        &self.state.mode
    }
}

} // verus!
