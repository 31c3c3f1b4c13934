//! The session as a state machine over plain values: what a session holds,
//! which sessions are well formed, and the one function that says what each
//! event does to a session in each mode.

use crate::crates_io::{lemma_position_in_all, CrateSearchView, CratesSort, SearchRequestView};
use crate::input::EventView;
use vstd::prelude::*;

verus! {

/// The mode that decides how the next event is read.
pub enum ModeView {
    /// Browsing the results.
    Normal,
    /// Composing a query. The parity of `tick` shows or hides the cursor.
    Input { buffer: Seq<char>, tick: u64 },
    /// Choosing a sort order among `items`.
    Sorting { selection: int, items: Seq<CratesSort> },
}

/// What the surroundings are asked to do after an event.
pub enum EffectView {
    /// Nothing.
    Nothing,
    /// Start this search.
    Search(SearchRequestView),
    /// Put this text on the clipboard.
    Copy(Seq<char>),
}

/// Everything a session holds.
pub struct Session {
    pub query: Seq<char>,
    pub page: int,
    pub sort: CratesSort,
    pub results: Option<Seq<CrateSearchView>>,
    pub selection: Option<int>,
    pub mode: ModeView,
    pub quit: bool,
}

/// Whether `c` is the key `lower` in either case.
pub open spec fn key_is(c: char, lower: char, upper: char) -> bool {
    c == lower || c == upper
}

/// The tick counter after one more heartbeat: it wraps to zero after the
/// largest value.
pub open spec fn next_tick(tick: u64) -> u64 {
    if tick == u64::MAX {
        0
    } else {
        (tick + 1) as u64
    }
}

impl Session {
    /// The session at startup: empty query, first page, results by
    /// relevance, nothing found yet, nothing selected, browsing.
    pub open spec fn initial() -> Session {
        Session {
            query: Seq::empty(),
            page: 1,
            sort: CratesSort::Relevance,
            results: None,
            selection: None,
            mode: ModeView::Normal,
            quit: false,
        }
    }

    /// Whether a result set is there and holds at least one package.
    pub open spec fn has_results(self) -> bool {
        self.results is Some && self.results->0.len() > 0
    }

    /// The validity of a session. The page is at least one and fits the
    /// width of a page number; a package is selected exactly when there are
    /// packages, and it is one of them; a sort picker offers the five sort
    /// orders and points at one of them.
    pub open spec fn wf(self) -> bool {
        &&& 1 <= self.page <= u32::MAX
        &&& match self.selection {
            Some(i) => self.has_results() && 0 <= i < self.results->0.len(),
            None => !self.has_results(),
        }
        &&& match self.mode {
            ModeView::Sorting { selection, items } => {
                &&& items == CratesSort::all_spec()
                &&& 0 <= selection < items.len()
            },
            _ => true,
        }
    }

    /// The search that this session asks for: its query, page and sort order
    /// as they stand.
    pub open spec fn request(self) -> SearchRequestView {
        SearchRequestView { query: self.query, page: self.page, sort: self.sort }
    }

    /// The session after a search came back with `found`: the result set is
    /// replaced, and the first package is selected if there is one.
    pub open spec fn with_results(self, found: Seq<CrateSearchView>) -> Session {
        Session {
            results: Some(found),
            selection: if found.len() > 0 {
                Some(0int)
            } else {
                None
            },
            ..self
        }
    }

    /// What the outcome of a search does, whatever the mode: a failed search
    /// leaves an empty result set.
    pub open spec fn step_search(self, event: EventView) -> Session {
        match event {
            EventView::Results(found) => self.with_results(found),
            EventView::SearchFailed => self.with_results(Seq::empty()),
            _ => self,
        }
    }

    /// What a key does while browsing a well-formed session. The key for
    /// the next page does nothing on the last page that a page number can
    /// name.
    pub open spec fn step_key_normal(self, c: char) -> (Session, EffectView) {
        if key_is(c, 'f', 'F') {
            (
                Session { mode: ModeView::Input { buffer: Seq::empty(), tick: 0 }, ..self },
                EffectView::Nothing,
            )
        } else if key_is(c, 'q', 'Q') {
            (Session { quit: true, ..self }, EffectView::Nothing)
        } else if key_is(c, 'n', 'N') {
            if self.has_results() && self.page < u32::MAX {
                let next = Session { page: self.page + 1, ..self };
                (next, EffectView::Search(next.request()))
            } else {
                (self, EffectView::Nothing)
            }
        } else if key_is(c, 'p', 'P') {
            if self.page > 1 {
                let next = Session { page: self.page - 1, ..self };
                (next, EffectView::Search(next.request()))
            } else {
                (self, EffectView::Nothing)
            }
        } else if key_is(c, 'j', 'J') {
            match self.selection {
                Some(i) => {
                    let last = self.results->0.len() - 1;
                    let moved = if i + 1 <= last {
                        i + 1
                    } else {
                        last
                    };
                    (Session { selection: Some(moved), ..self }, EffectView::Nothing)
                },
                None => (self, EffectView::Nothing),
            }
        } else if key_is(c, 'k', 'K') {
            match self.selection {
                Some(i) if i > 0 => (
                    Session { selection: Some(i - 1), ..self },
                    EffectView::Nothing,
                ),
                _ => (self, EffectView::Nothing),
            }
        } else if key_is(c, 's', 'S') {
            (
                Session {
                    mode: ModeView::Sorting {
                        selection: self.sort.position_spec(),
                        items: CratesSort::all_spec(),
                    },
                    ..self
                },
                EffectView::Nothing,
            )
        } else if key_is(c, 'c', 'C') {
            match self.selection {
                Some(i) => (self, EffectView::Copy(self.results->0[i].toml_line())),
                None => (self, EffectView::Nothing),
            }
        } else {
            (self, EffectView::Nothing)
        }
    }

    /// What an event does while browsing.
    pub open spec fn step_normal(self, event: EventView) -> (Session, EffectView) {
        match event {
            EventView::Char(c) => self.step_key_normal(c),
            _ => (self.step_search(event), EffectView::Nothing),
        }
    }

    /// What an event does while the query editor holds `buffer` and has
    /// counted `tick` heartbeats.
    pub open spec fn step_input(self, buffer: Seq<char>, tick: u64, event: EventView) -> (
        Session,
        EffectView,
    ) {
        match event {
            EventView::Esc => (Session { mode: ModeView::Normal, ..self }, EffectView::Nothing),
            EventView::Enter => {
                let next = Session { query: buffer, page: 1, mode: ModeView::Normal, ..self };
                (next, EffectView::Search(next.request()))
            },
            EventView::Backspace => {
                let rest = if buffer.len() > 0 {
                    buffer.drop_last()
                } else {
                    buffer
                };
                (
                    Session { mode: ModeView::Input { buffer: rest, tick }, ..self },
                    EffectView::Nothing,
                )
            },
            EventView::Char(c) => (
                Session { mode: ModeView::Input { buffer: buffer.push(c), tick }, ..self },
                EffectView::Nothing,
            ),
            EventView::Tick => (
                Session { mode: ModeView::Input { buffer, tick: next_tick(tick) }, ..self },
                EffectView::Nothing,
            ),
            _ => (
                Session { mode: ModeView::Input { buffer, tick }, ..self.step_search(event) },
                EffectView::Nothing,
            ),
        }
    }

    /// What a key does while the sort picker points at `selection`.
    pub open spec fn step_key_sorting(selection: int, items: Seq<CratesSort>, c: char) -> int {
        if key_is(c, 'k', 'K') {
            if selection > 0 {
                selection - 1
            } else {
                0
            }
        } else if key_is(c, 'j', 'J') {
            if selection + 1 <= items.len() - 1 {
                selection + 1
            } else {
                items.len() - 1
            }
        } else {
            selection
        }
    }

    /// What an event does while the sort picker offers `items` and points at
    /// `selection`.
    pub open spec fn step_sorting(
        self,
        selection: int,
        items: Seq<CratesSort>,
        event: EventView,
    ) -> (Session, EffectView) {
        match event {
            EventView::Esc => (Session { mode: ModeView::Normal, ..self }, EffectView::Nothing),
            EventView::Enter => {
                let next = Session {
                    sort: items[selection],
                    page: 1,
                    mode: ModeView::Normal,
                    ..self
                };
                (next, EffectView::Search(next.request()))
            },
            EventView::Char(c) => (
                Session {
                    mode: ModeView::Sorting {
                        selection: Self::step_key_sorting(selection, items, c),
                        items,
                    },
                    ..self
                },
                EffectView::Nothing,
            ),
            _ => (
                Session { mode: ModeView::Sorting { selection, items }, ..self.step_search(event) },
                EffectView::Nothing,
            ),
        }
    }

    /// Whether `c` is one of the eight keys of browsing.
    pub open spec fn is_browsing_key(c: char) -> bool {
        ||| key_is(c, 'f', 'F')
        ||| key_is(c, 'q', 'Q')
        ||| key_is(c, 'n', 'N')
        ||| key_is(c, 'p', 'P')
        ||| key_is(c, 'j', 'J')
        ||| key_is(c, 'k', 'K')
        ||| key_is(c, 's', 'S')
        ||| key_is(c, 'c', 'C')
    }

    /// Whether the key bindings name something for `event` in `mode`. The
    /// outcome of a search is taken in every mode; the query editor takes
    /// every event; browsing has its eight keys; the sort picker has Escape,
    /// Enter and the keys for up and down.
    pub open spec fn bound(mode: ModeView, event: EventView) -> bool {
        match (mode, event) {
            (_, EventView::Results(_)) => true,
            (_, EventView::SearchFailed) => true,
            (ModeView::Input { .. }, _) => true,
            (ModeView::Normal, EventView::Char(c)) => Self::is_browsing_key(c),
            (ModeView::Sorting { .. }, EventView::Char(c)) => {
                key_is(c, 'j', 'J') || key_is(c, 'k', 'K')
            },
            (ModeView::Sorting { .. }, EventView::Esc) => true,
            (ModeView::Sorting { .. }, EventView::Enter) => true,
            _ => false,
        }
    }

    /// The transition function: the session after `event`, and what the
    /// surroundings are asked to do. It is total: every event has an outcome
    /// in every mode, and where the key bindings name none the session stays
    /// as it is.
    pub open spec fn step(self, event: EventView) -> (Session, EffectView) {
        match self.mode {
            ModeView::Normal => self.step_normal(event),
            ModeView::Input { buffer, tick } => self.step_input(buffer, tick, event),
            ModeView::Sorting { selection, items } => self.step_sorting(selection, items, event),
        }
    }

    /// The session that a sequence of events leads to from this one.
    pub open spec fn run(self, events: Seq<EventView>) -> Session
        decreases events.len(),
    {
        if events.len() == 0 {
            self
        } else {
            self.run(events.drop_last()).step(events.last()).0
        }
    }
}

/// The session at startup is well formed.
pub proof fn lemma_initial_wf()
    ensures
        Session::initial().wf(),
{
}

/// No event leads out of the well-formed sessions.
pub proof fn lemma_step_preserves_wf(s: Session, event: EventView)
    requires
        s.wf(),
    ensures
        s.step(event).0.wf(),
{
    lemma_position_in_all(s.sort);
}

/// Every session that events lead to from startup is well formed.
pub proof fn lemma_reachable_wf(events: Seq<EventView>)
    ensures
        Session::initial().run(events).wf(),
    decreases events.len(),
{
    if events.len() == 0 {
        lemma_initial_wf();
    } else {
        lemma_reachable_wf(events.drop_last());
        lemma_step_preserves_wf(Session::initial().run(events.drop_last()), events.last());
    }
}

/// In every session that events lead to from startup, a package is selected
/// exactly when a result set is there and is not empty, and the selected
/// package is one of the result set.
pub proof fn lemma_selection_follows_results(events: Seq<EventView>)
    ensures
        ({
            let s = Session::initial().run(events);
            &&& s.selection is Some <==> s.results is Some && s.results->0.len() > 0
            &&& s.selection is Some ==> 0 <= s.selection->0 < s.results->0.len()
        }),
{
    lemma_reachable_wf(events);
}

/// In every well-formed session the page is at least one.
pub proof fn lemma_page_at_least_one(s: Session)
    requires
        s.wf(),
    ensures
        s.page >= 1,
{
}

/// In every well-formed session whose mode is the sort picker, the picker
/// offers five sort orders and points at one of them.
pub proof fn lemma_sort_picker_in_range(s: Session)
    requires
        s.wf(),
    ensures
        s.mode matches ModeView::Sorting { selection, items } ==> items.len() == 5 && 0 <= selection
            < items.len(),
{
}

/// An event for which the key bindings name nothing in the active mode
/// changes nothing and asks for nothing.
pub proof fn lemma_unbound_changes_nothing(s: Session, event: EventView)
    requires
        !Session::bound(s.mode, event),
    ensures
        s.step(event) == (s, EffectView::Nothing),
{
}

/// The page goes back to one whenever the query or the sort order changes.
pub proof fn lemma_page_reset_on_change(s: Session, event: EventView)
    ensures
        s.step(event).0.query != s.query || s.step(event).0.sort != s.sort ==> s.step(event).0.page
            == 1,
{
}

/// A search that is asked for carries the query, page and sort order of the
/// session as the event left it.
pub proof fn lemma_search_carries_session(s: Session, event: EventView)
    ensures
        s.step(event).1 matches EffectView::Search(request) ==> request == s.step(
            event,
        ).0.request(),
{
}

/// A search that comes back with no packages leaves an empty result set and
/// no selection, whatever the mode, and the mode stays.
pub proof fn lemma_empty_results_clear_selection(s: Session)
    ensures
        ({
            let next = s.step(EventView::Results(Seq::empty())).0;
            &&& next.results == Some(Seq::<CrateSearchView>::empty())
            &&& next.selection is None
            &&& next.mode == s.mode
        }),
{
}

/// A search that comes back is taken in whatever the mode: the result set is
/// replaced, the first package is selected if there is one, the mode stays
/// and nothing is asked of the surroundings.
pub proof fn lemma_results_honored_in_every_mode(s: Session, found: Seq<CrateSearchView>)
    ensures
        s.step(EventView::Results(found)) == (s.with_results(found), EffectView::Nothing),
{
}

/// Of two searches that come back one after the other, the packages of the
/// one that came back last stay, whichever was asked for first.
pub proof fn lemma_last_results_win(
    s: Session,
    first: Seq<CrateSearchView>,
    second: Seq<CrateSearchView>,
)
    ensures
        s.step(EventView::Results(first)).0.step(EventView::Results(second)).0 == s.step(
            EventView::Results(second),
        ).0,
{
}

/// Enter in the query editor makes the buffer the query, goes back to the
/// first page and to browsing, and asks for exactly that search.
pub proof fn lemma_enter_commits_query(s: Session, buffer: Seq<char>, tick: u64)
    requires
        s.mode == (ModeView::Input { buffer, tick }),
    ensures
        ({
            let (next, effect) = s.step(EventView::Enter);
            &&& next.mode == ModeView::Normal
            &&& next.query == buffer
            &&& next.page == 1
            &&& next.sort == s.sort
            &&& effect == EffectView::Search(
                SearchRequestView { query: buffer, page: 1, sort: s.sort },
            )
        }),
{
}

/// Escape in the query editor goes back to browsing and throws the buffer
/// away: query, page and sort order stay, and no search is asked for.
pub proof fn lemma_escape_discards_buffer(s: Session, buffer: Seq<char>, tick: u64)
    requires
        s.mode == (ModeView::Input { buffer, tick }),
    ensures
        s.step(EventView::Esc) == (Session { mode: ModeView::Normal, ..s }, EffectView::Nothing),
{
}

/// The key for the previous page goes back one page and asks for it, and
/// does nothing on the first page.
pub proof fn lemma_previous_page(s: Session, c: char)
    requires
        s.mode == ModeView::Normal,
        key_is(c, 'p', 'P'),
    ensures
        s.page > 1 ==> s.step(EventView::Char(c)) == (
            Session { page: s.page - 1, ..s },
            EffectView::Search(
                SearchRequestView { query: s.query, page: s.page - 1, sort: s.sort },
            ),
        ),
        s.page == 1 ==> s.step(EventView::Char(c)) == (s, EffectView::Nothing),
{
}

/// In the sort picker the keys for up and down move the selection by one and
/// stop at the first and at the last of the five sort orders.
pub proof fn lemma_sort_picker_clamps(s: Session, selection: int, c: char)
    requires
        s.wf(),
        s.mode == (ModeView::Sorting { selection, items: CratesSort::all_spec() }),
    ensures
        ({
            let moved = if key_is(c, 'k', 'K') {
                if selection == 0 {
                    0
                } else {
                    selection - 1
                }
            } else if key_is(c, 'j', 'J') {
                if selection == 4 {
                    4
                } else {
                    selection + 1
                }
            } else {
                selection
            };
            s.step(EventView::Char(c)) == (
                Session {
                    mode: ModeView::Sorting { selection: moved, items: CratesSort::all_spec() },
                    ..s
                },
                EffectView::Nothing,
            )
        }),
{
}

} // verus!
