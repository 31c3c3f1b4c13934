//! The events that drive a session, and the monitor that turns key presses
//! into events.

use crate::channel::send_event;
use crate::crates_io::{CrateSearchResponse, CrateSearchView};
use crossbeam_channel::Sender;
use vstd::prelude::*;

verus! {

/// One entry of the merged event stream: a key, a heartbeat, or the outcome
/// of a search.
#[derive(Clone, Debug, PartialEq, Eq)]
pub enum InputEvent {
    Char(char),
    Esc,
    Enter,
    Backspace,
    /// The heartbeat that makes the cursor of the query editor blink.
    Tick,
    /// A search came back with these packages.
    Results(CrateSearchResponse),
    /// A search came back without an answer.
    SearchFailed,
}

/// An event as plain values.
pub enum EventView {
    Char(char),
    Esc,
    Enter,
    Backspace,
    Tick,
    Results(Seq<CrateSearchView>),
    SearchFailed,
}

impl View for InputEvent {
    type V = EventView;

    open spec fn view(&self) -> EventView {
        match self {
            InputEvent::Char(c) => EventView::Char(*c),
            InputEvent::Esc => EventView::Esc,
            InputEvent::Enter => EventView::Enter,
            InputEvent::Backspace => EventView::Backspace,
            InputEvent::Tick => EventView::Tick,
            InputEvent::Results(response) => EventView::Results(response@),
            InputEvent::SearchFailed => EventView::SearchFailed,
        }
    }
}

/// What the terminal reports of one key press, as far as the monitor tells
/// keys apart.
#[derive(Clone, Copy, Debug, PartialEq, Eq)]
pub enum KeyPress {
    Char(char),
    Esc,
    Enter,
    Backspace,
    /// Any key that stands for no event.
    Other,
}

/// The seconds for which the monitor waits for the terminal before it asks
/// again.
pub const POLL_TIMEOUT_SECS: u64 = 10;

/// Publishes the keys that the terminal reports on the event channel.
pub struct InputMonitor {
    tx: Sender<InputEvent>,
}

impl InputMonitor {
    /// The sending end on which this monitor publishes.
    pub closed spec fn sender(&self) -> Sender<InputEvent> {
        self.tx
    }

    /// The event that a key press stands for, if it stands for one.
    pub open spec fn translate_spec(key: KeyPress) -> Option<EventView> {
        match key {
            KeyPress::Char(c) => Some(EventView::Char(c)),
            KeyPress::Esc => Some(EventView::Esc),
            KeyPress::Enter => Some(EventView::Enter),
            KeyPress::Backspace => Some(EventView::Backspace),
            KeyPress::Other => None,
        }
    }

    /// A monitor that publishes on `tx`.
    pub fn new(tx: Sender<InputEvent>) -> (monitor: Self)
        ensures
            monitor.sender() == tx,
    {
        InputMonitor { tx }
    }

    /// Maps a key press to its event. Keys of no recognized class map to
    /// nothing.
    pub fn translate(key: KeyPress) -> (event: Option<InputEvent>)
        ensures
            match event {
                Some(e) => Self::translate_spec(key) == Some(e@),
                None => Self::translate_spec(key) is None,
            },
    {
        match key {
            KeyPress::Char(c) => Some(InputEvent::Char(c)),
            KeyPress::Esc => Some(InputEvent::Esc),
            KeyPress::Enter => Some(InputEvent::Enter),
            KeyPress::Backspace => Some(InputEvent::Backspace),
            KeyPress::Other => None,
        }
    }

    /// One step of the monitor: publishes the event of `key`, if it has one.
    /// A key without an event sends nothing, which is `Ok(false)`. A key
    /// with an event has it sent: `Ok(true)` when the channel took it, and
    /// the event itself as the error when nobody listens any more, which is
    /// when the monitor stops.
    pub fn publish(&self, key: KeyPress) -> (outcome: Result<bool, InputEvent>)
        ensures
            match Self::translate_spec(key) {
                None => outcome == Ok::<bool, InputEvent>(false),
                Some(event) => outcome == Ok::<bool, InputEvent>(true) || (outcome matches Err(back)
                    && back@ == event),
            },
    {
        match Self::translate(key) {
            Some(event) => match send_event(&self.tx, event) {
                Ok(()) => Ok(true),
                Err(back) => Err(back),
            },
            None => Ok(false),
        }
    }
}

} // verus!
