use cratuity::input::{InputEvent, InputMonitor, KeyPress, POLL_TIMEOUT_SECS};
use crossbeam_channel::unbounded;

#[test]
fn translate_recognized_keys() {
    assert_eq!(InputMonitor::translate(KeyPress::Esc), Some(InputEvent::Esc));
    assert_eq!(InputMonitor::translate(KeyPress::Enter), Some(InputEvent::Enter));
    assert_eq!(InputMonitor::translate(KeyPress::Backspace), Some(InputEvent::Backspace));
    assert_eq!(InputMonitor::translate(KeyPress::Char('a')), Some(InputEvent::Char('a')));
    assert_eq!(InputMonitor::translate(KeyPress::Char('Q')), Some(InputEvent::Char('Q')));
    assert_eq!(InputMonitor::translate(KeyPress::Char('\u{e9}')), Some(InputEvent::Char('\u{e9}')));
}

#[test]
fn translate_ignores_other_keys() {
    assert_eq!(InputMonitor::translate(KeyPress::Other), None);
}

#[test]
fn publish_sends_the_event_of_the_key() {
    let (tx, rx) = unbounded();
    let monitor = InputMonitor::new(tx);
    assert_eq!(monitor.publish(KeyPress::Char('f')), Ok(true));
    assert_eq!(monitor.publish(KeyPress::Enter), Ok(true));
    assert_eq!(monitor.publish(KeyPress::Esc), Ok(true));
    assert_eq!(monitor.publish(KeyPress::Backspace), Ok(true));
    assert_eq!(rx.try_recv(), Ok(InputEvent::Char('f')));
    assert_eq!(rx.try_recv(), Ok(InputEvent::Enter));
    assert_eq!(rx.try_recv(), Ok(InputEvent::Esc));
    assert_eq!(rx.try_recv(), Ok(InputEvent::Backspace));
    assert!(rx.try_recv().is_err());
}

#[test]
fn publish_sends_nothing_for_other_keys() {
    let (tx, rx) = unbounded();
    let monitor = InputMonitor::new(tx);
    assert_eq!(monitor.publish(KeyPress::Other), Ok(false));
    assert!(rx.is_empty());
    drop(rx);
    assert_eq!(monitor.publish(KeyPress::Other), Ok(false));
}

#[test]
fn publish_hands_the_event_back_when_receiver_is_gone() {
    let (tx, rx) = unbounded();
    let monitor = InputMonitor::new(tx);
    assert_eq!(monitor.publish(KeyPress::Char('a')), Ok(true));
    drop(rx);
    assert_eq!(monitor.publish(KeyPress::Char('b')), Err(InputEvent::Char('b')));
    assert_eq!(monitor.publish(KeyPress::Enter), Err(InputEvent::Enter));
}

#[test]
fn poll_timeout_is_ten_seconds() {
    assert_eq!(POLL_TIMEOUT_SECS, 10);
}
