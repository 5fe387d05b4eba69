use torm::TormError;
use torm::event::{
    EventQueue, Key, KeyPhase, Modifiers, MouseButton, MousePhase, RawInput, TormEvent, normalize,
    tick_interval_millis,
};

fn no_modifiers() -> Modifiers {
    Modifiers { shift: false, control: false, alt: false }
}

#[test]
fn key_press_phase_is_forwarded() {
    let raw = RawInput::Key { code: Key::Char('j'), modifiers: no_modifiers(), phase: KeyPhase::Press };
    assert_eq!(
        normalize(raw),
        Some(TormEvent::KeyPress { code: Key::Char('j'), modifiers: no_modifiers() })
    );
}

#[test]
fn key_release_and_repeat_are_dropped() {
    let release = RawInput::Key { code: Key::Esc, modifiers: no_modifiers(), phase: KeyPhase::Release };
    let repeat = RawInput::Key { code: Key::Esc, modifiers: no_modifiers(), phase: KeyPhase::Repeat };
    assert_eq!(normalize(release), None);
    assert_eq!(normalize(repeat), None);
}

#[test]
fn mouse_button_down_is_forwarded_with_payload() {
    let raw = RawInput::Mouse { phase: MousePhase::Down(MouseButton::Right), column: 12, row: 34 };
    assert_eq!(
        normalize(raw),
        Some(TormEvent::MouseClick { column: 12, row: 34, button: MouseButton::Right })
    );
}

#[test]
fn other_mouse_phases_are_dropped() {
    for phase in [
        MousePhase::Up(MouseButton::Left),
        MousePhase::Drag(MouseButton::Left),
        MousePhase::Moved,
        MousePhase::Scroll,
    ] {
        let raw = RawInput::Mouse { phase, column: 1, row: 2 };
        assert_eq!(normalize(raw), None);
    }
}

#[test]
fn resize_and_unrecognized_inputs_are_dropped() {
    assert_eq!(normalize(RawInput::Resize { columns: 80, rows: 24 }), None);
    assert_eq!(normalize(RawInput::Other), None);
}

#[test]
fn tick_interval_truncates_to_whole_milliseconds() {
    assert_eq!(tick_interval_millis(140), 7);
    assert_eq!(tick_interval_millis(60), 16);
    assert_eq!(tick_interval_millis(1), 1000);
    assert_eq!(tick_interval_millis(1000), 1);
    assert_eq!(tick_interval_millis(3000), 0);
}

#[test]
fn queue_delivers_in_send_order() {
    let mut q = EventQueue::new();
    let key = |c: char| TormEvent::KeyPress { code: Key::Char(c), modifiers: no_modifiers() };
    let sent = [
        TormEvent::Tick,
        key('a'),
        TormEvent::Tick,
        TormEvent::Tick,
        key('b'),
        key('c'),
        TormEvent::Tick,
    ];
    for e in sent {
        assert!(q.send(e));
    }
    assert_eq!(q.len(), sent.len());
    for e in sent {
        assert_eq!(q.next(), Ok(e));
    }
    assert_eq!(q.len(), 0);
}

#[test]
fn closed_queue_still_drains_then_reports_end_of_stream() {
    let mut q = EventQueue::new();
    assert!(q.send(TormEvent::Tick));
    q.close();
    assert!(q.is_closed());
    assert_eq!(q.next(), Ok(TormEvent::Tick));
    assert_eq!(q.next(), Err(TormError::QueueClosed));
    assert_eq!(q.next(), Err(TormError::QueueClosed));
}

#[test]
fn closing_an_empty_queue_wakes_the_consumer_with_an_error() {
    let mut q = EventQueue::new();
    q.close();
    assert_eq!(q.next(), Err(TormError::QueueClosed));
}

#[test]
fn send_on_a_closed_queue_fails_and_changes_nothing() {
    let mut q = EventQueue::new();
    q.close();
    assert!(!q.send(TormEvent::Tick));
    assert_eq!(q.len(), 0);
    assert_eq!(q.next(), Err(TormError::QueueClosed));
}
