use event_transport::accumulator::{Accumulator, InputTracker};
use event_transport::blocking_queue::BlockingQueue;
use event_transport::event::{button_from_code, CanonicalEvent, Event, Key, MouseButton};
use event_transport::transport::{PublishResult, Transport};

#[test]
fn accumulator_keeps_insertion_order() {
    let mut acc = Accumulator::new();
    acc.record(Event::KeyPress { key: Key::Up });
    acc.record(Event::KeyPress { key: Key::Down });
    acc.record(Event::CharInput { ch: 'q' });
    assert_eq!(acc.len(), 3);
    let mut t = BlockingQueue::new();
    assert_eq!(acc.drain_into(&mut t), PublishResult::Accepted);
    assert_eq!(acc.len(), 0);
    assert_eq!(
        t.take_all(100),
        vec![
            Event::KeyPress { key: Key::Up },
            Event::KeyPress { key: Key::Down },
            Event::CharInput { ch: 'q' },
        ]
    );
}

#[test]
fn empty_drain_touches_nothing() {
    let mut acc = Accumulator::new();
    let mut t = BlockingQueue::new();
    assert_eq!(acc.drain_into(&mut t), PublishResult::Accepted);
    assert!(t.take_all(100).is_empty());
}

#[test]
fn tracker_records_movement_only_while_holding() {
    let mut tr = InputTracker::new();
    // Hover before any press: nothing.
    assert_eq!(tr.pointer_move(1, 1, MouseButton::Left), None);
    let down = tr.pointer_down(2, 3, MouseButton::Left);
    assert_eq!(down, Event::MouseDown { x: 2, y: 3, button: MouseButton::Left });
    assert_eq!(
        tr.pointer_move(4, 5, MouseButton::Left),
        Some(Event::MouseMove { x: 4, y: 5, button: MouseButton::Left })
    );
    let up = tr.pointer_up(6, 7, MouseButton::Left);
    assert_eq!(up, Event::MouseUp { x: 6, y: 7, button: MouseButton::Left });
    // Hover after the release: nothing again.
    assert_eq!(tr.pointer_move(8, 9, MouseButton::Left), None);
}

#[test]
fn button_codes_cover_every_button() {
    assert_eq!(button_from_code(0), MouseButton::Left);
    assert_eq!(button_from_code(1), MouseButton::Middle);
    assert_eq!(button_from_code(2), MouseButton::Right);
    assert_eq!(button_from_code(3), MouseButton::Button4);
    assert_eq!(button_from_code(4), MouseButton::Button5);
    assert_eq!(button_from_code(5), MouseButton::Other);
    assert_eq!(button_from_code(-1), MouseButton::Other);
}

#[test]
fn canonical_conversion_divides_by_cell_size() {
    let e = Event::MouseDown { x: 17, y: 35, button: MouseButton::Right };
    assert_eq!(
        e.to_canonical(8, 16),
        CanonicalEvent::MousePress { col: 2, row: 2, button: MouseButton::Right }
    );
    let e = Event::MouseMove { x: 7, y: 16, button: MouseButton::Left };
    assert_eq!(
        e.to_canonical(8, 16),
        CanonicalEvent::MouseHold { col: 0, row: 1, button: MouseButton::Left }
    );
    let e = Event::MouseUp { x: 8, y: 15, button: MouseButton::Middle };
    assert_eq!(
        e.to_canonical(8, 16),
        CanonicalEvent::MouseRelease { col: 1, row: 0, button: MouseButton::Middle }
    );
    assert_eq!(
        Event::KeyPress { key: Key::Del }.to_canonical(8, 16),
        CanonicalEvent::KeyPress { key: Key::Del }
    );
    assert_eq!(
        Event::CharInput { ch: 'é' }.to_canonical(8, 16),
        CanonicalEvent::CharInput { ch: 'é' }
    );
    // The resize payload is dropped: the consumer reads the viewport.
    assert_eq!(
        Event::Resize { width: 640, height: 480 }.to_canonical(8, 16),
        CanonicalEvent::ViewportChanged
    );
}
