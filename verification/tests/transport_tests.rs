use event_transport::adapter::ConsumerAdapter;
use event_transport::blocking_queue::BlockingQueue;
use event_transport::flag::SpinFlag;
use event_transport::event::{CanonicalEvent, Event, Key, MouseButton};
use event_transport::spin_ring::SpinFlagRing;
use event_transport::transport::{Config, PublishResult, Transport};

fn three_events() -> Vec<Event> {
    vec![
        Event::MouseDown { x: 3, y: 4, button: MouseButton::Left },
        Event::CharInput { ch: 'a' },
        Event::Resize { width: 80, height: 24 },
    ]
}

#[test]
fn config_default_policy_values() {
    let c = Config::default();
    assert_eq!(c.ring_capacity, 2048);
    assert_eq!(c.wait_timeout_ms, 100);
}

#[test]
fn spin_flag_acquires_exactly_when_free() {
    let mut flag = SpinFlag::new();
    assert!(flag.try_acquire());
    // A second attempt fails while held, and failure is reported, never
    // retried internally.
    assert!(!flag.try_acquire());
    flag.release();
    assert!(flag.try_acquire());
}

#[test]
fn blocking_queue_delivers_in_order() {
    let mut t = BlockingQueue::new();
    assert_eq!(t.try_publish(&three_events()), PublishResult::Accepted);
    assert_eq!(t.take_all(100), three_events());
    assert!(t.take_all(100).is_empty());
}

#[test]
fn blocking_queue_batches_never_interleave() {
    let mut t = BlockingQueue::new();
    let b1 = three_events();
    let b2 = vec![Event::KeyPress { key: Key::Enter }, Event::CharInput { ch: 'z' }];
    assert_eq!(t.try_publish(&b1), PublishResult::Accepted);
    assert_eq!(t.try_publish(&b2), PublishResult::Accepted);
    let mut expected = b1.clone();
    expected.extend_from_slice(&b2);
    assert_eq!(t.take_all(100), expected);
}

#[test]
fn blocking_queue_contended_consumer_gets_nothing() {
    let mut t = BlockingQueue::new();
    assert_eq!(t.try_publish(&three_events()), PublishResult::Accepted);
    assert!(t.try_acquire());
    // The lock is held by the other side: this tick yields nothing, and
    // nothing is lost.
    assert!(t.take_all(100).is_empty());
    t.release();
    assert_eq!(t.take_all(100), three_events());
}

#[test]
fn spin_ring_delivers_in_order() {
    let mut t = SpinFlagRing::new(Config::default().ring_capacity);
    assert_eq!(t.try_publish(&three_events()), PublishResult::Accepted);
    assert_eq!(t.take_all(100), three_events());
    assert!(t.take_all(100).is_empty());
}

#[test]
fn spin_ring_busy_under_contention() {
    let mut t = SpinFlagRing::new(8);
    assert!(t.try_acquire());
    // A held flag means "try again next tick" for both sides, immediately.
    assert_eq!(t.try_publish(&three_events()), PublishResult::Busy);
    assert!(t.take_all(100).is_empty());
    t.release();
    assert_eq!(t.try_publish(&three_events()), PublishResult::Accepted);
    assert_eq!(t.take_all(100), three_events());
}

#[test]
fn spin_ring_capacity_boundary() {
    let cap = Config::default().ring_capacity;
    let mut t = SpinFlagRing::new(cap);
    let full: Vec<Event> = (0..cap as u32)
        .map(|i| Event::MouseMove { x: i, y: i, button: MouseButton::Left })
        .collect();
    // Exactly the ring capacity fits...
    assert_eq!(t.try_publish(&full), PublishResult::Accepted);
    // ...and one more event before any drain is a hard error.
    let one = vec![Event::CharInput { ch: '!' }];
    assert_eq!(t.try_publish(&one), PublishResult::CapacityExceeded);
    // The refusal mutated nothing: the full batch is still delivered.
    assert_eq!(t.take_all(100), full);
}

#[test]
fn adapter_pulls_one_event_per_iteration() {
    let mut t = SpinFlagRing::new(8);
    assert_eq!(
        t.try_publish(&vec![
            Event::KeyPress { key: Key::Up },
            Event::CharInput { ch: 'k' },
        ]),
        PublishResult::Accepted
    );
    let mut ad = ConsumerAdapter::new(8, 16);
    // One pull per render-loop iteration, in order, then nothing.
    assert_eq!(ad.poll(&mut t, 100), Some(CanonicalEvent::KeyPress { key: Key::Up }));
    assert_eq!(ad.poll(&mut t, 100), Some(CanonicalEvent::CharInput { ch: 'k' }));
    assert_eq!(ad.poll(&mut t, 100), None);
}

#[test]
fn spin_ring_refuses_overflowing_batch_whole() {
    let mut t = SpinFlagRing::new(2);
    let batch = three_events();
    assert_eq!(t.try_publish(&batch), PublishResult::CapacityExceeded);
    // Nothing was mutated: not even a prefix went in.
    assert!(t.take_all(100).is_empty());
}
