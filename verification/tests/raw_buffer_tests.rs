use event_transport::accumulator::Accumulator;
use event_transport::adapter::ConsumerAdapter;
use event_transport::event::{CanonicalEvent, Event, MouseButton};
use event_transport::raw_buffer::RawBuffer;
use event_transport::transport::{Config, PublishResult, Transport};

fn three_events() -> Vec<Event> {
    vec![
        Event::MouseDown { x: 3, y: 4, button: MouseButton::Left },
        Event::CharInput { ch: 'a' },
        Event::Resize { width: 80, height: 24 },
    ]
}

#[test]
fn raw_buffer_scenario_end_to_end() {
    // Producer records three events in one tick and drains; the consumer's
    // next polls see exactly these three, in order, and then nothing.
    let mut acc = Accumulator::new();
    let mut t = RawBuffer::new(Config::default().ring_capacity);
    for e in three_events() {
        acc.record(e);
    }
    assert_eq!(acc.drain_into(&mut t), PublishResult::Accepted);
    assert_eq!(acc.len(), 0);

    let mut ad = ConsumerAdapter::new(8, 16);
    assert_eq!(
        ad.poll(&mut t, 100),
        Some(CanonicalEvent::MousePress { col: 0, row: 0, button: MouseButton::Left })
    );
    assert_eq!(ad.poll(&mut t, 100), Some(CanonicalEvent::CharInput { ch: 'a' }));
    assert_eq!(ad.poll(&mut t, 100), Some(CanonicalEvent::ViewportChanged));
    // A second immediate take finds the region empty.
    assert_eq!(ad.poll(&mut t, 100), None);
}

#[test]
fn raw_buffer_take_all_empty_returns_empty() {
    let mut t = RawBuffer::new(Config::default().ring_capacity);
    assert!(t.take_all(Config::default().wait_timeout_ms).is_empty());
    assert!(t.take_all(Config::default().wait_timeout_ms).is_empty());
}

#[test]
fn raw_buffer_retry_with_accumulation_loses_nothing() {
    let mut acc = Accumulator::new();
    let mut t = RawBuffer::new(16);
    // The other side holds the lock word: the handoff is refused and the
    // accumulator keeps everything for the next tick.
    assert!(t.try_acquire());
    acc.record(Event::CharInput { ch: 'x' });
    assert_eq!(acc.drain_into(&mut t), PublishResult::Busy);
    assert_eq!(acc.len(), 1);
    // Next tick: the lock is free again and a newer event has arrived.
    t.release();
    acc.record(Event::CharInput { ch: 'y' });
    assert_eq!(acc.drain_into(&mut t), PublishResult::Accepted);
    assert_eq!(
        t.take_all(100),
        vec![Event::CharInput { ch: 'x' }, Event::CharInput { ch: 'y' }]
    );
}

#[test]
fn raw_buffer_accumulates_batches_in_order() {
    let mut t = RawBuffer::new(16);
    let b1 = vec![Event::CharInput { ch: '1' }, Event::CharInput { ch: '2' }];
    let b2 = vec![Event::CharInput { ch: '3' }];
    assert_eq!(t.try_publish(&b1), PublishResult::Accepted);
    // The consumer has not drained yet: the second batch lands behind the
    // first, never inside it.
    assert_eq!(t.try_publish(&b2), PublishResult::Accepted);
    let mut expected = b1.clone();
    expected.extend_from_slice(&b2);
    assert_eq!(t.take_all(100), expected);
}

#[test]
fn raw_buffer_capacity_is_enforced() {
    let mut t = RawBuffer::new(2);
    assert_eq!(t.try_publish(&three_events()), PublishResult::CapacityExceeded);
    assert!(t.take_all(100).is_empty());
    let two = vec![Event::CharInput { ch: 'a' }, Event::CharInput { ch: 'b' }];
    assert_eq!(t.try_publish(&two), PublishResult::Accepted);
    assert_eq!(t.try_publish(&vec![Event::CharInput { ch: 'c' }]), PublishResult::CapacityExceeded);
    assert_eq!(t.take_all(100), two);
}

#[test]
fn raw_buffer_producer_never_blocks_when_contended() {
    let mut t = RawBuffer::new(16);
    assert!(t.try_acquire());
    // With the lock word held by the other side the producer returns at
    // once, with nothing mutated.
    assert_eq!(t.try_publish(&three_events()), PublishResult::Busy);
    t.release();
    assert!(t.take_all(100).is_empty());
}
