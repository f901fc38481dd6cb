use event_transport::codec::{decode_batch, encode_batch, WORDS_PER_EVENT};
use event_transport::event::{Event, Key, MouseButton};

fn sample_events() -> Vec<Event> {
    vec![
        Event::MouseDown { x: 3, y: 4, button: MouseButton::Left },
        Event::MouseMove { x: 100, y: 200, button: MouseButton::Middle },
        Event::MouseUp { x: u32::MAX, y: 0, button: MouseButton::Other },
        Event::KeyPress { key: Key::Backspace },
        Event::KeyPress { key: Key::Right },
        Event::CharInput { ch: 'a' },
        Event::CharInput { ch: '語' },
        Event::CharInput { ch: '\u{10FFFF}' },
        Event::Resize { width: 80, height: 24 },
    ]
}

#[test]
fn words_per_event_is_four() {
    assert_eq!(WORDS_PER_EVENT, 4);
    let one = vec![Event::KeyPress { key: Key::Tab }];
    assert_eq!(encode_batch(&one).len(), 4);
}

#[test]
fn round_trip_all_variants() {
    let events = sample_events();
    let words = encode_batch(&events);
    assert_eq!(words.len(), 4 * events.len());
    let decoded = decode_batch(&words).expect("an encoded batch decodes");
    assert_eq!(decoded, events);
}

#[test]
fn exact_words_of_each_kind() {
    let words = encode_batch(&vec![Event::MouseDown { x: 3, y: 4, button: MouseButton::Left }]);
    assert_eq!(words, vec![0, 3, 4, 0]);
    let words = encode_batch(&vec![Event::MouseUp { x: 7, y: 9, button: MouseButton::Button5 }]);
    assert_eq!(words, vec![2, 7, 9, 4]);
    let words = encode_batch(&vec![Event::KeyPress { key: Key::Esc }]);
    assert_eq!(words, vec![3, 3, 0, 0]);
    let words = encode_batch(&vec![Event::CharInput { ch: 'a' }]);
    assert_eq!(words, vec![4, 97, 0, 0]);
    let words = encode_batch(&vec![Event::Resize { width: 80, height: 24 }]);
    assert_eq!(words, vec![5, 80, 24, 0]);
}

#[test]
fn decode_reads_a_real_character() {
    // Fails if the character construction handed its argument back wrong:
    // 0x8A9E is the scalar value of this character.
    let decoded = decode_batch(&[4, 0x8A9E, 0, 0]).expect("a valid scalar decodes");
    assert_eq!(decoded, vec![Event::CharInput { ch: '語' }]);
}

#[test]
fn decode_rejects_bad_groups() {
    // Unused tag.
    assert!(decode_batch(&[9, 0, 0, 0]).is_none());
    // Unused button code.
    assert!(decode_batch(&[0, 1, 2, 6]).is_none());
    // Unused key code.
    assert!(decode_batch(&[3, 10, 0, 0]).is_none());
    // A surrogate is not a scalar value.
    assert!(decode_batch(&[4, 0xD800, 0, 0]).is_none());
    // Past the last scalar value.
    assert!(decode_batch(&[4, 0x110000, 0, 0]).is_none());
    // Not a whole number of groups.
    assert!(decode_batch(&[5, 80, 24]).is_none());
    assert!(decode_batch(&[5, 80, 24, 0, 1]).is_none());
}

#[test]
fn decode_empty_region_is_empty_batch() {
    let decoded = decode_batch(&[]).expect("an empty region decodes");
    assert!(decoded.is_empty());
}

#[test]
fn batch_encoding_concatenates() {
    let a = vec![Event::CharInput { ch: 'x' }];
    let b = vec![Event::Resize { width: 1, height: 2 }];
    let mut both = a.clone();
    both.extend_from_slice(&b);
    let mut words = encode_batch(&a);
    words.extend_from_slice(&encode_batch(&b));
    assert_eq!(words, encode_batch(&both));
}
