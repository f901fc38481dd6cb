//! Fixed-width binary layout for events.
//!
//! The flat shared-memory transport copies events across an execution-context
//! boundary as raw 32-bit words.  Every event is encoded into exactly
//! [`WORDS_PER_EVENT`] words (a tag word and three payload words, padded with
//! zeros), so that a batch of `n` events always occupies `4 * n` words and
//! decoding can walk the region in fixed-size groups.

use vstd::prelude::*;

use crate::event::{Event, Key, MouseButton};

verus! {

/// Number of 32-bit words every encoded event occupies.
pub const WORDS_PER_EVENT: usize = 4;

/// The code word that stands for a mouse button.
pub open spec fn spec_button_code(b: MouseButton) -> u32 {
    match b {
        MouseButton::Left => 0,
        MouseButton::Middle => 1,
        MouseButton::Right => 2,
        MouseButton::Button4 => 3,
        MouseButton::Button5 => 4,
        MouseButton::Other => 5,
    }
}

/// The mouse button a code word stands for; `None` for an unused code.
pub open spec fn spec_button_of_code(w: u32) -> Option<MouseButton> {
    if w == 0 {
        Some(MouseButton::Left)
    } else if w == 1 {
        Some(MouseButton::Middle)
    } else if w == 2 {
        Some(MouseButton::Right)
    } else if w == 3 {
        Some(MouseButton::Button4)
    } else if w == 4 {
        Some(MouseButton::Button5)
    } else if w == 5 {
        Some(MouseButton::Other)
    } else {
        None
    }
}

/// The code word that stands for a control key.
pub open spec fn spec_key_code(k: Key) -> u32 {
    match k {
        Key::Backspace => 0,
        Key::Tab => 1,
        Key::Enter => 2,
        Key::Esc => 3,
        Key::Ins => 4,
        Key::Del => 5,
        Key::Down => 6,
        Key::Up => 7,
        Key::Left => 8,
        Key::Right => 9,
    }
}

/// The control key a code word stands for; `None` for an unused code.
pub open spec fn spec_key_of_code(w: u32) -> Option<Key> {
    if w == 0 {
        Some(Key::Backspace)
    } else if w == 1 {
        Some(Key::Tab)
    } else if w == 2 {
        Some(Key::Enter)
    } else if w == 3 {
        Some(Key::Esc)
    } else if w == 4 {
        Some(Key::Ins)
    } else if w == 5 {
        Some(Key::Del)
    } else if w == 6 {
        Some(Key::Down)
    } else if w == 7 {
        Some(Key::Up)
    } else if w == 8 {
        Some(Key::Left)
    } else if w == 9 {
        Some(Key::Right)
    } else {
        None
    }
}

/// The four words that encode one event: a tag word and three payload words.
pub open spec fn spec_event_words(e: Event) -> Seq<u32> {
    match e {
        Event::MouseDown { x, y, button } => seq![0u32, x, y, spec_button_code(button)],
        Event::MouseMove { x, y, button } => seq![1u32, x, y, spec_button_code(button)],
        Event::MouseUp { x, y, button } => seq![2u32, x, y, spec_button_code(button)],
        Event::KeyPress { key } => seq![3u32, spec_key_code(key), 0u32, 0u32],
        Event::CharInput { ch } => seq![4u32, ch as u32, 0u32, 0u32],
        Event::Resize { width, height } => seq![5u32, width, height, 0u32],
    }
}

/// The event that one group of four words decodes to; `None` when the tag
/// or a code word is not one the encoder writes, or when a character word
/// is not a Unicode scalar value.  Padding words are ignored.
pub open spec fn spec_decode_event(w0: u32, w1: u32, w2: u32, w3: u32) -> Option<Event> {
    if w0 == 0 {
        match spec_button_of_code(w3) {
            Some(b) => Some(Event::MouseDown { x: w1, y: w2, button: b }),
            None => None,
        }
    } else if w0 == 1 {
        match spec_button_of_code(w3) {
            Some(b) => Some(Event::MouseMove { x: w1, y: w2, button: b }),
            None => None,
        }
    } else if w0 == 2 {
        match spec_button_of_code(w3) {
            Some(b) => Some(Event::MouseUp { x: w1, y: w2, button: b }),
            None => None,
        }
    } else if w0 == 3 {
        match spec_key_of_code(w1) {
            Some(k) => Some(Event::KeyPress { key: k }),
            None => None,
        }
    } else if w0 == 4 {
        if vstd::utf8::is_scalar(w1) {
            Some(Event::CharInput { ch: w1 as char })
        } else {
            None
        }
    } else if w0 == 5 {
        Some(Event::Resize { width: w1, height: w2 })
    } else {
        None
    }
}

/// The words that encode a whole batch, in batch order.
pub open spec fn spec_batch_words(events: Seq<Event>) -> Seq<u32>
    decreases events.len(),
{
    if events.len() == 0 {
        Seq::empty()
    } else {
        spec_event_words(events[0]) + spec_batch_words(events.drop_first())
    }
}

/// The batch that a word region decodes to, walking groups of four words
/// front to back; `None` when the region is not a whole number of groups
/// or some group does not decode.
pub open spec fn spec_decode_batch(words: Seq<u32>) -> Option<Seq<Event>>
    decreases words.len(),
{
    if words.len() == 0 {
        Some(Seq::empty())
    } else if words.len() < 4 {
        None
    } else {
        match spec_decode_event(words[0], words[1], words[2], words[3]) {
            Some(e) => match spec_decode_batch(words.skip(4)) {
                Some(rest) => Some(seq![e] + rest),
                None => None,
            },
            None => None,
        }
    }
}

/// Every encoded event occupies exactly four words.
pub proof fn lemma_event_words_len(e: Event)
    ensures
        spec_event_words(e).len() == 4,
{
}

/// Decoding the four words of an encoded event gives the event back.
pub proof fn lemma_event_round_trip(e: Event)
    ensures
        ({
            let w = spec_event_words(e);
            spec_decode_event(w[0], w[1], w[2], w[3]) == Some(e)
        }),
{
    if let Event::CharInput { ch } = e {
        vstd::utf8::char_is_scalar(ch);
        vstd::utf8::char_u32_cast(ch, ch as u32);
    }
}

/// A one-event batch encodes to exactly that event's words.
pub proof fn lemma_batch_words_singleton(e: Event)
    ensures
        spec_batch_words(seq![e]) == spec_event_words(e),
{
    reveal_with_fuel(spec_batch_words, 2);
    assert(seq![e].drop_first() =~= Seq::<Event>::empty());
    assert(spec_batch_words(seq![e]) =~= spec_event_words(e));
}

/// Encoding distributes over batch concatenation.
pub proof fn lemma_batch_words_concat(a: Seq<Event>, b: Seq<Event>)
    ensures
        spec_batch_words(a + b) == spec_batch_words(a) + spec_batch_words(b),
    decreases a.len(),
{
    if a.len() == 0 {
        assert(a + b =~= b);
        assert(spec_batch_words(a) + spec_batch_words(b) =~= spec_batch_words(b));
    } else {
        assert((a + b).drop_first() =~= a.drop_first() + b);
        lemma_batch_words_concat(a.drop_first(), b);
        assert(spec_batch_words(a + b) =~= spec_batch_words(a) + spec_batch_words(b));
    }
}

/// Decoding the words of an encoded batch gives the batch back, in order.
pub proof fn lemma_batch_round_trip(events: Seq<Event>)
    ensures
        spec_decode_batch(spec_batch_words(events)) == Some(events),
    decreases events.len(),
{
    if events.len() == 0 {
        assert(spec_decode_batch(spec_batch_words(events)) == Some(events)) by {
            assert(events =~= Seq::<Event>::empty());
        }
    } else {
        let e = events[0];
        let w = spec_event_words(e);
        let rest = spec_batch_words(events.drop_first());
        lemma_event_words_len(e);
        lemma_event_round_trip(e);
        lemma_batch_round_trip(events.drop_first());
        assert((w + rest).skip(4) =~= rest);
        assert((w + rest)[0] == w[0] && (w + rest)[1] == w[1] && (w + rest)[2] == w[2] && (w
            + rest)[3] == w[3]);
        assert(seq![e] + events.drop_first() =~= events);
    }
}

/// A decodable region is a whole number of four-word groups holding one
/// event per group.
pub proof fn lemma_decode_batch_len(words: Seq<u32>)
    requires
        spec_decode_batch(words) is Some,
    ensures
        words.len() % 4 == 0,
        4 * spec_decode_batch(words).unwrap().len() == words.len(),
    decreases words.len(),
{
    if words.len() == 0 {
    } else {
        lemma_decode_batch_len(words.skip(4));
    }
}

/// An encoded batch occupies exactly four words per event.
pub proof fn lemma_batch_words_len(events: Seq<Event>)
    ensures
        spec_batch_words(events).len() == 4 * events.len(),
    decreases events.len(),
{
    if events.len() > 0 {
        lemma_event_words_len(events[0]);
        lemma_batch_words_len(events.drop_first());
    }
}

/// Appending an encoded batch behind a decodable region appends the batch,
/// in order, to what the region decodes to.
pub proof fn lemma_decode_batch_append(w: Seq<u32>, events: Seq<Event>)
    requires
        spec_decode_batch(w) is Some,
    ensures
        spec_decode_batch(w + spec_batch_words(events)) == Some(
            spec_decode_batch(w).unwrap() + events,
        ),
    decreases w.len(),
{
    if w.len() == 0 {
        assert(w + spec_batch_words(events) =~= spec_batch_words(events));
        lemma_batch_round_trip(events);
        assert(spec_decode_batch(w).unwrap() + events =~= events);
    } else {
        let c = w + spec_batch_words(events);
        assert(c[0] == w[0] && c[1] == w[1] && c[2] == w[2] && c[3] == w[3]);
        assert(c.skip(4) =~= w.skip(4) + spec_batch_words(events));
        lemma_decode_batch_append(w.skip(4), events);
        let e = spec_decode_event(w[0], w[1], w[2], w[3]).unwrap();
        let rest = spec_decode_batch(w.skip(4)).unwrap();
        assert(seq![e] + (rest + events) =~= (seq![e] + rest) + events);
    }
}

/// Relies on char::from_u32: returns `Some` exactly for Unicode scalar
/// values (at most 0x10FFFF and not a surrogate), and the returned
/// character has the given value.
pub assume_specification[ char::from_u32 ](v: u32) -> (r: Option<char>)
    ensures
        r is Some <==> vstd::utf8::is_scalar(v),
        r matches Some(c) ==> c as u32 == v,
;

/// The code word for a mouse button.
pub fn button_code(b: MouseButton) -> (r: u32)
    ensures
        r == spec_button_code(b),
{
    match b {
        MouseButton::Left => 0,
        MouseButton::Middle => 1,
        MouseButton::Right => 2,
        MouseButton::Button4 => 3,
        MouseButton::Button5 => 4,
        MouseButton::Other => 5,
    }
}

/// The code word for a control key.
pub fn key_code(k: Key) -> (r: u32)
    ensures
        r == spec_key_code(k),
{
    match k {
        Key::Backspace => 0,
        Key::Tab => 1,
        Key::Enter => 2,
        Key::Esc => 3,
        Key::Ins => 4,
        Key::Del => 5,
        Key::Down => 6,
        Key::Up => 7,
        Key::Left => 8,
        Key::Right => 9,
    }
}

/// Appends the four words that encode `e`.
pub fn encode_event(e: &Event, out: &mut Vec<u32>)
    ensures
        final(out)@ == old(out)@ + spec_event_words(*e),
{
    match *e {
        Event::MouseDown { x, y, button } => {
            out.push(0);
            out.push(x);
            out.push(y);
            out.push(button_code(button));
        },
        Event::MouseMove { x, y, button } => {
            out.push(1);
            out.push(x);
            out.push(y);
            out.push(button_code(button));
        },
        Event::MouseUp { x, y, button } => {
            out.push(2);
            out.push(x);
            out.push(y);
            out.push(button_code(button));
        },
        Event::KeyPress { key } => {
            out.push(3);
            out.push(key_code(key));
            out.push(0);
            out.push(0);
        },
        Event::CharInput { ch } => {
            out.push(4);
            out.push(ch as u32);
            out.push(0);
            out.push(0);
        },
        Event::Resize { width, height } => {
            out.push(5);
            out.push(width);
            out.push(height);
            out.push(0);
        },
    }
    proof {
        assert(out@ =~= old(out)@ + spec_event_words(*e));
    }
}

/// Encodes a whole batch into freshly allocated words, in batch order.
pub fn encode_batch(events: &Vec<Event>) -> (r: Vec<u32>)
    ensures
        r@ == spec_batch_words(events@),
{
    let mut out: Vec<u32> = Vec::new();
    let mut i: usize = 0;
    while i < events.len()
        invariant
            i <= events@.len(),
            out@ == spec_batch_words(events@.take(i as int)),
        decreases events@.len() - i,
    {
        encode_event(&events[i], &mut out);
        proof {
            lemma_batch_words_concat(events@.take(i as int), seq![events@[i as int]]);
            lemma_batch_words_singleton(events@[i as int]);
            assert(events@.take(i as int) + seq![events@[i as int]] =~= events@.take(i as int + 1));
        }
        i = i + 1;
    }
    proof {
        assert(events@.take(events@.len() as int) =~= events@);
    }
    out
}

/// Decodes one group of four words.
pub fn decode_event(w0: u32, w1: u32, w2: u32, w3: u32) -> (r: Option<Event>)
    ensures
        r == spec_decode_event(w0, w1, w2, w3),
{
    if w0 <= 2 {
        let button = if w3 == 0 {
            Some(MouseButton::Left)
        } else if w3 == 1 {
            Some(MouseButton::Middle)
        } else if w3 == 2 {
            Some(MouseButton::Right)
        } else if w3 == 3 {
            Some(MouseButton::Button4)
        } else if w3 == 4 {
            Some(MouseButton::Button5)
        } else if w3 == 5 {
            Some(MouseButton::Other)
        } else {
            None
        };
        match button {
            Some(b) => {
                if w0 == 0 {
                    Some(Event::MouseDown { x: w1, y: w2, button: b })
                } else if w0 == 1 {
                    Some(Event::MouseMove { x: w1, y: w2, button: b })
                } else {
                    Some(Event::MouseUp { x: w1, y: w2, button: b })
                }
            },
            None => None,
        }
    } else if w0 == 3 {
        let key = if w1 == 0 {
            Some(Key::Backspace)
        } else if w1 == 1 {
            Some(Key::Tab)
        } else if w1 == 2 {
            Some(Key::Enter)
        } else if w1 == 3 {
            Some(Key::Esc)
        } else if w1 == 4 {
            Some(Key::Ins)
        } else if w1 == 5 {
            Some(Key::Del)
        } else if w1 == 6 {
            Some(Key::Down)
        } else if w1 == 7 {
            Some(Key::Up)
        } else if w1 == 8 {
            Some(Key::Left)
        } else if w1 == 9 {
            Some(Key::Right)
        } else {
            None
        };
        match key {
            Some(k) => Some(Event::KeyPress { key: k }),
            None => None,
        }
    } else if w0 == 4 {
        match char::from_u32(w1) {
            Some(c) => {
                proof {
                    vstd::utf8::char_u32_cast(c, w1);
                }
                Some(Event::CharInput { ch: c })
            },
            None => None,
        }
    } else if w0 == 5 {
        Some(Event::Resize { width: w1, height: w2 })
    } else {
        None
    }
}

/// Decodes a word region into the batch it encodes; `None` when the region
/// is not a whole number of groups or some group does not decode.
pub fn decode_batch(words: &[u32]) -> (r: Option<Vec<Event>>)
    ensures
        match r {
            Some(v) => spec_decode_batch(words@) == Some(v@),
            None => spec_decode_batch(words@) is None,
        },
{
    let n = words.len();
    let mut out: Vec<Event> = Vec::new();
    let mut i: usize = 0;
    proof {
        assert(words@.skip(0) =~= words@);
        if let Some(rest) = spec_decode_batch(words@) {
            assert(out@ + rest =~= rest);
        }
    }
    while i < n
        invariant
            n == words@.len(),
            i <= n,
            i % 4 == 0,
            spec_decode_batch(words@) == match spec_decode_batch(words@.skip(i as int)) {
                Some(rest) => Some(out@ + rest),
                None => None::<Seq<Event>>,
            },
        decreases n - i,
    {
        if n - i < 4 {
            proof {
                assert(words@.skip(i as int).len() < 4);
                assert(words@.skip(i as int).len() > 0);
            }
            return None;
        }
        let g = decode_event(words[i], words[i + 1], words[i + 2], words[i + 3]);
        proof {
            let tail = words@.skip(i as int);
            assert(tail[0] == words@[i as int]);
            assert(tail[1] == words@[i as int + 1]);
            assert(tail[2] == words@[i as int + 2]);
            assert(tail[3] == words@[i as int + 3]);
            assert(tail.skip(4) =~= words@.skip(i as int + 4));
        }
        match g {
            Some(e) => {
                let ghost pre = out@;
                out.push(e);
                proof {
                    if let Some(rest) = spec_decode_batch(words@.skip(i as int + 4)) {
                        assert(pre + (seq![e] + rest) =~= out@ + rest);
                    }
                }
                i = i + 4;
            },
            None => {
                return None;
            },
        }
    }
    proof {
        assert(words@.skip(n as int) =~= Seq::<u32>::empty());
        assert(out@ + Seq::<Event>::empty() =~= out@);
    }
    Some(out)
}

} // verus!
