//! The input event value type and its conversion into the higher-level
//! event consumed by the render loop.

use vstd::prelude::*;

verus! {

/// A mouse button, as reported by the platform's pointer events.
#[derive(Clone, Copy, Debug, PartialEq, Eq, Structural)]
pub enum MouseButton {
    Left,
    Middle,
    Right,
    Button4,
    Button5,
    Other,
}

/// A named control key, as reported by the platform's keyboard events.
#[derive(Clone, Copy, Debug, PartialEq, Eq, Structural)]
pub enum Key {
    Backspace,
    Tab,
    Enter,
    Esc,
    Ins,
    Del,
    Down,
    Up,
    Left,
    Right,
}

/// One input occurrence.
///
/// Positions are raw pixel coordinates; `Resize` carries the new viewport
/// size in pixels.  Every variant fits the same number of 32-bit words, so
/// a batch can be copied through a flat shared-memory region (see
/// [`crate::codec`]).
#[derive(Clone, Copy, Debug, PartialEq, Eq, Structural)]
pub enum Event {
    MouseDown { x: u32, y: u32, button: MouseButton },
    MouseMove { x: u32, y: u32, button: MouseButton },
    MouseUp { x: u32, y: u32, button: MouseButton },
    KeyPress { key: Key },
    CharInput { ch: char },
    Resize { width: u32, height: u32 },
}

/// The higher-level event handed to the render loop.
///
/// Mouse positions are grid coordinates: the raw pixel position divided by
/// the cell size.  A resize becomes a parameterless signal; the consumer
/// reads the new dimensions from the viewport itself, not from the event.
#[derive(Clone, Copy, Debug, PartialEq, Eq, Structural)]
pub enum CanonicalEvent {
    MousePress { col: u32, row: u32, button: MouseButton },
    MouseHold { col: u32, row: u32, button: MouseButton },
    MouseRelease { col: u32, row: u32, button: MouseButton },
    KeyPress { key: Key },
    CharInput { ch: char },
    ViewportChanged,
}

/// The mouse button that a platform button code stands for.
pub open spec fn spec_button_from_code(code: i16) -> MouseButton {
    if code == 0 {
        MouseButton::Left
    } else if code == 1 {
        MouseButton::Middle
    } else if code == 2 {
        MouseButton::Right
    } else if code == 3 {
        MouseButton::Button4
    } else if code == 4 {
        MouseButton::Button5
    } else {
        MouseButton::Other
    }
}

/// Maps a platform button code to a [`MouseButton`].
pub fn button_from_code(code: i16) -> (r: MouseButton)
    ensures
        r == spec_button_from_code(code),
{
    match code {
        0 => MouseButton::Left,
        1 => MouseButton::Middle,
        2 => MouseButton::Right,
        3 => MouseButton::Button4,
        4 => MouseButton::Button5,
        _ => MouseButton::Other,
    }
}

/// The higher-level event that `e` converts to under the given cell size.
///
/// Pixel positions are divided (integer division) by the cell width and
/// height; a resize loses its payload and becomes `ViewportChanged`.
pub open spec fn spec_canonical(e: Event, cell_width: u32, cell_height: u32) -> CanonicalEvent
    recommends
        cell_width > 0,
        cell_height > 0,
{
    match e {
        Event::MouseDown { x, y, button } => CanonicalEvent::MousePress {
            col: (x / cell_width) as u32,
            row: (y / cell_height) as u32,
            button,
        },
        Event::MouseMove { x, y, button } => CanonicalEvent::MouseHold {
            col: (x / cell_width) as u32,
            row: (y / cell_height) as u32,
            button,
        },
        Event::MouseUp { x, y, button } => CanonicalEvent::MouseRelease {
            col: (x / cell_width) as u32,
            row: (y / cell_height) as u32,
            button,
        },
        Event::KeyPress { key } => CanonicalEvent::KeyPress { key },
        Event::CharInput { ch } => CanonicalEvent::CharInput { ch },
        Event::Resize { .. } => CanonicalEvent::ViewportChanged,
    }
}

impl Event {
    /// Converts this event into the higher-level form, translating pixel
    /// positions into grid coordinates by the two external scale factors.
    pub fn to_canonical(self, cell_width: u32, cell_height: u32) -> (r: CanonicalEvent)
        requires
            cell_width > 0,
            cell_height > 0,
        ensures
            r == spec_canonical(self, cell_width, cell_height),
    {
        match self {
            Event::MouseDown { x, y, button } => CanonicalEvent::MousePress {
                col: x / cell_width,
                row: y / cell_height,
                button,
            },
            Event::MouseMove { x, y, button } => CanonicalEvent::MouseHold {
                col: x / cell_width,
                row: y / cell_height,
                button,
            },
            Event::MouseUp { x, y, button } => CanonicalEvent::MouseRelease {
                col: x / cell_width,
                row: y / cell_height,
                button,
            },
            Event::KeyPress { key } => CanonicalEvent::KeyPress { key },
            Event::CharInput { ch } => CanonicalEvent::CharInput { ch },
            Event::Resize { .. } => CanonicalEvent::ViewportChanged,
        }
    }
}

} // verus!
