//! Messages whose variants each carry different amounts and kinds of data,
//! including one holding a nested tagged union of color encodings.

use vstd::prelude::*;

verus! {

/// A color in one of two encodings; each variant carries its own three
/// components.
#[derive(Clone, Copy, Debug, PartialEq, Eq, Structural)]
pub enum Color {
    Rgb(i32, i32, i32),
    Hsv(i32, i32, i32),
}

/// A message: a bare termination tag, a move with named fields, a text to
/// write, or a color change carrying a nested `Color`.
#[derive(Clone, Debug, PartialEq, Eq)]
pub enum Message {
    Quit,
    Move { x: i32, y: i32 },
    Write(String),
    ChangeColor(Color),
}

/// The fixed numeric code of each message variant.
pub open spec fn spec_message_code(msg: Message) -> u8 {
    match msg {
        Message::Quit => 0,
        Message::Move { .. } => 1,
        Message::Write(_) => 2,
        Message::ChangeColor(_) => 3,
    }
}

impl Message {
    /// Derives the numeric code of this message's variant. The match is
    /// exhaustive: every variant has a defined code.
    pub fn call(&self) -> (code: u8)
        ensures
            code == spec_message_code(*self),
    {
        match self {
            Message::Quit => 0,
            Message::Move { .. } => 1,
            Message::Write(_) => 2,
            Message::ChangeColor(_) => 3,
        }
    }
}

/// What `rgb_components` returns: the three components when the message
/// recolors to an RGB color, and nothing for every other message.
pub open spec fn spec_rgb_components(msg: Message) -> Option<(i32, i32, i32)> {
    match msg {
        Message::ChangeColor(Color::Rgb(r, g, b)) => Some((r, g, b)),
        _ => None,
    }
}

/// Extracts the RGB components through a nested pattern: only a recolor to
/// an RGB color yields them; a wildcard arm discards all remaining variants
/// of both unions at once.
pub fn rgb_components(msg: &Message) -> (r: Option<(i32, i32, i32)>)
    ensures
        r == spec_rgb_components(*msg),
{
    match msg {
        Message::ChangeColor(Color::Rgb(r, g, b)) => Some((*r, *g, *b)),
        _ => None,
    }
}

} // verus!
