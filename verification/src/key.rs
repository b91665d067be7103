//! Physical keys, and where each one sits on the keyboard.

use vstd::prelude::*;

verus! {

/// A physical key of the keyboard. Keys that the controller has no name for
/// are `Unknown`.
#[derive(Clone, Copy, Debug, PartialEq, Eq, Hash)]
pub enum Key {
    A, B, C, D, E, F, G, H, I, J, K, L, M,
    N, O, P, Q, R, S, T, U, V, W, X, Y, Z,
    D0, D1, D2, D3, D4, D5, D6, D7, D8, D9,
    F1, F2, F3, F4, F5, F6, F7, F8, F9, F10, F11, F12,
    Space, Tab, Escape, Return, Backspace,
    Up, Down, Left, Right,
    Minus, Equals, LeftBracket, RightBracket,
    Semicolon, Comma, Period, Slash,
    Unknown,
}

impl Key {
    /// The digit printed on a key of the number row.
    pub open spec fn digit(self) -> Option<int> {
        match self {
            Key::D0 => Some(0),
            Key::D1 => Some(1),
            Key::D2 => Some(2),
            Key::D3 => Some(3),
            Key::D4 => Some(4),
            Key::D5 => Some(5),
            Key::D6 => Some(6),
            Key::D7 => Some(7),
            Key::D8 => Some(8),
            Key::D9 => Some(9),
            _ => None,
        }
    }

    /// The number of a function key.
    pub open spec fn function_number(self) -> Option<int> {
        match self {
            Key::F1 => Some(1),
            Key::F2 => Some(2),
            Key::F3 => Some(3),
            Key::F4 => Some(4),
            Key::F5 => Some(5),
            Key::F6 => Some(6),
            Key::F7 => Some(7),
            Key::F8 => Some(8),
            Key::F9 => Some(9),
            Key::F10 => Some(10),
            Key::F11 => Some(11),
            Key::F12 => Some(12),
            _ => None,
        }
    }

    /// The row of one of the three playable rows of ten keys: 1 for the
    /// bottom row (`Z` to `/`), 2 for the home row (`A` to `;`), 3 for the
    /// top row (`Q` to `P`).
    pub open spec fn row(self) -> Option<int> {
        match self {
            Key::Z | Key::X | Key::C | Key::V | Key::B | Key::N | Key::M | Key::Comma
            | Key::Period | Key::Slash => Some(1),
            Key::A | Key::S | Key::D | Key::F | Key::G | Key::H | Key::J | Key::K | Key::L
            | Key::Semicolon => Some(2),
            Key::Q | Key::W | Key::E | Key::R | Key::T | Key::Y | Key::U | Key::I | Key::O
            | Key::P => Some(3),
            _ => None,
        }
    }

    /// The place of a key in its playable row, counted from 0 at the left.
    pub open spec fn column(self) -> Option<int> {
        match self {
            Key::Z | Key::A | Key::Q => Some(0),
            Key::X | Key::S | Key::W => Some(1),
            Key::C | Key::D | Key::E => Some(2),
            Key::V | Key::F | Key::R => Some(3),
            Key::B | Key::G | Key::T => Some(4),
            Key::N | Key::H | Key::Y => Some(5),
            Key::M | Key::J | Key::U => Some(6),
            Key::Comma | Key::K | Key::I => Some(7),
            Key::Period | Key::L | Key::O => Some(8),
            Key::Slash | Key::Semicolon | Key::P => Some(9),
            _ => None,
        }
    }
}

/// A key is in a playable row exactly when it has a column there, and no two
/// keys share a row and a column.
pub proof fn lemma_positions_distinct(a: Key, b: Key)
    ensures
        a.row() is Some <==> a.column() is Some,
        a.row() is Some && a.row() == b.row() && a.column() == b.column() ==> a == b,
{
}

} // verus!
