//! The logical keyboard-key vocabulary that bind actions speak of.
//!
//! The closed set of named keys covers alphanumerics, function keys,
//! modifiers, navigation and media keys; two open extension points carry a
//! raw numeric key code or a single Unicode character.

use vstd::prelude::*;

verus! {

/// A logical keyboard key.
#[derive(Debug, Clone, Copy, PartialEq, Eq, Structural)]
pub enum Key {
    // Letters:
    A, B, C, D, E, F, G, H, I, J, K, L, M,
    N, O, P, Q, R, S, T, U, V, W, X, Y, Z,
    // Function keys:
    F1, F2, F3, F4, F5, F6, F7, F8, F9, F10, F11, F12,
    // Digits:
    N0, N1, N2, N3, N4, N5, N6, N7, N8, N9,
    // Symbols:
    Plus,
    Minus,
    Equal,
    Multiply,
    Divide,
    // Special keys:
    Esc,
    Tab,
    CapsLock,
    Shift,
    Ctrl,
    Alt,
    Win,
    Space,
    Enter,
    Backspace,
    Delete,
    // Arrows:
    Left,
    Right,
    Up,
    Down,
    // Media keys:
    PlayPause,
    PrevTrack,
    NextTrack,
    Stop,
    VolumeUp,
    VolumeDown,
    Mute,
    // Extension points for keys outside the named set:
    Num(u32),
    Unicode(char),
}

} // verus!
