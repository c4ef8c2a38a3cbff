//! The event model: keys, mouse buttons, and the events a macro is made of.

use vstd::prelude::*;

verus! {

/// A logical key of the keyboard.
#[derive(Clone, Copy, Debug, PartialEq, Eq, Structural, Hash)]
pub enum Key {
    A,
    B,
    C,
    D,
    E,
    F,
    G,
    H,
    I,
    J,
    K,
    L,
    M,
    N,
    O,
    P,
    Q,
    R,
    S,
    T,
    U,
    V,
    W,
    X,
    Y,
    Z,
    Number0,
    Number1,
    Number2,
    Number3,
    Number4,
    Number5,
    Number6,
    Number7,
    Number8,
    Number9,
    LeftAlt,
    RightAlt,
    LeftShift,
    RightShift,
    LeftControl,
    RightControl,
    BackSpace,
    Tab,
    Enter,
    Escape,
    Space,
    PageUp,
    PageDown,
    Home,
    Left,
    Up,
    Right,
    Down,
    Print,
    PrintScreen,
    Insert,
    Delete,
    LeftWindows,
    RightWindows,
    Comma,
    Period,
    Slash,
    SemiColon,
    Apostrophe,
    LeftBrace,
    BackwardSlash,
    RightBrace,
    Grave,
    F1,
    F2,
    F3,
    F4,
    F5,
    F6,
    F7,
    F8,
    F9,
    F10,
    F11,
    F12,
    F13,
    F14,
    F15,
    F16,
    F17,
    F18,
    F19,
    F20,
    F21,
    F22,
    F23,
    F24,
    NumLock,
    ScrollLock,
    CapsLock,
    Numpad0,
    Numpad1,
    Numpad2,
    Numpad3,
    Numpad4,
    Numpad5,
    Numpad6,
    Numpad7,
    Numpad8,
    Numpad9,
    Multiply,
    Add,
    Separator,
    Subtract,
    Decimal,
    Divide,
    /// A key outside the named set, by its platform code.
    Other(i32),
}

/// A button of the mouse.
#[derive(Clone, Copy, Debug, PartialEq, Eq, Structural, Hash)]
pub enum Button {
    Left,
    Right,
    Middle,
    Side,
    Extra,
    Forward,
    Back,
    Task,
}

/// One recorded input event.
///
/// A mouse click carries the absolute screen position it was made at,
/// counted from zero; the resolver gives no negative one. No position is
/// rejected here: one that the screen does not have fails, or does nothing,
/// when it is replayed.
#[derive(Clone, Copy, Debug, PartialEq, Eq, Structural, Hash)]
pub enum MacroEvent {
    Key(Key),
    MouseClick(Button, i32, i32),
}

/// A macro: recorded events in the order in which they occurred.
pub type MacroSequence = Vec<MacroEvent>;

} // verus!
