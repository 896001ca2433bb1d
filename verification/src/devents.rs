//! Data model of recorded desktop events.
//!
//! A recorded event carries the session identifier, exactly one of three
//! action variants (mouse button, keyboard, scroll), the last known pointer
//! position in scaled integer screen coordinates, and a wall-clock
//! timestamp with nanosecond resolution. Raw OS-level input is modelled by
//! [`OsEvent`], whose key and button identities are the plain enumerations
//! [`OsKey`] and [`OsButton`]; the boundary that subscribes to the OS input
//! stream translates into these one variant at a time.

use vstd::prelude::*;

verus! {

/// Mouse-button action of a recorded event.
#[derive(Clone, Copy, Debug, PartialEq, Eq)]
pub enum MouseAction {
    Left,
    Right,
    Middle,
    Other(u8),
}

/// The closed enumeration of symbolic keys a keyboard action can carry.
/// `Unknown` carries the raw platform scan code.
#[derive(Clone, Copy, Debug, PartialEq, Eq)]
pub enum KeyboardActionKey {
    // Modifier keys
    CapsLock,
    Shift,
    Control,
    Fn,
    Alt,
    Meta,
    // Function keys
    F1,
    F2,
    F3,
    F4,
    F5,
    F6,
    F7,
    F8,
    F9,
    F10,
    F11,
    F12,
    // Alphabet keys
    A,
    B,
    C,
    D,
    E,
    F,
    G,
    H,
    I,
    J,
    K,
    L,
    M,
    N,
    O,
    P,
    Q,
    R,
    S,
    T,
    U,
    V,
    W,
    X,
    Y,
    Z,
    // Number keys
    Num0,
    Num1,
    Num2,
    Num3,
    Num4,
    Num5,
    Num6,
    Num7,
    Num8,
    Num9,
    // Navigation keys
    ArrowUp,
    ArrowDown,
    ArrowLeft,
    ArrowRight,
    Home,
    End,
    PageUp,
    PageDown,
    // Special keys
    Escape,
    Enter,
    Tab,
    Space,
    Backspace,
    Insert,
    Delete,
    NumLock,
    ScrollLock,
    Pause,
    PrintScreen,
    // Symbols
    Grave,
    Minus,
    Equal,
    BracketLeft,
    BracketRight,
    Semicolon,
    Quote,
    Comma,
    Period,
    Slash,
    Backslash,
    Unknown(u32),
}

/// Keyboard action: a symbolic key plus a synthetic press duration in
/// milliseconds.
#[derive(Clone, Copy, Debug, PartialEq, Eq)]
pub struct KeyboardAction {
    pub key: KeyboardActionKey,
    pub duration: i32,
}

/// Scroll action: signed wheel deltas.
#[derive(Clone, Copy, Debug, PartialEq, Eq)]
pub struct ScrollAction {
    pub x: i32,
    pub y: i32,
}

/// One recorded desktop event, as submitted to the event-ingest endpoint.
/// At most one of the three action options is set.
#[derive(Clone, Copy, Debug, PartialEq, Eq)]
pub struct DeventRequest {
    pub session_id: u128,
    pub mouse_action: Option<MouseAction>,
    pub keyboard_action: Option<KeyboardAction>,
    pub scroll_action: Option<ScrollAction>,
    pub mouse_x: i32,
    pub mouse_y: i32,
    pub event_timestamp_nanos: i64,
}

/// The batch of recorded events posted once when a session stops.
#[derive(Clone, Debug, PartialEq, Eq)]
pub struct DeventRequestWrapper {
    pub events: Vec<DeventRequest>,
}

/// Body of the request that asks the remote service for a signed upload
/// URL for one recording segment.
#[derive(Clone, Copy, Debug, PartialEq, Eq)]
pub struct SaveRecordingRequest {
    pub recording_id: u128,
    pub session_id: u128,
    pub start_timestamp_nanos: i64,
    pub duration_ms: u64,
}

/// Identity of a mouse button as the OS input stream reports it.
#[derive(Clone, Copy, Debug, PartialEq, Eq)]
pub enum OsButton {
    Left,
    Right,
    Middle,
    Unknown(u8),
}

/// Identity of a key as the OS input stream reports it. The names follow
/// the physical positions of a standard layout; `Unknown` carries a raw
/// platform scan code and `Other` stands for every reported key that the
/// engine does not distinguish.
#[derive(Clone, Copy, Debug, PartialEq, Eq)]
pub enum OsKey {
    Alt,
    AltGr,
    Backspace,
    CapsLock,
    ControlLeft,
    ControlRight,
    Delete,
    DownArrow,
    End,
    Escape,
    F1,
    F2,
    F3,
    F4,
    F5,
    F6,
    F7,
    F8,
    F9,
    F10,
    F11,
    F12,
    Home,
    LeftArrow,
    MetaLeft,
    MetaRight,
    PageDown,
    PageUp,
    Return,
    RightArrow,
    ShiftLeft,
    ShiftRight,
    Space,
    Tab,
    UpArrow,
    PrintScreen,
    ScrollLock,
    Pause,
    NumLock,
    BackQuote,
    Num0,
    Num1,
    Num2,
    Num3,
    Num4,
    Num5,
    Num6,
    Num7,
    Num8,
    Num9,
    Minus,
    Equal,
    KeyQ,
    KeyW,
    KeyE,
    KeyR,
    KeyT,
    KeyY,
    KeyU,
    KeyI,
    KeyO,
    KeyP,
    LeftBracket,
    RightBracket,
    KeyA,
    KeyS,
    KeyD,
    KeyF,
    KeyG,
    KeyH,
    KeyJ,
    KeyK,
    KeyL,
    SemiColon,
    Quote,
    BackSlash,
    KeyZ,
    KeyX,
    KeyC,
    KeyV,
    KeyB,
    KeyN,
    KeyM,
    Comma,
    Dot,
    Slash,
    Insert,
    Function,
    Unknown(u32),
    Other,
}

/// One delivery from the OS global input stream, with pointer coordinates
/// already adjusted by the display scale factor.
#[derive(Clone, Copy, Debug, PartialEq, Eq)]
pub enum OsEvent {
    KeyPress(OsKey),
    KeyRelease(OsKey),
    ButtonPress(OsButton),
    ButtonRelease(OsButton),
    MouseMove { x: i32, y: i32 },
    Wheel { delta_x: i64, delta_y: i64 },
}

/// The mouse action recorded for a button reported by the OS.
pub open spec fn button_action_of(b: OsButton) -> MouseAction {
    match b {
        OsButton::Left => MouseAction::Left,
        OsButton::Right => MouseAction::Right,
        OsButton::Middle => MouseAction::Middle,
        OsButton::Unknown(byte) => MouseAction::Other(byte),
    }
}

/// The symbolic key recorded for a key reported by the OS. Left and right
/// variants of a modifier collapse to one key; keys the engine does not
/// distinguish map to `Unknown(0)`.
pub open spec fn key_action_of(k: OsKey) -> KeyboardActionKey {
    match k {
        OsKey::Alt => KeyboardActionKey::Alt,
        OsKey::AltGr => KeyboardActionKey::Alt,
        OsKey::Backspace => KeyboardActionKey::Backspace,
        OsKey::CapsLock => KeyboardActionKey::CapsLock,
        OsKey::ControlLeft => KeyboardActionKey::Control,
        OsKey::ControlRight => KeyboardActionKey::Control,
        OsKey::Delete => KeyboardActionKey::Delete,
        OsKey::DownArrow => KeyboardActionKey::ArrowDown,
        OsKey::End => KeyboardActionKey::End,
        OsKey::Escape => KeyboardActionKey::Escape,
        OsKey::F1 => KeyboardActionKey::F1,
        OsKey::F2 => KeyboardActionKey::F2,
        OsKey::F3 => KeyboardActionKey::F3,
        OsKey::F4 => KeyboardActionKey::F4,
        OsKey::F5 => KeyboardActionKey::F5,
        OsKey::F6 => KeyboardActionKey::F6,
        OsKey::F7 => KeyboardActionKey::F7,
        OsKey::F8 => KeyboardActionKey::F8,
        OsKey::F9 => KeyboardActionKey::F9,
        OsKey::F10 => KeyboardActionKey::F10,
        OsKey::F11 => KeyboardActionKey::F11,
        OsKey::F12 => KeyboardActionKey::F12,
        OsKey::Home => KeyboardActionKey::Home,
        OsKey::LeftArrow => KeyboardActionKey::ArrowLeft,
        OsKey::MetaLeft => KeyboardActionKey::Meta,
        OsKey::MetaRight => KeyboardActionKey::Meta,
        OsKey::PageDown => KeyboardActionKey::PageDown,
        OsKey::PageUp => KeyboardActionKey::PageUp,
        OsKey::Return => KeyboardActionKey::Enter,
        OsKey::RightArrow => KeyboardActionKey::ArrowRight,
        OsKey::ShiftLeft => KeyboardActionKey::Shift,
        OsKey::ShiftRight => KeyboardActionKey::Shift,
        OsKey::Space => KeyboardActionKey::Space,
        OsKey::Tab => KeyboardActionKey::Tab,
        OsKey::UpArrow => KeyboardActionKey::ArrowUp,
        OsKey::PrintScreen => KeyboardActionKey::PrintScreen,
        OsKey::ScrollLock => KeyboardActionKey::ScrollLock,
        OsKey::Pause => KeyboardActionKey::Pause,
        OsKey::NumLock => KeyboardActionKey::NumLock,
        OsKey::BackQuote => KeyboardActionKey::Grave,
        OsKey::Num0 => KeyboardActionKey::Num0,
        OsKey::Num1 => KeyboardActionKey::Num1,
        OsKey::Num2 => KeyboardActionKey::Num2,
        OsKey::Num3 => KeyboardActionKey::Num3,
        OsKey::Num4 => KeyboardActionKey::Num4,
        OsKey::Num5 => KeyboardActionKey::Num5,
        OsKey::Num6 => KeyboardActionKey::Num6,
        OsKey::Num7 => KeyboardActionKey::Num7,
        OsKey::Num8 => KeyboardActionKey::Num8,
        OsKey::Num9 => KeyboardActionKey::Num9,
        OsKey::Minus => KeyboardActionKey::Minus,
        OsKey::Equal => KeyboardActionKey::Equal,
        OsKey::KeyQ => KeyboardActionKey::Q,
        OsKey::KeyW => KeyboardActionKey::W,
        OsKey::KeyE => KeyboardActionKey::E,
        OsKey::KeyR => KeyboardActionKey::R,
        OsKey::KeyT => KeyboardActionKey::T,
        OsKey::KeyY => KeyboardActionKey::Y,
        OsKey::KeyU => KeyboardActionKey::U,
        OsKey::KeyI => KeyboardActionKey::I,
        OsKey::KeyO => KeyboardActionKey::O,
        OsKey::KeyP => KeyboardActionKey::P,
        OsKey::LeftBracket => KeyboardActionKey::BracketLeft,
        OsKey::RightBracket => KeyboardActionKey::BracketRight,
        OsKey::KeyA => KeyboardActionKey::A,
        OsKey::KeyS => KeyboardActionKey::S,
        OsKey::KeyD => KeyboardActionKey::D,
        OsKey::KeyF => KeyboardActionKey::F,
        OsKey::KeyG => KeyboardActionKey::G,
        OsKey::KeyH => KeyboardActionKey::H,
        OsKey::KeyJ => KeyboardActionKey::J,
        OsKey::KeyK => KeyboardActionKey::K,
        OsKey::KeyL => KeyboardActionKey::L,
        OsKey::SemiColon => KeyboardActionKey::Semicolon,
        OsKey::Quote => KeyboardActionKey::Quote,
        OsKey::BackSlash => KeyboardActionKey::Backslash,
        OsKey::KeyZ => KeyboardActionKey::Z,
        OsKey::KeyX => KeyboardActionKey::X,
        OsKey::KeyC => KeyboardActionKey::C,
        OsKey::KeyV => KeyboardActionKey::V,
        OsKey::KeyB => KeyboardActionKey::B,
        OsKey::KeyN => KeyboardActionKey::N,
        OsKey::KeyM => KeyboardActionKey::M,
        OsKey::Comma => KeyboardActionKey::Comma,
        OsKey::Dot => KeyboardActionKey::Period,
        OsKey::Slash => KeyboardActionKey::Slash,
        OsKey::Insert => KeyboardActionKey::Insert,
        OsKey::Function => KeyboardActionKey::Fn,
        OsKey::Unknown(code) => KeyboardActionKey::Unknown(code),
        OsKey::Other => KeyboardActionKey::Unknown(0),
    }
}

impl OsButton {
    /// The mouse action this button is recorded as.
    pub fn into_action(self) -> (r: MouseAction)
        ensures
            r == button_action_of(self),
    {
        match self {
            OsButton::Left => MouseAction::Left,
            OsButton::Right => MouseAction::Right,
            OsButton::Middle => MouseAction::Middle,
            OsButton::Unknown(byte) => MouseAction::Other(byte),
        }
    }
}

impl OsKey {
    /// The symbolic key this OS key is recorded as.
    pub fn into_action(self) -> (r: KeyboardActionKey)
        ensures
            r == key_action_of(self),
    {
        match self {
            OsKey::Alt => KeyboardActionKey::Alt,
            OsKey::AltGr => KeyboardActionKey::Alt,
            OsKey::Backspace => KeyboardActionKey::Backspace,
            OsKey::CapsLock => KeyboardActionKey::CapsLock,
            OsKey::ControlLeft => KeyboardActionKey::Control,
            OsKey::ControlRight => KeyboardActionKey::Control,
            OsKey::Delete => KeyboardActionKey::Delete,
            OsKey::DownArrow => KeyboardActionKey::ArrowDown,
            OsKey::End => KeyboardActionKey::End,
            OsKey::Escape => KeyboardActionKey::Escape,
            OsKey::F1 => KeyboardActionKey::F1,
            OsKey::F2 => KeyboardActionKey::F2,
            OsKey::F3 => KeyboardActionKey::F3,
            OsKey::F4 => KeyboardActionKey::F4,
            OsKey::F5 => KeyboardActionKey::F5,
            OsKey::F6 => KeyboardActionKey::F6,
            OsKey::F7 => KeyboardActionKey::F7,
            OsKey::F8 => KeyboardActionKey::F8,
            OsKey::F9 => KeyboardActionKey::F9,
            OsKey::F10 => KeyboardActionKey::F10,
            OsKey::F11 => KeyboardActionKey::F11,
            OsKey::F12 => KeyboardActionKey::F12,
            OsKey::Home => KeyboardActionKey::Home,
            OsKey::LeftArrow => KeyboardActionKey::ArrowLeft,
            OsKey::MetaLeft => KeyboardActionKey::Meta,
            OsKey::MetaRight => KeyboardActionKey::Meta,
            OsKey::PageDown => KeyboardActionKey::PageDown,
            OsKey::PageUp => KeyboardActionKey::PageUp,
            OsKey::Return => KeyboardActionKey::Enter,
            OsKey::RightArrow => KeyboardActionKey::ArrowRight,
            OsKey::ShiftLeft => KeyboardActionKey::Shift,
            OsKey::ShiftRight => KeyboardActionKey::Shift,
            OsKey::Space => KeyboardActionKey::Space,
            OsKey::Tab => KeyboardActionKey::Tab,
            OsKey::UpArrow => KeyboardActionKey::ArrowUp,
            OsKey::PrintScreen => KeyboardActionKey::PrintScreen,
            OsKey::ScrollLock => KeyboardActionKey::ScrollLock,
            OsKey::Pause => KeyboardActionKey::Pause,
            OsKey::NumLock => KeyboardActionKey::NumLock,
            OsKey::BackQuote => KeyboardActionKey::Grave,
            OsKey::Num0 => KeyboardActionKey::Num0,
            OsKey::Num1 => KeyboardActionKey::Num1,
            OsKey::Num2 => KeyboardActionKey::Num2,
            OsKey::Num3 => KeyboardActionKey::Num3,
            OsKey::Num4 => KeyboardActionKey::Num4,
            OsKey::Num5 => KeyboardActionKey::Num5,
            OsKey::Num6 => KeyboardActionKey::Num6,
            OsKey::Num7 => KeyboardActionKey::Num7,
            OsKey::Num8 => KeyboardActionKey::Num8,
            OsKey::Num9 => KeyboardActionKey::Num9,
            OsKey::Minus => KeyboardActionKey::Minus,
            OsKey::Equal => KeyboardActionKey::Equal,
            OsKey::KeyQ => KeyboardActionKey::Q,
            OsKey::KeyW => KeyboardActionKey::W,
            OsKey::KeyE => KeyboardActionKey::E,
            OsKey::KeyR => KeyboardActionKey::R,
            OsKey::KeyT => KeyboardActionKey::T,
            OsKey::KeyY => KeyboardActionKey::Y,
            OsKey::KeyU => KeyboardActionKey::U,
            OsKey::KeyI => KeyboardActionKey::I,
            OsKey::KeyO => KeyboardActionKey::O,
            OsKey::KeyP => KeyboardActionKey::P,
            OsKey::LeftBracket => KeyboardActionKey::BracketLeft,
            OsKey::RightBracket => KeyboardActionKey::BracketRight,
            OsKey::KeyA => KeyboardActionKey::A,
            OsKey::KeyS => KeyboardActionKey::S,
            OsKey::KeyD => KeyboardActionKey::D,
            OsKey::KeyF => KeyboardActionKey::F,
            OsKey::KeyG => KeyboardActionKey::G,
            OsKey::KeyH => KeyboardActionKey::H,
            OsKey::KeyJ => KeyboardActionKey::J,
            OsKey::KeyK => KeyboardActionKey::K,
            OsKey::KeyL => KeyboardActionKey::L,
            OsKey::SemiColon => KeyboardActionKey::Semicolon,
            OsKey::Quote => KeyboardActionKey::Quote,
            OsKey::BackSlash => KeyboardActionKey::Backslash,
            OsKey::KeyZ => KeyboardActionKey::Z,
            OsKey::KeyX => KeyboardActionKey::X,
            OsKey::KeyC => KeyboardActionKey::C,
            OsKey::KeyV => KeyboardActionKey::V,
            OsKey::KeyB => KeyboardActionKey::B,
            OsKey::KeyN => KeyboardActionKey::N,
            OsKey::KeyM => KeyboardActionKey::M,
            OsKey::Comma => KeyboardActionKey::Comma,
            OsKey::Dot => KeyboardActionKey::Period,
            OsKey::Slash => KeyboardActionKey::Slash,
            OsKey::Insert => KeyboardActionKey::Insert,
            OsKey::Function => KeyboardActionKey::Fn,
            OsKey::Unknown(code) => KeyboardActionKey::Unknown(code),
            OsKey::Other => KeyboardActionKey::Unknown(0),
        }
    }
}

/// The short label of a mouse action, as a human-readable status word.
pub open spec fn spec_mouse_label(a: MouseAction) -> Seq<char> {
    match a {
        MouseAction::Left => "left"@,
        MouseAction::Right => "right"@,
        MouseAction::Middle => "middle"@,
        MouseAction::Other(_) => "other"@,
    }
}

impl MouseAction {
    /// Human-readable label of the action.
    pub fn label(&self) -> (r: &'static str)
        ensures
            r@ == spec_mouse_label(*self),
    {
        match self {
            MouseAction::Left => "left",
            MouseAction::Right => "right",
            MouseAction::Middle => "middle",
            MouseAction::Other(_) => "other",
        }
    }
}

} // verus!
