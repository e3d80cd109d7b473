//! The key events a terminal reports and the key events handed on to the
//! input system, as plain data.

use vstd::prelude::*;

use crate::modifiers::KeyModifiers;

verus! {

/// What a reported key event says has happened to the key.
#[derive(Clone, Copy, Debug, PartialEq, Eq, Hash, Structural)]
pub enum KeyEventKind {
    Press,
    Repeat,
    Release,
}

/// A media key as the terminal names it.
#[derive(Clone, Copy, Debug, PartialEq, Eq, Hash, Structural)]
pub enum MediaKeyCode {
    Play,
    Pause,
    PlayPause,
    Reverse,
    Stop,
    FastForward,
    Rewind,
    TrackNext,
    TrackPrevious,
    Record,
    LowerVolume,
    RaiseVolume,
    MuteVolume,
}

/// A modifier key reported as a key of its own.
#[derive(Clone, Copy, Debug, PartialEq, Eq, Hash, Structural)]
pub enum ModifierKeyCode {
    LeftShift,
    LeftControl,
    LeftAlt,
    LeftSuper,
    LeftHyper,
    LeftMeta,
    RightShift,
    RightControl,
    RightAlt,
    RightSuper,
    RightHyper,
    RightMeta,
    IsoLevel3Shift,
    IsoLevel5Shift,
}

/// The key of a reported event, as the terminal names it.
#[derive(Clone, Copy, Debug, PartialEq, Eq, Hash, Structural)]
pub enum TerminalKeyCode {
    /// A function key, by its number.
    F(u8),
    /// A key that produces a character.
    Char(char),
    /// A media key.
    Media(MediaKeyCode),
    /// A modifier key.
    Modifier(ModifierKeyCode),
    Backspace,
    Enter,
    Left,
    Right,
    Up,
    Down,
    Home,
    End,
    PageUp,
    PageDown,
    Tab,
    BackTab,
    Delete,
    Insert,
    Null,
    Esc,
    CapsLock,
    ScrollLock,
    NumLock,
    PrintScreen,
    Pause,
    Menu,
    KeypadBegin,
}

/// Whether a key went down or came up.
#[derive(Clone, Copy, Debug, PartialEq, Eq, Hash, Structural)]
pub enum ButtonState {
    Pressed,
    Released,
}

/// The physical key of an emitted event.
#[derive(Clone, Copy, Debug, PartialEq, Eq, Hash, Structural)]
pub enum KeyCode {
    Backspace,
    Enter,
    ArrowLeft,
    ArrowRight,
    ArrowUp,
    ArrowDown,
    Home,
    End,
    PageUp,
    PageDown,
    Tab,
    Delete,
    Insert,
    F1,
    F2,
    F3,
    F4,
    F5,
    F6,
    F7,
    F8,
    F9,
    F10,
    F11,
    F12,
    F13,
    F14,
    F15,
    F16,
    F17,
    F18,
    F19,
    F20,
    F31,
    F32,
    F33,
    F34,
    F35,
    Digit0,
    Digit1,
    Digit2,
    Digit3,
    Digit4,
    Digit5,
    Digit6,
    Digit7,
    Digit8,
    Digit9,
    KeyA,
    KeyB,
    KeyC,
    KeyD,
    KeyE,
    KeyF,
    KeyG,
    KeyH,
    KeyI,
    KeyJ,
    KeyK,
    KeyL,
    KeyM,
    KeyN,
    KeyO,
    KeyP,
    KeyQ,
    KeyR,
    KeyS,
    KeyT,
    KeyU,
    KeyV,
    KeyW,
    KeyX,
    KeyY,
    KeyZ,
    Minus,
    BracketLeft,
    BracketRight,
    Comma,
    Equal,
    Period,
    Quote,
    Semicolon,
    Slash,
    Space,
    Escape,
    CapsLock,
    ScrollLock,
    NumLock,
    PrintScreen,
    Pause,
    ContextMenu,
    MediaPlayPause,
    MediaStop,
    MediaTrackNext,
    MediaTrackPrevious,
    AudioVolumeDown,
    AudioVolumeUp,
    AudioVolumeMute,
    ShiftLeft,
    ShiftRight,
    ControlLeft,
    ControlRight,
    AltLeft,
    AltRight,
    SuperLeft,
    SuperRight,
    Hyper,
    Meta,
}

/// The logical key of an emitted event: what the key means rather than
/// where it sits.
#[derive(Clone, Copy, Debug, PartialEq, Eq, Hash, Structural)]
pub enum Key {
    /// A key that produces the given character.
    Character(char),
    Backspace,
    Enter,
    ArrowLeft,
    ArrowRight,
    ArrowUp,
    ArrowDown,
    Home,
    End,
    PageUp,
    PageDown,
    Tab,
    Delete,
    Insert,
    F1,
    F2,
    F3,
    F4,
    F5,
    F6,
    F7,
    F8,
    F9,
    F10,
    F11,
    F12,
    F13,
    F14,
    F15,
    F16,
    F17,
    F18,
    F19,
    F20,
    F31,
    F32,
    F33,
    F34,
    F35,
    Escape,
    CapsLock,
    ScrollLock,
    NumLock,
    PrintScreen,
    Pause,
    ContextMenu,
    MediaPlay,
    MediaPlayPause,
    MediaStop,
    MediaFastForward,
    MediaRewind,
    MediaTrackNext,
    MediaTrackPrevious,
    MediaRecord,
    AudioVolumeDown,
    AudioVolumeUp,
    AudioVolumeMute,
    Shift,
    Control,
    Alt,
    Super,
    Hyper,
    Meta,
    AltGraph,
}

/// A key event as the terminal reports it.
#[derive(Clone, Copy, Debug, PartialEq, Eq, Hash, Structural)]
pub struct KeyEvent {
    /// The key itself.
    pub code: TerminalKeyCode,
    /// The modifiers held while the event happened.
    pub modifiers: KeyModifiers,
    /// What happened to the key.
    pub kind: KeyEventKind,
}

impl KeyEvent {
    /// An event of the given key, modifiers and kind.
    pub fn new(code: TerminalKeyCode, modifiers: KeyModifiers, kind: KeyEventKind) -> (r: KeyEvent)
        ensures
            r == (KeyEvent { code, modifiers, kind }),
    {
        KeyEvent { code, modifiers, kind }
    }
}

/// A key event as it is handed on: which key, what it means, whether it went
/// down or came up, and the window it is addressed to.
#[derive(Clone, Copy, Debug, PartialEq, Eq, Hash, Structural)]
pub struct KeyboardInput {
    /// The physical key.
    pub key_code: KeyCode,
    /// The logical key.
    pub logical_key: Key,
    /// Whether the key went down or came up.
    pub state: ButtonState,
    /// The window that receives the event.
    pub window: u64,
}

impl ButtonState {
    /// The other state.
    pub open spec fn spec_flip(self) -> ButtonState {
        match self {
            ButtonState::Pressed => ButtonState::Released,
            ButtonState::Released => ButtonState::Pressed,
        }
    }

    /// The other state.
    pub fn flip(self) -> (r: ButtonState)
        ensures
            r == self.spec_flip(),
    {
        match self {
            ButtonState::Pressed => ButtonState::Released,
            ButtonState::Released => ButtonState::Pressed,
        }
    }
}

impl KeyboardInput {
    /// The same key in the other state.
    pub open spec fn spec_reciprocal(self) -> KeyboardInput {
        KeyboardInput { state: self.state.spec_flip(), ..self }
    }

    /// The same key in the other state: the release that answers a press, or
    /// the press that answers a release.
    pub fn reciprocal(self) -> (r: KeyboardInput)
        ensures
            r == self.spec_reciprocal(),
    {
        KeyboardInput { state: self.state.flip(), ..self }
    }

    /// Whether two events are the same in every field.
    pub fn same(&self, other: &KeyboardInput) -> (r: bool)
        ensures
            r == (*self == *other),
    {
        *self == *other
    }
}

} // verus!
