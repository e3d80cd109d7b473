//! Maps the key events of a terminal to the key events of the input system.

use vstd::prelude::*;

use crate::keys::{
    ButtonState, Key, KeyCode, KeyEvent, KeyEventKind, KeyboardInput, MediaKeyCode,
    ModifierKeyCode, TerminalKeyCode,
};
use crate::modifiers::{
    KeyModifiers, ALT_BITS, CONTROL_BITS, HYPER_BITS, SHIFT_BITS, SUPER_BITS,
};

verus! {

/// The physical key of the `i`-th letter of the alphabet, counted from zero.
pub open spec fn letter_keycode(i: int) -> KeyCode {
    if i == 0 {
        KeyCode::KeyA
    } else if i == 1 {
        KeyCode::KeyB
    } else if i == 2 {
        KeyCode::KeyC
    } else if i == 3 {
        KeyCode::KeyD
    } else if i == 4 {
        KeyCode::KeyE
    } else if i == 5 {
        KeyCode::KeyF
    } else if i == 6 {
        KeyCode::KeyG
    } else if i == 7 {
        KeyCode::KeyH
    } else if i == 8 {
        KeyCode::KeyI
    } else if i == 9 {
        KeyCode::KeyJ
    } else if i == 10 {
        KeyCode::KeyK
    } else if i == 11 {
        KeyCode::KeyL
    } else if i == 12 {
        KeyCode::KeyM
    } else if i == 13 {
        KeyCode::KeyN
    } else if i == 14 {
        KeyCode::KeyO
    } else if i == 15 {
        KeyCode::KeyP
    } else if i == 16 {
        KeyCode::KeyQ
    } else if i == 17 {
        KeyCode::KeyR
    } else if i == 18 {
        KeyCode::KeyS
    } else if i == 19 {
        KeyCode::KeyT
    } else if i == 20 {
        KeyCode::KeyU
    } else if i == 21 {
        KeyCode::KeyV
    } else if i == 22 {
        KeyCode::KeyW
    } else if i == 23 {
        KeyCode::KeyX
    } else if i == 24 {
        KeyCode::KeyY
    } else {
        KeyCode::KeyZ
    }
}

/// The physical key of the digit `i`.
pub open spec fn digit_keycode(i: int) -> KeyCode {
    if i == 0 {
        KeyCode::Digit0
    } else if i == 1 {
        KeyCode::Digit1
    } else if i == 2 {
        KeyCode::Digit2
    } else if i == 3 {
        KeyCode::Digit3
    } else if i == 4 {
        KeyCode::Digit4
    } else if i == 5 {
        KeyCode::Digit5
    } else if i == 6 {
        KeyCode::Digit6
    } else if i == 7 {
        KeyCode::Digit7
    } else if i == 8 {
        KeyCode::Digit8
    } else {
        KeyCode::Digit9
    }
}

/// The physical key of function key `n`. Function keys 1 to 20 and 31 to 35
/// have one; no other number has.
pub open spec fn function_keycode(n: u8) -> Option<KeyCode> {
    if n == 1 {
        Some(KeyCode::F1)
    } else if n == 2 {
        Some(KeyCode::F2)
    } else if n == 3 {
        Some(KeyCode::F3)
    } else if n == 4 {
        Some(KeyCode::F4)
    } else if n == 5 {
        Some(KeyCode::F5)
    } else if n == 6 {
        Some(KeyCode::F6)
    } else if n == 7 {
        Some(KeyCode::F7)
    } else if n == 8 {
        Some(KeyCode::F8)
    } else if n == 9 {
        Some(KeyCode::F9)
    } else if n == 10 {
        Some(KeyCode::F10)
    } else if n == 11 {
        Some(KeyCode::F11)
    } else if n == 12 {
        Some(KeyCode::F12)
    } else if n == 13 {
        Some(KeyCode::F13)
    } else if n == 14 {
        Some(KeyCode::F14)
    } else if n == 15 {
        Some(KeyCode::F15)
    } else if n == 16 {
        Some(KeyCode::F16)
    } else if n == 17 {
        Some(KeyCode::F17)
    } else if n == 18 {
        Some(KeyCode::F18)
    } else if n == 19 {
        Some(KeyCode::F19)
    } else if n == 20 {
        Some(KeyCode::F20)
    } else if n == 31 {
        Some(KeyCode::F31)
    } else if n == 32 {
        Some(KeyCode::F32)
    } else if n == 33 {
        Some(KeyCode::F33)
    } else if n == 34 {
        Some(KeyCode::F34)
    } else if n == 35 {
        Some(KeyCode::F35)
    } else {
        None
    }
}

/// The logical key of function key `n`, for the same numbers.
pub open spec fn function_key(n: u8) -> Option<Key> {
    if n == 1 {
        Some(Key::F1)
    } else if n == 2 {
        Some(Key::F2)
    } else if n == 3 {
        Some(Key::F3)
    } else if n == 4 {
        Some(Key::F4)
    } else if n == 5 {
        Some(Key::F5)
    } else if n == 6 {
        Some(Key::F6)
    } else if n == 7 {
        Some(Key::F7)
    } else if n == 8 {
        Some(Key::F8)
    } else if n == 9 {
        Some(Key::F9)
    } else if n == 10 {
        Some(Key::F10)
    } else if n == 11 {
        Some(Key::F11)
    } else if n == 12 {
        Some(Key::F12)
    } else if n == 13 {
        Some(Key::F13)
    } else if n == 14 {
        Some(Key::F14)
    } else if n == 15 {
        Some(Key::F15)
    } else if n == 16 {
        Some(Key::F16)
    } else if n == 17 {
        Some(Key::F17)
    } else if n == 18 {
        Some(Key::F18)
    } else if n == 19 {
        Some(Key::F19)
    } else if n == 20 {
        Some(Key::F20)
    } else if n == 31 {
        Some(Key::F31)
    } else if n == 32 {
        Some(Key::F32)
    } else if n == 33 {
        Some(Key::F33)
    } else if n == 34 {
        Some(Key::F34)
    } else if n == 35 {
        Some(Key::F35)
    } else {
        None
    }
}

/// The physical key of a punctuation character that is typed without shift.
pub open spec fn punctuation_keycode(c: char) -> Option<KeyCode> {
    if c == '-' {
        Some(KeyCode::Minus)
    } else if c == '[' {
        Some(KeyCode::BracketLeft)
    } else if c == ']' {
        Some(KeyCode::BracketRight)
    } else if c == ',' {
        Some(KeyCode::Comma)
    } else if c == '=' {
        Some(KeyCode::Equal)
    } else if c == '.' {
        Some(KeyCode::Period)
    } else if c == '\'' {
        Some(KeyCode::Quote)
    } else if c == ';' {
        Some(KeyCode::Semicolon)
    } else if c == '/' {
        Some(KeyCode::Slash)
    } else if c == ' ' {
        Some(KeyCode::Space)
    } else {
        None
    }
}

/// The character that the key of a shifted character gives without shift:
/// `1` for `!`, `[` for `{`, and so on.
pub open spec fn shift_base(c: char) -> Option<char> {
    if c == '!' {
        Some('1')
    } else if c == '@' {
        Some('2')
    } else if c == '#' {
        Some('3')
    } else if c == '$' {
        Some('4')
    } else if c == '%' {
        Some('5')
    } else if c == '^' {
        Some('6')
    } else if c == '&' {
        Some('7')
    } else if c == '*' {
        Some('8')
    } else if c == '(' {
        Some('9')
    } else if c == ')' {
        Some('0')
    } else if c == '{' {
        Some('[')
    } else if c == '}' {
        Some(']')
    } else if c == '<' {
        Some(',')
    } else if c == '+' {
        Some('=')
    } else if c == '>' {
        Some('.')
    } else if c == '"' {
        Some('\'')
    } else if c == ':' {
        Some(';')
    } else if c == '?' {
        Some('/')
    } else {
        None
    }
}

/// The physical key of a character that is typed without shift: a lower-case
/// letter, a digit, or one of the plain punctuation characters.
pub open spec fn base_keycode(c: char) -> Option<KeyCode> {
    if 'a' <= c && c <= 'z' {
        Some(letter_keycode(c as u32 - 'a' as u32))
    } else if '0' <= c && c <= '9' {
        Some(digit_keycode(c as u32 - '0' as u32))
    } else {
        punctuation_keycode(c)
    }
}

/// The physical key of a character, and the modifiers that the character
/// implies. A character that is typed without shift implies none; an
/// upper-case letter is the key of its letter with shift; a shifted character
/// is the key of its base character with shift. Any other character has no
/// key.
pub open spec fn char_keycode(c: char) -> Option<(KeyCode, KeyModifiers)> {
    if base_keycode(c).is_some() {
        Some((base_keycode(c).unwrap(), KeyModifiers { bits: 0 }))
    } else if 'A' <= c && c <= 'Z' {
        Some((letter_keycode(c as u32 - 'A' as u32), KeyModifiers { bits: SHIFT_BITS }))
    } else if shift_base(c).is_some() && base_keycode(shift_base(c).unwrap()).is_some() {
        Some((base_keycode(shift_base(c).unwrap()).unwrap(), KeyModifiers { bits: SHIFT_BITS }))
    } else {
        None
    }
}

/// The physical key of a media key.
pub open spec fn media_keycode(media: MediaKeyCode) -> Option<KeyCode> {
    match media {
        MediaKeyCode::Play => Some(KeyCode::MediaPlayPause),
        MediaKeyCode::Pause => Some(KeyCode::Pause),
        MediaKeyCode::PlayPause => Some(KeyCode::MediaPlayPause),
        MediaKeyCode::Reverse => None,
        MediaKeyCode::Stop => Some(KeyCode::MediaStop),
        MediaKeyCode::FastForward => Some(KeyCode::MediaTrackNext),
        MediaKeyCode::Rewind => Some(KeyCode::MediaTrackPrevious),
        MediaKeyCode::TrackNext => Some(KeyCode::MediaTrackNext),
        MediaKeyCode::TrackPrevious => Some(KeyCode::MediaTrackPrevious),
        MediaKeyCode::Record => None,
        MediaKeyCode::LowerVolume => Some(KeyCode::AudioVolumeDown),
        MediaKeyCode::RaiseVolume => Some(KeyCode::AudioVolumeUp),
        MediaKeyCode::MuteVolume => Some(KeyCode::AudioVolumeMute),
    }
}

/// The logical key of a media key.
pub open spec fn media_key(media: MediaKeyCode) -> Option<Key> {
    match media {
        MediaKeyCode::Play => Some(Key::MediaPlay),
        MediaKeyCode::Pause => Some(Key::Pause),
        MediaKeyCode::PlayPause => Some(Key::MediaPlayPause),
        MediaKeyCode::Reverse => None,
        MediaKeyCode::Stop => Some(Key::MediaStop),
        MediaKeyCode::FastForward => Some(Key::MediaFastForward),
        MediaKeyCode::Rewind => Some(Key::MediaRewind),
        MediaKeyCode::TrackNext => Some(Key::MediaTrackNext),
        MediaKeyCode::TrackPrevious => Some(Key::MediaTrackPrevious),
        MediaKeyCode::Record => Some(Key::MediaRecord),
        MediaKeyCode::LowerVolume => Some(Key::AudioVolumeDown),
        MediaKeyCode::RaiseVolume => Some(Key::AudioVolumeUp),
        MediaKeyCode::MuteVolume => Some(Key::AudioVolumeMute),
    }
}

/// The physical key of a modifier key.
pub open spec fn modifier_keycode(modifier: ModifierKeyCode) -> Option<KeyCode> {
    match modifier {
        ModifierKeyCode::LeftShift => Some(KeyCode::ShiftLeft),
        ModifierKeyCode::LeftControl => Some(KeyCode::ControlLeft),
        ModifierKeyCode::LeftAlt => Some(KeyCode::AltLeft),
        ModifierKeyCode::LeftSuper => Some(KeyCode::SuperLeft),
        ModifierKeyCode::LeftHyper => Some(KeyCode::Hyper),
        ModifierKeyCode::LeftMeta => Some(KeyCode::Meta),
        ModifierKeyCode::RightShift => Some(KeyCode::ShiftRight),
        ModifierKeyCode::RightControl => Some(KeyCode::ControlRight),
        ModifierKeyCode::RightAlt => Some(KeyCode::AltRight),
        ModifierKeyCode::RightSuper => Some(KeyCode::SuperRight),
        ModifierKeyCode::RightHyper => Some(KeyCode::Hyper),
        ModifierKeyCode::RightMeta => Some(KeyCode::Meta),
        ModifierKeyCode::IsoLevel3Shift => None,
        ModifierKeyCode::IsoLevel5Shift => None,
    }
}

/// The logical key of a modifier key.
pub open spec fn modifier_key(modifier: ModifierKeyCode) -> Option<Key> {
    match modifier {
        ModifierKeyCode::LeftShift => Some(Key::Shift),
        ModifierKeyCode::LeftControl => Some(Key::Control),
        ModifierKeyCode::LeftAlt => Some(Key::Alt),
        ModifierKeyCode::LeftSuper => Some(Key::Super),
        ModifierKeyCode::LeftHyper => Some(Key::Hyper),
        ModifierKeyCode::LeftMeta => Some(Key::Meta),
        ModifierKeyCode::RightShift => Some(Key::Shift),
        ModifierKeyCode::RightControl => Some(Key::Control),
        ModifierKeyCode::RightAlt => Some(Key::Alt),
        ModifierKeyCode::RightSuper => Some(Key::Super),
        ModifierKeyCode::RightHyper => Some(Key::Hyper),
        ModifierKeyCode::RightMeta => Some(Key::Meta),
        ModifierKeyCode::IsoLevel3Shift => Some(Key::AltGraph),
        ModifierKeyCode::IsoLevel5Shift => None,
    }
}

/// The physical key of a terminal key that is neither a character, a function
/// key, a media key nor a modifier.
pub open spec fn named_keycode(code: TerminalKeyCode) -> Option<KeyCode> {
    match code {
        TerminalKeyCode::Backspace => Some(KeyCode::Backspace),
        TerminalKeyCode::Enter => Some(KeyCode::Enter),
        TerminalKeyCode::Left => Some(KeyCode::ArrowLeft),
        TerminalKeyCode::Right => Some(KeyCode::ArrowRight),
        TerminalKeyCode::Up => Some(KeyCode::ArrowUp),
        TerminalKeyCode::Down => Some(KeyCode::ArrowDown),
        TerminalKeyCode::Home => Some(KeyCode::Home),
        TerminalKeyCode::End => Some(KeyCode::End),
        TerminalKeyCode::PageUp => Some(KeyCode::PageUp),
        TerminalKeyCode::PageDown => Some(KeyCode::PageDown),
        TerminalKeyCode::Tab => Some(KeyCode::Tab),
        TerminalKeyCode::Delete => Some(KeyCode::Delete),
        TerminalKeyCode::Insert => Some(KeyCode::Insert),
        TerminalKeyCode::Esc => Some(KeyCode::Escape),
        TerminalKeyCode::CapsLock => Some(KeyCode::CapsLock),
        TerminalKeyCode::ScrollLock => Some(KeyCode::ScrollLock),
        TerminalKeyCode::NumLock => Some(KeyCode::NumLock),
        TerminalKeyCode::PrintScreen => Some(KeyCode::PrintScreen),
        TerminalKeyCode::Pause => Some(KeyCode::Pause),
        TerminalKeyCode::Menu => Some(KeyCode::ContextMenu),
        _ => None,
    }
}

/// The logical key of a terminal key that is neither a character, a function
/// key, a media key nor a modifier.
pub open spec fn named_key(code: TerminalKeyCode) -> Option<Key> {
    match code {
        TerminalKeyCode::Backspace => Some(Key::Backspace),
        TerminalKeyCode::Enter => Some(Key::Enter),
        TerminalKeyCode::Left => Some(Key::ArrowLeft),
        TerminalKeyCode::Right => Some(Key::ArrowRight),
        TerminalKeyCode::Up => Some(Key::ArrowUp),
        TerminalKeyCode::Down => Some(Key::ArrowDown),
        TerminalKeyCode::Home => Some(Key::Home),
        TerminalKeyCode::End => Some(Key::End),
        TerminalKeyCode::PageUp => Some(Key::PageUp),
        TerminalKeyCode::PageDown => Some(Key::PageDown),
        TerminalKeyCode::Tab => Some(Key::Tab),
        TerminalKeyCode::BackTab => Some(Key::Tab),
        TerminalKeyCode::Delete => Some(Key::Delete),
        TerminalKeyCode::Insert => Some(Key::Insert),
        TerminalKeyCode::Esc => Some(Key::Escape),
        TerminalKeyCode::CapsLock => Some(Key::CapsLock),
        TerminalKeyCode::ScrollLock => Some(Key::ScrollLock),
        TerminalKeyCode::NumLock => Some(Key::NumLock),
        TerminalKeyCode::PrintScreen => Some(Key::PrintScreen),
        TerminalKeyCode::Pause => Some(Key::Pause),
        TerminalKeyCode::Menu => Some(Key::ContextMenu),
        _ => None,
    }
}

/// The physical key of a terminal key, with the modifiers that the key
/// implies beyond those that the terminal reported. `None` where the key has
/// no physical counterpart.
pub open spec fn keycode_of(code: TerminalKeyCode) -> Option<(KeyCode, KeyModifiers)> {
    match code {
        TerminalKeyCode::Char(c) => char_keycode(c),
        TerminalKeyCode::BackTab => Some((KeyCode::Tab, KeyModifiers { bits: SHIFT_BITS })),
        TerminalKeyCode::F(n) => match function_keycode(n) {
            Some(k) => Some((k, KeyModifiers { bits: 0 })),
            None => None,
        },
        TerminalKeyCode::Media(media) => match media_keycode(media) {
            Some(k) => Some((k, KeyModifiers { bits: 0 })),
            None => None,
        },
        TerminalKeyCode::Modifier(modifier) => match modifier_keycode(modifier) {
            Some(k) => Some((k, KeyModifiers { bits: 0 })),
            None => None,
        },
        _ => match named_keycode(code) {
            Some(k) => Some((k, KeyModifiers { bits: 0 })),
            None => None,
        },
    }
}

/// The logical key of a terminal key: the character itself for a character
/// key. `None` where the key has no logical counterpart.
pub open spec fn key_of(code: TerminalKeyCode) -> Option<Key> {
    match code {
        TerminalKeyCode::Char(c) => Some(Key::Character(c)),
        TerminalKeyCode::F(n) => function_key(n),
        TerminalKeyCode::Media(media) => media_key(media),
        TerminalKeyCode::Modifier(modifier) => modifier_key(modifier),
        _ => named_key(code),
    }
}

/// Translates a terminal key to its physical key, together with the
/// modifiers that the key implies: shift for an upper-case letter, for a
/// shifted punctuation character and for the back tab.
pub fn to_bevy_keycode(key_code: &TerminalKeyCode) -> (r: Option<(KeyCode, KeyModifiers)>)
    ensures
        r == keycode_of(*key_code),
{
    let mut mods = KeyModifiers::empty();
    let key: Option<KeyCode> = match key_code {
        TerminalKeyCode::Backspace => Some(KeyCode::Backspace),
        TerminalKeyCode::Enter => Some(KeyCode::Enter),
        TerminalKeyCode::Left => Some(KeyCode::ArrowLeft),
        TerminalKeyCode::Right => Some(KeyCode::ArrowRight),
        TerminalKeyCode::Up => Some(KeyCode::ArrowUp),
        TerminalKeyCode::Down => Some(KeyCode::ArrowDown),
        TerminalKeyCode::Home => Some(KeyCode::Home),
        TerminalKeyCode::End => Some(KeyCode::End),
        TerminalKeyCode::PageUp => Some(KeyCode::PageUp),
        TerminalKeyCode::PageDown => Some(KeyCode::PageDown),
        TerminalKeyCode::Tab => Some(KeyCode::Tab),
        TerminalKeyCode::BackTab => {
            mods = mods.union(KeyModifiers::shift());
            Some(KeyCode::Tab)
        },
        TerminalKeyCode::Delete => Some(KeyCode::Delete),
        TerminalKeyCode::Insert => Some(KeyCode::Insert),
        TerminalKeyCode::F(f) => match f {
            1 => Some(KeyCode::F1),
            2 => Some(KeyCode::F2),
            3 => Some(KeyCode::F3),
            4 => Some(KeyCode::F4),
            5 => Some(KeyCode::F5),
            6 => Some(KeyCode::F6),
            7 => Some(KeyCode::F7),
            8 => Some(KeyCode::F8),
            9 => Some(KeyCode::F9),
            10 => Some(KeyCode::F10),
            11 => Some(KeyCode::F11),
            12 => Some(KeyCode::F12),
            13 => Some(KeyCode::F13),
            14 => Some(KeyCode::F14),
            15 => Some(KeyCode::F15),
            16 => Some(KeyCode::F16),
            17 => Some(KeyCode::F17),
            18 => Some(KeyCode::F18),
            19 => Some(KeyCode::F19),
            20 => Some(KeyCode::F20),
            31 => Some(KeyCode::F31),
            32 => Some(KeyCode::F32),
            33 => Some(KeyCode::F33),
            34 => Some(KeyCode::F34),
            35 => Some(KeyCode::F35),
            _ => None,
        },
        TerminalKeyCode::Char(c) => match c {
            '!' => {
                mods = mods.union(KeyModifiers::shift());
                Some(KeyCode::Digit1)
            },
            '@' => {
                mods = mods.union(KeyModifiers::shift());
                Some(KeyCode::Digit2)
            },
            '#' => {
                mods = mods.union(KeyModifiers::shift());
                Some(KeyCode::Digit3)
            },
            '$' => {
                mods = mods.union(KeyModifiers::shift());
                Some(KeyCode::Digit4)
            },
            '%' => {
                mods = mods.union(KeyModifiers::shift());
                Some(KeyCode::Digit5)
            },
            '^' => {
                mods = mods.union(KeyModifiers::shift());
                Some(KeyCode::Digit6)
            },
            '&' => {
                mods = mods.union(KeyModifiers::shift());
                Some(KeyCode::Digit7)
            },
            '*' => {
                mods = mods.union(KeyModifiers::shift());
                Some(KeyCode::Digit8)
            },
            '(' => {
                mods = mods.union(KeyModifiers::shift());
                Some(KeyCode::Digit9)
            },
            ')' => {
                mods = mods.union(KeyModifiers::shift());
                Some(KeyCode::Digit0)
            },
            '-' => Some(KeyCode::Minus),
            '[' => Some(KeyCode::BracketLeft),
            ']' => Some(KeyCode::BracketRight),
            '{' => {
                mods = mods.union(KeyModifiers::shift());
                Some(KeyCode::BracketLeft)
            },
            '}' => {
                mods = mods.union(KeyModifiers::shift());
                Some(KeyCode::BracketRight)
            },
            ',' => Some(KeyCode::Comma),
            '=' => Some(KeyCode::Equal),
            '<' => {
                mods = mods.union(KeyModifiers::shift());
                Some(KeyCode::Comma)
            },
            '+' => {
                mods = mods.union(KeyModifiers::shift());
                Some(KeyCode::Equal)
            },
            '.' => Some(KeyCode::Period),
            '>' => {
                mods = mods.union(KeyModifiers::shift());
                Some(KeyCode::Period)
            },
            '\'' => Some(KeyCode::Quote),
            '"' => {
                mods = mods.union(KeyModifiers::shift());
                Some(KeyCode::Quote)
            },
            ';' => Some(KeyCode::Semicolon),
            ':' => {
                mods = mods.union(KeyModifiers::shift());
                Some(KeyCode::Semicolon)
            },
            '/' => Some(KeyCode::Slash),
            '?' => {
                mods = mods.union(KeyModifiers::shift());
                Some(KeyCode::Slash)
            },
            ' ' => Some(KeyCode::Space),
            '1' => Some(KeyCode::Digit1),
            '2' => Some(KeyCode::Digit2),
            '3' => Some(KeyCode::Digit3),
            '4' => Some(KeyCode::Digit4),
            '5' => Some(KeyCode::Digit5),
            '6' => Some(KeyCode::Digit6),
            '7' => Some(KeyCode::Digit7),
            '8' => Some(KeyCode::Digit8),
            '9' => Some(KeyCode::Digit9),
            '0' => Some(KeyCode::Digit0),
            'a' => Some(KeyCode::KeyA),
            'b' => Some(KeyCode::KeyB),
            'c' => Some(KeyCode::KeyC),
            'd' => Some(KeyCode::KeyD),
            'e' => Some(KeyCode::KeyE),
            'f' => Some(KeyCode::KeyF),
            'g' => Some(KeyCode::KeyG),
            'h' => Some(KeyCode::KeyH),
            'i' => Some(KeyCode::KeyI),
            'j' => Some(KeyCode::KeyJ),
            'k' => Some(KeyCode::KeyK),
            'l' => Some(KeyCode::KeyL),
            'm' => Some(KeyCode::KeyM),
            'n' => Some(KeyCode::KeyN),
            'o' => Some(KeyCode::KeyO),
            'p' => Some(KeyCode::KeyP),
            'q' => Some(KeyCode::KeyQ),
            'r' => Some(KeyCode::KeyR),
            's' => Some(KeyCode::KeyS),
            't' => Some(KeyCode::KeyT),
            'u' => Some(KeyCode::KeyU),
            'v' => Some(KeyCode::KeyV),
            'w' => Some(KeyCode::KeyW),
            'x' => Some(KeyCode::KeyX),
            'y' => Some(KeyCode::KeyY),
            'z' => Some(KeyCode::KeyZ),
            'A' => {
                mods = mods.union(KeyModifiers::shift());
                Some(KeyCode::KeyA)
            },
            'B' => {
                mods = mods.union(KeyModifiers::shift());
                Some(KeyCode::KeyB)
            },
            'C' => {
                mods = mods.union(KeyModifiers::shift());
                Some(KeyCode::KeyC)
            },
            'D' => {
                mods = mods.union(KeyModifiers::shift());
                Some(KeyCode::KeyD)
            },
            'E' => {
                mods = mods.union(KeyModifiers::shift());
                Some(KeyCode::KeyE)
            },
            'F' => {
                mods = mods.union(KeyModifiers::shift());
                Some(KeyCode::KeyF)
            },
            'G' => {
                mods = mods.union(KeyModifiers::shift());
                Some(KeyCode::KeyG)
            },
            'H' => {
                mods = mods.union(KeyModifiers::shift());
                Some(KeyCode::KeyH)
            },
            'I' => {
                mods = mods.union(KeyModifiers::shift());
                Some(KeyCode::KeyI)
            },
            'J' => {
                mods = mods.union(KeyModifiers::shift());
                Some(KeyCode::KeyJ)
            },
            'K' => {
                mods = mods.union(KeyModifiers::shift());
                Some(KeyCode::KeyK)
            },
            'L' => {
                mods = mods.union(KeyModifiers::shift());
                Some(KeyCode::KeyL)
            },
            'M' => {
                mods = mods.union(KeyModifiers::shift());
                Some(KeyCode::KeyM)
            },
            'N' => {
                mods = mods.union(KeyModifiers::shift());
                Some(KeyCode::KeyN)
            },
            'O' => {
                mods = mods.union(KeyModifiers::shift());
                Some(KeyCode::KeyO)
            },
            'P' => {
                mods = mods.union(KeyModifiers::shift());
                Some(KeyCode::KeyP)
            },
            'Q' => {
                mods = mods.union(KeyModifiers::shift());
                Some(KeyCode::KeyQ)
            },
            'R' => {
                mods = mods.union(KeyModifiers::shift());
                Some(KeyCode::KeyR)
            },
            'S' => {
                mods = mods.union(KeyModifiers::shift());
                Some(KeyCode::KeyS)
            },
            'T' => {
                mods = mods.union(KeyModifiers::shift());
                Some(KeyCode::KeyT)
            },
            'U' => {
                mods = mods.union(KeyModifiers::shift());
                Some(KeyCode::KeyU)
            },
            'V' => {
                mods = mods.union(KeyModifiers::shift());
                Some(KeyCode::KeyV)
            },
            'W' => {
                mods = mods.union(KeyModifiers::shift());
                Some(KeyCode::KeyW)
            },
            'X' => {
                mods = mods.union(KeyModifiers::shift());
                Some(KeyCode::KeyX)
            },
            'Y' => {
                mods = mods.union(KeyModifiers::shift());
                Some(KeyCode::KeyY)
            },
            'Z' => {
                mods = mods.union(KeyModifiers::shift());
                Some(KeyCode::KeyZ)
            },
            _ => None,
        },
        TerminalKeyCode::Null => None,
        TerminalKeyCode::Esc => Some(KeyCode::Escape),
        TerminalKeyCode::CapsLock => Some(KeyCode::CapsLock),
        TerminalKeyCode::ScrollLock => Some(KeyCode::ScrollLock),
        TerminalKeyCode::NumLock => Some(KeyCode::NumLock),
        TerminalKeyCode::PrintScreen => Some(KeyCode::PrintScreen),
        TerminalKeyCode::Pause => Some(KeyCode::Pause),
        TerminalKeyCode::Menu => Some(KeyCode::ContextMenu),
        TerminalKeyCode::KeypadBegin => None,
        TerminalKeyCode::Media(media) => match media {
            MediaKeyCode::Play => Some(KeyCode::MediaPlayPause),
            MediaKeyCode::Pause => Some(KeyCode::Pause),
            MediaKeyCode::PlayPause => Some(KeyCode::MediaPlayPause),
            MediaKeyCode::Reverse => None,
            MediaKeyCode::Stop => Some(KeyCode::MediaStop),
            MediaKeyCode::FastForward => Some(KeyCode::MediaTrackNext),
            MediaKeyCode::Rewind => Some(KeyCode::MediaTrackPrevious),
            MediaKeyCode::TrackNext => Some(KeyCode::MediaTrackNext),
            MediaKeyCode::TrackPrevious => Some(KeyCode::MediaTrackPrevious),
            MediaKeyCode::Record => None,
            MediaKeyCode::LowerVolume => Some(KeyCode::AudioVolumeDown),
            MediaKeyCode::RaiseVolume => Some(KeyCode::AudioVolumeUp),
            MediaKeyCode::MuteVolume => Some(KeyCode::AudioVolumeMute),
        },
        TerminalKeyCode::Modifier(modifier) => match modifier {
            ModifierKeyCode::LeftShift => Some(KeyCode::ShiftLeft),
            ModifierKeyCode::LeftControl => Some(KeyCode::ControlLeft),
            ModifierKeyCode::LeftAlt => Some(KeyCode::AltLeft),
            ModifierKeyCode::LeftSuper => Some(KeyCode::SuperLeft),
            ModifierKeyCode::LeftHyper => Some(KeyCode::Hyper),
            ModifierKeyCode::LeftMeta => Some(KeyCode::Meta),
            ModifierKeyCode::RightShift => Some(KeyCode::ShiftRight),
            ModifierKeyCode::RightControl => Some(KeyCode::ControlRight),
            ModifierKeyCode::RightAlt => Some(KeyCode::AltRight),
            ModifierKeyCode::RightSuper => Some(KeyCode::SuperRight),
            ModifierKeyCode::RightHyper => Some(KeyCode::Hyper),
            ModifierKeyCode::RightMeta => Some(KeyCode::Meta),
            ModifierKeyCode::IsoLevel3Shift => None,
            ModifierKeyCode::IsoLevel5Shift => None,
        },
    };
    assert(0u8 | SHIFT_BITS == SHIFT_BITS) by (bit_vector);
    match key {
        Some(key) => Some((key, mods)),
        None => None,
    }
}

/// Translates a terminal key to its logical key. A character key gives the
/// character itself, whatever the character.
pub fn to_bevy_key(key_code: &TerminalKeyCode) -> (r: Option<Key>)
    ensures
        r == key_of(*key_code),
{
    match key_code {
        TerminalKeyCode::Backspace => Some(Key::Backspace),
        TerminalKeyCode::Enter => Some(Key::Enter),
        TerminalKeyCode::Left => Some(Key::ArrowLeft),
        TerminalKeyCode::Right => Some(Key::ArrowRight),
        TerminalKeyCode::Up => Some(Key::ArrowUp),
        TerminalKeyCode::Down => Some(Key::ArrowDown),
        TerminalKeyCode::Home => Some(Key::Home),
        TerminalKeyCode::End => Some(Key::End),
        TerminalKeyCode::PageUp => Some(Key::PageUp),
        TerminalKeyCode::PageDown => Some(Key::PageDown),
        TerminalKeyCode::Tab => Some(Key::Tab),
        TerminalKeyCode::BackTab => Some(Key::Tab),
        TerminalKeyCode::Delete => Some(Key::Delete),
        TerminalKeyCode::Insert => Some(Key::Insert),
        TerminalKeyCode::F(f) => match f {
            1 => Some(Key::F1),
            2 => Some(Key::F2),
            3 => Some(Key::F3),
            4 => Some(Key::F4),
            5 => Some(Key::F5),
            6 => Some(Key::F6),
            7 => Some(Key::F7),
            8 => Some(Key::F8),
            9 => Some(Key::F9),
            10 => Some(Key::F10),
            11 => Some(Key::F11),
            12 => Some(Key::F12),
            13 => Some(Key::F13),
            14 => Some(Key::F14),
            15 => Some(Key::F15),
            16 => Some(Key::F16),
            17 => Some(Key::F17),
            18 => Some(Key::F18),
            19 => Some(Key::F19),
            20 => Some(Key::F20),
            31 => Some(Key::F31),
            32 => Some(Key::F32),
            33 => Some(Key::F33),
            34 => Some(Key::F34),
            35 => Some(Key::F35),
            _ => None,
        },
        TerminalKeyCode::Char(c) => Some(Key::Character(*c)),
        TerminalKeyCode::Null => None,
        TerminalKeyCode::Esc => Some(Key::Escape),
        TerminalKeyCode::CapsLock => Some(Key::CapsLock),
        TerminalKeyCode::ScrollLock => Some(Key::ScrollLock),
        TerminalKeyCode::NumLock => Some(Key::NumLock),
        TerminalKeyCode::PrintScreen => Some(Key::PrintScreen),
        TerminalKeyCode::Pause => Some(Key::Pause),
        TerminalKeyCode::Menu => Some(Key::ContextMenu),
        TerminalKeyCode::KeypadBegin => None,
        TerminalKeyCode::Media(media) => match media {
            MediaKeyCode::Play => Some(Key::MediaPlay),
            MediaKeyCode::Pause => Some(Key::Pause),
            MediaKeyCode::PlayPause => Some(Key::MediaPlayPause),
            MediaKeyCode::Reverse => None,
            MediaKeyCode::Stop => Some(Key::MediaStop),
            MediaKeyCode::FastForward => Some(Key::MediaFastForward),
            MediaKeyCode::Rewind => Some(Key::MediaRewind),
            MediaKeyCode::TrackNext => Some(Key::MediaTrackNext),
            MediaKeyCode::TrackPrevious => Some(Key::MediaTrackPrevious),
            MediaKeyCode::Record => Some(Key::MediaRecord),
            MediaKeyCode::LowerVolume => Some(Key::AudioVolumeDown),
            MediaKeyCode::RaiseVolume => Some(Key::AudioVolumeUp),
            MediaKeyCode::MuteVolume => Some(Key::AudioVolumeMute),
        },
        TerminalKeyCode::Modifier(modifier) => match modifier {
            ModifierKeyCode::LeftShift => Some(Key::Shift),
            ModifierKeyCode::LeftControl => Some(Key::Control),
            ModifierKeyCode::LeftAlt => Some(Key::Alt),
            ModifierKeyCode::LeftSuper => Some(Key::Super),
            ModifierKeyCode::LeftHyper => Some(Key::Hyper),
            ModifierKeyCode::LeftMeta => Some(Key::Meta),
            ModifierKeyCode::RightShift => Some(Key::Shift),
            ModifierKeyCode::RightControl => Some(Key::Control),
            ModifierKeyCode::RightAlt => Some(Key::Alt),
            ModifierKeyCode::RightSuper => Some(Key::Super),
            ModifierKeyCode::RightHyper => Some(Key::Hyper),
            ModifierKeyCode::RightMeta => Some(Key::Meta),
            ModifierKeyCode::IsoLevel3Shift => Some(Key::AltGraph),
            ModifierKeyCode::IsoLevel5Shift => None,
        },
    }
}

/// Whether a logical key is one of the six modifier keys that a modifier
/// mask can name.
pub open spec fn is_modifier_key(key: Key) -> bool {
    key == Key::Control || key == Key::Shift || key == Key::Alt || key == Key::Hyper
        || key == Key::Meta || key == Key::Super
}

/// The physical key that stands for a modifier in an emulated modifier
/// event: the left one where there are two.
pub open spec fn modifier_physical_key(key: Key) -> KeyCode {
    match key {
        Key::Control => KeyCode::ControlLeft,
        Key::Shift => KeyCode::ShiftLeft,
        Key::Alt => KeyCode::AltLeft,
        Key::Hyper => KeyCode::Hyper,
        Key::Meta => KeyCode::Meta,
        _ => KeyCode::SuperLeft,
    }
}

/// The logical key of a mask that is a single named modifier.
pub open spec fn modifier_logical_key(modifier: KeyModifiers) -> Key {
    if modifier.bits == SHIFT_BITS {
        Key::Shift
    } else if modifier.bits == CONTROL_BITS {
        Key::Control
    } else if modifier.bits == ALT_BITS {
        Key::Alt
    } else if modifier.bits == SUPER_BITS {
        Key::Super
    } else if modifier.bits == HYPER_BITS {
        Key::Hyper
    } else {
        Key::Meta
    }
}

/// The event that reports a modifier key going down or coming up.
pub open spec fn modifier_event(modifier: KeyModifiers, state: ButtonState, window: u64) -> KeyboardInput {
    KeyboardInput {
        key_code: modifier_physical_key(modifier_logical_key(modifier)),
        logical_key: modifier_logical_key(modifier),
        state,
        window,
    }
}

/// The state that an event of the given kind is emitted with. A repeat is
/// emitted as a release; the press that follows it is owed to the next
/// update.
pub open spec fn state_of(kind: KeyEventKind) -> ButtonState {
    match kind {
        KeyEventKind::Press => ButtonState::Pressed,
        KeyEventKind::Repeat => ButtonState::Released,
        KeyEventKind::Release => ButtonState::Released,
    }
}

/// What a terminal key event translates to: the event to hand on, the
/// modifiers in force (those reported together with those that the key
/// implies), and whether the event was a repeat. `None` where the key has no
/// physical or no logical counterpart; such an event is dropped.
pub open spec fn translated(event: KeyEvent, window: u64) -> Option<(KeyboardInput, KeyModifiers, bool)> {
    if keycode_of(event.code).is_some() && key_of(event.code).is_some() {
        Some(
            (
                KeyboardInput {
                    key_code: keycode_of(event.code).unwrap().0,
                    logical_key: key_of(event.code).unwrap(),
                    state: state_of(event.kind),
                    window,
                },
                KeyModifiers { bits: event.modifiers.bits | keycode_of(event.code).unwrap().1.bits },
                event.kind == KeyEventKind::Repeat,
            ),
        )
    } else {
        None
    }
}

/// Builds the event for a modifier key from its logical key.
pub fn modifier_to_bevy(modifier: Key, state: ButtonState, window: u64) -> (r: KeyboardInput)
    requires
        is_modifier_key(modifier),
    ensures
        r == (KeyboardInput {
            key_code: modifier_physical_key(modifier),
            logical_key: modifier,
            state,
            window,
        }),
{
    let key_code = match modifier {
        Key::Control => KeyCode::ControlLeft,
        Key::Shift => KeyCode::ShiftLeft,
        Key::Alt => KeyCode::AltLeft,
        Key::Hyper => KeyCode::Hyper,
        Key::Meta => KeyCode::Meta,
        _ => KeyCode::SuperLeft,
    };
    let logical_key = modifier;
    KeyboardInput { key_code, state, window, logical_key }
}

/// The logical key of a single named modifier.
pub fn crossterm_modifier_to_bevy_key(modifier: KeyModifiers) -> (r: Key)
    requires
        modifier.is_single_flag(),
    ensures
        r == modifier_logical_key(modifier),
        is_modifier_key(r),
{
    let bits = modifier.bits();
    if bits == SHIFT_BITS {
        Key::Shift
    } else if bits == CONTROL_BITS {
        Key::Control
    } else if bits == ALT_BITS {
        Key::Alt
    } else if bits == SUPER_BITS {
        Key::Super
    } else if bits == HYPER_BITS {
        Key::Hyper
    } else {
        Key::Meta
    }
}

/// Translates a terminal key event for the given window.
pub fn key_event_to_bevy(key_event: &KeyEvent, window: u64) -> (r: Option<(KeyboardInput, KeyModifiers, bool)>)
    ensures
        r == translated(*key_event, window),
{
    let mut repeated = false;
    let state = match key_event.kind {
        KeyEventKind::Press => ButtonState::Pressed,
        KeyEventKind::Repeat => {
            repeated = true;
            ButtonState::Released
        },
        KeyEventKind::Release => ButtonState::Released,
    };
    let key_code = to_bevy_keycode(&key_event.code);
    let logical_key = to_bevy_key(&key_event.code);
    match (key_code, logical_key) {
        (Some((key_code, mods)), Some(logical_key)) => Some(
            (
                KeyboardInput { key_code, state, window, logical_key },
                key_event.modifiers.union(mods),
                repeated,
            ),
        ),
        _ => None,
    }
}

/// Whether a terminal key is a modifier key reported on its own.
pub fn is_modifier_code(code: &TerminalKeyCode) -> (r: bool)
    ensures
        r == (*code is Modifier),
{
    match code {
        TerminalKeyCode::Modifier(_) => true,
        _ => false,
    }
}

} // verus!
