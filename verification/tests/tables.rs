use bevy_ratatui::keys::{
    ButtonState, Key, KeyCode, KeyEvent, KeyEventKind, KeyboardInput, MediaKeyCode,
    ModifierKeyCode, TerminalKeyCode,
};
use bevy_ratatui::modifiers::KeyModifiers;
use bevy_ratatui::translate::{
    crossterm_modifier_to_bevy_key, is_modifier_code, key_event_to_bevy, modifier_to_bevy,
    to_bevy_key, to_bevy_keycode,
};

fn plain(key_code: KeyCode) -> Option<(KeyCode, KeyModifiers)> {
    Some((key_code, KeyModifiers::empty()))
}

fn shifted(key_code: KeyCode) -> Option<(KeyCode, KeyModifiers)> {
    Some((key_code, KeyModifiers::shift()))
}

#[test]
fn letters_map_to_their_keys() {
    assert_eq!(to_bevy_keycode(&TerminalKeyCode::Char('a')), plain(KeyCode::KeyA));
    assert_eq!(to_bevy_keycode(&TerminalKeyCode::Char('m')), plain(KeyCode::KeyM));
    assert_eq!(to_bevy_keycode(&TerminalKeyCode::Char('z')), plain(KeyCode::KeyZ));
    assert_eq!(to_bevy_keycode(&TerminalKeyCode::Char('A')), shifted(KeyCode::KeyA));
    assert_eq!(to_bevy_keycode(&TerminalKeyCode::Char('M')), shifted(KeyCode::KeyM));
    assert_eq!(to_bevy_keycode(&TerminalKeyCode::Char('Z')), shifted(KeyCode::KeyZ));
}

#[test]
fn every_letter_shares_its_key_with_its_capital() {
    for (lower, upper) in ('a'..='z').zip('A'..='Z') {
        let (low_key, low_mods) = to_bevy_keycode(&TerminalKeyCode::Char(lower)).unwrap();
        let (up_key, up_mods) = to_bevy_keycode(&TerminalKeyCode::Char(upper)).unwrap();
        assert_eq!(low_key, up_key);
        assert_eq!(low_mods, KeyModifiers::empty());
        assert_eq!(up_mods, KeyModifiers::shift());
    }
}

#[test]
fn digits_and_their_shifted_characters() {
    assert_eq!(to_bevy_keycode(&TerminalKeyCode::Char('0')), plain(KeyCode::Digit0));
    assert_eq!(to_bevy_keycode(&TerminalKeyCode::Char('1')), plain(KeyCode::Digit1));
    assert_eq!(to_bevy_keycode(&TerminalKeyCode::Char('9')), plain(KeyCode::Digit9));
    assert_eq!(to_bevy_keycode(&TerminalKeyCode::Char('!')), shifted(KeyCode::Digit1));
    assert_eq!(to_bevy_keycode(&TerminalKeyCode::Char('@')), shifted(KeyCode::Digit2));
    assert_eq!(to_bevy_keycode(&TerminalKeyCode::Char('#')), shifted(KeyCode::Digit3));
    assert_eq!(to_bevy_keycode(&TerminalKeyCode::Char('$')), shifted(KeyCode::Digit4));
    assert_eq!(to_bevy_keycode(&TerminalKeyCode::Char('%')), shifted(KeyCode::Digit5));
    assert_eq!(to_bevy_keycode(&TerminalKeyCode::Char('^')), shifted(KeyCode::Digit6));
    assert_eq!(to_bevy_keycode(&TerminalKeyCode::Char('&')), shifted(KeyCode::Digit7));
    assert_eq!(to_bevy_keycode(&TerminalKeyCode::Char('*')), shifted(KeyCode::Digit8));
    assert_eq!(to_bevy_keycode(&TerminalKeyCode::Char('(')), shifted(KeyCode::Digit9));
    assert_eq!(to_bevy_keycode(&TerminalKeyCode::Char(')')), shifted(KeyCode::Digit0));
}

#[test]
fn punctuation_and_its_shifted_characters() {
    assert_eq!(to_bevy_keycode(&TerminalKeyCode::Char('[')), plain(KeyCode::BracketLeft));
    assert_eq!(to_bevy_keycode(&TerminalKeyCode::Char('{')), shifted(KeyCode::BracketLeft));
    assert_eq!(to_bevy_keycode(&TerminalKeyCode::Char(']')), plain(KeyCode::BracketRight));
    assert_eq!(to_bevy_keycode(&TerminalKeyCode::Char('}')), shifted(KeyCode::BracketRight));
    assert_eq!(to_bevy_keycode(&TerminalKeyCode::Char(',')), plain(KeyCode::Comma));
    assert_eq!(to_bevy_keycode(&TerminalKeyCode::Char('<')), shifted(KeyCode::Comma));
    assert_eq!(to_bevy_keycode(&TerminalKeyCode::Char('=')), plain(KeyCode::Equal));
    assert_eq!(to_bevy_keycode(&TerminalKeyCode::Char('+')), shifted(KeyCode::Equal));
    assert_eq!(to_bevy_keycode(&TerminalKeyCode::Char('.')), plain(KeyCode::Period));
    assert_eq!(to_bevy_keycode(&TerminalKeyCode::Char('>')), shifted(KeyCode::Period));
    assert_eq!(to_bevy_keycode(&TerminalKeyCode::Char('\'')), plain(KeyCode::Quote));
    assert_eq!(to_bevy_keycode(&TerminalKeyCode::Char('"')), shifted(KeyCode::Quote));
    assert_eq!(to_bevy_keycode(&TerminalKeyCode::Char(';')), plain(KeyCode::Semicolon));
    assert_eq!(to_bevy_keycode(&TerminalKeyCode::Char(':')), shifted(KeyCode::Semicolon));
    assert_eq!(to_bevy_keycode(&TerminalKeyCode::Char('/')), plain(KeyCode::Slash));
    assert_eq!(to_bevy_keycode(&TerminalKeyCode::Char('?')), shifted(KeyCode::Slash));
    assert_eq!(to_bevy_keycode(&TerminalKeyCode::Char(' ')), plain(KeyCode::Space));
    assert_eq!(to_bevy_keycode(&TerminalKeyCode::Char('-')), plain(KeyCode::Minus));
}

#[test]
fn hyphen_implies_no_modifier() {
    let event =
        KeyEvent::new(TerminalKeyCode::Char('-'), KeyModifiers::empty(), KeyEventKind::Press);
    assert_eq!(
        key_event_to_bevy(&event, 5),
        Some((
            KeyboardInput {
                key_code: KeyCode::Minus,
                logical_key: Key::Character('-'),
                state: ButtonState::Pressed,
                window: 5,
            },
            KeyModifiers::empty(),
            false,
        ))
    );
}

#[test]
fn characters_without_a_key() {
    for c in ['_', '`', '~', '\\', '|', '\n', '\t', 'é', 'ß', '\u{0}'] {
        assert_eq!(to_bevy_keycode(&TerminalKeyCode::Char(c)), None);
        assert_eq!(to_bevy_key(&TerminalKeyCode::Char(c)), Some(Key::Character(c)));
        let event = KeyEvent::new(
            TerminalKeyCode::Char(c),
            KeyModifiers::empty(),
            KeyEventKind::Press,
        );
        assert_eq!(key_event_to_bevy(&event, 0), None);
    }
}

#[test]
fn function_keys() {
    assert_eq!(to_bevy_keycode(&TerminalKeyCode::F(1)), plain(KeyCode::F1));
    assert_eq!(to_bevy_keycode(&TerminalKeyCode::F(12)), plain(KeyCode::F12));
    assert_eq!(to_bevy_keycode(&TerminalKeyCode::F(20)), plain(KeyCode::F20));
    assert_eq!(to_bevy_keycode(&TerminalKeyCode::F(31)), plain(KeyCode::F31));
    assert_eq!(to_bevy_keycode(&TerminalKeyCode::F(35)), plain(KeyCode::F35));
    assert_eq!(to_bevy_key(&TerminalKeyCode::F(1)), Some(Key::F1));
    assert_eq!(to_bevy_key(&TerminalKeyCode::F(20)), Some(Key::F20));
    assert_eq!(to_bevy_key(&TerminalKeyCode::F(31)), Some(Key::F31));
    assert_eq!(to_bevy_key(&TerminalKeyCode::F(35)), Some(Key::F35));
    for n in [0u8, 21, 22, 25, 30, 36, 100, 255] {
        assert_eq!(to_bevy_keycode(&TerminalKeyCode::F(n)), None);
        assert_eq!(to_bevy_key(&TerminalKeyCode::F(n)), None);
    }
}

#[test]
fn named_keys() {
    let pairs = [
        (TerminalKeyCode::Backspace, KeyCode::Backspace, Key::Backspace),
        (TerminalKeyCode::Enter, KeyCode::Enter, Key::Enter),
        (TerminalKeyCode::Left, KeyCode::ArrowLeft, Key::ArrowLeft),
        (TerminalKeyCode::Right, KeyCode::ArrowRight, Key::ArrowRight),
        (TerminalKeyCode::Up, KeyCode::ArrowUp, Key::ArrowUp),
        (TerminalKeyCode::Down, KeyCode::ArrowDown, Key::ArrowDown),
        (TerminalKeyCode::Home, KeyCode::Home, Key::Home),
        (TerminalKeyCode::End, KeyCode::End, Key::End),
        (TerminalKeyCode::PageUp, KeyCode::PageUp, Key::PageUp),
        (TerminalKeyCode::PageDown, KeyCode::PageDown, Key::PageDown),
        (TerminalKeyCode::Tab, KeyCode::Tab, Key::Tab),
        (TerminalKeyCode::Delete, KeyCode::Delete, Key::Delete),
        (TerminalKeyCode::Insert, KeyCode::Insert, Key::Insert),
        (TerminalKeyCode::Esc, KeyCode::Escape, Key::Escape),
        (TerminalKeyCode::CapsLock, KeyCode::CapsLock, Key::CapsLock),
        (TerminalKeyCode::ScrollLock, KeyCode::ScrollLock, Key::ScrollLock),
        (TerminalKeyCode::NumLock, KeyCode::NumLock, Key::NumLock),
        (TerminalKeyCode::PrintScreen, KeyCode::PrintScreen, Key::PrintScreen),
        (TerminalKeyCode::Pause, KeyCode::Pause, Key::Pause),
        (TerminalKeyCode::Menu, KeyCode::ContextMenu, Key::ContextMenu),
    ];
    for (code, key_code, key) in pairs {
        assert_eq!(to_bevy_keycode(&code), plain(key_code));
        assert_eq!(to_bevy_key(&code), Some(key));
    }
    assert_eq!(to_bevy_keycode(&TerminalKeyCode::BackTab), shifted(KeyCode::Tab));
    assert_eq!(to_bevy_key(&TerminalKeyCode::BackTab), Some(Key::Tab));
    assert_eq!(to_bevy_keycode(&TerminalKeyCode::Null), None);
    assert_eq!(to_bevy_key(&TerminalKeyCode::Null), None);
    assert_eq!(to_bevy_keycode(&TerminalKeyCode::KeypadBegin), None);
    assert_eq!(to_bevy_key(&TerminalKeyCode::KeypadBegin), None);
}

#[test]
fn media_keys() {
    let pairs = [
        (MediaKeyCode::Play, Some(KeyCode::MediaPlayPause), Some(Key::MediaPlay)),
        (MediaKeyCode::Pause, Some(KeyCode::Pause), Some(Key::Pause)),
        (MediaKeyCode::PlayPause, Some(KeyCode::MediaPlayPause), Some(Key::MediaPlayPause)),
        (MediaKeyCode::Reverse, None, None),
        (MediaKeyCode::Stop, Some(KeyCode::MediaStop), Some(Key::MediaStop)),
        (MediaKeyCode::FastForward, Some(KeyCode::MediaTrackNext), Some(Key::MediaFastForward)),
        (MediaKeyCode::Rewind, Some(KeyCode::MediaTrackPrevious), Some(Key::MediaRewind)),
        (MediaKeyCode::TrackNext, Some(KeyCode::MediaTrackNext), Some(Key::MediaTrackNext)),
        (
            MediaKeyCode::TrackPrevious,
            Some(KeyCode::MediaTrackPrevious),
            Some(Key::MediaTrackPrevious),
        ),
        (MediaKeyCode::Record, None, Some(Key::MediaRecord)),
        (MediaKeyCode::LowerVolume, Some(KeyCode::AudioVolumeDown), Some(Key::AudioVolumeDown)),
        (MediaKeyCode::RaiseVolume, Some(KeyCode::AudioVolumeUp), Some(Key::AudioVolumeUp)),
        (MediaKeyCode::MuteVolume, Some(KeyCode::AudioVolumeMute), Some(Key::AudioVolumeMute)),
    ];
    for (media, key_code, key) in pairs {
        let code = TerminalKeyCode::Media(media);
        assert_eq!(to_bevy_keycode(&code), key_code.map(|k| (k, KeyModifiers::empty())));
        assert_eq!(to_bevy_key(&code), key);
    }
}

#[test]
fn modifier_keys() {
    let pairs = [
        (ModifierKeyCode::LeftShift, Some(KeyCode::ShiftLeft), Some(Key::Shift)),
        (ModifierKeyCode::LeftControl, Some(KeyCode::ControlLeft), Some(Key::Control)),
        (ModifierKeyCode::LeftAlt, Some(KeyCode::AltLeft), Some(Key::Alt)),
        (ModifierKeyCode::LeftSuper, Some(KeyCode::SuperLeft), Some(Key::Super)),
        (ModifierKeyCode::LeftHyper, Some(KeyCode::Hyper), Some(Key::Hyper)),
        (ModifierKeyCode::LeftMeta, Some(KeyCode::Meta), Some(Key::Meta)),
        (ModifierKeyCode::RightShift, Some(KeyCode::ShiftRight), Some(Key::Shift)),
        (ModifierKeyCode::RightControl, Some(KeyCode::ControlRight), Some(Key::Control)),
        (ModifierKeyCode::RightAlt, Some(KeyCode::AltRight), Some(Key::Alt)),
        (ModifierKeyCode::RightSuper, Some(KeyCode::SuperRight), Some(Key::Super)),
        (ModifierKeyCode::RightHyper, Some(KeyCode::Hyper), Some(Key::Hyper)),
        (ModifierKeyCode::RightMeta, Some(KeyCode::Meta), Some(Key::Meta)),
        (ModifierKeyCode::IsoLevel3Shift, None, Some(Key::AltGraph)),
        (ModifierKeyCode::IsoLevel5Shift, None, None),
    ];
    for (modifier, key_code, key) in pairs {
        let code = TerminalKeyCode::Modifier(modifier);
        assert_eq!(to_bevy_keycode(&code), key_code.map(|k| (k, KeyModifiers::empty())));
        assert_eq!(to_bevy_key(&code), key);
        assert!(is_modifier_code(&code));
    }
    assert!(!is_modifier_code(&TerminalKeyCode::Char('a')));
    assert!(!is_modifier_code(&TerminalKeyCode::Tab));
}

#[test]
fn event_kinds() {
    let press = KeyEvent::new(TerminalKeyCode::Enter, KeyModifiers::alt(), KeyEventKind::Press);
    assert_eq!(
        key_event_to_bevy(&press, 3),
        Some((
            KeyboardInput {
                key_code: KeyCode::Enter,
                logical_key: Key::Enter,
                state: ButtonState::Pressed,
                window: 3,
            },
            KeyModifiers::alt(),
            false,
        ))
    );
    let repeat = KeyEvent::new(TerminalKeyCode::Enter, KeyModifiers::alt(), KeyEventKind::Repeat);
    assert_eq!(
        key_event_to_bevy(&repeat, 3),
        Some((
            KeyboardInput {
                key_code: KeyCode::Enter,
                logical_key: Key::Enter,
                state: ButtonState::Released,
                window: 3,
            },
            KeyModifiers::alt(),
            true,
        ))
    );
    let release =
        KeyEvent::new(TerminalKeyCode::Enter, KeyModifiers::alt(), KeyEventKind::Release);
    assert_eq!(
        key_event_to_bevy(&release, 3),
        Some((
            KeyboardInput {
                key_code: KeyCode::Enter,
                logical_key: Key::Enter,
                state: ButtonState::Released,
                window: 3,
            },
            KeyModifiers::alt(),
            false,
        ))
    );
}

#[test]
fn implied_shift_joins_the_reported_modifiers() {
    let event =
        KeyEvent::new(TerminalKeyCode::Char('Q'), KeyModifiers::control(), KeyEventKind::Press);
    let (input, modifiers, repeated) = key_event_to_bevy(&event, 9).unwrap();
    assert_eq!(input.key_code, KeyCode::KeyQ);
    assert_eq!(input.logical_key, Key::Character('Q'));
    assert_eq!(input.window, 9);
    assert_eq!(modifiers.bits(), 0b011);
    assert!(!repeated);
    let back_tab =
        KeyEvent::new(TerminalKeyCode::BackTab, KeyModifiers::empty(), KeyEventKind::Press);
    let (input, modifiers, _) = key_event_to_bevy(&back_tab, 9).unwrap();
    assert_eq!(input.key_code, KeyCode::Tab);
    assert_eq!(modifiers, KeyModifiers::shift());
}

#[test]
fn keys_with_only_a_logical_counterpart_are_dropped() {
    for code in [
        TerminalKeyCode::Media(MediaKeyCode::Record),
        TerminalKeyCode::Modifier(ModifierKeyCode::IsoLevel3Shift),
        TerminalKeyCode::Media(MediaKeyCode::Reverse),
        TerminalKeyCode::Modifier(ModifierKeyCode::IsoLevel5Shift),
    ] {
        let event = KeyEvent::new(code, KeyModifiers::empty(), KeyEventKind::Press);
        assert_eq!(key_event_to_bevy(&event, 0), None);
    }
}

#[test]
fn modifier_flags_and_their_events() {
    let expected = [
        (Key::Shift, KeyCode::ShiftLeft),
        (Key::Control, KeyCode::ControlLeft),
        (Key::Alt, KeyCode::AltLeft),
        (Key::Super, KeyCode::SuperLeft),
        (Key::Hyper, KeyCode::Hyper),
        (Key::Meta, KeyCode::Meta),
    ];
    for (i, (key, key_code)) in expected.into_iter().enumerate() {
        let flag = KeyModifiers::nth_flag(i);
        assert_eq!(flag.bits(), 1u8 << i);
        assert_eq!(crossterm_modifier_to_bevy_key(flag), key);
        assert_eq!(
            modifier_to_bevy(key, ButtonState::Released, 4),
            KeyboardInput { key_code, logical_key: key, state: ButtonState::Released, window: 4 }
        );
    }
}
