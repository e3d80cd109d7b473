use bevy_ratatui::capability::{Capability, DetectedCapabilities, EmulationPolicy};
use bevy_ratatui::detection::{check_for_emulation, detect_capabilities};
use bevy_ratatui::forwarding::{is_interrupt, send_key_events_no_emulation, Keyboard};
use bevy_ratatui::keys::{
    ButtonState, Key, KeyCode, KeyEvent, KeyEventKind, KeyboardInput, ModifierKeyCode,
    TerminalKeyCode,
};
use bevy_ratatui::modifiers::KeyModifiers;
use bevy_ratatui::release::ReleaseKey;

fn event(code: TerminalKeyCode, kind: KeyEventKind) -> KeyEvent {
    KeyEvent::new(code, KeyModifiers::empty(), kind)
}

#[test]
fn capability_sets() {
    assert_eq!(Capability::empty().bits(), 0);
    assert_eq!(Capability::key_release().bits(), 0b01);
    assert_eq!(Capability::modifier().bits(), 0b10);
    assert_eq!(Capability::all().bits(), 0b11);
    assert_eq!(Capability::key_release().union(Capability::modifier()), Capability::all());
    assert_eq!(Capability::all().difference(Capability::modifier()), Capability::key_release());
    assert_eq!(Capability::all().complement(), Capability::empty());
    assert_eq!(Capability::empty().complement(), Capability::all());
    assert_eq!(Capability::modifier().complement(), Capability::key_release());
    assert_eq!(Capability::from_bits_truncate(0xff), Capability::all());
    assert_eq!(Capability::from_bits_truncate(0xfe), Capability::modifier());
    assert!(Capability::all().contains(Capability::modifier()));
    assert!(!Capability::key_release().contains(Capability::modifier()));
    assert!(Capability::key_release().contains(Capability::empty()));
    assert!(Capability::empty().is_empty());
    assert!(!Capability::modifier().is_empty());
}

#[test]
fn automatic_policy_emulates_what_was_not_detected() {
    let policy = EmulationPolicy::Automatic;
    assert_eq!(policy.emulate_capabilities(&DetectedCapabilities::new()), Capability::all());
    assert_eq!(
        policy.emulate_capabilities(&DetectedCapabilities(Capability::key_release())),
        Capability::modifier()
    );
    assert_eq!(
        policy.emulate_capabilities(&DetectedCapabilities(Capability::modifier())),
        Capability::key_release()
    );
    assert_eq!(
        policy.emulate_capabilities(&DetectedCapabilities(Capability::all())),
        Capability::empty()
    );
}

#[test]
fn manual_policy_leaves_out_what_was_detected() {
    let all = EmulationPolicy::Manual(Capability::all());
    assert_eq!(all.emulate_capabilities(&DetectedCapabilities::new()), Capability::all());
    assert_eq!(
        all.emulate_capabilities(&DetectedCapabilities(Capability::key_release())),
        Capability::modifier()
    );
    let modifier = EmulationPolicy::Manual(Capability::modifier());
    assert_eq!(
        modifier.emulate_capabilities(&DetectedCapabilities::new()),
        Capability::modifier()
    );
    assert_eq!(
        modifier.emulate_capabilities(&DetectedCapabilities(Capability::modifier())),
        Capability::empty()
    );
    assert_eq!(
        modifier.emulate_capabilities(&DetectedCapabilities(Capability::key_release())),
        Capability::modifier()
    );
    // Bits that name no capability are in no effective set.
    let stray = EmulationPolicy::Manual(Capability { bits: 0xff });
    assert_eq!(stray.emulate_capabilities(&DetectedCapabilities::new()), Capability::all());
    assert_eq!(
        stray.emulate_capabilities(&DetectedCapabilities(Capability::all())),
        Capability::empty()
    );
    assert!(!check_for_emulation(&DetectedCapabilities(Capability::all()), &stray));
    assert_eq!(
        EmulationPolicy::Automatic.emulate_capabilities(&DetectedCapabilities(Capability {
            bits: 0xf1
        })),
        Capability::modifier()
    );
    let nothing = EmulationPolicy::Manual(Capability::empty());
    assert_eq!(nothing.emulate_capabilities(&DetectedCapabilities::new()), Capability::empty());
}

#[test]
fn defaults() {
    assert_eq!(EmulationPolicy::default(), EmulationPolicy::Automatic);
    assert_eq!(DetectedCapabilities::default(), DetectedCapabilities(Capability::empty()));
    assert_eq!(KeyModifiers::default(), KeyModifiers::empty());
    assert_eq!(Capability::default(), Capability::empty());
}

#[test]
fn detection_sets_and_keeps_bits() {
    let mut detected = DetectedCapabilities::new();
    detect_capabilities(&vec![], &mut detected);
    assert_eq!(detected.0, Capability::empty());
    detect_capabilities(
        &vec![event(TerminalKeyCode::Char('a'), KeyEventKind::Press)],
        &mut detected,
    );
    assert_eq!(detected.0, Capability::empty());
    detect_capabilities(
        &vec![event(TerminalKeyCode::Char('a'), KeyEventKind::Repeat)],
        &mut detected,
    );
    assert_eq!(detected.0, Capability::empty());
    detect_capabilities(
        &vec![
            event(TerminalKeyCode::Char('a'), KeyEventKind::Press),
            event(TerminalKeyCode::Char('a'), KeyEventKind::Release),
        ],
        &mut detected,
    );
    assert_eq!(detected.0, Capability::key_release());
    detect_capabilities(
        &vec![event(TerminalKeyCode::Char('b'), KeyEventKind::Press)],
        &mut detected,
    );
    assert_eq!(detected.0, Capability::key_release());
    detect_capabilities(
        &vec![event(TerminalKeyCode::Modifier(ModifierKeyCode::LeftShift), KeyEventKind::Press)],
        &mut detected,
    );
    assert_eq!(detected.0, Capability::all());
}

#[test]
fn one_event_can_show_both_capabilities() {
    let mut detected = DetectedCapabilities::new();
    detect_capabilities(
        &vec![event(
            TerminalKeyCode::Modifier(ModifierKeyCode::IsoLevel5Shift),
            KeyEventKind::Release,
        )],
        &mut detected,
    );
    assert_eq!(detected.0, Capability::all());
    assert!(!check_for_emulation(&detected, &EmulationPolicy::Automatic));
    assert!(!check_for_emulation(&detected, &EmulationPolicy::Manual(Capability::all())));
    assert!(check_for_emulation(&DetectedCapabilities::new(), &EmulationPolicy::Automatic));
    assert!(!check_for_emulation(
        &DetectedCapabilities::new(),
        &EmulationPolicy::Manual(Capability::empty())
    ));
}

#[test]
fn emulation_ends_once_everything_is_detected() {
    let mut keyboard = Keyboard::new(EmulationPolicy::Automatic, ReleaseKey::Immediate, 1);
    assert!(keyboard.emulate);
    keyboard.update(
        &vec![event(TerminalKeyCode::Modifier(ModifierKeyCode::LeftControl), KeyEventKind::Press)],
        0,
    );
    assert!(keyboard.emulate);
    assert_eq!(keyboard.detected().0, Capability::modifier());
    assert_eq!(keyboard.emulated(), Capability::key_release());
    let sent = keyboard.update(
        &vec![event(
            TerminalKeyCode::Modifier(ModifierKeyCode::LeftControl),
            KeyEventKind::Release,
        )],
        0,
    );
    assert!(!keyboard.emulate);
    assert_eq!(keyboard.emulated(), Capability::empty());
    assert_eq!(
        sent,
        vec![KeyboardInput {
            key_code: KeyCode::ControlLeft,
            logical_key: Key::Control,
            state: ButtonState::Released,
            window: 1,
        }]
    );
    // Detection has stopped, and events are handed on as they are.
    let sent = keyboard.update(&vec![event(TerminalKeyCode::Char('x'), KeyEventKind::Press)], 0);
    assert_eq!(
        sent,
        vec![KeyboardInput {
            key_code: KeyCode::KeyX,
            logical_key: Key::Character('x'),
            state: ButtonState::Pressed,
            window: 1,
        }]
    );
    assert_eq!(keyboard.update(&vec![], 0), vec![]);
}

#[test]
fn policy_change_clears_detection() {
    let mut keyboard = Keyboard::new(EmulationPolicy::Automatic, ReleaseKey::Immediate, 1);
    keyboard.update(
        &vec![event(
            TerminalKeyCode::Modifier(ModifierKeyCode::LeftControl),
            KeyEventKind::Release,
        )],
        0,
    );
    assert_eq!(keyboard.detected().0, Capability::all());
    assert!(!keyboard.emulate);
    keyboard.set_policy(EmulationPolicy::Automatic);
    assert_eq!(keyboard.detected().0, Capability::all());
    assert!(!keyboard.emulate);
    keyboard.set_policy(EmulationPolicy::Manual(Capability::key_release()));
    assert_eq!(keyboard.detected().0, Capability::empty());
    assert!(keyboard.emulate);
    assert_eq!(keyboard.emulated(), Capability::key_release());
    keyboard.set_release_key(ReleaseKey::OnNextKey);
    assert_eq!(keyboard.release_key, ReleaseKey::OnNextKey);
    assert!(keyboard.emulate);
}

#[test]
fn emulation_check_can_be_reset() {
    let mut keyboard =
        Keyboard::new(EmulationPolicy::Manual(Capability::empty()), ReleaseKey::Immediate, 1);
    keyboard.update(&vec![], 0);
    assert!(!keyboard.emulate);
    keyboard.reset_emulation_check();
    assert!(keyboard.emulate);
    keyboard.update(&vec![], 0);
    assert!(!keyboard.emulate);
}

#[test]
fn passing_on_without_emulation() {
    let mut queue = vec![KeyboardInput {
        key_code: KeyCode::KeyZ,
        logical_key: Key::Character('z'),
        state: ButtonState::Pressed,
        window: 2,
    }];
    let sent = send_key_events_no_emulation(
        &vec![
            event(TerminalKeyCode::Char('a'), KeyEventKind::Press),
            event(TerminalKeyCode::Null, KeyEventKind::Press),
            event(TerminalKeyCode::Char('b'), KeyEventKind::Repeat),
            event(TerminalKeyCode::Char('a'), KeyEventKind::Release),
        ],
        2,
        &mut queue,
    );
    let input = |key_code, c, state| KeyboardInput {
        key_code,
        logical_key: Key::Character(c),
        state,
        window: 2,
    };
    assert_eq!(
        sent,
        vec![
            input(KeyCode::KeyZ, 'z', ButtonState::Pressed),
            input(KeyCode::KeyA, 'a', ButtonState::Pressed),
            input(KeyCode::KeyB, 'b', ButtonState::Released),
            input(KeyCode::KeyA, 'a', ButtonState::Released),
        ]
    );
    assert_eq!(queue, vec![input(KeyCode::KeyB, 'b', ButtonState::Pressed)]);
}

#[test]
fn interrupt_is_control_c_pressed() {
    let control_c =
        KeyEvent::new(TerminalKeyCode::Char('c'), KeyModifiers::control(), KeyEventKind::Press);
    assert!(is_interrupt(&control_c));
    assert!(!is_interrupt(&KeyEvent { kind: KeyEventKind::Release, ..control_c }));
    assert!(!is_interrupt(&KeyEvent { kind: KeyEventKind::Repeat, ..control_c }));
    assert!(!is_interrupt(&KeyEvent { code: TerminalKeyCode::Char('C'), ..control_c }));
    assert!(!is_interrupt(&KeyEvent { modifiers: KeyModifiers::empty(), ..control_c }));
    assert!(!is_interrupt(&KeyEvent {
        modifiers: KeyModifiers::control().union(KeyModifiers::shift()),
        ..control_c
    }));
}
