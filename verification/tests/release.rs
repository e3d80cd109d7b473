use bevy_ratatui::held::{KeySet, LastPress};
use bevy_ratatui::keys::{ButtonState, Key, KeyCode, KeyboardInput};
use bevy_ratatui::modifiers::KeyModifiers;
use bevy_ratatui::release::{ReleaseKey, ReleaseKeyState, Timer};

#[test]
fn timer_runs_once() {
    let mut timer = Timer::new(100);
    assert!(!timer.finished());
    timer.tick(40);
    assert_eq!(timer, Timer { duration: 100, elapsed: 40, finished: false });
    timer.tick(59);
    assert_eq!(timer, Timer { duration: 100, elapsed: 99, finished: false });
    timer.tick(1);
    assert_eq!(timer, Timer { duration: 100, elapsed: 100, finished: true });
    timer.tick(1000);
    assert_eq!(timer, Timer { duration: 100, elapsed: 100, finished: true });
    timer.reset();
    assert_eq!(timer, Timer { duration: 100, elapsed: 0, finished: false });
    timer.tick(250);
    assert_eq!(timer, Timer { duration: 100, elapsed: 100, finished: true });
}

#[test]
fn timer_of_no_duration_needs_one_tick() {
    let mut timer = Timer::new(0);
    assert!(!timer.finished());
    timer.tick(0);
    assert!(timer.finished());
}

#[test]
fn timer_takes_the_longest_times() {
    let mut timer = Timer::new(u64::MAX);
    timer.tick(u64::MAX - 1);
    assert_eq!(timer, Timer { duration: u64::MAX, elapsed: u64::MAX - 1, finished: false });
    timer.tick(u64::MAX);
    assert_eq!(timer, Timer { duration: u64::MAX, elapsed: u64::MAX, finished: true });
}

#[test]
fn duration_strategy() {
    let strategy = ReleaseKey::Duration(10);
    let mut state = ReleaseKeyState::default();
    assert_eq!(state, ReleaseKeyState::Unarmed);
    assert!(!strategy.finished(&state));
    // The first tick arms the timer and does not advance it.
    strategy.tick(&mut state, 50);
    assert_eq!(state, ReleaseKeyState::Timer(Timer { duration: 10, elapsed: 0, finished: false }));
    assert!(!strategy.finished(&state));
    strategy.tick(&mut state, 9);
    assert!(!strategy.finished(&state));
    strategy.tick(&mut state, 1);
    assert!(strategy.finished(&state));
    strategy.tick(&mut state, 1);
    assert!(strategy.finished(&state));
    strategy.reset(&mut state);
    assert_eq!(state, ReleaseKeyState::Timer(Timer { duration: 10, elapsed: 0, finished: false }));
    assert!(!strategy.finished(&state));
}

#[test]
fn duration_strategy_arms_for_its_own_duration() {
    let mut state = ReleaseKeyState::Unarmed;
    ReleaseKey::Duration(10).reset(&mut state);
    assert_eq!(state, ReleaseKeyState::Timer(Timer { duration: 10, elapsed: 0, finished: false }));
    // A timer of another duration is no state of this strategy: the tick
    // arms a fresh one and does not advance it.
    assert!(!ReleaseKey::Duration(20).finished(&state));
    ReleaseKey::Duration(20).tick(&mut state, 15);
    assert_eq!(state, ReleaseKeyState::Timer(Timer { duration: 20, elapsed: 0, finished: false }));
    ReleaseKey::Duration(20).tick(&mut state, 15);
    assert_eq!(state, ReleaseKeyState::Timer(Timer { duration: 20, elapsed: 15, finished: false }));
    ReleaseKey::Duration(20).tick(&mut state, 5);
    assert_eq!(state, ReleaseKeyState::Timer(Timer { duration: 20, elapsed: 20, finished: true }));
    assert!(ReleaseKey::Duration(20).finished(&state));
    assert!(!ReleaseKey::Duration(10).finished(&state));
    // A reset arms for the strategy's duration, whatever the timer was.
    ReleaseKey::Duration(10).reset(&mut state);
    assert_eq!(state, ReleaseKeyState::Timer(Timer { duration: 10, elapsed: 0, finished: false }));
    ReleaseKey::Duration(30).reset(&mut state);
    assert_eq!(state, ReleaseKeyState::Timer(Timer { duration: 30, elapsed: 0, finished: false }));
    ReleaseKey::Duration(30).tick(&mut state, 29);
    assert!(!ReleaseKey::Duration(30).finished(&state));
    ReleaseKey::Duration(30).tick(&mut state, 1);
    assert!(ReleaseKey::Duration(30).finished(&state));
}

#[test]
fn frame_count_strategy() {
    let strategy = ReleaseKey::FrameCount(2);
    let mut state = ReleaseKeyState::Unarmed;
    assert!(!strategy.finished(&state));
    strategy.tick(&mut state, 0);
    assert_eq!(state, ReleaseKeyState::Count(0));
    assert!(!strategy.finished(&state));
    strategy.tick(&mut state, 0);
    assert_eq!(state, ReleaseKeyState::Count(1));
    assert!(!strategy.finished(&state));
    strategy.tick(&mut state, 0);
    assert_eq!(state, ReleaseKeyState::Count(2));
    assert!(strategy.finished(&state));
    strategy.tick(&mut state, 0);
    assert_eq!(state, ReleaseKeyState::Count(3));
    assert!(strategy.finished(&state));
    strategy.reset(&mut state);
    assert_eq!(state, ReleaseKeyState::Count(0));
    assert!(!strategy.finished(&state));
}

#[test]
fn frame_count_saturates() {
    let strategy = ReleaseKey::FrameCount(u32::MAX);
    let mut state = ReleaseKeyState::Count(u32::MAX - 1);
    assert!(!strategy.finished(&state));
    strategy.tick(&mut state, 0);
    assert_eq!(state, ReleaseKeyState::Count(u32::MAX));
    assert!(strategy.finished(&state));
    strategy.tick(&mut state, 0);
    assert_eq!(state, ReleaseKeyState::Count(u32::MAX));
    assert!(ReleaseKey::FrameCount(0).finished(&ReleaseKeyState::Count(0)));
}

#[test]
fn immediate_and_on_next_key() {
    let mut state = ReleaseKeyState::Unarmed;
    assert!(ReleaseKey::Immediate.finished(&state));
    ReleaseKey::Immediate.tick(&mut state, 5);
    assert_eq!(state, ReleaseKeyState::Count(0));
    ReleaseKey::Immediate.tick(&mut state, 5);
    assert_eq!(state, ReleaseKeyState::Count(1));
    assert!(ReleaseKey::Immediate.finished(&state));
    ReleaseKey::Immediate.reset(&mut state);
    assert_eq!(state, ReleaseKeyState::Count(0));
    assert!(ReleaseKey::Immediate.finished(&state));

    let mut state = ReleaseKeyState::Count(7);
    assert!(!ReleaseKey::OnNextKey.finished(&state));
    ReleaseKey::OnNextKey.tick(&mut state, u64::MAX);
    assert_eq!(state, ReleaseKeyState::Count(7));
    ReleaseKey::OnNextKey.reset(&mut state);
    assert_eq!(state, ReleaseKeyState::Count(7));
    assert!(!ReleaseKey::OnNextKey.finished(&state));
}

#[test]
fn a_state_of_another_strategy_is_armed_afresh() {
    let mut state = ReleaseKeyState::Count(9);
    assert!(!ReleaseKey::Duration(5).finished(&state));
    ReleaseKey::Duration(5).tick(&mut state, 100);
    assert_eq!(state, ReleaseKeyState::Timer(Timer { duration: 5, elapsed: 0, finished: false }));
    assert!(!ReleaseKey::FrameCount(0).finished(&state));
    ReleaseKey::FrameCount(0).tick(&mut state, 100);
    assert_eq!(state, ReleaseKeyState::Count(0));
    assert!(ReleaseKey::FrameCount(0).finished(&state));
}

fn input(c: char, state: ButtonState) -> KeyboardInput {
    KeyboardInput { key_code: KeyCode::KeyA, logical_key: Key::Character(c), state, window: 0 }
}

#[test]
fn key_set_keeps_order_and_holds_nothing_twice() {
    let mut keys = KeySet::new();
    assert!(keys.is_empty());
    assert!(keys.insert(input('a', ButtonState::Pressed)));
    assert!(keys.insert(input('b', ButtonState::Pressed)));
    assert!(keys.insert(input('a', ButtonState::Released)));
    assert!(!keys.insert(input('a', ButtonState::Pressed)));
    assert_eq!(keys.len(), 3);
    assert!(keys.contains(&input('b', ButtonState::Pressed)));
    assert!(!keys.contains(&input('b', ButtonState::Released)));
    assert_eq!(keys.take(&input('c', ButtonState::Pressed)), None);
    assert_eq!(
        keys.take(&input('a', ButtonState::Pressed)),
        Some(input('a', ButtonState::Pressed))
    );
    assert_eq!(keys.take(&input('a', ButtonState::Pressed)), None);
    assert!(keys.insert(input('a', ButtonState::Pressed)));
    assert_eq!(
        keys.drain(),
        vec![
            input('b', ButtonState::Pressed),
            input('a', ButtonState::Released),
            input('a', ButtonState::Pressed),
        ]
    );
    assert!(keys.is_empty());
    assert_eq!(keys.drain(), vec![]);
}

#[test]
fn last_press_swaps_its_frames() {
    let mut last_press = LastPress::new();
    last_press.next_frame.insert(input('x', ButtonState::Pressed));
    last_press.swap();
    assert!(last_press.current_frame.contains(&input('x', ButtonState::Pressed)));
    assert!(last_press.next_frame.is_empty());
}

#[test]
fn reciprocal_flips_the_state_only() {
    let pressed = input('a', ButtonState::Pressed);
    assert_eq!(pressed.reciprocal(), input('a', ButtonState::Released));
    assert_eq!(pressed.reciprocal().reciprocal(), pressed);
    assert!(pressed.same(&input('a', ButtonState::Pressed)));
    assert!(!pressed.same(&pressed.reciprocal()));
    assert_eq!(ButtonState::Pressed.flip(), ButtonState::Released);
    assert_eq!(ButtonState::Released.flip(), ButtonState::Pressed);
}

#[test]
fn modifier_masks() {
    assert_eq!(KeyModifiers::empty().bits(), 0);
    assert_eq!(KeyModifiers::shift().bits(), 1);
    assert_eq!(KeyModifiers::control().bits(), 2);
    assert_eq!(KeyModifiers::alt().bits(), 4);
    assert_eq!(KeyModifiers::nth_flag(3).bits(), 8);
    assert_eq!(KeyModifiers::nth_flag(4).bits(), 16);
    assert_eq!(KeyModifiers::nth_flag(5).bits(), 32);
    assert_eq!(KeyModifiers::from_bits_truncate(0xff).bits(), 0x3f);
    let shift_alt = KeyModifiers::shift().union(KeyModifiers::alt());
    assert_eq!(shift_alt.bits(), 5);
    assert!(shift_alt.contains(KeyModifiers::alt()));
    assert!(!shift_alt.contains(KeyModifiers::control()));
    assert!(shift_alt.intersects(KeyModifiers::shift().union(KeyModifiers::control())));
    assert!(!shift_alt.intersects(KeyModifiers::control()));
    assert_eq!(
        shift_alt.symmetric_difference(KeyModifiers::shift().union(KeyModifiers::control())).bits(),
        6
    );
    assert!(KeyModifiers::empty().is_empty());
    assert!(!shift_alt.is_empty());
}
