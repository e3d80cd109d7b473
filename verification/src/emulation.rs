//! The emulation of key releases and modifier keys.
//!
//! Once per update the key events that the terminal reported are worked
//! through in order. Where the terminal reports no modifier keys of their own,
//! changes of the modifier mask become modifier key events. Where it reports
//! no key releases, a key counts as held for as long as it keeps being
//! reported, and is released in the first update that does not mention it.

use vstd::prelude::*;

use crate::capability::{Capability, DetectedCapabilities, EmulationPolicy};
use crate::held::LastPress;
use crate::keys::{ButtonState, KeyEvent, KeyboardInput};
use crate::modifiers::{flag_bits, KeyModifiers, MODIFIER_COUNT};
use crate::release::{ReleaseKey, ReleaseKeyState};
use crate::translate::{
    crossterm_modifier_to_bevy_key, key_event_to_bevy, modifier_event, modifier_to_bevy,
    translated,
};

verus! {

/// The modifier events owed when the mask changes from `old_mask` to
/// `new_mask`, for the first `upto` named modifiers in their fixed order:
/// a press for each modifier that came, a release for each that went.
pub open spec fn modifier_changes(
    new_mask: KeyModifiers,
    old_mask: KeyModifiers,
    window: u64,
    upto: int,
) -> Seq<KeyboardInput>
    decreases upto,
{
    if upto <= 0 {
        Seq::empty()
    } else {
        let before = modifier_changes(new_mask, old_mask, window, upto - 1);
        if new_mask.has(upto - 1) != old_mask.has(upto - 1) {
            before.push(
                modifier_event(
                    KeyModifiers { bits: flag_bits(upto - 1) },
                    if new_mask.has(upto - 1) {
                        ButtonState::Pressed
                    } else {
                        ButtonState::Released
                    },
                    window,
                ),
            )
        } else {
            before
        }
    }
}

/// The releases owed when every modifier of `held` is let go, for the first
/// `upto` named modifiers in their fixed order.
pub open spec fn modifier_releases(held: KeyModifiers, window: u64, upto: int) -> Seq<KeyboardInput>
    decreases upto,
{
    if upto <= 0 {
        Seq::empty()
    } else {
        let before = modifier_releases(held, window, upto - 1);
        if held.has(upto - 1) {
            before.push(
                modifier_event(KeyModifiers { bits: flag_bits(upto - 1) }, ButtonState::Released, window),
            )
        } else {
            before
        }
    }
}

/// Sends a modifier event for every named modifier in which `key_modifiers`
/// differs from the mask held so far, and makes `key_modifiers` the mask
/// held.
pub fn send_modifier_keys(
    key_modifiers: KeyModifiers,
    modifiers: &mut KeyModifiers,
    window: u64,
    bevy_keys: &mut Vec<KeyboardInput>,
)
    ensures
        final(bevy_keys)@ == old(bevy_keys)@ + modifier_changes(
            key_modifiers,
            *old(modifiers),
            window,
            MODIFIER_COUNT as int,
        ),
        *final(modifiers) == key_modifiers,
{
    let held = *modifiers;
    let mut i: usize = 0;
    while i < MODIFIER_COUNT
        invariant
            i <= MODIFIER_COUNT,
            bevy_keys@ == old(bevy_keys)@ + modifier_changes(key_modifiers, held, window, i as int),
        decreases MODIFIER_COUNT - i,
    {
        let modifier = KeyModifiers::nth_flag(i);
        let now = key_modifiers.intersects(modifier);
        if now != held.intersects(modifier) {
            let button_state = if now {
                ButtonState::Pressed
            } else {
                ButtonState::Released
            };
            let bevy_key = crossterm_modifier_to_bevy_key(modifier);
            let event = modifier_to_bevy(bevy_key, button_state, window);
            bevy_keys.push(event);
        }
        i += 1;
    }
    *modifiers = key_modifiers;
}

/// Sends a release for every named modifier that is held, and clears the
/// mask: after a quiet period nothing is held any more.
pub fn emulate_release_modifiers(
    modifiers: &mut KeyModifiers,
    window: u64,
    bevy_keys: &mut Vec<KeyboardInput>,
)
    ensures
        final(bevy_keys)@ == old(bevy_keys)@ + modifier_releases(
            *old(modifiers),
            window,
            MODIFIER_COUNT as int,
        ),
        final(modifiers).bits == 0,
{
    let held = *modifiers;
    let mut i: usize = 0;
    while i < MODIFIER_COUNT
        invariant
            i <= MODIFIER_COUNT,
            bevy_keys@ == old(bevy_keys)@ + modifier_releases(held, window, i as int),
        decreases MODIFIER_COUNT - i,
    {
        let modifier = KeyModifiers::nth_flag(i);
        if held.intersects(modifier) {
            let event = modifier_to_bevy(
                crossterm_modifier_to_bevy_key(modifier),
                ButtonState::Released,
                window,
            );
            bevy_keys.push(event);
        }
        i += 1;
    }
    *modifiers = KeyModifiers::empty();
}

/// What the working through of an update's events has come to: the
/// modifier mask held, the two buffers of held keys, and the events sent so
/// far.
pub struct Reconciled {
    pub modifiers: KeyModifiers,
    pub current_frame: Seq<KeyboardInput>,
    pub next_frame: Seq<KeyboardInput>,
    pub sent: Seq<KeyboardInput>,
}

/// A sequence of distinct events with `key` entered, behind the others if it
/// is new.
pub open spec fn entered(keys: Seq<KeyboardInput>, key: KeyboardInput) -> Seq<KeyboardInput> {
    if keys.contains(key) {
        keys
    } else {
        keys.push(key)
    }
}

/// The effect of one terminal key event.
///
/// An event whose key cannot be translated changes nothing. Otherwise, in
/// this order:
/// - if modifier keys are emulated and the modifiers in force differ from
///   the mask held, the changes are sent and the mask replaced;
/// - a repeat is entered into the next frame;
/// - if key releases are emulated, a key that is in the current frame moves
///   to the next frame and nothing is sent for it, while a key that is not is
///   entered into the next frame and its event sent;
/// - if key releases are not emulated, the event is sent as it is.
pub open spec fn after_event(
    before: Reconciled,
    event: KeyEvent,
    emulation: Capability,
    window: u64,
) -> Reconciled {
    match translated(event, window) {
        None => before,
        Some((bevy_key, key_modifiers, is_repeated)) => {
            let changed = emulation.has_modifier() && key_modifiers != before.modifiers;
            let modifiers = if changed {
                key_modifiers
            } else {
                before.modifiers
            };
            let sent = if changed {
                before.sent + modifier_changes(
                    key_modifiers,
                    before.modifiers,
                    window,
                    MODIFIER_COUNT as int,
                )
            } else {
                before.sent
            };
            let next_frame = if is_repeated {
                entered(before.next_frame, bevy_key)
            } else {
                before.next_frame
            };
            if emulation.has_key_release() {
                if before.current_frame.contains(bevy_key) {
                    Reconciled {
                        modifiers,
                        current_frame: before.current_frame.remove_value(bevy_key),
                        next_frame: entered(next_frame, bevy_key),
                        sent,
                    }
                } else {
                    Reconciled {
                        modifiers,
                        current_frame: before.current_frame,
                        next_frame: entered(next_frame, bevy_key),
                        sent: sent.push(bevy_key),
                    }
                }
            } else {
                Reconciled {
                    modifiers,
                    current_frame: before.current_frame,
                    next_frame,
                    sent: sent.push(bevy_key),
                }
            }
        },
    }
}

/// The effect of a sequence of terminal key events, taken in order.
pub open spec fn after_events(
    before: Reconciled,
    events: Seq<KeyEvent>,
    emulation: Capability,
    window: u64,
) -> Reconciled
    decreases events.len(),
{
    if events.len() == 0 {
        before
    } else {
        after_event(
            after_events(before, events.drop_last(), emulation, window),
            events.last(),
            emulation,
            window,
        )
    }
}

/// Works through the key events of one update, in the order in which they
/// arrived.
pub fn emulate_key_events(
    crossterm_keys: &Vec<KeyEvent>,
    emulation: Capability,
    window: u64,
    modifiers: &mut KeyModifiers,
    last_pressed: &mut LastPress,
    bevy_keys: &mut Vec<KeyboardInput>,
)
    requires
        old(last_pressed).wf(),
    ensures
        final(last_pressed).wf(),
        (Reconciled {
            modifiers: *final(modifiers),
            current_frame: final(last_pressed).current_frame@,
            next_frame: final(last_pressed).next_frame@,
            sent: final(bevy_keys)@,
        }) == after_events(
            (Reconciled {
                modifiers: *old(modifiers),
                current_frame: old(last_pressed).current_frame@,
                next_frame: old(last_pressed).next_frame@,
                sent: old(bevy_keys)@,
            }),
            crossterm_keys@,
            emulation,
            window,
        ),
{
    let ghost start = Reconciled {
        modifiers: *modifiers,
        current_frame: last_pressed.current_frame@,
        next_frame: last_pressed.next_frame@,
        sent: bevy_keys@,
    };
    let emulate_modifier = emulation.contains(Capability::modifier());
    let emulate_key_release = emulation.contains(Capability::key_release());
    let mut i: usize = 0;
    while i < crossterm_keys.len()
        invariant
            i <= crossterm_keys@.len(),
            last_pressed.wf(),
            emulate_modifier == emulation.has_modifier(),
            emulate_key_release == emulation.has_key_release(),
            (Reconciled {
                modifiers: *modifiers,
                current_frame: last_pressed.current_frame@,
                next_frame: last_pressed.next_frame@,
                sent: bevy_keys@,
            }) == after_events(start, crossterm_keys@.take(i as int), emulation, window),
        decreases crossterm_keys@.len() - i,
    {
        let ghost before = after_events(start, crossterm_keys@.take(i as int), emulation, window);
        proof {
            assert(crossterm_keys@.take(i + 1).drop_last() =~= crossterm_keys@.take(i as int));
            assert(crossterm_keys@.take(i + 1).last() == crossterm_keys@[i as int]);
            assert(after_events(start, crossterm_keys@.take(i + 1), emulation, window)
                == after_event(before, crossterm_keys@[i as int], emulation, window));
        }
        match key_event_to_bevy(&crossterm_keys[i], window) {
            Some((bevy_key, key_modifiers, is_repeated)) => {
                if emulate_modifier && key_modifiers != *modifiers {
                    send_modifier_keys(key_modifiers, modifiers, window, bevy_keys);
                }
                if is_repeated {
                    last_pressed.next_frame.insert(bevy_key);
                }
                if emulate_key_release {
                    proof {
                        before.current_frame.index_of_first_ensures(bevy_key);
                    }
                    match last_pressed.current_frame.take(&bevy_key) {
                        Some(last_press) => {
                            last_pressed.next_frame.insert(last_press);
                        },
                        None => {
                            last_pressed.next_frame.insert(bevy_key);
                            bevy_keys.push(bevy_key);
                        },
                    }
                } else {
                    bevy_keys.push(bevy_key);
                }
            },
            None => {},
        }
        i += 1;
    }
    proof {
        assert(crossterm_keys@.take(crossterm_keys@.len() as int) =~= crossterm_keys@);
    }
}

/// Each event of `keys` in the other state, in the same order.
pub open spec fn reciprocals(keys: Seq<KeyboardInput>) -> Seq<KeyboardInput> {
    Seq::new(keys.len(), |i: int| keys[i].spec_reciprocal())
}

/// Empties the current frame and sends, for every key that was left in it,
/// the reciprocal event: the release of a key that was pressed and has not
/// been mentioned since, or the press that a repeat was owed.
pub fn emulate_release_keys(last_pressed: &mut LastPress, bevy_keys: &mut Vec<KeyboardInput>)
    requires
        old(last_pressed).wf(),
    ensures
        final(last_pressed).wf(),
        final(last_pressed).current_frame@ == Seq::<KeyboardInput>::empty(),
        final(last_pressed).next_frame@ == old(last_pressed).next_frame@,
        final(bevy_keys)@ == old(bevy_keys)@ + reciprocals(old(last_pressed).current_frame@),
{
    let left = last_pressed.current_frame.drain();
    let mut i: usize = 0;
    while i < left.len()
        invariant
            i <= left@.len(),
            bevy_keys@ == old(bevy_keys)@ + reciprocals(left@.take(i as int)),
        decreases left@.len() - i,
    {
        let reciprocal_event = left[i].reciprocal();
        bevy_keys.push(reciprocal_event);
        proof {
            assert(reciprocals(left@.take(i + 1)) =~= reciprocals(left@.take(i as int)).push(
                reciprocal_event,
            ));
        }
        i += 1;
    }
    proof {
        assert(left@.take(left@.len() as int) =~= left@);
    }
}

/// The state that the emulation keeps from one update to the next.
#[derive(Debug)]
pub struct KeyboardState {
    /// The modifier mask last reported.
    pub modifiers: KeyModifiers,
    /// The keys that count as held.
    pub last_pressed: LastPress,
    /// The running count or timer of the release strategy.
    pub release_key_state: ReleaseKeyState,
}

/// What a [`KeyboardState`] holds, as plain mathematical values.
pub struct KeyboardModel {
    pub modifiers: KeyModifiers,
    pub current_frame: Seq<KeyboardInput>,
    pub next_frame: Seq<KeyboardInput>,
    pub release_key_state: ReleaseKeyState,
}

impl View for KeyboardState {
    type V = KeyboardModel;

    open spec fn view(&self) -> KeyboardModel {
        KeyboardModel {
            modifiers: self.modifiers,
            current_frame: self.last_pressed.current_frame@,
            next_frame: self.last_pressed.next_frame@,
            release_key_state: self.release_key_state,
        }
    }
}

impl KeyboardModel {
    /// The state at the start: no modifier held, no key held, the release
    /// strategy not yet armed.
    pub open spec fn initial() -> KeyboardModel {
        KeyboardModel {
            modifiers: KeyModifiers { bits: 0 },
            current_frame: Seq::empty(),
            next_frame: Seq::empty(),
            release_key_state: ReleaseKeyState::Unarmed,
        }
    }

    /// No key is in a frame twice.
    pub open spec fn wf(self) -> bool {
        self.current_frame.no_duplicates() && self.next_frame.no_duplicates()
    }

    /// Whether an update does nothing but advance the release strategy: no
    /// key event has arrived and the wait for the release is not over.
    pub open spec fn is_idle(self, release_key: ReleaseKey, delta: u64, events: Seq<KeyEvent>) -> bool {
        events.len() == 0 && !release_key.spec_finished(
            release_key.ticked(self.release_key_state, delta),
        )
    }

    /// The state after an update in which `delta` nanoseconds went by and
    /// `events` arrived.
    ///
    /// The release strategy is advanced first. An idle update ends there.
    /// Otherwise the events are worked through, the keys left in the current
    /// frame are dropped, the held modifiers are let go if the wait is over
    /// and modifier keys are emulated, the next frame becomes the current
    /// one, and the release strategy is armed again.
    pub open spec fn updated(
        self,
        release_key: ReleaseKey,
        delta: u64,
        events: Seq<KeyEvent>,
        emulation: Capability,
        window: u64,
    ) -> KeyboardModel {
        let ticked = release_key.ticked(self.release_key_state, delta);
        if self.is_idle(release_key, delta, events) {
            KeyboardModel { release_key_state: ticked, ..self }
        } else {
            let worked = after_events(
                Reconciled {
                    modifiers: self.modifiers,
                    current_frame: self.current_frame,
                    next_frame: self.next_frame,
                    sent: Seq::empty(),
                },
                events,
                emulation,
                window,
            );
            KeyboardModel {
                modifiers: if release_key.spec_finished(ticked) && emulation.has_modifier() {
                    KeyModifiers { bits: 0 }
                } else {
                    worked.modifiers
                },
                current_frame: worked.next_frame,
                next_frame: Seq::empty(),
                release_key_state: release_key.rearmed(ticked),
            }
        }
    }

    /// The events that the same update sends, in order: what the working
    /// through of the events sent, then the reciprocal of every key left in
    /// the current frame, then the releases of the held modifiers if the wait
    /// is over and modifier keys are emulated. An idle update sends nothing.
    pub open spec fn sent(
        self,
        release_key: ReleaseKey,
        delta: u64,
        events: Seq<KeyEvent>,
        emulation: Capability,
        window: u64,
    ) -> Seq<KeyboardInput> {
        let ticked = release_key.ticked(self.release_key_state, delta);
        if self.is_idle(release_key, delta, events) {
            Seq::empty()
        } else {
            let worked = after_events(
                Reconciled {
                    modifiers: self.modifiers,
                    current_frame: self.current_frame,
                    next_frame: self.next_frame,
                    sent: Seq::empty(),
                },
                events,
                emulation,
                window,
            );
            let keys = worked.sent + reciprocals(worked.current_frame);
            if release_key.spec_finished(ticked) && emulation.has_modifier() {
                keys + modifier_releases(worked.modifiers, window, MODIFIER_COUNT as int)
            } else {
                keys
            }
        }
    }
}

impl KeyboardState {
    /// The state at the start.
    pub fn new() -> (r: KeyboardState)
        ensures
            r@.wf(),
            r@ == KeyboardModel::initial(),
    {
        KeyboardState {
            modifiers: KeyModifiers::empty(),
            last_pressed: LastPress::new(),
            release_key_state: ReleaseKeyState::Unarmed,
        }
    }
}

/// One update of the emulation: turns the key events that the terminal
/// reported since the last update into the key events to hand on, making up
/// what the terminal does not report itself.
pub fn send_key_events_with_emulation(
    state: &mut KeyboardState,
    keys: &Vec<KeyEvent>,
    window: u64,
    release_key: &ReleaseKey,
    delta: u64,
    detected: &DetectedCapabilities,
    policy: &EmulationPolicy,
) -> (keyboard_input: Vec<KeyboardInput>)
    requires
        old(state)@.wf(),
    ensures
        final(state)@.wf(),
        final(state)@ == old(state)@.updated(
            *release_key,
            delta,
            keys@,
            policy.effective(*detected),
            window,
        ),
        keyboard_input@ == old(state)@.sent(
            *release_key,
            delta,
            keys@,
            policy.effective(*detected),
            window,
        ),
        old(state)@.is_idle(*release_key, delta, keys@) ==> keyboard_input@.len() == 0,
{
    let mut keyboard_input: Vec<KeyboardInput> = Vec::new();
    release_key.tick(&mut state.release_key_state, delta);
    if keys.len() == 0 && !release_key.finished(&state.release_key_state) {
        return keyboard_input;
    }
    let emulation = policy.emulate_capabilities(detected);
    emulate_key_events(
        keys,
        emulation,
        window,
        &mut state.modifiers,
        &mut state.last_pressed,
        &mut keyboard_input,
    );
    emulate_release_keys(&mut state.last_pressed, &mut keyboard_input);
    if release_key.finished(&state.release_key_state) && emulation.contains(
        Capability::modifier(),
    ) {
        emulate_release_modifiers(&mut state.modifiers, window, &mut keyboard_input);
    }
    state.last_pressed.swap();
    release_key.reset(&mut state.release_key_state);
    keyboard_input
}

} // verus!
