//! What holds of the emulation over whole updates and runs of updates.

use vstd::prelude::*;

use crate::capability::{Capability, DetectedCapabilities, EmulationPolicy};
use crate::sequences::{
    lemma_entered, lemma_occurrences_push, lemma_remove_value, occurrences, one_if,
    only_released,
};
use crate::detection::shown_by;
use crate::emulation::{
    after_event, after_events, entered, modifier_changes, modifier_releases, KeyboardModel,
    Reconciled,
};
use crate::keys::{ButtonState, KeyEvent, KeyboardInput};
use crate::modifiers::{flag_bits, KeyModifiers, MODIFIER_COUNT};
use crate::release::ReleaseKey;
use crate::translate::{is_modifier_key, modifier_event, translated};

verus! {

/// `key` is what one of the terminal's events translates to.
pub open spec fn is_translation_of(key: KeyboardInput, events: Seq<KeyEvent>, window: u64) -> bool {
    exists|i: int|
        0 <= i < events.len() && translated(#[trigger] events[i], window).is_some() && translated(
            events[i],
            window,
        ).unwrap().0 == key
}

/// An update that neither sees an event nor finds the wait for the release
/// over sends nothing and leaves everything but the release strategy's state
/// as it was.
pub proof fn lemma_idle_update_sends_nothing(
    model: KeyboardModel,
    release_key: ReleaseKey,
    delta: u64,
    emulation: Capability,
    window: u64,
)
    requires
        !release_key.spec_finished(release_key.ticked(model.release_key_state, delta)),
    ensures
        model.sent(release_key, delta, Seq::empty(), emulation, window) == Seq::<
            KeyboardInput,
        >::empty(),
        model.updated(release_key, delta, Seq::empty(), emulation, window) == (KeyboardModel {
            release_key_state: release_key.ticked(model.release_key_state, delta),
            ..model
        }),
{
}

/// The events made up for a change of the modifier mask are all about
/// modifier keys.
pub proof fn lemma_modifier_changes_are_modifier_keys(
    new_mask: KeyModifiers,
    old_mask: KeyModifiers,
    window: u64,
    upto: int,
)
    ensures
        forall|j: int|
            0 <= j < modifier_changes(new_mask, old_mask, window, upto).len() ==> is_modifier_key(
                (#[trigger] modifier_changes(new_mask, old_mask, window, upto)[j]).logical_key,
            ),
    decreases upto,
{
    if upto > 0 {
        lemma_modifier_changes_are_modifier_keys(new_mask, old_mask, window, upto - 1);
    }
}

/// The events made up to let the held modifiers go are all about modifier
/// keys.
pub proof fn lemma_modifier_releases_are_modifier_keys(held: KeyModifiers, window: u64, upto: int)
    ensures
        forall|j: int|
            0 <= j < modifier_releases(held, window, upto).len() ==> is_modifier_key(
                (#[trigger] modifier_releases(held, window, upto)[j]).logical_key,
            ),
    decreases upto,
{
    if upto > 0 {
        lemma_modifier_releases_are_modifier_keys(held, window, upto - 1);
    }
}

/// Where key releases are not emulated, working through events leaves the
/// current frame alone, enters nothing but releases into the next frame, and
/// sends nothing but events about modifier keys and translations of the
/// events worked through.
pub proof fn lemma_events_without_release_emulation(
    before: Reconciled,
    events: Seq<KeyEvent>,
    emulation: Capability,
    window: u64,
)
    requires
        !emulation.has_key_release(),
        only_released(before.next_frame),
    ensures
        after_events(before, events, emulation, window).current_frame == before.current_frame,
        only_released(after_events(before, events, emulation, window).next_frame),
        after_events(before, events, emulation, window).sent.len() >= before.sent.len(),
        forall|j: int|
            0 <= j < after_events(before, events, emulation, window).sent.len() ==> {
                let key = #[trigger] after_events(before, events, emulation, window).sent[j];
                ||| (j < before.sent.len() && key == before.sent[j])
                ||| is_modifier_key(key.logical_key)
                ||| is_translation_of(key, events, window)
            },
    decreases events.len(),
{
    if events.len() > 0 {
        let earlier = events.drop_last();
        let event = events.last();
        let middle = after_events(before, earlier, emulation, window);
        let after = after_event(middle, event, emulation, window);
        lemma_events_without_release_emulation(before, earlier, emulation, window);
        assert forall|key: KeyboardInput| is_translation_of(key, earlier, window) implies is_translation_of(
            key,
            events,
            window,
        ) by {
            let i = choose|i: int|
                0 <= i < earlier.len() && translated(#[trigger] earlier[i], window).is_some()
                    && translated(earlier[i], window).unwrap().0 == key;
            assert(events[i] == earlier[i]);
        }
        match translated(event, window) {
            None => {},
            Some((bevy_key, key_modifiers, is_repeated)) => {
                assert(events[events.len() - 1] == event);
                assert(is_translation_of(bevy_key, events, window));
                lemma_modifier_changes_are_modifier_keys(
                    key_modifiers,
                    middle.modifiers,
                    window,
                    MODIFIER_COUNT as int,
                );
                if is_repeated {
                    assert(bevy_key.state == ButtonState::Released);
                }
            },
        }
    }
}

/// Where key releases are not emulated and no press is left in the frames of
/// held keys, an update makes up no release of a key: every release that it
/// sends for a key other than a modifier key is the translation of one of
/// the update's events. No press is in the frames afterwards either, so the
/// same holds of the next update.
pub proof fn lemma_no_release_made_up(
    model: KeyboardModel,
    release_key: ReleaseKey,
    delta: u64,
    events: Seq<KeyEvent>,
    emulation: Capability,
    window: u64,
)
    requires
        !emulation.has_key_release(),
        only_released(model.current_frame),
        only_released(model.next_frame),
    ensures
        forall|j: int|
            0 <= j < model.sent(release_key, delta, events, emulation, window).len() ==> {
                let key = #[trigger] model.sent(release_key, delta, events, emulation, window)[j];
                key.state == ButtonState::Released && !is_modifier_key(key.logical_key)
                    ==> is_translation_of(key, events, window)
            },
        only_released(model.updated(release_key, delta, events, emulation, window).current_frame),
        only_released(model.updated(release_key, delta, events, emulation, window).next_frame),
{
    let start = Reconciled {
        modifiers: model.modifiers,
        current_frame: model.current_frame,
        next_frame: model.next_frame,
        sent: Seq::empty(),
    };
    let worked = after_events(start, events, emulation, window);
    lemma_events_without_release_emulation(start, events, emulation, window);
    lemma_modifier_releases_are_modifier_keys(worked.modifiers, window, MODIFIER_COUNT as int);
    let sent = model.sent(release_key, delta, events, emulation, window);
    assert forall|j: int| 0 <= j < sent.len() implies {
        let key = #[trigger] sent[j];
        key.state == ButtonState::Released && !is_modifier_key(key.logical_key)
            ==> is_translation_of(key, events, window)
    } by {
        if j < worked.sent.len() {
            assert(sent[j] == worked.sent[j]);
        } else if j < worked.sent.len() + model.current_frame.len() {
            assert(sent[j] == model.current_frame[j - worked.sent.len()].spec_reciprocal());
        } else {
            let releases = modifier_releases(worked.modifiers, window, MODIFIER_COUNT as int);
            assert(sent[j] == releases[j - worked.sent.len() - model.current_frame.len()]);
        }
    }
}

/// The first update that does not emulate key releases and is not idle
/// clears the frames of every press, whatever they held before: from then on
/// no release of a key is made up.
pub proof fn lemma_frames_cleared_of_presses(
    model: KeyboardModel,
    release_key: ReleaseKey,
    delta: u64,
    events: Seq<KeyEvent>,
    emulation: Capability,
    window: u64,
)
    requires
        !emulation.has_key_release(),
        only_released(model.next_frame),
        !model.is_idle(release_key, delta, events),
    ensures
        only_released(model.updated(release_key, delta, events, emulation, window).current_frame),
        only_released(model.updated(release_key, delta, events, emulation, window).next_frame),
{
    let start = Reconciled {
        modifiers: model.modifiers,
        current_frame: model.current_frame,
        next_frame: model.next_frame,
        sent: Seq::empty(),
    };
    lemma_events_without_release_emulation(start, events, emulation, window);
}

/// Detection only adds: what was detected before an update is detected after
/// it. Under the automatic policy a capability that has been detected is
/// not emulated in that update nor in any later one.
pub proof fn lemma_detected_stays_unemulated(detected: DetectedCapabilities, events: Seq<KeyEvent>)
    ensures
        detected.0.has_key_release() ==> {
            let after = DetectedCapabilities(Capability { bits: detected.0.bits | shown_by(events) });
            after.0.has_key_release() && !EmulationPolicy::Automatic.effective(
                after,
            ).has_key_release()
        },
        detected.0.has_modifier() ==> {
            let after = DetectedCapabilities(Capability { bits: detected.0.bits | shown_by(events) });
            after.0.has_modifier() && !EmulationPolicy::Automatic.effective(after).has_modifier()
        },
{
    let d = detected.0.bits;
    let s = shown_by(events);
    assert(d & 1u8 == 1u8 ==> (d | s) & 1u8 == 1u8) by (bit_vector);
    assert(d & 2u8 == 2u8 ==> (d | s) & 2u8 == 2u8) by (bit_vector);
    let after = DetectedCapabilities(Capability { bits: d | s });
    crate::capability::lemma_effective_avoids_detected(EmulationPolicy::Automatic, after);
}

/// Whatever is in the next frame after events have been worked through was
/// there before or is the translation of one of the events.
pub proof fn lemma_next_frame_is_entered(
    before: Reconciled,
    events: Seq<KeyEvent>,
    emulation: Capability,
    window: u64,
)
    ensures
        forall|key: KeyboardInput| #[trigger]
            after_events(before, events, emulation, window).next_frame.contains(key)
                ==> before.next_frame.contains(key) || is_translation_of(key, events, window),
    decreases events.len(),
{
    if events.len() > 0 {
        let earlier = events.drop_last();
        let event = events.last();
        let middle = after_events(before, earlier, emulation, window);
        let after = after_event(middle, event, emulation, window);
        lemma_next_frame_is_entered(before, earlier, emulation, window);
        assert forall|key: KeyboardInput| #[trigger]
            after.next_frame.contains(key) implies before.next_frame.contains(key)
            || is_translation_of(key, events, window) by {
            let i = choose|i: int| 0 <= i < after.next_frame.len() && after.next_frame[i] == key;
            if translated(event, window).is_some() && translated(event, window).unwrap().0 == key {
                assert(events[events.len() - 1] == event);
            } else {
                assert(middle.next_frame.contains(key)) by {
                    if i < middle.next_frame.len() {
                        assert(middle.next_frame[i] == key);
                    }
                }
                if is_translation_of(key, earlier, window) {
                    let j = choose|j: int|
                        0 <= j < earlier.len() && translated(#[trigger] earlier[j], window).is_some()
                            && translated(earlier[j], window).unwrap().0 == key;
                    assert(events[j] == earlier[j]);
                }
            }
        }
    }
}

/// No key stays held without being mentioned. After an update that is not
/// idle the next frame is empty, and every key in the current frame was
/// entered during this very update: it is the translation of one of the
/// update's events.
pub proof fn lemma_held_keys_are_refreshed(
    model: KeyboardModel,
    release_key: ReleaseKey,
    delta: u64,
    events: Seq<KeyEvent>,
    emulation: Capability,
    window: u64,
)
    requires
        !model.is_idle(release_key, delta, events),
        model.next_frame.len() == 0,
    ensures
        model.updated(release_key, delta, events, emulation, window).next_frame.len() == 0,
        forall|key: KeyboardInput| #[trigger]
            model.updated(release_key, delta, events, emulation, window).current_frame.contains(
                key,
            ) ==> is_translation_of(key, events, window),
{
    let start = Reconciled {
        modifiers: model.modifiers,
        current_frame: model.current_frame,
        next_frame: model.next_frame,
        sent: Seq::empty(),
    };
    lemma_next_frame_is_entered(start, events, emulation, window);
}

/// A change of the modifier mask is reported exactly. For each named
/// modifier, the events made up for the change hold its press once if the
/// modifier came and not at all otherwise, and its release once if the
/// modifier went and not at all otherwise.
pub proof fn lemma_modifier_changes_exact(
    new_mask: KeyModifiers,
    old_mask: KeyModifiers,
    window: u64,
    modifier: int,
    upto: int,
)
    requires
        0 <= modifier < MODIFIER_COUNT,
        0 <= upto <= MODIFIER_COUNT,
    ensures
        occurrences(
            modifier_changes(new_mask, old_mask, window, upto),
            modifier_event(
                KeyModifiers { bits: flag_bits(modifier) },
                ButtonState::Pressed,
                window,
            ),
        ) == one_if(modifier < upto && new_mask.has(modifier) && !old_mask.has(modifier)),
        occurrences(
            modifier_changes(new_mask, old_mask, window, upto),
            modifier_event(
                KeyModifiers { bits: flag_bits(modifier) },
                ButtonState::Released,
                window,
            ),
        ) == one_if(modifier < upto && !new_mask.has(modifier) && old_mask.has(modifier)),
    decreases upto,
{
    let flag = KeyModifiers { bits: flag_bits(modifier) };
    if upto > 0 {
        lemma_modifier_changes_exact(new_mask, old_mask, window, modifier, upto - 1);
        let before = modifier_changes(new_mask, old_mask, window, upto - 1);
        if new_mask.has(upto - 1) != old_mask.has(upto - 1) {
            let event = modifier_event(
                KeyModifiers { bits: flag_bits(upto - 1) },
                if new_mask.has(upto - 1) {
                    ButtonState::Pressed
                } else {
                    ButtonState::Released
                },
                window,
            );
            lemma_occurrences_push(
                before,
                event,
                modifier_event(flag, ButtonState::Pressed, window),
            );
            lemma_occurrences_push(
                before,
                event,
                modifier_event(flag, ButtonState::Released, window),
            );
        }
    }
}

/// Letting the held modifiers go releases each of them once and presses
/// none.
pub proof fn lemma_modifier_releases_exact(held: KeyModifiers, window: u64, modifier: int, upto: int)
    requires
        0 <= modifier < MODIFIER_COUNT,
        0 <= upto <= MODIFIER_COUNT,
    ensures
        occurrences(
            modifier_releases(held, window, upto),
            modifier_event(
                KeyModifiers { bits: flag_bits(modifier) },
                ButtonState::Released,
                window,
            ),
        ) == one_if(modifier < upto && held.has(modifier)),
        occurrences(
            modifier_releases(held, window, upto),
            modifier_event(
                KeyModifiers { bits: flag_bits(modifier) },
                ButtonState::Pressed,
                window,
            ),
        ) == 0,
    decreases upto,
{
    let flag = KeyModifiers { bits: flag_bits(modifier) };
    if upto > 0 {
        lemma_modifier_releases_exact(held, window, modifier, upto - 1);
        let before = modifier_releases(held, window, upto - 1);
        if held.has(upto - 1) {
            let event = modifier_event(
                KeyModifiers { bits: flag_bits(upto - 1) },
                ButtonState::Released,
                window,
            );
            lemma_occurrences_push(
                before,
                event,
                modifier_event(flag, ButtonState::Released, window),
            );
            lemma_occurrences_push(
                before,
                event,
                modifier_event(flag, ButtonState::Pressed, window),
            );
        }
    }
}

/// Working through events keeps the keys of each frame distinct.
pub proof fn lemma_frames_stay_distinct(
    before: Reconciled,
    events: Seq<KeyEvent>,
    emulation: Capability,
    window: u64,
)
    requires
        before.current_frame.no_duplicates(),
        before.next_frame.no_duplicates(),
    ensures
        after_events(before, events, emulation, window).current_frame.no_duplicates(),
        after_events(before, events, emulation, window).next_frame.no_duplicates(),
    decreases events.len(),
{
    if events.len() > 0 {
        lemma_frames_stay_distinct(before, events.drop_last(), emulation, window);
        let middle = after_events(before, events.drop_last(), emulation, window);
        match translated(events.last(), window) {
            None => {},
            Some((bevy_key, key_modifiers, is_repeated)) => {
                lemma_entered(middle.next_frame, bevy_key);
                lemma_entered(entered(middle.next_frame, bevy_key), bevy_key);
                if middle.current_frame.contains(bevy_key) {
                    lemma_remove_value(middle.current_frame, bevy_key);
                }
            },
        }
    }
}

/// An update keeps the state well formed: no key is in a frame twice.
pub proof fn lemma_update_keeps_frames_distinct(
    model: KeyboardModel,
    release_key: ReleaseKey,
    delta: u64,
    events: Seq<KeyEvent>,
    emulation: Capability,
    window: u64,
)
    requires
        model.wf(),
    ensures
        model.updated(release_key, delta, events, emulation, window).wf(),
{
    let start = Reconciled {
        modifiers: model.modifiers,
        current_frame: model.current_frame,
        next_frame: model.next_frame,
        sent: Seq::empty(),
    };
    lemma_frames_stay_distinct(start, events, emulation, window);
}

/// The strategy handed to an update is the one in force afterwards: whatever
/// count or timer the state held before, the update leaves one of this
/// strategy, and where the update was not idle, one that is armed again for
/// the strategy's full wait.
pub proof fn lemma_update_arms_for_the_strategy(
    model: KeyboardModel,
    release_key: ReleaseKey,
    delta: u64,
    events: Seq<KeyEvent>,
    emulation: Capability,
    window: u64,
)
    ensures
        release_key.fits(
            model.updated(release_key, delta, events, emulation, window).release_key_state,
        ),
        !model.is_idle(release_key, delta, events) ==> model.updated(
            release_key,
            delta,
            events,
            emulation,
            window,
        ).release_key_state == release_key.rearmed(model.release_key_state),
{
}

} // verus!
