//! Every press is answered by exactly one release.
//!
//! Where key releases are emulated and the terminal reports presses only, no
//! key more than once in an update, the presses and releases sent for a key
//! stay in balance with the frame of held keys: a key has one press more
//! than releases while it is held, and as many of the one as of the other
//! once it is not, and its presses and releases take turns. This is said of
//! every key whose events cannot be taken for the events made up for the
//! modifiers: of every key but the modifier keys, and of those too where
//! modifier keys are not emulated.

use vstd::prelude::*;

use crate::capability::Capability;
use crate::sequences::{
    lemma_entered, lemma_occurrences_add, lemma_occurrences_distinct, lemma_occurrences_none,
    lemma_occurrences_prefix, lemma_occurrences_push, lemma_occurrences_reciprocals,
    lemma_remove_value, occurrences, one_if, only_pressed,
};
use crate::emulation::{
    after_event, after_events, entered, modifier_changes, modifier_releases, reciprocals,
    KeyboardModel, Reconciled,
};
use crate::keys::{ButtonState, KeyEvent, KeyEventKind, KeyboardInput};
use crate::laws::{
    is_translation_of, lemma_modifier_changes_are_modifier_keys,
    lemma_modifier_releases_are_modifier_keys,
};
use crate::modifiers::MODIFIER_COUNT;
use crate::release::ReleaseKey;
use crate::translate::{is_modifier_key, translated};

verus! {

/// The terminal reported presses only.
pub open spec fn presses_only(events: Seq<KeyEvent>) -> bool {
    forall|i: int| 0 <= i < events.len() ==> (#[trigger] events[i]).kind == KeyEventKind::Press
}

/// No two of the events translate to the same key event.
pub open spec fn no_key_twice(events: Seq<KeyEvent>, window: u64) -> bool {
    forall|i: int, j: int|
        0 <= i < j < events.len() && translated(#[trigger] events[i], window).is_some()
            && translated(#[trigger] events[j], window).is_some() ==> translated(
            events[i],
            window,
        ).unwrap().0 != translated(events[j], window).unwrap().0
}

/// The events made up for the modifiers cannot be taken for events of this
/// key: the key is not a modifier key, or modifier keys are not emulated.
pub open spec fn apart_from_modifiers(key: KeyboardInput, emulation: Capability) -> bool {
    !is_modifier_key(key.logical_key) || !emulation.has_modifier()
}

/// Both frames hold distinct presses and nothing else.
pub open spec fn frames_of_presses(current_frame: Seq<KeyboardInput>, next_frame: Seq<KeyboardInput>) -> bool {
    current_frame.no_duplicates() && only_pressed(current_frame) && next_frame.no_duplicates()
        && only_pressed(next_frame)
}

/// What one of the events translates to is what an earlier event or the
/// last one translates to.
proof fn lemma_translation_of_last(key: KeyboardInput, events: Seq<KeyEvent>, window: u64)
    requires
        events.len() > 0,
    ensures
        is_translation_of(key, events, window) == (is_translation_of(
            key,
            events.drop_last(),
            window,
        ) || (translated(events.last(), window).is_some() && translated(
            events.last(),
            window,
        ).unwrap().0 == key)),
{
    let earlier = events.drop_last();
    if is_translation_of(key, earlier, window) {
        let i = choose|i: int|
            0 <= i < earlier.len() && translated(#[trigger] earlier[i], window).is_some()
                && translated(earlier[i], window).unwrap().0 == key;
        assert(events[i] == earlier[i]);
    }
    if translated(events.last(), window).is_some() && translated(
        events.last(),
        window,
    ).unwrap().0 == key {
        assert(events[events.len() - 1] == events.last());
    }
    if is_translation_of(key, events, window) {
        let i = choose|i: int|
            0 <= i < events.len() && translated(#[trigger] events[i], window).is_some()
                && translated(events[i], window).unwrap().0 == key;
        if i < earlier.len() {
            assert(earlier[i] == events[i]);
        }
    }
}

/// Working through presses, no key twice, where key releases are emulated:
/// the keys pressed are taken out of the current frame and entered into the
/// next, and a press is sent for each of them that was not in the current
/// frame, and for no other key.
pub proof fn lemma_presses_worked_through(
    start: Reconciled,
    events: Seq<KeyEvent>,
    emulation: Capability,
    window: u64,
)
    requires
        emulation.has_key_release(),
        presses_only(events),
        no_key_twice(events, window),
        frames_of_presses(start.current_frame, start.next_frame),
    ensures
        frames_of_presses(
            after_events(start, events, emulation, window).current_frame,
            after_events(start, events, emulation, window).next_frame,
        ),
        forall|key: KeyboardInput| #[trigger]
            after_events(start, events, emulation, window).next_frame.contains(key) == (
            start.next_frame.contains(key) || is_translation_of(key, events, window)),
        forall|key: KeyboardInput| #[trigger]
            after_events(start, events, emulation, window).current_frame.contains(key) == (
            start.current_frame.contains(key) && !is_translation_of(key, events, window)),
        forall|key: KeyboardInput|
            apart_from_modifiers(key, emulation) ==> #[trigger] occurrences(
                after_events(start, events, emulation, window).sent,
                key,
            ) == occurrences(start.sent, key) + if is_translation_of(key, events, window)
                && !start.current_frame.contains(key) {
                1nat
            } else {
                0nat
            },
    decreases events.len(),
{
    if events.len() > 0 {
        let earlier = events.drop_last();
        let event = events.last();
        assert(presses_only(earlier)) by {
            assert forall|i: int| 0 <= i < earlier.len() implies (#[trigger] earlier[i]).kind
                == KeyEventKind::Press by {
                assert(earlier[i] == events[i]);
            }
        }
        assert(no_key_twice(earlier, window)) by {
            assert forall|i: int, j: int|
                0 <= i < j < earlier.len() && translated(#[trigger] earlier[i], window).is_some()
                    && translated(#[trigger] earlier[j], window).is_some() implies translated(
                earlier[i],
                window,
            ).unwrap().0 != translated(earlier[j], window).unwrap().0 by {
                assert(earlier[i] == events[i]);
                assert(earlier[j] == events[j]);
            }
        }
        lemma_presses_worked_through(start, earlier, emulation, window);
        let mid = after_events(start, earlier, emulation, window);
        let end = after_event(mid, event, emulation, window);
        assert(end == after_events(start, events, emulation, window));
        assert forall|key: KeyboardInput|
            is_translation_of(key, events, window) == (#[trigger] is_translation_of(
                key,
                earlier,
                window,
            ) || (translated(event, window).is_some() && translated(event, window).unwrap().0
                == key)) by {
            lemma_translation_of_last(key, events, window);
        }
        match translated(event, window) {
            None => {},
            Some((pressed, key_modifiers, is_repeated)) => {
                assert(events[events.len() - 1] == event);
                assert(event.kind == KeyEventKind::Press);
                assert(!is_repeated);
                assert(pressed.state == ButtonState::Pressed);
                if is_translation_of(pressed, earlier, window) {
                    let i = choose|i: int|
                        0 <= i < earlier.len() && translated(#[trigger] earlier[i], window).is_some()
                            && translated(earlier[i], window).unwrap().0 == pressed;
                    assert(events[i] == earlier[i]);
                    assert(false);
                }
                let changes = modifier_changes(
                    key_modifiers,
                    mid.modifiers,
                    window,
                    MODIFIER_COUNT as int,
                );
                lemma_modifier_changes_are_modifier_keys(
                    key_modifiers,
                    mid.modifiers,
                    window,
                    MODIFIER_COUNT as int,
                );
                let changed = emulation.has_modifier() && key_modifiers != mid.modifiers;
                let sent = if changed {
                    mid.sent + changes
                } else {
                    mid.sent
                };
                assert forall|key: KeyboardInput| apart_from_modifiers(key, emulation) implies occurrences(
                    sent,
                    key,
                ) == occurrences(mid.sent, key) by {
                    if changed {
                        lemma_occurrences_add(mid.sent, changes, key);
                        lemma_occurrences_none(changes, key);
                        if changes.contains(key) {
                            let i = choose|i: int| 0 <= i < changes.len() && changes[i] == key;
                            assert(is_modifier_key(changes[i].logical_key));
                        }
                    }
                }
                lemma_entered(mid.next_frame, pressed);
                if mid.current_frame.contains(pressed) {
                    lemma_remove_value(mid.current_frame, pressed);
                    assert(end.sent == sent);
                } else {
                    assert(end.sent == sent.push(pressed));
                    assert forall|key: KeyboardInput| apart_from_modifiers(key, emulation) implies occurrences(
                        end.sent,
                        key,
                    ) == occurrences(mid.sent, key) + if pressed == key {
                        1nat
                    } else {
                        0nat
                    } by {
                        lemma_occurrences_push(sent, pressed, key);
                    }
                }
            },
        }
    }
}

/// One update where key releases are emulated and the terminal reported
/// presses only, no key twice. For a key apart from the modifiers:
/// - its press is sent once if the key is pressed in this update and was not
///   held, and not at all otherwise;
/// - its release is sent once if the key was held, is not pressed in this
///   update, and the update is not idle, and not at all otherwise;
/// - afterwards the key is held if it was pressed in this update, or if it
///   was held and the update is idle.
/// So the presses and releases sent differ by as much as the held keys do.
pub proof fn lemma_update_keeps_balance(
    model: KeyboardModel,
    release_key: ReleaseKey,
    delta: u64,
    events: Seq<KeyEvent>,
    emulation: Capability,
    window: u64,
    key: KeyboardInput,
)
    requires
        emulation.has_key_release(),
        presses_only(events),
        no_key_twice(events, window),
        frames_of_presses(model.current_frame, model.next_frame),
        model.next_frame.len() == 0,
        key.state == ButtonState::Pressed,
        apart_from_modifiers(key, emulation),
    ensures
        frames_of_presses(
            model.updated(release_key, delta, events, emulation, window).current_frame,
            model.updated(release_key, delta, events, emulation, window).next_frame,
        ),
        model.updated(release_key, delta, events, emulation, window).next_frame.len() == 0,
        occurrences(model.sent(release_key, delta, events, emulation, window), key) == one_if(
            is_translation_of(key, events, window) && !model.current_frame.contains(key),
        ),
        occurrences(
            model.sent(release_key, delta, events, emulation, window),
            key.spec_reciprocal(),
        ) == one_if(
            model.current_frame.contains(key) && !is_translation_of(key, events, window)
                && !model.is_idle(release_key, delta, events),
        ),
        model.updated(release_key, delta, events, emulation, window).current_frame.contains(key)
            == (is_translation_of(key, events, window) || (model.current_frame.contains(key)
            && model.is_idle(release_key, delta, events))),
        occurrences(model.sent(release_key, delta, events, emulation, window), key) + one_if(
            model.current_frame.contains(key),
        ) == occurrences(
            model.sent(release_key, delta, events, emulation, window),
            key.spec_reciprocal(),
        ) + one_if(
            model.updated(release_key, delta, events, emulation, window).current_frame.contains(
                key,
            ),
        ),
{
    let released = key.spec_reciprocal();
    if model.is_idle(release_key, delta, events) {
        assert(!is_translation_of(key, events, window));
    } else {
        let start = Reconciled {
            modifiers: model.modifiers,
            current_frame: model.current_frame,
            next_frame: model.next_frame,
            sent: Seq::empty(),
        };
        let worked = after_events(start, events, emulation, window);
        lemma_presses_worked_through(start, events, emulation, window);
        let left = reciprocals(worked.current_frame);
        let keys = worked.sent + left;
        let let_go = modifier_releases(worked.modifiers, window, MODIFIER_COUNT as int);
        let sent = model.sent(release_key, delta, events, emulation, window);
        assert(apart_from_modifiers(released, emulation));
        if sent != keys {
            // Nothing made up for the modifiers is about this key.
            assert(sent == keys + let_go);
            lemma_modifier_releases_are_modifier_keys(
                worked.modifiers,
                window,
                MODIFIER_COUNT as int,
            );
            lemma_occurrences_none(let_go, key);
            lemma_occurrences_none(let_go, released);
            if let_go.contains(key) {
                let i = choose|i: int| 0 <= i < let_go.len() && let_go[i] == key;
                assert(is_modifier_key(let_go[i].logical_key));
            }
            if let_go.contains(released) {
                let i = choose|i: int| 0 <= i < let_go.len() && let_go[i] == released;
                assert(is_modifier_key(let_go[i].logical_key));
            }
            lemma_occurrences_add(keys, let_go, key);
            lemma_occurrences_add(keys, let_go, released);
        }
        lemma_occurrences_add(worked.sent, left, key);
        lemma_occurrences_add(worked.sent, left, released);
        // The keys left in the current frame are presses, so their
        // reciprocals are releases.
        lemma_occurrences_reciprocals(worked.current_frame, key);
        lemma_occurrences_reciprocals(worked.current_frame, released);
        assert(released.spec_reciprocal() == key);
        lemma_occurrences_distinct(worked.current_frame, key);
        lemma_occurrences_none(worked.current_frame, released);
        if worked.current_frame.contains(released) {
            let i = choose|i: int|
                0 <= i < worked.current_frame.len() && worked.current_frame[i] == released;
            assert(worked.current_frame[i].state == ButtonState::Pressed);
        }
        // No release is the translation of a press.
        lemma_occurrences_none(Seq::<KeyboardInput>::empty(), key);
        lemma_occurrences_none(Seq::<KeyboardInput>::empty(), released);
        if is_translation_of(released, events, window) {
            let i = choose|i: int|
                0 <= i < events.len() && translated(#[trigger] events[i], window).is_some()
                    && translated(events[i], window).unwrap().0 == released;
            assert(events[i].kind == KeyEventKind::Press);
        }
        if model.current_frame.contains(released) {
            let i = choose|i: int|
                0 <= i < model.current_frame.len() && model.current_frame[i] == released;
            assert(model.current_frame[i].state == ButtonState::Pressed);
        }
        assert(worked.next_frame.contains(key) == is_translation_of(key, events, window));
    }
}

/// What one update is given.
pub struct Frame {
    pub release_key: ReleaseKey,
    pub delta: u64,
    pub events: Seq<KeyEvent>,
    pub emulation: Capability,
    pub window: u64,
}

/// The state after a run of updates.
pub open spec fn state_after(start: KeyboardModel, frames: Seq<Frame>) -> KeyboardModel
    decreases frames.len(),
{
    if frames.len() == 0 {
        start
    } else {
        let last = frames.last();
        state_after(start, frames.drop_last()).updated(
            last.release_key,
            last.delta,
            last.events,
            last.emulation,
            last.window,
        )
    }
}

/// Everything that a run of updates sends, in order.
pub open spec fn sent_during(start: KeyboardModel, frames: Seq<Frame>) -> Seq<KeyboardInput>
    decreases frames.len(),
{
    if frames.len() == 0 {
        Seq::empty()
    } else {
        let last = frames.last();
        sent_during(start, frames.drop_last()) + state_after(start, frames.drop_last()).sent(
            last.release_key,
            last.delta,
            last.events,
            last.emulation,
            last.window,
        )
    }
}

/// Throughout the run key releases are emulated and the terminal reports
/// presses only, no key twice in an update.
pub open spec fn presses_throughout(frames: Seq<Frame>) -> bool {
    forall|i: int|
        0 <= i < frames.len() ==> (#[trigger] frames[i]).emulation.has_key_release()
            && presses_only(frames[i].events) && no_key_twice(frames[i].events, frames[i].window)
}

/// In no update of the run can the events made up for the modifiers be taken
/// for events of this key.
pub open spec fn apart_from_modifiers_throughout(key: KeyboardInput, frames: Seq<Frame>) -> bool {
    forall|i: int| 0 <= i < frames.len() ==> apart_from_modifiers(key, (#[trigger] frames[i]).emulation)
}

/// Over any such run of updates, the presses sent for a key exceed the releases
/// sent for it by one while the key is held at the end, and equal them when
/// it is not: whatever was held at the start counted in.
pub proof fn lemma_run_keeps_balance(start: KeyboardModel, frames: Seq<Frame>, key: KeyboardInput)
    requires
        presses_throughout(frames),
        frames_of_presses(start.current_frame, start.next_frame),
        start.next_frame.len() == 0,
        key.state == ButtonState::Pressed,
        apart_from_modifiers_throughout(key, frames),
    ensures
        frames_of_presses(
            state_after(start, frames).current_frame,
            state_after(start, frames).next_frame,
        ),
        state_after(start, frames).next_frame.len() == 0,
        occurrences(sent_during(start, frames), key) + one_if(start.current_frame.contains(key))
            == occurrences(sent_during(start, frames), key.spec_reciprocal()) + one_if(
            state_after(start, frames).current_frame.contains(key),
        ),
    decreases frames.len(),
{
    if frames.len() > 0 {
        let earlier = frames.drop_last();
        let last = frames.last();
        assert(presses_throughout(earlier)) by {
            assert forall|i: int| 0 <= i < earlier.len() implies (#[trigger] earlier[i]).emulation.has_key_release()
                && presses_only(earlier[i].events) && no_key_twice(
                earlier[i].events,
                earlier[i].window,
            ) by {
                assert(earlier[i] == frames[i]);
            }
        }
        assert(frames[frames.len() - 1] == last);
        assert(apart_from_modifiers_throughout(key, earlier)) by {
            assert forall|i: int| 0 <= i < earlier.len() implies apart_from_modifiers(
                key,
                (#[trigger] earlier[i]).emulation,
            ) by {
                assert(earlier[i] == frames[i]);
            }
        }
        lemma_run_keeps_balance(start, earlier, key);
        let middle = state_after(start, earlier);
        lemma_update_keeps_balance(
            middle,
            last.release_key,
            last.delta,
            last.events,
            last.emulation,
            last.window,
            key,
        );
        let sent = middle.sent(last.release_key, last.delta, last.events, last.emulation, last.window);
        lemma_occurrences_add(sent_during(start, earlier), sent, key);
        lemma_occurrences_add(sent_during(start, earlier), sent, key.spec_reciprocal());
    }
}

/// Every press is answered exactly once. In a run of updates from the
/// start, where key releases are emulated throughout and the terminal
/// reports presses only, no key twice in an update: a key that is not held
/// when the run ends has been released exactly as often as it has been
/// pressed, and a key that is still held has been released exactly once
/// less.
pub proof fn lemma_every_press_released_once(frames: Seq<Frame>, key: KeyboardInput)
    requires
        presses_throughout(frames),
        key.state == ButtonState::Pressed,
        apart_from_modifiers_throughout(key, frames),
    ensures
        occurrences(sent_during(KeyboardModel::initial(), frames), key) == occurrences(
            sent_during(KeyboardModel::initial(), frames),
            key.spec_reciprocal(),
        ) + one_if(state_after(KeyboardModel::initial(), frames).current_frame.contains(key)),
{
    lemma_run_keeps_balance(KeyboardModel::initial(), frames, key);
}

/// A quiet update at the end settles every account. If the last update of
/// such a run sees no event and finds the wait for the release over, no key
/// is held any more and every key has been released exactly as often as it
/// has been pressed.
pub proof fn lemma_all_released_after_quiet_update(frames: Seq<Frame>, key: KeyboardInput)
    requires
        presses_throughout(frames),
        key.state == ButtonState::Pressed,
        apart_from_modifiers_throughout(key, frames),
        frames.len() > 0,
        frames.last().events.len() == 0,
        frames.last().release_key.spec_finished(
            frames.last().release_key.ticked(
                state_after(KeyboardModel::initial(), frames.drop_last()).release_key_state,
                frames.last().delta,
            ),
        ),
    ensures
        !state_after(KeyboardModel::initial(), frames).current_frame.contains(key),
        occurrences(sent_during(KeyboardModel::initial(), frames), key) == occurrences(
            sent_during(KeyboardModel::initial(), frames),
            key.spec_reciprocal(),
        ),
{
    let earlier = frames.drop_last();
    let last = frames.last();
    assert(presses_throughout(earlier)) by {
        assert forall|i: int| 0 <= i < earlier.len() implies (#[trigger] earlier[i]).emulation.has_key_release()
            && presses_only(earlier[i].events) && no_key_twice(
            earlier[i].events,
            earlier[i].window,
        ) by {
            assert(earlier[i] == frames[i]);
        }
    }
    assert(frames[frames.len() - 1] == last);
    assert(apart_from_modifiers_throughout(key, earlier)) by {
        assert forall|i: int| 0 <= i < earlier.len() implies apart_from_modifiers(
            key,
            (#[trigger] earlier[i]).emulation,
        ) by {
            assert(earlier[i] == frames[i]);
        }
    }
    lemma_run_keeps_balance(KeyboardModel::initial(), earlier, key);
    lemma_update_keeps_balance(
        state_after(KeyboardModel::initial(), earlier),
        last.release_key,
        last.delta,
        last.events,
        last.emulation,
        last.window,
        key,
    );
    lemma_every_press_released_once(frames, key);
}

/// The presses and releases of a key are in step in a sequence of events
/// that began while the key was held or not: counting a press for a key held
/// at the beginning, there is never a release more than presses, and never
/// more than one press unanswered.
pub open spec fn in_step(sent: Seq<KeyboardInput>, key: KeyboardInput, held_before: bool) -> bool {
    occurrences(sent, key.spec_reciprocal()) <= occurrences(sent, key) + one_if(held_before)
        <= occurrences(sent, key.spec_reciprocal()) + 1
}

/// The presses and releases of a key take turns, the press first: they are
/// in step in every beginning of the sequence. So the first of them is a
/// press, a release follows every press before the next press, and no
/// release comes without the press that it answers.
pub open spec fn takes_turns(sent: Seq<KeyboardInput>, key: KeyboardInput) -> bool {
    forall|upto: int| 0 <= upto <= sent.len() ==> in_step(#[trigger] sent.take(upto), key, false)
}

/// Over any such run of updates, the presses and releases sent for a key are
/// in step at every point of the run, not only between updates: whatever
/// beginning of the output is taken, no release is ahead of its press and at
/// most one press is unanswered.
pub proof fn lemma_run_stays_in_step(start: KeyboardModel, frames: Seq<Frame>, key: KeyboardInput)
    requires
        presses_throughout(frames),
        frames_of_presses(start.current_frame, start.next_frame),
        start.next_frame.len() == 0,
        key.state == ButtonState::Pressed,
        apart_from_modifiers_throughout(key, frames),
    ensures
        forall|upto: int|
            0 <= upto <= sent_during(start, frames).len() ==> in_step(
                #[trigger] sent_during(start, frames).take(upto),
                key,
                start.current_frame.contains(key),
            ),
    decreases frames.len(),
{
    let held_before = start.current_frame.contains(key);
    let released = key.spec_reciprocal();
    if frames.len() == 0 {
        assert forall|upto: int| 0 <= upto <= sent_during(start, frames).len() implies in_step(
            #[trigger] sent_during(start, frames).take(upto),
            key,
            held_before,
        ) by {
            assert(sent_during(start, frames).take(upto) =~= Seq::<KeyboardInput>::empty());
        }
    } else {
        let earlier = frames.drop_last();
        let last = frames.last();
        assert(presses_throughout(earlier)) by {
            assert forall|i: int| 0 <= i < earlier.len() implies (#[trigger] earlier[i]).emulation.has_key_release()
                && presses_only(earlier[i].events) && no_key_twice(
                earlier[i].events,
                earlier[i].window,
            ) by {
                assert(earlier[i] == frames[i]);
            }
        }
        assert(apart_from_modifiers_throughout(key, earlier)) by {
            assert forall|i: int| 0 <= i < earlier.len() implies apart_from_modifiers(
                key,
                (#[trigger] earlier[i]).emulation,
            ) by {
                assert(earlier[i] == frames[i]);
            }
        }
        assert(frames[frames.len() - 1] == last);
        lemma_run_stays_in_step(start, earlier, key);
        lemma_run_keeps_balance(start, earlier, key);
        let middle = state_after(start, earlier);
        lemma_update_keeps_balance(
            middle,
            last.release_key,
            last.delta,
            last.events,
            last.emulation,
            last.window,
            key,
        );
        let before = sent_during(start, earlier);
        let now = middle.sent(last.release_key, last.delta, last.events, last.emulation, last.window);
        assert(sent_during(start, frames) == before + now);
        assert forall|upto: int| 0 <= upto <= (before + now).len() implies in_step(
            #[trigger] (before + now).take(upto),
            key,
            held_before,
        ) by {
            if upto <= before.len() {
                assert((before + now).take(upto) =~= before.take(upto));
            } else {
                let more = upto - before.len();
                assert((before + now).take(upto) =~= before + now.take(more));
                lemma_occurrences_add(before, now.take(more), key);
                lemma_occurrences_add(before, now.take(more), released);
                lemma_occurrences_prefix(now, more, key);
                lemma_occurrences_prefix(now, more, released);
            }
        }
    }
}

/// Every press is answered exactly once, and in turn. In a run of updates
/// from the start, where key releases are emulated throughout and the
/// terminal reports presses only, no key twice in an update, the presses and
/// releases sent for a key take turns, the press first: never two presses
/// without a release between them, never a release without its press.
pub proof fn lemma_presses_and_releases_take_turns(frames: Seq<Frame>, key: KeyboardInput)
    requires
        presses_throughout(frames),
        key.state == ButtonState::Pressed,
        apart_from_modifiers_throughout(key, frames),
    ensures
        takes_turns(sent_during(KeyboardModel::initial(), frames), key),
{
    lemma_run_stays_in_step(KeyboardModel::initial(), frames, key);
}

} // verus!
