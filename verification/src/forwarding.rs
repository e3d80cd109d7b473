//! Key forwarding as a whole: one value that holds the configuration and the
//! state, and one update per frame.

use vstd::prelude::*;

use crate::capability::{
    lemma_effective_avoids_detected, Capability, DetectedCapabilities, EmulationPolicy,
};
use crate::laws::{
    is_translation_of, lemma_detected_stays_unemulated, lemma_no_release_made_up,
};
use crate::detection::{check_for_emulation, detect_capabilities, shown_by};
use crate::emulation::{
    after_event, after_events, send_key_events_with_emulation, KeyboardModel, KeyboardState,
    Reconciled,
};
use crate::keys::{ButtonState, KeyEvent, KeyEventKind, KeyboardInput, TerminalKeyCode};
use crate::modifiers::CONTROL_BITS;
use crate::release::ReleaseKey;
use crate::sequences::{only_pressed, only_released};
use crate::translate::{is_modifier_key, key_event_to_bevy, translated};

verus! {

/// The events that a sequence of terminal key events translates to, in
/// order; events that cannot be translated are left out.
pub open spec fn passed_on(events: Seq<KeyEvent>, window: u64) -> Seq<KeyboardInput>
    decreases events.len(),
{
    if events.len() == 0 {
        Seq::empty()
    } else {
        let before = passed_on(events.drop_last(), window);
        match translated(events.last(), window) {
            Some((bevy_event, _, _)) => before.push(bevy_event),
            None => before,
        }
    }
}

/// The presses that a sequence of terminal key events leaves owing: one for
/// each repeat, in order.
pub open spec fn presses_owed(events: Seq<KeyEvent>, window: u64) -> Seq<KeyboardInput>
    decreases events.len(),
{
    if events.len() == 0 {
        Seq::empty()
    } else {
        let before = presses_owed(events.drop_last(), window);
        match translated(events.last(), window) {
            Some((bevy_event, _, repeated)) => if repeated {
                before.push(KeyboardInput { state: ButtonState::Pressed, ..bevy_event })
            } else {
                before
            },
            None => before,
        }
    }
}

/// One update without emulation, for a terminal that reports releases and
/// modifier keys itself: the presses owed from the last update are sent
/// first, then every event is translated and sent as it is. A repeat, which
/// is sent as a release, leaves a press owing for the next update.
pub fn send_key_events_no_emulation(
    keys: &Vec<KeyEvent>,
    window: u64,
    key_repeat_queue: &mut Vec<KeyboardInput>,
) -> (keyboard_input: Vec<KeyboardInput>)
    ensures
        keyboard_input@ == old(key_repeat_queue)@ + passed_on(keys@, window),
        final(key_repeat_queue)@ == presses_owed(keys@, window),
{
    let mut keyboard_input: Vec<KeyboardInput> = Vec::new();
    let mut j: usize = 0;
    while j < key_repeat_queue.len()
        invariant
            j <= key_repeat_queue@.len(),
            keyboard_input@ == key_repeat_queue@.take(j as int),
        decreases key_repeat_queue@.len() - j,
    {
        keyboard_input.push(key_repeat_queue[j]);
        proof {
            assert(key_repeat_queue@.take(j + 1) =~= key_repeat_queue@.take(j as int).push(
                key_repeat_queue@[j as int],
            ));
        }
        j += 1;
    }
    proof {
        assert(key_repeat_queue@.take(key_repeat_queue@.len() as int) =~= key_repeat_queue@);
    }
    key_repeat_queue.clear();
    let mut i: usize = 0;
    while i < keys.len()
        invariant
            i <= keys@.len(),
            keyboard_input@ == old(key_repeat_queue)@ + passed_on(keys@.take(i as int), window),
            key_repeat_queue@ == presses_owed(keys@.take(i as int), window),
        decreases keys@.len() - i,
    {
        proof {
            assert(keys@.take(i + 1).drop_last() =~= keys@.take(i as int));
            assert(keys@.take(i + 1).last() == keys@[i as int]);
        }
        match key_event_to_bevy(&keys[i], window) {
            Some((bevy_event, _modifiers, repeated)) => {
                if repeated {
                    key_repeat_queue.push(KeyboardInput { state: ButtonState::Pressed, ..bevy_event });
                }
                keyboard_input.push(bevy_event);
            },
            None => {},
        }
        i += 1;
    }
    proof {
        assert(keys@.take(keys@.len() as int) =~= keys@);
    }
    keyboard_input
}

/// Whether a key event is the request to interrupt the program: the press of
/// `c` with control, and nothing but control, held.
pub fn is_interrupt(event: &KeyEvent) -> (r: bool)
    ensures
        r == (event.kind == KeyEventKind::Press && event.modifiers.bits == CONTROL_BITS
            && event.code == TerminalKeyCode::Char('c')),
{
    event.kind == KeyEventKind::Press && event.modifiers.bits() == CONTROL_BITS && event.code
        == TerminalKeyCode::Char('c')
}

/// Key forwarding as a whole: the configuration, what has been detected of
/// the terminal, and the state that the emulation keeps between updates.
#[derive(Debug)]
pub struct Keyboard {
    /// What to emulate.
    pub policy: EmulationPolicy,
    /// When to release a key that the terminal stopped mentioning.
    pub release_key: ReleaseKey,
    /// What the terminal has been seen to report itself.
    pub detected: DetectedCapabilities,
    /// Whether emulation is still in question. It is set when the policy
    /// changes and cleared by the first update that finds nothing left to
    /// emulate; from then on events are passed on as they are.
    pub emulate: bool,
    /// The state of the emulation.
    pub state: KeyboardState,
    /// The presses owed for repeats while events are passed on as they are.
    pub key_repeat_queue: Vec<KeyboardInput>,
    /// The window that the emitted events are addressed to.
    pub window: u64,
}

impl Keyboard {
    /// The validity of the value: no key is in a frame of held keys twice.
    pub open spec fn wf(&self) -> bool {
        self.state@.wf()
    }

    /// What is detected after an update that sees `events`. Detection goes on
    /// only while emulation is in question.
    pub open spec fn detected_after(&self, events: Seq<KeyEvent>) -> DetectedCapabilities {
        if self.emulate {
            DetectedCapabilities(Capability { bits: self.detected.0.bits | shown_by(events) })
        } else {
            self.detected
        }
    }

    /// Whether an update that sees `events` emulates: emulation was in
    /// question, and after looking at the events something is left to
    /// emulate.
    pub open spec fn emulates(&self, events: Seq<KeyEvent>) -> bool {
        self.emulate && self.policy.effective(self.detected_after(events)).bits != 0
    }

    /// The events that an update hands on when it sees `events` after
    /// `delta` nanoseconds: what the emulation sends, where the update
    /// emulates; else the presses owed from the last update and then the
    /// events passed on as they are.
    pub open spec fn sent_by_update(&self, events: Seq<KeyEvent>, delta: u64) -> Seq<KeyboardInput> {
        if self.emulates(events) {
            self.state@.sent(
                self.release_key,
                delta,
                events,
                self.policy.effective(self.detected_after(events)),
                self.window,
            )
        } else {
            self.key_repeat_queue@ + passed_on(events, self.window)
        }
    }

    /// Key forwarding at the start: nothing detected, nothing held, emulation
    /// in question.
    pub fn new(policy: EmulationPolicy, release_key: ReleaseKey, window: u64) -> (r: Keyboard)
        ensures
            r.wf(),
            r.policy == policy,
            r.release_key == release_key,
            r.window == window,
            r.detected.0.bits == 0,
            r.emulate,
            r.key_repeat_queue@ == Seq::<KeyboardInput>::empty(),
            r.state@ == KeyboardModel::initial(),
    {
        Keyboard {
            policy,
            release_key,
            detected: DetectedCapabilities::new(),
            emulate: true,
            state: KeyboardState::new(),
            key_repeat_queue: Vec::new(),
            window,
        }
    }

    /// What the terminal has been seen to report itself.
    pub fn detected(&self) -> (r: DetectedCapabilities)
        ensures
            r == self.detected,
    {
        self.detected
    }

    /// The capabilities that are emulated as things stand.
    pub fn emulated(&self) -> (r: Capability)
        ensures
            r == self.policy.effective(self.detected),
    {
        self.policy.emulate_capabilities(&self.detected)
    }

    /// Puts emulation in question again, so that the next update looks anew
    /// at whether anything is to be emulated.
    pub fn reset_emulation_check(&mut self)
        ensures
            final(self).emulate,
            final(self).policy == old(self).policy,
            final(self).release_key == old(self).release_key,
            final(self).detected == old(self).detected,
            final(self).state == old(self).state,
            final(self).key_repeat_queue == old(self).key_repeat_queue,
            final(self).window == old(self).window,
    {
        self.emulate = true;
    }

    /// Sets the policy. A policy that differs from the one in force clears
    /// what was detected and puts emulation in question again, since the new
    /// policy may ask for what was of no interest before. The same policy
    /// again changes nothing.
    pub fn set_policy(&mut self, policy: EmulationPolicy)
        ensures
            final(self).policy == policy,
            final(self).release_key == old(self).release_key,
            final(self).state == old(self).state,
            final(self).key_repeat_queue == old(self).key_repeat_queue,
            final(self).window == old(self).window,
            policy == old(self).policy ==> final(self).detected == old(self).detected,
            policy == old(self).policy ==> final(self).emulate == old(self).emulate,
            policy != old(self).policy ==> final(self).detected.0.bits == 0,
            policy != old(self).policy ==> final(self).emulate,
    {
        if policy != self.policy {
            self.policy = policy;
            self.detected = DetectedCapabilities::new();
            self.reset_emulation_check();
        }
    }

    /// Sets the release strategy. It is in force from the next update on: a
    /// running count or timer that is not one of the new strategy, a timer
    /// of another duration among them, is armed afresh by that update, and
    /// every reset arms for the strategy then in force.
    pub fn set_release_key(&mut self, release_key: ReleaseKey)
        ensures
            final(self).release_key == release_key,
            final(self).policy == old(self).policy,
            final(self).detected == old(self).detected,
            final(self).emulate == old(self).emulate,
            final(self).state == old(self).state,
            final(self).key_repeat_queue == old(self).key_repeat_queue,
            final(self).window == old(self).window,
    {
        self.release_key = release_key;
    }

    /// One update: takes the key events that the terminal reported since the
    /// last update and the nanoseconds that went by, and returns the key
    /// events to hand on.
    ///
    /// While emulation is in question, the events are first searched for
    /// proof of what the terminal reports itself. If nothing is left to
    /// emulate, emulation is out of question from then on. An update that
    /// emulates runs the emulation on the events; any other update passes the
    /// events on as they are.
    pub fn update(&mut self, keys: &Vec<KeyEvent>, delta: u64) -> (keyboard_input: Vec<KeyboardInput>)
        requires
            old(self).wf(),
        ensures
            final(self).wf(),
            final(self).policy == old(self).policy,
            final(self).release_key == old(self).release_key,
            final(self).window == old(self).window,
            final(self).detected == old(self).detected_after(keys@),
            final(self).emulate == old(self).emulates(keys@),
            keyboard_input@ == old(self).sent_by_update(keys@, delta),
            old(self).emulates(keys@) ==> {
                &&& final(self).state@ == old(self).state@.updated(
                    old(self).release_key,
                    delta,
                    keys@,
                    old(self).policy.effective(old(self).detected_after(keys@)),
                    old(self).window,
                )
                &&& final(self).key_repeat_queue@ == old(self).key_repeat_queue@
            },
            !old(self).emulates(keys@) ==> {
                &&& final(self).state@ == old(self).state@
                &&& final(self).key_repeat_queue@ == presses_owed(keys@, old(self).window)
            },
    {
        if self.emulate {
            detect_capabilities(keys, &mut self.detected);
            if !check_for_emulation(&self.detected, &self.policy) {
                self.emulate = false;
            }
        }
        if self.emulate {
            send_key_events_with_emulation(
                &mut self.state,
                keys,
                self.window,
                &self.release_key,
                delta,
                &self.detected,
                &self.policy,
            )
        } else {
            send_key_events_no_emulation(keys, self.window, &mut self.key_repeat_queue)
        }
    }
}

/// Where nothing is emulated, working through events sends exactly what
/// passing them on sends: each event that can be translated, as it is, in
/// order. The current frame is left alone.
pub proof fn lemma_nothing_emulated_passes_on(
    before: Reconciled,
    events: Seq<KeyEvent>,
    emulation: Capability,
    window: u64,
)
    requires
        !emulation.has_key_release(),
        !emulation.has_modifier(),
    ensures
        after_events(before, events, emulation, window).sent == before.sent + passed_on(
            events,
            window,
        ),
        after_events(before, events, emulation, window).current_frame == before.current_frame,
        after_events(before, events, emulation, window).modifiers == before.modifiers,
    decreases events.len(),
{
    if events.len() == 0 {
        assert(before.sent + passed_on(events, window) =~= before.sent);
    } else {
        let earlier = events.drop_last();
        lemma_nothing_emulated_passes_on(before, earlier, emulation, window);
        let middle = after_events(before, earlier, emulation, window);
        let after = after_event(middle, events.last(), emulation, window);
        assert(after.sent =~= before.sent + passed_on(events, window));
    }
}

/// Under the automatic policy, once a key release has been detected no
/// update emulates key releases any more, whatever it sees: the release
/// stays detected, and what is detected is not emulated.
pub proof fn lemma_detected_release_is_not_emulated(keyboard: Keyboard, events: Seq<KeyEvent>)
    requires
        keyboard.policy == EmulationPolicy::Automatic,
        keyboard.detected.0.has_key_release(),
    ensures
        keyboard.detected_after(events).0.has_key_release(),
        !keyboard.policy.effective(keyboard.detected_after(events)).has_key_release(),
{
    lemma_detected_stays_unemulated(keyboard.detected, events);
    lemma_effective_avoids_detected(keyboard.policy, keyboard.detected);
}

/// Whatever is passed on is the translation of one of the events. The
/// presses owed are presses.
pub proof fn lemma_passed_on_are_translations(events: Seq<KeyEvent>, window: u64)
    ensures
        forall|j: int|
            0 <= j < passed_on(events, window).len() ==> is_translation_of(
                #[trigger] passed_on(events, window)[j],
                events,
                window,
            ),
        only_pressed(presses_owed(events, window)),
    decreases events.len(),
{
    if events.len() > 0 {
        let earlier = events.drop_last();
        lemma_passed_on_are_translations(earlier, window);
        assert forall|j: int| 0 <= j < passed_on(events, window).len() implies is_translation_of(
            #[trigger] passed_on(events, window)[j],
            events,
            window,
        ) by {
            let key = passed_on(events, window)[j];
            if j < passed_on(earlier, window).len() {
                assert(key == passed_on(earlier, window)[j]);
                let i = choose|i: int|
                    0 <= i < earlier.len() && translated(#[trigger] earlier[i], window).is_some()
                        && translated(earlier[i], window).unwrap().0 == key;
                assert(events[i] == earlier[i]);
            } else {
                assert(events[events.len() - 1] == events.last());
            }
        }
    }
}

/// No double emulation. Under the automatic policy, once a key release has
/// been detected and no press is left in the frames of held keys, no update
/// makes up the release of a key: every release that it hands on for a key
/// other than a modifier key is the translation of one of the events that
/// the update itself was given.
pub proof fn lemma_no_release_made_up_once_detected(
    keyboard: Keyboard,
    events: Seq<KeyEvent>,
    delta: u64,
)
    requires
        keyboard.policy == EmulationPolicy::Automatic,
        keyboard.detected.0.has_key_release(),
        only_released(keyboard.state@.current_frame),
        only_released(keyboard.state@.next_frame),
        only_pressed(keyboard.key_repeat_queue@),
    ensures
        forall|j: int|
            0 <= j < keyboard.sent_by_update(events, delta).len() ==> {
                let key = #[trigger] keyboard.sent_by_update(events, delta)[j];
                key.state == ButtonState::Released && !is_modifier_key(key.logical_key)
                    ==> is_translation_of(key, events, keyboard.window)
            },
{
    lemma_detected_release_is_not_emulated(keyboard, events);
    if keyboard.emulates(events) {
        lemma_no_release_made_up(
            keyboard.state@,
            keyboard.release_key,
            delta,
            events,
            keyboard.policy.effective(keyboard.detected_after(events)),
            keyboard.window,
        );
    } else {
        lemma_passed_on_are_translations(events, keyboard.window);
        let owed = keyboard.key_repeat_queue@;
        let sent = keyboard.sent_by_update(events, delta);
        assert forall|j: int| 0 <= j < sent.len() implies {
            let key = #[trigger] sent[j];
            key.state == ButtonState::Released && !is_modifier_key(key.logical_key)
                ==> is_translation_of(key, events, keyboard.window)
        } by {
            if j < owed.len() {
                assert(sent[j] == owed[j]);
            } else {
                assert(sent[j] == passed_on(events, keyboard.window)[j - owed.len()]);
            }
        }
    }
}

/// An idle update hands on nothing. Where the update emulates, it is idle if
/// it sees no event and the wait for the release is not over; where it
/// passes events on, if it sees no event and no press is owed.
pub proof fn lemma_idle_update_hands_on_nothing(keyboard: Keyboard, delta: u64)
    requires
        keyboard.emulates(Seq::empty()) ==> !keyboard.release_key.spec_finished(
            keyboard.release_key.ticked(keyboard.state@.release_key_state, delta),
        ),
        !keyboard.emulates(Seq::empty()) ==> keyboard.key_repeat_queue@.len() == 0,
    ensures
        keyboard.sent_by_update(Seq::empty(), delta) == Seq::<KeyboardInput>::empty(),
{
    if !keyboard.emulates(Seq::empty()) {
        assert(keyboard.key_repeat_queue@ + passed_on(Seq::empty(), keyboard.window)
            =~= Seq::<KeyboardInput>::empty());
    }
}

} // verus!
