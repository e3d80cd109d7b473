//! Finding out what the terminal reports by itself.

use vstd::prelude::*;

use crate::capability::{
    Capability, DetectedCapabilities, EmulationPolicy, KEY_RELEASE_BITS, MODIFIER_BITS,
};
use crate::keys::{KeyEvent, KeyEventKind};
use crate::translate::is_modifier_code;

verus! {

/// Whether one of the events is the release of a key.
pub open spec fn saw_release(events: Seq<KeyEvent>) -> bool {
    exists|i: int| 0 <= i < events.len() && (#[trigger] events[i]).kind == KeyEventKind::Release
}

/// Whether one of the events is about a modifier key on its own.
pub open spec fn saw_modifier(events: Seq<KeyEvent>) -> bool {
    exists|i: int| 0 <= i < events.len() && (#[trigger] events[i]).code is Modifier
}

/// The capabilities that a sequence of events gives proof of.
pub open spec fn shown_by(events: Seq<KeyEvent>) -> u8 {
    (if saw_modifier(events) {
        MODIFIER_BITS
    } else {
        0
    }) | (if saw_release(events) {
        KEY_RELEASE_BITS
    } else {
        0
    })
}

/// Records what the events of an update show of the terminal: an event about
/// a modifier key shows that modifier keys are reported on their own, a
/// release shows that key releases are reported. What was detected before
/// stays detected.
pub fn detect_capabilities(keys: &Vec<KeyEvent>, detected: &mut DetectedCapabilities)
    ensures
        final(detected).0.bits == old(detected).0.bits | shown_by(keys@),
{
    let mut modifier_seen = false;
    let mut release_seen = false;
    let mut i: usize = 0;
    while i < keys.len()
        invariant
            i <= keys@.len(),
            modifier_seen == saw_modifier(keys@.take(i as int)),
            release_seen == saw_release(keys@.take(i as int)),
        decreases keys@.len() - i,
    {
        let ghost seen = keys@.take(i as int);
        let ghost more = keys@.take(i + 1);
        proof {
            assert(forall|j: int| 0 <= j < i ==> seen[j] == more[j]);
            assert(more[i as int] == keys@[i as int]);
            if saw_modifier(seen) {
                let j = choose|j: int| 0 <= j < seen.len() && (#[trigger] seen[j]).code is Modifier;
                assert(more[j].code is Modifier);
            }
            if saw_release(seen) {
                let j = choose|j: int|
                    0 <= j < seen.len() && (#[trigger] seen[j]).kind == KeyEventKind::Release;
                assert(more[j].kind == KeyEventKind::Release);
            }
            if saw_modifier(more) && !(keys@[i as int].code is Modifier) {
                let j = choose|j: int| 0 <= j < more.len() && (#[trigger] more[j]).code is Modifier;
                assert(seen[j].code is Modifier);
            }
            if saw_release(more) && keys@[i as int].kind != KeyEventKind::Release {
                let j = choose|j: int|
                    0 <= j < more.len() && (#[trigger] more[j]).kind == KeyEventKind::Release;
                assert(seen[j].kind == KeyEventKind::Release);
            }
        }
        if is_modifier_code(&keys[i].code) {
            modifier_seen = true;
        }
        if keys[i].kind == KeyEventKind::Release {
            release_seen = true;
        }
        i += 1;
    }
    proof {
        assert(keys@.take(keys@.len() as int) =~= keys@);
    }
    let mut shown = Capability::empty();
    if modifier_seen {
        shown = shown.union(Capability::modifier());
    }
    if release_seen {
        shown = shown.union(Capability::key_release());
    }
    proof {
        let m: u8 = if modifier_seen { MODIFIER_BITS } else { 0 };
        let r: u8 = if release_seen { KEY_RELEASE_BITS } else { 0 };
        assert(0u8 | m == m) by (bit_vector);
        assert(0u8 | r == r) by (bit_vector);
        assert(m | 0u8 == m) by (bit_vector);
    }
    detected.0 = detected.0.union(shown);
}

/// Whether anything is left to emulate under the policy, given what was
/// detected.
pub fn check_for_emulation(detected: &DetectedCapabilities, policy: &EmulationPolicy) -> (r: bool)
    ensures
        r == (policy.effective(*detected).bits != 0),
{
    !policy.emulate_capabilities(detected).is_empty()
}

} // verus!
