//! Sequences of key events: what is in them, how often, and of which kind.

use vstd::prelude::*;

use crate::emulation::{entered, reciprocals};
use crate::keys::{ButtonState, KeyboardInput};

verus! {

/// Every event of the sequence is a press.
pub open spec fn only_pressed(keys: Seq<KeyboardInput>) -> bool {
    forall|i: int| 0 <= i < keys.len() ==> (#[trigger] keys[i]).state == ButtonState::Pressed
}

/// Every event of the sequence is a release.
pub open spec fn only_released(keys: Seq<KeyboardInput>) -> bool {
    forall|i: int| 0 <= i < keys.len() ==> (#[trigger] keys[i]).state == ButtonState::Released
}

/// One, if the condition holds; else nothing.
pub open spec fn one_if(condition: bool) -> nat {
    if condition {
        1
    } else {
        0
    }
}

/// How often `key` occurs in `keys`.
pub open spec fn occurrences(keys: Seq<KeyboardInput>, key: KeyboardInput) -> nat
    decreases keys.len(),
{
    if keys.len() == 0 {
        0
    } else {
        occurrences(keys.drop_last(), key) + if keys.last() == key {
            1nat
        } else {
            0nat
        }
    }
}

/// Appending one event adds one occurrence of that event and none of any
/// other.
pub proof fn lemma_occurrences_push(keys: Seq<KeyboardInput>, last: KeyboardInput, key: KeyboardInput)
    ensures
        occurrences(keys.push(last), key) == occurrences(keys, key) + if last == key {
            1nat
        } else {
            0nat
        },
{
    assert(keys.push(last).drop_last() =~= keys);
}

/// The occurrences in a concatenation are those of its two parts.
pub proof fn lemma_occurrences_add(
    front: Seq<KeyboardInput>,
    back: Seq<KeyboardInput>,
    key: KeyboardInput,
)
    ensures
        occurrences(front + back, key) == occurrences(front, key) + occurrences(back, key),
    decreases back.len(),
{
    if back.len() == 0 {
        assert(front + back =~= front);
    } else {
        assert((front + back).drop_last() =~= front + back.drop_last());
        lemma_occurrences_add(front, back.drop_last(), key);
    }
}

/// An event that is nowhere in a sequence occurs in it zero times, and an
/// event that occurs zero times is nowhere in it.
pub proof fn lemma_occurrences_none(keys: Seq<KeyboardInput>, key: KeyboardInput)
    ensures
        (occurrences(keys, key) == 0) == !keys.contains(key),
    decreases keys.len(),
{
    if keys.len() > 0 {
        lemma_occurrences_none(keys.drop_last(), key);
        if keys.last() == key {
            assert(keys[keys.len() - 1] == key);
        } else if keys.contains(key) {
            let i = choose|i: int| 0 <= i < keys.len() && keys[i] == key;
            assert(keys.drop_last()[i] == key);
        } else if keys.drop_last().contains(key) {
            let i = choose|i: int| 0 <= i < keys.drop_last().len() && keys.drop_last()[i] == key;
            assert(keys[i] == key);
        }
    }
}

/// In a sequence of distinct events, an event occurs once if it is there
/// and not at all if it is not.
pub proof fn lemma_occurrences_distinct(keys: Seq<KeyboardInput>, key: KeyboardInput)
    requires
        keys.no_duplicates(),
    ensures
        occurrences(keys, key) == if keys.contains(key) {
            1nat
        } else {
            0nat
        },
    decreases keys.len(),
{
    if keys.len() > 0 {
        let earlier = keys.drop_last();
        lemma_occurrences_distinct(earlier, key);
        lemma_occurrences_none(earlier, key);
        lemma_occurrences_none(keys, key);
        if keys.last() == key {
            if earlier.contains(key) {
                let i = choose|i: int| 0 <= i < earlier.len() && earlier[i] == key;
                assert(keys[i] == keys[keys.len() - 1]);
            }
        }
    }
}

/// An event occurs among the reciprocals of a sequence as often as its own
/// reciprocal occurs in the sequence.
pub proof fn lemma_occurrences_reciprocals(keys: Seq<KeyboardInput>, key: KeyboardInput)
    ensures
        occurrences(reciprocals(keys), key) == occurrences(keys, key.spec_reciprocal()),
    decreases keys.len(),
{
    if keys.len() > 0 {
        assert(reciprocals(keys).drop_last() =~= reciprocals(keys.drop_last()));
        lemma_occurrences_reciprocals(keys.drop_last(), key);
        assert(reciprocals(keys).last() == keys.last().spec_reciprocal());
        assert(keys.last().spec_reciprocal().spec_reciprocal() == keys.last());
        assert(key.spec_reciprocal().spec_reciprocal() == key);
    }
}

/// Taking an event out of a sequence of distinct events leaves the others,
/// still distinct.
pub proof fn lemma_remove_value(keys: Seq<KeyboardInput>, key: KeyboardInput)
    requires
        keys.no_duplicates(),
        keys.contains(key),
    ensures
        keys.remove_value(key).no_duplicates(),
        forall|other: KeyboardInput| #[trigger]
            keys.remove_value(key).contains(other) == (keys.contains(other) && other != key),
        only_pressed(keys) ==> only_pressed(keys.remove_value(key)),
{
    keys.index_of_first_ensures(key);
    let at = keys.index_of_first(key).unwrap();
    let rest = keys.remove(at);
    assert(rest == keys.remove_value(key));
    assert forall|other: KeyboardInput| #[trigger]
        rest.contains(other) == (keys.contains(other) && other != key) by {
        if rest.contains(other) {
            let i = choose|i: int| 0 <= i < rest.len() && rest[i] == other;
            if i < at {
                assert(keys[i] == other);
            } else {
                assert(keys[i + 1] == other);
            }
        }
        if keys.contains(other) && other != key {
            let i = choose|i: int| 0 <= i < keys.len() && keys[i] == other;
            if i < at {
                assert(rest[i] == other);
            } else {
                assert(rest[i - 1] == other);
            }
        }
    }
    assert forall|i: int| 0 <= i < rest.len() && only_pressed(keys) implies (#[trigger] rest[i]).state
        == ButtonState::Pressed by {
        if i < at {
            assert(rest[i] == keys[i]);
        } else {
            assert(rest[i] == keys[i + 1]);
        }
    }
}

/// Entering an event into a sequence of distinct events adds that event and
/// no other, and keeps the events distinct.
pub proof fn lemma_entered(keys: Seq<KeyboardInput>, key: KeyboardInput)
    requires
        keys.no_duplicates(),
    ensures
        entered(keys, key).no_duplicates(),
        forall|other: KeyboardInput| #[trigger]
            entered(keys, key).contains(other) == (keys.contains(other) || other == key),
        only_pressed(keys) && key.state == ButtonState::Pressed ==> only_pressed(
            entered(keys, key),
        ),
{
    let more = entered(keys, key);
    assert forall|other: KeyboardInput| #[trigger]
        more.contains(other) == (keys.contains(other) || other == key) by {
        if more.contains(other) {
            let i = choose|i: int| 0 <= i < more.len() && more[i] == other;
            if i < keys.len() {
                assert(keys[i] == other);
            }
        }
        if keys.contains(other) {
            let i = choose|i: int| 0 <= i < keys.len() && keys[i] == other;
            assert(more[i] == other);
        }
        if other == key && !keys.contains(key) {
            assert(more[keys.len() as int] == key);
        }
    }
}

/// An event occurs in the beginning of a sequence no more often than in the
/// whole of it.
pub proof fn lemma_occurrences_prefix(keys: Seq<KeyboardInput>, upto: int, key: KeyboardInput)
    requires
        0 <= upto <= keys.len(),
    ensures
        occurrences(keys.take(upto), key) <= occurrences(keys, key),
{
    assert(keys.take(upto) + keys.skip(upto) =~= keys);
    lemma_occurrences_add(keys.take(upto), keys.skip(upto), key);
}

} // verus!
