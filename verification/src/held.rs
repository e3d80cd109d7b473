//! The keys that count as held, in the order in which they were first seen.

use vstd::prelude::*;

use crate::keys::KeyboardInput;

verus! {

/// A set of key events that remembers the order of insertion. No event is in
/// it twice.
#[derive(Debug)]
pub struct KeySet {
    keys: Vec<KeyboardInput>,
}

impl View for KeySet {
    type V = Seq<KeyboardInput>;

    /// The events of the set, oldest first.
    closed spec fn view(&self) -> Seq<KeyboardInput> {
        self.keys@
    }
}

impl KeySet {
    /// The invariant of the set: no event is in it twice. Every set that
    /// this module hands out is well formed.
    pub open spec fn wf(&self) -> bool {
        self@.no_duplicates()
    }

    /// The empty set.
    pub fn new() -> (r: KeySet)
        ensures
            r@ == Seq::<KeyboardInput>::empty(),
            r.wf(),
    {
        KeySet { keys: Vec::new() }
    }

    /// How many events the set holds.
    pub fn len(&self) -> (r: usize)
        ensures
            r == self@.len(),
    {
        self.keys.len()
    }

    /// Whether the set holds nothing.
    pub fn is_empty(&self) -> (r: bool)
        ensures
            r == (self@.len() == 0),
    {
        self.keys.len() == 0
    }

    /// Where `key` sits in the set, if it is there.
    fn position(&self, key: &KeyboardInput) -> (r: Option<usize>)
        ensures
            match r {
                Some(i) => i < self@.len() && self@[i as int] == *key && self@.index_of_first(*key)
                    == Some(i as int),
                None => !self@.contains(*key) && self@.index_of_first(*key).is_none(),
            },
    {
        let mut i: usize = 0;
        while i < self.keys.len()
            invariant
                i <= self.keys@.len(),
                forall|j: int| 0 <= j < i ==> self.keys@[j] != *key,
            decreases self.keys@.len() - i,
        {
            if self.keys[i] == *key {
                proof {
                    self@.index_of_first_ensures(*key);
                }
                return Some(i);
            }
            i += 1;
        }
        proof {
            self@.index_of_first_ensures(*key);
        }
        None
    }

    /// Whether `key` is in the set.
    pub fn contains(&self, key: &KeyboardInput) -> (r: bool)
        ensures
            r == self@.contains(*key),
    {
        self.position(key).is_some()
    }

    /// Puts `key` into the set, behind the events already there. Returns
    /// whether it was new; a set that has it already stays as it is.
    pub fn insert(&mut self, key: KeyboardInput) -> (r: bool)
        requires
            old(self).wf(),
        ensures
            final(self).wf(),
            r == !old(self)@.contains(key),
            final(self)@ == if old(self)@.contains(key) {
                old(self)@
            } else {
                old(self)@.push(key)
            },
    {
        match self.position(&key) {
            Some(_) => false,
            None => {
                self.keys.push(key);
                true
            },
        }
    }

    /// Takes `key` out of the set and returns it, if it is there. The other
    /// events keep their order.
    pub fn take(&mut self, key: &KeyboardInput) -> (r: Option<KeyboardInput>)
        requires
            old(self).wf(),
        ensures
            final(self).wf(),
            r == if old(self)@.contains(*key) {
                Some(*key)
            } else {
                None
            },
            final(self)@ == old(self)@.remove_value(*key),
    {
        match self.position(key) {
            Some(i) => {
                let taken = self.keys.remove(i);
                Some(taken)
            },
            None => None,
        }
    }

    /// Empties the set and returns what it held, oldest first.
    pub fn drain(&mut self) -> (r: Vec<KeyboardInput>)
        ensures
            r@ == old(self)@,
            final(self)@ == Seq::<KeyboardInput>::empty(),
            final(self).wf(),
    {
        let mut taken: Vec<KeyboardInput> = Vec::new();
        std::mem::swap(&mut self.keys, &mut taken);
        taken
    }
}

/// A double buffer of held keys. While the events of an update are worked
/// through, keys are looked up in `current_frame` and entered into
/// `next_frame`.
#[derive(Debug)]
pub struct LastPress {
    /// The keys that were held when the update began.
    pub current_frame: KeySet,
    /// The keys that will count as held when the update is over.
    pub next_frame: KeySet,
}

impl LastPress {
    /// Both buffers are well formed.
    pub open spec fn wf(&self) -> bool {
        self.current_frame.wf() && self.next_frame.wf()
    }

    /// Two empty buffers.
    pub fn new() -> (r: LastPress)
        ensures
            r.wf(),
            r.current_frame@ == Seq::<KeyboardInput>::empty(),
            r.next_frame@ == Seq::<KeyboardInput>::empty(),
    {
        LastPress { current_frame: KeySet::new(), next_frame: KeySet::new() }
    }

    /// Exchanges the two buffers.
    pub fn swap(&mut self)
        ensures
            final(self).current_frame@ == old(self).next_frame@,
            final(self).next_frame@ == old(self).current_frame@,
            old(self).wf() ==> final(self).wf(),
    {
        std::mem::swap(&mut self.current_frame, &mut self.next_frame);
    }
}

} // verus!
