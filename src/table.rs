use crate::address::Address;
use vstd::prelude::*;

verus! {

/// Records keyed by address, at most one per address. Its view maps the
/// bytes of each address to the record stored there.
pub struct Table<T> {
    entries: Vec<(Address, T)>,
    contents: Ghost<Map<Seq<u8>, T>>,
}

impl<T> View for Table<T> {
    type V = Map<Seq<u8>, T>;

    closed spec fn view(&self) -> Map<Seq<u8>, T> {
        self.contents@
    }
}

impl<T> Table<T> {
    /// The entries agree with the view, and no address occurs twice.
    pub closed spec fn wf(&self) -> bool {
        &&& forall|i: int|
            0 <= i < self.entries@.len() ==> #[trigger] self.contents@.contains_key(
                self.entries@[i].0@,
            ) && self.contents@[self.entries@[i].0@] == self.entries@[i].1
        &&& forall|k: Seq<u8>|
            #[trigger] self.contents@.contains_key(k) ==> exists|i: int|
                0 <= i < self.entries@.len() && #[trigger] self.entries@[i].0@ == k
        &&& forall|i: int, j: int|
            0 <= i < j < self.entries@.len() ==> self.entries@[i].0@ != self.entries@[j].0@
    }

    /// An empty table.
    pub fn new() -> (r: Table<T>)
        ensures
            r.wf(),
            r@ == Map::<Seq<u8>, T>::empty(),
    {
        Table { entries: Vec::new(), contents: Ghost(Map::empty()) }
    }

    /// Position of the entry at `key`, if any.
    fn index_of(&self, key: &Address) -> (r: Option<usize>)
        requires
            self.wf(),
        ensures
            match r {
                Some(i) => i < self.entries@.len() && self.entries@[i as int].0@ == key@,
                None => !self@.contains_key(key@),
            },
    {
        let mut i: usize = 0;
        while i < self.entries.len()
            invariant
                self.wf(),
                0 <= i <= self.entries@.len(),
                forall|j: int| 0 <= j < i ==> self.entries@[j].0@ != key@,
            decreases self.entries@.len() - i,
        {
            if self.entries[i].0.same_as(key) {
                return Some(i);
            }
            i = i + 1;
        }
        proof {
            if self@.contains_key(key@) {
                let j = choose|j: int|
                    0 <= j < self.entries@.len() && #[trigger] self.entries@[j].0@ == key@;
                assert(self.entries@[j].0@ == key@);
            }
        }
        None
    }

    /// The record at `key`, if any.
    pub fn get(&self, key: &Address) -> (r: Option<&T>)
        requires
            self.wf(),
        ensures
            match r {
                Some(v) => self@.contains_key(key@) && *v == self@[key@],
                None => !self@.contains_key(key@),
            },
    {
        match self.index_of(key) {
            Some(i) => {
                assert(self.contents@.contains_key(self.entries@[i as int].0@));
                Some(&self.entries[i].1)
            },
            None => None,
        }
    }

    /// Whether a record stands at `key`.
    pub fn contains(&self, key: &Address) -> (r: bool)
        requires
            self.wf(),
        ensures
            r == self@.contains_key(key@),
    {
        match self.index_of(key) {
            Some(i) => {
                assert(self.contents@.contains_key(self.entries@[i as int].0@));
                true
            },
            None => false,
        }
    }

    /// Stores `value` at a fresh `key`.
    pub fn insert(&mut self, key: Address, value: T)
        requires
            old(self).wf(),
            !old(self)@.contains_key(key@),
        ensures
            final(self).wf(),
            final(self)@ == old(self)@.insert(key@, value),
    {
        let ghost old_entries = self.entries@;
        let ghost old_contents = self.contents@;
        self.entries.push((key, value));
        self.contents = Ghost(old_contents.insert(key@, value));
        assert forall|i: int, j: int|
            0 <= i < j < self.entries@.len() implies self.entries@[i].0@
            != self.entries@[j].0@ by {
            if j == old_entries.len() {
                assert(old_contents.contains_key(old_entries[i].0@));
            }
        }
        assert forall|k: Seq<u8>| #[trigger] self.contents@.contains_key(k) implies exists|i: int|
            0 <= i < self.entries@.len() && #[trigger] self.entries@[i].0@ == k by {
            if k == key@ {
                assert(self.entries@[old_entries.len() as int].0@ == k);
            } else {
                assert(old_contents.contains_key(k));
                let i = choose|i: int| 0 <= i < old_entries.len() && #[trigger] old_entries[i].0@ == k;
                assert(self.entries@[i].0@ == k);
            }
        }
        assert forall|i: int| 0 <= i < self.entries@.len() implies #[trigger] self.contents@.contains_key(
            self.entries@[i].0@,
        ) && self.contents@[self.entries@[i].0@] == self.entries@[i].1 by {
            if i < old_entries.len() {
                assert(old_contents.contains_key(old_entries[i].0@));
            }
        }
    }

    /// Replaces the record that stands at `key`.
    pub fn set(&mut self, key: &Address, value: T)
        requires
            old(self).wf(),
            old(self)@.contains_key(key@),
        ensures
            final(self).wf(),
            final(self)@ == old(self)@.insert(key@, value),
    {
        let ghost old_entries = self.entries@;
        let ghost old_contents = self.contents@;
        let idx = self.index_of(key);
        match idx {
            Some(n) => {
                let k = self.entries[n].0;
                self.entries.set(n, (k, value));
                self.contents = Ghost(old_contents.insert(key@, value));
                assert forall|i: int, j: int|
                    0 <= i < j < self.entries@.len() implies self.entries@[i].0@
                    != self.entries@[j].0@ by {
                    assert(old_entries[i].0@ != old_entries[j].0@);
                }
                assert forall|k2: Seq<u8>| #[trigger] self.contents@.contains_key(k2) implies exists|i: int|
                    0 <= i < self.entries@.len() && #[trigger] self.entries@[i].0@ == k2 by {
                    if k2 == key@ {
                        assert(self.entries@[n as int].0@ == k2);
                    } else {
                        assert(old_contents.contains_key(k2));
                        let i = choose|i: int| 0 <= i < old_entries.len() && #[trigger] old_entries[i].0@ == k2;
                        assert(self.entries@[i].0@ == k2);
                    }
                }
                assert forall|i: int| 0 <= i < self.entries@.len() implies #[trigger] self.contents@.contains_key(
                    self.entries@[i].0@,
                ) && self.contents@[self.entries@[i].0@] == self.entries@[i].1 by {
                    if i != n {
                        assert(old_contents.contains_key(old_entries[i].0@));
                        assert(old_entries[i].0@ != old_entries[n as int].0@);
                    }
                }
            },
            None => {},
        }
    }
}

} // verus!
