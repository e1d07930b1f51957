//! The routing table: one snapshot of the mapping from dispatch keys to
//! actions.
use vstd::prelude::*;
use crate::action::{ActionDescriptor, ActionView};
use crate::text::text_eq;

verus! {

/// A snapshot of the mapping from dispatch keys to actions. Keys are unique
/// and compared exactly; entries have no order.
pub struct RoutingTable {
    entries: Vec<(String, ActionDescriptor)>,
    model: Ghost<Map<Seq<char>, ActionView>>,
}

impl View for RoutingTable {
    type V = Map<Seq<char>, ActionView>;

    closed spec fn view(&self) -> Map<Seq<char>, ActionView> {
        self.model@
    }
}

impl RoutingTable {
    /// The entries hold each key once, and are exactly the mapping.
    pub closed spec fn wf(&self) -> bool {
        &&& forall|i: int, j: int|
            0 <= i < j < self.entries@.len() ==> self.entries@[i].0@ != self.entries@[j].0@
        &&& forall|i: int|
            0 <= i < self.entries@.len() ==> #[trigger] self.model@.contains_key(
                self.entries@[i].0@,
            ) && self.model@[self.entries@[i].0@] == self.entries@[i].1@
        &&& forall|k: Seq<char>|
            #[trigger] self.model@.contains_key(k) ==> exists|i: int|
                0 <= i < self.entries@.len() && self.entries@[i].0@ == k
    }

    /// The empty table.
    pub fn new() -> (r: RoutingTable)
        ensures
            r.wf(),
            r@ == Map::<Seq<char>, ActionView>::empty(),
    {
        RoutingTable { entries: Vec::new(), model: Ghost(Map::empty()) }
    }

    /// The number of entries.
    pub fn len(&self) -> (r: usize)
        requires
            self.wf(),
        ensures
            r as nat == self@.dom().len(),
    {
        proof {
            self.lemma_dom_len();
        }
        self.entries.len()
    }

    proof fn lemma_dom_len(&self)
        requires
            self.wf(),
        ensures
            self@.dom().len() == self.entries@.len(),
        decreases self.entries@.len(),
    {
        let keys = self.entries@.map_values(|e: (String, ActionDescriptor)| e.0@);
        assert forall|i: int, j: int| 0 <= i < j < keys.len() implies keys[i] != keys[j] by {}
        assert(keys.no_duplicates());
        keys.unique_seq_to_set();
        assert(keys.to_set() =~= self@.dom()) by {
            assert forall|k: Seq<char>| keys.to_set().contains(k) <==> self@.dom().contains(k) by {
                if self@.dom().contains(k) {
                    let i = choose|i: int| 0 <= i < self.entries@.len() && self.entries@[i].0@ == k;
                    assert(keys[i] == k);
                }
                if keys.to_set().contains(k) {
                    let i = choose|i: int| 0 <= i < keys.len() && keys[i] == k;
                    assert(self.model@.contains_key(self.entries@[i].0@));
                }
            }
        }
    }

    /// The position of `key` among the entries, if it is there.
    fn position(&self, key: &str) -> (r: Option<usize>)
        requires
            self.wf(),
        ensures
            match r {
                Some(i) => i < self.entries@.len() && self.entries@[i as int].0@ == key@,
                None => !self@.contains_key(key@),
            },
    {
        let mut i: usize = 0;
        while i < self.entries.len()
            invariant
                self.wf(),
                i <= self.entries@.len(),
                forall|j: int| 0 <= j < i ==> self.entries@[j].0@ != key@,
            decreases self.entries@.len() - i,
        {
            if text_eq(self.entries[i].0.as_str(), key) {
                return Some(i);
            }
            i = i + 1;
        }
        None
    }

    /// The action configured for `key`, copied out of the table.
    pub fn lookup(&self, key: &str) -> (r: Option<ActionDescriptor>)
        requires
            self.wf(),
        ensures
            match r {
                Some(a) => self@.contains_key(key@) && self@[key@] == a@,
                None => !self@.contains_key(key@),
            },
    {
        match self.position(key) {
            Some(i) => {
                assert(self.model@.contains_key(self.entries@[i as int].0@));
                Some(self.entries[i].1.duplicate())
            },
            None => None,
        }
    }

    /// Sets the action for `key`, replacing any earlier one.
    pub fn insert(&mut self, key: String, action: ActionDescriptor)
        requires
            old(self).wf(),
        ensures
            final(self).wf(),
            final(self)@ == old(self)@.insert(key@, action@),
    {
        let ghost k = key@;
        let ghost a = action@;
        let ghost old_entries = self.entries@;
        match self.position(key.as_str()) {
            Some(i) => {
                self.entries.set(i, (key, action));
                self.model = Ghost(self.model@.insert(k, a));
                assert forall|j: int| 0 <= j < self.entries@.len() implies #[trigger] self.model@.contains_key(
                    self.entries@[j].0@) && self.model@[self.entries@[j].0@] == self.entries@[j].1@ by {
                    if j != i {
                        assert(old_entries[j] == self.entries@[j]);
                        assert(old_entries[j].0@ != k);
                    }
                }
                assert forall|k2: Seq<char>| #[trigger] self.model@.contains_key(k2) implies exists|j: int|
                    0 <= j < self.entries@.len() && self.entries@[j].0@ == k2 by {
                    if k2 != k {
                        let j = choose|j: int| 0 <= j < old_entries.len() && old_entries[j].0@ == k2;
                        assert(self.entries@[j].0@ == k2);
                    } else {
                        assert(self.entries@[i as int].0@ == k2);
                    }
                }
            },
            None => {
                self.entries.push((key, action));
                self.model = Ghost(self.model@.insert(k, a));
                assert forall|j: int| 0 <= j < old_entries.len() implies old_entries[j].0@ != k by {
                    assert(old(self).model@.contains_key(old_entries[j].0@));
                }
                assert forall|j: int| 0 <= j < self.entries@.len() implies #[trigger] self.model@.contains_key(
                    self.entries@[j].0@) && self.model@[self.entries@[j].0@] == self.entries@[j].1@ by {
                    if j < old_entries.len() {
                        assert(old_entries[j] == self.entries@[j]);
                    }
                }
                assert forall|k2: Seq<char>| #[trigger] self.model@.contains_key(k2) implies exists|j: int|
                    0 <= j < self.entries@.len() && self.entries@[j].0@ == k2 by {
                    if k2 != k {
                        let j = choose|j: int| 0 <= j < old_entries.len() && old_entries[j].0@ == k2;
                        assert(self.entries@[j].0@ == k2);
                    } else {
                        assert(self.entries@[old_entries.len() as int].0@ == k2);
                    }
                }
            },
        }
    }

    /// Whether every entry of `self` stands in `other` with the same action.
    fn included_in(&self, other: &RoutingTable) -> (r: bool)
        requires
            self.wf(),
            other.wf(),
        ensures
            r == (forall|k: Seq<char>|
                #[trigger] self@.contains_key(k) ==> other@.contains_key(k) && other@[k] == self@[k]),
    {
        let mut i: usize = 0;
        while i < self.entries.len()
            invariant
                self.wf(),
                other.wf(),
                i <= self.entries@.len(),
                forall|j: int|
                    0 <= j < i ==> other@.contains_key(#[trigger] self.entries@[j].0@)
                        && other@[self.entries@[j].0@] == self@[self.entries@[j].0@],
            decreases self.entries@.len() - i,
        {
            let k = self.entries[i].0.as_str();
            assert(self.model@.contains_key(self.entries@[i as int].0@));
            match other.lookup(k) {
                Some(a) => {
                    if !a.same_as(&self.entries[i].1) {
                        assert(self@.contains_key(self.entries@[i as int].0@));
                        return false;
                    }
                },
                None => {
                    assert(self@.contains_key(self.entries@[i as int].0@));
                    return false;
                },
            }
            i = i + 1;
        }
        assert forall|k: Seq<char>| #[trigger] self@.contains_key(k) implies other@.contains_key(k)
            && other@[k] == self@[k] by {
            let j = choose|j: int| 0 <= j < self.entries@.len() && self.entries@[j].0@ == k;
        }
        true
    }

    /// Whether two tables hold the same keys with the same actions.
    pub fn same_entries(&self, other: &RoutingTable) -> (r: bool)
        requires
            self.wf(),
            other.wf(),
        ensures
            r == (self@ == other@),
    {
        let r = self.included_in(other) && other.included_in(self);
        if r {
            assert(self@ =~= other@);
        }
        r
    }

    /// Replaces the whole mapping with `snapshot`, unless the two already hold
    /// the same entries. Returns whether the table changed.
    pub fn replace(&mut self, snapshot: RoutingTable) -> (changed: bool)
        requires
            old(self).wf(),
            snapshot.wf(),
        ensures
            final(self).wf(),
            final(self)@ == snapshot@,
            changed == (old(self)@ != snapshot@),
    {
        if self.same_entries(&snapshot) {
            false
        } else {
            *self = snapshot;
            true
        }
    }
}

} // verus!
