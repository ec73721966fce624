//! The handle cache: at most one value per leaderboard name.
//!
//! The cache is a finite map from names to values. It is stored as a list of
//! slots whose names are pairwise different; that no name occurs twice is the
//! type's invariant, so a lookup that finds a name has found the only slot
//! for it.

use vstd::prelude::*;

verus! {

/// One cached value under its name.
struct Slot<V> {
    name: String,
    value: V,
}

/// A finite map from leaderboard names to values of type `V`.
pub struct HandleCache<V> {
    slots: Vec<Slot<V>>,
}

/// The names of a list of strings, as sequences of characters.
pub open spec fn name_views(names: Seq<String>) -> Seq<Seq<char>> {
    names.map_values(|name: String| name@)
}

spec fn slot_names<V>(slots: Seq<Slot<V>>) -> Seq<Seq<char>> {
    slots.map_values(|slot: Slot<V>| slot.name@)
}

spec fn slot_of<V>(slots: Seq<Slot<V>>, name: Seq<char>) -> int {
    choose|i: int| 0 <= i < slots.len() && #[trigger] slot_names(slots)[i] == name
}

spec fn slots_map<V>(slots: Seq<Slot<V>>) -> Map<Seq<char>, V> {
    Map::new(
        |name: Seq<char>| slot_names(slots).contains(name),
        |name: Seq<char>| slots[slot_of(slots, name)].value,
    )
}

/// What a list of slots with pairwise different names holds: each slot's
/// value under the slot's name, and nothing else; as many names as slots.
proof fn lemma_slots_map<V>(slots: Seq<Slot<V>>)
    requires
        slot_names(slots).no_duplicates(),
    ensures
        slots_map(slots).dom().finite(),
        slots_map(slots).dom().len() == slots.len(),
        slots_map(slots).dom() == slot_names(slots).to_set(),
        forall|i: int|
            0 <= i < slots.len() ==> slots_map(slots).contains_key(
                #[trigger] slot_names(slots)[i],
            ) && slots_map(slots)[slot_names(slots)[i]] == slots[i].value,
{
    let names = slot_names(slots);
    assert(slots_map(slots).dom() =~= names.to_set());
    names.unique_seq_to_set();
    vstd::seq_lib::seq_to_set_is_finite(names);
    assert forall|i: int| 0 <= i < slots.len() implies slots_map(slots).contains_key(
        #[trigger] names[i],
    ) && slots_map(slots)[names[i]] == slots[i].value by {
        let j = slot_of(slots, names[i]);
        assert(0 <= j < slots.len() && names[j] == names[i]);
    }
}

impl<V> View for HandleCache<V> {
    type V = Map<Seq<char>, V>;

    closed spec fn view(&self) -> Map<Seq<char>, V> {
        slots_map(self.slots@)
    }
}

impl<V> HandleCache<V> {
    #[verifier::type_invariant]
    spec fn names_differ(&self) -> bool {
        slot_names(self.slots@).no_duplicates()
    }

    /// A cache that holds nothing.
    pub fn new() -> (cache: HandleCache<V>)
        ensures
            cache@ == Map::<Seq<char>, V>::empty(),
    {
        let cache = HandleCache { slots: Vec::new() };
        assert(cache@ =~= Map::<Seq<char>, V>::empty());
        cache
    }

    /// Where the slot of `name` is, if the cache holds the name.
    fn position(&self, name: &String) -> (found: Option<usize>)
        ensures
            match found {
                Some(i) => i < self.slots@.len() && slot_names(self.slots@)[i as int] == name@,
                None => !slot_names(self.slots@).contains(name@),
            },
    {
        let mut i: usize = 0;
        while i < self.slots.len()
            invariant
                i <= self.slots@.len(),
                forall|j: int| 0 <= j < i ==> slot_names(self.slots@)[j] != name@,
            decreases self.slots@.len() - i,
        {
            if self.slots[i].name == *name {
                return Some(i);
            }
            i += 1;
        }
        None
    }

    /// How many names the cache holds.
    pub fn len(&self) -> (count: usize)
        ensures
            self@.dom().finite(),
            count == self@.dom().len(),
    {
        proof {
            use_type_invariant(self);
            lemma_slots_map(self.slots@);
        }
        self.slots.len()
    }

    /// Whether the cache holds `name`.
    pub fn contains(&self, name: &String) -> (held: bool)
        ensures
            held == self@.contains_key(name@),
    {
        self.position(name).is_some()
    }

    /// The value cached under `name`, if there is one.
    pub fn get(&self, name: &String) -> (value: Option<&V>)
        ensures
            match value {
                Some(v) => self@.contains_key(name@) && *v == self@[name@],
                None => !self@.contains_key(name@),
            },
    {
        proof {
            use_type_invariant(self);
            lemma_slots_map(self.slots@);
        }
        match self.position(name) {
            Some(i) => Some(&self.slots[i].value),
            None => None,
        }
    }

    /// Caches `value` under `name`. A value that was cached under the same
    /// name is replaced; every other name keeps its value.
    pub fn insert(&mut self, name: String, value: V)
        ensures
            final(self)@ == old(self)@.insert(name@, value),
    {
        proof {
            use_type_invariant(&*self);
            lemma_slots_map(self.slots@);
        }
        let ghost before = self.slots@;
        let ghost key = name@;
        let found = self.position(&name);
        let mut slots: Vec<Slot<V>> = Vec::new();
        core::mem::swap(&mut self.slots, &mut slots);
        match found {
            Some(i) => {
                slots.set(i, Slot { name, value });
                proof {
                    let after = slots@;
                    assert(slot_names(after) =~= slot_names(before));
                    lemma_slots_map(after);
                    assert(slots_map(after) =~= slots_map(before).insert(key, value)) by {
                        assert forall|k: Seq<char>| slots_map(before).insert(key, value).contains_key(k)
                            implies #[trigger] slots_map(after)[k] == slots_map(before).insert(key, value)[k] by {
                            let j = slot_names(before).index_of(k);
                            assert(slot_names(before)[j] == k);
                            assert(slot_names(after)[j] == k);
                        }
                    }
                }
            },
            None => {
                slots.push(Slot { name, value });
                proof {
                    let after = slots@;
                    assert(slot_names(after) =~= slot_names(before).push(key));
                    assert(slot_names(after).no_duplicates());
                    lemma_slots_map(after);
                    let target = slots_map(before).insert(key, value);
                    assert forall|k: Seq<char>| #[trigger]
                        slots_map(after).dom().contains(k) == target.dom().contains(k) by {
                        if slots_map(after).dom().contains(k) {
                            let j = slot_names(after).index_of(k);
                            assert(slot_names(after)[j] == k);
                            if j < before.len() {
                                assert(slot_names(before)[j] == k);
                            }
                        }
                        if target.dom().contains(k) {
                            if k == key {
                                assert(slot_names(after)[before.len() as int] == k);
                            } else {
                                let j = slot_names(before).index_of(k);
                                assert(slot_names(before)[j] == k);
                                assert(slot_names(after)[j] == k);
                            }
                        }
                    }
                    assert forall|k: Seq<char>| slots_map(after).dom().contains(k) implies #[trigger]
                        slots_map(after)[k] == target[k] by {
                        let j = slot_names(after).index_of(k);
                        assert(slot_names(after)[j] == k);
                        if j < before.len() {
                            assert(slot_names(before)[j] == k);
                        }
                    }
                    assert(slots_map(after) =~= target);
                }
            },
        }
        self.slots = slots;
    }

    /// Forgets `name`. Says whether the cache held it; every other name keeps
    /// its value.
    pub fn remove(&mut self, name: &String) -> (existed: bool)
        ensures
            existed == old(self)@.contains_key(name@),
            final(self)@ == old(self)@.remove(name@),
    {
        proof {
            use_type_invariant(&*self);
            lemma_slots_map(self.slots@);
        }
        let ghost before = self.slots@;
        let ghost key = name@;
        match self.position(name) {
            Some(i) => {
                let mut slots: Vec<Slot<V>> = Vec::new();
                core::mem::swap(&mut self.slots, &mut slots);
                slots.remove(i);
                proof {
                    let after = slots@;
                    assert(slot_names(after) =~= slot_names(before).remove(i as int));
                    assert(slot_names(after).no_duplicates());
                    lemma_slots_map(after);
                    assert(slots_map(after) =~= slots_map(before).remove(key)) by {
                        assert forall|k: Seq<char>| slots_map(after).contains_key(k)
                            implies slots_map(before).remove(key).contains_key(k)
                            && slots_map(after)[k] == slots_map(before).remove(key)[k] by {
                            let j = slot_names(after).index_of(k);
                            assert(slot_names(after)[j] == k);
                            if j < i {
                                assert(slot_names(before)[j] == k);
                            } else {
                                assert(slot_names(before)[j + 1] == k);
                            }
                        }
                        assert forall|k: Seq<char>| slots_map(before).remove(key).contains_key(k)
                            implies slots_map(after).contains_key(k) by {
                            let j = slot_names(before).index_of(k);
                            assert(slot_names(before)[j] == k);
                            if j < i {
                                assert(slot_names(after)[j] == k);
                            } else {
                                assert(slot_names(after)[j - 1] == k);
                            }
                        }
                    }
                }
                self.slots = slots;
                true
            },
            None => {
                assert(self@ =~= old(self)@.remove(key));
                false
            },
        }
    }

    /// The names the cache holds, each of them once.
    pub fn list_names(&self) -> (names: Vec<String>)
        ensures
            name_views(names@).no_duplicates(),
            name_views(names@).to_set() == self@.dom(),
            names@.len() == self@.dom().len(),
    {
        proof {
            use_type_invariant(self);
            lemma_slots_map(self.slots@);
        }
        let mut names: Vec<String> = Vec::new();
        let mut i: usize = 0;
        while i < self.slots.len()
            invariant
                i <= self.slots@.len(),
                names@.len() == i,
                forall|j: int| 0 <= j < i ==> (#[trigger] names@[j])@ == slot_names(self.slots@)[j],
            decreases self.slots@.len() - i,
        {
            names.push(self.slots[i].name.clone());
            i += 1;
        }
        assert(name_views(names@) =~= slot_names(self.slots@));
        names
    }
}

} // verus!
