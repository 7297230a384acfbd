//! The cache of the latest matches of each league.
//!
//! Keys are folded to lower case before they are stored and before they are
//! looked up, so callers may write a key in any case.
//!
//! The cache is a plain value. Tasks that share one guard it with a lock of
//! their own that admits many readers or one writer. A writer holds the lock
//! for one `put` or `remove` and never while a fetch is under way, so a
//! reader sees a list of matches whole or not at all and never waits for the
//! network.

use crate::models::Match;
use crate::text::lowercase;
use crate::text::lowercase_of;
use vstd::prelude::*;

verus! {

/// What a cache holds: the matches stored under each folded key.
pub type Snapshot = Map<Seq<char>, Seq<Match>>;

#[derive(Debug)]
struct Slot {
    key: String,
    records: Vec<Match>,
}

spec fn holds(slots: Seq<Slot>, key: Seq<char>) -> bool {
    exists|i: int| 0 <= i < slots.len() && (#[trigger] slots[i]).key@ == key
}

spec fn slot_of(slots: Seq<Slot>, key: Seq<char>) -> int {
    choose|i: int| 0 <= i < slots.len() && (#[trigger] slots[i]).key@ == key
}

spec fn distinct(slots: Seq<Slot>) -> bool {
    forall|i: int, j: int|
        0 <= i < j < slots.len() ==> (#[trigger] slots[i]).key@ != (#[trigger] slots[j]).key@
}

spec fn snapshot_of(slots: Seq<Slot>) -> Snapshot {
    Map::new(|key: Seq<char>| holds(slots, key), |key: Seq<char>| slots[slot_of(slots, key)].records@)
}

proof fn lemma_snapshot_at(slots: Seq<Slot>, i: int)
    requires
        distinct(slots),
        0 <= i < slots.len(),
    ensures
        snapshot_of(slots).contains_key(slots[i].key@),
        snapshot_of(slots)[slots[i].key@] == slots[i].records@,
{
    let key = slots[i].key@;
    assert(holds(slots, key));
    let j = slot_of(slots, key);
    assert(slots[j].key@ == key);
    if i < j {
        assert(slots[i].key@ != slots[j].key@);
    } else if j < i {
        assert(slots[j].key@ != slots[i].key@);
    }
}

proof fn lemma_snapshot_push(slots: Seq<Slot>, slot: Slot)
    requires
        distinct(slots),
        !holds(slots, slot.key@),
    ensures
        distinct(slots.push(slot)),
        snapshot_of(slots.push(slot)) == snapshot_of(slots).insert(slot.key@, slot.records@),
{
    let grown = slots.push(slot);
    assert forall|i: int, j: int| 0 <= i < j < grown.len() implies (#[trigger] grown[i]).key@ != (
    #[trigger] grown[j]).key@ by {
        if j < slots.len() {
            assert(slots[i].key@ != slots[j].key@);
        } else {
            assert(slots[i].key@ != slot.key@);
        }
    }
    let expected = snapshot_of(slots).insert(slot.key@, slot.records@);
    assert forall|key: Seq<char>| snapshot_of(grown).contains_key(key) <==> expected.contains_key(
        key,
    ) by {
        if holds(grown, key) {
            let i = slot_of(grown, key);
            if i < slots.len() {
                assert(slots[i].key@ == key);
            }
        }
        if holds(slots, key) {
            let i = slot_of(slots, key);
            assert(grown[i].key@ == key);
        }
        if key == slot.key@ {
            assert(grown[slots.len() as int].key@ == key);
        }
    }
    assert forall|key: Seq<char>| snapshot_of(grown).contains_key(key) implies snapshot_of(
        grown,
    )[key] == expected[key] by {
        let i = slot_of(grown, key);
        lemma_snapshot_at(grown, i);
        if i < slots.len() {
            lemma_snapshot_at(slots, i);
        }
    }
    assert(snapshot_of(grown) =~= expected);
}

proof fn lemma_snapshot_remove(slots: Seq<Slot>, at: int)
    requires
        distinct(slots),
        0 <= at < slots.len(),
    ensures
        distinct(slots.remove(at)),
        snapshot_of(slots.remove(at)) == snapshot_of(slots).remove(slots[at].key@),
{
    let rest = slots.remove(at);
    let gone = slots[at].key@;
    assert forall|i: int| 0 <= i < rest.len() implies (#[trigger] rest[i]) == slots[if i < at {
        i
    } else {
        i + 1
    }] by {}
    assert forall|i: int, j: int| 0 <= i < j < rest.len() implies (#[trigger] rest[i]).key@ != (
    #[trigger] rest[j]).key@ by {
        let a = if i < at { i } else { i + 1 };
        let b = if j < at { j } else { j + 1 };
        assert(slots[a].key@ != slots[b].key@);
    }
    let expected = snapshot_of(slots).remove(gone);
    assert forall|key: Seq<char>| snapshot_of(rest).contains_key(key) <==> expected.contains_key(
        key,
    ) by {
        if holds(rest, key) {
            let i = slot_of(rest, key);
            let a = if i < at { i } else { i + 1 };
            assert(slots[a].key@ == key);
            if a < at {
                assert(slots[a].key@ != slots[at].key@);
            } else {
                assert(slots[at].key@ != slots[a].key@);
            }
        }
        if holds(slots, key) && key != gone {
            let a = slot_of(slots, key);
            let i = if a < at { a } else { a - 1 };
            assert(rest[i].key@ == key);
        }
    }
    assert forall|key: Seq<char>| snapshot_of(rest).contains_key(key) implies snapshot_of(rest)[key]
        == expected[key] by {
        let i = slot_of(rest, key);
        let a = if i < at { i } else { i + 1 };
        lemma_snapshot_at(rest, i);
        lemma_snapshot_at(slots, a);
    }
    assert(snapshot_of(rest) =~= expected);
}

/// The store of the latest matches of each league, by folded key.
#[derive(Debug)]
pub struct Cache {
    slots: Vec<Slot>,
}

impl View for Cache {
    type V = Snapshot;

    closed spec fn view(&self) -> Snapshot {
        snapshot_of(self.slots@)
    }
}

impl Cache {
    #[verifier::type_invariant]
    pub closed spec fn well_formed(self) -> bool {
        distinct(self.slots@)
    }

    /// A cache that holds nothing.
    pub fn new() -> (cache: Cache)
        ensures
            cache@ == Snapshot::empty(),
    {
        let cache = Cache { slots: Vec::new() };
        assert(cache@ =~= Snapshot::empty());
        cache
    }

    fn find(&self, folded: &str) -> (r: Option<usize>)
        ensures
            r is Some <==> self@.contains_key(folded@),
            r matches Some(i) ==> i < self.slots@.len() && self.slots@[i as int].key@ == folded@,
    {
        let mut i: usize = 0;
        while i < self.slots.len()
            invariant
                i <= self.slots.len(),
                forall|j: int| 0 <= j < i ==> (#[trigger] self.slots@[j]).key@ != folded@,
            decreases self.slots.len() - i,
        {
            if self.slots[i].key.as_str().eq(folded) {
                return Some(i);
            }
            i += 1;
        }
        None
    }

    /// The matches stored for `key`, whatever its case.
    pub fn get(&self, key: &str) -> (r: Option<&Vec<Match>>)
        ensures
            r is Some <==> self@.contains_key(lowercase_of(key@)),
            r matches Some(records) ==> records@ == self@[lowercase_of(key@)],
    {
        let folded = lowercase(key);
        self.get_folded(folded.as_str())
    }

    /// The matches stored under `folded`, a key that is taken as it stands.
    pub fn get_folded(&self, folded: &str) -> (r: Option<&Vec<Match>>)
        ensures
            r is Some <==> self@.contains_key(folded@),
            r matches Some(records) ==> records@ == self@[folded@],
    {
        match self.find(folded) {
            Some(i) => {
                proof {
                    use_type_invariant(self);
                    lemma_snapshot_at(self.slots@, i as int);
                }
                Some(&self.slots[i].records)
            },
            None => None,
        }
    }

    /// Drops what is stored for `key`, whatever its case. Nothing changes
    /// where nothing is stored.
    pub fn remove(&mut self, key: &str)
        ensures
            final(self)@ == old(self)@.remove(lowercase_of(key@)),
    {
        let folded = lowercase(key);
        self.discard(folded.as_str());
    }

    /// Stores `records` for `key`, whatever its case, in place of what was
    /// stored before.
    pub fn put(&mut self, key: &str, records: Vec<Match>)
        ensures
            final(self)@ == old(self)@.insert(lowercase_of(key@), records@),
    {
        let folded = lowercase(key);
        self.discard(folded.as_str());
        proof {
            use_type_invariant(&*self);
            assert(!self@.contains_key(folded@));
            assert(!holds(self.slots@, folded@));
        }
        let mut slots: Vec<Slot> = Vec::new();
        core::mem::swap(&mut self.slots, &mut slots);
        let slot = Slot { key: folded, records };
        proof {
            lemma_snapshot_push(slots@, slot);
            assert(old(self)@.remove(folded@).insert(folded@, records@) =~= old(self)@.insert(
                folded@,
                records@,
            ));
        }
        slots.push(slot);
        self.slots = slots;
    }

    /// The number of leagues with stored matches.
    pub fn len(&self) -> (n: usize)
        ensures
            n == self@.len(),
            self@.dom().finite(),
    {
        proof {
            use_type_invariant(self);
            lemma_snapshot_len(self.slots@);
        }
        self.slots.len()
    }

    fn discard(&mut self, folded: &str)
        ensures
            final(self)@ == old(self)@.remove(folded@),
    {
        proof {
            use_type_invariant(&*self);
        }
        match self.find(folded) {
            Some(i) => {
                let mut slots: Vec<Slot> = Vec::new();
                core::mem::swap(&mut self.slots, &mut slots);
                proof {
                    lemma_snapshot_remove(slots@, i as int);
                }
                slots.remove(i);
                self.slots = slots;
            },
            None => {
                assert(old(self)@.remove(folded@) =~= old(self)@);
            },
        }
    }
}

proof fn lemma_snapshot_len(slots: Seq<Slot>)
    requires
        distinct(slots),
    ensures
        snapshot_of(slots).dom().finite(),
        snapshot_of(slots).len() == slots.len(),
    decreases slots.len(),
{
    if slots.len() == 0 {
        assert(snapshot_of(slots) =~= Snapshot::empty());
    } else {
        let last = slots.last();
        let rest = slots.drop_last();
        assert(rest =~= slots.remove(slots.len() - 1));
        lemma_snapshot_remove(slots, slots.len() - 1);
        lemma_snapshot_len(rest);
        lemma_snapshot_at(slots, slots.len() - 1);
        assert(snapshot_of(slots) =~= snapshot_of(rest).insert(last.key@, last.records@));
        assert(!snapshot_of(rest).contains_key(last.key@));
    }
}

} // verus!
