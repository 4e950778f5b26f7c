//! The run-time accounting model of the native engine.
//!
//! The numerical engine itself is out of scope; what the binding must
//! get right is object identity, exclusive ownership, and
//! exactly-once destruction.  [`NativeLib`] stands in for the native
//! heap: it hands out fresh object identities to constructors and keeps
//! a log of every destruction, so that the ownership-transfer protocol
//! can be stated and proved (and exercised by tests through destruction
//! counters).
#![allow(unused_imports)]
use vstd::prelude::*;

verus! {

/// The non-null native pointer behind an owning handle.  Deliberately
/// neither `Clone` nor `Copy`: holding one models exclusive ownership
/// of one native object, and only consuming calls may take it away.
#[derive(Debug, PartialEq, Eq, Structural)]
pub struct RawHandle {
    pub id: u64,
}

/// How many times `x` occurs in the destruction log.
pub open spec fn count_of(s: Seq<u64>, x: u64) -> nat
    decreases s.len(),
{
    if s.len() == 0 {
        0
    } else {
        count_of(s.drop_last(), x) + if s.last() == x {
            1nat
        } else {
            0nat
        }
    }
}

/// Counting distributes over concatenation.
pub proof fn lemma_count_append(a: Seq<u64>, b: Seq<u64>, x: u64)
    ensures
        count_of(a + b, x) == count_of(a, x) + count_of(b, x),
    decreases b.len(),
{
    if b.len() == 0 {
        assert(a + b =~= a);
    } else {
        lemma_count_append(a, b.drop_last(), x);
        assert((a + b).drop_last() =~= a + b.drop_last());
        assert((a + b).len() > 0);
        assert((a + b).last() == b.last());
    }
}

/// In a duplicate-free id list, every listed id occurs exactly once and
/// every other id not at all.
pub proof fn lemma_count_distinct(ids: Seq<u64>, x: u64)
    requires
        ids.no_duplicates(),
    ensures
        ids.contains(x) ==> count_of(ids, x) == 1,
        !ids.contains(x) ==> count_of(ids, x) == 0,
    decreases ids.len(),
{
    if ids.len() > 0 {
        let init = ids.drop_last();
        assert(init.no_duplicates());
        lemma_count_distinct(init, x);
        if ids.last() == x {
            assert(!init.contains(x)) by {
                if init.contains(x) {
                    let j = choose|j: int| 0 <= j < init.len() && init[j] == x;
                    assert(ids[j] == x);
                    assert(ids[ids.len() - 1] == x);
                }
            }
        } else {
            if ids.contains(x) {
                let j = choose|j: int| 0 <= j < ids.len() && ids[j] == x;
                assert(init[j] == x);
                assert(init.contains(x));
            } else {
                assert(!init.contains(x)) by {
                    if init.contains(x) {
                        let j = choose|j: int| 0 <= j < init.len() && init[j] == x;
                        assert(ids[j] == x);
                    }
                }
            }
        }
    }
}

/// Appending a duplicate-free batch of destructions to the log raises
/// the count of each batched id by exactly one and leaves every other
/// count unchanged: a destruction batch destroys each of its objects
/// exactly once and touches nothing else.
pub proof fn lemma_destroy_batch_once(old_log: Seq<u64>, new_log: Seq<u64>, ids: Seq<u64>)
    requires
        new_log == old_log + ids,
        ids.no_duplicates(),
    ensures
        forall|x: u64| ids.contains(x) ==> count_of(new_log, x) == count_of(old_log, x) + 1,
        forall|x: u64| !ids.contains(x) ==> count_of(new_log, x) == count_of(old_log, x),
{
    assert forall|x: u64| ids.contains(x) implies count_of(new_log, x) == count_of(old_log, x)
        + 1 by {
        lemma_count_append(old_log, ids, x);
        lemma_count_distinct(ids, x);
    }
    assert forall|x: u64| !ids.contains(x) implies count_of(new_log, x) == count_of(
        old_log,
        x,
    ) by {
        lemma_count_append(old_log, ids, x);
        lemma_count_distinct(ids, x);
    }
}

/// The native engine's accounting state: the source of fresh object
/// identities and the log of destructions, in order.
pub struct NativeLib {
    pub next_id: u64,
    pub destroy_log: Vec<u64>,
}

impl NativeLib {
    /// A fresh engine with no objects and an empty destruction log.
    pub fn new() -> (r: NativeLib)
        ensures
            r.next_id == 0,
            r.destroy_log@ == Seq::<u64>::empty(),
    {
        let r = NativeLib { next_id: 0, destroy_log: Vec::new() };
        proof {
            assert(r.destroy_log@ =~= Seq::<u64>::empty());
        }
        r
    }

    /// Models a native constructor: allocates one object and hands back
    /// exclusive ownership of a fresh identity.
    pub(crate) fn fresh_handle(&mut self) -> (r: RawHandle)
        requires
            old(self).next_id < u64::MAX,
        ensures
            r.id == old(self).next_id,
            final(self).next_id == old(self).next_id + 1,
            final(self).destroy_log == old(self).destroy_log,
    {
        let id = self.next_id;
        self.next_id = self.next_id + 1;
        RawHandle { id }
    }

    /// Models a native destructor call: consumes the handle — the one
    /// witness of ownership — and appends its identity to the log.
    pub(crate) fn record_destroy(&mut self, h: RawHandle)
        ensures
            final(self).destroy_log@ == old(self).destroy_log@.push(h.id),
            final(self).next_id == old(self).next_id,
    {
        let RawHandle { id } = h;
        self.destroy_log.push(id);
    }

    /// How many times the object with identity `id` has been destroyed.
    pub fn destroy_count(&self, id: u64) -> (r: usize)
        ensures
            r == count_of(self.destroy_log@, id),
    {
        let log = &self.destroy_log;
        let mut cnt: usize = 0;
        let mut i: usize = 0;
        proof {
            assert(log@.take(0) =~= Seq::<u64>::empty());
        }
        while i < log.len()
            invariant
                0 <= i <= log@.len(),
                cnt <= i,
                cnt == count_of(log@.take(i as int), id),
            decreases log@.len() - i,
        {
            proof {
                assert(log@.take(i + 1).drop_last() =~= log@.take(i as int));
                assert(log@.take(i + 1).last() == log@[i as int]);
            }
            if log[i] == id {
                cnt += 1;
            }
            i += 1;
        }
        proof {
            assert(log@.take(log@.len() as int) =~= log@);
        }
        cnt
    }
}

} // verus!
