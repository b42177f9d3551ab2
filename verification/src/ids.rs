//! Generator of request identifiers: a process-wide counter that hands out
//! 1, 2, 3, ... in order, so that every outgoing command (and every scratch
//! file named after one) carries an identifier that is unique for the
//! lifetime of the process.

use vstd::prelude::*;

verus! {

pub struct IdGen {
    next: u64,
}

impl IdGen {
    /// The identifier the next call of `get_id` will return.
    pub closed spec fn counter(self) -> u64 {
        self.next
    }

    pub open spec fn wf(self) -> bool {
        self.counter() >= 1
    }

    /// A fresh generator: its first identifier is 1.
    pub fn new() -> (g: IdGen)
        ensures
            g.counter() == 1,
            g.wf(),
    {
        IdGen { next: 1 }
    }

    /// The identifier the next call of `get_id` will return, without
    /// advancing anything.
    pub fn peek(&self) -> (r: u64)
        ensures
            r == self.counter(),
    {
        self.next
    }

    /// Hand out the current identifier and advance the counter by exactly one.
    pub fn get_id(&mut self) -> (r: u64)
        requires
            old(self).wf(),
            old(self).counter() < u64::MAX,
        ensures
            gen_step(*old(self), *final(self), r),
            final(self).wf(),
    {
        let r = self.next;
        self.next = self.next + 1;
        r
    }
}

/// One call of `get_id`: it returns the counter and advances it by one.
pub open spec fn gen_step(pre: IdGen, post: IdGen, r: u64) -> bool {
    &&& r == pre.counter()
    &&& post.counter() == pre.counter() + 1
}

proof fn lemma_counter_advance(states: Seq<IdGen>, rs: Seq<u64>, i: int, j: int)
    requires
        states.len() == rs.len() + 1,
        forall|k: int| 0 <= k < rs.len() ==> #[trigger] gen_step(states[k], states[k + 1], rs[k]),
        0 <= i <= j <= rs.len(),
    ensures
        states[j].counter() == states[i].counter() + (j - i),
    decreases j - i,
{
    if i < j {
        lemma_counter_advance(states, rs, i, j - 1);
        let k = j - 1;
        assert(gen_step(states[k], states[k + 1], rs[k]));
    }
}

/// Law: across any run of successive `get_id` calls, the returned
/// identifiers are strictly increasing, so none repeats within one
/// process lifetime.
pub proof fn lemma_ids_strictly_increasing(states: Seq<IdGen>, rs: Seq<u64>)
    requires
        states.len() == rs.len() + 1,
        forall|k: int| 0 <= k < rs.len() ==> #[trigger] gen_step(states[k], states[k + 1], rs[k]),
    ensures
        forall|i: int, j: int| 0 <= i < j < rs.len() ==> rs[i] < rs[j],
{
    assert forall|i: int, j: int| 0 <= i < j < rs.len() implies rs[i] < rs[j] by {
        lemma_counter_advance(states, rs, i, j);
        let ki = i;
        let kj = j;
        assert(gen_step(states[ki], states[ki + 1], rs[ki]));
        assert(gen_step(states[kj], states[kj + 1], rs[kj]));
    };
}

} // verus!
