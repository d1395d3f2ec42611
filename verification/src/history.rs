//! Fixed-capacity rolling history of throughput samples.
//!
//! The buffer always holds exactly [`HISTORY_CAPACITY`] samples, oldest
//! first; a push evicts the oldest sample and appends the new one. It is
//! a ring: a vector of fixed length with a cursor, so a push writes one
//! cell and advances the cursor instead of shifting the whole vector.

use vstd::prelude::*;

verus! {

/// Number of samples the rolling history holds at all times.
pub const HISTORY_CAPACITY: usize = 20;

/// One push, seen abstractly: the oldest sample leaves, `v` enters.
pub open spec fn shifted(s: Seq<u64>, v: u64) -> Seq<u64> {
    s.drop_first().push(v)
}

/// The buffer contents after pushing every element of `vs` in order,
/// starting from contents `init`.
pub open spec fn after_pushes(init: Seq<u64>, vs: Seq<u64>) -> Seq<u64>
    decreases vs.len(),
{
    if vs.len() == 0 {
        init
    } else {
        shifted(after_pushes(init, vs.drop_last()), vs.last())
    }
}

/// Fixed-capacity FIFO buffer of `u64` samples, oldest first.
pub struct RollingBuffer {
    slots: Vec<u64>,
    start: usize,
}

impl View for RollingBuffer {
    type V = Seq<u64>;

    /// The samples in order, oldest first.
    closed spec fn view(&self) -> Seq<u64> {
        self.slots@.subrange(self.start as int, self.slots@.len() as int)
            + self.slots@.subrange(0, self.start as int)
    }
}

impl RollingBuffer {
    /// The ring is a vector of exactly `HISTORY_CAPACITY` cells with the
    /// read cursor inside it.
    pub closed spec fn wf(&self) -> bool {
        &&& self.slots@.len() == HISTORY_CAPACITY
        &&& self.start < HISTORY_CAPACITY
    }

    /// A fresh history: every sample is the sentinel `0`.
    pub fn new() -> (r: RollingBuffer)
        ensures
            r.wf(),
            r@ == Seq::new(HISTORY_CAPACITY as nat, |i: int| 0u64),
    {
        let mut slots: Vec<u64> = Vec::new();
        while slots.len() < HISTORY_CAPACITY
            invariant
                slots@.len() <= HISTORY_CAPACITY,
                forall|i: int| 0 <= i < slots@.len() ==> slots@[i] == 0u64,
            decreases HISTORY_CAPACITY - slots@.len(),
        {
            slots.push(0u64);
        }
        let r = RollingBuffer { slots, start: 0 };
        proof {
            assert(r@ =~= Seq::new(HISTORY_CAPACITY as nat, |i: int| 0u64));
        }
        r
    }

    /// Runtime check of the structural invariant, for callers outside
    /// the verifier's reach.
    pub fn well_formed(&self) -> (b: bool)
        ensures
            b == self.wf(),
    {
        self.slots.len() == HISTORY_CAPACITY && self.start < HISTORY_CAPACITY
    }

    /// Number of samples held; always the full capacity.
    pub fn len(&self) -> (n: usize)
        requires
            self.wf(),
        ensures
            n == self@.len(),
            n == HISTORY_CAPACITY,
    {
        self.slots.len()
    }

    /// Evict the oldest sample and append `v`.
    pub fn push(&mut self, v: u64)
        requires
            old(self).wf(),
        ensures
            final(self).wf(),
            final(self)@ == shifted(old(self)@, v),
    {
        let idx = self.start;
        self.slots.set(idx, v);
        self.start = if idx + 1 == HISTORY_CAPACITY {
            0
        } else {
            idx + 1
        };
        proof {
            assert(self@ =~= shifted(old(self)@, v));
        }
    }

    /// The samples as a plain vector, oldest first.
    pub fn to_vec(&self) -> (r: Vec<u64>)
        requires
            self.wf(),
        ensures
            r@ == self@,
    {
        let mut r: Vec<u64> = Vec::new();
        let mut i: usize = self.start;
        while i < HISTORY_CAPACITY
            invariant
                self.wf(),
                self.start <= i <= HISTORY_CAPACITY,
                r@ == self.slots@.subrange(self.start as int, i as int),
            decreases HISTORY_CAPACITY - i,
        {
            let x = self.slots[i];
            r.push(x);
            i += 1;
        }
        let mut j: usize = 0;
        while j < self.start
            invariant
                self.wf(),
                j <= self.start,
                r@ == self.slots@.subrange(self.start as int, self.slots@.len() as int)
                    + self.slots@.subrange(0, j as int),
            decreases self.start - j,
        {
            let x = self.slots[j];
            r.push(x);
            j += 1;
        }
        proof {
            assert(r@ =~= self@);
        }
        r
    }

    /// A fresh buffer holding the same samples in the same order.
    pub fn duplicate(&self) -> (r: RollingBuffer)
        requires
            self.wf(),
        ensures
            r.wf(),
            r@ == self@,
    {
        let slots = self.to_vec();
        let r = RollingBuffer { slots, start: 0 };
        proof {
            assert(r@ =~= self@);
        }
        r
    }
}

/// The rolling-window law: whatever the starting contents, the buffer
/// always holds exactly `HISTORY_CAPACITY` samples, and once at least
/// `HISTORY_CAPACITY` values have been pushed it holds exactly the most
/// recent `HISTORY_CAPACITY` of them, in push order.
pub proof fn lemma_rolling_window(init: Seq<u64>, vs: Seq<u64>)
    requires
        init.len() == HISTORY_CAPACITY,
    ensures
        after_pushes(init, vs).len() == HISTORY_CAPACITY,
        after_pushes(init, vs) == (init + vs).subrange(
            vs.len() as int,
            vs.len() + HISTORY_CAPACITY as int,
        ),
        vs.len() >= HISTORY_CAPACITY ==> after_pushes(init, vs) == vs.subrange(
            vs.len() - HISTORY_CAPACITY as int,
            vs.len() as int,
        ),
    decreases vs.len(),
{
    if vs.len() == 0 {
        assert(after_pushes(init, vs) =~= (init + vs).subrange(
            0int,
            HISTORY_CAPACITY as int,
        ));
    } else {
        let prev = vs.drop_last();
        lemma_rolling_window(init, prev);
        assert(shifted(after_pushes(init, prev), vs.last()) =~= (init + vs).subrange(
            vs.len() as int,
            vs.len() + HISTORY_CAPACITY as int,
        ));
        if vs.len() >= HISTORY_CAPACITY {
            assert((init + vs).subrange(vs.len() as int, vs.len() + HISTORY_CAPACITY as int)
                =~= vs.subrange(vs.len() - HISTORY_CAPACITY as int, vs.len() as int));
        }
    }
}

} // verus!
