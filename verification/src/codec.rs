//! The ownership-transfer codec: values, their inert byte views, and the
//! ledger that accounts for every destructor execution.
//!
//! The transport has no notion of types. A value crosses it as an exact byte
//! view of its representation together with the view's size; the receiving
//! side reconstructs an owned value from an equivalent byte pattern. The
//! model makes that discipline explicit: a value is identified with its
//! representation, sealing it into an [`Envelope`] suspends its destructor,
//! and a [`DropLedger`] records each destructor execution that the protocol
//! is accountable for. A correctly transferred value is destructed exactly
//! once; every further destruction of the same value is a duplicate, and a
//! value tolerates only as many duplicates as its `drop_limit` allows before
//! its over-drop guard trips.

use vstd::prelude::*;

verus! {

/// An owned work value on its way from the real-time side to the worker
/// side. The value is identified with its in-memory representation.
pub struct WorkItem {
    /// The exact byte representation of the value.
    pub bytes: Vec<u8>,
    /// How many duplicate destructions the value tolerates beyond the single
    /// one that a correct transfer performs.
    pub drop_limit: u32,
}

/// An owned response value on its way back from the worker side to the
/// real-time side; symmetric to [`WorkItem`].
pub struct ResponseItem {
    /// The exact byte representation of the value.
    pub bytes: Vec<u8>,
    /// How many duplicate destructions the value tolerates beyond the single
    /// one that a correct transfer performs.
    pub drop_limit: u32,
}

/// The inert byte view of a value whose destructor is suspended while the
/// host owns the transported bytes. The token names the value in the
/// [`DropLedger`]; it stands for the identity that the bytes themselves
/// carry in a shared address space.
pub struct Envelope {
    /// The ledger token of the suspended value.
    pub token: usize,
    /// The exact size of the byte view, as handed to the host beside it.
    pub size: usize,
    /// The byte view itself.
    pub bytes: Vec<u8>,
    /// The tolerated duplicate destructions, carried in the representation.
    pub drop_limit: u32,
}

/// Saturating increment: the ledger never wraps a destructor count around.
pub open spec fn sat_inc(d: u32) -> u32 {
    if d == u32::MAX {
        d
    } else {
        (d + 1) as u32
    }
}

/// The destructor ledger: for every value that entered the transport, how
/// many destructor executions the protocol has recorded for it, and how many
/// duplicates the value tolerates.
pub struct DropLedger {
    counts: Vec<u32>,
    limits: Vec<u32>,
}

impl DropLedger {
    /// The recorded destructor executions, one entry per registered value.
    pub closed spec fn spec_counts(self) -> Seq<u32> {
        self.counts@
    }

    /// The tolerated duplicate destructions, one entry per registered value.
    pub closed spec fn spec_limits(self) -> Seq<u32> {
        self.limits@
    }

    /// One count and one limit per registered value.
    pub open spec fn wf(self) -> bool {
        self.spec_counts().len() == self.spec_limits().len()
    }

    /// How many values have been registered.
    pub open spec fn spec_len(self) -> int {
        self.spec_counts().len() as int
    }

    /// The destructor executions recorded for value `t`.
    pub open spec fn spec_drops(self, t: int) -> u32
        recommends
            0 <= t < self.spec_len(),
    {
        self.spec_counts()[t]
    }

    /// The duplicate destructions tolerated by value `t`.
    pub open spec fn spec_limit(self, t: int) -> u32
        recommends
            0 <= t < self.spec_len(),
    {
        self.spec_limits()[t]
    }

    /// Whether the over-drop guard of value `t` has tripped: the value was
    /// destructed more than once, and more often than its limit tolerates.
    pub open spec fn spec_over_dropped(self, t: int) -> bool {
        &&& 0 <= t < self.spec_len()
        &&& self.spec_drops(t) as int > self.spec_limit(t) as int + 1
    }

    /// An empty ledger: no value has entered the transport yet.
    pub fn new() -> (ledger: DropLedger)
        ensures
            ledger.wf(),
            ledger.spec_len() == 0,
    {
        DropLedger { counts: Vec::new(), limits: Vec::new() }
    }

    /// Registers a value that is about to enter the transport: its
    /// destructor is suspended, so no execution is recorded yet.
    pub fn register(&mut self, limit: u32) -> (t: usize)
        requires
            old(self).wf(),
        ensures
            final(self).wf(),
            t as int == old(self).spec_len(),
            final(self).spec_counts() == old(self).spec_counts().push(0u32),
            final(self).spec_limits() == old(self).spec_limits().push(limit),
    {
        let t: usize = self.counts.len();
        self.counts.push(0);
        self.limits.push(limit);
        t
    }

    /// Records one destructor execution for value `t`.
    pub fn record(&mut self, t: usize)
        requires
            old(self).wf(),
            (t as int) < old(self).spec_len(),
        ensures
            final(self).wf(),
            final(self).spec_counts() == old(self).spec_counts().update(
                t as int,
                sat_inc(old(self).spec_drops(t as int)),
            ),
            final(self).spec_limits() == old(self).spec_limits(),
    {
        let d: u32 = self.counts[t];
        if d < u32::MAX {
            self.counts[t] = d + 1;
        } else {
            proof {
                assert(self.counts@ =~= self.counts@.update(t as int, sat_inc(d)));
            }
        }
    }

    /// How many values have been registered.
    pub fn len(&self) -> (n: usize)
        ensures
            n as int == self.spec_len(),
    {
        self.counts.len()
    }

    /// The destructor executions recorded for value `t`, or zero for a token
    /// that names no registered value.
    pub fn drops_recorded(&self, t: usize) -> (d: u32)
        requires
            self.wf(),
        ensures
            d == if (t as int) < self.spec_len() {
                self.spec_drops(t as int)
            } else {
                0u32
            },
    {
        if t < self.counts.len() {
            self.counts[t]
        } else {
            0
        }
    }

    /// Whether the over-drop guard of value `t` has tripped.
    pub fn over_dropped(&self, t: usize) -> (b: bool)
        requires
            self.wf(),
        ensures
            b == self.spec_over_dropped(t as int),
    {
        if t < self.counts.len() {
            let d: u32 = self.counts[t];
            let l: u32 = self.limits[t];
            d >= 1 && d - 1 > l
        } else {
            false
        }
    }
}

/// Copies a byte representation. The receiving side reconstructs an owned
/// value from the host's bytes without taking the host's buffer.
pub fn copy_bytes(src: &Vec<u8>) -> (r: Vec<u8>)
    ensures
        r@ == src@,
{
    let mut r: Vec<u8> = Vec::new();
    let mut i: usize = 0;
    while i < src.len()
        invariant
            i <= src@.len(),
            r@ == src@.subrange(0, i as int),
        decreases src@.len() - i,
    {
        r.push(src[i]);
        i = i + 1;
    }
    assert(src@.subrange(0, src@.len() as int) =~= src@);
    r
}

} // verus!
