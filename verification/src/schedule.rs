//! The real-time-side requester: hands a work value to the host's transport.
//!
//! `schedule_work` runs in the periodic real-time context. It seals the
//! value into an envelope, offers the envelope to the host's enqueue
//! capability, and reports the host's status to the caller. On success the
//! value's destructor stays suspended: the host owes exactly one future
//! delivery of an equivalent byte pattern to the worker side. On failure the
//! value never leaves the caller's side and is destructed there, exactly
//! once.

use vstd::prelude::*;

use crate::codec::Envelope;
use crate::codec::WorkItem;
use crate::host::HostTransport;
use crate::status::WorkerError;

verus! {

/// The host capability for scheduling work: present when the host supplied
/// an enqueue function, absent otherwise.
pub struct Schedule {
    present: bool,
}

/// What one `schedule_work` call does to the host: the value is registered
/// in the ledger under the next token; when the enqueue capability is
/// absent the call fails with `Unknown` and the value is destructed on the
/// caller's side; when the transport buffer is full it fails with `NoSpace`,
/// likewise destructing the value; otherwise the sealed envelope joins the
/// work queue with the value's destructor suspended.
pub open spec fn schedule_transition(
    s: Schedule,
    h0: HostTransport,
    h1: HostTransport,
    item: WorkItem,
    r: Result<(), WorkerError>,
) -> bool {
    let t = h0.spec_value_count();
    &&& h1.spec_capacity() == h0.spec_capacity()
    &&& h1.spec_value_count() == t + 1
    &&& forall|i: int|
        0 <= i < t ==> h1.spec_drops(i) == h0.spec_drops(i) && h1.spec_limit(i) == h0.spec_limit(i)
    &&& h1.spec_limit(t) == item.drop_limit
    &&& h1.spec_events() == h0.spec_events()
    &&& h1.spec_response_queue() == h0.spec_response_queue()
    &&& if !s.spec_present() {
        &&& r == Err::<(), WorkerError>(WorkerError::Unknown)
        &&& h1.spec_drops(t) == 1
        &&& h1.spec_work_queue() == h0.spec_work_queue()
    } else if h0.spec_work_queue().len() as int >= h0.spec_capacity() as int {
        &&& r == Err::<(), WorkerError>(WorkerError::NoSpace)
        &&& h1.spec_drops(t) == 1
        &&& h1.spec_work_queue() == h0.spec_work_queue()
    } else {
        &&& r == Ok::<(), WorkerError>(())
        &&& h1.spec_drops(t) == 0
        &&& h1.spec_work_queue().len() == h0.spec_work_queue().len() + 1
        &&& h1.spec_work_queue().subrange(0, h0.spec_work_queue().len() as int)
            == h0.spec_work_queue()
        &&& h1.spec_work_queue().last().token as int == t
        &&& h1.spec_work_queue().last().size as int == item.bytes@.len() as int
        &&& h1.spec_work_queue().last().bytes@ == item.bytes@
        &&& h1.spec_work_queue().last().drop_limit == item.drop_limit
    }
}

impl Schedule {
    /// Whether the host supplied an enqueue function.
    pub closed spec fn spec_present(self) -> bool {
        self.present
    }

    /// A schedule capability as the host handed it over: with or without an
    /// enqueue function.
    pub fn new(present: bool) -> (s: Schedule)
        ensures
            s.spec_present() == present,
    {
        Schedule { present }
    }

    /// Requests that the host call the worker side with the given value.
    ///
    /// This never blocks: it either hands the sealed value to the host and
    /// succeeds, or fails at once with `Unknown` (no enqueue capability) or
    /// `NoSpace` (transport buffer full). Exactly one destructor execution
    /// is accounted for the value on failure, and none yet on success: the
    /// suspended value is then owed to the worker side.
    pub fn schedule_work(&self, host: &mut HostTransport, item: WorkItem) -> (r: Result<
        (),
        WorkerError,
    >)
        requires
            old(host).wf(),
        ensures
            final(host).wf(),
            schedule_transition(*self, *old(host), *final(host), item, r),
    {
        let token: usize = host.register_value(item.drop_limit);
        if !self.present {
            host.record_destruction(token);
            return Err(WorkerError::Unknown);
        }
        if !host.has_work_space() {
            host.record_destruction(token);
            return Err(WorkerError::NoSpace);
        }
        let size: usize = item.bytes.len();
        let env = Envelope { token, size, bytes: item.bytes, drop_limit: item.drop_limit };
        host.enqueue_work(env);
        proof {
            assert(host.spec_work_queue().subrange(0, old(host).spec_work_queue().len() as int)
                =~= old(host).spec_work_queue());
        }
        Ok(())
    }
}

} // verus!
