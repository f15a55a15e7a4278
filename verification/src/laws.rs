//! The laws of the ownership-transfer protocol, proved from the transition
//! contracts of the send and receive sides.

use vstd::prelude::*;

use crate::codec::Envelope;
use crate::codec::WorkItem;
use crate::host::HostTransport;
use crate::schedule::Schedule;
use crate::schedule::schedule_transition;
use crate::status::WORK_ERR_UNKNOWN;
use crate::status::WorkerError;
use crate::worker::Worker;
use crate::worker::WorkerDescriptor;
use crate::worker::delivery_rejected;
use crate::worker::work_response_transition;
use crate::worker::work_transition;

verus! {

/// Scheduling a value and then delivering the exact emitted byte view to
/// the worker entry point results in exactly one destructor execution for
/// that value across both call sites — and that one execution never trips
/// the value's over-drop guard, whatever duplicate tolerance it carries.
pub proof fn lemma_transfer_destructs_exactly_once<P: Worker>(
    s: Schedule,
    h0: HostTransport,
    h1: HostTransport,
    h2: HostTransport,
    d0: WorkerDescriptor<P>,
    d1: WorkerDescriptor<P>,
    item: WorkItem,
    r: Result<(), WorkerError>,
    env: Envelope,
    size: usize,
    status: u32,
)
    requires
        schedule_transition(s, h0, h1, item, r),
        r is Ok,
        env == h1.spec_work_queue().last(),
        size as int == env.bytes@.len() as int,
        work_transition(d0, d1, h1, h2, d0.spec_handle(), size, env, status),
    ensures
        h2.spec_drops(h0.spec_value_count()) == 1,
        !h2.spec_over_dropped(h0.spec_value_count()),
{
}

/// When the host supplied no enqueue function, scheduling fails with
/// `Unknown`, nothing enters the work queue, and the value's destructor
/// still runs exactly once — on the caller's own side; not zero times and
/// not twice.
pub proof fn lemma_absent_enqueue_destructs_in_caller(
    s: Schedule,
    h0: HostTransport,
    h1: HostTransport,
    item: WorkItem,
    r: Result<(), WorkerError>,
)
    requires
        !s.spec_present(),
        schedule_transition(s, h0, h1, item, r),
    ensures
        r == Err::<(), WorkerError>(WorkerError::Unknown),
        h1.spec_drops(h0.spec_value_count()) == 1,
        !h1.spec_over_dropped(h0.spec_value_count()),
        h1.spec_work_queue() == h0.spec_work_queue(),
{
}

/// The response direction of the same discipline: a response accepted into
/// the transport during a work invocation and later delivered back with
/// its exact byte view is destructed exactly once across both sides, and
/// its over-drop guard never trips.
pub proof fn lemma_response_transfer_destructs_exactly_once<P: Worker>(
    d0: WorkerDescriptor<P>,
    d1: WorkerDescriptor<P>,
    d2: WorkerDescriptor<P>,
    h0: HostTransport,
    h1: HostTransport,
    h2: HostTransport,
    handle: usize,
    size: usize,
    data: Envelope,
    status1: u32,
    j: int,
    env: Envelope,
    response_size: usize,
    status2: u32,
)
    requires
        work_transition(d0, d1, h0, h1, handle, size, data, status1),
        !delivery_rejected(d0, h0, handle, size, data),
        h0.spec_response_queue().len() <= j < h1.spec_response_queue().len(),
        env == h1.spec_response_queue()[j],
        response_size as int == env.bytes@.len() as int,
        work_response_transition(d1, d2, h1, h2, d1.spec_handle(), response_size, env, status2),
    ensures
        h2.spec_drops(env.token as int) == 1,
        !h2.spec_over_dropped(env.token as int),
{
}

/// A delivery whose size differs from the exact size of the transported
/// byte view is rejected with the unknown-error status, and user work logic
/// is not invoked: the instance, the ledger, the queues and the event trace
/// all stay exactly as they were.
pub proof fn lemma_size_mismatch_rejects_delivery<P: Worker>(
    d0: WorkerDescriptor<P>,
    d1: WorkerDescriptor<P>,
    h0: HostTransport,
    h1: HostTransport,
    handle: usize,
    size: usize,
    data: Envelope,
    status: u32,
)
    requires
        size as int != data.bytes@.len() as int,
        work_transition(d0, d1, h0, h1, handle, size, data, status),
    ensures
        status == WORK_ERR_UNKNOWN,
        d1 == d0,
        h1 == h0,
{
}

} // verus!
