//! The receive side of the protocol: the worker entry point, the response
//! emitter handed to user logic, and the response and end-of-cycle entry
//! points on the real-time side.
//!
//! The host calls the three entry points of a [`WorkerDescriptor`] with an
//! opaque handle, a size, and a byte view. Each entry point validates the
//! handle against the instance it was registered for, verifies that the
//! size equals the exact size of the transported representation, and only
//! then reconstructs an owned value and invokes user logic. A failed
//! validation returns the unknown-error status and leaves every piece of
//! state untouched: user logic is not invoked.

use vstd::prelude::*;

use crate::codec::Envelope;
use crate::codec::ResponseItem;
use crate::codec::WorkItem;
use crate::codec::copy_bytes;
use crate::codec::sat_inc;
use crate::host::Event;
use crate::host::HostTransport;
use crate::status::WORK_ERR_NO_SPACE;
use crate::status::WORK_ERR_UNKNOWN;
use crate::status::WORK_SUCCESS;
use crate::status::WorkerError;
use crate::status::result_to_status;

verus! {

/// The response emitter handed to user work logic for the duration of one
/// `work` invocation. It holds the respond capability the host supplied for
/// this call and collects every response the user sends: accepted ones,
/// whose destructors stay suspended until delivery, and rejected ones,
/// destructed in the emitter's own scope.
pub struct ResponseHandler {
    present: bool,
    slots: usize,
    accepted: Vec<ResponseItem>,
    rejected: Vec<ResponseItem>,
}

/// What one `respond` call does to the emitter: with no respond capability
/// the call fails with `Unknown`; with no free transport slot it fails with
/// `NoSpace`; in both failure cases the value is destructed on the sending
/// side. Otherwise the value is accepted and its destructor suspended.
pub open spec fn respond_transition(
    rh0: ResponseHandler,
    rh1: ResponseHandler,
    item: ResponseItem,
    r: Result<(), WorkerError>,
) -> bool {
    &&& rh1.spec_present() == rh0.spec_present()
    &&& rh1.spec_slots() == rh0.spec_slots()
    &&& if !rh0.spec_present() {
        &&& r == Err::<(), WorkerError>(WorkerError::Unknown)
        &&& rh1.spec_accepted() == rh0.spec_accepted()
        &&& rh1.spec_rejected() == rh0.spec_rejected().push(item)
    } else if rh0.spec_accepted().len() as int >= rh0.spec_slots() as int {
        &&& r == Err::<(), WorkerError>(WorkerError::NoSpace)
        &&& rh1.spec_accepted() == rh0.spec_accepted()
        &&& rh1.spec_rejected() == rh0.spec_rejected().push(item)
    } else {
        &&& r == Ok::<(), WorkerError>(())
        &&& rh1.spec_accepted() == rh0.spec_accepted().push(item)
        &&& rh1.spec_rejected() == rh0.spec_rejected()
    }
}

impl ResponseHandler {
    /// Whether the host supplied a respond function for this invocation.
    pub closed spec fn spec_present(self) -> bool {
        self.present
    }

    /// How many responses the transport can still accept.
    pub closed spec fn spec_slots(self) -> usize {
        self.slots
    }

    /// The responses accepted so far, oldest first.
    pub closed spec fn spec_accepted(self) -> Seq<ResponseItem> {
        self.accepted@
    }

    /// The responses rejected so far, oldest first.
    pub closed spec fn spec_rejected(self) -> Seq<ResponseItem> {
        self.rejected@
    }

    /// An emitter for one `work` invocation, with the respond capability the
    /// host supplied and the free transport slots it granted.
    pub fn new(present: bool, slots: usize) -> (rh: ResponseHandler)
        ensures
            rh.spec_present() == present,
            rh.spec_slots() == slots,
            rh.spec_accepted() == Seq::<ResponseItem>::empty(),
            rh.spec_rejected() == Seq::<ResponseItem>::empty(),
    {
        ResponseHandler { present, slots, accepted: Vec::new(), rejected: Vec::new() }
    }

    /// Sends a response back to the real-time side.
    ///
    /// Each call enqueues an independent response; the protocol does not
    /// prevent zero or several calls per work invocation. A failed send
    /// destructs the value on this side, exactly once.
    pub fn respond(&mut self, item: ResponseItem) -> (r: Result<(), WorkerError>)
        ensures
            respond_transition(*old(self), *final(self), item, r),
    {
        if !self.present {
            self.rejected.push(item);
            return Err(WorkerError::Unknown);
        }
        if self.accepted.len() >= self.slots {
            self.rejected.push(item);
            return Err(WorkerError::NoSpace);
        }
        self.accepted.push(item);
        Ok(())
    }

    /// How many responses have been accepted.
    pub fn accepted_count(&self) -> (n: usize)
        ensures
            n as int == self.spec_accepted().len() as int,
    {
        self.accepted.len()
    }

    /// How many responses have been rejected.
    pub fn rejected_count(&self) -> (n: usize)
        ensures
            n as int == self.spec_rejected().len() as int,
    {
        self.rejected.len()
    }
}

/// User logic of a worker-capable plugin. The host never calls these
/// methods directly; it calls the entry points of [`WorkerDescriptor`],
/// which validate and reconstruct before they invoke user logic.
pub trait Worker {
    /// The work to do in a non-real-time context. A response can be sent to
    /// the real-time side through the response handler. The host makes no
    /// guarantee about which thread runs this, only that calls for one
    /// instance are never concurrent with each other.
    fn work(&mut self, response_handler: &mut ResponseHandler, data: WorkItem) -> Result<
        (),
        WorkerError,
    >;

    /// Handles a response from the worker; called in the real-time context
    /// when a response is ready.
    fn work_response(&mut self, _data: ResponseItem) -> Result<(), WorkerError> {
        Ok(())
    }

    /// Called once per cycle, after all responses for the cycle have been
    /// delivered.
    fn end_run(&mut self) -> Result<(), WorkerError> {
        Ok(())
    }
}

/// The capability table registered for one plugin instance and one pairing
/// of work and response types: the three entry points the host calls, bound
/// to the instance that owns them.
pub struct WorkerDescriptor<P: Worker> {
    plugin: P,
    handle: usize,
}

/// An entry point rejects a delivery when the handle does not resolve to
/// the registered instance, when the passed size differs from the exact
/// size of the transported byte view, or when the token names no value the
/// ledger knows.
pub open spec fn delivery_rejected<P: Worker>(
    d: WorkerDescriptor<P>,
    h: HostTransport,
    handle: usize,
    size: usize,
    data: Envelope,
) -> bool {
    ||| handle != d.spec_handle()
    ||| size as int != data.bytes@.len() as int
    ||| data.token as int >= h.spec_value_count()
}

/// What one `work` call does. A rejected delivery returns the unknown-error
/// status and changes nothing: user logic is not invoked. An accepted one
/// records exactly one destructor execution for the reconstructed value,
/// appends the work invocation to the event trace, and then lets user logic
/// run: whatever that logic does, it can only add fresh response values
/// (each destructed at most once so far) and their events to the trace.
pub open spec fn work_transition<P: Worker>(
    d0: WorkerDescriptor<P>,
    d1: WorkerDescriptor<P>,
    h0: HostTransport,
    h1: HostTransport,
    handle: usize,
    size: usize,
    data: Envelope,
    status: u32,
) -> bool {
    if delivery_rejected(d0, h0, handle, size, data) {
        &&& status == WORK_ERR_UNKNOWN
        &&& d1 == d0
        &&& h1 == h0
    } else {
        let t = data.token as int;
        &&& d1.spec_handle() == d0.spec_handle()
        &&& h1.spec_capacity() == h0.spec_capacity()
        &&& h1.spec_value_count() >= h0.spec_value_count()
        &&& h1.spec_drops(t) == sat_inc(h0.spec_drops(t))
        &&& h1.spec_limit(t) == h0.spec_limit(t)
        &&& forall|i: int|
            0 <= i < h0.spec_value_count() && i != t ==> h1.spec_drops(i) == h0.spec_drops(i)
                && h1.spec_limit(i) == h0.spec_limit(i)
        &&& forall|i: int|
            h0.spec_value_count() <= i < h1.spec_value_count() ==> h1.spec_drops(i) <= 1
        &&& h1.spec_work_queue() == h0.spec_work_queue()
        &&& h0.spec_response_queue().is_prefix_of(h1.spec_response_queue())
        &&& forall|j: int|
            h0.spec_response_queue().len() <= j < h1.spec_response_queue().len() ==> {
                let e = #[trigger] h1.spec_response_queue()[j];
                &&& e.size as int == e.bytes@.len() as int
                &&& h0.spec_value_count() <= (e.token as int) < h1.spec_value_count()
                &&& h1.spec_drops(e.token as int) == 0
            }
        &&& h0.spec_events().is_prefix_of(h1.spec_events())
        &&& h1.spec_events().len() > h0.spec_events().len()
        &&& h1.spec_events()[h0.spec_events().len() as int] == (Event::WorkInvoked {
            token: data.token,
        })
        &&& forall|j: int|
            h0.spec_events().len() < j < h1.spec_events().len()
                ==> (#[trigger] h1.spec_events()[j]) is Responded
        &&& (status == WORK_SUCCESS || status == WORK_ERR_UNKNOWN || status == WORK_ERR_NO_SPACE)
    }
}

/// What one `work_response` call does. A rejected delivery returns the
/// unknown-error status and changes nothing: user logic is not invoked. An
/// accepted one records exactly one destructor execution for the
/// reconstructed response, appends the invocation to the event trace, and
/// invokes user response logic, which touches no host state.
pub open spec fn work_response_transition<P: Worker>(
    d0: WorkerDescriptor<P>,
    d1: WorkerDescriptor<P>,
    h0: HostTransport,
    h1: HostTransport,
    handle: usize,
    size: usize,
    data: Envelope,
    status: u32,
) -> bool {
    if delivery_rejected(d0, h0, handle, size, data) {
        &&& status == WORK_ERR_UNKNOWN
        &&& d1 == d0
        &&& h1 == h0
    } else {
        let t = data.token as int;
        &&& d1.spec_handle() == d0.spec_handle()
        &&& h1.spec_capacity() == h0.spec_capacity()
        &&& h1.spec_value_count() == h0.spec_value_count()
        &&& h1.spec_drops(t) == sat_inc(h0.spec_drops(t))
        &&& forall|i: int|
            0 <= i < h0.spec_value_count() && i != t ==> h1.spec_drops(i) == h0.spec_drops(i)
        &&& forall|i: int|
            0 <= i < h0.spec_value_count() ==> h1.spec_limit(i) == h0.spec_limit(i)
        &&& h1.spec_work_queue() == h0.spec_work_queue()
        &&& h1.spec_response_queue() == h0.spec_response_queue()
        &&& h1.spec_events() == h0.spec_events().push(
            Event::WorkResponseInvoked { token: data.token },
        )
        &&& (status == WORK_SUCCESS || status == WORK_ERR_UNKNOWN || status == WORK_ERR_NO_SPACE)
    }
}

/// What one `end_run` call does: with a good handle it appends the
/// end-of-cycle signal to the event trace and invokes user logic; with a
/// bad one it returns the unknown-error status and changes nothing.
pub open spec fn end_run_transition<P: Worker>(
    d0: WorkerDescriptor<P>,
    d1: WorkerDescriptor<P>,
    h0: HostTransport,
    h1: HostTransport,
    handle: usize,
    status: u32,
) -> bool {
    if handle != d0.spec_handle() {
        &&& status == WORK_ERR_UNKNOWN
        &&& d1 == d0
        &&& h1 == h0
    } else {
        &&& d1.spec_handle() == d0.spec_handle()
        &&& h1.spec_capacity() == h0.spec_capacity()
        &&& h1.spec_value_count() == h0.spec_value_count()
        &&& forall|i: int|
            0 <= i < h0.spec_value_count() ==> h1.spec_drops(i) == h0.spec_drops(i)
                && h1.spec_limit(i) == h0.spec_limit(i)
        &&& h1.spec_work_queue() == h0.spec_work_queue()
        &&& h1.spec_response_queue() == h0.spec_response_queue()
        &&& h1.spec_events() == h0.spec_events().push(Event::EndRunInvoked)
        &&& (status == WORK_SUCCESS || status == WORK_ERR_UNKNOWN || status == WORK_ERR_NO_SPACE)
    }
}

/// Folds the responses a work invocation produced into the host: accepted
/// ones are registered suspended and sealed into the response queue, with
/// their events appended to the trace; rejected ones are registered with
/// their one destruction on the sending side.
fn merge_responses(host: &mut HostTransport, rh: ResponseHandler)
    requires
        old(host).wf(),
    ensures
        final(host).wf(),
        final(host).spec_capacity() == old(host).spec_capacity(),
        final(host).spec_work_queue() == old(host).spec_work_queue(),
        final(host).spec_drop_counts() == old(host).spec_drop_counts() + Seq::new(
            rh.spec_accepted().len(),
            |q: int| 0u32,
        ) + Seq::new(rh.spec_rejected().len(), |q: int| 1u32),
        final(host).spec_drop_limits() == old(host).spec_drop_limits() + rh.spec_accepted()
            .map_values(|it: ResponseItem| it.drop_limit) + rh.spec_rejected().map_values(
            |it: ResponseItem| it.drop_limit,
        ),
        final(host).spec_events() == old(host).spec_events() + Seq::new(
            rh.spec_accepted().len(),
            |q: int| Event::Responded { token: (old(host).spec_value_count() + q) as usize },
        ),
        old(host).spec_response_queue().is_prefix_of(final(host).spec_response_queue()),
        final(host).spec_response_queue().len() == old(host).spec_response_queue().len()
            + rh.spec_accepted().len(),
        forall|j: int|
            old(host).spec_response_queue().len() <= j < final(host).spec_response_queue().len()
                ==> {
                let e = #[trigger] final(host).spec_response_queue()[j];
                let q = j - old(host).spec_response_queue().len();
                &&& e.size as int == e.bytes@.len() as int
                &&& e.token as int == old(host).spec_value_count() + q
                &&& e.bytes@ == rh.spec_accepted()[q].bytes@
                &&& e.drop_limit == rh.spec_accepted()[q].drop_limit
            },
{
    let ResponseHandler { present: _, slots: _, accepted, rejected } = rh;
    let mut k: usize = 0;
    while k < accepted.len()
        invariant
            k <= accepted@.len(),
            host.wf(),
            host.spec_capacity() == old(host).spec_capacity(),
            host.spec_work_queue() == old(host).spec_work_queue(),
            host.spec_drop_counts() == old(host).spec_drop_counts() + Seq::new(
                k as nat,
                |q: int| 0u32,
            ),
            host.spec_drop_limits() == old(host).spec_drop_limits() + accepted@.subrange(
                0,
                k as int,
            ).map_values(|it: ResponseItem| it.drop_limit),
            host.spec_events() == old(host).spec_events() + Seq::new(
                k as nat,
                |q: int| Event::Responded { token: (old(host).spec_value_count() + q) as usize },
            ),
            old(host).spec_response_queue().is_prefix_of(host.spec_response_queue()),
            host.spec_response_queue().len() == old(host).spec_response_queue().len() + k,
            forall|j: int|
                old(host).spec_response_queue().len() <= j < host.spec_response_queue().len()
                    ==> {
                    let e = #[trigger] host.spec_response_queue()[j];
                    let q = j - old(host).spec_response_queue().len();
                    &&& e.size as int == e.bytes@.len() as int
                    &&& e.token as int == old(host).spec_value_count() + q
                    &&& e.bytes@ == accepted@[q].bytes@
                    &&& e.drop_limit == accepted@[q].drop_limit
                },
        decreases accepted@.len() - k,
    {
        let limit: u32 = accepted[k].drop_limit;
        let t: usize = host.register_value(limit);
        host.log_event(Event::Responded { token: t });
        let bytes = copy_bytes(&accepted[k].bytes);
        let size: usize = bytes.len();
        host.enqueue_response(Envelope { token: t, size, bytes, drop_limit: limit });
        proof {
            assert(host.spec_drop_counts() =~= old(host).spec_drop_counts() + Seq::new(
                (k + 1) as nat,
                |q: int| 0u32,
            ));
            assert(host.spec_drop_limits() =~= old(host).spec_drop_limits() + accepted@.subrange(
                0,
                k as int + 1,
            ).map_values(|it: ResponseItem| it.drop_limit));
            assert(host.spec_events() =~= old(host).spec_events() + Seq::new(
                (k + 1) as nat,
                |q: int| Event::Responded { token: (old(host).spec_value_count() + q) as usize },
            ));
            assert(host.spec_response_queue().subrange(
                0,
                old(host).spec_response_queue().len() as int,
            ) =~= old(host).spec_response_queue());
        }
        k = k + 1;
    }
    let mut m: usize = 0;
    while m < rejected.len()
        invariant
            m <= rejected@.len(),
            host.wf(),
            host.spec_capacity() == old(host).spec_capacity(),
            host.spec_work_queue() == old(host).spec_work_queue(),
            host.spec_drop_counts() == old(host).spec_drop_counts() + Seq::new(
                accepted@.len(),
                |q: int| 0u32,
            ) + Seq::new(m as nat, |q: int| 1u32),
            host.spec_drop_limits() == old(host).spec_drop_limits() + accepted@.map_values(
                |it: ResponseItem| it.drop_limit,
            ) + rejected@.subrange(0, m as int).map_values(|it: ResponseItem| it.drop_limit),
            host.spec_events() == old(host).spec_events() + Seq::new(
                accepted@.len(),
                |q: int| Event::Responded { token: (old(host).spec_value_count() + q) as usize },
            ),
            old(host).spec_response_queue().is_prefix_of(host.spec_response_queue()),
            host.spec_response_queue().len() == old(host).spec_response_queue().len()
                + accepted@.len(),
            forall|j: int|
                old(host).spec_response_queue().len() <= j < host.spec_response_queue().len()
                    ==> {
                    let e = #[trigger] host.spec_response_queue()[j];
                    let q = j - old(host).spec_response_queue().len();
                    &&& e.size as int == e.bytes@.len() as int
                    &&& e.token as int == old(host).spec_value_count() + q
                    &&& e.bytes@ == accepted@[q].bytes@
                    &&& e.drop_limit == accepted@[q].drop_limit
                },
        decreases rejected@.len() - m,
    {
        let ghost pre: HostTransport = *host;
        let limit: u32 = rejected[m].drop_limit;
        let t: usize = host.register_value(limit);
        host.record_destruction(t);
        proof {
            assert(pre.spec_drop_counts().push(0u32)[t as int] == 0u32);
            assert(host.spec_drop_counts() =~= pre.spec_drop_counts().push(1u32));
            assert(host.spec_drop_counts() =~= old(host).spec_drop_counts() + Seq::new(
                accepted@.len(),
                |q: int| 0u32,
            ) + Seq::new((m + 1) as nat, |q: int| 1u32));
            assert(host.spec_drop_limits() =~= old(host).spec_drop_limits() + accepted@.map_values(
                |it: ResponseItem| it.drop_limit,
            ) + rejected@.subrange(0, m as int + 1).map_values(|it: ResponseItem| it.drop_limit));
        }
        m = m + 1;
    }
    proof {
        assert(accepted@.subrange(0, accepted@.len() as int) =~= accepted@);
        assert(rejected@.subrange(0, rejected@.len() as int) =~= rejected@);
    }
}

impl<P: Worker> WorkerDescriptor<P> {
    /// The handle the instance was registered under.
    pub closed spec fn spec_handle(self) -> usize {
        self.handle
    }

    /// The plugin instance that owns the entry points.
    pub closed spec fn spec_plugin(self) -> P {
        self.plugin
    }

    /// Registers the capability table for one plugin instance under the
    /// handle the host will present on every call.
    pub fn new(plugin: P, handle: usize) -> (d: WorkerDescriptor<P>)
        ensures
            d.spec_handle() == handle,
            d.spec_plugin() == plugin,
    {
        WorkerDescriptor { plugin, handle }
    }

    /// The plugin instance, for inspection.
    pub fn plugin(&self) -> (p: &P)
        ensures
            *p == self.spec_plugin(),
    {
        &self.plugin
    }

    /// The worker entry point, called by the host from a thread of its
    /// choosing with a byte view it delivered from the work queue.
    ///
    /// Validates handle, size and token; on a rejected delivery nothing
    /// happens and user logic is not invoked. Otherwise the owned work
    /// value is reconstructed exactly once, user work logic runs with a
    /// response emitter bound to the respond capability of this call, and
    /// the responses it produced are folded into the host.
    ///
    /// Note that a rejected delivery leaves the suspended value with no
    /// destructor execution at all: the host discards the bytes, and unless
    /// it delivers them again the value leaks. The ledger makes that edge
    /// of the error path observable rather than papering over it.
    pub fn work(
        &mut self,
        host: &mut HostTransport,
        handle: usize,
        respond_present: bool,
        size: usize,
        data: &Envelope,
    ) -> (status: u32)
        requires
            old(host).wf(),
        ensures
            final(host).wf(),
            work_transition(
                *old(self),
                *final(self),
                *old(host),
                *final(host),
                handle,
                size,
                *data,
                status,
            ),
    {
        if handle != self.handle {
            return WORK_ERR_UNKNOWN;
        }
        if size != data.bytes.len() {
            return WORK_ERR_UNKNOWN;
        }
        if !host.recognizes(data.token) {
            return WORK_ERR_UNKNOWN;
        }
        let item = WorkItem { bytes: copy_bytes(&data.bytes), drop_limit: data.drop_limit };
        host.record_destruction(data.token);
        host.log_event(Event::WorkInvoked { token: data.token });
        let slots: usize = host.free_response_slots();
        let mut response_handler = ResponseHandler::new(respond_present, slots);
        let res = self.plugin.work(&mut response_handler, item);
        let ghost rhs: ResponseHandler = response_handler;
        let ghost mid: HostTransport = *host;
        merge_responses(host, response_handler);
        proof {
            let tk: int = data.token as int;
            let c0 = old(host).spec_drop_counts();
            let l0 = old(host).spec_drop_limits();
            let e0 = old(host).spec_events();
            let rq0 = old(host).spec_response_queue();
            let na = rhs.spec_accepted().len();
            let nr = rhs.spec_rejected().len();
            assert(mid.spec_drop_counts() == c0.update(tk, sat_inc(c0[tk])));
            assert(host.spec_drops(tk) == sat_inc(old(host).spec_drops(tk)));
            assert(host.spec_limit(tk) == old(host).spec_limit(tk));
            assert forall|i: int| 0 <= i < c0.len() && i != tk implies host.spec_drops(i) == old(
                host,
            ).spec_drops(i) && host.spec_limit(i) == old(host).spec_limit(i) by {
                assert(host.spec_drop_counts()[i] == mid.spec_drop_counts()[i]);
                assert(host.spec_drop_limits()[i] == mid.spec_drop_limits()[i]);
            }
            assert forall|i: int|
                c0.len() <= i < host.spec_value_count() implies host.spec_drops(i) <= 1 by {
                if i < c0.len() + na {
                    assert(host.spec_drop_counts()[i] == 0u32);
                } else {
                    assert(host.spec_drop_counts()[i] == 1u32);
                }
            }
            assert(host.spec_events().subrange(0, e0.len() as int) =~= e0) by {
                assert forall|i: int| 0 <= i < e0.len() implies host.spec_events()[i] == e0[i] by {
                    assert(host.spec_events()[i] == mid.spec_events()[i]);
                }
            }
            assert(host.spec_events()[e0.len() as int] == mid.spec_events()[e0.len() as int]);
            assert forall|j: int|
                e0.len() < j < host.spec_events().len() implies (
            #[trigger] host.spec_events()[j]) is Responded by {
                assert(host.spec_events()[j] == Seq::new(
                    na,
                    |q: int| Event::Responded { token: (mid.spec_value_count() + q) as usize },
                )[j - mid.spec_events().len()]);
            }
            assert(host.spec_response_queue().subrange(0, rq0.len() as int) =~= rq0);
            assert forall|j: int|
                rq0.len() <= j < host.spec_response_queue().len() implies {
                let e = #[trigger] host.spec_response_queue()[j];
                &&& e.size as int == e.bytes@.len() as int
                &&& old(host).spec_value_count() <= (e.token as int) < host.spec_value_count()
                &&& host.spec_drops(e.token as int) == 0
            } by {
                let e = host.spec_response_queue()[j];
                let q = j - rq0.len();
                assert(e.token as int == mid.spec_value_count() + q);
                assert(host.spec_drop_counts()[e.token as int] == 0u32);
            }
        }
        result_to_status(&res)
    }

    /// The response-delivery entry point, called by the host in the
    /// real-time context with a byte view it delivered from the response
    /// queue.
    ///
    /// Validates handle, size and token; on a rejected delivery nothing
    /// happens and user logic is not invoked. Otherwise the owned response
    /// is reconstructed exactly once and handed to user response logic.
    pub fn work_response(
        &mut self,
        host: &mut HostTransport,
        handle: usize,
        size: usize,
        data: &Envelope,
    ) -> (status: u32)
        requires
            old(host).wf(),
        ensures
            final(host).wf(),
            work_response_transition(
                *old(self),
                *final(self),
                *old(host),
                *final(host),
                handle,
                size,
                *data,
                status,
            ),
    {
        if handle != self.handle {
            return WORK_ERR_UNKNOWN;
        }
        if size != data.bytes.len() {
            return WORK_ERR_UNKNOWN;
        }
        if !host.recognizes(data.token) {
            return WORK_ERR_UNKNOWN;
        }
        let item = ResponseItem { bytes: copy_bytes(&data.bytes), drop_limit: data.drop_limit };
        host.record_destruction(data.token);
        host.log_event(Event::WorkResponseInvoked { token: data.token });
        let res = self.plugin.work_response(item);
        result_to_status(&res)
    }

    /// The end-of-cycle entry point, called once per cycle after all
    /// responses for the cycle have been delivered.
    pub fn end_run(&mut self, host: &mut HostTransport, handle: usize) -> (status: u32)
        requires
            old(host).wf(),
        ensures
            final(host).wf(),
            end_run_transition(*old(self), *final(self), *old(host), *final(host), handle, status),
    {
        if handle != self.handle {
            return WORK_ERR_UNKNOWN;
        }
        host.log_event(Event::EndRunInvoked);
        let res = self.plugin.end_run();
        result_to_status(&res)
    }
}

} // verus!
