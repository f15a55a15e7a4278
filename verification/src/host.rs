//! The model of the host: the transport capability, its buffers, the
//! destructor ledger, and the trace of what user logic observes.
//!
//! The host owns the transport buffers, chooses when queued work is handed
//! to the worker side, and delivers responses back before it signals the end
//! of the cycle. The protocol itself never retains the host's buffer past
//! the single call in which it receives it; here the buffers are explicit
//! queues of sealed envelopes. The event trace records, in order, every
//! invocation of user logic and every response accepted into the transport,
//! so that the delivery order within a cycle is an observable fact.

use vstd::prelude::*;

use crate::codec::DropLedger;
use crate::codec::Envelope;
use crate::codec::sat_inc;

verus! {

/// One observable step of a cycle, in the order user logic sees them.
#[derive(Clone, Copy, Debug, PartialEq, Eq, Structural)]
pub enum Event {
    /// The worker side reconstructed a work value and invoked user work
    /// logic on it.
    WorkInvoked { token: usize },
    /// User work logic sent a response that the host accepted into the
    /// transport.
    Responded { token: usize },
    /// The real-time side reconstructed a response and invoked user
    /// response-handling logic on it.
    WorkResponseInvoked { token: usize },
    /// The host signalled that all responses of the cycle were delivered.
    EndRunInvoked,
}

/// The host side of the protocol: transport buffers of bounded capacity,
/// the destructor ledger, and the observable event trace.
pub struct HostTransport {
    capacity: usize,
    work_queue: Vec<Envelope>,
    response_queue: Vec<Envelope>,
    ledger: DropLedger,
    events: Vec<Event>,
}

/// A sealed envelope as a transport buffer holds it: the size beside the
/// byte view is the view's exact length, and the token names one of the
/// `count` values that have entered the transport.
pub open spec fn envelope_ok(e: Envelope, count: int) -> bool {
    &&& e.size as int == e.bytes@.len() as int
    &&& (e.token as int) < count
}

/// Well-formedness survives any step that keeps both buffers and does not
/// forget a registered value.
proof fn lemma_wf_preserved(h0: HostTransport, h1: HostTransport)
    requires
        h0.wf(),
        h1.spec_drop_counts().len() == h1.spec_drop_limits().len(),
        h1.spec_work_queue() == h0.spec_work_queue(),
        h1.spec_response_queue() == h0.spec_response_queue(),
        h1.spec_value_count() >= h0.spec_value_count(),
    ensures
        h1.wf(),
{
    assert forall|i: int| 0 <= i < h1.spec_work_queue().len() implies envelope_ok(
        #[trigger] h1.spec_work_queue()[i],
        h1.spec_value_count(),
    ) by {
        assert(envelope_ok(h0.spec_work_queue()[i], h0.spec_value_count()));
    }
    assert forall|i: int| 0 <= i < h1.spec_response_queue().len() implies envelope_ok(
        #[trigger] h1.spec_response_queue()[i],
        h1.spec_value_count(),
    ) by {
        assert(envelope_ok(h0.spec_response_queue()[i], h0.spec_value_count()));
    }
}

impl HostTransport {
    /// How many envelopes either transport buffer can hold.
    pub closed spec fn spec_capacity(self) -> usize {
        self.capacity
    }

    /// The queued work envelopes, oldest first.
    pub closed spec fn spec_work_queue(self) -> Seq<Envelope> {
        self.work_queue@
    }

    /// The queued response envelopes, oldest first.
    pub closed spec fn spec_response_queue(self) -> Seq<Envelope> {
        self.response_queue@
    }

    /// The observable event trace, oldest first.
    pub closed spec fn spec_events(self) -> Seq<Event> {
        self.events@
    }

    /// The recorded destructor executions, one entry per value that has
    /// entered the transport, oldest first.
    pub closed spec fn spec_drop_counts(self) -> Seq<u32> {
        self.ledger.spec_counts()
    }

    /// The tolerated duplicate destructions, one entry per value.
    pub closed spec fn spec_drop_limits(self) -> Seq<u32> {
        self.ledger.spec_limits()
    }

    /// How many values have entered the transport so far.
    pub open spec fn spec_value_count(self) -> int {
        self.spec_drop_counts().len() as int
    }

    /// The destructor executions recorded for value `t`.
    pub open spec fn spec_drops(self, t: int) -> u32
        recommends
            0 <= t < self.spec_value_count(),
    {
        self.spec_drop_counts()[t]
    }

    /// The duplicate destructions tolerated by value `t`.
    pub open spec fn spec_limit(self, t: int) -> u32
        recommends
            0 <= t < self.spec_value_count(),
    {
        self.spec_drop_limits()[t]
    }

    /// Whether the over-drop guard of value `t` has tripped: it was
    /// destructed more than once plus its tolerated duplicates.
    pub open spec fn spec_over_dropped(self, t: int) -> bool {
        &&& 0 <= t < self.spec_value_count()
        &&& (self.spec_drops(t) as int) > self.spec_limit(t) as int + 1
    }

    /// Every value has one destructor count and one duplicate tolerance,
    /// and every envelope held by a transport buffer carries the exact size
    /// of its byte view and names a value the ledger knows.
    pub open spec fn wf(self) -> bool {
        &&& self.spec_drop_counts().len() == self.spec_drop_limits().len()
        &&& forall|i: int|
            0 <= i < self.spec_work_queue().len() ==> envelope_ok(
                #[trigger] self.spec_work_queue()[i],
                self.spec_value_count(),
            )
        &&& forall|i: int|
            0 <= i < self.spec_response_queue().len() ==> envelope_ok(
                #[trigger] self.spec_response_queue()[i],
                self.spec_value_count(),
            )
    }

    /// A fresh host with empty buffers of the given capacity.
    pub fn new(capacity: usize) -> (host: HostTransport)
        ensures
            host.wf(),
            host.spec_capacity() == capacity,
            host.spec_value_count() == 0,
            host.spec_work_queue() == Seq::<Envelope>::empty(),
            host.spec_response_queue() == Seq::<Envelope>::empty(),
            host.spec_events() == Seq::<Event>::empty(),
    {
        HostTransport {
            capacity,
            work_queue: Vec::new(),
            response_queue: Vec::new(),
            ledger: DropLedger::new(),
            events: Vec::new(),
        }
    }

    /// Registers a value that is entering the transport; its destructor is
    /// suspended.
    pub(crate) fn register_value(&mut self, limit: u32) -> (t: usize)
        requires
            old(self).wf(),
        ensures
            final(self).wf(),
            t as int == old(self).spec_value_count(),
            final(self).spec_drop_counts() == old(self).spec_drop_counts().push(0u32),
            final(self).spec_drop_limits() == old(self).spec_drop_limits().push(limit),
            final(self).spec_capacity() == old(self).spec_capacity(),
            final(self).spec_work_queue() == old(self).spec_work_queue(),
            final(self).spec_response_queue() == old(self).spec_response_queue(),
            final(self).spec_events() == old(self).spec_events(),
    {
        let t: usize = self.ledger.register(limit);
        proof {
            lemma_wf_preserved(*old(self), *self);
        }
        t
    }

    /// Records one destructor execution for value `t`.
    pub(crate) fn record_destruction(&mut self, t: usize)
        requires
            old(self).wf(),
            (t as int) < old(self).spec_value_count(),
        ensures
            final(self).wf(),
            final(self).spec_drop_counts() == old(self).spec_drop_counts().update(
                t as int,
                sat_inc(old(self).spec_drops(t as int)),
            ),
            final(self).spec_drop_limits() == old(self).spec_drop_limits(),
            final(self).spec_capacity() == old(self).spec_capacity(),
            final(self).spec_work_queue() == old(self).spec_work_queue(),
            final(self).spec_response_queue() == old(self).spec_response_queue(),
            final(self).spec_events() == old(self).spec_events(),
    {
        self.ledger.record(t);
        proof {
            lemma_wf_preserved(*old(self), *self);
        }
    }

    /// Appends one event to the observable trace.
    pub(crate) fn log_event(&mut self, e: Event)
        requires
            old(self).wf(),
        ensures
            final(self).wf(),
            final(self).spec_events() == old(self).spec_events().push(e),
            final(self).spec_drop_counts() == old(self).spec_drop_counts(),
            final(self).spec_drop_limits() == old(self).spec_drop_limits(),
            final(self).spec_capacity() == old(self).spec_capacity(),
            final(self).spec_work_queue() == old(self).spec_work_queue(),
            final(self).spec_response_queue() == old(self).spec_response_queue(),
    {
        self.events.push(e);
        proof {
            lemma_wf_preserved(*old(self), *self);
        }
    }

    /// Hands a sealed work envelope to the transport buffer.
    pub(crate) fn enqueue_work(&mut self, env: Envelope)
        requires
            old(self).wf(),
            env.size as int == env.bytes@.len() as int,
            (env.token as int) < old(self).spec_value_count(),
        ensures
            final(self).wf(),
            final(self).spec_work_queue() == old(self).spec_work_queue().push(env),
            final(self).spec_drop_counts() == old(self).spec_drop_counts(),
            final(self).spec_drop_limits() == old(self).spec_drop_limits(),
            final(self).spec_capacity() == old(self).spec_capacity(),
            final(self).spec_response_queue() == old(self).spec_response_queue(),
            final(self).spec_events() == old(self).spec_events(),
    {
        self.work_queue.push(env);
        proof {
            assert forall|i: int| 0 <= i < self.spec_work_queue().len() implies envelope_ok(
                #[trigger] self.spec_work_queue()[i],
                self.spec_value_count(),
            ) by {
                if i < old(self).spec_work_queue().len() {
                    assert(envelope_ok(old(self).spec_work_queue()[i], old(self).spec_value_count()));
                    assert(self.spec_work_queue()[i] == old(self).spec_work_queue()[i]);
                } else {
                    assert(self.spec_work_queue()[i] == env);
                }
            }
            assert forall|i: int| 0 <= i < self.spec_response_queue().len() implies envelope_ok(
                #[trigger] self.spec_response_queue()[i],
                self.spec_value_count(),
            ) by {
                assert(envelope_ok(old(self).spec_response_queue()[i], old(self).spec_value_count()));
            }
        }
    }

    /// Hands a sealed response envelope to the transport buffer.
    pub(crate) fn enqueue_response(&mut self, env: Envelope)
        requires
            old(self).wf(),
            env.size as int == env.bytes@.len() as int,
            (env.token as int) < old(self).spec_value_count(),
        ensures
            final(self).wf(),
            final(self).spec_response_queue() == old(self).spec_response_queue().push(env),
            final(self).spec_drop_counts() == old(self).spec_drop_counts(),
            final(self).spec_drop_limits() == old(self).spec_drop_limits(),
            final(self).spec_capacity() == old(self).spec_capacity(),
            final(self).spec_work_queue() == old(self).spec_work_queue(),
            final(self).spec_events() == old(self).spec_events(),
    {
        self.response_queue.push(env);
        proof {
            assert forall|i: int| 0 <= i < self.spec_response_queue().len() implies envelope_ok(
                #[trigger] self.spec_response_queue()[i],
                self.spec_value_count(),
            ) by {
                if i < old(self).spec_response_queue().len() {
                    assert(envelope_ok(
                        old(self).spec_response_queue()[i],
                        old(self).spec_value_count(),
                    ));
                    assert(self.spec_response_queue()[i] == old(self).spec_response_queue()[i]);
                } else {
                    assert(self.spec_response_queue()[i] == env);
                }
            }
            assert forall|i: int| 0 <= i < self.spec_work_queue().len() implies envelope_ok(
                #[trigger] self.spec_work_queue()[i],
                self.spec_value_count(),
            ) by {
                assert(envelope_ok(old(self).spec_work_queue()[i], old(self).spec_value_count()));
            }
        }
    }

    /// Whether the work buffer has room for one more envelope.
    pub(crate) fn has_work_space(&self) -> (b: bool)
        ensures
            b == ((self.spec_work_queue().len() as int) < self.spec_capacity() as int),
    {
        self.work_queue.len() < self.capacity
    }

    /// How many more response envelopes the transport can accept.
    pub(crate) fn free_response_slots(&self) -> (n: usize)
        ensures
            n as int == if self.spec_response_queue().len() as int >= self.spec_capacity() as int {
                0
            } else {
                self.spec_capacity() as int - self.spec_response_queue().len() as int
            },
    {
        let used: usize = self.response_queue.len();
        if used >= self.capacity {
            0
        } else {
            self.capacity - used
        }
    }

    /// Whether the ledger knows a value under token `t`.
    pub(crate) fn recognizes(&self, t: usize) -> (b: bool)
        ensures
            b == ((t as int) < self.spec_value_count()),
    {
        t < self.ledger_len()
    }

    fn ledger_len(&self) -> (n: usize)
        ensures
            n as int == self.spec_value_count(),
    {
        self.ledger.len()
    }

    /// The host takes the oldest queued work envelope to hand it to the
    /// worker side, or nothing when no work is pending.
    pub fn take_work(&mut self) -> (r: Option<Envelope>)
        requires
            old(self).wf(),
        ensures
            final(self).wf(),
            old(self).spec_work_queue().len() == 0 ==> r is None && *final(self) == *old(self),
            old(self).spec_work_queue().len() > 0 ==> {
                &&& r == Some(old(self).spec_work_queue()[0])
                &&& final(self).spec_work_queue() == old(self).spec_work_queue().subrange(
                    1,
                    old(self).spec_work_queue().len() as int,
                )
                &&& r.unwrap().size as int == r.unwrap().bytes@.len() as int
                &&& (r.unwrap().token as int) < old(self).spec_value_count()
            },
            final(self).spec_drop_counts() == old(self).spec_drop_counts(),
            final(self).spec_drop_limits() == old(self).spec_drop_limits(),
            final(self).spec_capacity() == old(self).spec_capacity(),
            final(self).spec_response_queue() == old(self).spec_response_queue(),
            final(self).spec_events() == old(self).spec_events(),
    {
        if self.work_queue.len() == 0 {
            None
        } else {
            let env = self.work_queue.remove(0);
            proof {
                assert(envelope_ok(old(self).spec_work_queue()[0], old(self).spec_value_count()));
                assert forall|i: int| 0 <= i < self.spec_work_queue().len() implies envelope_ok(
                    #[trigger] self.spec_work_queue()[i],
                    self.spec_value_count(),
                ) by {
                    assert(self.spec_work_queue()[i] == old(self).spec_work_queue()[i + 1]);
                    assert(envelope_ok(
                        old(self).spec_work_queue()[i + 1],
                        old(self).spec_value_count(),
                    ));
                }
                assert forall|i: int|
                    0 <= i < self.spec_response_queue().len() implies envelope_ok(
                    #[trigger] self.spec_response_queue()[i],
                    self.spec_value_count(),
                ) by {
                    assert(envelope_ok(
                        old(self).spec_response_queue()[i],
                        old(self).spec_value_count(),
                    ));
                }
            }
            Some(env)
        }
    }

    /// The host takes the oldest queued response envelope to deliver it to
    /// the real-time side, or nothing when no response is pending.
    pub fn take_response(&mut self) -> (r: Option<Envelope>)
        requires
            old(self).wf(),
        ensures
            final(self).wf(),
            old(self).spec_response_queue().len() == 0 ==> r is None && *final(self) == *old(self),
            old(self).spec_response_queue().len() > 0 ==> {
                &&& r == Some(old(self).spec_response_queue()[0])
                &&& final(self).spec_response_queue() == old(self).spec_response_queue().subrange(
                    1,
                    old(self).spec_response_queue().len() as int,
                )
                &&& r.unwrap().size as int == r.unwrap().bytes@.len() as int
                &&& (r.unwrap().token as int) < old(self).spec_value_count()
            },
            final(self).spec_drop_counts() == old(self).spec_drop_counts(),
            final(self).spec_drop_limits() == old(self).spec_drop_limits(),
            final(self).spec_capacity() == old(self).spec_capacity(),
            final(self).spec_work_queue() == old(self).spec_work_queue(),
            final(self).spec_events() == old(self).spec_events(),
    {
        if self.response_queue.len() == 0 {
            None
        } else {
            let env = self.response_queue.remove(0);
            proof {
                assert(envelope_ok(
                    old(self).spec_response_queue()[0],
                    old(self).spec_value_count(),
                ));
                assert forall|i: int|
                    0 <= i < self.spec_response_queue().len() implies envelope_ok(
                    #[trigger] self.spec_response_queue()[i],
                    self.spec_value_count(),
                ) by {
                    assert(self.spec_response_queue()[i] == old(self).spec_response_queue()[i + 1]);
                    assert(envelope_ok(
                        old(self).spec_response_queue()[i + 1],
                        old(self).spec_value_count(),
                    ));
                }
                assert forall|i: int| 0 <= i < self.spec_work_queue().len() implies envelope_ok(
                    #[trigger] self.spec_work_queue()[i],
                    self.spec_value_count(),
                ) by {
                    assert(envelope_ok(old(self).spec_work_queue()[i], old(self).spec_value_count()));
                }
            }
            Some(env)
        }
    }

    /// How many values have entered the transport so far.
    pub fn value_count(&self) -> (n: usize)
        ensures
            n as int == self.spec_value_count(),
    {
        self.ledger_len()
    }

    /// The destructor executions recorded for value `t`, or zero for a token
    /// the ledger does not know.
    pub fn destructions(&self, t: usize) -> (d: u32)
        requires
            self.wf(),
        ensures
            d == if (t as int) < self.spec_value_count() {
                self.spec_drops(t as int)
            } else {
                0u32
            },
    {
        self.ledger.drops_recorded(t)
    }

    /// Whether the over-drop guard of value `t` has tripped: it was
    /// destructed more often than once plus its tolerated duplicates.
    pub fn over_dropped(&self, t: usize) -> (b: bool)
        requires
            self.wf(),
        ensures
            b == self.spec_over_dropped(t as int),
    {
        self.ledger.over_dropped(t)
    }

    /// How many events the observable trace holds.
    pub fn event_count(&self) -> (n: usize)
        ensures
            n as int == self.spec_events().len() as int,
    {
        self.events.len()
    }

    /// The event at position `i` of the trace, oldest first.
    pub fn event_at(&self, i: usize) -> (r: Option<Event>)
        ensures
            r == if (i as int) < self.spec_events().len() as int {
                Some(self.spec_events()[i as int])
            } else {
                None::<Event>
            },
    {
        if i < self.events.len() {
            Some(self.events[i])
        } else {
            None
        }
    }

    /// How many work envelopes are queued.
    pub fn pending_work(&self) -> (n: usize)
        ensures
            n as int == self.spec_work_queue().len() as int,
    {
        self.work_queue.len()
    }

    /// How many response envelopes are queued.
    pub fn pending_responses(&self) -> (n: usize)
        ensures
            n as int == self.spec_response_queue().len() as int,
    {
        self.response_queue.len()
    }
}

} // verus!
