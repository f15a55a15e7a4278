//! A model of a real-time worker protocol: a periodic, latency-bounded
//! processing context hands owned values to a host-managed transport, a
//! non-real-time worker context receives them, and responses travel back
//! before the end of a cycle.
//!
//! The heart of the protocol is an ownership-transfer discipline: every value
//! that enters the transport must be destructed exactly once system-wide,
//! either by the caller's own side when the enqueue fails, or by the receiving
//! side after it reconstructs the value from the transported bytes. The
//! modules here state and prove that discipline over an explicit model of the
//! host: values carry their byte representation, a ledger accounts for every
//! destructor execution, and an event log records the order in which user
//! logic observes the protocol.

pub mod codec;
pub mod compare;
pub mod host;
pub mod laws;
pub mod schedule;
pub mod status;
pub mod worker;

pub use codec::Envelope;
pub use codec::ResponseItem;
pub use codec::WorkItem;
pub use compare::CmpDiff;
pub use compare::CmpResult;
pub use host::Event;
pub use host::HostTransport;
pub use schedule::Schedule;
pub use status::WorkerError;
pub use worker::ResponseHandler;
pub use worker::Worker;
pub use worker::WorkerDescriptor;
