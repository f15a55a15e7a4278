//! Wire status codes of the host transport and their mapping to the errors
//! that the library reports to its callers.
//!
//! The host speaks in a three-valued status word: success, a general failure,
//! or a lack of space in the transport buffer. Any other word is treated as a
//! general failure. The library's own callers see a `Result` whose error is
//! [`WorkerError`].

use vstd::prelude::*;

verus! {

/// Wire status: the operation succeeded.
pub const WORK_SUCCESS: u32 = 0;

/// Wire status: the operation failed for an unknown or general reason.
pub const WORK_ERR_UNKNOWN: u32 = 1;

/// Wire status: the operation failed because the transport buffer is full.
pub const WORK_ERR_NO_SPACE: u32 = 2;

/// Errors reported by the scheduling and response operations.
#[derive(Clone, Copy, Debug, PartialEq, Eq, Structural)]
pub enum WorkerError {
    /// Unknown or general error.
    Unknown,
    /// Failure due to a lack of space.
    NoSpace,
}

/// The meaning of a wire status word: every word other than the three known
/// ones counts as a general failure.
pub open spec fn spec_status_to_result(status: u32) -> Result<(), WorkerError> {
    if status == WORK_SUCCESS {
        Ok(())
    } else if status == WORK_ERR_NO_SPACE {
        Err(WorkerError::NoSpace)
    } else {
        Err(WorkerError::Unknown)
    }
}

/// The wire status word that reports a given outcome to the host.
pub open spec fn spec_result_to_status(r: Result<(), WorkerError>) -> u32 {
    match r {
        Ok(()) => WORK_SUCCESS,
        Err(WorkerError::Unknown) => WORK_ERR_UNKNOWN,
        Err(WorkerError::NoSpace) => WORK_ERR_NO_SPACE,
    }
}

/// Maps a status word returned by a host function to the result handed to
/// the caller of a send operation.
pub fn status_to_result(status: u32) -> (r: Result<(), WorkerError>)
    ensures
        r == spec_status_to_result(status),
{
    if status == WORK_SUCCESS {
        Ok(())
    } else if status == WORK_ERR_NO_SPACE {
        Err(WorkerError::NoSpace)
    } else {
        Err(WorkerError::Unknown)
    }
}

/// Maps the outcome of user logic to the status word returned to the host.
pub fn result_to_status(r: &Result<(), WorkerError>) -> (status: u32)
    ensures
        status == spec_result_to_status(*r),
{
    match r {
        Ok(()) => WORK_SUCCESS,
        Err(WorkerError::Unknown) => WORK_ERR_UNKNOWN,
        Err(WorkerError::NoSpace) => WORK_ERR_NO_SPACE,
    }
}

} // verus!
