//! The errors this library reports.

use vstd::prelude::*;

verus! {

/// Why a job, or a cost estimate, could not be completed.
#[derive(Clone, Copy, Debug, PartialEq, Eq, Structural)]
pub enum ClientError {
    /// A request could not be sent, or a connection could not be opened.
    Transport,
    /// The backend answered, but the answer lacks something it must hold.
    Protocol,
    /// The event stream ended before the job was reported as finished.
    StreamClosed,
    /// The wait for the job's completion exceeded its bound.
    Timeout,
    /// An argument is outside what the function is defined for.
    InvalidInput,
}

} // verus!
