//! The errors that the modem's collaborators report and the stream hands on.

use vstd::prelude::*;

verus! {

/// Why an operation on the stream did not succeed.
#[derive(Debug, Clone, Copy, PartialEq, Eq, Structural)]
pub enum Error {
    /// The cancellation token fired before the operation completed.
    Cancelled,
    /// A socket operation failed; the modem's error code is kept as reported.
    TransportFailure(i32),
    /// Activating or deactivating the LTE link failed; the code is kept as
    /// reported.
    LinkFailure(i32),
}

} // verus!
