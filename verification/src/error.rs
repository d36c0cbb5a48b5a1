//! The closed set of failure kinds the client can surface to a caller.

use vstd::prelude::*;

verus! {

/// Every failure the transport core can produce, with the minimum
/// diagnostic payload a caller needs to decide how to react.
#[derive(Clone, Copy, Debug, PartialEq, Eq, Structural)]
pub enum Error {
    /// The request completed with a non-success HTTP status code.
    HttpCode(i32),
    /// The transport collaborator returned no HTTP status at all.
    TransportNoResponse,
    /// A status code outside every known bucket (below 100 or at least 600).
    UnusualHttpCode(i32),
    /// A bad value was used as a parameter for a routine.
    BadParameter,
    /// A request or response body could not be encoded or decoded.
    BadPayload,
    /// The transport collaborator itself failed, independent of any status.
    TransportInternal,
    /// Process-wide transport initialization was attempted more than once.
    DoubleInit,
}

} // verus!
