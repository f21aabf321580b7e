//! What can go wrong in one exchange with the peer.

use vstd::prelude::*;

verus! {

/// The failures of one exchange, in the order an exchange meets them.
#[derive(Debug, PartialEq)]
pub enum KiCadError {
    /// The socket could not be created, dialled, written or read.
    TransportFailure(String),
    /// Received bytes are not a well-formed message.
    MalformedEnvelope,
    /// A payload's type tag is not that of the type asked for.
    TypeMismatch,
    /// The peer answered with a status other than OK; its message.
    ApiError(String),
    /// No board document is open.
    NoBoardOpen,
}

} // verus!
