//! Types shared between the guest-side RPC client and the host-side sysreq
//! device: the RPC error taxonomy and the descriptor type carried by
//! networking responses.
use vstd::prelude::*;

verus! {

/// Outcome of an RPC exchange as seen by either end of the channel.
#[derive(Clone, Copy, Debug, PartialEq, Eq, Structural)]
pub enum AsiRpcError {
    /// The underlying sysreq channel is invalid or in a bad state.
    BadDescriptor,
    /// The host rejected the request.
    BadRequest,
    /// The host sent a response that could not be decoded.
    BadResponse,
}

/// Numeric descriptor handed to the guest for host-mediated resources.
pub type AsiFd = i32;

} // verus!
