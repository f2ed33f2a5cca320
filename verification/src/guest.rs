//! The guest-facing request helpers: build a typed request, run one
//! exchange on the guest channel, and hand back the typed result.
//!
//! Unlike a guest runtime, which would treat a transport failure as fatal,
//! these return the error to the caller; a driver may panic on it.
use vstd::prelude::*;
use crate::asi_sysreq::AsiSysreqDevice;
use crate::diagnostics::{HelloRpcRequest, PokeRpcRequest};
use crate::interop::AsiRpcError;
use crate::net::{LookupRpcRequest, NetAddr, NetError};
use crate::rpc::{resolution_view, AsiRpcGuestDevice};
use crate::wire::{SysreqRequest, SysreqResponse};

verus! {

/// Send a Hello carrying a free-text identifier; the host records it and
/// answers with no payload.
pub fn hello(chan: &mut AsiRpcGuestDevice, dev: &mut AsiSysreqDevice, who: Vec<u8>) -> (r: Result<
    (),
    AsiRpcError,
>)
    requires
        old(dev).wf(),
    ensures
        final(dev).wf(),
        old(chan).is_poisoned() ==> r == Result::<(), AsiRpcError>::Err(AsiRpcError::BadDescriptor)
            && *final(chan) == *old(chan) && *final(dev) == *old(dev),
        !old(chan).is_poisoned() && !old(dev).idle() ==> r == Result::<(), AsiRpcError>::Err(
            AsiRpcError::BadDescriptor,
        ) && final(chan).is_poisoned() && *final(dev) == *old(dev),
        !old(chan).is_poisoned() && old(dev).idle() ==> r == Result::<(), AsiRpcError>::Ok(())
            && !final(chan).is_poisoned() && final(dev).idle() && final(dev).counter() == old(dev).counter(),
{
    let req = SysreqRequest::Hello(HelloRpcRequest { who });
    match chan.call(dev, &req, Option::None) {
        Result::Ok(_) => Result::Ok(()),
        Result::Err(e) => Result::Err(e),
    }
}

/// Send a Poke: the host bumps the per-device counter and returns the new
/// count, so N sequential pokes on one fresh device answer 1 through N.
pub fn poke(chan: &mut AsiRpcGuestDevice, dev: &mut AsiSysreqDevice) -> (r: Result<
    u64,
    AsiRpcError,
>)
    requires
        old(dev).wf(),
        old(dev).counter() < u64::MAX,
    ensures
        final(dev).wf(),
        old(chan).is_poisoned() ==> r == Result::<u64, AsiRpcError>::Err(
            AsiRpcError::BadDescriptor,
        ) && *final(chan) == *old(chan) && *final(dev) == *old(dev),
        !old(chan).is_poisoned() && !old(dev).idle() ==> r == Result::<u64, AsiRpcError>::Err(
            AsiRpcError::BadDescriptor,
        ) && final(chan).is_poisoned() && *final(dev) == *old(dev),
        !old(chan).is_poisoned() && old(dev).idle() ==> r == Result::<u64, AsiRpcError>::Ok(
            (old(dev).counter() + 1) as u64,
        ) && !final(chan).is_poisoned() && final(dev).idle() && final(dev).counter() == old(dev).counter() + 1,
{
    match chan.call(dev, &SysreqRequest::Poke(PokeRpcRequest), Option::None) {
        Result::Ok(resp) => match resp {
            SysreqResponse::Count(x) => Result::Ok(x),
            _ => Result::Err(AsiRpcError::BadResponse),
        },
        Result::Err(e) => Result::Err(e),
    }
}

/// Send a Lookup for a host:port-style query. `resolution` is the outcome
/// of the host's resolver for that query: on success the addresses come
/// back as a successful result, and a resolution failure comes back as
/// `NetError::Failed` inside a successful exchange, never as a transport
/// error.
pub fn lookup(
    chan: &mut AsiRpcGuestDevice,
    dev: &mut AsiSysreqDevice,
    query: Vec<u8>,
    resolution: Option<Vec<NetAddr>>,
) -> (r: Result<Result<Vec<NetAddr>, NetError>, AsiRpcError>)
    requires
        old(dev).wf(),
    ensures
        final(dev).wf(),
        old(chan).is_poisoned() ==> r == Result::<Result<Vec<NetAddr>, NetError>, AsiRpcError>::Err(
            AsiRpcError::BadDescriptor,
        ) && *final(chan) == *old(chan) && *final(dev) == *old(dev),
        !old(chan).is_poisoned() && !old(dev).idle() ==> r == Result::<
            Result<Vec<NetAddr>, NetError>,
            AsiRpcError,
        >::Err(AsiRpcError::BadDescriptor) && final(chan).is_poisoned() && *final(dev) == *old(dev),
        !old(chan).is_poisoned() && old(dev).idle() ==> !final(chan).is_poisoned() && final(dev).idle() && final(dev).counter() == old(dev).counter() && (match resolution_view(
            resolution,
        ) {
            Option::Some(s) => r matches Result::Ok(Result::Ok(got)) && got@ == s,
            Option::None => r == Result::<Result<Vec<NetAddr>, NetError>, AsiRpcError>::Ok(
                Result::Err(NetError::Failed),
            ),
        }),
{
    match chan.call(dev, &SysreqRequest::Lookup(LookupRpcRequest { query }), resolution) {
        Result::Ok(resp) => match resp {
            SysreqResponse::Addrs(inner) => Result::Ok(inner),
            _ => Result::Err(AsiRpcError::BadResponse),
        },
        Result::Err(e) => Result::Err(e),
    }
}

} // verus!
