//! The host-side sysreq device: a virtual device with a vectored write that
//! delivers one opcode-tagged request and a vectored read that drains the
//! single pending response.
//!
//! The device is a small state machine: idle, awaiting the host's resolver
//! (only for a Lookup request), or holding a pending response. A write while
//! a response is still undrained fails with the in-progress condition, which
//! enforces the protocol's strict request/response alternation.
use vstd::prelude::*;
use crate::diagnostics::{HelloRpcRequest, LogModel, LogRpcRequest};
use crate::interop::AsiRpcError;
use crate::net::{ConnectRpcRequest, NetAddr, NetError};
use crate::codec::copy_range;
use crate::wire::{
    decode_sysreq_request, dec_req, enc_err, enc_u64_result, enc_unit_result, enc_addrs_result,
    encode_err, encode_u64_result, encode_unit_result, encode_addrs_result, ReqModel,
    SysreqRequest, addrs_result_view,
};

verus! {

/// Device-level failure of a write or read call, as the sandbox sees it.
#[derive(Clone, Copy, Debug, PartialEq, Eq, Structural)]
pub enum DeviceErrno {
    /// A previous response is still pending; the guest should have read.
    Inprogress,
    /// The call's buffers are not the single buffer the device supports.
    Inval,
}

/// What a handled request asks the host to do besides answering.
#[derive(Debug)]
pub enum HostEvent {
    /// A Hello arrived; the host records the identifier.
    Hello { who: Vec<u8> },
    /// A Log arrived; the host forwards the record to its logging sink.
    Log { record: LogRpcRequest },
}

/// Mathematical image of a host event.
pub ghost enum EventModel {
    Hello { who: Seq<u8> },
    Log { rec: LogModel },
}

impl View for HostEvent {
    type V = EventModel;

    open spec fn view(&self) -> EventModel {
        match self {
            HostEvent::Hello { who } => EventModel::Hello { who: who@ },
            HostEvent::Log { record } => EventModel::Log { rec: record@ },
        }
    }
}

/// The model of an optional host event.
pub open spec fn opt_event_view(o: Option<HostEvent>) -> Option<EventModel> {
    match o {
        Option::None => Option::None,
        Option::Some(e) => Option::Some(e@),
    }
}

/// Outcome of a successful device write.
#[derive(Debug)]
pub enum WriteEffect {
    /// The response is encoded and pending; `consumed` bytes were taken.
    Complete { consumed: u64, event: Option<HostEvent> },
    /// A Lookup request was decoded; the host must resolve `query` and hand
    /// the outcome back before the response exists.
    NeedsLookup { query: Vec<u8> },
}

/// Whether a decoded write is a Lookup, the one request the device cannot
/// answer by itself.
pub open spec fn is_lookup(dm: Option<ReqModel>) -> bool {
    match dm {
        Option::Some(ReqModel::Lookup { .. }) => true,
        _ => false,
    }
}

/// The query carried by a decoded Lookup request.
pub open spec fn lookup_query(dm: Option<ReqModel>) -> Seq<u8> {
    match dm {
        Option::Some(ReqModel::Lookup { query }) => query,
        _ => Seq::empty(),
    }
}

/// The response the device buffers for a decoded non-Lookup write, given the
/// counter value before the write. An undecodable or unrecognized request is
/// a `BadRequest` result, still delivered as a successful write.
pub open spec fn response_bytes(dm: Option<ReqModel>, c0: u64) -> Seq<u8> {
    match dm {
        Option::None => enc_err(AsiRpcError::BadRequest),
        Option::Some(m) => match m {
            ReqModel::Hello { .. } => enc_unit_result(Result::Ok(())),
            ReqModel::Poke => enc_u64_result(Result::Ok((c0 + 1) as u64)),
            ReqModel::Log { .. } => enc_unit_result(Result::Ok(())),
            ReqModel::Connect { .. } => enc_err(AsiRpcError::BadRequest),
            ReqModel::Lookup { .. } => Seq::empty(),
        },
    }
}

/// The counter value after a decoded write: only Poke bumps it.
pub open spec fn next_counter(dm: Option<ReqModel>, c0: u64) -> u64 {
    match dm {
        Option::Some(ReqModel::Poke) => (c0 + 1) as u64,
        _ => c0,
    }
}

/// The event a decoded write hands the host.
pub open spec fn host_event(dm: Option<ReqModel>) -> Option<EventModel> {
    match dm {
        Option::Some(ReqModel::Hello { who }) => Option::Some(EventModel::Hello { who }),
        Option::Some(ReqModel::Log { rec }) => Option::Some(EventModel::Log { rec }),
        _ => Option::None,
    }
}

/// The Lookup response for the outcome the host's resolver handed back:
/// addresses on success, `NetError::Failed` on resolution failure, both as
/// ordinary results inside a successful exchange.
pub open spec fn lookup_outcome_model(o: Option<Seq<NetAddr>>) -> Result<
    Result<Seq<NetAddr>, NetError>,
    AsiRpcError,
> {
    match o {
        Option::Some(s) => Result::Ok(Result::Ok(s)),
        Option::None => Result::Ok(Result::Err(NetError::Failed)),
    }
}

/// Host-side sysreq device state: one pending serialized response at most,
/// a private Poke counter, and whether a Lookup awaits its outcome.
pub struct AsiSysreqDevice {
    pending_response: Vec<u8>,
    count: u64,
    awaiting_lookup: bool,
    awaiting_consumed: u64,
}

impl AsiSysreqDevice {
    /// The bytes of the pending response not yet drained by reads.
    pub closed spec fn pending(&self) -> Seq<u8> {
        self.pending_response@
    }

    /// The Poke counter.
    pub closed spec fn counter(&self) -> u64 {
        self.count
    }

    /// Whether a Lookup request awaits its resolver outcome.
    pub closed spec fn awaiting(&self) -> bool {
        self.awaiting_lookup
    }

    /// The byte count the pending Lookup's write will report once answered.
    pub closed spec fn lookup_consumed(&self) -> u64 {
        self.awaiting_consumed
    }

    /// A response and an awaited Lookup never coexist.
    pub open spec fn wf(&self) -> bool {
        !(self.awaiting() && self.pending().len() > 0)
    }

    /// Ready for the next request: nothing pending, nothing awaited.
    pub open spec fn idle(&self) -> bool {
        self.pending().len() == 0 && !self.awaiting()
    }

    /// A fresh device: idle, with its counter at zero.
    pub fn new() -> (d: Self)
        ensures
            d.idle(),
            d.wf(),
            d.counter() == 0,
    {
        Self { pending_response: Vec::new(), count: 0, awaiting_lookup: false, awaiting_consumed: 0 }
    }

    /// Hello handler: records the identifier, always succeeds.
    fn hello(&mut self, req: &HelloRpcRequest) -> (r: Result<(), AsiRpcError>)
        ensures
            r == Result::<(), AsiRpcError>::Ok(()),
            *final(self) == *old(self),
    {
        Result::Ok(())
    }

    /// Log handler: accepts the record for the host's sink, always succeeds.
    fn log(&mut self, rec: &LogRpcRequest) -> (r: Result<(), AsiRpcError>)
        ensures
            r == Result::<(), AsiRpcError>::Ok(()),
            *final(self) == *old(self),
    {
        Result::Ok(())
    }

    /// Poke handler: bumps the per-device counter and returns the new count.
    fn poke(&mut self) -> (r: Result<u64, AsiRpcError>)
        requires
            old(self).counter() < u64::MAX,
        ensures
            final(self).count == old(self).count + 1,
            final(self).pending_response == old(self).pending_response,
            final(self).awaiting_lookup == old(self).awaiting_lookup,
            final(self).awaiting_consumed == old(self).awaiting_consumed,
            r == Result::<u64, AsiRpcError>::Ok(final(self).count),
    {
        self.count = self.count + 1;
        Result::Ok(self.count)
    }

    /// Connect handler: host-mediated guest sockets are not implemented, so
    /// the only supported target kind is rejected outright.
    fn net_connect(&mut self, req: &ConnectRpcRequest) -> (r: Result<
        Result<crate::interop::AsiFd, NetError>,
        AsiRpcError,
    >)
        ensures
            r == Result::<Result<crate::interop::AsiFd, NetError>, AsiRpcError>::Err(
                AsiRpcError::BadRequest,
            ),
            *final(self) == *old(self),
    {
        Result::Err(AsiRpcError::BadRequest)
    }

    /// Lookup handler: turns the resolver's outcome into the response value;
    /// resolution failure is `NetError::Failed`, a normal result.
    fn net_lookup(&mut self, outcome: Option<Vec<NetAddr>>) -> (r: Result<
        Result<Vec<NetAddr>, NetError>,
        AsiRpcError,
    >)
        ensures
            addrs_result_view(r) == lookup_outcome_model(
                match outcome {
                    Option::Some(v) => Option::Some(v@),
                    Option::None => Option::None,
                },
            ),
            *final(self) == *old(self),
    {
        match outcome {
            Option::Some(addrs) => Result::Ok(Result::Ok(addrs)),
            Option::None => Result::Ok(Result::Err(NetError::Failed)),
        }
    }

    /// Deliver a request: exactly one buffer whose first 4 bytes are the
    /// little-endian opcode, the remainder the body. While a previous
    /// response is undrained (or a Lookup is unanswered) every write fails
    /// with the in-progress condition, whatever it carries. The handler's
    /// outcome is encoded into the pending response; only a Lookup leaves
    /// the device awaiting its resolver.
    #[verifier::rlimit(60)]
    pub fn write_vectored(&mut self, bufs: &Vec<Vec<u8>>) -> (r: Result<WriteEffect, DeviceErrno>)
        requires
            old(self).wf(),
            (bufs@.len() == 1 && bufs@[0]@.len() >= 4 && dec_req(bufs@[0]@) == Option::Some(
                ReqModel::Poke,
            )) ==> old(self).counter() < u64::MAX,
        ensures
            final(self).wf(),
            !old(self).idle() ==> r == Result::<WriteEffect, DeviceErrno>::Err(
                DeviceErrno::Inprogress,
            ) && *final(self) == *old(self),
            old(self).idle() && bufs@.len() != 1 ==> r == Result::<WriteEffect, DeviceErrno>::Err(
                DeviceErrno::Inval,
            ) && *final(self) == *old(self),
            old(self).idle() && bufs@.len() == 1 && bufs@[0]@.len() < 4 ==> r == Result::<
                WriteEffect,
                DeviceErrno,
            >::Err(DeviceErrno::Inval) && *final(self) == *old(self),
            old(self).idle() && bufs@.len() == 1 && bufs@[0]@.len() >= 4 && !is_lookup(
                dec_req(bufs@[0]@),
            ) ==> (r matches Result::Ok(WriteEffect::Complete { consumed, event })
                && consumed == bufs@[0]@.len() && opt_event_view(event) == host_event(
                dec_req(bufs@[0]@),
            )) && final(self).pending() == response_bytes(dec_req(bufs@[0]@), old(self).counter())
                && final(self).counter() == next_counter(dec_req(bufs@[0]@), old(self).counter())
                && !final(self).awaiting(),
            old(self).idle() && bufs@.len() == 1 && bufs@[0]@.len() >= 4 && is_lookup(
                dec_req(bufs@[0]@),
            ) ==> (r matches Result::Ok(WriteEffect::NeedsLookup { query }) && query@
                == lookup_query(dec_req(bufs@[0]@))) && final(self).awaiting() && final(self).pending().len() == 0 && final(self).counter() == old(self).counter() && final(self).lookup_consumed() == bufs@[0]@.len(),
    {
        if self.awaiting_lookup {
            return Result::Err(DeviceErrno::Inprogress);
        }
        if self.pending_response.len() > 0 {
            return Result::Err(DeviceErrno::Inprogress);
        }
        if bufs.len() != 1 {
            return Result::Err(DeviceErrno::Inval);
        }
        let buf = &bufs[0];
        if buf.len() < 4 {
            return Result::Err(DeviceErrno::Inval);
        }
        let consumed = buf.len() as u64;
        match decode_sysreq_request(buf) {
            Result::Err(_) => {
                self.pending_response = encode_err(AsiRpcError::BadRequest);
                Result::Ok(WriteEffect::Complete { consumed, event: Option::None })
            },
            Result::Ok(req) => match req {
                SysreqRequest::Hello(h) => {
                    let outcome = self.hello(&h);
                    self.pending_response = encode_unit_result(&outcome);
                    Result::Ok(
                        WriteEffect::Complete {
                            consumed,
                            event: Option::Some(HostEvent::Hello { who: h.who }),
                        },
                    )
                },
                SysreqRequest::Poke(_) => {
                    let outcome = self.poke();
                    self.pending_response = encode_u64_result(&outcome);
                    Result::Ok(WriteEffect::Complete { consumed, event: Option::None })
                },
                SysreqRequest::Log(rec) => {
                    let outcome = self.log(&rec);
                    self.pending_response = encode_unit_result(&outcome);
                    Result::Ok(
                        WriteEffect::Complete {
                            consumed,
                            event: Option::Some(HostEvent::Log { record: rec }),
                        },
                    )
                },
                SysreqRequest::Connect(c) => {
                    let outcome = self.net_connect(&c);
                    let err = match outcome {
                        Result::Err(e) => e,
                        Result::Ok(_) => AsiRpcError::BadRequest,
                    };
                    self.pending_response = encode_err(err);
                    Result::Ok(WriteEffect::Complete { consumed, event: Option::None })
                },
                SysreqRequest::Lookup(l) => {
                    self.awaiting_lookup = true;
                    self.awaiting_consumed = consumed;
                    Result::Ok(WriteEffect::NeedsLookup { query: l.query })
                },
            },
        }
    }

    /// Hand the awaited Lookup its resolver outcome: the response becomes
    /// pending and the write's byte count is reported.
    pub fn supply_lookup(&mut self, outcome: Option<Vec<NetAddr>>) -> (consumed: u64)
        requires
            old(self).wf(),
            old(self).awaiting(),
        ensures
            final(self).wf(),
            !final(self).awaiting(),
            final(self).counter() == old(self).counter(),
            final(self).pending() == enc_addrs_result(
                lookup_outcome_model(
                    match outcome {
                        Option::Some(v) => Option::Some(v@),
                        Option::None => Option::None,
                    },
                ),
            ),
            consumed == old(self).lookup_consumed(),
    {
        let consumed = self.awaiting_consumed;
        let result = self.net_lookup(outcome);
        self.pending_response = encode_addrs_result(&result);
        self.awaiting_lookup = false;
        consumed
    }

    /// Drain the pending response: exactly one destination buffer, whose
    /// length is the most the call copies. The copied prefix leaves the
    /// pending buffer; zero bytes copied means the response is exhausted.
    pub fn read_vectored(&mut self, dst_lens: &Vec<usize>) -> (r: Result<Vec<u8>, DeviceErrno>)
        ensures
            dst_lens@.len() != 1 ==> r == Result::<Vec<u8>, DeviceErrno>::Err(DeviceErrno::Inval)
                && *final(self) == *old(self),
            dst_lens@.len() == 1 && dst_lens@[0] >= old(self).pending().len() ==> (r
                matches Result::Ok(data) && data@ == old(self).pending()) && final(self).pending().len() == 0,
            dst_lens@.len() == 1 && dst_lens@[0] < old(self).pending().len() ==> (r
                matches Result::Ok(data) && data@ == old(self).pending().take(
                dst_lens@[0] as int,
            )) && final(self).pending() == old(self).pending().skip(dst_lens@[0] as int),
            final(self).counter() == old(self).counter(),
            final(self).awaiting() == old(self).awaiting(),
            final(self).lookup_consumed() == old(self).lookup_consumed(),
            old(self).wf() ==> final(self).wf(),
    {
        if dst_lens.len() != 1 {
            return Result::Err(DeviceErrno::Inval);
        }
        let want = dst_lens[0];
        let have = self.pending_response.len();
        let sz = if want < have {
            want
        } else {
            have
        };
        let data = copy_range(&self.pending_response, 0, sz);
        let rest = copy_range(&self.pending_response, sz, have - sz);
        self.pending_response = rest;
        proof {
            assert(data@ =~= old(self).pending().take(sz as int));
            assert(self.pending_response@ =~= old(self).pending().skip(sz as int));
            if want >= old(self).pending().len() {
                assert(data@ =~= old(self).pending());
            }
        }
        Result::Ok(data)
    }
}

} // verus!
