//! The guest-side RPC channel: one virtual device handle per execution
//! context. A call serializes the opcode and body into one buffer, performs
//! a single write, reads the response to exhaustion, and decodes it.
//!
//! A short write or any transport failure poisons the channel: every later
//! call on it fails with `BadDescriptor` without touching the transport.
//! A response that cannot be decoded is `BadResponse` and does not poison;
//! the channel itself is fine, the content was bad.
//!
//! The channel is an explicitly passed resource, so a driver over a real
//! handle and a test over an in-process device use the same code: the
//! stepwise interface (`begin_call`, `complete_write`, `complete_read`)
//! carries the transport outcomes in from outside, and `call` runs a whole
//! exchange against an in-process sysreq device.
use vstd::prelude::*;
use crate::asi_sysreq::{AsiSysreqDevice, WriteEffect, next_counter};
use crate::codec::push_bytes;
use crate::interop::AsiRpcError;
use crate::net::{NetAddr, NetError};
use crate::wire::{
    decode_sysreq_response, dec_resp, enc_req, encode_sysreq_request, lemma_req_round_trip,
    lemma_resp_addrs_round, lemma_resp_err_round, lemma_resp_u64_round, lemma_resp_unit_round,
    ReqModel, RespModel, SysreqRequest, SysreqResponse,
};

verus! {

/// The model of the resolver outcome handed to a Lookup exchange.
pub open spec fn resolution_view(o: Option<Vec<NetAddr>>) -> Option<Seq<NetAddr>> {
    match o {
        Option::None => Option::None,
        Option::Some(v) => Option::Some(v@),
    }
}

/// What a whole in-process exchange returns, by request kind: Hello and Log
/// succeed with no payload, Poke returns the bumped counter, Connect is
/// rejected, and Lookup carries the resolver's outcome as a domain result.
pub open spec fn call_result(m: ReqModel, c0: u64, res: Option<Seq<NetAddr>>) -> Result<
    RespModel,
    AsiRpcError,
> {
    match m {
        ReqModel::Hello { .. } => Result::Ok(RespModel::Unit),
        ReqModel::Poke => Result::Ok(RespModel::Count((c0 + 1) as u64)),
        ReqModel::Log { .. } => Result::Ok(RespModel::Unit),
        ReqModel::Connect { .. } => Result::Err(AsiRpcError::BadRequest),
        ReqModel::Lookup { .. } => match res {
            Option::Some(s) => Result::Ok(RespModel::Addrs(Result::Ok(s))),
            Option::None => Result::Ok(RespModel::Addrs(Result::Err(NetError::Failed))),
        },
    }
}

/// Guest-side RPC channel state: only whether it has been poisoned.
pub struct AsiRpcGuestDevice {
    poisoned: bool,
}

impl AsiRpcGuestDevice {
    /// Whether the channel is unusable for good.
    pub closed spec fn is_poisoned(&self) -> bool {
        self.poisoned
    }

    /// A fresh channel over a newly obtained handle.
    pub fn new() -> (c: Self)
        ensures
            !c.is_poisoned(),
    {
        Self { poisoned: false }
    }

    /// Whether the channel is unusable for good.
    pub fn poisoned(&self) -> (r: bool)
        ensures
            r == self.is_poisoned(),
    {
        self.poisoned
    }

    /// Start a call: fail fast on a poisoned channel, otherwise hand back
    /// the frame to write (opcode, then serialized body).
    pub fn begin_call(&self, req: &SysreqRequest) -> (r: Result<Vec<u8>, AsiRpcError>)
        ensures
            self.is_poisoned() ==> r == Result::<Vec<u8>, AsiRpcError>::Err(
                AsiRpcError::BadDescriptor,
            ),
            !self.is_poisoned() ==> (r matches Result::Ok(frame) && frame@ == enc_req(req@))
                && crate::wire::req_wf(req@),
    {
        if self.poisoned {
            return Result::Err(AsiRpcError::BadDescriptor);
        }
        Result::Ok(encode_sysreq_request(req))
    }

    /// Record the outcome of writing a frame of `frame_len` bytes. Anything
    /// but a full write leaves the transport in an unknown state: the
    /// channel is poisoned and the call fails with `BadDescriptor`.
    pub fn complete_write(&mut self, frame_len: usize, written: Option<usize>) -> (r: Result<
        (),
        AsiRpcError,
    >)
        ensures
            old(self).is_poisoned() ==> final(self).is_poisoned(),
            written == Option::Some(frame_len) ==> r == Result::<(), AsiRpcError>::Ok(())
                && *final(self) == *old(self),
            written != Option::Some(frame_len) ==> r == Result::<(), AsiRpcError>::Err(
                AsiRpcError::BadDescriptor,
            ) && final(self).is_poisoned(),
    {
        match written {
            Option::Some(n) => {
                if n == frame_len {
                    Result::Ok(())
                } else {
                    self.poisoned = true;
                    Result::Err(AsiRpcError::BadDescriptor)
                }
            },
            Option::None => {
                self.poisoned = true;
                Result::Err(AsiRpcError::BadDescriptor)
            },
        }
    }

    /// Record the outcome of reading the response to exhaustion. A read
    /// failure poisons the channel and fails with `BadDescriptor`.
    pub fn complete_read(&mut self, data: Option<Vec<u8>>) -> (r: Result<Vec<u8>, AsiRpcError>)
        ensures
            old(self).is_poisoned() ==> final(self).is_poisoned(),
            (match data {
                Option::Some(buf) => (r matches Result::Ok(b) && b@ == buf@) && *final(self)
                    == *old(self),
                Option::None => r == Result::<Vec<u8>, AsiRpcError>::Err(
                    AsiRpcError::BadDescriptor,
                ) && final(self).is_poisoned(),
            }),
    {
        match data {
            Option::Some(buf) => Result::Ok(buf),
            Option::None => {
                self.poisoned = true;
                Result::Err(AsiRpcError::BadDescriptor)
            },
        }
    }

    /// Run one whole exchange against an in-process sysreq device: write the
    /// frame, drain the response, decode it. `resolution` is the host
    /// resolver's outcome, consulted only when `req` is a Lookup.
    ///
    /// On a poisoned channel the call fails at once and touches nothing. A
    /// rejected write (the device was still busy) poisons the channel. On an
    /// idle device the exchange runs to completion: the device ends idle,
    /// only Poke moves its counter, and the outcome is exactly
    /// `call_result` — never a `BadResponse`, since the device's encodings
    /// decode back to what was encoded.
    #[verifier::rlimit(100)]
    pub fn call(
        &mut self,
        dev: &mut AsiSysreqDevice,
        req: &SysreqRequest,
        resolution: Option<Vec<NetAddr>>,
    ) -> (r: Result<SysreqResponse, AsiRpcError>)
        requires
            old(dev).wf(),
            req@ is Poke ==> old(dev).counter() < u64::MAX,
        ensures
            final(dev).wf(),
            old(self).is_poisoned() ==> r == Result::<SysreqResponse, AsiRpcError>::Err(
                AsiRpcError::BadDescriptor,
            ) && *final(self) == *old(self) && *final(dev) == *old(dev),
            !old(self).is_poisoned() && !old(dev).idle() ==> r == Result::<
                SysreqResponse,
                AsiRpcError,
            >::Err(AsiRpcError::BadDescriptor) && final(self).is_poisoned() && *final(dev) == *old(dev),
            !old(self).is_poisoned() && old(dev).idle() ==> !final(self).is_poisoned() && final(dev).idle() && final(dev).counter() == next_counter(
                Option::Some(req@),
                old(dev).counter(),
            ) && (match r {
                Result::Ok(v) => call_result(req@, old(dev).counter(), resolution_view(resolution))
                    == Result::<RespModel, AsiRpcError>::Ok(v@),
                Result::Err(e) => call_result(
                    req@,
                    old(dev).counter(),
                    resolution_view(resolution),
                ) == Result::<RespModel, AsiRpcError>::Err(e),
            }),
    {
        let ghost c0 = dev.counter();
        match &resolution {
            Option::Some(v) => {
                let n = v.len();
                proof {
                    assert(v@.len() < 0x10000000000000000);
                }
            },
            Option::None => {},
        }
        let frame = match self.begin_call(req) {
            Result::Err(e) => {
                return Result::Err(e);
            },
            Result::Ok(f) => f,
        };
        proof {
            lemma_req_round_trip(req@);
        }
        let frame_len = frame.len();
        let mut bufs: Vec<Vec<u8>> = Vec::new();
        bufs.push(frame);
        let effect = match dev.write_vectored(&bufs) {
            Result::Err(_) => {
                // The device was not ready; the transport is in an unknown
                // state.
                self.poisoned = true;
                return Result::Err(AsiRpcError::BadDescriptor);
            },
            Result::Ok(eff) => eff,
        };
        match effect {
            WriteEffect::Complete { .. } => {},
            WriteEffect::NeedsLookup { .. } => {
                let _ = dev.supply_lookup(resolution);
            },
        }
        let ghost resp0 = dev.pending();
        let ghost cnt_after = dev.counter();
        let mut resp: Vec<u8> = Vec::new();
        loop
            invariant
                resp@ + dev.pending() == resp0,
                dev.counter() == cnt_after,
                !dev.awaiting(),
                !self.is_poisoned(),
            ensures
                resp@ == resp0,
                dev.pending().len() == 0,
                dev.counter() == cnt_after,
                !dev.awaiting(),
                !self.is_poisoned(),
            decreases dev.pending().len(),
        {
            let mut lens: Vec<usize> = Vec::new();
            lens.push(4096);
            match dev.read_vectored(&lens) {
                Result::Err(_) => {
                    // Unreachable over a single buffer, but a read failure
                    // would leave the transport in an unknown state.
                    self.poisoned = true;
                    return Result::Err(AsiRpcError::BadDescriptor);
                },
                Result::Ok(chunk) => {
                    if chunk.len() == 0 {
                        proof {
                            assert(resp@ =~= resp0);
                        }
                        break;
                    }
                    push_bytes(&mut resp, &chunk);
                    proof {
                        assert(resp@ + dev.pending() =~= resp0);
                    }
                },
            }
        }
        proof {
            assert(resp@ =~= resp0);
            match req@ {
                ReqModel::Hello { .. } => {
                    lemma_resp_unit_round(
                        crate::HELLO_OP_CODE,
                        Result::<(), AsiRpcError>::Ok(()),
                    );
                },
                ReqModel::Poke => {
                    lemma_resp_u64_round(Result::<u64, AsiRpcError>::Ok((c0 + 1) as u64));
                },
                ReqModel::Log { .. } => {
                    lemma_resp_unit_round(crate::LOG_OP_CODE, Result::<(), AsiRpcError>::Ok(()));
                },
                ReqModel::Connect { .. } => {
                    lemma_resp_err_round(crate::CONNECT_OP_CODE, AsiRpcError::BadRequest);
                },
                ReqModel::Lookup { .. } => {
                    lemma_resp_addrs_round(
                        match resolution_view(resolution) {
                            Option::Some(s) => Result::Ok(Result::Ok(s)),
                            Option::None => Result::Ok(Result::Err(NetError::Failed)),
                        },
                    );
                },
            }
        }
        decode_sysreq_response(req.op_code(), &resp)
    }
}

} // verus!
