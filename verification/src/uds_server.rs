//! Server side of the control wire protocol: an incremental frame reader
//! with a hard ceiling on the cumulative payload size, the typed requests
//! it produces, and the host's control-loop decisions.
//!
//! The reader is pull-based: `next_need` says how many bytes to read from
//! the connection next, `feed` consumes exactly that many. A frame whose
//! declared payload sizes exceed the ceiling fails before any such payload
//! is requested, so the server's memory use is bounded by the ceiling and
//! not by an attacker-declared length.
use vstd::prelude::*;
use crate::codec::{bytes_eq, le64, read_u64_le};
use crate::uds_proto::magic_seq;

verus! {

/// Ceiling on the cumulative payload size of one request frame.
pub const MAX_PAYLOAD: u64 = 1024 * 2024 * 50;

/// Why a frame was rejected.
#[derive(Clone, Copy, Debug, PartialEq, Eq, Structural)]
pub enum FrameError {
    /// The frame did not open with the magic marker; the connection is not
    /// speaking this protocol and is dropped without a response.
    BadMagic,
    /// The declared cumulative payload size exceeds the ceiling.
    PayloadTooBig,
    /// The operation code is not one the server knows.
    BadOp,
    /// A Run frame did not carry exactly one payload.
    RunArity,
}

/// A typed control-plane request, built fresh from one frame.
#[derive(Debug)]
pub enum ClientRequest {
    Version,
    Shutdown,
    Run { binary: Vec<u8> },
}

/// Mathematical image of a control-plane request.
pub ghost enum CtlModel {
    Version,
    Shutdown,
    Run { binary: Seq<u8> },
}

impl View for ClientRequest {
    type V = CtlModel;

    open spec fn view(&self) -> CtlModel {
        match self {
            ClientRequest::Version => CtlModel::Version,
            ClientRequest::Shutdown => CtlModel::Shutdown,
            ClientRequest::Run { binary } => CtlModel::Run { binary: binary@ },
        }
    }
}

/// Where the reader stands in the frame.
pub ghost enum PhaseModel {
    Magic,
    Op,
    Count,
    PayloadLen,
    PayloadBody { len: u64 },
    Done,
    Failed,
}

#[derive(Clone, Copy, Debug)]
enum Phase {
    Magic,
    Op,
    Count,
    PayloadLen,
    PayloadBody { len: u64 },
    Done,
    Failed,
}

/// The bytes the payloads read so far occupy.
pub open spec fn payload_total(ps: Seq<Seq<u8>>) -> int
    decreases ps.len(),
{
    if ps.len() == 0 {
        0
    } else {
        ps[0].len() + payload_total(ps.skip(1))
    }
}

/// The request an operation code and its payloads finalize to, once all
/// payloads are in: Version and Shutdown take none, Run takes exactly one,
/// and any other code is rejected.
pub open spec fn finalize_model(op: u8, count: u8, ps: Seq<Seq<u8>>) -> Result<
    CtlModel,
    FrameError,
> {
    if op == 0 {
        Result::Ok(CtlModel::Version)
    } else if op == 1 {
        Result::Ok(CtlModel::Shutdown)
    } else if op == 2 {
        if count != 1 {
            Result::Err(FrameError::RunArity)
        } else {
            Result::Ok(CtlModel::Run { binary: ps.last() })
        }
    } else {
        Result::Err(FrameError::BadOp)
    }
}

/// Incremental reader for one request frame.
pub struct FrameReader {
    phase: Phase,
    op: u8,
    count: u8,
    got: u8,
    payloads: Vec<Vec<u8>>,
    total: u64,
    request: Option<ClientRequest>,
    error: Option<FrameError>,
}

impl FrameReader {
    /// Where the reader stands.
    pub closed spec fn phase(&self) -> PhaseModel {
        match self.phase {
            Phase::Magic => PhaseModel::Magic,
            Phase::Op => PhaseModel::Op,
            Phase::Count => PhaseModel::Count,
            Phase::PayloadLen => PhaseModel::PayloadLen,
            Phase::PayloadBody { len } => PhaseModel::PayloadBody { len },
            Phase::Done => PhaseModel::Done,
            Phase::Failed => PhaseModel::Failed,
        }
    }

    /// The operation code read so far.
    pub closed spec fn op_v(&self) -> u8 {
        self.op
    }

    /// The payload count the frame declared.
    pub closed spec fn count_v(&self) -> u8 {
        self.count
    }

    /// How many payloads have been read whole.
    pub closed spec fn got_v(&self) -> u8 {
        self.got
    }

    /// The payloads read whole so far, in order.
    pub closed spec fn payloads_v(&self) -> Seq<Seq<u8>> {
        self.payloads@.map_values(|v: Vec<u8>| v@)
    }

    /// The cumulative payload size declared so far.
    pub closed spec fn total_v(&self) -> u64 {
        self.total
    }

    /// The request a finished frame produced.
    pub closed spec fn request_v(&self) -> Option<CtlModel> {
        match self.request {
            Option::None => Option::None,
            Option::Some(q) => Option::Some(q@),
        }
    }

    /// Why the frame was rejected.
    pub closed spec fn error_v(&self) -> Option<FrameError> {
        match self.error {
            Option::None => Option::None,
            Option::Some(e) => Option::Some(e),
        }
    }

    /// The reader never holds more payload bytes than the ceiling, and a
    /// finished reader holds its outcome.
    pub open spec fn wf(&self) -> bool {
        &&& self.total_v() <= MAX_PAYLOAD
        &&& (match self.phase() {
            PhaseModel::PayloadBody { len } => payload_total(self.payloads_v()) + len
                == self.total_v(),
            _ => payload_total(self.payloads_v()) == self.total_v(),
        })
        &&& (self.phase() is Done ==> self.request_v() is Some)
        &&& (self.phase() is Failed ==> self.error_v() is Some)
        &&& (self.phase() is PayloadLen || self.phase() is PayloadBody ==> self.got_v()
            < self.count_v())
    }

    /// Whether the frame is finished, by success or failure.
    pub open spec fn finished(&self) -> bool {
        self.phase() is Done || self.phase() is Failed
    }

    /// How many bytes the reader asks for next.
    pub open spec fn need_spec(&self) -> int {
        match self.phase() {
            PhaseModel::Magic => 6,
            PhaseModel::Op => 1,
            PhaseModel::Count => 1,
            PhaseModel::PayloadLen => 8,
            PhaseModel::PayloadBody { len } => len as int,
            PhaseModel::Done => 0,
            PhaseModel::Failed => 0,
        }
    }

    /// A fresh reader, waiting for the magic marker.
    pub fn new() -> (r: Self)
        ensures
            r.wf(),
            r.phase() is Magic,
    {
        let r = FrameReader {
            phase: Phase::Magic,
            op: 0,
            count: 0,
            got: 0,
            payloads: Vec::new(),
            total: 0,
            request: Option::None,
            error: Option::None,
        };
        proof {
            assert(r.payloads_v() =~= Seq::<Seq<u8>>::empty());
        }
        r
    }

    /// How many bytes to read from the connection next; never more than the
    /// ceiling, so no read the reader asks for can blow up memory.
    pub fn next_need(&self) -> (n: u64)
        requires
            self.wf(),
        ensures
            n as int == self.need_spec(),
            n <= MAX_PAYLOAD,
    {
        proof {
            match self.phase() {
                PhaseModel::PayloadBody { .. } => {
                    lemma_payload_total_nonneg(self.payloads_v());
                },
                _ => {},
            }
        }
        match self.phase {
            Phase::Magic => 6,
            Phase::Op => 1,
            Phase::Count => 1,
            Phase::PayloadLen => 8,
            Phase::PayloadBody { len } => len,
            Phase::Done => 0,
            Phase::Failed => 0,
        }
    }

    /// Whether the frame is finished.
    pub fn is_finished(&self) -> (b: bool)
        ensures
            b == self.finished(),
    {
        match self.phase {
            Phase::Done => true,
            Phase::Failed => true,
            _ => false,
        }
    }

    /// Hand out a finished frame's outcome.
    pub fn finish(self) -> (r: Result<ClientRequest, FrameError>)
        requires
            self.wf(),
            self.finished(),
        ensures
            self.phase() is Done ==> (r matches Result::Ok(q) && Option::Some(q@)
                == self.request_v()),
            self.phase() is Failed ==> (r matches Result::Err(e) && Option::Some(e)
                == self.error_v()),
    {
        match self.phase {
            Phase::Done => match self.request {
                Option::Some(q) => Result::Ok(q),
                Option::None => Result::Err(FrameError::BadOp),
            },
            _ => match self.error {
                Option::Some(e) => Result::Err(e),
                Option::None => Result::Err(FrameError::BadOp),
            },
        }
    }

    /// Move to the finished state the collected frame finalizes to.
    fn finalize(&mut self)
        requires
            old(self).wf(),
            old(self).count_v() == 1 ==> old(self).payloads_v().len() >= 1,
            !(old(self).phase() is PayloadBody),
        ensures
            final(self).wf(),
            final(self).finished(),
            final(self).op_v() == old(self).op_v(),
            final(self).count_v() == old(self).count_v(),
            (match finalize_model(old(self).op_v(), old(self).count_v(), old(self).payloads_v()) {
                Result::Ok(m) => final(self).phase() is Done && final(self).request_v()
                    == Option::Some(m),
                Result::Err(e) => final(self).phase() is Failed && final(self).error_v()
                    == Option::Some(e),
            }),
    {
        if self.op == 0 {
            self.request = Option::Some(ClientRequest::Version);
            self.phase = Phase::Done;
        } else if self.op == 1 {
            self.request = Option::Some(ClientRequest::Shutdown);
            self.phase = Phase::Done;
        } else if self.op == 2 {
            if self.count != 1 {
                self.error = Option::Some(FrameError::RunArity);
                self.phase = Phase::Failed;
            } else {
                match self.payloads.pop() {
                    Option::Some(binary) => {
                        proof {
                            assert(old(self).payloads_v().last() == binary@);
                        }
                        self.payloads = Vec::new();
                        self.total = 0;
                        self.request = Option::Some(ClientRequest::Run { binary });
                        self.phase = Phase::Done;
                        proof {
                            assert(self.payloads_v() =~= Seq::<Seq<u8>>::empty());
                        }
                    },
                    Option::None => {
                        self.error = Option::Some(FrameError::RunArity);
                        self.phase = Phase::Failed;
                    },
                }
            }
        } else {
            self.error = Option::Some(FrameError::BadOp);
            self.phase = Phase::Failed;
        }
    }

    /// Consume exactly the bytes `next_need` asked for and advance.
    ///
    /// A frame that does not open with the magic marker fails with
    /// `BadMagic` and no request is ever produced from it. A declared
    /// payload length that would push the cumulative size over the ceiling
    /// fails the frame with `PayloadTooBig` before that payload is ever
    /// requested.
    #[verifier::rlimit(60)]
    pub fn feed(&mut self, bytes: Vec<u8>)
        requires
            old(self).wf(),
            !old(self).finished(),
            bytes@.len() == old(self).need_spec(),
        ensures
            final(self).wf(),
            old(self).phase() is Magic && bytes@ != magic_seq() ==> final(self).phase() is Failed
                && final(self).error_v() == Option::Some(FrameError::BadMagic),
            old(self).phase() is Magic && bytes@ == magic_seq() ==> final(self).phase() is Op
                && final(self).total_v() == old(self).total_v() && final(self).payloads_v()
                == old(self).payloads_v(),
            old(self).phase() is Op ==> final(self).phase() is Count && final(self).op_v()
                == bytes@[0] && final(self).total_v() == old(self).total_v() && final(self).payloads_v() == old(self).payloads_v(),
            old(self).phase() is Count && bytes@[0] == 0 ==> (match finalize_model(
                old(self).op_v(),
                0,
                old(self).payloads_v(),
            ) {
                Result::Ok(m) => final(self).phase() is Done && final(self).request_v()
                    == Option::Some(m),
                Result::Err(e) => final(self).phase() is Failed && final(self).error_v()
                    == Option::Some(e),
            }),
            old(self).phase() is Count && bytes@[0] != 0 ==> final(self).phase() is PayloadLen
                && final(self).count_v() == bytes@[0] && final(self).got_v() == 0 && final(self).op_v() == old(self).op_v() && final(self).total_v() == old(self).total_v() && final(self).payloads_v() == old(self).payloads_v(),
            old(self).phase() is PayloadLen && le64(bytes@) > MAX_PAYLOAD - old(self).total_v()
                ==> final(self).phase() is Failed && final(self).error_v() == Option::Some(
                FrameError::PayloadTooBig,
            ),
            old(self).phase() is PayloadLen && le64(bytes@) <= MAX_PAYLOAD - old(self).total_v()
                ==> final(self).phase() == (PhaseModel::PayloadBody { len: le64(bytes@) }) && final(self).total_v() == old(self).total_v() + le64(bytes@) && final(self).payloads_v() == old(self).payloads_v() && final(self).op_v() == old(self).op_v() && final(self).count_v()
                == old(self).count_v() && final(self).got_v() == old(self).got_v(),
            old(self).phase() is PayloadBody ==> final(self).op_v() == old(self).op_v() && final(self).count_v() == old(self).count_v() && (old(self).got_v() + 1 < old(self).count_v()
                ==> final(self).phase() is PayloadLen && final(self).got_v() == old(self).got_v()
                + 1 && final(self).payloads_v() == old(self).payloads_v().push(bytes@)) && (old(self).got_v() + 1 >= old(self).count_v() ==> (
            match finalize_model(
                old(self).op_v(),
                old(self).count_v(),
                old(self).payloads_v().push(bytes@),
            ) {
                Result::Ok(m) => final(self).phase() is Done && final(self).request_v()
                    == Option::Some(m),
                Result::Err(e) => final(self).phase() is Failed && final(self).error_v()
                    == Option::Some(e),
            })),
    {
        let ph = self.phase;
        match ph {
            Phase::Magic => {
                let magic = crate::uds_proto::magic_bytes();
                if bytes_eq(&bytes, &magic) {
                    self.phase = Phase::Op;
                } else {
                    self.error = Option::Some(FrameError::BadMagic);
                    self.phase = Phase::Failed;
                }
            },
            Phase::Op => {
                self.op = bytes[0];
                self.phase = Phase::Count;
            },
            Phase::Count => {
                let c = bytes[0];
                if c == 0 {
                    self.count = 0;
                    self.finalize();
                } else {
                    self.count = c;
                    self.got = 0;
                    self.phase = Phase::PayloadLen;
                }
            },
            Phase::PayloadLen => {
                let n = read_u64_le(&bytes, 0);
                proof {
                    assert(bytes@.subrange(0, 8) =~= bytes@);
                }
                if n > MAX_PAYLOAD - self.total {
                    self.error = Option::Some(FrameError::PayloadTooBig);
                    self.phase = Phase::Failed;
                } else {
                    self.total = self.total + n;
                    self.phase = Phase::PayloadBody { len: n };
                }
            },
            Phase::PayloadBody { .. } => {
                let ghost ps0 = self.payloads_v();
                let ghost bv = bytes@;
                self.payloads.push(bytes);
                proof {
                    assert(self.payloads_v() =~= ps0.push(bv));
                    lemma_payload_total_snoc(ps0, bv);
                }
                self.got = self.got + 1;
                if self.got < self.count {
                    self.phase = Phase::PayloadLen;
                } else {
                    self.phase = Phase::Count;
                    self.finalize();
                }
            },
            Phase::Done => {},
            Phase::Failed => {},
        }
    }
}

/// The payload bytes held never count negative.
pub proof fn lemma_payload_total_nonneg(ps: Seq<Seq<u8>>)
    ensures
        payload_total(ps) >= 0,
    decreases ps.len(),
{
    if ps.len() > 0 {
        lemma_payload_total_nonneg(ps.skip(1));
    }
}

/// Adding one payload adds its length.
pub proof fn lemma_payload_total_snoc(ps: Seq<Seq<u8>>, p: Seq<u8>)
    ensures
        payload_total(ps.push(p)) == payload_total(ps) + p.len(),
    decreases ps.len(),
{
    if ps.len() == 0 {
        assert(ps.push(p)[0] == p);
        assert(ps.push(p).skip(1) =~= Seq::<Seq<u8>>::empty());
        assert(payload_total(ps.push(p)) == p.len() + payload_total(ps.push(p).skip(1)));
        assert(payload_total(Seq::<Seq<u8>>::empty()) == 0);
        assert(payload_total(ps) == 0);
    } else {
        assert(ps.push(p)[0] == ps[0]);
        assert(ps.push(p).skip(1) =~= ps.skip(1).push(p));
        assert(payload_total(ps.push(p)) == ps[0].len() + payload_total(ps.skip(1).push(p)));
        lemma_payload_total_snoc(ps.skip(1), p);
    }
}

/// What the host does with one control-plane request.
#[derive(Debug)]
pub enum HostDirective {
    /// Answer at once with a success payload; stop the loop if `stop`.
    Respond { payload: Vec<u8>, stop: bool },
    /// Launch the carried module, then answer with `run_response`.
    Spawn { binary: Vec<u8> },
}

/// The payload a Version request is answered with: the text `1.0`.
pub open spec fn version_payload() -> Seq<u8> {
    seq![49u8, 46u8, 48u8]
}

/// The error message a failed module launch is answered with.
pub open spec fn run_failed_msg() -> Seq<u8> {
    seq![102u8, 97u8, 105u8, 108u8, 101u8, 100u8, 32u8, 116u8, 111u8, 32u8, 115u8, 116u8, 97u8, 114u8, 116u8, 32u8, 112u8, 114u8, 111u8, 99u8, 101u8, 115u8, 115u8]
}

/// The host's control-loop decision for one request: Version is answered
/// with the version text, Shutdown with an empty success and a stop of the
/// loop, and Run asks for the module to be launched.
pub fn control_step(req: ClientRequest) -> (d: HostDirective)
    ensures
        req@ is Version ==> (d matches HostDirective::Respond { payload, stop } && payload@
            == version_payload() && !stop),
        req@ is Shutdown ==> (d matches HostDirective::Respond { payload, stop } && payload@
            == Seq::<u8>::empty() && stop),
        (match req@ {
            CtlModel::Run { binary } => d matches HostDirective::Spawn { binary: b } && b@
                == binary,
            _ => true,
        }),
{
    match req {
        ClientRequest::Version => {
            let mut payload: Vec<u8> = Vec::new();
            payload.push(49u8);
            payload.push(46u8);
            payload.push(48u8);
            proof {
                assert(payload@ =~= version_payload());
            }
            HostDirective::Respond { payload, stop: false }
        },
        ClientRequest::Shutdown => HostDirective::Respond { payload: Vec::new(), stop: true },
        ClientRequest::Run { binary } => HostDirective::Spawn { binary },
    }
}

/// The answer to a Run request once the launch was attempted: an empty
/// success, or the launch-failure message as an error.
pub fn run_response(ok: bool) -> (r: Result<Vec<u8>, Vec<u8>>)
    ensures
        ok ==> (r matches Result::Ok(p) && p@ == Seq::<u8>::empty()),
        !ok ==> (r matches Result::Err(m) && m@ == run_failed_msg()),
{
    if ok {
        Result::Ok(Vec::new())
    } else {
        let mut m: Vec<u8> = Vec::new();
    m.push(102u8);
    m.push(97u8);
    m.push(105u8);
    m.push(108u8);
    m.push(101u8);
    m.push(100u8);
    m.push(32u8);
    m.push(116u8);
    m.push(111u8);
    m.push(32u8);
    m.push(115u8);
    m.push(116u8);
    m.push(97u8);
    m.push(114u8);
    m.push(116u8);
    m.push(32u8);
    m.push(112u8);
    m.push(114u8);
    m.push(111u8);
    m.push(99u8);
    m.push(101u8);
    m.push(115u8);
    m.push(115u8);
        proof {
            assert(m@ =~= run_failed_msg());
        }
        Result::Err(m)
    }
}

/// Serialize a response frame: status byte 0 then the payload on success,
/// status byte 1 then the message bytes on error.
pub fn encode_response(resp: &Result<Vec<u8>, Vec<u8>>) -> (out: Vec<u8>)
    ensures
        (match *resp {
            Result::Ok(p) => out@ == seq![0u8] + p@,
            Result::Err(m) => out@ == seq![1u8] + m@,
        }),
{
    let mut out: Vec<u8> = Vec::new();
    match resp {
        Result::Ok(p) => {
            out.push(0u8);
            crate::codec::push_bytes(&mut out, p);
            proof {
                assert(out@ =~= seq![0u8] + p@);
            }
        },
        Result::Err(m) => {
            out.push(1u8);
            crate::codec::push_bytes(&mut out, m);
            proof {
                assert(out@ =~= seq![1u8] + m@);
            }
        },
    }
    out
}

} // verus!
