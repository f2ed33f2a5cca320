//! The sysreq wire format: a request is a 4-byte little-endian opcode
//! followed by the serialized request body; a response is a serialized
//! result value (success payload or typed RPC error).
use vstd::prelude::*;
use crate::codec::{push_bytes, push_u16_le, push_u32_le, push_u64_le, u16_le, u32_le, u64_le, le16, le32, le64, copy_range, read_u16_le, read_u32_le, read_u64_le, lemma_u16_le_round, lemma_u32_le_round, lemma_u64_le_round};
use crate::diagnostics::{HelloRpcRequest, LogModel, LogRpcRequest, PokeRpcRequest, opt_view};
use crate::interop::{AsiFd, AsiRpcError};
use crate::net::{ConnectAddrs, ConnectRpcRequest, LookupRpcRequest, NetAddr, NetError};

verus! {

// ---------------------------------------------------------------------------
// Requests and their mathematical image
// ---------------------------------------------------------------------------

/// A request the guest can issue on the sysreq device, tagged with the kind
/// that fixes its opcode.
#[derive(Clone, Debug)]
pub enum SysreqRequest {
    Hello(HelloRpcRequest),
    Poke(PokeRpcRequest),
    Log(LogRpcRequest),
    Connect(ConnectRpcRequest),
    Lookup(LookupRpcRequest),
}

/// Mathematical image of a sysreq request.
pub ghost enum ReqModel {
    Hello { who: Seq<u8> },
    Poke,
    Log { rec: LogModel },
    Connect { addrs: Seq<NetAddr> },
    Lookup { query: Seq<u8> },
}

impl View for SysreqRequest {
    type V = ReqModel;

    open spec fn view(&self) -> ReqModel {
        match self {
            SysreqRequest::Hello(r) => ReqModel::Hello { who: r.who@ },
            SysreqRequest::Poke(_) => ReqModel::Poke,
            SysreqRequest::Log(r) => ReqModel::Log { rec: r@ },
            SysreqRequest::Connect(r) => ReqModel::Connect { addrs: r@ },
            SysreqRequest::Lookup(r) => ReqModel::Lookup { query: r.query@ },
        }
    }
}

/// The opcode a request model travels under.
pub open spec fn op_of(m: ReqModel) -> u32 {
    match m {
        ReqModel::Hello { .. } => crate::HELLO_OP_CODE,
        ReqModel::Poke => crate::POKE_OP_CODE,
        ReqModel::Log { .. } => crate::LOG_OP_CODE,
        ReqModel::Connect { .. } => crate::CONNECT_OP_CODE,
        ReqModel::Lookup { .. } => crate::LOOKUP_OP_CODE,
    }
}

impl SysreqRequest {
    /// The opcode this request travels under.
    pub fn op_code(&self) -> (r: u32)
        ensures
            r == op_of(self@),
    {
        match self {
            SysreqRequest::Hello(_) => crate::HELLO_OP_CODE,
            SysreqRequest::Poke(_) => crate::POKE_OP_CODE,
            SysreqRequest::Log(_) => crate::LOG_OP_CODE,
            SysreqRequest::Connect(_) => crate::CONNECT_OP_CODE,
            SysreqRequest::Lookup(_) => crate::LOOKUP_OP_CODE,
        }
    }
}

// ---------------------------------------------------------------------------
// Encoding, stated as spec functions
// ---------------------------------------------------------------------------

/// A byte string under an 8-byte little-endian length prefix.
pub open spec fn enc_lp(b: Seq<u8>) -> Seq<u8> {
    u64_le(b.len() as u64) + b
}

/// An optional byte string: a presence byte, then the string length-prefixed.
pub open spec fn enc_opt_lp(o: Option<Seq<u8>>) -> Seq<u8> {
    match o {
        Option::None => seq![0u8],
        Option::Some(b) => seq![1u8] + enc_lp(b),
    }
}

/// An optional 32-bit value: a presence byte, then the value little-endian.
pub open spec fn enc_opt_u32(o: Option<u32>) -> Seq<u8> {
    match o {
        Option::None => seq![0u8],
        Option::Some(x) => seq![1u8] + u32_le(x),
    }
}

/// A socket address: a family tag, the address parts, then the port.
pub open spec fn enc_addr(a: NetAddr) -> Seq<u8> {
    match a {
        NetAddr::V4 { a, b, c, d, port } => seq![0u8, a, b, c, d] + u16_le(port),
        NetAddr::V6 { s0, s1, s2, s3, s4, s5, s6, s7, port } => seq![1u8] + u16_le(s0) + u16_le(
            s1,
        ) + u16_le(s2) + u16_le(s3) + u16_le(s4) + u16_le(s5) + u16_le(s6) + u16_le(s7) + u16_le(
            port,
        ),
    }
}

/// A run of addresses, one after the other.
pub open spec fn enc_addr_list(s: Seq<NetAddr>) -> Seq<u8>
    decreases s.len(),
{
    if s.len() == 0 {
        Seq::empty()
    } else {
        enc_addr(s[0]) + enc_addr_list(s.skip(1))
    }
}

/// An address list: an 8-byte count, then the addresses.
pub open spec fn enc_addrs(s: Seq<NetAddr>) -> Seq<u8> {
    u64_le(s.len() as u64) + enc_addr_list(s)
}

/// A log record: target, level, body, then the three optional fields.
pub open spec fn enc_log(rec: LogModel) -> Seq<u8> {
    enc_lp(rec.target) + u32_le(rec.level) + enc_lp(rec.body) + enc_opt_lp(rec.module)
        + enc_opt_lp(rec.file) + enc_opt_u32(rec.line)
}

/// The serialized body of a request, without its opcode.
pub open spec fn enc_req_body(m: ReqModel) -> Seq<u8> {
    match m {
        ReqModel::Hello { who } => who,
        ReqModel::Poke => Seq::empty(),
        ReqModel::Log { rec } => enc_log(rec),
        ReqModel::Connect { addrs } => enc_addrs(addrs),
        ReqModel::Lookup { query } => query,
    }
}

/// A whole request frame: opcode, then body.
pub open spec fn enc_req(m: ReqModel) -> Seq<u8> {
    u32_le(op_of(m)) + enc_req_body(m)
}

// ---------------------------------------------------------------------------
// Encoding, executable
// ---------------------------------------------------------------------------

/// Append `b` under a length prefix.
pub fn push_lp(out: &mut Vec<u8>, b: &Vec<u8>)
    ensures
        final(out)@ == old(out)@ + enc_lp(b@),
        b@.len() < 0x10000000000000000,
{
    push_u64_le(out, b.len() as u64);
    push_bytes(out, b);
    assert(out@ =~= old(out)@ + enc_lp(b@));
}

/// Append an optional byte string.
pub fn push_opt_lp(out: &mut Vec<u8>, o: &Option<Vec<u8>>)
    ensures
        final(out)@ == old(out)@ + enc_opt_lp(opt_view(*o)),
        opt_bytes_wf(opt_view(*o)),
{
    match o {
        Option::None => {
            out.push(0u8);
            assert(out@ =~= old(out)@ + enc_opt_lp(opt_view(*o)));
        },
        Option::Some(b) => {
            out.push(1u8);
            push_lp(out, b);
            assert(out@ =~= old(out)@ + enc_opt_lp(opt_view(*o)));
        },
    }
}

/// Append an optional 32-bit value.
pub fn push_opt_u32(out: &mut Vec<u8>, o: &Option<u32>)
    ensures
        final(out)@ == old(out)@ + enc_opt_u32(*o),
{
    match o {
        Option::None => {
            out.push(0u8);
            assert(out@ =~= old(out)@ + enc_opt_u32(*o));
        },
        Option::Some(x) => {
            out.push(1u8);
            push_u32_le(out, *x);
            assert(out@ =~= old(out)@ + enc_opt_u32(*o));
        },
    }
}

/// Append one socket address.
pub fn push_addr(out: &mut Vec<u8>, addr: &NetAddr)
    ensures
        final(out)@ == old(out)@ + enc_addr(*addr),
{
    match addr {
        NetAddr::V4 { a, b, c, d, port } => {
            out.push(0u8);
            out.push(*a);
            out.push(*b);
            out.push(*c);
            out.push(*d);
            push_u16_le(out, *port);
            assert(out@ =~= old(out)@ + enc_addr(*addr));
        },
        NetAddr::V6 { s0, s1, s2, s3, s4, s5, s6, s7, port } => {
            out.push(1u8);
            push_u16_le(out, *s0);
            push_u16_le(out, *s1);
            push_u16_le(out, *s2);
            push_u16_le(out, *s3);
            push_u16_le(out, *s4);
            push_u16_le(out, *s5);
            push_u16_le(out, *s6);
            push_u16_le(out, *s7);
            push_u16_le(out, *port);
            assert(out@ =~= old(out)@ + enc_addr(*addr));
        },
    }
}

/// Splitting the last address off a run of encoded addresses.
pub proof fn lemma_enc_addr_list_snoc(s: Seq<NetAddr>, a: NetAddr)
    ensures
        enc_addr_list(s.push(a)) == enc_addr_list(s) + enc_addr(a),
    decreases s.len(),
{
    if s.len() == 0 {
        assert(s.push(a)[0] == a);
        assert(s.push(a).skip(1) =~= Seq::<NetAddr>::empty());
        assert(enc_addr_list(s.push(a)) == enc_addr(a) + enc_addr_list(s.push(a).skip(1)));
        assert(enc_addr_list(Seq::<NetAddr>::empty()) == Seq::<u8>::empty());
        assert(enc_addr_list(s) == Seq::<u8>::empty());
        assert(enc_addr_list(s.push(a)) =~= enc_addr_list(s) + enc_addr(a));
    } else {
        assert(s.push(a)[0] == s[0]);
        assert(s.push(a).skip(1) =~= s.skip(1).push(a));
        assert(enc_addr_list(s.push(a)) == enc_addr(s[0]) + enc_addr_list(s.skip(1).push(a)));
        lemma_enc_addr_list_snoc(s.skip(1), a);
        assert(enc_addr(s[0]) + (enc_addr_list(s.skip(1)) + enc_addr(a)) =~= (enc_addr(s[0])
            + enc_addr_list(s.skip(1))) + enc_addr(a));
        assert(enc_addr_list(s.push(a)) =~= enc_addr_list(s) + enc_addr(a));
    }
}

/// Append an address list under its count.
pub fn push_addrs(out: &mut Vec<u8>, addrs: &Vec<NetAddr>)
    ensures
        final(out)@ == old(out)@ + enc_addrs(addrs@),
        addrs@.len() < 0x10000000000000000,
{
    push_u64_le(out, addrs.len() as u64);
    let mut i: usize = 0;
    while i < addrs.len()
        invariant
            i <= addrs.len(),
            out@ == old(out)@ + u64_le(addrs@.len() as u64) + enc_addr_list(addrs@.take(i as int)),
        decreases addrs.len() - i,
    {
        push_addr(out, &addrs[i]);
        proof {
            assert(addrs@.take(i as int + 1) =~= addrs@.take(i as int).push(addrs@[i as int]));
            lemma_enc_addr_list_snoc(addrs@.take(i as int), addrs@[i as int]);
            assert(out@ =~= old(out)@ + u64_le(addrs@.len() as u64) + enc_addr_list(
                addrs@.take(i as int + 1),
            ));
        }
        i = i + 1;
    }
    proof {
        assert(addrs@.take(addrs@.len() as int) =~= addrs@);
        assert(out@ =~= old(out)@ + enc_addrs(addrs@));
    }
}

/// Append the serialized body of a log record.
pub fn push_log(out: &mut Vec<u8>, rec: &LogRpcRequest)
    ensures
        final(out)@ == old(out)@ + enc_log(rec@),
        log_wf(rec@),
{
    push_lp(out, &rec.target);
    push_u32_le(out, rec.level);
    push_lp(out, &rec.body);
    push_opt_lp(out, &rec.module);
    push_opt_lp(out, &rec.file);
    push_opt_u32(out, &rec.line);
    assert(out@ =~= old(out)@ + enc_log(rec@));
}

/// Serialize a request: 4-byte little-endian opcode, then the body.
pub fn encode_sysreq_request(req: &SysreqRequest) -> (out: Vec<u8>)
    ensures
        out@ == enc_req(req@),
        out@.len() >= 4,
        req_wf(req@),
{
    let mut out: Vec<u8> = Vec::new();
    push_u32_le(&mut out, req.op_code());
    match req {
        SysreqRequest::Hello(r) => {
            push_bytes(&mut out, &r.who);
        },
        SysreqRequest::Poke(_) => {},
        SysreqRequest::Log(r) => {
            push_log(&mut out, r);
        },
        SysreqRequest::Connect(r) => {
            match &r.target {
                ConnectAddrs::Tcp { addrs } => {
                    push_addrs(&mut out, addrs);
                },
            }
        },
        SysreqRequest::Lookup(r) => {
            push_bytes(&mut out, &r.query);
        },
    }
    assert(out@ =~= enc_req(req@));
    out
}

// ---------------------------------------------------------------------------
// Responses and their encodings
// ---------------------------------------------------------------------------

/// The typed payload of a successful sysreq response, by request kind.
#[derive(Debug)]
pub enum SysreqResponse {
    /// Hello and Log succeed with no payload.
    Unit,
    /// Poke returns the new counter value.
    Count(u64),
    /// Connect returns a descriptor or a domain error.
    Fd(Result<AsiFd, NetError>),
    /// Lookup returns the resolved addresses or a domain error.
    Addrs(Result<Vec<NetAddr>, NetError>),
}

/// Mathematical image of a response payload.
pub ghost enum RespModel {
    Unit,
    Count(u64),
    Fd(Result<AsiFd, NetError>),
    Addrs(Result<Seq<NetAddr>, NetError>),
}

impl View for SysreqResponse {
    type V = RespModel;

    open spec fn view(&self) -> RespModel {
        match self {
            SysreqResponse::Unit => RespModel::Unit,
            SysreqResponse::Count(x) => RespModel::Count(*x),
            SysreqResponse::Fd(r) => RespModel::Fd(*r),
            SysreqResponse::Addrs(r) => (match r {
                Result::Ok(v) => RespModel::Addrs(Result::Ok(v@)),
                Result::Err(e) => RespModel::Addrs(Result::Err(*e)),
            }),
        }
    }
}

/// The byte a transport error travels as.
pub open spec fn rpc_err_code(e: AsiRpcError) -> u8 {
    match e {
        AsiRpcError::BadDescriptor => 0u8,
        AsiRpcError::BadRequest => 1u8,
        AsiRpcError::BadResponse => 2u8,
    }
}

/// The byte a domain error travels as.
pub open spec fn net_err_code(e: NetError) -> u8 {
    match e {
        NetError::AccessDenied => 0u8,
        NetError::NotFound => 1u8,
        NetError::Failed => 2u8,
    }
}

/// A failed exchange: error tag, then the error code.
pub open spec fn enc_err(e: AsiRpcError) -> Seq<u8> {
    seq![1u8, rpc_err_code(e)]
}

/// A response with no payload.
pub open spec fn enc_unit_result(r: Result<(), AsiRpcError>) -> Seq<u8> {
    match r {
        Result::Ok(_) => seq![0u8],
        Result::Err(e) => enc_err(e),
    }
}

/// A response carrying a 64-bit counter.
pub open spec fn enc_u64_result(r: Result<u64, AsiRpcError>) -> Seq<u8> {
    match r {
        Result::Ok(x) => seq![0u8] + u64_le(x),
        Result::Err(e) => enc_err(e),
    }
}

/// The inner result of a Connect exchange: a descriptor or a domain error.
pub open spec fn enc_fd_inner(r: Result<AsiFd, NetError>) -> Seq<u8> {
    match r {
        Result::Ok(fd) => seq![0u8] + u32_le(fd as u32),
        Result::Err(e) => seq![1u8, net_err_code(e)],
    }
}

/// A Connect response.
pub open spec fn enc_fd_result(r: Result<Result<AsiFd, NetError>, AsiRpcError>) -> Seq<u8> {
    match r {
        Result::Ok(inner) => seq![0u8] + enc_fd_inner(inner),
        Result::Err(e) => enc_err(e),
    }
}

/// The inner result of a Lookup exchange: addresses or a domain error.
pub open spec fn enc_addrs_inner(r: Result<Seq<NetAddr>, NetError>) -> Seq<u8> {
    match r {
        Result::Ok(s) => seq![0u8] + enc_addrs(s),
        Result::Err(e) => seq![1u8, net_err_code(e)],
    }
}

/// A Lookup response.
pub open spec fn enc_addrs_result(r: Result<Result<Seq<NetAddr>, NetError>, AsiRpcError>) -> Seq<
    u8,
> {
    match r {
        Result::Ok(inner) => seq![0u8] + enc_addrs_inner(inner),
        Result::Err(e) => enc_err(e),
    }
}

/// Serialize a failed exchange.
pub fn encode_err(e: AsiRpcError) -> (out: Vec<u8>)
    ensures
        out@ == enc_err(e),
{
    let code: u8 = match e {
        AsiRpcError::BadDescriptor => 0u8,
        AsiRpcError::BadRequest => 1u8,
        AsiRpcError::BadResponse => 2u8,
    };
    let mut out: Vec<u8> = Vec::new();
    out.push(1u8);
    out.push(code);
    assert(out@ =~= enc_err(e));
    out
}

/// Serialize a response with no payload.
pub fn encode_unit_result(r: &Result<(), AsiRpcError>) -> (out: Vec<u8>)
    ensures
        out@ == enc_unit_result(*r),
{
    match r {
        Result::Ok(_) => {
            let mut out: Vec<u8> = Vec::new();
            out.push(0u8);
            assert(out@ =~= enc_unit_result(*r));
            out
        },
        Result::Err(e) => encode_err(*e),
    }
}

/// Serialize a counter response.
pub fn encode_u64_result(r: &Result<u64, AsiRpcError>) -> (out: Vec<u8>)
    ensures
        out@ == enc_u64_result(*r),
{
    match r {
        Result::Ok(x) => {
            let mut out: Vec<u8> = Vec::new();
            out.push(0u8);
            push_u64_le(&mut out, *x);
            assert(out@ =~= enc_u64_result(*r));
            out
        },
        Result::Err(e) => encode_err(*e),
    }
}

/// The model of a Lookup exchange result whose addresses are still a vector.
pub open spec fn addrs_result_view(r: Result<Result<Vec<NetAddr>, NetError>, AsiRpcError>) -> Result<
    Result<Seq<NetAddr>, NetError>,
    AsiRpcError,
> {
    match r {
        Result::Ok(Result::Ok(v)) => Result::Ok(Result::Ok(v@)),
        Result::Ok(Result::Err(e)) => Result::Ok(Result::Err(e)),
        Result::Err(e) => Result::Err(e),
    }
}

/// Serialize a Lookup response.
pub fn encode_addrs_result(r: &Result<Result<Vec<NetAddr>, NetError>, AsiRpcError>) -> (out: Vec<
    u8,
>)
    ensures
        out@ == enc_addrs_result(addrs_result_view(*r)),
        (match *r {
            Result::Ok(Result::Ok(v)) => v@.len() < 0x10000000000000000,
            _ => true,
        }),
{
    match r {
        Result::Ok(inner) => {
            let mut out: Vec<u8> = Vec::new();
            out.push(0u8);
            match inner {
                Result::Ok(addrs) => {
                    out.push(0u8);
                    push_addrs(&mut out, addrs);
                },
                Result::Err(e) => {
                    out.push(1u8);
                    let code: u8 = match e {
                        NetError::AccessDenied => 0u8,
                        NetError::NotFound => 1u8,
                        NetError::Failed => 2u8,
                    };
                    out.push(code);
                },
            }
            assert(out@ =~= enc_addrs_result(addrs_result_view(*r)));
            out
        },
        Result::Err(e) => {
            let out = encode_err(*e);
            assert(out@ =~= enc_addrs_result(addrs_result_view(*r)));
            out
        },
    }
}

// ---------------------------------------------------------------------------
// Decoding, stated as spec functions
// ---------------------------------------------------------------------------

/// Take a length-prefixed byte string off the front of `b`.
pub open spec fn dec_lp(b: Seq<u8>) -> Option<(Seq<u8>, Seq<u8>)> {
    if b.len() < 8 {
        Option::None
    } else {
        let n = le64(b.take(8)) as int;
        if b.len() - 8 < n {
            Option::None
        } else {
            Option::Some((b.subrange(8, 8 + n), b.skip(8 + n)))
        }
    }
}

/// Take an optional byte string off the front of `b`.
pub open spec fn dec_opt_lp(b: Seq<u8>) -> Option<(Option<Seq<u8>>, Seq<u8>)> {
    if b.len() < 1 {
        Option::None
    } else if b[0] == 0 {
        Option::Some((Option::None, b.skip(1)))
    } else if b[0] == 1 {
        match dec_lp(b.skip(1)) {
            Option::None => Option::None,
            Option::Some((v, rest)) => Option::Some((Option::Some(v), rest)),
        }
    } else {
        Option::None
    }
}

/// Take a 32-bit little-endian value off the front of `b`.
pub open spec fn dec_u32(b: Seq<u8>) -> Option<(u32, Seq<u8>)> {
    if b.len() < 4 {
        Option::None
    } else {
        Option::Some((le32(b.take(4)), b.skip(4)))
    }
}

/// Take an optional 32-bit value off the front of `b`.
pub open spec fn dec_opt_u32(b: Seq<u8>) -> Option<(Option<u32>, Seq<u8>)> {
    if b.len() < 1 {
        Option::None
    } else if b[0] == 0 {
        Option::Some((Option::None, b.skip(1)))
    } else if b[0] == 1 {
        match dec_u32(b.skip(1)) {
            Option::None => Option::None,
            Option::Some((x, rest)) => Option::Some((Option::Some(x), rest)),
        }
    } else {
        Option::None
    }
}

/// Take one socket address off the front of `b`.
pub open spec fn dec_addr(b: Seq<u8>) -> Option<(NetAddr, Seq<u8>)> {
    if b.len() < 1 {
        Option::None
    } else if b[0] == 0 {
        if b.len() < 7 {
            Option::None
        } else {
            Option::Some(
                (
                    NetAddr::V4 {
                        a: b[1],
                        b: b[2],
                        c: b[3],
                        d: b[4],
                        port: le16(b.subrange(5, 7)),
                    },
                    b.skip(7),
                ),
            )
        }
    } else if b[0] == 1 {
        if b.len() < 19 {
            Option::None
        } else {
            Option::Some(
                (
                    NetAddr::V6 {
                        s0: le16(b.subrange(1, 3)),
                        s1: le16(b.subrange(3, 5)),
                        s2: le16(b.subrange(5, 7)),
                        s3: le16(b.subrange(7, 9)),
                        s4: le16(b.subrange(9, 11)),
                        s5: le16(b.subrange(11, 13)),
                        s6: le16(b.subrange(13, 15)),
                        s7: le16(b.subrange(15, 17)),
                        port: le16(b.subrange(17, 19)),
                    },
                    b.skip(19),
                ),
            )
        }
    } else {
        Option::None
    }
}

/// Take `n` socket addresses off the front of `b`.
pub open spec fn dec_addr_list(b: Seq<u8>, n: nat) -> Option<(Seq<NetAddr>, Seq<u8>)>
    decreases n,
{
    if n == 0 {
        Option::Some((Seq::empty(), b))
    } else {
        match dec_addr(b) {
            Option::None => Option::None,
            Option::Some((a, rest)) => match dec_addr_list(rest, (n - 1) as nat) {
                Option::None => Option::None,
                Option::Some((s, rest2)) => Option::Some((seq![a] + s, rest2)),
            },
        }
    }
}

/// Read a whole address list: count, the addresses, nothing left over.
pub open spec fn dec_addrs(b: Seq<u8>) -> Option<Seq<NetAddr>> {
    if b.len() < 8 {
        Option::None
    } else {
        match dec_addr_list(b.skip(8), le64(b.take(8)) as nat) {
            Option::None => Option::None,
            Option::Some((s, rest)) => if rest.len() == 0 {
                Option::Some(s)
            } else {
                Option::None
            },
        }
    }
}

/// Read a whole log record, nothing left over.
pub open spec fn dec_log(b: Seq<u8>) -> Option<LogModel> {
    match dec_lp(b) {
        Option::None => Option::None,
        Option::Some((target, b1)) => match dec_u32(b1) {
            Option::None => Option::None,
            Option::Some((level, b2)) => match dec_lp(b2) {
                Option::None => Option::None,
                Option::Some((body, b3)) => match dec_opt_lp(b3) {
                    Option::None => Option::None,
                    Option::Some((module, b4)) => match dec_opt_lp(b4) {
                        Option::None => Option::None,
                        Option::Some((file, b5)) => match dec_opt_u32(b5) {
                            Option::None => Option::None,
                            Option::Some((line, b6)) => if b6.len() == 0 {
                                Option::Some(
                                    LogModel { target, level, body, module, file, line },
                                )
                            } else {
                                Option::None
                            },
                        },
                    },
                },
            },
        },
    }
}

/// Read a whole request frame: opcode, then the body of that kind.
pub open spec fn dec_req(b: Seq<u8>) -> Option<ReqModel> {
    if b.len() < 4 {
        Option::None
    } else {
        let op = le32(b.take(4));
        let body = b.skip(4);
        if op == crate::HELLO_OP_CODE {
            Option::Some(ReqModel::Hello { who: body })
        } else if op == crate::POKE_OP_CODE {
            if body.len() == 0 {
                Option::Some(ReqModel::Poke)
            } else {
                Option::None
            }
        } else if op == crate::LOG_OP_CODE {
            match dec_log(body) {
                Option::None => Option::None,
                Option::Some(rec) => Option::Some(ReqModel::Log { rec }),
            }
        } else if op == crate::CONNECT_OP_CODE {
            match dec_addrs(body) {
                Option::None => Option::None,
                Option::Some(addrs) => Option::Some(ReqModel::Connect { addrs }),
            }
        } else if op == crate::LOOKUP_OP_CODE {
            Option::Some(ReqModel::Lookup { query: body })
        } else {
            Option::None
        }
    }
}

// ---------------------------------------------------------------------------
// Well-formedness: every length must fit its 8-byte prefix
// ---------------------------------------------------------------------------

/// An optional byte field whose length fits the length prefix.
pub open spec fn opt_bytes_wf(o: Option<Seq<u8>>) -> bool {
    match o {
        Option::None => true,
        Option::Some(b) => b.len() < 0x10000000000000000,
    }
}

/// A log record whose field lengths fit their length prefixes.
pub open spec fn log_wf(rec: LogModel) -> bool {
    &&& rec.target.len() < 0x10000000000000000
    &&& rec.body.len() < 0x10000000000000000
    &&& opt_bytes_wf(rec.module)
    &&& opt_bytes_wf(rec.file)
}

/// A request whose counts and lengths fit their 8-byte prefixes. Every value
/// built from in-memory vectors satisfies this.
pub open spec fn req_wf(m: ReqModel) -> bool {
    match m {
        ReqModel::Hello { .. } => true,
        ReqModel::Poke => true,
        ReqModel::Log { rec } => log_wf(rec),
        ReqModel::Connect { addrs } => addrs.len() < 0x10000000000000000,
        ReqModel::Lookup { .. } => true,
    }
}

// ---------------------------------------------------------------------------
// Round trips: decoding an encoding yields the value encoded
// ---------------------------------------------------------------------------

/// A length-prefixed string reads back as itself, leaving the rest.
pub proof fn lemma_dec_lp_enc(b: Seq<u8>, rest: Seq<u8>)
    requires
        b.len() < 0x10000000000000000,
    ensures
        dec_lp(enc_lp(b) + rest) == Option::Some((b, rest)),
{
    let w = enc_lp(b) + rest;
    assert(w.take(8) =~= u64_le(b.len() as u64));
    lemma_u64_le_round(b.len() as u64);
    assert(w.subrange(8, 8 + b.len() as int) =~= b);
    assert(w.skip(8 + b.len() as int) =~= rest);
}

/// An optional byte string reads back as itself, leaving the rest.
pub proof fn lemma_dec_opt_lp_enc(o: Option<Seq<u8>>, rest: Seq<u8>)
    requires
        opt_bytes_wf(o),
    ensures
        dec_opt_lp(enc_opt_lp(o) + rest) == Option::Some((o, rest)),
{
    let w = enc_opt_lp(o) + rest;
    match o {
        Option::None => {
            assert(w[0] == 0);
            assert(w.skip(1) =~= rest);
        },
        Option::Some(b) => {
            assert(w[0] == 1);
            assert(w.skip(1) =~= enc_lp(b) + rest);
            lemma_dec_lp_enc(b, rest);
        },
    }
}

/// A 32-bit value reads back as itself, leaving the rest.
pub proof fn lemma_dec_u32_enc(x: u32, rest: Seq<u8>)
    ensures
        dec_u32(u32_le(x) + rest) == Option::Some((x, rest)),
{
    let w = u32_le(x) + rest;
    assert(w.take(4) =~= u32_le(x));
    lemma_u32_le_round(x);
    assert(w.skip(4) =~= rest);
}

/// An optional 32-bit value reads back as itself, leaving the rest.
pub proof fn lemma_dec_opt_u32_enc(o: Option<u32>, rest: Seq<u8>)
    ensures
        dec_opt_u32(enc_opt_u32(o) + rest) == Option::Some((o, rest)),
{
    let w = enc_opt_u32(o) + rest;
    match o {
        Option::None => {
            assert(w[0] == 0);
            assert(w.skip(1) =~= rest);
        },
        Option::Some(x) => {
            assert(w[0] == 1);
            assert(w.skip(1) =~= u32_le(x) + rest);
            lemma_dec_u32_enc(x, rest);
        },
    }
}

/// One socket address reads back as itself, leaving the rest.
#[verifier::rlimit(60)]
pub proof fn lemma_dec_addr_enc(a: NetAddr, rest: Seq<u8>)
    ensures
        dec_addr(enc_addr(a) + rest) == Option::Some((a, rest)),
{
    let w = enc_addr(a) + rest;
    match a {
        NetAddr::V4 { a, b, c, d, port } => {
            assert(w[0] == 0 && w[1] == a && w[2] == b && w[3] == c && w[4] == d);
            assert(w.subrange(5, 7) =~= u16_le(port));
            lemma_u16_le_round(port);
            assert(w.skip(7) =~= rest);
        },
        NetAddr::V6 { s0, s1, s2, s3, s4, s5, s6, s7, port } => {
            assert(w[0] == 1);
            assert(w.subrange(1, 3) =~= u16_le(s0));
            assert(w.subrange(3, 5) =~= u16_le(s1));
            assert(w.subrange(5, 7) =~= u16_le(s2));
            assert(w.subrange(7, 9) =~= u16_le(s3));
            assert(w.subrange(9, 11) =~= u16_le(s4));
            assert(w.subrange(11, 13) =~= u16_le(s5));
            assert(w.subrange(13, 15) =~= u16_le(s6));
            assert(w.subrange(15, 17) =~= u16_le(s7));
            assert(w.subrange(17, 19) =~= u16_le(port));
            lemma_u16_le_round(s0);
            lemma_u16_le_round(s1);
            lemma_u16_le_round(s2);
            lemma_u16_le_round(s3);
            lemma_u16_le_round(s4);
            lemma_u16_le_round(s5);
            lemma_u16_le_round(s6);
            lemma_u16_le_round(s7);
            lemma_u16_le_round(port);
            assert(w.skip(19) =~= rest);
        },
    }
}

/// A run of addresses reads back as itself, leaving the rest.
#[verifier::rlimit(60)]
pub proof fn lemma_dec_addr_list_enc(s: Seq<NetAddr>, rest: Seq<u8>)
    ensures
        dec_addr_list(enc_addr_list(s) + rest, s.len()) == Option::Some((s, rest)),
    decreases s.len(),
{
    if s.len() == 0 {
        assert(enc_addr_list(s) + rest =~= rest);
        assert(dec_addr_list(rest, 0) == Option::Some((Seq::<NetAddr>::empty(), rest)));
        assert(s =~= Seq::<NetAddr>::empty());
    } else {
        let w = enc_addr_list(s) + rest;
        let tail = enc_addr_list(s.skip(1)) + rest;
        assert(w =~= enc_addr(s[0]) + tail);
        lemma_dec_addr_enc(s[0], tail);
        assert(dec_addr(w) == Option::Some((s[0], tail)));
        lemma_dec_addr_list_enc(s.skip(1), rest);
        assert(dec_addr_list(tail, (s.len() - 1) as nat) == Option::Some((s.skip(1), rest)));
        assert(seq![s[0]] + s.skip(1) =~= s);
        assert(dec_addr_list(w, s.len()) == Option::Some((seq![s[0]] + s.skip(1), rest)));
    }
}

/// A whole address list reads back as itself.
pub proof fn lemma_dec_addrs_enc(s: Seq<NetAddr>)
    requires
        s.len() < 0x10000000000000000,
    ensures
        dec_addrs(enc_addrs(s)) == Option::Some(s),
{
    let w = enc_addrs(s);
    assert(w.take(8) =~= u64_le(s.len() as u64));
    lemma_u64_le_round(s.len() as u64);
    assert(w.skip(8) =~= enc_addr_list(s) + Seq::<u8>::empty());
    lemma_dec_addr_list_enc(s, Seq::<u8>::empty());
}

/// A whole log record reads back as itself.
#[verifier::rlimit(60)]
pub proof fn lemma_dec_log_enc(rec: LogModel)
    requires
        log_wf(rec),
    ensures
        dec_log(enc_log(rec)) == Option::Some(rec),
{
    let r5 = enc_opt_u32(rec.line);
    let r4 = enc_opt_lp(rec.file) + r5;
    let r3 = enc_opt_lp(rec.module) + r4;
    let r2 = enc_lp(rec.body) + r3;
    let r1 = u32_le(rec.level) + r2;
    let w = enc_log(rec);
    assert(w =~= enc_lp(rec.target) + r1);
    lemma_dec_lp_enc(rec.target, r1);
    lemma_dec_u32_enc(rec.level, r2);
    lemma_dec_lp_enc(rec.body, r3);
    lemma_dec_opt_lp_enc(rec.module, r4);
    lemma_dec_opt_lp_enc(rec.file, r5);
    assert(r5 =~= enc_opt_u32(rec.line) + Seq::<u8>::empty());
    lemma_dec_opt_u32_enc(rec.line, Seq::<u8>::empty());
}

/// Decoding the encoding of any well-formed request yields that request.
pub proof fn lemma_req_round_trip(m: ReqModel)
    requires
        req_wf(m),
    ensures
        dec_req(enc_req(m)) == Option::Some(m),
{
    let w = enc_req(m);
    assert(w.take(4) =~= u32_le(op_of(m)));
    lemma_u32_le_round(op_of(m));
    assert(w.skip(4) =~= enc_req_body(m));
    match m {
        ReqModel::Hello { who } => {
            assert(w.skip(4) =~= who);
        },
        ReqModel::Poke => {},
        ReqModel::Log { rec } => {
            lemma_dec_log_enc(rec);
        },
        ReqModel::Connect { addrs } => {
            lemma_dec_addrs_enc(addrs);
        },
        ReqModel::Lookup { query } => {
            assert(w.skip(4) =~= query);
        },
    }
}

// ---------------------------------------------------------------------------
// Response decoding
// ---------------------------------------------------------------------------

/// The domain error a code byte stands for.
pub open spec fn dec_net_err(c: u8) -> Option<NetError> {
    if c == 0 {
        Option::Some(NetError::AccessDenied)
    } else if c == 1 {
        Option::Some(NetError::NotFound)
    } else if c == 2 {
        Option::Some(NetError::Failed)
    } else {
        Option::None
    }
}

/// The transport error a code byte stands for.
pub open spec fn dec_rpc_err(c: u8) -> Option<AsiRpcError> {
    if c == 0 {
        Option::Some(AsiRpcError::BadDescriptor)
    } else if c == 1 {
        Option::Some(AsiRpcError::BadRequest)
    } else if c == 2 {
        Option::Some(AsiRpcError::BadResponse)
    } else {
        Option::None
    }
}

/// Read the inner result of a Connect response, whole.
pub open spec fn dec_fd_inner(b: Seq<u8>) -> Option<Result<AsiFd, NetError>> {
    if b.len() < 1 {
        Option::None
    } else if b[0] == 0 {
        if b.len() == 5 {
            Option::Some(Result::Ok(le32(b.subrange(1, 5)) as i32))
        } else {
            Option::None
        }
    } else if b[0] == 1 {
        if b.len() == 2 {
            match dec_net_err(b[1]) {
                Option::None => Option::None,
                Option::Some(e) => Option::Some(Result::Err(e)),
            }
        } else {
            Option::None
        }
    } else {
        Option::None
    }
}

/// Read the inner result of a Lookup response, whole.
pub open spec fn dec_addrs_inner(b: Seq<u8>) -> Option<Result<Seq<NetAddr>, NetError>> {
    if b.len() < 1 {
        Option::None
    } else if b[0] == 0 {
        match dec_addrs(b.skip(1)) {
            Option::None => Option::None,
            Option::Some(s) => Option::Some(Result::Ok(s)),
        }
    } else if b[0] == 1 {
        if b.len() == 2 {
            match dec_net_err(b[1]) {
                Option::None => Option::None,
                Option::Some(e) => Option::Some(Result::Err(e)),
            }
        } else {
            Option::None
        }
    } else {
        Option::None
    }
}

/// Read a whole response for the request kind of `op`. A malformed buffer is
/// a `BadResponse`; a well-formed error buffer carries the host's error.
pub open spec fn dec_resp(op: u32, b: Seq<u8>) -> Result<RespModel, AsiRpcError> {
    if b.len() < 1 {
        Result::Err(AsiRpcError::BadResponse)
    } else if b[0] == 1 {
        if b.len() == 2 {
            match dec_rpc_err(b[1]) {
                Option::None => Result::Err(AsiRpcError::BadResponse),
                Option::Some(e) => Result::Err(e),
            }
        } else {
            Result::Err(AsiRpcError::BadResponse)
        }
    } else if b[0] == 0 {
        let body = b.skip(1);
        if op == crate::HELLO_OP_CODE || op == crate::LOG_OP_CODE {
            if body.len() == 0 {
                Result::Ok(RespModel::Unit)
            } else {
                Result::Err(AsiRpcError::BadResponse)
            }
        } else if op == crate::POKE_OP_CODE {
            if body.len() == 8 {
                Result::Ok(RespModel::Count(le64(body)))
            } else {
                Result::Err(AsiRpcError::BadResponse)
            }
        } else if op == crate::CONNECT_OP_CODE {
            match dec_fd_inner(body) {
                Option::None => Result::Err(AsiRpcError::BadResponse),
                Option::Some(r) => Result::Ok(RespModel::Fd(r)),
            }
        } else if op == crate::LOOKUP_OP_CODE {
            match dec_addrs_inner(body) {
                Option::None => Result::Err(AsiRpcError::BadResponse),
                Option::Some(r) => Result::Ok(RespModel::Addrs(r)),
            }
        } else {
            Result::Err(AsiRpcError::BadResponse)
        }
    } else {
        Result::Err(AsiRpcError::BadResponse)
    }
}

/// A serialized error decodes back to that error, under any opcode.
pub proof fn lemma_resp_err_round(op: u32, e: AsiRpcError)
    ensures
        dec_resp(op, enc_err(e)) == Result::<RespModel, AsiRpcError>::Err(e),
{
}

/// A serialized no-payload result decodes back to itself.
pub proof fn lemma_resp_unit_round(op: u32, r: Result<(), AsiRpcError>)
    requires
        op == crate::HELLO_OP_CODE || op == crate::LOG_OP_CODE,
    ensures
        dec_resp(op, enc_unit_result(r)) == (match r {
            Result::Ok(_) => Result::<RespModel, AsiRpcError>::Ok(RespModel::Unit),
            Result::Err(e) => Result::<RespModel, AsiRpcError>::Err(e),
        }),
{
    match r {
        Result::Ok(_) => {
            assert(enc_unit_result(r).skip(1) =~= Seq::<u8>::empty());
        },
        Result::Err(e) => {
            lemma_resp_err_round(op, e);
        },
    }
}

/// A serialized counter result decodes back to itself.
pub proof fn lemma_resp_u64_round(r: Result<u64, AsiRpcError>)
    ensures
        dec_resp(crate::POKE_OP_CODE, enc_u64_result(r)) == (match r {
            Result::Ok(x) => Result::<RespModel, AsiRpcError>::Ok(RespModel::Count(x)),
            Result::Err(e) => Result::<RespModel, AsiRpcError>::Err(e),
        }),
{
    match r {
        Result::Ok(x) => {
            let w = enc_u64_result(r);
            assert(w.skip(1) =~= u64_le(x));
            lemma_u64_le_round(x);
        },
        Result::Err(e) => {
            lemma_resp_err_round(crate::POKE_OP_CODE, e);
        },
    }
}

/// A serialized Lookup result decodes back to itself.
pub proof fn lemma_resp_addrs_round(r: Result<Result<Seq<NetAddr>, NetError>, AsiRpcError>)
    requires
        (match r {
            Result::Ok(Result::Ok(s)) => s.len() < 0x10000000000000000,
            _ => true,
        }),
    ensures
        dec_resp(crate::LOOKUP_OP_CODE, enc_addrs_result(r)) == (match r {
            Result::Ok(inner) => Result::<RespModel, AsiRpcError>::Ok(RespModel::Addrs(inner)),
            Result::Err(e) => Result::<RespModel, AsiRpcError>::Err(e),
        }),
{
    match r {
        Result::Ok(inner) => {
            let w = enc_addrs_result(r);
            assert(w[0] == 0);
            assert(w.skip(1) =~= enc_addrs_inner(inner));
            match inner {
                Result::Ok(s) => {
                    assert(enc_addrs_inner(inner)[0] == 0);
                    assert(enc_addrs_inner(inner).skip(1) =~= enc_addrs(s));
                    lemma_dec_addrs_enc(s);
                },
                Result::Err(e) => {},
            }
        },
        Result::Err(e) => {
            lemma_resp_err_round(crate::LOOKUP_OP_CODE, e);
        },
    }
}

// ---------------------------------------------------------------------------
// Decoding, executable
// ---------------------------------------------------------------------------

/// Take a length-prefixed byte string at `pos`; on success the new position.
fn take_lp(buf: &Vec<u8>, pos: usize) -> (r: Option<(Vec<u8>, usize)>)
    requires
        pos <= buf.len(),
    ensures
        match r {
            Option::Some(v) => pos <= v.1 <= buf.len() && dec_lp(buf@.skip(pos as int))
                == Option::Some((v.0@, buf@.skip(v.1 as int))),
            Option::None => dec_lp(buf@.skip(pos as int)) is None,
        },
{
    let ghost s = buf@.skip(pos as int);
    if buf.len() - pos < 8 {
        return Option::None;
    }
    let n = read_u64_le(buf, pos);
    proof {
        assert(s.take(8) =~= buf@.subrange(pos as int, pos as int + 8));
    }
    let avail = (buf.len() - pos - 8) as u64;
    if n > avail {
        return Option::None;
    }
    let nn = n as usize;
    let v = copy_range(buf, pos + 8, nn);
    let p2 = pos + 8 + nn;
    proof {
        assert(s.subrange(8, 8 + n as int) =~= buf@.subrange(
            pos as int + 8,
            pos as int + 8 + n as int,
        ));
        assert(s.skip(8 + n as int) =~= buf@.skip(p2 as int));
    }
    Option::Some((v, p2))
}

/// Take a 32-bit little-endian value at `pos`; on success the new position.
fn take_u32(buf: &Vec<u8>, pos: usize) -> (r: Option<(u32, usize)>)
    requires
        pos <= buf.len(),
    ensures
        match r {
            Option::Some(v) => pos <= v.1 <= buf.len() && dec_u32(buf@.skip(pos as int))
                == Option::Some((v.0, buf@.skip(v.1 as int))),
            Option::None => dec_u32(buf@.skip(pos as int)) is None,
        },
{
    let ghost s = buf@.skip(pos as int);
    if buf.len() - pos < 4 {
        return Option::None;
    }
    let x = read_u32_le(buf, pos);
    proof {
        assert(s.take(4) =~= buf@.subrange(pos as int, pos as int + 4));
        assert(s.skip(4) =~= buf@.skip(pos as int + 4));
    }
    Option::Some((x, pos + 4))
}

/// Take an optional byte string at `pos`; on success the new position.
fn take_opt_lp(buf: &Vec<u8>, pos: usize) -> (r: Option<(Option<Vec<u8>>, usize)>)
    requires
        pos <= buf.len(),
    ensures
        match r {
            Option::Some(v) => pos <= v.1 <= buf.len() && dec_opt_lp(buf@.skip(pos as int))
                == Option::Some((opt_view(v.0), buf@.skip(v.1 as int))),
            Option::None => dec_opt_lp(buf@.skip(pos as int)) is None,
        },
{
    let ghost s = buf@.skip(pos as int);
    if buf.len() - pos < 1 {
        return Option::None;
    }
    let tag = buf[pos];
    if tag == 0 {
        proof {
            assert(s.skip(1) =~= buf@.skip(pos as int + 1));
        }
        return Option::Some((Option::None, pos + 1));
    }
    if tag != 1 {
        return Option::None;
    }
    proof {
        assert(s.skip(1) =~= buf@.skip(pos as int + 1));
    }
    match take_lp(buf, pos + 1) {
        Option::None => Option::None,
        Option::Some((v, p2)) => Option::Some((Option::Some(v), p2)),
    }
}

/// Take an optional 32-bit value at `pos`; on success the new position.
fn take_opt_u32(buf: &Vec<u8>, pos: usize) -> (r: Option<(Option<u32>, usize)>)
    requires
        pos <= buf.len(),
    ensures
        match r {
            Option::Some(v) => pos <= v.1 <= buf.len() && dec_opt_u32(buf@.skip(pos as int))
                == Option::Some((v.0, buf@.skip(v.1 as int))),
            Option::None => dec_opt_u32(buf@.skip(pos as int)) is None,
        },
{
    let ghost s = buf@.skip(pos as int);
    if buf.len() - pos < 1 {
        return Option::None;
    }
    let tag = buf[pos];
    if tag == 0 {
        proof {
            assert(s.skip(1) =~= buf@.skip(pos as int + 1));
        }
        return Option::Some((Option::None, pos + 1));
    }
    if tag != 1 {
        return Option::None;
    }
    proof {
        assert(s.skip(1) =~= buf@.skip(pos as int + 1));
    }
    match take_u32(buf, pos + 1) {
        Option::None => Option::None,
        Option::Some((x, p2)) => Option::Some((Option::Some(x), p2)),
    }
}

/// Take one socket address at `pos`; on success the new position.
fn take_addr(buf: &Vec<u8>, pos: usize) -> (r: Option<(NetAddr, usize)>)
    requires
        pos <= buf.len(),
    ensures
        match r {
            Option::Some(v) => pos <= v.1 <= buf.len() && dec_addr(buf@.skip(pos as int))
                == Option::Some((v.0, buf@.skip(v.1 as int))),
            Option::None => dec_addr(buf@.skip(pos as int)) is None,
        },
{
    let ghost s = buf@.skip(pos as int);
    if buf.len() - pos < 1 {
        return Option::None;
    }
    let tag = buf[pos];
    if tag == 0 {
        if buf.len() - pos < 7 {
            return Option::None;
        }
        let port = read_u16_le(buf, pos + 5);
        let addr = NetAddr::V4 { a: buf[pos + 1], b: buf[pos + 2], c: buf[pos + 3], d: buf[pos + 4], port };
        proof {
            assert(s.subrange(5, 7) =~= buf@.subrange(pos as int + 5, pos as int + 7));
            assert(s.skip(7) =~= buf@.skip(pos as int + 7));
        }
        return Option::Some((addr, pos + 7));
    }
    if tag == 1 {
        if buf.len() - pos < 19 {
            return Option::None;
        }
        let s0 = read_u16_le(buf, pos + 1);
        let s1 = read_u16_le(buf, pos + 3);
        let s2 = read_u16_le(buf, pos + 5);
        let s3 = read_u16_le(buf, pos + 7);
        let s4 = read_u16_le(buf, pos + 9);
        let s5 = read_u16_le(buf, pos + 11);
        let s6 = read_u16_le(buf, pos + 13);
        let s7 = read_u16_le(buf, pos + 15);
        let port = read_u16_le(buf, pos + 17);
        let addr = NetAddr::V6 { s0, s1, s2, s3, s4, s5, s6, s7, port };
        proof {
            assert(s.subrange(1, 3) =~= buf@.subrange(pos as int + 1, pos as int + 3));
            assert(s.subrange(3, 5) =~= buf@.subrange(pos as int + 3, pos as int + 5));
            assert(s.subrange(5, 7) =~= buf@.subrange(pos as int + 5, pos as int + 7));
            assert(s.subrange(7, 9) =~= buf@.subrange(pos as int + 7, pos as int + 9));
            assert(s.subrange(9, 11) =~= buf@.subrange(pos as int + 9, pos as int + 11));
            assert(s.subrange(11, 13) =~= buf@.subrange(pos as int + 11, pos as int + 13));
            assert(s.subrange(13, 15) =~= buf@.subrange(pos as int + 13, pos as int + 15));
            assert(s.subrange(15, 17) =~= buf@.subrange(pos as int + 15, pos as int + 17));
            assert(s.subrange(17, 19) =~= buf@.subrange(pos as int + 17, pos as int + 19));
            assert(s.skip(19) =~= buf@.skip(pos as int + 19));
        }
        return Option::Some((addr, pos + 19));
    }
    Option::None
}

/// Read a whole address list starting at `pos`, consuming the buffer exactly.
#[verifier::rlimit(60)]
fn take_addrs_exact(buf: &Vec<u8>, pos: usize) -> (r: Option<Vec<NetAddr>>)
    requires
        pos <= buf.len(),
    ensures
        match r {
            Option::Some(v) => dec_addrs(buf@.skip(pos as int)) == Option::Some(v@),
            Option::None => dec_addrs(buf@.skip(pos as int)) is None,
        },
{
    let ghost s = buf@.skip(pos as int);
    if buf.len() - pos < 8 {
        return Option::None;
    }
    let count = read_u64_le(buf, pos);
    proof {
        assert(s.take(8) =~= buf@.subrange(pos as int, pos as int + 8));
        assert(s.skip(8) =~= buf@.skip(pos as int + 8));
    }
    let mut acc: Vec<NetAddr> = Vec::new();
    let mut p: usize = pos + 8;
    let mut i: u64 = 0;
    while i < count
        invariant
            pos + 8 <= p <= buf.len(),
            i <= count,
            buf@.skip(pos as int).len() >= 8,
            le64(buf@.skip(pos as int).take(8)) == count,
            buf@.skip(pos as int).skip(8) == buf@.skip(pos as int + 8),
            dec_addr_list(buf@.skip(pos as int + 8), count as nat) == (match dec_addr_list(
                buf@.skip(p as int),
                (count - i) as nat,
            ) {
                Option::None => Option::<(Seq<NetAddr>, Seq<u8>)>::None,
                Option::Some(t) => Option::Some((acc@ + t.0, t.1)),
            }),
        decreases count - i,
    {
        let ghost acc0 = acc@;
        let ghost p0 = p;
        match take_addr(buf, p) {
            Option::None => {
                proof {
                    assert(count - i > 0);
                    assert(dec_addr_list(buf@.skip(p as int), (count - i) as nat) is None);
                }
                return Option::None;
            },
            Option::Some((a, p2)) => {
                acc.push(a);
                p = p2;
                i = i + 1;
                proof {
                    let tail = dec_addr_list(buf@.skip(p2 as int), (count - i) as nat);
                    assert(dec_addr_list(buf@.skip(p0 as int), (count - i + 1) as nat) == (
                    match tail {
                        Option::None => Option::<(Seq<NetAddr>, Seq<u8>)>::None,
                        Option::Some(t) => Option::Some((seq![a] + t.0, t.1)),
                    }));
                    match tail {
                        Option::None => {},
                        Option::Some(t) => {
                            assert(acc0 + (seq![a] + t.0) =~= (acc0.push(a)) + t.0);
                        },
                    }
                }
            },
        }
    }
    if p != buf.len() {
        proof {
            assert(buf@.skip(p as int).len() > 0);
        }
        return Option::None;
    }
    proof {
        assert(dec_addr_list(buf@.skip(p as int), 0) == Option::Some(
            (Seq::<NetAddr>::empty(), buf@.skip(p as int)),
        ));
        assert(acc@ + Seq::<NetAddr>::empty() =~= acc@);
        assert(buf@.skip(p as int).len() == 0);
    }
    Option::Some(acc)
}

/// Read a whole log record starting at `pos`, consuming the buffer exactly.
fn take_log_exact(buf: &Vec<u8>, pos: usize) -> (r: Option<LogRpcRequest>)
    requires
        pos <= buf.len(),
    ensures
        match r {
            Option::Some(v) => dec_log(buf@.skip(pos as int)) == Option::Some(v@),
            Option::None => dec_log(buf@.skip(pos as int)) is None,
        },
{
    let (target, p1) = match take_lp(buf, pos) {
        Option::None => {
            return Option::None;
        },
        Option::Some(v) => v,
    };
    let (level, p2) = match take_u32(buf, p1) {
        Option::None => {
            return Option::None;
        },
        Option::Some(v) => v,
    };
    let (body, p3) = match take_lp(buf, p2) {
        Option::None => {
            return Option::None;
        },
        Option::Some(v) => v,
    };
    let (module, p4) = match take_opt_lp(buf, p3) {
        Option::None => {
            return Option::None;
        },
        Option::Some(v) => v,
    };
    let (file, p5) = match take_opt_lp(buf, p4) {
        Option::None => {
            return Option::None;
        },
        Option::Some(v) => v,
    };
    let (line, p6) = match take_opt_u32(buf, p5) {
        Option::None => {
            return Option::None;
        },
        Option::Some(v) => v,
    };
    if p6 != buf.len() {
        return Option::None;
    }
    Option::Some(LogRpcRequest { target, level, body, module, file, line })
}

/// Deserialize a request frame; a buffer that is not the exact encoding of
/// a known request kind is a `BadRequest`.
pub fn decode_sysreq_request(buf: &Vec<u8>) -> (r: Result<SysreqRequest, AsiRpcError>)
    ensures
        match r {
            Result::Ok(v) => dec_req(buf@) == Option::Some(v@),
            Result::Err(e) => dec_req(buf@) is None && e == AsiRpcError::BadRequest,
        },
{
    if buf.len() < 4 {
        return Result::Err(AsiRpcError::BadRequest);
    }
    let op = read_u32_le(buf, 0);
    proof {
        assert(buf@.subrange(0, 4) =~= buf@.take(4));
        assert(buf@.skip(4) == buf@.skip(4));
    }
    if op == crate::HELLO_OP_CODE {
        let who = copy_range(buf, 4, buf.len() - 4);
        proof {
            assert(who@ =~= buf@.skip(4));
        }
        Result::Ok(SysreqRequest::Hello(HelloRpcRequest { who }))
    } else if op == crate::POKE_OP_CODE {
        if buf.len() == 4 {
            proof {
                assert(buf@.skip(4).len() == 0);
            }
            Result::Ok(SysreqRequest::Poke(PokeRpcRequest))
        } else {
            proof {
                assert(buf@.skip(4).len() > 0);
            }
            Result::Err(AsiRpcError::BadRequest)
        }
    } else if op == crate::LOG_OP_CODE {
        match take_log_exact(buf, 4) {
            Option::None => Result::Err(AsiRpcError::BadRequest),
            Option::Some(rec) => Result::Ok(SysreqRequest::Log(rec)),
        }
    } else if op == crate::CONNECT_OP_CODE {
        match take_addrs_exact(buf, 4) {
            Option::None => Result::Err(AsiRpcError::BadRequest),
            Option::Some(addrs) => Result::Ok(
                SysreqRequest::Connect(ConnectRpcRequest { target: ConnectAddrs::Tcp { addrs } }),
            ),
        }
    } else if op == crate::LOOKUP_OP_CODE {
        let query = copy_range(buf, 4, buf.len() - 4);
        proof {
            assert(query@ =~= buf@.skip(4));
        }
        Result::Ok(SysreqRequest::Lookup(LookupRpcRequest { query }))
    } else {
        Result::Err(AsiRpcError::BadRequest)
    }
}

/// Deserialize the response to a request that went out under `op`. A
/// malformed buffer is a `BadResponse`; a well-formed error buffer carries
/// the host's error.
#[verifier::rlimit(60)]
pub fn decode_sysreq_response(op: u32, buf: &Vec<u8>) -> (r: Result<SysreqResponse, AsiRpcError>)
    ensures
        match r {
            Result::Ok(v) => dec_resp(op, buf@) == Result::<RespModel, AsiRpcError>::Ok(v@),
            Result::Err(e) => dec_resp(op, buf@) == Result::<RespModel, AsiRpcError>::Err(e),
        },
{
    if buf.len() < 1 {
        return Result::Err(AsiRpcError::BadResponse);
    }
    let tag = buf[0];
    if tag == 1 {
        if buf.len() != 2 {
            return Result::Err(AsiRpcError::BadResponse);
        }
        let code = buf[1];
        if code == 0 {
            return Result::Err(AsiRpcError::BadDescriptor);
        }
        if code == 1 {
            return Result::Err(AsiRpcError::BadRequest);
        }
        return Result::Err(AsiRpcError::BadResponse);
    }
    if tag != 0 {
        return Result::Err(AsiRpcError::BadResponse);
    }
    let ghost body = buf@.skip(1);
    if op == crate::HELLO_OP_CODE || op == crate::LOG_OP_CODE {
        if buf.len() == 1 {
            Result::Ok(SysreqResponse::Unit)
        } else {
            Result::Err(AsiRpcError::BadResponse)
        }
    } else if op == crate::POKE_OP_CODE {
        if buf.len() == 9 {
            let x = read_u64_le(buf, 1);
            proof {
                assert(buf@.subrange(1, 9) =~= body);
            }
            Result::Ok(SysreqResponse::Count(x))
        } else {
            Result::Err(AsiRpcError::BadResponse)
        }
    } else if op == crate::CONNECT_OP_CODE {
        if buf.len() < 2 {
            return Result::Err(AsiRpcError::BadResponse);
        }
        let inner = buf[1];
        if inner == 0 {
            if buf.len() == 6 {
                let raw = read_u32_le(buf, 2);
                let fd: AsiFd = #[verifier::truncate] (raw as i32);
                proof {
                    assert(buf@.subrange(2, 6) =~= body.subrange(1, 5));
                }
                Result::Ok(SysreqResponse::Fd(Result::Ok(fd)))
            } else {
                Result::Err(AsiRpcError::BadResponse)
            }
        } else if inner == 1 {
            if buf.len() == 3 {
                let code = buf[2];
                proof {
                    assert(body[1] == buf@[2]);
                }
                if code == 0 {
                    Result::Ok(SysreqResponse::Fd(Result::Err(NetError::AccessDenied)))
                } else if code == 1 {
                    Result::Ok(SysreqResponse::Fd(Result::Err(NetError::NotFound)))
                } else if code == 2 {
                    Result::Ok(SysreqResponse::Fd(Result::Err(NetError::Failed)))
                } else {
                    Result::Err(AsiRpcError::BadResponse)
                }
            } else {
                Result::Err(AsiRpcError::BadResponse)
            }
        } else {
            Result::Err(AsiRpcError::BadResponse)
        }
    } else if op == crate::LOOKUP_OP_CODE {
        if buf.len() < 2 {
            return Result::Err(AsiRpcError::BadResponse);
        }
        let inner = buf[1];
        if inner == 0 {
            proof {
                assert(body.skip(1) =~= buf@.skip(2));
            }
            match take_addrs_exact(buf, 2) {
                Option::None => Result::Err(AsiRpcError::BadResponse),
                Option::Some(addrs) => Result::Ok(SysreqResponse::Addrs(Result::Ok(addrs))),
            }
        } else if inner == 1 {
            if buf.len() == 3 {
                let code = buf[2];
                proof {
                    assert(body[1] == buf@[2]);
                }
                if code == 0 {
                    Result::Ok(SysreqResponse::Addrs(Result::Err(NetError::AccessDenied)))
                } else if code == 1 {
                    Result::Ok(SysreqResponse::Addrs(Result::Err(NetError::NotFound)))
                } else if code == 2 {
                    Result::Ok(SysreqResponse::Addrs(Result::Err(NetError::Failed)))
                } else {
                    Result::Err(AsiRpcError::BadResponse)
                }
            } else {
                Result::Err(AsiRpcError::BadResponse)
            }
        } else {
            Result::Err(AsiRpcError::BadResponse)
        }
    } else {
        Result::Err(AsiRpcError::BadResponse)
    }
}

} // verus!
