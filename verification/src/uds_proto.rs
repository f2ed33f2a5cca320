//! Client side of the control wire protocol: a request frame is the 6-byte
//! magic marker, a 1-byte operation code, a 1-byte payload count, then each
//! payload as an 8-byte little-endian length followed by its bytes. The
//! response is one status byte, then the rest of the connection: the
//! success payload on status 0, a UTF-8 error message on status 1.
use vstd::prelude::*;
use crate::codec::{push_bytes_slice, push_u64_le, u64_le};

verus! {

/// The 6-byte magic marker opening every request frame.
pub open spec fn magic_seq() -> Seq<u8> {
    seq![97u8, 83u8, 105u8, 67u8, 76u8, 73u8]
}

/// The magic marker as bytes.
pub fn magic_bytes() -> (out: Vec<u8>)
    ensures
        out@ == magic_seq(),
{
    let mut out: Vec<u8> = Vec::new();
    out.push(97u8);
    out.push(83u8);
    out.push(105u8);
    out.push(67u8);
    out.push(76u8);
    out.push(73u8);
    assert(out@ =~= magic_seq());
    out
}

/// Failure of a control-plane call as the client sees it.
#[derive(Debug)]
pub enum Error {
    /// The server answered with an error status; the message bytes follow.
    ServerError(Vec<u8>),
    /// The server broke the wire protocol.
    ProtocolError(Vec<u8>),
    /// The transport failed; the caller holds the platform error.
    IoError,
}

/// A request the command-line client can send.
#[derive(Debug)]
pub enum ClientRequest<'a> {
    ServerVersion,
    Shutdown,
    Run { binary_data: &'a [u8] },
}

/// The operation code of a client request.
pub open spec fn op_spec(req: ClientRequest<'_>) -> u8 {
    match req {
        ClientRequest::ServerVersion => 0u8,
        ClientRequest::Shutdown => 1u8,
        ClientRequest::Run { .. } => 2u8,
    }
}

/// The payloads of a client request, outermost first.
pub open spec fn payloads_spec(req: ClientRequest<'_>) -> Seq<Seq<u8>> {
    match req {
        ClientRequest::Run { binary_data } => seq![binary_data@],
        _ => Seq::empty(),
    }
}

impl<'a> ClientRequest<'a> {
    /// The operation code this request travels under.
    pub fn op(&self) -> (r: u8)
        ensures
            r == op_spec(*self),
    {
        match self {
            ClientRequest::ServerVersion => 0u8,
            ClientRequest::Shutdown => 1u8,
            ClientRequest::Run { .. } => 2u8,
        }
    }

    /// The payloads this request carries.
    pub fn payloads(&self) -> (r: Vec<&'a [u8]>)
        ensures
            r@.len() == payloads_spec(*self).len(),
            forall|i: int| 0 <= i < r@.len() ==> r@[i]@ == payloads_spec(*self)[i],
    {
        match self {
            ClientRequest::Run { binary_data } => {
                let mut v: Vec<&'a [u8]> = Vec::new();
                v.push(*binary_data);
                v
            },
            _ => Vec::new(),
        }
    }
}

/// The serialized payload section: each payload length-prefixed, in order.
pub open spec fn payload_list(ps: Seq<Seq<u8>>) -> Seq<u8>
    decreases ps.len(),
{
    if ps.len() == 0 {
        Seq::empty()
    } else {
        u64_le(ps[0].len() as u64) + ps[0] + payload_list(ps.skip(1))
    }
}

/// A whole request frame: magic, operation, count, payload section.
pub open spec fn frame_bytes(op: u8, ps: Seq<Seq<u8>>) -> Seq<u8> {
    magic_seq() + seq![op, ps.len() as u8] + payload_list(ps)
}

/// Serialize a request frame.
pub fn encode_frame(req: &ClientRequest<'_>) -> (out: Vec<u8>)
    ensures
        out@ == frame_bytes(op_spec(*req), payloads_spec(*req)),
{
    let mut out = magic_bytes();
    out.push(req.op());
    match req {
        ClientRequest::Run { binary_data } => {
            out.push(1u8);
            push_u64_le(&mut out, binary_data.len() as u64);
            push_bytes_slice(&mut out, binary_data);
            proof {
                let ps = payloads_spec(*req);
                assert(ps.skip(1) =~= Seq::<Seq<u8>>::empty());
                assert(payload_list(Seq::<Seq<u8>>::empty()) == Seq::<u8>::empty());
                assert(payload_list(ps) =~= u64_le(ps[0].len() as u64) + ps[0]);
                assert(out@ =~= frame_bytes(op_spec(*req), ps));
            }
        },
        _ => {
            out.push(0u8);
            proof {
                assert(payload_list(payloads_spec(*req)) =~= Seq::<u8>::empty());
                assert(out@ =~= frame_bytes(op_spec(*req), payloads_spec(*req)));
            }
        },
    }
    out
}

/// Interpret a response: the status byte, then whatever followed it on the
/// connection. Status 0 is the success payload, status 1 a server error
/// message; any other status byte is a protocol violation.
pub fn decode_response(status: u8, rest: Vec<u8>) -> (r: Result<Vec<u8>, Error>)
    ensures
        status == 0 ==> (r matches Result::Ok(p) && p@ == rest@),
        status == 1 ==> (r matches Result::Err(Error::ServerError(m)) && m@ == rest@),
        status != 0 && status != 1 ==> (r matches Result::Err(Error::ProtocolError(_))),
{
    if status == 0 {
        Result::Ok(rest)
    } else if status == 1 {
        Result::Err(Error::ServerError(rest))
    } else {
        let mut m: Vec<u8> = Vec::new();
        m.push(98u8);
        m.push(97u8);
        m.push(100u8);
        m.push(32u8);
        m.push(114u8);
        m.push(101u8);
        m.push(115u8);
        m.push(112u8);
        m.push(111u8);
        m.push(110u8);
        m.push(115u8);
        m.push(101u8);
        m.push(32u8);
        m.push(99u8);
        m.push(111u8);
        m.push(100u8);
        m.push(101u8);
        Result::Err(Error::ProtocolError(m))
    }
}

} // verus!
