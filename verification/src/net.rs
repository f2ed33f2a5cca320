//! Networking requests of the sysreq protocol: Bind, Connect and Lookup,
//! with the domain error type their responses carry.
//!
//! Socket addresses travel as plain values (octets, segments and a port), so
//! the protocol logic never depends on a platform address type.
use vstd::prelude::*;

verus! {

/// Domain-specific failure of a networking request. It is a result value
/// inside a successful RPC exchange, never a transport failure.
#[derive(Clone, Copy, Debug, PartialEq, Eq, Structural)]
pub enum NetError {
    AccessDenied,
    NotFound,
    Failed,
}

/// A socket address as plain values.
#[derive(Clone, Copy, Debug, PartialEq, Eq, Structural)]
pub enum NetAddr {
    V4 { a: u8, b: u8, c: u8, d: u8, port: u16 },
    V6 {
        s0: u16,
        s1: u16,
        s2: u16,
        s3: u16,
        s4: u16,
        s5: u16,
        s6: u16,
        s7: u16,
        port: u16,
    },
}

/// Address a Bind request asks the host to listen on.
#[derive(Clone, Copy, Debug, PartialEq, Eq, Structural)]
pub enum BindAddr {
    Tcp { addr: NetAddr },
}

/// Bind request: reserved; the host has no handler for its opcode.
#[derive(Clone, Copy, Debug, PartialEq, Eq, Structural)]
pub struct BindRpcRequest {
    pub bind_addr: BindAddr,
}

/// Candidate addresses a Connect request asks the host to dial.
#[derive(Clone, Debug)]
pub enum ConnectAddrs {
    Tcp { addrs: Vec<NetAddr> },
}

impl View for ConnectAddrs {
    type V = Seq<NetAddr>;

    open spec fn view(&self) -> Seq<NetAddr> {
        match self {
            ConnectAddrs::Tcp { addrs } => addrs@,
        }
    }
}

/// Connect request: host-mediated outbound sockets, currently always
/// rejected by the host.
#[derive(Clone, Debug)]
pub struct ConnectRpcRequest {
    pub target: ConnectAddrs,
}

impl View for ConnectRpcRequest {
    type V = Seq<NetAddr>;

    open spec fn view(&self) -> Seq<NetAddr> {
        self.target@
    }
}

/// Lookup request: a host:port-style query resolved by the host.
#[derive(Clone, Debug)]
pub struct LookupRpcRequest {
    pub query: Vec<u8>,
}

impl View for LookupRpcRequest {
    type V = Seq<u8>;

    open spec fn view(&self) -> Seq<u8> {
        self.query@
    }
}

} // verus!
