pub mod asi_sysreq;
pub mod codec;
pub mod diagnostics;
pub mod guest;
pub mod interop;
pub mod net;
pub mod rpc;
pub mod uds_proto;
pub mod uds_server;
pub mod wire;

use vstd::prelude::*;

verus! {

/// Base of the opcode band reserved for diagnostics requests.
pub const DIAGNOSTICS_BASE: u32 = 10000;

/// Base of the opcode band reserved for networking requests.
pub const NET_BASE: u32 = 4000;

/// Opcode of the Hello diagnostics request.
pub const HELLO_OP_CODE: u32 = DIAGNOSTICS_BASE + 10;

/// Opcode of the Poke diagnostics request.
pub const POKE_OP_CODE: u32 = DIAGNOSTICS_BASE + 11;

/// Opcode of the Log diagnostics request.
pub const LOG_OP_CODE: u32 = DIAGNOSTICS_BASE + 200;

/// Opcode of the Bind networking request.
pub const BIND_OP_CODE: u32 = NET_BASE + 1;

/// Opcode of the Connect networking request.
pub const CONNECT_OP_CODE: u32 = NET_BASE + 2;

/// Opcode of the Lookup networking request.
pub const LOOKUP_OP_CODE: u32 = NET_BASE + 3;

} // verus!
