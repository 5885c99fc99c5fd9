//! Values exchanged with the remote API: requests, responses and the
//! status of the supervised node.

use vstd::prelude::*;

use crate::error::RPCError;

verus! {

/// Status of the supervised node as the API reports it.
#[derive(Clone, Copy, Debug, PartialEq, Eq, Structural)]
pub enum NodeStatus {
    Starting,
    Run,
    Stop,
    Error,
    UFO,
}

/// Parameters of `shell_startCodeChain`.
pub struct ShellStartCodeChainRequest {
    pub env: String,
    pub args: String,
}

/// An IP address, held as its octets or its segments.
#[derive(Clone, Copy, Debug, PartialEq, Eq, Structural)]
pub enum IpAddress {
    V4(u8, u8, u8, u8),
    V6(u16, u16, u16, u16, u16, u16, u16, u16),
}

/// An IP address with a port.
#[derive(Clone, Copy, Debug, PartialEq, Eq, Structural)]
pub struct SocketAddress {
    pub ip: IpAddress,
    pub port: u16,
}

/// Result of `agent_getInfo`.
pub struct AgentGetInfoResponse {
    pub status: NodeStatus,
    pub address: SocketAddress,
}

/// Result of `codechain_callRPC`: the node's own answer, untouched.
pub struct CodeChainCallRPCResponse {
    pub inner_response: serde_json::Value,
}

/// Outcome of a handler: a value (or nothing) on success, an error otherwise.
pub type RPCResult<T> = Result<Option<T>, RPCError>;

/// A successful outcome holding `value`.
pub fn response<T>(value: T) -> (r: RPCResult<T>)
    ensures
        r == Ok::<Option<T>, RPCError>(Some(value)),
{
    Ok(Some(value))
}

} // verus!
