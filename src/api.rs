//! The remote API: its method names and what each handler makes of the
//! supervisor's answer. A handler builds one command, sends it, waits for the
//! one reply, and turns that reply into its result here.

use vstd::prelude::*;

use crate::error::{RPCError, ERR_NETWORK_ERROR};
use crate::supervisor::{Command, ProcessError};
use crate::types::{
    response, AgentGetInfoResponse, CodeChainCallRPCResponse, NodeStatus, RPCResult,
    ShellStartCodeChainRequest, SocketAddress,
};

verus! {

/// The methods that the API serves.
#[derive(Clone, Copy, Debug, PartialEq, Eq, Structural)]
pub enum Route {
    Ping,
    StartCodeChain,
    StopCodeChain,
    GetCodeChainLog,
    GetInfo,
    CallRPC,
}

/// The name under which a method is called.
pub open spec fn route_name(r: Route) -> Seq<char> {
    match r {
        Route::Ping => "ping"@,
        Route::StartCodeChain => "shell_startCodeChain"@,
        Route::StopCodeChain => "shell_stopCodeChain"@,
        Route::GetCodeChainLog => "shell_getCodeChainLog"@,
        Route::GetInfo => "agent_getInfo"@,
        Route::CallRPC => "codechain_callRPC"@,
    }
}

/// The method called `m`, if any.
pub open spec fn route_spec(m: Seq<char>) -> Option<Route> {
    if m == route_name(Route::Ping) {
        Some(Route::Ping)
    } else if m == route_name(Route::StartCodeChain) {
        Some(Route::StartCodeChain)
    } else if m == route_name(Route::StopCodeChain) {
        Some(Route::StopCodeChain)
    } else if m == route_name(Route::GetCodeChainLog) {
        Some(Route::GetCodeChainLog)
    } else if m == route_name(Route::GetInfo) {
        Some(Route::GetInfo)
    } else if m == route_name(Route::CallRPC) {
        Some(Route::CallRPC)
    } else {
        None
    }
}

impl Route {
    /// The name under which this method is called.
    pub fn method_name(&self) -> (r: &'static str)
        ensures
            r@ == route_name(*self),
    {
        match self {
            Route::Ping => "ping",
            Route::StartCodeChain => "shell_startCodeChain",
            Route::StopCodeChain => "shell_stopCodeChain",
            Route::GetCodeChainLog => "shell_getCodeChainLog",
            Route::GetInfo => "agent_getInfo",
            Route::CallRPC => "codechain_callRPC",
        }
    }

    /// Every method, each once.
    pub fn all() -> (r: Vec<Route>)
        ensures
            r@ == seq![
                Route::Ping,
                Route::StartCodeChain,
                Route::StopCodeChain,
                Route::GetCodeChainLog,
                Route::GetInfo,
                Route::CallRPC,
            ],
    {
        vec![
            Route::Ping,
            Route::StartCodeChain,
            Route::StopCodeChain,
            Route::GetCodeChainLog,
            Route::GetInfo,
            Route::CallRPC,
        ]
    }
}

/// Looks a method up by its name.
pub fn route_of(method: &str) -> (r: Option<Route>)
    ensures
        r == route_spec(method@),
{
    let m = String::from_str(method);
    let routes = Route::all();
    let mut i: usize = 0;
    while i < routes.len()
        invariant
            m@ == method@,
            routes@ == seq![
                Route::Ping,
                Route::StartCodeChain,
                Route::StopCodeChain,
                Route::GetCodeChainLog,
                Route::GetInfo,
                Route::CallRPC,
            ],
            0 <= i <= routes.len(),
            forall|k: int| 0 <= k < i ==> route_name(#[trigger] routes@[k]) != method@,
        decreases routes.len() - i,
    {
        let name = String::from_str(routes[i].method_name());
        if name == m {
            return Some(routes[i]);
        }
        i = i + 1;
    }
    assert(route_name(routes@[0]) != method@);
    assert(route_name(routes@[1]) != method@);
    assert(route_name(routes@[2]) != method@);
    assert(route_name(routes@[3]) != method@);
    assert(route_name(routes@[4]) != method@);
    assert(route_name(routes@[5]) != method@);
    None
}

/// Each method is found under its own name.
pub proof fn lemma_route_of_name(r: Route)
    ensures
        route_spec(route_name(r)) == Some(r),
{
    reveal_strlit("ping");
    reveal_strlit("shell_startCodeChain");
    reveal_strlit("shell_stopCodeChain");
    reveal_strlit("shell_getCodeChainLog");
    reveal_strlit("agent_getInfo");
    reveal_strlit("codechain_callRPC");
    let n = route_name(r);
    assert(n.len() == 4 ==> n[0] == 'p');
    assert(n.len() == 13 ==> n[0] == 'a');
    assert(n.len() == 17 ==> n[0] == 'c');
    assert(n.len() >= 19 ==> n[6] == 's' || n[6] == 'g');
}

/// `ping`: answers "pong", whatever the node's state.
pub fn ping() -> (r: RPCResult<String>)
    ensures
        r matches Ok(Some(s)) && s@ == "pong"@,
{
    response(String::from_str("pong"))
}

/// The command that `shell_startCodeChain` sends.
pub fn start_command(req: ShellStartCodeChainRequest) -> (c: Command)
    ensures
        c == (Command::Run { env: req.env, args: req.args }),
{
    Command::Run { env: req.env, args: req.args }
}

/// Result of `shell_startCodeChain` and `shell_stopCodeChain` from the
/// supervisor's answer.
pub fn done_response(reply: Result<(), ProcessError>) -> (r: RPCResult<()>)
    ensures
        match reply {
            Ok(()) => r == Ok::<Option<()>, RPCError>(Some(())),
            Err(e) => r == Err::<Option<()>, RPCError>(RPCError::Process(e)),
        },
{
    match reply {
        Ok(()) => response(()),
        Err(e) => Err(RPCError::from(e)),
    }
}

/// The port that `agent_getInfo` reports: the node's, or the agent's
/// configured one while the node has reported none.
pub open spec fn info_port(reported: u16, configured: u16) -> u16 {
    if reported == 0 {
        configured
    } else {
        reported
    }
}

/// Result of `agent_getInfo` from the supervisor's status and port and the
/// agent's configured address of the node.
pub fn agent_info_response(status: NodeStatus, port: u16, configured: SocketAddress) -> (r:
    RPCResult<AgentGetInfoResponse>)
    ensures
        r matches Ok(Some(info)) && info.status == status && info.address == (SocketAddress {
            ip: configured.ip,
            port: info_port(port, configured.port),
        }),
{
    let default_port = configured.port;
    response(
        AgentGetInfoResponse {
            status,
            address: SocketAddress {
                ip: configured.ip,
                port: if port == 0 {
                    default_port
                } else {
                    port
                },
            },
        },
    )
}

/// What `codechain_callRPC` gives for the supervisor's answer `p`: the node's
/// answer, a network error where the call could not reach the node, and the
/// supervisor's failure otherwise.
pub open spec fn call_rpc_outcome(
    p: Result<serde_json::Value, ProcessError>,
    r: RPCResult<CodeChainCallRPCResponse>,
) -> bool {
    match p {
        Ok(v) => r == Ok::<Option<CodeChainCallRPCResponse>, RPCError>(
            Some(CodeChainCallRPCResponse { inner_response: v }),
        ),
        Err(ProcessError::CodeChainRPC(_)) => r matches Err(
            RPCError::ErrorResponse(code, message, data),
        ) && code == ERR_NETWORK_ERROR && message@ == "Network Error"@ && data is None,
        Err(e) => r == Err::<Option<CodeChainCallRPCResponse>, RPCError>(RPCError::Process(e)),
    }
}

/// Result of `codechain_callRPC` from the supervisor's answer.
pub fn call_rpc_response(reply: Result<serde_json::Value, ProcessError>) -> (r: RPCResult<
    CodeChainCallRPCResponse,
>)
    ensures
        call_rpc_outcome(reply, r),
{
    match reply {
        Ok(value) => response(CodeChainCallRPCResponse { inner_response: value }),
        Err(ProcessError::CodeChainRPC(_)) => Err(
            RPCError::ErrorResponse(ERR_NETWORK_ERROR, String::from_str("Network Error"), None),
        ),
        Err(err) => Err(RPCError::from(err)),
    }
}

/// A forwarded call that failed in transport reaches the caller with the
/// network-error code, never with the code of an internal error.
pub proof fn lemma_transport_fault_is_network_error(
    d: String,
    r: RPCResult<CodeChainCallRPCResponse>,
)
    requires
        call_rpc_outcome(Err(ProcessError::CodeChainRPC(d)), r),
    ensures
        r matches Err(e) && e.spec_code() == jsonrpc_core::types::ErrorCode::ServerError(
            ERR_NETWORK_ERROR,
        ) && e.spec_code() != jsonrpc_core::types::ErrorCode::InternalError
            && e.spec_code() != jsonrpc_core::types::ErrorCode::ServerError(
            crate::error::ERR_PROCESS_INTERNAL,
        ),
{
}

} // verus!
