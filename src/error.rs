//! Errors of the remote API and their stable JSON-RPC form.

use vstd::prelude::*;

use crate::outside::{code_description, json_string, json_string_of};
use crate::supervisor::ProcessError;
use jsonrpc_core::types::{Error as JSONRPCError, ErrorCode};

verus! {

pub const ERR_ALREADY_RUNNING: i64 = -10001;

pub const ERR_ENV_PARSE: i64 = -10002;

pub const ERR_PROCESS_INTERNAL: i64 = -32603;

pub const ERR_CODECHAIN_NOT_RUNNING: i64 = 0;

/// Code of the error returned when a call forwarded to the node could not
/// reach it.
pub const ERR_NETWORK_ERROR: i64 = -10001;

/// An error of a handler.
pub enum RPCError {
    /// A failure that the supervisor reported.
    Process(ProcessError),
    /// A fault of the agent itself (a channel, serialisation); holds its text.
    Internal(String),
    /// An error returned as it stands: code, message and data.
    ErrorResponse(i64, String, Option<serde_json::Value>),
}

/// Server-error code under which a supervisor failure is reported.
pub open spec fn process_error_code(e: ProcessError) -> i64 {
    match e {
        ProcessError::AlreadyRunning => ERR_ALREADY_RUNNING,
        ProcessError::EnvParseError => ERR_ENV_PARSE,
        ProcessError::NotRunning => ERR_CODECHAIN_NOT_RUNNING,
        ProcessError::SubprocessError(_) => ERR_PROCESS_INTERNAL,
        ProcessError::IO(_) => ERR_PROCESS_INTERNAL,
        ProcessError::CodeChainRPC(_) => ERR_PROCESS_INTERNAL,
    }
}

/// Message under which a supervisor failure is reported.
pub open spec fn process_error_message(e: ProcessError) -> Seq<char> {
    match e {
        ProcessError::AlreadyRunning => "CodeChain instance is already running"@,
        ProcessError::EnvParseError => "Invalid env string"@,
        ProcessError::NotRunning => "CodeChain is not running now"@,
        ProcessError::SubprocessError(d) => "Process error occured "@ + d@,
        ProcessError::IO(d) => "IO error occured "@ + d@,
        ProcessError::CodeChainRPC(d) => "Sending RPC to ChdeChain failed "@ + d@,
    }
}

/// Text of an internal fault in a channel between the handlers and the supervisor.
pub open spec fn thread_error_message(detail: Seq<char>) -> Seq<char> {
    "Internal error about thread : "@ + detail
}

/// Text of an internal fault in JSON serialisation.
pub open spec fn json_error_message(detail: Seq<char>) -> Seq<char> {
    "Internal error about JSON serialize/deserialize : "@ + detail
}

impl RPCError {
    /// The JSON-RPC code of this error.
    pub open spec fn spec_code(&self) -> ErrorCode {
        match self {
            RPCError::Internal(_) => ErrorCode::InternalError,
            RPCError::Process(e) => ErrorCode::ServerError(process_error_code(*e)),
            RPCError::ErrorResponse(code, _, _) => ErrorCode::ServerError(*code),
        }
    }

    /// The JSON-RPC message of this error.
    pub open spec fn spec_message(&self) -> Seq<char> {
        match self {
            RPCError::Internal(_) => code_description(ErrorCode::InternalError),
            RPCError::Process(e) => process_error_message(*e),
            RPCError::ErrorResponse(_, message, _) => message@,
        }
    }

    /// The JSON-RPC data of this error.
    pub open spec fn spec_data(&self) -> Option<serde_json::Value> {
        match self {
            RPCError::Internal(text) => Some(json_string_of(text@)),
            RPCError::Process(_) => None,
            RPCError::ErrorResponse(_, _, data) => *data,
        }
    }

    /// The error in JSON-RPC form.
    pub fn to_jsonrpc_error(&self) -> (r: JSONRPCError)
        ensures
            r.code == self.spec_code(),
            r.message@ == self.spec_message(),
            r.data == self.spec_data(),
    {
        match self {
            RPCError::Internal(text) => Self::create_internal_rpc_error(text.as_str()),
            RPCError::Process(ProcessError::AlreadyRunning) => {
                Self::create_rpc_error(ERR_ALREADY_RUNNING, "CodeChain instance is already running")
            },
            RPCError::Process(ProcessError::EnvParseError) => {
                Self::create_rpc_error(ERR_ENV_PARSE, "Invalid env string")
            },
            RPCError::Process(ProcessError::SubprocessError(d)) => {
                let msg = String::from_str("Process error occured ").concat(d.as_str());
                Self::create_rpc_error(ERR_PROCESS_INTERNAL, msg.as_str())
            },
            RPCError::Process(ProcessError::NotRunning) => {
                Self::create_rpc_error(ERR_CODECHAIN_NOT_RUNNING, "CodeChain is not running now")
            },
            RPCError::Process(ProcessError::IO(d)) => {
                let msg = String::from_str("IO error occured ").concat(d.as_str());
                Self::create_rpc_error(ERR_PROCESS_INTERNAL, msg.as_str())
            },
            RPCError::Process(ProcessError::CodeChainRPC(d)) => {
                let msg = String::from_str("Sending RPC to ChdeChain failed ").concat(d.as_str());
                Self::create_rpc_error(ERR_PROCESS_INTERNAL, msg.as_str())
            },
            RPCError::ErrorResponse(code, message, value) => {
                Self::create_rpc_error_with_value(*code, message.clone(), value.clone())
            },
        }
    }

    fn create_rpc_error(code: i64, msg: &str) -> (r: JSONRPCError)
        ensures
            r.code == ErrorCode::ServerError(code),
            r.message@ == msg@,
            r.data is None,
    {
        let mut ret = JSONRPCError::new(ErrorCode::ServerError(code));
        ret.message = String::from_str(msg);
        ret
    }

    fn create_rpc_error_with_value(
        code: i64,
        msg: String,
        value: Option<serde_json::Value>,
    ) -> (r: JSONRPCError)
        ensures
            r.code == ErrorCode::ServerError(code),
            r.message == msg,
            r.data == value,
    {
        let mut ret = JSONRPCError::new(ErrorCode::ServerError(code));
        ret.message = msg;
        ret.data = value;
        ret
    }

    fn create_internal_rpc_error(msg: &str) -> (r: JSONRPCError)
        ensures
            r.code == ErrorCode::InternalError,
            r.message@ == code_description(ErrorCode::InternalError),
            r.data == Some(json_string_of(msg@)),
    {
        let mut ret = JSONRPCError::new(ErrorCode::InternalError);
        ret.data = Some(json_string(String::from_str(msg)));
        ret
    }

    /// An internal error for a fault of a channel to or from the supervisor,
    /// described by `detail`.
    pub fn thread_error(detail: &str) -> (r: RPCError)
        ensures
            r matches RPCError::Internal(t) && t@ == thread_error_message(detail@),
    {
        RPCError::Internal(String::from_str("Internal error about thread : ").concat(detail))
    }

    /// An internal error for a fault of JSON serialisation, described by `detail`.
    pub fn json_error(detail: &str) -> (r: RPCError)
        ensures
            r matches RPCError::Internal(t) && t@ == json_error_message(detail@),
    {
        RPCError::Internal(
            String::from_str("Internal error about JSON serialize/deserialize : ").concat(detail),
        )
    }
}

impl From<ProcessError> for RPCError {
    fn from(err: ProcessError) -> (r: RPCError)
        ensures
            r == RPCError::Process(err),
    {
        RPCError::Process(err)
    }
}

impl vstd::std_specs::convert::FromSpecImpl<ProcessError> for RPCError {
    open spec fn obeys_from_spec() -> bool {
        true
    }

    open spec fn from_spec(err: ProcessError) -> RPCError {
        RPCError::Process(err)
    }
}

} // verus!
