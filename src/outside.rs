//! Declarations of the JSON-RPC and JSON types that the library carries, and
//! the calls it makes into those crates.

use vstd::prelude::*;

verus! {

/// serde_json's `Value`, carried through without being looked into.
#[verifier::external_type_specification]
#[verifier::external_body]
pub struct ExValue(serde_json::Value);

/// jsonrpc_core's `ErrorCode`, a plain enum whose variants the library builds.
#[verifier::external_type_specification]
pub struct ExErrorCode(jsonrpc_core::types::ErrorCode);

/// jsonrpc_core's `Error`, whose public fields `code`, `message` and `data`
/// the library sets.
#[verifier::external_type_specification]
pub struct ExError(jsonrpc_core::types::Error);

/// The text that jsonrpc_core's `ErrorCode::description` gives for a code.
pub open spec fn code_description(code: jsonrpc_core::types::ErrorCode) -> Seq<char> {
    match code {
        jsonrpc_core::types::ErrorCode::ParseError => "Parse error"@,
        jsonrpc_core::types::ErrorCode::InvalidRequest => "Invalid request"@,
        jsonrpc_core::types::ErrorCode::MethodNotFound => "Method not found"@,
        jsonrpc_core::types::ErrorCode::InvalidParams => "Invalid params"@,
        jsonrpc_core::types::ErrorCode::InternalError => "Internal error"@,
        jsonrpc_core::types::ErrorCode::ServerError(_) => "Server error"@,
    }
}

/// jsonrpc_core's `Error::new`: the given code, its description as the
/// message, and no data.
pub assume_specification[ jsonrpc_core::types::Error::new ](
    code: jsonrpc_core::types::ErrorCode,
) -> (r: jsonrpc_core::types::Error)
    ensures
        r.code == code,
        r.message@ == code_description(code),
        r.data is None,
;

/// The JSON string value that holds the given text.
pub uninterp spec fn json_string_of(s: Seq<char>) -> serde_json::Value;

/// Relies on serde_json's `Value::String` variant: a JSON string made of `s`,
/// which depends on the text alone.
#[verifier::external_body]
pub(crate) fn json_string(s: String) -> (r: serde_json::Value)
    ensures
        r == json_string_of(s@),
{
    serde_json::Value::String(s)
}

} // verus!

verus! {

/// serde_json's `Value` derives `Clone`: the copy equals the value it was made from.
pub assume_specification[ <serde_json::Value as Clone>::clone ](v: &serde_json::Value) -> (r:
    serde_json::Value)
    ensures
        r == *v,
;

} // verus!
