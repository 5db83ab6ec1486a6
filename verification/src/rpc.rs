//! The session gate in front of the upstream JSON-RPC provider.
use vstd::prelude::*;
use vstd::string::StringExecFns;
use crate::encoding::{json_get_str, json_str_field};
use crate::pairing::{session_known, PairingState};

verus! {

/// Where RPC calls are forwarded.
#[derive(Clone, Debug)]
pub struct RpcConfig {
    pub upstream_url: String,
}

/// How an RPC method is recognised.
#[derive(Debug, Clone, Copy, PartialEq, Eq, Structural)]
pub enum MethodClass {
    /// `eth_estimateGas`: a transaction preview.
    Preview,
    /// `eth_sendRawTransaction`: the final step of a transaction.
    FinalGate,
    /// Everything else.
    PassThrough,
}

/// What to do with an RPC call.
#[derive(Debug, Clone, Copy, PartialEq, Eq, Structural)]
pub enum RpcDecision {
    /// The session is unknown: answer 401 `invalid_session`.
    Unauthorized,
    /// Forward the call upstream as it is.
    Forward(MethodClass),
}

/// Errors the RPC entry answers with.
#[derive(Debug, Clone, Copy, PartialEq, Eq, Structural)]
pub enum RpcError {
    InvalidSession,
    UpstreamReadFailed,
    UpstreamUnreachable,
}

impl RpcError {
    /// The error word sent to the client.
    pub fn error_code(&self) -> (s: &'static str)
        ensures
            *self == RpcError::InvalidSession ==> s@ == "invalid_session"@,
            *self == RpcError::UpstreamReadFailed ==> s@ == "upstream_read_failed"@,
            *self == RpcError::UpstreamUnreachable ==> s@ == "upstream_unreachable"@,
    {
        match self {
            RpcError::InvalidSession => "invalid_session",
            RpcError::UpstreamReadFailed => "upstream_read_failed",
            RpcError::UpstreamUnreachable => "upstream_unreachable",
        }
    }
}

/// The class of a method name.
pub open spec fn method_class_of(method: Seq<char>) -> MethodClass {
    if method == "eth_estimateGas"@ {
        MethodClass::Preview
    } else if method == "eth_sendRawTransaction"@ {
        MethodClass::FinalGate
    } else {
        MethodClass::PassThrough
    }
}

/// The method a JSON-RPC body names: its string `method` member, or the
/// empty text.
pub open spec fn method_of(body: serde_json::Value) -> Seq<char> {
    match json_str_field(body, "method"@) {
        Some(m) => m,
        None => Seq::empty(),
    }
}

/// Recognises a method name.
pub fn classify_method(method: &str) -> (c: MethodClass)
    ensures
        c == method_class_of(method@),
{
    let m = String::from_str(method);
    if m == String::from_str("eth_estimateGas") {
        MethodClass::Preview
    } else if m == String::from_str("eth_sendRawTransaction") {
        MethodClass::FinalGate
    } else {
        MethodClass::PassThrough
    }
}

/// The method a JSON-RPC body names (empty when it names none).
pub fn rpc_method(body: &serde_json::Value) -> (m: String)
    ensures
        m@ == method_of(*body),
{
    match json_get_str(body, "method") {
        Some(m) => m,
        None => String::new(),
    }
}

/// Decides an RPC call: only sessions of completed pairings may call, and
/// their calls are forwarded unchanged.
pub fn rpc_gate(pairing: &PairingState, session_id: &str, body: &serde_json::Value) -> (d: RpcDecision)
    ensures
        d == (if session_known(pairing.table(), session_id@) {
            RpcDecision::Forward(method_class_of(method_of(*body)))
        } else {
            RpcDecision::Unauthorized
        }),
{
    if !pairing.has_session(session_id) {
        return RpcDecision::Unauthorized;
    }
    let method = rpc_method(body);
    RpcDecision::Forward(classify_method(method.as_str()))
}

} // verus!
