use rpc_interceptor::pairing::PairingState;
use rpc_interceptor::rpc::{classify_method, rpc_gate, rpc_method, MethodClass, RpcDecision, RpcError};

fn body(text: &str) -> serde_json::Value {
    serde_json::from_str(text).unwrap()
}

#[test]
fn methods_are_classified() {
    assert_eq!(classify_method("eth_estimateGas"), MethodClass::Preview);
    assert_eq!(classify_method("eth_sendRawTransaction"), MethodClass::FinalGate);
    assert_eq!(classify_method("eth_call"), MethodClass::PassThrough);
    assert_eq!(classify_method(""), MethodClass::PassThrough);
}

#[test]
fn method_is_read_from_body() {
    assert_eq!(rpc_method(&body(r#"{"jsonrpc":"2.0","method":"eth_call","id":1}"#)), "eth_call");
    assert_eq!(rpc_method(&body(r#"{"method":5}"#)), "");
    assert_eq!(rpc_method(&body(r#"[1,2]"#)), "");
}

#[test]
fn unknown_sessions_are_refused() {
    let st = PairingState::new();
    assert_eq!(rpc_gate(&st, "nope", &body(r#"{"method":"eth_call"}"#)), RpcDecision::Unauthorized);
    assert_eq!(RpcError::InvalidSession.error_code(), "invalid_session");
    assert_eq!(RpcError::UpstreamReadFailed.error_code(), "upstream_read_failed");
    assert_eq!(RpcError::UpstreamUnreachable.error_code(), "upstream_unreachable");
}

#[test]
fn paired_sessions_are_forwarded() {
    let mut st = PairingState::new();
    st.start_pairing_with("code01".to_string(), "sess".to_string(), 0);
    assert_eq!(rpc_gate(&st, "sess", &body(r#"{"method":"eth_call"}"#)), RpcDecision::Unauthorized);
    st.complete_pairing("code01", 1).0.unwrap();
    assert_eq!(
        rpc_gate(&st, "sess", &body(r#"{"method":"eth_estimateGas"}"#)),
        RpcDecision::Forward(MethodClass::Preview)
    );
    assert_eq!(
        rpc_gate(&st, "sess", &body(r#"{"method":"eth_sendRawTransaction"}"#)),
        RpcDecision::Forward(MethodClass::FinalGate)
    );
}
