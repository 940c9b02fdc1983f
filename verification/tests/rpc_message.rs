use kicks::rpc_message::{reply_outcome, request_line, RpcOutcome};

#[test]
fn call_lines_carry_their_id() {
    assert_eq!(
        request_line("getversion", "[]", Some(1)),
        "{\"id\":1,\"jsonrpc\":\"2.0\",\"method\":\"getversion\",\"params\":[]}\n"
    );
    assert_eq!(
        request_line("set", "[\"amp.gain\",0.5]", Some(42)),
        "{\"id\":42,\"jsonrpc\":\"2.0\",\"method\":\"set\",\"params\":[\"amp.gain\",0.5]}\n"
    );
}

#[test]
fn notification_lines_have_no_id() {
    assert_eq!(request_line("listen", "[]", None), "{\"jsonrpc\":\"2.0\",\"method\":\"listen\",\"params\":[]}\n");
    assert_eq!(request_line("a\"b", "[]", None), "{\"jsonrpc\":\"2.0\",\"method\":\"a\\\"b\",\"params\":[]}\n");
}

#[test]
fn reply_outcomes() {
    assert_eq!(reply_outcome(""), RpcOutcome::ConnectionClosed);
    assert_eq!(reply_outcome("{\"id\":1,\"jsonrpc\":\"2.0\",\"result\":\"0.9\"}\n"), RpcOutcome::Result("\"0.9\"".into()));
    assert_eq!(reply_outcome("{\"id\":1,\"result\":[1,2]}"), RpcOutcome::Result("[1,2]".into()));
    assert_eq!(reply_outcome("{\"id\":1}"), RpcOutcome::Result("null".into()));
    assert_eq!(
        reply_outcome("{\"error\":{\"code\":-32601,\"message\":\"no\"},\"result\":1}"),
        RpcOutcome::RpcError("{\"code\":-32601,\"message\":\"no\"}".into())
    );
    assert!(matches!(reply_outcome("not json"), RpcOutcome::Malformed(_)));
    assert!(matches!(reply_outcome("\n"), RpcOutcome::Malformed(_)));
}
