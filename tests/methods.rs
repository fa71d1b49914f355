use benchmark_proxy::rpc_methods::{
    batch_info_from_parsed, get_expensive_methods, get_stateful_methods, has_stateful_method, is_expensive_method,
    is_stateful_method, ParsedRequest, RequestError,
};

#[test]
fn stateful_methods_are_recognised() {
    assert!(is_stateful_method("eth_subscribe"));
    assert!(is_stateful_method("eth_newFilter"));
    assert!(is_stateful_method("eth_subscription"));
    assert!(!is_stateful_method("eth_call"));
    assert!(!is_stateful_method(""));
    assert!(!is_stateful_method("eth_subscribeX"));
}

#[test]
fn expensive_methods_are_recognised() {
    assert!(is_expensive_method("trace_call"));
    assert!(is_expensive_method("debug_traceTransaction"));
    assert!(is_expensive_method("trace_replayTransaction#vmTrace"));
    assert!(!is_expensive_method("eth_getLogs"));
}

#[test]
fn method_tables_have_fixed_contents() {
    let stateful = get_stateful_methods();
    assert_eq!(stateful.len(), 9);
    assert_eq!(stateful[0], "eth_newFilter");
    let expensive = get_expensive_methods();
    assert_eq!(expensive.len(), 18);
    assert!(expensive.contains(&"trace_filter"));
}

#[test]
fn empty_body_is_rejected() {
    let r = batch_info_from_parsed(b"", ParsedRequest::Single("eth_call".to_string()));
    assert_eq!(r.err(), Some(RequestError::EmptyBody));
    assert_eq!(RequestError::EmptyBody.message(), "Empty request body");
}

#[test]
fn empty_batch_is_rejected() {
    let r = batch_info_from_parsed(b"[]", ParsedRequest::Batch(vec![]));
    assert_eq!(r.err(), Some(RequestError::EmptyBatch));
    assert_eq!(RequestError::EmptyBatch.message(), "Empty batch request");
}

#[test]
fn unrecognized_body_is_rejected() {
    let r = batch_info_from_parsed(b"{oops", ParsedRequest::Unrecognized);
    assert_eq!(r.err(), Some(RequestError::InvalidFormat));
    assert!(RequestError::InvalidFormat.message().starts_with("Invalid JSON-RPC request format"));
}

#[test]
fn batch_with_stateful_method() {
    let body = br#"[{"method":"eth_call"},{"method":"eth_newFilter"}]"#;
    let parsed = ParsedRequest::Batch(vec!["eth_call".to_string(), "eth_newFilter".to_string()]);
    let info = batch_info_from_parsed(body, parsed).ok().unwrap();
    assert!(info.is_batch);
    assert_eq!(info.request_count, 2);
    assert_eq!(info.methods, vec!["eth_call".to_string(), "eth_newFilter".to_string()]);
    assert!(info.has_stateful);
}

#[test]
fn single_plain_request() {
    let body = br#"{"method":"eth_blockNumber"}"#;
    let info = batch_info_from_parsed(body, ParsedRequest::Single("eth_blockNumber".to_string())).ok().unwrap();
    assert!(!info.is_batch);
    assert_eq!(info.request_count, 1);
    assert_eq!(info.methods, vec!["eth_blockNumber".to_string()]);
    assert!(!info.has_stateful);
}

#[test]
fn stateful_detection_over_lists() {
    assert!(!has_stateful_method(&vec![]));
    assert!(!has_stateful_method(&vec!["eth_call".to_string()]));
    assert!(has_stateful_method(&vec!["eth_call".to_string(), "eth_unsubscribe".to_string()]));
}
