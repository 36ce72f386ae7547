use wrpc_transport_do::client::{CallOutcome, DurableObjectClient};
use wrpc_transport_do::error::Error;
use wrpc_transport_do::message::{WrpcRequest, WrpcResponse, WrpcStatus};

#[test]
fn call_url_is_path_under_internal_origin() {
    let req = WrpcRequest::new("counter", "get", Ok(b"null".to_vec())).unwrap();
    assert_eq!(DurableObjectClient::request_url(&req), "https://do.internal/_wrpc/counter/get");
}

#[test]
fn call_headers_name_the_call() {
    let req = WrpcRequest::new("counter", "increment", Ok(b"3".to_vec())).unwrap();
    let h = DurableObjectClient::request_headers(&req);
    let h: Vec<(&str, &str)> = h.iter().map(|(a, b)| (a.as_str(), b.as_str())).collect();
    assert_eq!(
        h,
        vec![
            ("Content-Type", "application/x-wrpc+json"),
            ("X-Wrpc-Version", "0.1.0"),
            ("X-Wrpc-Instance", "counter"),
            ("X-Wrpc-Function", "increment"),
        ]
    );
}

#[test]
fn call_steps_map_to_errors() {
    let r = DurableObjectClient::call_result(CallOutcome::EnvelopeUnserializable("a".into()));
    assert!(matches!(r, Err(Error::Serialization(m)) if m == "a"));
    let r = DurableObjectClient::call_result(CallOutcome::BodyUnserializable("b".into()));
    assert!(matches!(r, Err(Error::Serialization(m)) if m == "b"));
    let r = DurableObjectClient::call_result(CallOutcome::HeaderRefused("c".into()));
    assert!(matches!(r, Err(Error::Transport(m)) if m == "c"));
    let r = DurableObjectClient::call_result(CallOutcome::RequestRefused("d".into()));
    assert!(matches!(r, Err(Error::Transport(m)) if m == "d"));
    let r = DurableObjectClient::call_result(CallOutcome::FetchFailed("e".into()));
    assert!(matches!(r, Err(Error::Worker(m)) if m == "e"));
    let r = DurableObjectClient::call_result(CallOutcome::BodyUnreadable("f".into()));
    assert!(matches!(r, Err(Error::Transport(m)) if m == "failed to read response body: f"));
    let r = DurableObjectClient::call_result(CallOutcome::BadEnvelope("g".into()));
    assert!(matches!(r, Err(Error::Protocol(m)) if m == "invalid response envelope: g"));
    let r = DurableObjectClient::call_result(CallOutcome::BadPayload("h".into()));
    assert!(matches!(r, Err(Error::Protocol(m)) if m == "invalid response payload: h"));
}

#[test]
fn call_reply_is_passed_on() {
    let resp = WrpcResponse::not_found();
    let r = DurableObjectClient::call_result(CallOutcome::Replied(resp)).unwrap();
    assert_eq!(r.status, WrpcStatus::NotFound);
}

#[test]
fn failed_stub_lookup_is_worker_error() {
    let r = DurableObjectClient::from_stub_result(Err("no such binding".to_string()));
    assert!(matches!(r, Err(Error::Worker(m)) if m == "no such binding"));
}
