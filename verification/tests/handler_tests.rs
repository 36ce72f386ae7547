use wrpc_transport_do::handler::params_outcome;
use wrpc_transport_do::handler::{http_step, HttpAction, HttpEvent};
use bytes::Bytes;
use wrpc_transport_do::error::Error;
use wrpc_transport_do::handler::{
    extract_from_headers, handler_outcome_response, is_wrpc_request, parse_failure_response,
    parse_wrpc_request, reply_failure_text, request_target_exec, ReplyEncodingFailure,
    RequestHead, NOT_WRPC_MESSAGE, NOT_WRPC_STATUS,
};
use wrpc_transport_do::message::{WrpcMessageType, WrpcRequest, WrpcResponse, WrpcStatus};

fn head(path: &str) -> RequestHead {
    RequestHead {
        path: path.to_string(),
        content_type: Ok(None),
        instance_header: Ok(None),
        function_header: Ok(None),
    }
}

#[test]
fn wrpc_path_is_recognised() {
    assert!(is_wrpc_request(&head("/_wrpc/counter/get")));
    assert!(is_wrpc_request(&head("/_wrpc/")));
    assert!(!is_wrpc_request(&head("/_wrpc")));
    assert!(!is_wrpc_request(&head("/value")));
}

#[test]
fn wrpc_content_type_is_recognised() {
    let mut h = head("/value");
    h.content_type = Ok(Some("application/x-wrpc+json".to_string()));
    assert!(is_wrpc_request(&h));
    h.content_type = Ok(Some("text/plain; profile=application/x-wrpc".to_string()));
    assert!(is_wrpc_request(&h));
    h.content_type = Ok(Some("application/json".to_string()));
    assert!(!is_wrpc_request(&h));
    h.content_type = Err("bad header".to_string());
    assert!(!is_wrpc_request(&h));
}

#[test]
fn wrpc_instance_header_is_recognised() {
    let mut h = head("/value");
    h.instance_header = Ok(Some("counter".to_string()));
    assert!(is_wrpc_request(&h));
    h.instance_header = Ok(None);
    assert!(!is_wrpc_request(&h));
}

#[test]
fn headers_give_the_target() {
    let mut h = head("/anything");
    h.instance_header = Ok(Some("svc".to_string()));
    h.function_header = Ok(Some("fun".to_string()));
    let (i, f) = extract_from_headers(&h).unwrap();
    assert_eq!((i.as_str(), f.as_str()), ("svc", "fun"));
}

#[test]
fn header_failures_are_protocol_errors() {
    let mut h = head("/x");
    let r = extract_from_headers(&h);
    assert!(matches!(r, Err(Error::Protocol(m)) if m == "missing instance header"));
    h.instance_header = Err("boom".to_string());
    let r = extract_from_headers(&h);
    assert!(matches!(r, Err(Error::Protocol(m)) if m == "failed to get instance header: boom"));
    h.instance_header = Ok(Some("svc".to_string()));
    let r = extract_from_headers(&h);
    assert!(matches!(r, Err(Error::Protocol(m)) if m == "missing function header"));
    h.function_header = Err("bang".to_string());
    let r = extract_from_headers(&h);
    assert!(matches!(r, Err(Error::Protocol(m)) if m == "failed to get function header: bang"));
}

#[test]
fn path_target_wins_over_headers() {
    let mut h = head("/_wrpc/counter/increment/extra");
    h.instance_header = Ok(Some("svc".to_string()));
    h.function_header = Ok(Some("fun".to_string()));
    let (i, f) = request_target_exec(&h).unwrap();
    assert_eq!((i.as_str(), f.as_str()), ("counter", "increment"));
}

#[test]
fn short_wrpc_path_falls_back_to_headers() {
    let mut h = head("/_wrpc/counter");
    h.instance_header = Ok(Some("svc".to_string()));
    h.function_header = Ok(Some("fun".to_string()));
    let (i, f) = request_target_exec(&h).unwrap();
    assert_eq!((i.as_str(), f.as_str()), ("svc", "fun"));
    let r = request_target_exec(&head("/_wrpc/counter"));
    assert!(matches!(r, Err(Error::Protocol(m)) if m == "missing instance header"));
}

#[test]
fn repeated_prefix_is_trimmed() {
    let (i, f) = request_target_exec(&head("/_wrpc//_wrpc/a/b")).unwrap();
    assert_eq!((i.as_str(), f.as_str()), ("a", "b"));
    let (i, f) = request_target_exec(&head("/_wrpc//b")).unwrap();
    assert_eq!((i.as_str(), f.as_str()), ("", "b"));
}

#[test]
fn raw_body_becomes_params() {
    let r = parse_wrpc_request(&head("/_wrpc/counter/increment"), Ok("5".to_string()), None)
        .unwrap();
    assert_eq!(r.instance, "counter");
    assert_eq!(r.function, "increment");
    assert_eq!(&r.params[..], b"5");
    assert_eq!(r.version, "0.1.0");
}

#[test]
fn request_envelope_gives_its_request() {
    let inner = WrpcRequest::from_http("pingpong", "ping", Bytes::from("{}"));
    let r = parse_wrpc_request(
        &head("/_wrpc/counter/get"),
        Ok("{...}".to_string()),
        Some((WrpcMessageType::Request, Ok(inner))),
    )
    .unwrap();
    assert_eq!(r.instance, "pingpong");
    assert_eq!(r.function, "ping");
    assert_eq!(&r.params[..], b"{}");
}

#[test]
fn bad_request_payload_is_protocol_error() {
    let r = parse_wrpc_request(
        &head("/_wrpc/counter/get"),
        Ok("{}".to_string()),
        Some((WrpcMessageType::Request, Err("missing field `instance`".to_string()))),
    );
    assert!(matches!(r, Err(Error::Protocol(m)) if m == "invalid request payload: missing field `instance`"));
}

#[test]
fn response_envelope_body_is_taken_as_params() {
    let other = WrpcRequest::from_http("x", "y", Bytes::from("z"));
    let r = parse_wrpc_request(
        &head("/_wrpc/counter/get"),
        Ok("body".to_string()),
        Some((WrpcMessageType::Response, Ok(other))),
    )
    .unwrap();
    assert_eq!(r.instance, "counter");
    assert_eq!(r.function, "get");
    assert_eq!(&r.params[..], b"body");
}

#[test]
fn unreadable_body_is_transport_error() {
    let r = parse_wrpc_request(&head("/_wrpc/a/b"), Err("stream closed".to_string()), None);
    assert!(matches!(r, Err(Error::Transport(m)) if m == "failed to read body: stream closed"));
}

#[test]
fn target_error_comes_before_body() {
    let r = parse_wrpc_request(&head("/plain"), Err("stream closed".to_string()), None);
    assert!(matches!(r, Err(Error::Protocol(m)) if m == "missing instance header"));
}

#[test]
fn http_answers_have_their_texts() {
    assert_eq!(NOT_WRPC_MESSAGE, "Not a wRPC request");
    assert_eq!(NOT_WRPC_STATUS, 400);
    let resp = parse_failure_response(&Error::Protocol("missing instance header".to_string()));
    assert_eq!(resp.status, WrpcStatus::Error);
    assert_eq!(&resp.data[..], b"failed to parse request: protocol error: missing instance header");
    let resp = handler_outcome_response(Err(Error::Transport("down".to_string())));
    assert_eq!(&resp.data[..], b"handler error: transport error: down");
    let ok = WrpcResponse::ok(Ok(b"1".to_vec())).unwrap();
    let resp = handler_outcome_response(Ok(ok));
    assert_eq!(resp.status, WrpcStatus::Success);
    assert_eq!(&resp.data[..], b"1");
}

#[test]
fn reply_failures_have_their_texts() {
    assert_eq!(
        reply_failure_text(&ReplyEncodingFailure::Envelope("e".to_string())),
        "failed to create envelope: e"
    );
    assert_eq!(
        reply_failure_text(&ReplyEncodingFailure::Body("b".to_string())),
        "failed to serialize response: b"
    );
}

#[test]
fn invalid_params_answer() {
    let resp = wrpc_transport_do::handler::invalid_params_response("expected a string");
    assert_eq!(resp.status, WrpcStatus::Error);
    assert_eq!(&resp.data[..], b"invalid params: expected a string");
}

#[test]
fn client_call_reads_back_on_the_server() {
    let sent = WrpcRequest::new("my-service", "greet", Ok(b"\"World\"".to_vec())).unwrap();
    let mut h = head(&sent.path());
    h.instance_header = Ok(Some(sent.instance.clone()));
    h.function_header = Ok(Some(sent.function.clone()));
    h.content_type = Ok(Some("application/x-wrpc+json".to_string()));
    assert!(is_wrpc_request(&h));
    let (i, f) = request_target_exec(&h).unwrap();
    assert_eq!((i.as_str(), f.as_str()), ("my-service", "greet"));
    let got = parse_wrpc_request(
        &h,
        Ok("{\"type\":\"request\"}".to_string()),
        Some((WrpcMessageType::Request, Ok(sent.clone()))),
    )
    .unwrap();
    assert_eq!(got.instance, sent.instance);
    assert_eq!(got.function, sent.function);
    assert_eq!(&got.params[..], &sent.params[..]);
    let raw = parse_wrpc_request(&h, Ok("\"World\"".to_string()), None).unwrap();
    assert_eq!(&raw.params[..], b"\"World\"");
    assert_eq!(raw.function, "greet");
}

#[test]
fn params_outcomes() {
    assert!(matches!(params_outcome::<i64>(Ok(3)), Ok(3)));
    match params_outcome::<i64>(Err("expected i64".to_string())) {
        Err(resp) => assert_eq!(&resp.data[..], b"invalid params: expected i64"),
        Ok(_) => panic!("parse failure was accepted"),
    }
}

#[test]
fn http_steps_follow_in_order() {
    let a = http_step(HttpEvent::Arrived(head("/value")));
    assert!(matches!(a, HttpAction::Reject { message, status: 400 } if message == "Not a wRPC request"));
    assert!(matches!(http_step(HttpEvent::Arrived(head("/_wrpc/a/b"))), HttpAction::Parse));
    let req = WrpcRequest::from_http("a", "b", Bytes::new());
    assert!(matches!(http_step(HttpEvent::Parsed(Ok(req))), HttpAction::Handle(r) if r.function == "b"));
    let a = http_step(HttpEvent::Parsed(Err(Error::Protocol("missing instance header".into()))));
    assert!(matches!(a, HttpAction::Reply { response: r, status: 200 } if &r.data[..] == b"failed to parse request: protocol error: missing instance header"));
    let a = http_step(HttpEvent::Handled(Err(Error::Transport("x".into()))));
    assert!(matches!(a, HttpAction::Reply { response: r, status: 200 } if &r.data[..] == b"handler error: transport error: x"));
    let a = http_step(HttpEvent::Handled(Ok(WrpcResponse::not_found())));
    assert!(matches!(a, HttpAction::Reply { response: r, status: 200 } if r.status == WrpcStatus::NotFound));
}
