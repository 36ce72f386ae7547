use bytes::Bytes;
use wrpc_transport_do::error::Error;
use wrpc_transport_do::message::{WrpcEnvelope, WrpcMessageType, WrpcRequest, WrpcResponse, WrpcStatus};
use wrpc_transport_do::websocket::{
    extract_request, extract_response, invoke_on_event, no_response_error,
    parse_websocket_message, InvokeProgress, SocketEvent,
};

fn envelope(t: WrpcMessageType) -> WrpcEnvelope {
    WrpcEnvelope { version: "0.1.0".to_string(), msg_type: t, payload: serde_json::Value::Null }
}

#[test]
fn message_parse_errors_are_protocol_errors() {
    let r = parse_websocket_message(Err("EOF while parsing".to_string()));
    assert!(matches!(r, Err(Error::Protocol(m)) if m == "invalid message: EOF while parsing"));
    let r = parse_websocket_message(Ok(envelope(WrpcMessageType::Request))).unwrap();
    assert_eq!(r.msg_type, WrpcMessageType::Request);
}

#[test]
fn extract_request_checks_type() {
    let req = WrpcRequest::from_http("pingpong", "ping", Bytes::from("{}"));
    let r = extract_request(&envelope(WrpcMessageType::Request), Ok(req)).unwrap();
    assert_eq!(r.function, "ping");
    let req = WrpcRequest::from_http("pingpong", "ping", Bytes::from("{}"));
    let r = extract_request(&envelope(WrpcMessageType::Response), Ok(req));
    assert!(matches!(r, Err(Error::Protocol(m)) if m == "expected request message"));
    let r = extract_request(&envelope(WrpcMessageType::Request), Err("missing field".to_string()));
    assert!(matches!(r, Err(Error::Protocol(m)) if m == "invalid request: missing field"));
}

#[test]
fn extract_response_checks_type() {
    let r = extract_response(&envelope(WrpcMessageType::Response), Ok(WrpcResponse::not_found()))
        .unwrap();
    assert_eq!(r.status, WrpcStatus::NotFound);
    let r = extract_response(&envelope(WrpcMessageType::Request), Ok(WrpcResponse::not_found()));
    assert!(matches!(r, Err(Error::Protocol(m)) if m == "expected response message"));
    let r = extract_response(&envelope(WrpcMessageType::Response), Err("bad".to_string()));
    assert!(matches!(r, Err(Error::Protocol(m)) if m == "invalid response: bad"));
}

#[test]
fn socket_events_drive_an_invocation() {
    assert!(matches!(invoke_on_event(SocketEvent::Binary), InvokeProgress::Waiting));
    let p = invoke_on_event(SocketEvent::Text(Ok(WrpcResponse::error("x".to_string()))));
    assert!(matches!(p, InvokeProgress::Answered(r) if r.status == WrpcStatus::Error));
    let p = invoke_on_event(SocketEvent::Text(Err("expected value".to_string())));
    assert!(matches!(p, InvokeProgress::Failed(Error::Serialization(m)) if m == "expected value"));
    let p = invoke_on_event(SocketEvent::Closed);
    assert!(matches!(p, InvokeProgress::Failed(Error::Transport(m)) if m == "WebSocket closed"));
    let p = invoke_on_event(SocketEvent::Failed("reset".to_string()));
    assert!(matches!(p, InvokeProgress::Failed(Error::Transport(m)) if m == "reset"));
    assert!(matches!(no_response_error(), Error::Transport(m) if m == "No response received"));
}
