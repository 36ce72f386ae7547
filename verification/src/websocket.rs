//! WebSocket transport for wRPC communication between Durable Objects
//!
//! The sockets carry wRPC envelopes as JSON text. This module holds the
//! sockets and decides what each received message or event means.

use vstd::prelude::*;
use crate::bindings::{websocket_clone, websocket_pair_new};
use crate::error::{Error, ErrorModel};
use crate::message::{
    request_result_view, response_result_view, RequestModel, ResponseModel, WrpcEnvelope,
    WrpcMessageType, WrpcRequest, WrpcResponse,
};

verus! {

/// WebSocket-based wRPC client for persistent connections
pub struct WrpcWebSocket {
    socket: worker::WebSocket,
}

impl WrpcWebSocket {
    /// The socket messages go through.
    pub closed spec fn socket_spec(&self) -> worker::WebSocket {
        self.socket
    }

    /// Create a new wRPC WebSocket wrapper from an existing WebSocket
    pub fn new(socket: worker::WebSocket) -> (w: Self)
        ensures
            w.socket_spec() == socket,
    {
        WrpcWebSocket { socket }
    }

    /// Get the inner WebSocket
    pub fn inner(&self) -> (s: &worker::WebSocket)
        ensures
            *s == self.socket_spec(),
    {
        &self.socket
    }
}

/// Handler for WebSocket-based wRPC connections in a Durable Object
pub struct WrpcWebSocketHandler {
    client: worker::WebSocket,
    server: worker::WebSocket,
}

impl WrpcWebSocketHandler {
    /// The client end of the pair.
    pub closed spec fn client_spec(&self) -> worker::WebSocket {
        self.client
    }

    /// The server end of the pair.
    pub closed spec fn server_spec(&self) -> worker::WebSocket {
        self.server
    }

    /// A handler over the pair that the runtime made, or the runtime's error
    /// as a transport error.
    pub fn from_pair(pair: Result<(worker::WebSocket, worker::WebSocket), String>) -> (r: Result<
        Self,
        Error,
    >)
        ensures
            match pair {
                Ok((client, server)) => r matches Ok(h) && h.client_spec() == client
                    && h.server_spec() == server,
                Err(m) => r matches Err(e) && e@ == ErrorModel::Transport(m@),
            },
    {
        match pair {
            Ok((client, server)) => Ok(WrpcWebSocketHandler { client, server }),
            Err(m) => Err(Error::Transport(m)),
        }
    }

    /// Create a new WebSocket handler pair
    pub fn new() -> (r: Result<Self, Error>)
        ensures
            r matches Err(e) ==> e is Transport,
    {
        Self::from_pair(websocket_pair_new())
    }

    /// Get the client WebSocket (to return in the HTTP response)
    pub fn client(&self) -> (w: WrpcWebSocket)
        ensures
            w.socket_spec() == self.client_spec(),
    {
        WrpcWebSocket::new(websocket_clone(&self.client))
    }

    /// Get the server WebSocket (to handle incoming messages)
    pub fn server(&self) -> (w: WrpcWebSocket)
        ensures
            w.socket_spec() == self.server_spec(),
    {
        WrpcWebSocket::new(websocket_clone(&self.server))
    }

    /// Get the client WebSocket for returning in Response::from_websocket
    pub fn into_client_websocket(self) -> (s: worker::WebSocket)
        ensures
            s == self.client_spec(),
    {
        self.client
    }
}

/// Parse a wRPC message from WebSocket text, given the outcome of reading
/// the text as an envelope (the envelope, or the parser's error text).
pub fn parse_websocket_message(parsed: Result<WrpcEnvelope, String>) -> (r: Result<
    WrpcEnvelope,
    Error,
>)
    ensures
        match parsed {
            Ok(env) => r == Ok::<WrpcEnvelope, Error>(env),
            Err(m) => r matches Err(e) && e@ == ErrorModel::Protocol("invalid message: "@ + m@),
        },
{
    match parsed {
        Ok(env) => Ok(env),
        Err(m) => Err(Error::Protocol(String::from_str("invalid message: ").concat(m.as_str()))),
    }
}

/// The request that an envelope of the given type yields, given the outcome
/// of reading its payload as a request.
pub open spec fn extracted_request(msg_type: WrpcMessageType, payload: Result<WrpcRequest, String>)
    -> Result<RequestModel, ErrorModel> {
    if msg_type != WrpcMessageType::Request {
        Err(ErrorModel::Protocol("expected request message"@))
    } else {
        match payload {
            Ok(req) => Ok(req@),
            Err(m) => Err(ErrorModel::Protocol("invalid request: "@ + m@)),
        }
    }
}

/// The response that an envelope of the given type yields, given the outcome
/// of reading its payload as a response.
pub open spec fn extracted_response(
    msg_type: WrpcMessageType,
    payload: Result<WrpcResponse, String>,
) -> Result<ResponseModel, ErrorModel> {
    if msg_type != WrpcMessageType::Response {
        Err(ErrorModel::Protocol("expected response message"@))
    } else {
        match payload {
            Ok(resp) => Ok(resp@),
            Err(m) => Err(ErrorModel::Protocol("invalid response: "@ + m@)),
        }
    }
}

/// Extract wRPC request from envelope, given the outcome of reading the
/// envelope's payload as a request (the request, or the parser's error text).
pub fn extract_request(envelope: &WrpcEnvelope, payload: Result<WrpcRequest, String>) -> (r:
    Result<WrpcRequest, Error>)
    ensures
        request_result_view(r) == extracted_request(envelope.msg_type, payload),
{
    if envelope.msg_type != WrpcMessageType::Request {
        return Err(Error::Protocol(String::from_str("expected request message")));
    }
    match payload {
        Ok(req) => Ok(req),
        Err(m) => Err(Error::Protocol(String::from_str("invalid request: ").concat(m.as_str()))),
    }
}

/// Extract wRPC response from envelope, given the outcome of reading the
/// envelope's payload as a response (the response, or the parser's error
/// text).
pub fn extract_response(envelope: &WrpcEnvelope, payload: Result<WrpcResponse, String>) -> (r:
    Result<WrpcResponse, Error>)
    ensures
        response_result_view(r) == extracted_response(envelope.msg_type, payload),
{
    if envelope.msg_type != WrpcMessageType::Response {
        return Err(Error::Protocol(String::from_str("expected response message")));
    }
    match payload {
        Ok(resp) => Ok(resp),
        Err(m) => Err(Error::Protocol(String::from_str("invalid response: ").concat(m.as_str()))),
    }
}

/// An event on a socket that waits for the answer to a call.
pub enum SocketEvent {
    /// A text message, with the outcome of reading it as an envelope whose
    /// payload is a response (the response, or the parser's error text)
    Text(Result<WrpcResponse, String>),
    /// A message with no text
    Binary,
    /// The socket was closed
    Closed,
    /// The event stream reported an error, with its text
    Failed(String),
}

/// Where a call over a socket stands after an event.
pub enum InvokeProgress {
    /// No answer yet: wait for the next event
    Waiting,
    /// The answer arrived
    Answered(WrpcResponse),
    /// The call failed
    Failed(Error),
}

/// Where a call stands after an event, as a value: `None` for waiting, or
/// the answer or error.
pub open spec fn progress_after(ev: SocketEvent) -> Option<Result<ResponseModel, ErrorModel>> {
    match ev {
        SocketEvent::Text(Ok(resp)) => Some(Ok(resp@)),
        SocketEvent::Text(Err(m)) => Some(Err(ErrorModel::Serialization(m@))),
        SocketEvent::Binary => None,
        SocketEvent::Closed => Some(Err(ErrorModel::Transport("WebSocket closed"@))),
        SocketEvent::Failed(m) => Some(Err(ErrorModel::Transport(m@))),
    }
}

/// The answer a call gets from the events of its socket, in order: what the
/// first event that settles it gives, or the no-response error when the
/// stream ends first.
pub open spec fn call_answer(events: Seq<SocketEvent>) -> Result<ResponseModel, ErrorModel>
    decreases events.len(),
{
    if events.len() == 0 {
        Err(ErrorModel::Transport("No response received"@))
    } else {
        match progress_after(events[0]) {
            Some(settled) => settled,
            None => call_answer(events.drop_first()),
        }
    }
}

/// Where a call stands, as a value.
pub open spec fn progress_view(p: InvokeProgress) -> Option<Result<ResponseModel, ErrorModel>> {
    match p {
        InvokeProgress::Waiting => None,
        InvokeProgress::Answered(resp) => Some(Ok(resp@)),
        InvokeProgress::Failed(e) => Some(Err(e@)),
    }
}

/// What an event on the socket means for a call that waits for its answer:
/// the first text message answers it, a message without text is skipped,
/// and a close or a stream error ends it.
pub fn invoke_on_event(ev: SocketEvent) -> (p: InvokeProgress)
    ensures
        progress_view(p) == progress_after(ev),
{
    match ev {
        SocketEvent::Text(Ok(resp)) => InvokeProgress::Answered(resp),
        SocketEvent::Text(Err(m)) => InvokeProgress::Failed(Error::Serialization(m)),
        SocketEvent::Binary => InvokeProgress::Waiting,
        SocketEvent::Closed => InvokeProgress::Failed(
            Error::Transport(String::from_str("WebSocket closed")),
        ),
        SocketEvent::Failed(m) => InvokeProgress::Failed(Error::Transport(m)),
    }
}

/// The error of a call whose event stream ended before an answer came.
pub fn no_response_error() -> (e: Error)
    ensures
        e@ == ErrorModel::Transport("No response received"@),
{
    Error::Transport(String::from_str("No response received"))
}

} // verus!
