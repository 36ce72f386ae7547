//! Recognising and parsing wRPC requests that arrive over HTTP, and the
//! answers that the HTTP entry point gives.

use vstd::prelude::*;
use vstd::utf8::*;
use crate::bindings::bytes_from_string;
use crate::error::{Error, ErrorModel, error_text};
use crate::message::{
    request_result_view, RequestModel, WrpcMessageType, WrpcRequest, WrpcResponse, ResponseModel, WrpcStatus,
    WRPC_VERSION,
};
use crate::text::{contains, contains_text, has_prefix, split_two, split_two_exec, starts_with,
    trim_start, trim_start_matches};

verus! {

/// What the outcome of looking a header up is: the value, `None` when the
/// request has no such header, or the lookup's error text.
pub type HeaderLookup = Result<Option<String>, String>;

/// The parts of an HTTP request that the wRPC rules read.
#[derive(Debug)]
pub struct RequestHead {
    /// The request's URL path
    pub path: String,
    /// The lookup of the `Content-Type` header
    pub content_type: HeaderLookup,
    /// The lookup of the `X-Wrpc-Instance` header
    pub instance_header: HeaderLookup,
    /// The lookup of the `X-Wrpc-Function` header
    pub function_header: HeaderLookup,
}

/// The path prefix under which wRPC calls are made.
pub const WRPC_PATH_PREFIX: &'static str = "/_wrpc/";

/// The content type prefix that marks a wRPC body.
pub const WRPC_CONTENT_TYPE_PREFIX: &'static str = "application/x-wrpc";

/// A header lookup found a value.
pub open spec fn header_present(h: HeaderLookup) -> bool {
    h matches Ok(Some(_))
}

/// A request is a wRPC request when its path is under `/_wrpc/`, when its
/// content type names `application/x-wrpc`, or when it carries the
/// `X-Wrpc-Instance` header.
pub open spec fn is_wrpc(head: RequestHead) -> bool {
    ||| has_prefix(head.path@, WRPC_PATH_PREFIX@)
    ||| (head.content_type matches Ok(Some(ct)) && contains_text(ct@, WRPC_CONTENT_TYPE_PREFIX@))
    ||| header_present(head.instance_header)
}

/// Check if an HTTP request is a wRPC request
pub fn is_wrpc_request(req: &RequestHead) -> (b: bool)
    ensures
        b == is_wrpc(*req),
{
    // Check by path prefix
    if starts_with(req.path.as_str(), WRPC_PATH_PREFIX) {
        return true;
    }
    // Check by content type
    if let Ok(Some(ct)) = &req.content_type {
        if contains(ct.as_str(), WRPC_CONTENT_TYPE_PREFIX) {
            return true;
        }
    }
    // Check by wRPC headers
    if let Ok(Some(_)) = &req.instance_header {
        return true;
    }
    false
}

/// A target (instance, function) or an error, as values.
pub open spec fn target_view(r: Result<(String, String), Error>) -> Result<
    (Seq<char>, Seq<char>),
    ErrorModel,
> {
    match r {
        Ok((i, f)) => Ok((i@, f@)),
        Err(e) => Err(e@),
    }
}

/// The target that the `X-Wrpc-Instance` and `X-Wrpc-Function` headers name.
pub open spec fn header_target(head: RequestHead) -> Result<(Seq<char>, Seq<char>), ErrorModel> {
    match head.instance_header {
        Err(m) => Err(ErrorModel::Protocol("failed to get instance header: "@ + m@)),
        Ok(None) => Err(ErrorModel::Protocol("missing instance header"@)),
        Ok(Some(instance)) => match head.function_header {
            Err(m) => Err(ErrorModel::Protocol("failed to get function header: "@ + m@)),
            Ok(None) => Err(ErrorModel::Protocol("missing function header"@)),
            Ok(Some(function)) => Ok((instance@, function@)),
        },
    }
}

/// The target of a request: the first two segments of its path after the
/// `/_wrpc/` prefix when the path has them, the headers' target otherwise.
pub open spec fn request_target(head: RequestHead) -> Result<
    (Seq<char>, Seq<char>),
    ErrorModel,
> {
    if has_prefix(head.path@, WRPC_PATH_PREFIX@) {
        match split_two(trim_start(head.path@, WRPC_PATH_PREFIX@)) {
            Some(pair) => Ok(pair),
            None => header_target(head),
        }
    } else {
        header_target(head)
    }
}

fn text_of(h: &String) -> (s: String)
    ensures
        s@ == h@,
{
    h.clone()
}

/// Take the instance and function from the wRPC headers.
pub fn extract_from_headers(req: &RequestHead) -> (r: Result<(String, String), Error>)
    ensures
        target_view(r) == header_target(*req),
{
    let instance = match &req.instance_header {
        Err(m) => {
            return Err(
                Error::Protocol(
                    String::from_str("failed to get instance header: ").concat(m.as_str()),
                ),
            );
        },
        Ok(None) => {
            return Err(Error::Protocol(String::from_str("missing instance header")));
        },
        Ok(Some(i)) => text_of(i),
    };
    let function = match &req.function_header {
        Err(m) => {
            return Err(
                Error::Protocol(
                    String::from_str("failed to get function header: ").concat(m.as_str()),
                ),
            );
        },
        Ok(None) => {
            return Err(Error::Protocol(String::from_str("missing function header")));
        },
        Ok(Some(f)) => text_of(f),
    };
    Ok((instance, function))
}

/// The instance and function a wRPC request over HTTP is addressed to: from
/// the path `/_wrpc/{instance}/{function}` when it has that shape, else from
/// the wRPC headers.
pub fn request_target_exec(req: &RequestHead) -> (r: Result<(String, String), Error>)
    ensures
        target_view(r) == request_target(*req),
{
    if starts_with(req.path.as_str(), WRPC_PATH_PREFIX) {
        let rest = trim_start_matches(req.path.as_str(), WRPC_PATH_PREFIX);
        match split_two_exec(rest.as_str()) {
            Some(pair) => Ok(pair),
            None => extract_from_headers(req),
        }
    } else {
        extract_from_headers(req)
    }
}

/// What the body of a wRPC request turned out to be, when it is read as an
/// envelope: its message type, and, for a request envelope, the outcome of
/// reading its payload as a request (the request, or the parser's error
/// text). `None` stands for a body that is no envelope.
pub type EnvelopeReading = Option<(WrpcMessageType, Result<WrpcRequest, String>)>;

/// The request that parsing gives, as a value, or the error.
pub open spec fn parsed_request(
    head: RequestHead,
    body: Result<String, String>,
    envelope: EnvelopeReading,
) -> Result<RequestModel, ErrorModel> {
    match request_target(head) {
        Err(e) => Err(e),
        Ok((instance, function)) => match body {
            Err(m) => Err(ErrorModel::Transport("failed to read body: "@ + m@)),
            Ok(text) => match envelope {
                Some((WrpcMessageType::Request, Ok(req))) => Ok(req@),
                Some((WrpcMessageType::Request, Err(m))) => Err(
                    ErrorModel::Protocol("invalid request payload: "@ + m@),
                ),
                _ => Ok(
                    RequestModel {
                        instance,
                        function,
                        params: encode_utf8(text@),
                        version: WRPC_VERSION@,
                    },
                ),
            },
        },
    }
}

/// Parse a wRPC request from an HTTP request, given its head, the outcome of
/// reading its body as text, and what the body is as an envelope. A request
/// envelope gives its payload; any other body is taken as the parameters of
/// a call to the target of the path or headers.
pub fn parse_wrpc_request(
    req: &RequestHead,
    body: Result<String, String>,
    envelope: EnvelopeReading,
) -> (r: Result<WrpcRequest, Error>)
    ensures
        request_result_view(r) == parsed_request(*req, body, envelope),
{
    let ghost body0 = body;
    let ghost envelope0 = envelope;
    let (instance, function) = match request_target_exec(req) {
        Ok(pair) => pair,
        Err(e) => {
            return Err(e);
        },
    };
    let text = match body {
        Err(m) => {
            return Err(
                Error::Transport(String::from_str("failed to read body: ").concat(m.as_str())),
            );
        },
        Ok(t) => t,
    };
    match envelope {
        Some((WrpcMessageType::Request, Ok(request))) => {
            return Ok(request);
        },
        Some((WrpcMessageType::Request, Err(m))) => {
            return Err(
                Error::Protocol(String::from_str("invalid request payload: ").concat(m.as_str())),
            );
        },
        _ => {},
    }
    Ok(WrpcRequest::from_http(instance.as_str(), function.as_str(), bytes_from_string(text)))
}

/// The HTTP status of the answer to a request that is not a wRPC request.
pub const NOT_WRPC_STATUS: u16 = 400;

/// The text of the answer to a request that is not a wRPC request.
pub const NOT_WRPC_MESSAGE: &'static str = "Not a wRPC request";

/// The response that answers a request that could not be parsed.
pub fn parse_failure_response(e: &Error) -> (r: WrpcResponse)
    ensures
        r@ == (ResponseModel {
            status: WrpcStatus::Error,
            data: encode_utf8("failed to parse request: "@ + error_text(e@)),
            version: WRPC_VERSION@,
        }),
{
    WrpcResponse::error(String::from_str("failed to parse request: ").concat(e.to_string().as_str()))
}

/// The response that answers a parsed request, given what its handler
/// gave: the handler's response, or an error response for its error.
pub fn handler_outcome_response(outcome: Result<WrpcResponse, Error>) -> (r: WrpcResponse)
    ensures
        match outcome {
            Ok(resp) => r@ == resp@,
            Err(e) => r@ == (ResponseModel {
                status: WrpcStatus::Error,
                data: encode_utf8("handler error: "@ + error_text(e@)),
                version: WRPC_VERSION@,
            }),
        },
{
    match outcome {
        Ok(resp) => resp,
        Err(e) => WrpcResponse::error(
            String::from_str("handler error: ").concat(e.to_string().as_str()),
        ),
    }
}

/// The response that a registered handler gives when the parameters do not
/// parse as its input, given the parser's error text.
pub fn invalid_params_response(parse_error: &str) -> (r: WrpcResponse)
    ensures
        r@ == (ResponseModel {
            status: WrpcStatus::Error,
            data: encode_utf8("invalid params: "@ + parse_error@),
            version: WRPC_VERSION@,
        }),
{
    WrpcResponse::error(String::from_str("invalid params: ").concat(parse_error))
}

/// What a registered handler does with the outcome of parsing its
/// parameters: calls the user's function with them, or answers with the
/// invalid-params response.
pub fn params_outcome<P>(parsed: Result<P, String>) -> (r: Result<P, WrpcResponse>)
    ensures
        match parsed {
            Ok(p) => r == Ok::<P, WrpcResponse>(p),
            Err(m) => r matches Err(resp) && resp@ == (ResponseModel {
                status: WrpcStatus::Error,
                data: encode_utf8("invalid params: "@ + m@),
                version: WRPC_VERSION@,
            }),
        },
{
    match parsed {
        Ok(p) => Ok(p),
        Err(m) => Err(invalid_params_response(m.as_str())),
    }
}

/// The HTTP status with which every wRPC response is sent, whatever its own
/// status: the outcome of a call travels in the envelope.
pub const WRPC_REPLY_STATUS: u16 = 200;

/// An event after which the router refuses the HTTP request.
pub open spec fn http_refuses(event: HttpEvent) -> bool {
    event matches HttpEvent::Arrived(head) && !is_wrpc(head)
}

/// What has happened to an HTTP request that the router serves.
pub enum HttpEvent {
    /// It arrived, with this head
    Arrived(RequestHead),
    /// Parsing it as a wRPC request gave this
    Parsed(Result<WrpcRequest, Error>),
    /// The handler gave this
    Handled(Result<WrpcResponse, Error>),
}

/// What the router does next with an HTTP request.
pub enum HttpAction {
    /// Answer with an HTTP error
    Reject { message: String, status: u16 },
    /// Parse it as a wRPC request
    Parse,
    /// Hand this request to its handler
    Handle(WrpcRequest),
    /// Answer with this response, sent with this HTTP status
    Reply { response: WrpcResponse, status: u16 },
}

/// The HTTP status of the answer that a step gives, where it gives one: a
/// request that is no wRPC request is refused with `NOT_WRPC_STATUS`; every
/// answer to a wRPC request, whatever its outcome, is sent with
/// `WRPC_REPLY_STATUS`.
pub open spec fn http_reply_status(event: HttpEvent) -> Option<u16> {
    match event {
        HttpEvent::Arrived(head) => if is_wrpc(head) {
            None
        } else {
            Some(NOT_WRPC_STATUS)
        },
        HttpEvent::Parsed(Ok(_)) => None,
        HttpEvent::Parsed(Err(_)) => Some(WRPC_REPLY_STATUS),
        HttpEvent::Handled(_) => Some(WRPC_REPLY_STATUS),
    }
}

/// The HTTP status that an action answers with, where it answers.
pub open spec fn action_status(a: HttpAction) -> Option<u16> {
    match a {
        HttpAction::Reject { status, .. } => Some(status),
        HttpAction::Reply { status, .. } => Some(status),
        _ => None,
    }
}

/// The next step of serving an HTTP request: a request that is no wRPC
/// request is refused; one that is gets parsed; a parse failure is answered
/// with an error response, a parsed request goes to its handler, and what
/// the handler gives is answered.
pub fn http_step(event: HttpEvent) -> (a: HttpAction)
    ensures
        (a is Reject) == http_refuses(event),
        action_status(a) == http_reply_status(event),
        match event {
            HttpEvent::Arrived(head) => if is_wrpc(head) {
                a is Parse
            } else {
                a matches HttpAction::Reject { message, status } && message@ == NOT_WRPC_MESSAGE@
                    && status == NOT_WRPC_STATUS
            },
            HttpEvent::Parsed(Ok(req)) => a matches HttpAction::Handle(got) && got@ == req@,
            HttpEvent::Parsed(Err(e)) => a matches HttpAction::Reply { response: resp, .. } && resp@ == (
            ResponseModel {
                status: WrpcStatus::Error,
                data: encode_utf8("failed to parse request: "@ + error_text(e@)),
                version: WRPC_VERSION@,
            }),
            HttpEvent::Handled(Ok(resp)) => a matches HttpAction::Reply { response: got, .. } && got@
                == resp@,
            HttpEvent::Handled(Err(e)) => a matches HttpAction::Reply { response: resp, .. } && resp@
                == (
            ResponseModel {
                status: WrpcStatus::Error,
                data: encode_utf8("handler error: "@ + error_text(e@)),
                version: WRPC_VERSION@,
            }),
        },
{
    match event {
        HttpEvent::Arrived(head) => {
            if is_wrpc_request(&head) {
                HttpAction::Parse
            } else {
                HttpAction::Reject { message: String::from_str(NOT_WRPC_MESSAGE), status: NOT_WRPC_STATUS }
            }
        },
        HttpEvent::Parsed(Ok(req)) => HttpAction::Handle(req),
        HttpEvent::Parsed(Err(e)) => HttpAction::Reply {
            response: parse_failure_response(&e),
            status: WRPC_REPLY_STATUS,
        },
        HttpEvent::Handled(outcome) => HttpAction::Reply {
            response: handler_outcome_response(outcome),
            status: WRPC_REPLY_STATUS,
        },
    }
}

/// A step of turning a response into its HTTP reply that failed, with the
/// serializer's error text.
pub enum ReplyEncodingFailure {
    /// The response could not be turned into a JSON value
    Envelope(String),
    /// The envelope could not be written as JSON text
    Body(String),
}

/// The text of the runtime error that a failed reply encoding gives.
pub fn reply_failure_text(f: &ReplyEncodingFailure) -> (s: String)
    ensures
        s@ == match f {
            ReplyEncodingFailure::Envelope(m) => "failed to create envelope: "@ + m@,
            ReplyEncodingFailure::Body(m) => "failed to serialize response: "@ + m@,
        },
{
    match f {
        ReplyEncodingFailure::Envelope(m) => String::from_str("failed to create envelope: ").concat(
            m.as_str(),
        ),
        ReplyEncodingFailure::Body(m) => String::from_str("failed to serialize response: ").concat(
            m.as_str(),
        ),
    }
}

} // verus!
