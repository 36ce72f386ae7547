//! wRPC message types for Durable Object communication

use vstd::prelude::*;
use vstd::utf8::*;
use crate::bindings::{
    bytes_as_slice, bytes_clone, bytes_contents, bytes_from_static_str, bytes_from_string,
    bytes_from_vec, utf8_lossy, utf8_lossy_text,
};
use crate::error::{Error, ErrorModel};

verus! {

/// wRPC protocol version
pub const WRPC_VERSION: &'static str = "0.1.0";

/// Content type for wRPC messages
pub const WRPC_CONTENT_TYPE: &'static str = "application/x-wrpc+json";

/// HTTP header for wRPC instance
pub const WRPC_INSTANCE_HEADER: &'static str = "X-Wrpc-Instance";

/// HTTP header for wRPC function
pub const WRPC_FUNCTION_HEADER: &'static str = "X-Wrpc-Function";

/// HTTP header for wRPC version
pub const WRPC_VERSION_HEADER: &'static str = "X-Wrpc-Version";

/// The text that `not_found` responses carry.
pub const NOT_FOUND_MESSAGE: &'static str = "function not found";

/// The path under which a function of an instance is reached:
/// `/_wrpc/{instance}/{function}`.
pub open spec fn request_path(instance: Seq<char>, function: Seq<char>) -> Seq<char> {
    "/_wrpc/"@ + instance + "/"@ + function
}

/// The protocol version, as an owned string.
pub fn default_version() -> (v: String)
    ensures
        v@ == WRPC_VERSION@,
{
    String::from_str(WRPC_VERSION)
}

/// A wRPC request message
#[derive(Debug)]
pub struct WrpcRequest {
    /// The WIT instance being invoked
    pub instance: String,
    /// The function being called
    pub function: String,
    /// Serialized parameters (JSON encoded)
    pub params: bytes::Bytes,
    /// Protocol version
    pub version: String,
}

/// What a request is: its instance, function, parameter bytes and version.
pub struct RequestModel {
    pub instance: Seq<char>,
    pub function: Seq<char>,
    pub params: Seq<u8>,
    pub version: Seq<char>,
}

impl View for WrpcRequest {
    type V = RequestModel;

    open spec fn view(&self) -> RequestModel {
        RequestModel {
            instance: self.instance@,
            function: self.function@,
            params: bytes_contents(self.params),
            version: self.version@,
        }
    }
}

impl Clone for WrpcRequest {
    fn clone(&self) -> (r: Self)
        ensures
            r@ == self@,
    {
        WrpcRequest {
            instance: self.instance.clone(),
            function: self.function.clone(),
            params: bytes_clone(&self.params),
            version: self.version.clone(),
        }
    }
}

impl WrpcRequest {
    /// Create a new wRPC request from the outcome of serializing its
    /// parameters to JSON (the bytes, or the serializer's error text).
    pub fn new(instance: &str, function: &str, params: Result<Vec<u8>, String>) -> (r: Result<
        Self,
        Error,
    >)
        ensures
            match params {
                Ok(bytes) => r matches Ok(req) && req@ == (RequestModel {
                    instance: instance@,
                    function: function@,
                    params: bytes@,
                    version: WRPC_VERSION@,
                }),
                Err(msg) => r == Err::<Self, Error>(Error::Serialization(msg)),
            },
    {
        match params {
            Ok(bytes) => Ok(WrpcRequest {
                instance: String::from_str(instance),
                function: String::from_str(function),
                params: bytes_from_vec(bytes),
                version: default_version(),
            }),
            Err(msg) => Err(Error::Serialization(msg)),
        }
    }

    /// Decode the parameters from the request, given the outcome of parsing
    /// `self.params` as JSON into `T` (the value, or the parser's error text).
    pub fn decode_params<T>(&self, parsed: Result<T, String>) -> (r: Result<T, Error>)
        ensures
            match parsed {
                Ok(v) => r == Ok::<T, Error>(v),
                Err(msg) => r == Err::<T, Error>(Error::Serialization(msg)),
            },
    {
        match parsed {
            Ok(v) => Ok(v),
            Err(msg) => Err(Error::Serialization(msg)),
        }
    }

    /// Create a request from HTTP headers and body
    pub fn from_http(instance: &str, function: &str, body: bytes::Bytes) -> (r: Self)
        ensures
            r@ == (RequestModel {
                instance: instance@,
                function: function@,
                params: bytes_contents(body),
                version: WRPC_VERSION@,
            }),
    {
        WrpcRequest {
            instance: String::from_str(instance),
            function: String::from_str(function),
            params: body,
            version: default_version(),
        }
    }

    /// Get the URL path for this request
    pub fn path(&self) -> (p: String)
        ensures
            p@ == request_path(self.instance@, self.function@),
    {
        let mut p = String::from_str("/_wrpc/");
        p.append(self.instance.as_str());
        p.append("/");
        p.append(self.function.as_str());
        p
    }
}

/// Status of a wRPC response
#[derive(Debug, Clone, Copy, PartialEq, Eq, Structural)]
pub enum WrpcStatus {
    /// Success (`"ok"` on the wire)
    Success,
    /// Error
    Error,
    /// Not found
    NotFound,
}

/// A request or an error, as values.
pub open spec fn request_result_view(r: Result<WrpcRequest, Error>) -> Result<
    RequestModel,
    ErrorModel,
> {
    match r {
        Ok(req) => Ok(req@),
        Err(e) => Err(e@),
    }
}

/// A response or an error, as values.
pub open spec fn response_result_view(r: Result<WrpcResponse, Error>) -> Result<
    ResponseModel,
    ErrorModel,
> {
    match r {
        Ok(resp) => Ok(resp@),
        Err(e) => Err(e@),
    }
}

/// A wRPC response message
#[derive(Debug)]
pub struct WrpcResponse {
    /// Response status
    pub status: WrpcStatus,
    /// Serialized result (JSON encoded) or error message
    pub data: bytes::Bytes,
    /// Protocol version
    pub version: String,
}

/// What a response is: its status, data bytes and version.
pub struct ResponseModel {
    pub status: WrpcStatus,
    pub data: Seq<u8>,
    pub version: Seq<char>,
}

impl View for WrpcResponse {
    type V = ResponseModel;

    open spec fn view(&self) -> ResponseModel {
        ResponseModel { status: self.status, data: bytes_contents(self.data), version: self.version@ }
    }
}

impl Clone for WrpcResponse {
    fn clone(&self) -> (r: Self)
        ensures
            r@ == self@,
    {
        WrpcResponse {
            status: self.status,
            data: bytes_clone(&self.data),
            version: self.version.clone(),
        }
    }
}

/// The error that decoding a response with the given status and data gives,
/// when the status is not `Ok`.
pub open spec fn decode_failure(status: WrpcStatus, data: Seq<u8>) -> Option<ErrorModel> {
    match status {
        WrpcStatus::Success => None,
        WrpcStatus::Error => Some(ErrorModel::Protocol(utf8_lossy_text(data))),
        WrpcStatus::NotFound => Some(
            ErrorModel::NotFound { instance: Seq::<char>::empty(), function: Seq::<char>::empty() },
        ),
    }
}

/// The HTTP status code that stands for a response status.
pub open spec fn status_code(status: WrpcStatus) -> u16 {
    match status {
        WrpcStatus::Success => 200,
        WrpcStatus::Error => 500,
        WrpcStatus::NotFound => 404,
    }
}

impl WrpcResponse {
    /// Create a successful response from the outcome of serializing the
    /// result to JSON (the bytes, or the serializer's error text).
    pub fn ok(result: Result<Vec<u8>, String>) -> (r: Result<Self, Error>)
        ensures
            match result {
                Ok(bytes) => r matches Ok(resp) && resp@ == (ResponseModel {
                    status: WrpcStatus::Success,
                    data: bytes@,
                    version: WRPC_VERSION@,
                }),
                Err(msg) => r == Err::<Self, Error>(Error::Serialization(msg)),
            },
    {
        match result {
            Ok(bytes) => Ok(WrpcResponse {
                status: WrpcStatus::Success,
                data: bytes_from_vec(bytes),
                version: default_version(),
            }),
            Err(msg) => Err(Error::Serialization(msg)),
        }
    }

    /// Create an error response
    pub fn error(message: String) -> (r: Self)
        ensures
            r@ == (ResponseModel {
                status: WrpcStatus::Error,
                data: encode_utf8(message@),
                version: WRPC_VERSION@,
            }),
    {
        WrpcResponse {
            status: WrpcStatus::Error,
            data: bytes_from_string(message),
            version: default_version(),
        }
    }

    /// Create a not found response
    pub fn not_found() -> (r: Self)
        ensures
            r@ == (ResponseModel {
                status: WrpcStatus::NotFound,
                data: encode_utf8(NOT_FOUND_MESSAGE@),
                version: WRPC_VERSION@,
            }),
    {
        WrpcResponse {
            status: WrpcStatus::NotFound,
            data: bytes_from_static_str(NOT_FOUND_MESSAGE),
            version: default_version(),
        }
    }

    /// Decode the response data, given the outcome of parsing `self.data`
    /// as JSON into `T` (the value, or the parser's error text). The parse
    /// outcome is used only when the status is `Ok`.
    pub fn decode<T>(&self, parsed: Result<T, String>) -> (r: Result<T, Error>)
        ensures
            match decode_failure(self.status, self@.data) {
                Some(em) => r matches Err(e) && e@ == em,
                None => match parsed {
                    Ok(v) => r == Ok::<T, Error>(v),
                    Err(msg) => r == Err::<T, Error>(Error::Serialization(msg)),
                },
            },
    {
        match self.status {
            WrpcStatus::Success => match parsed {
                Ok(v) => Ok(v),
                Err(msg) => Err(Error::Serialization(msg)),
            },
            WrpcStatus::Error => Err(Error::Protocol(utf8_lossy(bytes_as_slice(&self.data)))),
            WrpcStatus::NotFound => Err(
                Error::NotFound { instance: String::new(), function: String::new() },
            ),
        }
    }

    /// Check if the response is successful
    pub fn is_ok(&self) -> (b: bool)
        ensures
            b == (self.status == WrpcStatus::Success),
    {
        self.status == WrpcStatus::Success
    }

    /// Check if the response is an error
    pub fn is_error(&self) -> (b: bool)
        ensures
            b == (self.status == WrpcStatus::Error),
    {
        self.status == WrpcStatus::Error
    }

    /// Convert to HTTP status code
    pub fn http_status(&self) -> (code: u16)
        ensures
            code == status_code(self.status),
    {
        match self.status {
            WrpcStatus::Success => 200,
            WrpcStatus::Error => 500,
            WrpcStatus::NotFound => 404,
        }
    }
}

/// Type of wRPC message
#[derive(Debug, Clone, Copy, PartialEq, Eq, Structural)]
pub enum WrpcMessageType {
    /// Request message
    Request,
    /// Response message
    Response,
}

/// Envelope for wRPC messages over HTTP
#[derive(Debug)]
pub struct WrpcEnvelope {
    /// Protocol version
    pub version: String,
    /// Message type
    pub msg_type: WrpcMessageType,
    /// Payload
    pub payload: serde_json::Value,
}

impl WrpcEnvelope {
    /// Create a request envelope around the outcome of turning the request
    /// into a JSON value (the value, or the serializer's error text).
    pub fn request(payload: Result<serde_json::Value, String>) -> (r: Result<Self, Error>)
        ensures
            match payload {
                Ok(v) => r matches Ok(env) && env.version@ == WRPC_VERSION@ && env.msg_type
                    == WrpcMessageType::Request && env.payload == v,
                Err(msg) => r == Err::<Self, Error>(Error::Serialization(msg)),
            },
    {
        match payload {
            Ok(v) => Ok(
                WrpcEnvelope {
                    version: default_version(),
                    msg_type: WrpcMessageType::Request,
                    payload: v,
                },
            ),
            Err(msg) => Err(Error::Serialization(msg)),
        }
    }

    /// Create a response envelope around the outcome of turning the response
    /// into a JSON value (the value, or the serializer's error text).
    pub fn response(payload: Result<serde_json::Value, String>) -> (r: Result<Self, Error>)
        ensures
            match payload {
                Ok(v) => r matches Ok(env) && env.version@ == WRPC_VERSION@ && env.msg_type
                    == WrpcMessageType::Response && env.payload == v,
                Err(msg) => r == Err::<Self, Error>(Error::Serialization(msg)),
            },
    {
        match payload {
            Ok(v) => Ok(
                WrpcEnvelope {
                    version: default_version(),
                    msg_type: WrpcMessageType::Response,
                    payload: v,
                },
            ),
            Err(msg) => Err(Error::Serialization(msg)),
        }
    }
}

} // verus!
