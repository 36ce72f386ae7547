//! wRPC client for invoking functions on Durable Objects

use vstd::prelude::*;
use crate::bindings::{
    namespace_get_by_name, namespace_id_from_string, namespace_unique_id, object_id_get_stub,
};
use crate::error::{Error, ErrorModel};
use crate::message::{
    request_path, response_result_view, WrpcRequest, WrpcResponse, ResponseModel, WRPC_CONTENT_TYPE,
    WRPC_FUNCTION_HEADER, WRPC_INSTANCE_HEADER, WRPC_VERSION, WRPC_VERSION_HEADER,
};

verus! {

/// Client for making wRPC calls to a Durable Object
pub struct DurableObjectClient {
    stub: worker::Stub,
}

/// The origin under which calls to a Durable Object are addressed.
pub const DO_ORIGIN: &'static str = "https://do.internal";

/// The URL a request is sent to.
pub open spec fn request_url(instance: Seq<char>, function: Seq<char>) -> Seq<char> {
    DO_ORIGIN@ + request_path(instance, function)
}

/// The headers a request is sent with, in the order they are set.
pub open spec fn request_headers(instance: Seq<char>, function: Seq<char>) -> Seq<
    (Seq<char>, Seq<char>),
> {
    seq![
        ("Content-Type"@, WRPC_CONTENT_TYPE@),
        (WRPC_VERSION_HEADER@, WRPC_VERSION@),
        (WRPC_INSTANCE_HEADER@, instance),
        (WRPC_FUNCTION_HEADER@, function),
    ]
}

/// How a call went, step by step: the first step that failed, with the
/// error text it gave, or the response that came back.
pub enum CallOutcome {
    /// The request could not be turned into a JSON value
    EnvelopeUnserializable(String),
    /// The envelope could not be written as JSON text
    BodyUnserializable(String),
    /// A header could not be set
    HeaderRefused(String),
    /// The HTTP request could not be built
    RequestRefused(String),
    /// The fetch to the Durable Object failed
    FetchFailed(String),
    /// The response body could not be read
    BodyUnreadable(String),
    /// The response body is no envelope
    BadEnvelope(String),
    /// The envelope's payload is no response
    BadPayload(String),
    /// The Durable Object answered with this response
    Replied(WrpcResponse),
}

/// The result of a call, as a value.
pub open spec fn call_result(o: CallOutcome) -> Result<ResponseModel, ErrorModel> {
    match o {
        CallOutcome::EnvelopeUnserializable(m) => Err(ErrorModel::Serialization(m@)),
        CallOutcome::BodyUnserializable(m) => Err(ErrorModel::Serialization(m@)),
        CallOutcome::HeaderRefused(m) => Err(ErrorModel::Transport(m@)),
        CallOutcome::RequestRefused(m) => Err(ErrorModel::Transport(m@)),
        CallOutcome::FetchFailed(m) => Err(ErrorModel::Worker(m@)),
        CallOutcome::BodyUnreadable(m) => Err(
            ErrorModel::Transport("failed to read response body: "@ + m@),
        ),
        CallOutcome::BadEnvelope(m) => Err(ErrorModel::Protocol("invalid response envelope: "@ + m@)),
        CallOutcome::BadPayload(m) => Err(ErrorModel::Protocol("invalid response payload: "@ + m@)),
        CallOutcome::Replied(r) => Ok(r@),
    }
}

impl DurableObjectClient {
    /// The stub the client sends to.
    pub closed spec fn stub_spec(&self) -> worker::Stub {
        self.stub
    }

    /// Create a new client for the given Durable Object stub
    pub fn new(stub: worker::Stub) -> (c: Self)
        ensures
            c.stub_spec() == stub,
    {
        DurableObjectClient { stub }
    }

    /// The stub the client sends to.
    pub fn stub(&self) -> (s: &worker::Stub)
        ensures
            *s == self.stub_spec(),
    {
        &self.stub
    }

    /// A client for the stub that a lookup gave, or the lookup's error as a
    /// worker error.
    pub fn from_stub_result(r: Result<worker::Stub, String>) -> (c: Result<Self, Error>)
        ensures
            match r {
                Ok(s) => c matches Ok(client) && client.stub_spec() == s,
                Err(m) => c matches Err(e) && e@ == ErrorModel::Worker(m@),
            },
    {
        match r {
            Ok(s) => Ok(DurableObjectClient::new(s)),
            Err(m) => Err(Error::Worker(m)),
        }
    }

    /// The URL that a request is sent to: the path of the request under the
    /// internal Durable Object origin.
    pub fn request_url(request: &WrpcRequest) -> (u: String)
        ensures
            u@ == request_url(request.instance@, request.function@),
    {
        String::from_str(DO_ORIGIN).concat(request.path().as_str())
    }

    /// The headers (name, value) that a request is sent with, in order.
    pub fn request_headers(request: &WrpcRequest) -> (h: Vec<(String, String)>)
        ensures
            h@.len() == 4,
            forall|i: int|
                0 <= i < 4 ==> (#[trigger] h@[i]).0@ == request_headers(
                    request.instance@,
                    request.function@,
                )[i].0 && h@[i].1@ == request_headers(request.instance@, request.function@)[i].1,
    {
        let mut h: Vec<(String, String)> = Vec::new();
        h.push((String::from_str("Content-Type"), String::from_str(WRPC_CONTENT_TYPE)));
        h.push((String::from_str(WRPC_VERSION_HEADER), String::from_str(WRPC_VERSION)));
        h.push((String::from_str(WRPC_INSTANCE_HEADER), request.instance.clone()));
        h.push((String::from_str(WRPC_FUNCTION_HEADER), request.function.clone()));
        h
    }

    /// The result of a call, from how its steps went: the response that came
    /// back, or the error of the first step that failed.
    pub fn call_result(outcome: CallOutcome) -> (r: Result<WrpcResponse, Error>)
        ensures
            response_result_view(r) == call_result(outcome),
    {
        match outcome {
            CallOutcome::EnvelopeUnserializable(m) => Err(Error::Serialization(m)),
            CallOutcome::BodyUnserializable(m) => Err(Error::Serialization(m)),
            CallOutcome::HeaderRefused(m) => Err(Error::Transport(m)),
            CallOutcome::RequestRefused(m) => Err(Error::Transport(m)),
            CallOutcome::FetchFailed(m) => Err(Error::Worker(m)),
            CallOutcome::BodyUnreadable(m) => Err(
                Error::Transport(
                    String::from_str("failed to read response body: ").concat(m.as_str()),
                ),
            ),
            CallOutcome::BadEnvelope(m) => Err(
                Error::Protocol(String::from_str("invalid response envelope: ").concat(m.as_str())),
            ),
            CallOutcome::BadPayload(m) => Err(
                Error::Protocol(String::from_str("invalid response payload: ").concat(m.as_str())),
            ),
            CallOutcome::Replied(r) => Ok(r),
        }
    }
}

/// Builder for creating Durable Object clients
pub struct ClientBuilder {
    namespace: worker::ObjectNamespace,
}

impl ClientBuilder {
    /// The namespace clients are made in.
    pub closed spec fn namespace_spec(&self) -> worker::ObjectNamespace {
        self.namespace
    }

    /// Create a new client builder from a Durable Object namespace
    pub fn new(namespace: worker::ObjectNamespace) -> (b: Self)
        ensures
            b.namespace_spec() == namespace,
    {
        ClientBuilder { namespace }
    }

    /// Get a client for a Durable Object by name
    pub fn by_name(&self, name: &str) -> (r: Result<DurableObjectClient, Error>)
        ensures
            r matches Err(e) ==> e is Worker,
    {
        DurableObjectClient::from_stub_result(namespace_get_by_name(&self.namespace, name))
    }

    /// Get a client for a Durable Object by ID string
    pub fn by_id(&self, id: &str) -> (r: Result<DurableObjectClient, Error>)
        ensures
            r matches Err(e) ==> e is Worker,
    {
        match namespace_id_from_string(&self.namespace, id) {
            Ok(object_id) => DurableObjectClient::from_stub_result(object_id_get_stub(&object_id)),
            Err(m) => Err(Error::Worker(m)),
        }
    }

    /// Get a client for a unique Durable Object
    pub fn unique(&self) -> (r: Result<DurableObjectClient, Error>)
        ensures
            r matches Err(e) ==> e is Worker,
    {
        match namespace_unique_id(&self.namespace) {
            Ok(object_id) => DurableObjectClient::from_stub_result(object_id_get_stub(&object_id)),
            Err(m) => Err(Error::Worker(m)),
        }
    }
}

} // verus!
