//! Properties of the library as a whole: what the server side makes of what
//! the client side sends, what decoding makes of each kind of response, and
//! what the router gives back of what was registered.

use vstd::prelude::*;
use vstd::utf8::*;
use crate::counter::{
    counter_call_of, counter_plan_of, counter_reply_of, increment_amount_of, orchestrate_call_of,
    reading_of, CounterCall, CounterPlanModel, IncrementBody, IncrementReading, OrchestrateCall,
};
use crate::json::{member, JsonValue};
use crate::client::{call_result, CallOutcome};
use crate::bindings::decimal_text;
use crate::error::ErrorModel;
use crate::handler::{
    http_refuses, http_reply_status, is_wrpc, EnvelopeReading, parsed_request, request_target, HttpEvent, RequestHead,
    WRPC_PATH_PREFIX, WRPC_REPLY_STATUS,
};
use crate::message::{
    ResponseModel, decode_failure, request_path, status_code, RequestModel, WrpcMessageType, WrpcRequest,
    WrpcResponse, WrpcStatus, WRPC_VERSION,
};
use crate::router::WrpcRouter;
use crate::text::{
    has_prefix, lacks_char, lemma_find_char_is, split_two, trim_start,
};
use crate::websocket::{call_answer, extracted_request, extracted_response, progress_after, SocketEvent};
use crate::error::Error;

verus! {

/// The path of a call, `/_wrpc/{instance}/{function}`, is under the wRPC
/// prefix, and reading it back (every leading prefix removed, then the first
/// two `/`-separated segments) gives the instance and the function again,
/// when neither holds a `/`.
pub proof fn law_path_reads_back(instance: Seq<char>, function: Seq<char>)
    requires
        lacks_char(instance, '/'),
        lacks_char(function, '/'),
    ensures
        has_prefix(request_path(instance, function), WRPC_PATH_PREFIX@),
        split_two(trim_start(request_path(instance, function), WRPC_PATH_PREFIX@)) == Some(
            (instance, function),
        ),
{
    reveal_strlit("/_wrpc/");
    reveal_strlit("/");
    let p = WRPC_PATH_PREFIX@;
    let slash: Seq<char> = "/"@;
    let tail = instance + slash + function;
    let path = request_path(instance, function);
    assert(path =~= p + tail);
    assert(path.subrange(0, p.len() as int) =~= p);
    assert(path.skip(p.len() as int) =~= tail);
    if has_prefix(tail, p) {
        if instance.len() == 0 {
            assert(tail.subrange(0, p.len() as int)[6] == p[6]);
            assert(tail[6] == function[5]);
        } else {
            assert(tail.subrange(0, p.len() as int)[0] == p[0]);
            assert(tail[0] == instance[0]);
        }
    }
    assert(trim_start(tail, p) == tail);
    assert(trim_start(path, p) == trim_start(path.skip(p.len() as int), p));
    let n = instance.len() as int;
    assert forall|j: int| 0 <= j < n implies tail[j] != '/' by {
        assert(tail[j] == instance[j]);
    }
    lemma_find_char_is(tail, '/', 0, n);
    assert forall|j: int| n + 1 <= j < tail.len() implies tail[j] != '/' by {
        assert(tail[j] == function[j - n - 1]);
    }
    lemma_find_char_is(tail, '/', n + 1, tail.len() as int);
    assert(tail.subrange(0, n) =~= instance);
    assert(tail.subrange(n + 1, tail.len() as int) =~= function);
}

/// What the server side makes of a call that the client side sends: the
/// HTTP request is recognised as a wRPC request and addressed to the call's
/// instance and function; when its body is a request envelope, the request
/// in it is what the server gets, and any other body is taken as the
/// parameters of a call to that instance and function.
pub proof fn law_server_receives_client_call(
    head: RequestHead,
    body: String,
    request: WrpcRequest,
    envelope_type: WrpcMessageType,
)
    requires
        head.path@ == request_path(request.instance@, request.function@),
        lacks_char(request.instance@, '/'),
        lacks_char(request.function@, '/'),
    ensures
        is_wrpc(head),
        request_target(head) == Ok::<(Seq<char>, Seq<char>), ErrorModel>(
            (request.instance@, request.function@),
        ),
        parsed_request(head, Ok(body), Some((WrpcMessageType::Request, Ok(request)))) == Ok::<
            RequestModel,
            ErrorModel,
        >(request@),
        envelope_type != WrpcMessageType::Request ==> parsed_request(
            head,
            Ok(body),
            Some((envelope_type, Ok(request))),
        ) == Ok::<RequestModel, ErrorModel>(
            RequestModel {
                instance: request.instance@,
                function: request.function@,
                params: encode_utf8(body@),
                version: WRPC_VERSION@,
            },
        ),
        parsed_request(head, Ok(body), None) == Ok::<RequestModel, ErrorModel>(
            RequestModel {
                instance: request.instance@,
                function: request.function@,
                params: encode_utf8(body@),
                version: WRPC_VERSION@,
            },
        ),
{
    law_path_reads_back(request.instance@, request.function@);
}

/// Every call the client sends reaches the server as the request it sent:
/// the HTTP request (its path `/_wrpc/{instance}/{function}` and its
/// `X-Wrpc-Instance` and `X-Wrpc-Function` headers) is recognised as a wRPC
/// request, a target is found for it, and the request envelope in its body
/// gives the request back, whatever the instance and function names hold.
pub proof fn law_server_receives_every_client_envelope(
    head: RequestHead,
    body: String,
    request: WrpcRequest,
)
    requires
        head.path@ == request_path(request.instance@, request.function@),
        head.instance_header matches Ok(Some(i)) && i@ == request.instance@,
        head.function_header matches Ok(Some(f)) && f@ == request.function@,
    ensures
        is_wrpc(head),
        request_target(head) is Ok,
        parsed_request(head, Ok(body), Some((WrpcMessageType::Request, Ok(request)))) == Ok::<
            RequestModel,
            ErrorModel,
        >(request@),
{
    reveal_strlit("/_wrpc/");
    let p = WRPC_PATH_PREFIX@;
    assert(head.path@.subrange(0, p.len() as int) =~= p);
}

/// A request that the router recognises as a wRPC request is never refused
/// at a later step: it is parsed, handled, and answered with a response,
/// and every answer it gets is sent with the status `WRPC_REPLY_STATUS`.
pub proof fn law_wrpc_requests_are_answered(
    head: RequestHead,
    parsed: Result<WrpcRequest, Error>,
    handled: Result<WrpcResponse, Error>,
)
    requires
        is_wrpc(head),
    ensures
        !http_refuses(HttpEvent::Arrived(head)),
        !http_refuses(HttpEvent::Parsed(parsed)),
        !http_refuses(HttpEvent::Handled(handled)),
        http_reply_status(HttpEvent::Arrived(head)) is None,
        http_reply_status(HttpEvent::Parsed(parsed)) matches Some(s) ==> s == WRPC_REPLY_STATUS,
        http_reply_status(HttpEvent::Handled(handled)) == Some(WRPC_REPLY_STATUS),
{
}

/// A call over a WebSocket is answered by the first text message on the
/// socket, whatever non-text messages come before it and whatever follows.
pub proof fn law_first_text_message_answers(
    skipped: Seq<SocketEvent>,
    answer: Result<WrpcResponse, String>,
    rest: Seq<SocketEvent>,
)
    requires
        forall|i: int| 0 <= i < skipped.len() ==> skipped[i] is Binary,
    ensures
        call_answer(skipped + seq![SocketEvent::Text(answer)] + rest) == progress_after(
            SocketEvent::Text(answer),
        )->0,
    decreases skipped.len(),
{
    let all = skipped + seq![SocketEvent::Text(answer)] + rest;
    if skipped.len() == 0 {
        assert(all[0] == SocketEvent::Text(answer));
    } else {
        assert(all[0] is Binary);
        let tail = skipped.drop_first();
        law_first_text_message_answers(tail, answer, rest);
        assert(all.drop_first() =~= tail + seq![SocketEvent::Text(answer)] + rest);
    }
}

/// An error response decodes to a protocol error that carries its message.
pub proof fn law_error_response_decodes_to_its_message(message: Seq<char>)
    ensures
        decode_failure(WrpcStatus::Error, encode_utf8(message)) == Some(
            ErrorModel::Protocol(message),
        ),
{
    encode_utf8_valid_utf8(message);
    encode_utf8_decode_utf8(message);
}

/// Decoding fails exactly for the statuses other than success, and a
/// not-found response decodes to a not-found error whatever its data.
pub proof fn law_decoding_fails_unless_success(status: WrpcStatus, data: Seq<u8>)
    ensures
        decode_failure(status, data) is None <==> status == WrpcStatus::Success,
        status == WrpcStatus::NotFound ==> decode_failure(status, data) == Some(
            ErrorModel::NotFound { instance: Seq::<char>::empty(), function: Seq::<char>::empty() },
        ),
{
}

/// Each status has its own HTTP status code.
pub proof fn law_status_codes_are_distinct(a: WrpcStatus, b: WrpcStatus)
    ensures
        status_code(a) == status_code(b) ==> a == b,
{
}

/// A handler registered for a pair is the one that lookups of that pair
/// give afterwards, and registering it changes no other pair.
pub proof fn law_lookup_after_register<H>(
    before: WrpcRouter<H>,
    after: WrpcRouter<H>,
    instance: Seq<char>,
    function: Seq<char>,
    handler: H,
    other: (Seq<char>, Seq<char>),
)
    requires
        after.routes() == before.routes().insert((instance, function), handler),
    ensures
        after.routes().dom().contains((instance, function)),
        after.routes()[(instance, function)] == handler,
        other != (instance, function) ==> (after.routes().dom().contains(other)
            == before.routes().dom().contains(other)),
        other != (instance, function) && before.routes().dom().contains(other)
            ==> after.routes()[other] == before.routes()[other],
{
}

/// A request envelope never yields a response and a response envelope never
/// yields a request; an envelope of the right type yields its payload.
pub proof fn law_envelope_types_are_kept_apart(
    request: Result<WrpcRequest, String>,
    response: Result<WrpcResponse, String>,
)
    ensures
        extracted_request(WrpcMessageType::Response, request) == Err::<RequestModel, ErrorModel>(
            ErrorModel::Protocol("expected request message"@),
        ),
        extracted_response(WrpcMessageType::Request, response) is Err,
        request matches Ok(r) ==> extracted_request(WrpcMessageType::Request, request) == Ok::<
            RequestModel,
            ErrorModel,
        >(r@),
        response matches Ok(r) ==> extracted_response(WrpcMessageType::Response, response)
            == Ok::<crate::message::ResponseModel, ErrorModel>(r@),
{
}

/// A call that a client makes to `counter/{function}` is planned by the
/// counter as the call that the function names.
pub proof fn law_counter_plans_client_calls(function: Seq<char>)
    requires
        lacks_char(function, '/'),
    ensures
        counter_plan_of(request_path("counter"@, function)) == CounterPlanModel::Call(
            counter_call_of(function),
        ),
{
    reveal_strlit("counter");
    let instance: Seq<char> = "counter"@;
    assert forall|i: int| 0 <= i < instance.len() implies instance[i] != '/' by {}
    law_path_reads_back(instance, function);
}

/// Once the target of a request is known, by its path or by its headers, a
/// body that is no request envelope is the call's parameters: they are the
/// body's UTF-8 bytes, sent to that target with the current version. A
/// request envelope gives the request it carries.
pub proof fn law_body_is_the_parameters(
    head: RequestHead,
    body: String,
    envelope: EnvelopeReading,
    target: (Seq<char>, Seq<char>),
)
    requires
        request_target(head) == Ok::<(Seq<char>, Seq<char>), ErrorModel>(target),
    ensures
        !(envelope matches Some((WrpcMessageType::Request, _))) ==> parsed_request(
            head,
            Ok(body),
            envelope,
        ) == Ok::<RequestModel, ErrorModel>(
            RequestModel {
                instance: target.0,
                function: target.1,
                params: encode_utf8(body@),
                version: WRPC_VERSION@,
            },
        ),
        envelope matches Some((WrpcMessageType::Request, Ok(req))) ==> parsed_request(
            head,
            Ok(body),
            envelope,
        ) == Ok::<RequestModel, ErrorModel>(req@),
{
}

/// The counter answers `get` and `increment` with success and its value
/// written as JSON (the value's decimal text), for every value, zero
/// included; `reset` is answered with `null`.
pub proof fn law_counter_reply_is_the_value(value: i64)
    ensures
        counter_reply_of(CounterCall::Get, value) == (ResponseModel {
            status: WrpcStatus::Success,
            data: encode_utf8(decimal_text(value as int)),
            version: WRPC_VERSION@,
        }),
        counter_reply_of(CounterCall::Increment, value) == (ResponseModel {
            status: WrpcStatus::Success,
            data: encode_utf8(decimal_text(value as int)),
            version: WRPC_VERSION@,
        }),
        counter_reply_of(CounterCall::Reset, value).data == encode_utf8(seq!['n', 'u', 'l', 'l']),
{
}

/// An `increment` orchestration calls each counter with the amount given,
/// whatever its sign, and with 1 only when none is given; `get` and `reset`
/// ignore the amount.
pub proof fn law_increment_carries_its_amount(amount: Option<i64>)
    ensures
        orchestrate_call_of("increment"@, amount) == Some(
            OrchestrateCall::Increment(
                match amount {
                    Some(a) => a,
                    None => 1,
                },
            ),
        ),
        forall|a: i64| amount == Some(a) ==> orchestrate_call_of("increment"@, amount) == Some(
            OrchestrateCall::Increment(a),
        ),
        amount is None ==> orchestrate_call_of("increment"@, amount) == Some(
            OrchestrateCall::Increment(1),
        ),
        orchestrate_call_of("get"@, amount) == Some(OrchestrateCall::Get),
        orchestrate_call_of("reset"@, amount) == Some(OrchestrateCall::Reset),
{
    reveal_strlit("get");
    reveal_strlit("increment");
    reveal_strlit("reset");
    assert("increment"@ != "get"@) by {
        assert("increment"@[0] != "get"@[0]);
    }
    assert("reset"@ != "get"@) by {
        assert("reset"@[0] != "get"@[0]);
    }
    assert("reset"@ != "increment"@) by {
        assert("reset"@[0] != "increment"@[0]);
    }
}

/// When the Durable Object replies with a response, the call gives that
/// response back unchanged: its status, data and version as received.
/// Every other outcome of a call is an error.
pub proof fn law_reply_is_returned_unchanged(outcome: CallOutcome)
    ensures
        outcome matches CallOutcome::Replied(r) ==> call_result(outcome) == Ok::<
            ResponseModel,
            ErrorModel,
        >(r@),
        !(outcome is Replied) ==> call_result(outcome) is Err,
{
}

/// A text message that carries a response answers a WebSocket call with that
/// very response, whatever its status, and whatever non-text messages come
/// before it and whatever follows; one that carries no response fails it.
pub proof fn law_text_message_answers_with_its_response(
    skipped: Seq<SocketEvent>,
    response: WrpcResponse,
    rest: Seq<SocketEvent>,
)
    requires
        forall|i: int| 0 <= i < skipped.len() ==> skipped[i] is Binary,
    ensures
        progress_after(SocketEvent::Text(Ok(response))) == Some(
            Ok::<ResponseModel, ErrorModel>(response@),
        ),
        call_answer(skipped + seq![SocketEvent::Text(Ok(response))] + rest) == Ok::<
            ResponseModel,
            ErrorModel,
        >(response@),
{
    law_first_text_message_answers(skipped, Ok(response), rest);
}

/// An `increment` body adds the integer it gives: the `params` of its
/// `payload` where it has a `payload`, else the whole body; 1 only where
/// that gives no integer. A body that is no JSON is an error that carries
/// the parser's text.
pub proof fn law_increment_adds_what_the_body_gives(doc: JsonValue, body: IncrementBody, v: i64)
    ensures
        (member(doc, "payload"@) matches Some(p) && member(p, "params"@) == Some(
            JsonValue::Number(Some(v)),
        )) ==> reading_of(doc) == IncrementReading::Payload(Some(Some(v))),
        (member(doc, "payload"@) is None && doc == JsonValue::Number(Some(v))) ==> reading_of(doc)
            == IncrementReading::Bare(Some(v)),
        match body {
            IncrementBody::NotJson(m) => increment_amount_of(body) == Err::<i64, Seq<char>>(
                "invalid JSON: "@ + m@,
            ),
            IncrementBody::Payload(Some(Some(a))) => increment_amount_of(body) == Ok::<
                i64,
                Seq<char>,
            >(a),
            IncrementBody::Bare(Some(a)) => increment_amount_of(body) == Ok::<i64, Seq<char>>(a),
            _ => increment_amount_of(body) == Ok::<i64, Seq<char>>(1),
        },
{
}

} // verus!
