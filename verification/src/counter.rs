//! The example Worker's two Durable Objects: a counter that answers wRPC
//! calls, and an orchestrator that drives counters over wRPC. This module
//! holds their decisions; the storage, fetches and replies are made by the
//! objects themselves.

use vstd::prelude::*;
use crate::text::{same_text, split_two, split_two_exec, trim_start, trim_start_matches};
use crate::handler::WRPC_PATH_PREFIX;
use crate::bindings::{
    decimal_text, i64_text, json_document, json_i64_bytes, json_null, json_parse,
    json_unit_bytes, utf8_lossy, utf8_lossy_text,
};
use crate::json::{
    byte_array, integer, json_byte_array, json_integer, json_member, member, JsonValue,
};
use crate::message::{ResponseModel, WrpcResponse, WrpcStatus, NOT_FOUND_MESSAGE, WRPC_VERSION};
use vstd::utf8::{encode_utf8, encode_utf8_decode_utf8, encode_utf8_valid_utf8};
use crate::error::{error_text, Error};

verus! {

/// The HTTP methods that the counter's routes tell apart.
#[derive(Debug, Clone, Copy, PartialEq, Eq, Structural)]
pub enum HttpMethod {
    Get,
    Post,
    Other,
}

/// What a plain (non-wRPC) request to the counter asks for.
#[derive(Debug, Clone, Copy, PartialEq, Eq, Structural)]
pub enum CounterRoute {
    /// `GET /value`: the current value
    Value,
    /// `POST /increment`: add one
    Increment,
    /// `POST /reset`: set to zero
    Reset,
    /// Anything else: `404 Not Found`
    NotFound,
}

/// The route of a plain request to the counter.
pub open spec fn counter_route_of(method: HttpMethod, path: Seq<char>) -> CounterRoute {
    if method == HttpMethod::Get && path == "/value"@ {
        CounterRoute::Value
    } else if method == HttpMethod::Post && path == "/increment"@ {
        CounterRoute::Increment
    } else if method == HttpMethod::Post && path == "/reset"@ {
        CounterRoute::Reset
    } else {
        CounterRoute::NotFound
    }
}

/// The route of a plain request to the counter.
pub fn counter_route(method: HttpMethod, path: &str) -> (r: CounterRoute)
    ensures
        r == counter_route_of(method, path@),
{
    if method == HttpMethod::Get && same_text(path, "/value") {
        CounterRoute::Value
    } else if method == HttpMethod::Post && same_text(path, "/increment") {
        CounterRoute::Increment
    } else if method == HttpMethod::Post && same_text(path, "/reset") {
        CounterRoute::Reset
    } else {
        CounterRoute::NotFound
    }
}

/// What a plain request to the counter is answered with.
#[derive(Debug)]
pub enum PlainReply {
    /// `200` with this text
    Text(String),
    /// An HTTP error with this text and status
    Failure { message: String, status: u16 },
}

/// The answer to a plain request of the given route, where `value` is the
/// counter's value after the request (it is not read for the other routes).
pub fn counter_plain_reply(route: CounterRoute, value: i64) -> (r: PlainReply)
    ensures
        match route {
            CounterRoute::Value | CounterRoute::Increment => r matches PlainReply::Text(t) && t@
                == decimal_text(value as int),
            CounterRoute::Reset => r matches PlainReply::Text(t) && t@ == "reset"@,
            CounterRoute::NotFound => r matches PlainReply::Failure { message, status } && message@
                == "Not Found"@ && status == 404,
        },
{
    match route {
        CounterRoute::Value | CounterRoute::Increment => PlainReply::Text(i64_text(value)),
        CounterRoute::Reset => PlainReply::Text(String::from_str("reset")),
        CounterRoute::NotFound => PlainReply::Failure {
            message: String::from_str("Not Found"),
            status: 404,
        },
    }
}

/// The counter's value when the storage holds `stored` (none stored: zero).
pub fn stored_count(stored: Option<i64>) -> (v: i64)
    ensures
        v == match stored {
            Some(x) => x,
            None => 0,
        },
{
    match stored {
        Some(x) => x,
        None => 0,
    }
}

/// The counter's value after adding `amount` to `current`.
pub fn incremented(current: i64, amount: i64) -> (v: i64)
    requires
        i64::MIN <= current + amount <= i64::MAX,
    ensures
        v == current + amount,
{
    current + amount
}

/// The counter's value after a reset.
pub fn reset_count() -> (v: i64)
    ensures
        v == 0,
{
    0
}

/// A wRPC call to the counter.
#[derive(Debug, Clone, Copy, PartialEq, Eq, Structural)]
pub enum CounterCall {
    /// `counter/get`
    Get,
    /// `counter/increment`
    Increment,
    /// `counter/reset`
    Reset,
    /// Any other function: answered with `WrpcResponse::not_found()`
    Unknown,
}

/// What the counter does with a wRPC request.
#[derive(Debug)]
pub enum CounterWrpcPlan {
    /// Answer with an HTTP error
    Reject { message: String, status: u16 },
    /// Read the body and make the call
    Call(CounterCall),
}

/// What the counter does with a wRPC request, as a value.
pub enum CounterPlanModel {
    Reject { message: Seq<char>, status: u16 },
    Call(CounterCall),
}

/// The call that a function name of the counter stands for.
pub open spec fn counter_call_of(function: Seq<char>) -> CounterCall {
    if function == "get"@ {
        CounterCall::Get
    } else if function == "increment"@ {
        CounterCall::Increment
    } else if function == "reset"@ {
        CounterCall::Reset
    } else {
        CounterCall::Unknown
    }
}

/// The plan for a wRPC request with the given path: the path with every
/// leading `/_wrpc/` removed must have at least two `/`-separated segments,
/// the first of which is `counter`; the second names the call.
pub open spec fn counter_plan_of(path: Seq<char>) -> CounterPlanModel {
    match split_two(trim_start(path, WRPC_PATH_PREFIX@)) {
        None => CounterPlanModel::Reject { message: "Invalid wRPC path"@, status: 400 },
        Some((instance, function)) => if instance != "counter"@ {
            CounterPlanModel::Reject { message: "Unknown instance"@, status: 404 }
        } else {
            CounterPlanModel::Call(counter_call_of(function))
        },
    }
}

/// A plan, as a value.
pub open spec fn plan_view(p: CounterWrpcPlan) -> CounterPlanModel {
    match p {
        CounterWrpcPlan::Reject { message, status } => CounterPlanModel::Reject {
            message: message@,
            status,
        },
        CounterWrpcPlan::Call(c) => CounterPlanModel::Call(c),
    }
}

/// What the counter does with a wRPC request to the given path.
pub fn counter_wrpc_plan(path: &str) -> (p: CounterWrpcPlan)
    ensures
        plan_view(p) == counter_plan_of(path@),
{
    let rest = trim_start_matches(path, WRPC_PATH_PREFIX);
    match split_two_exec(rest.as_str()) {
        None => CounterWrpcPlan::Reject {
            message: String::from_str("Invalid wRPC path"),
            status: 400,
        },
        Some((instance, function)) => {
            if !same_text(instance.as_str(), "counter") {
                CounterWrpcPlan::Reject { message: String::from_str("Unknown instance"), status: 404 }
            } else if same_text(function.as_str(), "get") {
                CounterWrpcPlan::Call(CounterCall::Get)
            } else if same_text(function.as_str(), "increment") {
                CounterWrpcPlan::Call(CounterCall::Increment)
            } else if same_text(function.as_str(), "reset") {
                CounterWrpcPlan::Call(CounterCall::Reset)
            } else {
                CounterWrpcPlan::Call(CounterCall::Unknown)
            }
        },
    }
}

/// What the body of an `increment` call is, read as JSON.
#[derive(Debug)]
pub enum IncrementBody {
    /// The body is no JSON; the parser's error text
    NotJson(String),
    /// The body is a JSON object with a `payload` member: `None` when the
    /// payload has no `params` member, else the amount `params` carries
    /// (`None` when it carries none)
    Payload(Option<Option<i64>>),
    /// The body is JSON with no `payload` member: the integer the whole body
    /// is (`None` when it is not one)
    Bare(Option<i64>),
}

/// The amount a `params` value carries: the integer it is, or, for an array
/// of bytes (the form in which a request's serialized parameters travel), the
/// integer that the JSON text those bytes spell is.
pub open spec fn params_amount(params: JsonValue) -> Option<i64> {
    match params {
        JsonValue::Number(n) => n,
        _ => match byte_array(params) {
            Some(bytes) => match json_document(utf8_lossy_text(bytes)) {
                Some(doc) => integer(doc),
                None => None,
            },
            None => None,
        },
    }
}

/// What a JSON `increment` body reads as.
pub enum IncrementReading {
    Payload(Option<Option<i64>>),
    Bare(Option<i64>),
}

/// What a JSON document sent as an `increment` body reads as: with a
/// `payload` member, the amount of the payload's `params` member; without
/// one, the integer the document is.
pub open spec fn reading_of(doc: JsonValue) -> IncrementReading {
    match member(doc, "payload"@) {
        Some(payload) => IncrementReading::Payload(
            match member(payload, "params"@) {
                Some(params) => Some(params_amount(params)),
                None => None,
            },
        ),
        None => IncrementReading::Bare(integer(doc)),
    }
}

/// What an `increment` body text reads as (`None` for a body that is no
/// JSON).
pub open spec fn increment_body_of(body: Seq<char>) -> Option<IncrementReading> {
    match json_document(body) {
        Some(doc) => Some(reading_of(doc)),
        None => None,
    }
}

/// A reading of an `increment` body, as a value.
pub open spec fn increment_body_view(b: IncrementBody) -> Option<IncrementReading> {
    match b {
        IncrementBody::NotJson(_) => None,
        IncrementBody::Payload(p) => Some(IncrementReading::Payload(p)),
        IncrementBody::Bare(x) => Some(IncrementReading::Bare(x)),
    }
}

/// The amount a `params` value carries. An array holding the bytes of an
/// integer's decimal text (the form in which a client's serialized amount
/// arrives) carries that integer.
pub fn params_amount_exec(params: &JsonValue) -> (r: Option<i64>)
    ensures
        r == params_amount(*params),
        forall|a: i64| #[trigger] byte_array(*params) == Some(encode_utf8(decimal_text(a as int)))
            ==> r == Some(a),
{
    match params {
        JsonValue::Number(n) => *n,
        _ => match json_byte_array(params) {
            Some(bytes) => {
                let text = utf8_lossy(bytes.as_slice());
                proof {
                    assert forall|a: i64| #[trigger] byte_array(*params) == Some(
                        encode_utf8(decimal_text(a as int)),
                    ) implies text@ == decimal_text(a as int) by {
                        encode_utf8_valid_utf8(decimal_text(a as int));
                        encode_utf8_decode_utf8(decimal_text(a as int));
                    }
                }
                match json_parse(text.as_str()) {
                    Ok(doc) => json_integer(&doc),
                    Err(_) => None,
                }
            },
            None => None,
        },
    }
}

/// What a JSON document sent as an `increment` body reads as: with a
/// `payload` member, the amount of the payload's `params` member; without
/// one, the integer the document is.
pub fn increment_reading(doc: &JsonValue) -> (b: IncrementBody)
    ensures
        increment_body_view(b) == Some(reading_of(*doc)),
{
    match json_member(doc, "payload") {
        Some(payload) => IncrementBody::Payload(
            match json_member(payload, "params") {
                Some(params) => Some(params_amount_exec(params)),
                None => None,
            },
        ),
        None => IncrementBody::Bare(json_integer(doc)),
    }
}

/// What the body of an `increment` call is, read as JSON: no JSON at all; a
/// JSON object with a `payload` member, with the amount its `params` member
/// carries; or JSON without one, read whole as an integer.
pub fn increment_body(body: &str) -> (b: IncrementBody)
    ensures
        increment_body_view(b) == increment_body_of(body@),
        (b is NotJson) == (json_document(body@) is None),
        forall|a: i64| #[trigger] decimal_text(a as int) == body@
            ==> increment_body_view(b) == Some(IncrementReading::Bare(Some(a))),
{
    match json_parse(body) {
        Err(m) => IncrementBody::NotJson(m),
        Ok(doc) => increment_reading(&doc),
    }
}

/// The data of the counter's answer to a call, as a value.
pub open spec fn counter_reply_of(call: CounterCall, value: i64) -> ResponseModel {
    match call {
        CounterCall::Get | CounterCall::Increment => ResponseModel {
            status: WrpcStatus::Success,
            data: encode_utf8(decimal_text(value as int)),
            version: WRPC_VERSION@,
        },
        CounterCall::Reset => ResponseModel {
            status: WrpcStatus::Success,
            data: encode_utf8(json_null()),
            version: WRPC_VERSION@,
        },
        CounterCall::Unknown => ResponseModel {
            status: WrpcStatus::NotFound,
            data: encode_utf8(NOT_FOUND_MESSAGE@),
            version: WRPC_VERSION@,
        },
    }
}

/// The counter's answer to a call, where `value` is the counter's value
/// after a `get` or an `increment` (it is not read for the other calls): the
/// value as JSON, `null` for a reset, and the not-found answer for an
/// unknown function.
pub fn counter_reply(call: CounterCall, value: i64) -> (r: WrpcResponse)
    ensures
        r@ == counter_reply_of(call, value),
{
    let data = match call {
        CounterCall::Get | CounterCall::Increment => json_i64_bytes(value),
        CounterCall::Reset => json_unit_bytes(()),
        CounterCall::Unknown => {
            return WrpcResponse::not_found();
        },
    };
    match WrpcResponse::ok(data) {
        Ok(resp) => resp,
        Err(_) => WrpcResponse::not_found(),
    }
}

/// The amount an `increment` call adds: the integer the body carries where
/// the rules find one, else one.
pub open spec fn increment_amount_of(body: IncrementBody) -> Result<i64, Seq<char>> {
    match body {
        IncrementBody::NotJson(m) => Err("invalid JSON: "@ + m@),
        IncrementBody::Payload(Some(Some(v))) => Ok(v),
        IncrementBody::Payload(_) => Ok(1),
        IncrementBody::Bare(Some(v)) => Ok(v),
        IncrementBody::Bare(None) => Ok(1),
    }
}

/// The amount an `increment` call adds, or the text of the error that a
/// body that is no JSON gives.
pub fn increment_amount(body: IncrementBody) -> (r: Result<i64, String>)
    ensures
        match r {
            Ok(v) => increment_amount_of(body) == Ok::<i64, Seq<char>>(v),
            Err(m) => increment_amount_of(body) == Err::<i64, Seq<char>>(m@),
        },
{
    match body {
        IncrementBody::NotJson(m) => Err(String::from_str("invalid JSON: ").concat(m.as_str())),
        IncrementBody::Payload(Some(Some(v))) => Ok(v),
        IncrementBody::Payload(_) => Ok(1),
        IncrementBody::Bare(Some(v)) => Ok(v),
        IncrementBody::Bare(None) => Ok(1),
    }
}

/// What a request to the orchestrator asks for.
#[derive(Debug, Clone, Copy, PartialEq, Eq, Structural)]
pub enum OrchestratorRoute {
    /// `POST /orchestrate`: run an orchestration
    Orchestrate,
    /// `GET /health`: answer `healthy`
    Health,
    /// Anything else: `404 Not Found`
    NotFound,
}

/// The route of a request to the orchestrator.
pub open spec fn orchestrator_route_of(method: HttpMethod, path: Seq<char>) -> OrchestratorRoute {
    if method == HttpMethod::Post && path == "/orchestrate"@ {
        OrchestratorRoute::Orchestrate
    } else if method == HttpMethod::Get && path == "/health"@ {
        OrchestratorRoute::Health
    } else {
        OrchestratorRoute::NotFound
    }
}

/// The route of a request to the orchestrator.
pub fn orchestrator_route(method: HttpMethod, path: &str) -> (r: OrchestratorRoute)
    ensures
        r == orchestrator_route_of(method, path@),
{
    if method == HttpMethod::Post && same_text(path, "/orchestrate") {
        OrchestratorRoute::Orchestrate
    } else if method == HttpMethod::Get && same_text(path, "/health") {
        OrchestratorRoute::Health
    } else {
        OrchestratorRoute::NotFound
    }
}

/// The answer to a request to the orchestrator that is not an orchestration
/// (`None` for `POST /orchestrate`, answered with the orchestration's result).
pub fn orchestrator_plain_reply(route: OrchestratorRoute) -> (r: Option<PlainReply>)
    ensures
        match route {
            OrchestratorRoute::Orchestrate => r is None,
            OrchestratorRoute::Health => r matches Some(PlainReply::Text(t)) && t@ == "healthy"@,
            OrchestratorRoute::NotFound => r matches Some(PlainReply::Failure { message, status })
                && message@ == "Not Found"@ && status == 404,
        },
{
    match route {
        OrchestratorRoute::Orchestrate => None,
        OrchestratorRoute::Health => Some(PlainReply::Text(String::from_str("healthy"))),
        OrchestratorRoute::NotFound => Some(
            PlainReply::Failure { message: String::from_str("Not Found"), status: 404 },
        ),
    }
}

/// Parameters for the orchestrate operation
#[derive(Debug)]
pub struct OrchestrateParams {
    pub counters: Vec<String>,
    pub operation: String,
    pub amount: Option<i64>,
}

/// Result of the orchestrate operation
#[derive(Debug)]
pub struct OrchestrateResult {
    pub results: Vec<CounterResult>,
}

/// The value one counter gave.
#[derive(Debug)]
pub struct CounterResult {
    pub name: String,
    pub value: i64,
}

/// What the orchestrator asks of every counter.
#[derive(Debug, Clone, Copy, PartialEq, Eq, Structural)]
pub enum OrchestrateCall {
    /// `counter/get`; the counter's answer is recorded
    Get,
    /// `counter/increment` with this amount; the counter's answer is recorded
    Increment(i64),
    /// `counter/reset`; zero is recorded
    Reset,
}

/// The call that an operation stands for, or `None` for an unknown one.
pub open spec fn orchestrate_call_of(operation: Seq<char>, amount: Option<i64>) -> Option<
    OrchestrateCall,
> {
    if operation == "get"@ {
        Some(OrchestrateCall::Get)
    } else if operation == "increment"@ {
        Some(
            OrchestrateCall::Increment(
                match amount {
                    Some(a) => a,
                    None => 1,
                },
            ),
        )
    } else if operation == "reset"@ {
        Some(OrchestrateCall::Reset)
    } else {
        None
    }
}

/// The call that an operation stands for, or `None` for an unknown one.
pub fn orchestrate_call(operation: &str, amount: Option<i64>) -> (c: Option<OrchestrateCall>)
    ensures
        c == orchestrate_call_of(operation@, amount),
{
    if same_text(operation, "get") {
        Some(OrchestrateCall::Get)
    } else if same_text(operation, "increment") {
        Some(
            OrchestrateCall::Increment(
                match amount {
                    Some(a) => a,
                    None => 1,
                },
            ),
        )
    } else if same_text(operation, "reset") {
        Some(OrchestrateCall::Reset)
    } else {
        None
    }
}

impl OrchestrateCall {
    /// The counter function the call invokes.
    pub fn function(&self) -> (f: &'static str)
        ensures
            f@ == match self {
                OrchestrateCall::Get => "get"@,
                OrchestrateCall::Increment(_) => "increment"@,
                OrchestrateCall::Reset => "reset"@,
            },
    {
        match self {
            OrchestrateCall::Get => "get",
            OrchestrateCall::Increment(_) => "increment",
            OrchestrateCall::Reset => "reset",
        }
    }

    /// The value recorded for a counter whose call returned `returned`.
    pub fn recorded_value(&self, returned: i64) -> (v: i64)
        ensures
            v == match self {
                OrchestrateCall::Reset => 0,
                _ => returned,
            },
    {
        match self {
            OrchestrateCall::Reset => 0,
            _ => returned,
        }
    }
}

/// The results so far, as (name, value) pairs.
pub open spec fn results_view(r: Seq<CounterResult>) -> Seq<(Seq<char>, i64)> {
    r.map_values(|c: CounterResult| (c.name@, c.value))
}

/// The names of the counters, as values.
pub open spec fn names_view(n: Seq<String>) -> Seq<Seq<char>> {
    n.map_values(|s: String| s@)
}

/// An orchestration in progress: the counters are called in order, and one
/// result is recorded per counter.
pub struct Orchestration {
    params: OrchestrateParams,
    results: Vec<CounterResult>,
}

/// The next thing an orchestration does.
#[derive(Debug)]
pub enum OrchestrateStep {
    /// Make this call to the counter with this name
    Call { counter: String, call: OrchestrateCall },
    /// Look the counter with this name up, then stop with this error text
    Fail { counter: String, message: String },
    /// Every counter was called
    Done,
}

impl Orchestration {
    #[verifier::type_invariant]
    spec fn results_follow_counters(self) -> bool {
        &&& self.results@.len() <= self.params.counters@.len()
        &&& forall|i: int|
            0 <= i < self.results@.len() ==> (#[trigger] self.results@[i]).name@
                == self.params.counters@[i]@
    }

    /// The names of the counters to call, in order.
    pub closed spec fn counters(&self) -> Seq<Seq<char>> {
        names_view(self.params.counters@)
    }

    /// The operation every counter is asked for.
    pub closed spec fn operation(&self) -> Seq<char> {
        self.params.operation@
    }

    /// The amount an increment adds, if one was given.
    pub closed spec fn amount(&self) -> Option<i64> {
        self.params.amount
    }

    /// The results recorded so far, in order.
    pub closed spec fn results(&self) -> Seq<(Seq<char>, i64)> {
        results_view(self.results@)
    }

    /// Start an orchestration with no result recorded.
    pub fn start(params: OrchestrateParams) -> (o: Self)
        ensures
            o.counters() == names_view(params.counters@),
            o.operation() == params.operation@,
            o.amount() == params.amount,
            o.results() == Seq::<(Seq<char>, i64)>::empty(),
    {
        let o = Orchestration { params, results: Vec::new() };
        assert(o.results() =~= Seq::<(Seq<char>, i64)>::empty());
        o
    }

    /// The next thing to do: call the next counter, fail on an unknown
    /// operation (only once a counter is to be called, after it is looked
    /// up), or finish.
    pub fn next_step(&self) -> (s: OrchestrateStep)
        ensures
            self.results().len() < self.counters().len() ==> match orchestrate_call_of(
                self.operation(),
                self.amount(),
            ) {
                Some(c) => s matches OrchestrateStep::Call { counter, call } && counter@
                    == self.counters()[self.results().len() as int] && call == c,
                None => s matches OrchestrateStep::Fail { counter, message } && counter@
                    == self.counters()[self.results().len() as int] && message@
                    == "unknown operation: "@ + self.operation(),
            },
            self.results().len() >= self.counters().len() ==> s is Done,
    {
        proof {
            use_type_invariant(self);
        }
        let k = self.results.len();
        if k < self.params.counters.len() {
            match orchestrate_call(self.params.operation.as_str(), self.params.amount) {
                Some(call) => OrchestrateStep::Call {
                    counter: self.params.counters[k].clone(),
                    call,
                },
                None => OrchestrateStep::Fail {
                    counter: self.params.counters[k].clone(),
                    message: String::from_str("unknown operation: ").concat(
                        self.params.operation.as_str(),
                    ),
                },
            }
        } else {
            OrchestrateStep::Done
        }
    }

    /// Record the value the next counter's call returned (for a reset, zero
    /// is recorded whatever was returned).
    pub fn record(&mut self, returned: i64)
        requires
            old(self).results().len() < old(self).counters().len(),
            orchestrate_call_of(old(self).operation(), old(self).amount()) is Some,
        ensures
            final(self).counters() == old(self).counters(),
            final(self).operation() == old(self).operation(),
            final(self).amount() == old(self).amount(),
            final(self).results() == old(self).results().push(
                (
                    old(self).counters()[old(self).results().len() as int],
                    match orchestrate_call_of(old(self).operation(), old(self).amount()) {
                        Some(OrchestrateCall::Reset) => 0,
                        _ => returned,
                    },
                ),
            ),
    {
        proof {
            use_type_invariant(&*self);
        }
        let k = self.results.len();
        let name = self.params.counters[k].clone();
        let call = orchestrate_call(self.params.operation.as_str(), self.params.amount);
        let value = match call {
            Some(c) => c.recorded_value(returned),
            None => returned,
        };
        let mut results: Vec<CounterResult> = Vec::new();
        std::mem::swap(&mut results, &mut self.results);
        let ghost before = results@;
        results.push(CounterResult { name, value });
        proof {
            assert(results_view(results@) =~= results_view(before).push(
                (self.params.counters@[k as int]@, value),
            ));
        }
        self.results = results;
    }

    /// Settle the next counter's call: a value it returned is recorded (as by
    /// `record`), and a failure of the lookup or the call stops the
    /// orchestration with the error's text.
    pub fn settle(&mut self, outcome: Result<i64, Error>) -> (stop: Option<String>)
        requires
            old(self).results().len() < old(self).counters().len(),
            orchestrate_call_of(old(self).operation(), old(self).amount()) is Some,
        ensures
            final(self).counters() == old(self).counters(),
            final(self).operation() == old(self).operation(),
            final(self).amount() == old(self).amount(),
            match outcome {
                Ok(returned) => stop is None && final(self).results() == old(self).results().push(
                    (
                        old(self).counters()[old(self).results().len() as int],
                        match orchestrate_call_of(old(self).operation(), old(self).amount()) {
                            Some(OrchestrateCall::Reset) => 0,
                            _ => returned,
                        },
                    ),
                ),
                Err(e) => stop matches Some(t) && t@ == error_text(e@) && final(self).results()
                    == old(self).results(),
            },
    {
        match outcome {
            Ok(returned) => {
                self.record(returned);
                None
            },
            Err(e) => Some(e.to_string()),
        }
    }

    /// Finish an orchestration in which every counter was called.
    pub fn finish(self) -> (r: OrchestrateResult)
        requires
            self.results().len() >= self.counters().len(),
        ensures
            results_view(r.results@) == self.results(),
            r.results@.len() == self.counters().len(),
            forall|i: int|
                0 <= i < r.results@.len() ==> (#[trigger] r.results@[i]).name@
                    == self.counters()[i],
    {
        proof {
            use_type_invariant(&self);
        }
        let Orchestration { params, results } = self;
        OrchestrateResult { results }
    }
}

} // verus!
