use wrpc_transport_do::counter::increment_body;
use wrpc_transport_do::counter::{increment_reading, orchestrator_plain_reply, params_amount_exec};
use wrpc_transport_do::error::Error;
use wrpc_transport_do::json::{json_byte_array, json_integer, json_member, JsonValue};
use wrpc_transport_do::counter::counter_reply;
use wrpc_transport_do::message::WrpcStatus;
use wrpc_transport_do::counter::{counter_plain_reply, PlainReply};
use wrpc_transport_do::counter::{
    counter_route, counter_wrpc_plan, increment_amount, incremented, orchestrate_call,
    orchestrator_route, reset_count, stored_count, CounterCall, CounterRoute, CounterWrpcPlan,
    HttpMethod, IncrementBody, OrchestrateCall, OrchestrateParams, OrchestrateStep,
    Orchestration, OrchestratorRoute,
};

#[test]
fn counter_plain_routes() {
    assert_eq!(counter_route(HttpMethod::Get, "/value"), CounterRoute::Value);
    assert_eq!(counter_route(HttpMethod::Post, "/increment"), CounterRoute::Increment);
    assert_eq!(counter_route(HttpMethod::Post, "/reset"), CounterRoute::Reset);
    assert_eq!(counter_route(HttpMethod::Post, "/value"), CounterRoute::NotFound);
    assert_eq!(counter_route(HttpMethod::Get, "/increment"), CounterRoute::NotFound);
    assert_eq!(counter_route(HttpMethod::Other, "/reset"), CounterRoute::NotFound);
}

#[test]
fn counter_wrpc_plans() {
    assert!(matches!(counter_wrpc_plan("/_wrpc/counter/get"), CounterWrpcPlan::Call(CounterCall::Get)));
    assert!(matches!(counter_wrpc_plan("/_wrpc/counter/increment"), CounterWrpcPlan::Call(CounterCall::Increment)));
    assert!(matches!(counter_wrpc_plan("/_wrpc/counter/reset"), CounterWrpcPlan::Call(CounterCall::Reset)));
    assert!(matches!(counter_wrpc_plan("/_wrpc/counter/other"), CounterWrpcPlan::Call(CounterCall::Unknown)));
    assert!(matches!(counter_wrpc_plan("/_wrpc/counter"), CounterWrpcPlan::Reject { message, status: 400 } if message == "Invalid wRPC path"));
    assert!(matches!(counter_wrpc_plan("/_wrpc/pingpong/ping"), CounterWrpcPlan::Reject { message, status: 404 } if message == "Unknown instance"));
    assert!(matches!(counter_wrpc_plan("/value"), CounterWrpcPlan::Reject { message, status: 404 } if message == "Unknown instance"));
}

#[test]
fn increment_amounts() {
    assert_eq!(increment_amount(IncrementBody::Payload(Some(Some(5)))).unwrap(), 5);
    assert_eq!(increment_amount(IncrementBody::Payload(Some(None))).unwrap(), 1);
    assert_eq!(increment_amount(IncrementBody::Payload(None)).unwrap(), 1);
    assert_eq!(increment_amount(IncrementBody::Bare(Some(-2))).unwrap(), -2);
    assert_eq!(increment_amount(IncrementBody::Bare(None)).unwrap(), 1);
    assert_eq!(
        increment_amount(IncrementBody::NotJson("expected value".to_string())).unwrap_err(),
        "invalid JSON: expected value"
    );
}

#[test]
fn counter_values() {
    assert_eq!(stored_count(None), 0);
    assert_eq!(stored_count(Some(9)), 9);
    assert_eq!(incremented(9, 3), 12);
    assert_eq!(incremented(-1, -1), -2);
    assert_eq!(reset_count(), 0);
}

#[test]
fn orchestrator_routes() {
    assert_eq!(orchestrator_route(HttpMethod::Post, "/orchestrate"), OrchestratorRoute::Orchestrate);
    assert_eq!(orchestrator_route(HttpMethod::Get, "/health"), OrchestratorRoute::Health);
    assert_eq!(orchestrator_route(HttpMethod::Get, "/orchestrate"), OrchestratorRoute::NotFound);
}

#[test]
fn orchestrate_calls() {
    assert_eq!(orchestrate_call("get", Some(4)), Some(OrchestrateCall::Get));
    assert_eq!(orchestrate_call("increment", Some(4)), Some(OrchestrateCall::Increment(4)));
    assert_eq!(orchestrate_call("increment", None), Some(OrchestrateCall::Increment(1)));
    assert_eq!(orchestrate_call("reset", None), Some(OrchestrateCall::Reset));
    assert_eq!(orchestrate_call("double", None), None);
    assert_eq!(OrchestrateCall::Get.function(), "get");
    assert_eq!(OrchestrateCall::Increment(2).function(), "increment");
    assert_eq!(OrchestrateCall::Reset.function(), "reset");
}

#[test]
fn orchestration_calls_counters_in_order() {
    let params = OrchestrateParams {
        counters: vec!["a".to_string(), "b".to_string()],
        operation: "increment".to_string(),
        amount: Some(2),
    };
    let mut o = Orchestration::start(params);
    let mut returned = 10;
    loop {
        match o.next_step() {
            OrchestrateStep::Call { counter, call } => {
                assert_eq!(call, OrchestrateCall::Increment(2));
                assert!(counter == "a" || counter == "b");
                o.record(returned);
                returned += 1;
            }
            OrchestrateStep::Fail { message, .. } => panic!("{}", message),
            OrchestrateStep::Done => break,
        }
    }
    let r = o.finish();
    let got: Vec<(&str, i64)> = r.results.iter().map(|c| (c.name.as_str(), c.value)).collect();
    assert_eq!(got, vec![("a", 10), ("b", 11)]);
}

#[test]
fn orchestration_reset_records_zero() {
    let params = OrchestrateParams {
        counters: vec!["x".to_string()],
        operation: "reset".to_string(),
        amount: None,
    };
    let mut o = Orchestration::start(params);
    assert!(matches!(o.next_step(), OrchestrateStep::Call { call: OrchestrateCall::Reset, .. }));
    o.record(77);
    assert!(matches!(o.next_step(), OrchestrateStep::Done));
    let r = o.finish();
    assert_eq!(r.results.len(), 1);
    assert_eq!(r.results[0].value, 0);
}

#[test]
fn unknown_operation_fails_only_with_counters() {
    let o = Orchestration::start(OrchestrateParams {
        counters: vec!["x".to_string()],
        operation: "double".to_string(),
        amount: None,
    });
    assert!(matches!(o.next_step(), OrchestrateStep::Fail { counter, message } if counter == "x" && message == "unknown operation: double"));
    let o = Orchestration::start(OrchestrateParams {
        counters: vec![],
        operation: "double".to_string(),
        amount: None,
    });
    assert!(matches!(o.next_step(), OrchestrateStep::Done));
    assert!(o.finish().results.is_empty());
}

#[test]
fn client_calls_to_the_counter_are_planned() {
    let req = wrpc_transport_do::message::WrpcRequest::new("counter", "increment", Ok(b"2".to_vec())).unwrap();
    assert!(matches!(counter_wrpc_plan(&req.path()), CounterWrpcPlan::Call(CounterCall::Increment)));
}

#[test]
fn increment_bodies_are_read() {
    assert!(matches!(increment_body("not json"), IncrementBody::NotJson(_)));
    assert!(matches!(increment_body("5"), IncrementBody::Bare(Some(5))));
    assert!(matches!(increment_body("\"five\""), IncrementBody::Bare(None)));
    assert!(matches!(increment_body("{\"payload\":{\"params\":7}}"), IncrementBody::Payload(Some(Some(7)))));
    assert!(matches!(increment_body("{\"payload\":{\"params\":[7]}}"), IncrementBody::Payload(Some(None))));
    assert!(matches!(increment_body("{\"payload\":{\"params\":[53]}}"), IncrementBody::Payload(Some(Some(5)))));
    assert!(matches!(increment_body("{\"payload\":{\"params\":[45,51]}}"), IncrementBody::Payload(Some(Some(-3)))));
    assert!(matches!(increment_body("{\"payload\":{\"params\":[256]}}"), IncrementBody::Payload(Some(None))));
    assert!(matches!(increment_body("{\"payload\":{\"params\":2.5}}"), IncrementBody::Payload(Some(None))));
    assert!(matches!(increment_body("{\"payload\":null}"), IncrementBody::Payload(None)));
    assert!(matches!(increment_body("9223372036854775808"), IncrementBody::Bare(None)));
    assert!(matches!(increment_body("{\"payload\":{}}"), IncrementBody::Payload(None)));
    assert!(matches!(increment_body("{\"payload\":3}"), IncrementBody::Payload(None)));
    assert!(matches!(increment_body("{\"other\":1}"), IncrementBody::Bare(None)));
    assert_eq!(increment_amount(increment_body("{\"payload\":{\"params\":4}}")).unwrap(), 4);
    assert_eq!(increment_amount(increment_body("-3")).unwrap(), -3);
    assert_eq!(increment_amount(increment_body("{}")).unwrap(), 1);
    assert!(increment_amount(increment_body("{")).unwrap_err().starts_with("invalid JSON: "));
}

#[test]
fn counter_replies_carry_the_value() {
    let r = counter_reply(CounterCall::Get, 42);
    assert_eq!(r.status, WrpcStatus::Success);
    assert_eq!(&r.data[..], b"42");
    let r = counter_reply(CounterCall::Increment, i64::MIN);
    assert_eq!(&r.data[..], b"-9223372036854775808");
    let r = counter_reply(CounterCall::Reset, 9);
    assert_eq!(r.status, WrpcStatus::Success);
    assert_eq!(&r.data[..], b"null");
    let r = counter_reply(CounterCall::Unknown, 9);
    assert_eq!(r.status, WrpcStatus::NotFound);
    assert_eq!(&r.data[..], b"function not found");
}

#[test]
fn counter_plain_replies() {
    assert!(matches!(counter_plain_reply(CounterRoute::Value, 0), PlainReply::Text(t) if t == "0"));
    assert!(matches!(counter_plain_reply(CounterRoute::Increment, -12), PlainReply::Text(t) if t == "-12"));
    assert!(matches!(counter_plain_reply(CounterRoute::Reset, 5), PlainReply::Text(t) if t == "reset"));
    assert!(matches!(counter_plain_reply(CounterRoute::NotFound, 5), PlainReply::Failure { message, status: 404 } if message == "Not Found"));
}

fn object(members: Vec<(&str, JsonValue)>) -> JsonValue {
    JsonValue::Object(members.into_iter().map(|(k, v)| (k.to_string(), v)).collect())
}

#[test]
fn envelope_amount_is_added() {
    let doc = object(vec![("payload", object(vec![("params", JsonValue::Number(Some(5)))]))]);
    let amount = increment_amount(increment_reading(&doc)).unwrap();
    assert_eq!(amount, 5);
    assert_eq!(incremented(stored_count(None), amount), 5);
    let r = counter_reply(CounterCall::Increment, incremented(stored_count(None), amount));
    assert_eq!(r.status, WrpcStatus::Success);
    assert_eq!(&r.data[..], b"5");
    assert_eq!(r.version, "0.1.0");
}

#[test]
fn bare_amount_is_added_to_the_stored_value() {
    let amount = increment_amount(increment_body("5")).unwrap();
    assert_eq!(amount, 5);
    let r = counter_reply(CounterCall::Increment, incremented(stored_count(Some(2)), amount));
    assert_eq!(&r.data[..], b"7");
    let doc = JsonValue::Number(Some(5));
    assert!(matches!(increment_reading(&doc), IncrementBody::Bare(Some(5))));
}

#[test]
fn documents_are_read() {
    let doc = object(vec![("a", JsonValue::Bool(true)), ("payload", JsonValue::Null)]);
    assert!(matches!(json_member(&doc, "payload"), Some(JsonValue::Null)));
    assert!(json_member(&doc, "params").is_none());
    assert!(json_member(&JsonValue::Number(Some(1)), "a").is_none());
    assert_eq!(json_integer(&JsonValue::Number(Some(-4))), Some(-4));
    assert_eq!(json_integer(&JsonValue::Str("4".to_string())), None);
    let bytes = JsonValue::Array(vec![JsonValue::Number(Some(0)), JsonValue::Number(Some(255))]);
    assert_eq!(json_byte_array(&bytes), Some(vec![0u8, 255]));
    let too_big = JsonValue::Array(vec![JsonValue::Number(Some(0)), JsonValue::Number(Some(256))]);
    assert_eq!(json_byte_array(&too_big), None);
    assert_eq!(json_byte_array(&JsonValue::Array(vec![])), Some(vec![]));
    assert_eq!(json_byte_array(&JsonValue::Null), None);
    assert!(matches!(increment_reading(&doc), IncrementBody::Payload(None)));
    assert!(matches!(increment_reading(&JsonValue::Null), IncrementBody::Bare(None)));
}

#[test]
fn params_amounts() {
    assert_eq!(params_amount_exec(&JsonValue::Number(Some(12))), Some(12));
    assert_eq!(params_amount_exec(&JsonValue::Number(None)), None);
    let sent = JsonValue::Array(b"42".iter().map(|b| JsonValue::Number(Some(*b as i64))).collect());
    assert_eq!(params_amount_exec(&sent), Some(42));
    let text = JsonValue::Array(b"\"x\"".iter().map(|b| JsonValue::Number(Some(*b as i64))).collect());
    assert_eq!(params_amount_exec(&text), None);
    assert_eq!(params_amount_exec(&JsonValue::Str("42".to_string())), None);
}

#[test]
fn orchestrator_plain_replies() {
    assert!(orchestrator_plain_reply(OrchestratorRoute::Orchestrate).is_none());
    assert!(matches!(orchestrator_plain_reply(OrchestratorRoute::Health), Some(PlainReply::Text(t)) if t == "healthy"));
    assert!(matches!(orchestrator_plain_reply(OrchestratorRoute::NotFound), Some(PlainReply::Failure { message, status: 404 }) if message == "Not Found"));
}

#[test]
fn settling_records_or_stops() {
    let params = OrchestrateParams {
        counters: vec!["a".to_string(), "b".to_string()],
        operation: "increment".to_string(),
        amount: Some(3),
    };
    let mut run = Orchestration::start(params);
    assert!(run.settle(Ok(3)).is_none());
    let stop = run.settle(Err(Error::Transport("down".to_string())));
    assert_eq!(stop, Some("transport error: down".to_string()));
    assert!(run.settle(Ok(6)).is_none());
    let r = run.finish();
    assert_eq!(r.results.len(), 2);
    assert_eq!(r.results[0].name, "a");
    assert_eq!(r.results[0].value, 3);
    assert_eq!(r.results[1].name, "b");
    assert_eq!(r.results[1].value, 6);
}
