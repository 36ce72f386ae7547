//! Declarations of the outside types and calls that the library uses, with
//! the contracts that the rest of the crate relies on.

use vstd::prelude::*;
use vstd::utf8::*;
use crate::json::JsonValue;

verus! {

/// `bytes::Bytes`, an immutable shared byte buffer.
#[verifier::external_type_specification]
#[verifier::external_body]
pub struct ExBytes(bytes::Bytes);

/// The bytes that a `bytes::Bytes` buffer holds, in order.
pub uninterp spec fn bytes_contents(b: bytes::Bytes) -> Seq<u8>;

/// `bytes::Bytes::from(Vec<u8>)`: the buffer takes over the vector and holds
/// exactly its bytes.
#[verifier::external_body]
pub fn bytes_from_vec(v: Vec<u8>) -> (b: bytes::Bytes)
    ensures
        bytes_contents(b) == v@,
{
    bytes::Bytes::from(v)
}

/// `bytes::Bytes::from(String)`: the buffer holds the UTF-8 encoding of the
/// string.
#[verifier::external_body]
pub fn bytes_from_string(s: String) -> (b: bytes::Bytes)
    ensures
        bytes_contents(b) == encode_utf8(s@),
{
    bytes::Bytes::from(s)
}

/// `bytes::Bytes::from(&'static str)`: the buffer holds the UTF-8 encoding of
/// the static string.
#[verifier::external_body]
pub fn bytes_from_static_str(s: &'static str) -> (b: bytes::Bytes)
    ensures
        bytes_contents(b) == encode_utf8(s@),
{
    bytes::Bytes::from(s)
}

/// `<bytes::Bytes as Deref>::deref`: the slice of the bytes the buffer holds.
#[verifier::external_body]
pub fn bytes_as_slice(b: &bytes::Bytes) -> (s: &[u8])
    ensures
        s@ == bytes_contents(*b),
{
    &b[..]
}

/// `<bytes::Bytes as Clone>::clone`: a second handle on the same bytes.
#[verifier::external_body]
pub fn bytes_clone(b: &bytes::Bytes) -> (c: bytes::Bytes)
    ensures
        bytes_contents(c) == bytes_contents(*b),
{
    b.clone()
}

/// The text that `String::from_utf8_lossy` makes of a byte sequence that is
/// not valid UTF-8 (each invalid sequence replaced by U+FFFD).
pub uninterp spec fn lossy_text_of_invalid(b: Seq<u8>) -> Seq<char>;

/// The text that `String::from_utf8_lossy` makes of a byte sequence: the
/// decoded text when the bytes are valid UTF-8, as its documentation states.
pub open spec fn utf8_lossy_text(b: Seq<u8>) -> Seq<char> {
    if valid_utf8(b) {
        decode_utf8(b)
    } else {
        lossy_text_of_invalid(b)
    }
}

/// `String::from_utf8_lossy`: the text of the bytes, with each invalid
/// sequence replaced by U+FFFD. Valid UTF-8 comes back decoded unchanged,
/// as the documentation states; for other bytes the result is named.
#[verifier::external_body]
pub fn utf8_lossy(b: &[u8]) -> (s: String)
    ensures
        valid_utf8(b@) ==> s@ == decode_utf8(b@),
        !valid_utf8(b@) ==> s@ == lossy_text_of_invalid(b@),
        s@ == utf8_lossy_text(b@),
{
    String::from_utf8_lossy(b).into_owned()
}

/// `serde_json::Value`, a parsed JSON document. The library carries it
/// through and never looks inside.
#[verifier::external_type_specification]
#[verifier::external_body]
pub struct ExJsonValue(serde_json::Value);

/// What `serde_json::from_str::<serde_json::Value>` gives for a text,
/// converted one for one into a `JsonValue`; `None` where it refuses the text.
pub uninterp spec fn json_document(text: Seq<char>) -> Option<JsonValue>;

/// `serde_json::from_str::<serde_json::Value>`: the document a text holds,
/// or the parser's error text (left unsaid). Claimed besides: the decimal
/// text of an `i64` is read as that integer.
#[verifier::external_body]
pub fn json_parse(text: &str) -> (r: Result<JsonValue, String>)
    ensures
        match r {
            Ok(v) => json_document(text@) == Some(v),
            Err(_) => json_document(text@) is None,
        },
        forall|v: i64| #[trigger] decimal_text(v as int) == text@
            ==> r is Ok && r->Ok_0 == JsonValue::Number(Some(v)),
{
    serde_json::from_str::<serde_json::Value>(text).map(json_value_from).map_err(|e| e.to_string())
}

/// Converts a `serde_json::Value` one for one: a number becomes what
/// `serde_json::Number::as_i64` gives of it, an array and an object their
/// items and members converted in turn, in the order the value holds them.
#[verifier::external_body]
fn json_value_from(v: serde_json::Value) -> (r: JsonValue) {
    match v {
        serde_json::Value::Null => JsonValue::Null,
        serde_json::Value::Bool(b) => JsonValue::Bool(b),
        serde_json::Value::Number(n) => JsonValue::Number(n.as_i64()),
        serde_json::Value::String(s) => JsonValue::Str(s),
        serde_json::Value::Array(a) => JsonValue::Array(a.into_iter().map(json_value_from).collect()),
        serde_json::Value::Object(m) => {
            JsonValue::Object(m.into_iter().map(|(k, v)| (k, json_value_from(v))).collect())
        },
    }
}

/// The character of a decimal digit.
pub open spec fn digit_char(d: nat) -> char {
    (d + 48) as char
}

/// The decimal digits of a natural number, most significant first, with no
/// leading zero.
pub open spec fn decimal_digits(n: nat) -> Seq<char>
    decreases n,
{
    if n < 10 {
        seq![digit_char(n)]
    } else {
        decimal_digits(n / 10).push(digit_char(n % 10))
    }
}

/// The decimal text of an integer: its digits, after a `-` when it is
/// negative.
pub open spec fn decimal_text(v: int) -> Seq<char> {
    if v < 0 {
        seq!['-'] + decimal_digits((-v) as nat)
    } else {
        decimal_digits(v as nat)
    }
}

/// The JSON text `null`.
pub open spec fn json_null() -> Seq<char> {
    seq!['n', 'u', 'l', 'l']
}

/// `serde_json::to_vec(&i64)`: the integer written as JSON, which is its
/// decimal text (serde_json writes integers with `itoa`). Writing into a
/// `Vec` cannot fail, so the result is always `Ok`.
#[verifier::external_body]
pub fn json_i64_bytes(v: i64) -> (r: Result<Vec<u8>, String>)
    ensures
        r is Ok,
        r->Ok_0@ == encode_utf8(decimal_text(v as int)),
{
    serde_json::to_vec(&v).map_err(|e| e.to_string())
}

/// `serde_json::to_vec(&())`: the unit value written as JSON, which is
/// `null`. Writing into a `Vec` cannot fail, so the result is always `Ok`.
#[verifier::external_body]
pub fn json_unit_bytes(unit: ()) -> (r: Result<Vec<u8>, String>)
    ensures
        r is Ok,
        r->Ok_0@ == encode_utf8(json_null()),
{
    serde_json::to_vec(&unit).map_err(|e| e.to_string())
}

/// `<i64 as ToString>::to_string`: the decimal text of the integer.
#[verifier::external_body]
pub fn i64_text(v: i64) -> (s: String)
    ensures
        s@ == decimal_text(v as int),
{
    v.to_string()
}

/// `worker::Stub`, a client handle on one Durable Object.
#[verifier::external_type_specification]
#[verifier::external_body]
pub struct ExStub(worker::Stub);

/// `worker::ObjectNamespace`, a Durable Object namespace binding.
#[verifier::external_type_specification]
#[verifier::external_body]
pub struct ExObjectNamespace(worker::ObjectNamespace);

/// `worker::ObjectId`, the identifier of a Durable Object in a namespace.
#[verifier::external_type_specification]
#[verifier::external_body]
pub struct ExObjectId<'a>(worker::ObjectId<'a>);

/// `worker::WebSocket`, one end of a WebSocket connection.
#[verifier::external_type_specification]
#[verifier::external_body]
pub struct ExWebSocket(worker::WebSocket);

/// `worker::ObjectNamespace::get_by_name`: the stub of the object with the
/// given name, or the runtime's error, as its text. What comes back is
/// decided by the JavaScript runtime; nothing is stated of it.
#[verifier::external_body]
pub fn namespace_get_by_name(ns: &worker::ObjectNamespace, name: &str) -> Result<
    worker::Stub,
    String,
> {
    ns.get_by_name(name).map_err(|e| e.to_string())
}

/// `worker::ObjectNamespace::id_from_string`: the object id that a stringified
/// id stands for, or the runtime's error, as its text. The runtime decides
/// which strings are valid ids; nothing is stated of the outcome.
#[verifier::external_body]
pub fn namespace_id_from_string<'a>(ns: &'a worker::ObjectNamespace, id: &str) -> Result<
    worker::ObjectId<'a>,
    String,
> {
    ns.id_from_string(id).map_err(|e| e.to_string())
}

/// `worker::ObjectNamespace::unique_id`: a fresh random object id, or the
/// runtime's error, as its text. Nothing is stated of the outcome.
#[verifier::external_body]
pub fn namespace_unique_id<'a>(ns: &'a worker::ObjectNamespace) -> Result<
    worker::ObjectId<'a>,
    String,
> {
    ns.unique_id().map_err(|e| e.to_string())
}

/// `worker::ObjectId::get_stub`: the stub of the identified object, or the
/// runtime's error, as its text. Nothing is stated of the outcome.
#[verifier::external_body]
pub fn object_id_get_stub(id: &worker::ObjectId) -> Result<worker::Stub, String> {
    id.get_stub().map_err(|e| e.to_string())
}

/// `worker::WebSocketPair::new`: the client and server ends of a new pair, or
/// the runtime's error, as its text. Nothing is stated of the outcome.
#[verifier::external_body]
pub fn websocket_pair_new() -> Result<(worker::WebSocket, worker::WebSocket), String> {
    worker::WebSocketPair::new().map(|p| (p.client, p.server)).map_err(|e| e.to_string())
}

/// `<worker::WebSocket as Clone>::clone`: a second handle on the same
/// JavaScript socket (`JsValue::clone` takes a new reference to the same JS
/// object, and the derived `PartialEq`, which compares with JS `===`, holds
/// between the two). A `worker::WebSocket` is taken here as the socket it
/// refers to, so the clone is stated to be that same socket.
#[verifier::external_body]
pub fn websocket_clone(s: &worker::WebSocket) -> (c: worker::WebSocket)
    ensures
        c == *s,
{
    s.clone()
}

} // verus!
