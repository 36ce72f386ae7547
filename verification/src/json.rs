//! A JSON document as plain values, and the reads the library makes of one:
//! an object's member, an integer, an array of bytes.

use vstd::prelude::*;
use crate::text::same_text;

verus! {

/// A JSON document, held as the values the library reads from it.
#[derive(Debug)]
pub enum JsonValue {
    Null,
    Bool(bool),
    /// A number: the integer it is, where it is an integer that fits in an
    /// `i64`, else `None`
    Number(Option<i64>),
    Str(String),
    Array(Vec<JsonValue>),
    /// An object's members, each key once
    Object(Vec<(String, JsonValue)>),
}

/// The value of the first member with the given key.
pub open spec fn member_value(members: Seq<(String, JsonValue)>, key: Seq<char>) -> Option<
    JsonValue,
>
    decreases members.len(),
{
    if members.len() == 0 {
        None
    } else if members[0].0@ == key {
        Some(members[0].1)
    } else {
        member_value(members.drop_first(), key)
    }
}

/// The member of an object with the given key; `None` for a value that is no
/// object, or an object without that key.
pub open spec fn member(v: JsonValue, key: Seq<char>) -> Option<JsonValue> {
    match v {
        JsonValue::Object(members) => member_value(members@, key),
        _ => None,
    }
}

/// The integer a value is, where it is an integer that fits in an `i64`.
pub open spec fn integer(v: JsonValue) -> Option<i64> {
    match v {
        JsonValue::Number(n) => n,
        _ => None,
    }
}

/// The byte a value is: an integer from 0 to 255.
pub open spec fn byte_of(v: JsonValue) -> Option<u8> {
    match v {
        JsonValue::Number(Some(n)) => if 0 <= n <= 255 {
            Some(n as u8)
        } else {
            None
        },
        _ => None,
    }
}

/// The bytes that a sequence of values spells, where each is a byte.
pub open spec fn bytes_of_items(items: Seq<JsonValue>) -> Option<Seq<u8>>
    decreases items.len(),
{
    if items.len() == 0 {
        Some(Seq::empty())
    } else {
        match (bytes_of_items(items.drop_last()), byte_of(items.last())) {
            (Some(front), Some(b)) => Some(front.push(b)),
            _ => None,
        }
    }
}

/// The bytes an array of byte values holds; `None` for any other value.
pub open spec fn byte_array(v: JsonValue) -> Option<Seq<u8>> {
    match v {
        JsonValue::Array(items) => bytes_of_items(items@),
        _ => None,
    }
}

/// The member of an object with the given key.
pub fn json_member<'a>(v: &'a JsonValue, key: &str) -> (r: Option<&'a JsonValue>)
    ensures
        member(*v, key@) == match r {
            Some(m) => Some(*m),
            None => None::<JsonValue>,
        },
{
    match v {
        JsonValue::Object(members) => {
            let ghost all = members@;
            assert(all.skip(0) =~= all);
            let mut i: usize = 0;
            while i < members.len()
                invariant
                    i <= members.len(),
                    all == members@,
                    *v == JsonValue::Object(*members),
                    member_value(all, key@) == member_value(all.skip(i as int), key@),
                decreases members.len() - i,
            {
                if same_text(members[i].0.as_str(), key) {
                    return Some(&members[i].1);
                }
                assert(all.skip(i as int).drop_first() =~= all.skip(i + 1));
                i = i + 1;
            }
            None
        },
        _ => None,
    }
}

/// The integer a value is, where it is an integer that fits in an `i64`.
pub fn json_integer(v: &JsonValue) -> (r: Option<i64>)
    ensures
        r == integer(*v),
{
    match v {
        JsonValue::Number(n) => *n,
        _ => None,
    }
}

/// The bytes an array of byte values holds.
pub fn json_byte_array(v: &JsonValue) -> (r: Option<Vec<u8>>)
    ensures
        match r {
            Some(b) => byte_array(*v) == Some(b@),
            None => byte_array(*v) is None,
        },
{
    match v {
        JsonValue::Array(items) => {
            let mut out: Vec<u8> = Vec::new();
            let mut i: usize = 0;
            assert(items@.take(0) =~= Seq::<JsonValue>::empty());
            while i < items.len()
                invariant
                    i <= items.len(),
                    *v == JsonValue::Array(*items),
                    bytes_of_items(items@.take(i as int)) == Some(out@),
                decreases items.len() - i,
            {
                let ghost front = items@.take(i as int);
                assert(items@.take(i + 1).drop_last() =~= front);
                match &items[i] {
                    JsonValue::Number(Some(n)) => {
                        if 0 <= *n && *n <= 255 {
                            out.push(*n as u8);
                        } else {
                            proof { lemma_no_bytes_after(items@, i as int); }
                            return None;
                        }
                    },
                    _ => {
                        proof { lemma_no_bytes_after(items@, i as int); }
                        return None;
                    },
                }
                i = i + 1;
            }
            assert(items@.take(items.len() as int) =~= items@);
            Some(out)
        },
        _ => None,
    }
}

/// Once an item is no byte, no longer prefix spells bytes.
proof fn lemma_no_bytes_after(items: Seq<JsonValue>, i: int)
    requires
        0 <= i < items.len(),
        byte_of(items[i]) is None,
    ensures
        bytes_of_items(items) is None,
    decreases items.len() - i,
{
    if i == items.len() - 1 {
    } else {
        lemma_no_bytes_after(items.drop_last(), i);
    }
}

} // verus!
