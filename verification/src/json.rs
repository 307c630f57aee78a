//! A plain model of JSON documents, holding what the library reads of
//! responses: objects, arrays, strings (numbers are kept as their text).
use vstd::prelude::*;
use crate::text::str_eq;

verus! {

/// A JSON value.
#[derive(Debug)]
pub enum JsonValue {
    Null,
    Bool(bool),
    /// A number, as the parser prints it.
    Number(String),
    Str(String),
    Array(Vec<JsonValue>),
    /// Members in the parser's order (sorted by key); keys are unique.
    Object(Vec<(String, JsonValue)>),
}

/// Declares `serde_json::Value`, the parser's document type.
#[verifier::external_type_specification]
#[verifier::external_body]
pub struct ExSerdeValue(serde_json::Value);

/// Name for what `serde_json::from_str::<Value>` gives for a text, carried
/// over one for one into a [`JsonValue`]; `None` where it reports an error.
pub uninterp spec fn json_parse(text: Seq<char>) -> Option<JsonValue>;

/// Name for the message (`Display` of `serde_json::Error`) with which
/// `serde_json::from_str::<Value>` rejects a text.
pub uninterp spec fn json_parse_error(text: Seq<char>) -> Seq<char>;

/// Carries a parsed `serde_json::Value` over into a [`JsonValue`], variant
/// for variant (numbers as `Number::to_string` prints them, object members
/// in the map's order). Nothing is claimed of it on its own; the contract of
/// [`parse_json`] covers the conversion.
#[verifier::external_body]
fn from_serde(v: serde_json::Value) -> JsonValue {
    match v {
        serde_json::Value::Null => JsonValue::Null,
        serde_json::Value::Bool(b) => JsonValue::Bool(b),
        serde_json::Value::Number(n) => JsonValue::Number(n.to_string()),
        serde_json::Value::String(s) => JsonValue::Str(s),
        serde_json::Value::Array(a) => JsonValue::Array(a.into_iter().map(from_serde).collect()),
        serde_json::Value::Object(m) => JsonValue::Object(m.into_iter().map(|(k, v)| (k, from_serde(v))).collect()),
    }
}

/// Calls `serde_json::from_str::<serde_json::Value>` and carries the result
/// over into a [`JsonValue`]; claims that success and the value are the
/// named parse of `text`, and that a failure carries the named message.
#[verifier::external_body]
pub(crate) fn parse_json(text: &str) -> (r: Result<JsonValue, String>)
    ensures
        (r is Ok) == (json_parse(text@) is Some),
        r matches Ok(v) ==> json_parse(text@) == Some(v),
        r matches Err(e) ==> e@ == json_parse_error(text@),
{
    match serde_json::from_str::<serde_json::Value>(text) {
        Ok(v) => Ok(from_serde(v)),
        Err(e) => Err(e.to_string()),
    }
}

/// The value of the first member named `key` among `members`.
pub open spec fn member(members: Seq<(String, JsonValue)>, key: Seq<char>) -> Option<JsonValue>
    decreases members.len(),
{
    if members.len() == 0 {
        None
    } else if members[0].0@ == key {
        Some(members[0].1)
    } else {
        member(members.drop_first(), key)
    }
}

/// `Value::get(key)`: the member `key` of an object; `None` for anything else.
pub open spec fn json_get(v: JsonValue, key: Seq<char>) -> Option<JsonValue> {
    match v {
        JsonValue::Object(members) => member(members@, key),
        _ => None,
    }
}

/// `Value::as_str`: the text of a string value.
pub open spec fn json_str(v: Option<JsonValue>) -> Option<Seq<char>> {
    match v {
        Some(JsonValue::Str(s)) => Some(s@),
        _ => None,
    }
}

impl JsonValue {
    /// The member `key` of an object.
    pub fn get(&self, key: &str) -> (r: Option<&JsonValue>)
        ensures
            match r {
                Some(x) => json_get(*self, key@) == Some(*x),
                None => json_get(*self, key@) is None,
            },
    {
        match self {
            JsonValue::Object(members) => {
                let mut i: usize = 0;
                assert(members@.skip(0) =~= members@);
                while i < members.len()
                    invariant
                        0 <= i <= members@.len(),
                        json_get(*self, key@) == member(members@, key@),
                        member(members@, key@) == member(members@.skip(i as int), key@),
                    decreases members@.len() - i,
                {
                    assert(members@.skip(i as int)[0] == members@[i as int]);
                    if str_eq(members[i].0.as_str(), key) {
                        assert(member(members@.skip(i as int), key@) == Some(members@[i as int].1));
                        return Some(&members[i].1);
                    }
                    assert(members@.skip(i as int).drop_first() =~= members@.skip(i + 1));
                    i = i + 1;
                }
                None
            },
            _ => None,
        }
    }

    /// The text of a string value.
    pub fn as_str(&self) -> (r: Option<&String>)
        ensures
            match r {
                Some(s) => json_str(Some(*self)) == Some(s@),
                None => json_str(Some(*self)) is None,
            },
    {
        match self {
            JsonValue::Str(s) => Some(s),
            _ => None,
        }
    }
}

} // verus!
