//! A plain-value model of a parsed JSON document, the trusted bridge that
//! fills it from `serde_json`, and the verified field-extraction helpers the
//! typed decoders are built on.

use vstd::prelude::*;

use crate::error::Error;
use crate::text::str_eq;

verus! {

/// A parsed JSON document.
///
/// Numbers that fit `u64` are kept as integers (every identifier and count in
/// the API is one); any other number is kept as its decimal text, so the
/// model holds no floating point.
#[derive(Debug, PartialEq)]
pub enum Json {
    Null,
    Bool(bool),
    UInt(u64),
    /// A number that does not fit `u64` (negative or fractional), as the
    /// decimal text the parser reports for it.
    NumText(String),
    Str(String),
    Arr(Vec<Json>),
    /// An object's entries in the order the parser reports them, duplicate
    /// keys already resolved (the last occurrence wins).
    Obj(Vec<(String, Json)>),
}

#[verifier::external_type_specification]
#[verifier::external_body]
pub struct ExValue(serde_json::Value);

/// What a body text parses to in this model: `None` when the text is not
/// valid JSON. JSON parsing is a function of the text alone.
pub uninterp spec fn parsed_json(s: Seq<char>) -> Option<Json>;

/// Relies on `serde_json::from_str::<serde_json::Value>`: parses JSON text
/// into a value tree, deterministically in the text (objects come back with
/// duplicate keys already resolved, the last occurrence winning, in sorted
/// key order). `json_tree` carries the tree over into the model.
#[verifier::external_body]
fn parse_json_text(s: &str) -> (r: Option<Json>)
    ensures
        r == parsed_json(s@),
{
    serde_json::from_str::<serde_json::Value>(s).ok().map(json_tree)
}

/// Relies on the variants of `serde_json::Value`, on `Number::as_u64` (the
/// number exactly when it is a non-negative integer in `u64` range) and on
/// `Number::to_string` (its decimal text): rebuilds the tree node for node.
#[verifier::external_body]
fn json_tree(v: serde_json::Value) -> Json {
    match v {
        serde_json::Value::Null => Json::Null,
        serde_json::Value::Bool(b) => Json::Bool(b),
        serde_json::Value::Number(n) => match n.as_u64() {
            Some(u) => Json::UInt(u),
            None => Json::NumText(n.to_string()),
        },
        serde_json::Value::String(s) => Json::Str(s),
        serde_json::Value::Array(a) => Json::Arr(a.into_iter().map(json_tree).collect()),
        serde_json::Value::Object(m) => Json::Obj(
            m.into_iter().map(|(k, w)| (k, json_tree(w))).collect(),
        ),
    }
}

/// Parses a body text into the model; fails with a deserialization error
/// exactly when the text is not valid JSON.
pub fn parse_body(body: &str) -> (r: Result<Json, Error>)
    ensures
        match parsed_json(body@) {
            Some(j) => r == Ok::<Json, Error>(j),
            None => r matches Err(Error::Deserialization(_)),
        },
{
    match parse_json_text(body) {
        Some(j) => Ok(j),
        None => Err(decode_error("the body is not valid JSON")),
    }
}

/// The value under `key` among an object's entries; when the key repeats,
/// the last entry wins, as it does in the parser.
pub open spec fn lookup(fields: Seq<(String, Json)>, key: Seq<char>) -> Option<Json>
    decreases fields.len(),
{
    if fields.len() == 0 {
        None
    } else if fields.last().0@ == key {
        Some(fields.last().1)
    } else {
        lookup(fields.drop_last(), key)
    }
}

/// Finds the last entry under `key`, borrowed.
pub fn get_field<'a>(fields: &'a Vec<(String, Json)>, key: &str) -> (r: Option<&'a Json>)
    ensures
        match r {
            Some(j) => lookup(fields@, key@) == Some(*j),
            None => lookup(fields@, key@) is None,
        },
{
    let mut i = fields.len();
    assert(fields@.take(i as int) =~= fields@);
    while i > 0
        invariant
            i <= fields@.len(),
            lookup(fields@, key@) == lookup(fields@.take(i as int), key@),
        decreases i,
    {
        i = i - 1;
        assert(fields@.take(i + 1).drop_last() =~= fields@.take(i as int));
        assert(fields@.take(i + 1).last() == fields@[i as int]);
        if str_eq(fields[i].0.as_str(), key) {
            return Some(&fields[i].1);
        }
    }
    assert(fields@.take(0) =~= Seq::<(String, Json)>::empty());
    None
}

/// A deserialization failure, described.
pub fn decode_error(what: &str) -> (r: Error)
    ensures
        r matches Error::Deserialization(m) && m@ == what@,
{
    Error::Deserialization(String::from_str(what))
}

/// A type that can be decoded from a node of the JSON model.
///
/// `decodable` says which nodes the type accepts; `json_matches` says when a
/// value is the decoding of a node, pinning it down to the views of its
/// fields. `from_json` succeeds on exactly the nodes `decodable` accepts.
pub trait JsonDecode: Sized {
    /// Whether this node has the shape this type needs.
    spec fn decodable(j: Json) -> bool;

    /// Whether `v` is the decoding of `j`.
    spec fn json_matches(v: Self, j: Json) -> bool;

    /// Decodes a node; fails with a deserialization error exactly when the
    /// node does not have the shape this type needs.
    fn from_json(j: &Json) -> (r: Result<Self, Error>)
        ensures
            match r {
                Ok(v) => Self::decodable(*j) && Self::json_matches(v, *j),
                Err(e) => !Self::decodable(*j) && e matches Error::Deserialization(_),
            },
    ;
}

impl JsonDecode for u64 {
    open spec fn decodable(j: Json) -> bool {
        j matches Json::UInt(_)
    }

    open spec fn json_matches(v: u64, j: Json) -> bool {
        j == Json::UInt(v)
    }

    fn from_json(j: &Json) -> (r: Result<u64, Error>) {
        match j {
            Json::UInt(u) => Ok(*u),
            _ => Err(decode_error("expected an unsigned integer")),
        }
    }
}

impl JsonDecode for bool {
    open spec fn decodable(j: Json) -> bool {
        j matches Json::Bool(_)
    }

    open spec fn json_matches(v: bool, j: Json) -> bool {
        j == Json::Bool(v)
    }

    fn from_json(j: &Json) -> (r: Result<bool, Error>) {
        match j {
            Json::Bool(b) => Ok(*b),
            _ => Err(decode_error("expected a boolean")),
        }
    }
}

impl JsonDecode for String {
    open spec fn decodable(j: Json) -> bool {
        j matches Json::Str(_)
    }

    open spec fn json_matches(v: String, j: Json) -> bool {
        j matches Json::Str(s) && v@ == s@
    }

    fn from_json(j: &Json) -> (r: Result<String, Error>) {
        match j {
            Json::Str(s) => Ok(s.clone()),
            _ => Err(decode_error("expected a string")),
        }
    }
}

/// A JSON number as the model holds it: a `u64`, or decimal text for any
/// other number. Fields whose values may be fractional or negative use this.
#[derive(Debug, PartialEq)]
pub enum JsonNum {
    UInt(u64),
    Text(String),
}

impl JsonDecode for JsonNum {
    open spec fn decodable(j: Json) -> bool {
        j matches Json::UInt(_) || j matches Json::NumText(_)
    }

    open spec fn json_matches(v: JsonNum, j: Json) -> bool {
        match v {
            JsonNum::UInt(u) => j == Json::UInt(u),
            JsonNum::Text(t) => j matches Json::NumText(s) && t@ == s@,
        }
    }

    fn from_json(j: &Json) -> (r: Result<JsonNum, Error>) {
        match j {
            Json::UInt(u) => Ok(JsonNum::UInt(*u)),
            Json::NumText(s) => Ok(JsonNum::Text(s.clone())),
            _ => Err(decode_error("expected a number")),
        }
    }
}

impl<T: JsonDecode> JsonDecode for Vec<T> {
    open spec fn decodable(j: Json) -> bool {
        j matches Json::Arr(elems) && (forall|i: int|
            0 <= i < elems@.len() ==> T::decodable(#[trigger] elems@[i]))
    }

    open spec fn json_matches(v: Vec<T>, j: Json) -> bool {
        j matches Json::Arr(elems) && v@.len() == elems@.len() && (forall|i: int|
            0 <= i < elems@.len() ==> T::json_matches(#[trigger] v@[i], elems@[i]))
    }

    fn from_json(j: &Json) -> (r: Result<Vec<T>, Error>) {
        match j {
            Json::Arr(elems) => {
                let mut out: Vec<T> = Vec::new();
                let mut i: usize = 0;
                while i < elems.len()
                    invariant
                        *j == Json::Arr(*elems),
                        i <= elems@.len(),
                        out@.len() == i,
                        forall|k: int|
                            0 <= k < i ==> T::decodable(#[trigger] elems@[k]) && T::json_matches(
                                out@[k],
                                elems@[k],
                            ),
                    decreases elems@.len() - i,
                {
                    match T::from_json(&elems[i]) {
                        Ok(t) => out.push(t),
                        Err(e) => {
                            proof {
                                assert(!T::decodable((*j)->Arr_0@[i as int]));
                            }
                            return Err(e);
                        },
                    }
                    i = i + 1;
                }
                Ok(out)
            },
            _ => Err(decode_error("expected an array")),
        }
    }
}

/// A required field holds a node the type accepts.
pub open spec fn req_ok<T: JsonDecode>(fields: Seq<(String, Json)>, key: Seq<char>) -> bool {
    match lookup(fields, key) {
        Some(j) => T::decodable(j),
        None => false,
    }
}

/// `v` is the decoding of the required field under `key`.
pub open spec fn req_matches<T: JsonDecode>(
    v: T,
    fields: Seq<(String, Json)>,
    key: Seq<char>,
) -> bool {
    match lookup(fields, key) {
        Some(j) => T::json_matches(v, j),
        None => false,
    }
}

/// An optional field is absent, `null`, or holds a node the type accepts.
pub open spec fn opt_ok<T: JsonDecode>(fields: Seq<(String, Json)>, key: Seq<char>) -> bool {
    match lookup(fields, key) {
        None => true,
        Some(Json::Null) => true,
        Some(j) => T::decodable(j),
    }
}

/// `v` is the decoding of the optional field under `key`: `None` exactly for
/// an absent or `null` field.
pub open spec fn opt_matches<T: JsonDecode>(
    v: Option<T>,
    fields: Seq<(String, Json)>,
    key: Seq<char>,
) -> bool {
    match lookup(fields, key) {
        None => v is None,
        Some(Json::Null) => v is None,
        Some(j) => v matches Some(t) && T::json_matches(t, j),
    }
}

/// Reads a required field of an object.
pub fn get_req<T: JsonDecode>(fields: &Vec<(String, Json)>, key: &str) -> (r: Result<T, Error>)
    ensures
        match r {
            Ok(v) => req_ok::<T>(fields@, key@) && req_matches(v, fields@, key@),
            Err(e) => !req_ok::<T>(fields@, key@) && e matches Error::Deserialization(_),
        },
{
    match get_field(fields, key) {
        Some(j) => T::from_json(j),
        None => {
            let mut what = String::from_str("missing required field ");
            what.append(key);
            Err(Error::Deserialization(what))
        },
    }
}

/// Reads an optional field of an object.
pub fn get_opt<T: JsonDecode>(fields: &Vec<(String, Json)>, key: &str) -> (r: Result<
    Option<T>,
    Error,
>)
    ensures
        match r {
            Ok(v) => opt_ok::<T>(fields@, key@) && opt_matches(v, fields@, key@),
            Err(e) => !opt_ok::<T>(fields@, key@) && e matches Error::Deserialization(_),
        },
{
    match get_field(fields, key) {
        None => Ok(None),
        Some(j) => match j {
            Json::Null => Ok(None),
            _ => match T::from_json(j) {
                Ok(t) => Ok(Some(t)),
                Err(e) => Err(e),
            },
        },
    }
}

} // verus!
