//! The library's view of a JSON document.
//!
//! The platform answers every endpoint with JSON text. Parsing that text is
//! delegated to `serde_json`; everything the decoders then do happens on the
//! [`Json`] tree below, whose contents are plain values that the contracts can
//! speak about.

use vstd::prelude::*;

verus! {

/// A JSON document, as the decoders see it.
///
/// Object members keep the order in which the parser hands them out, and a
/// lookup takes the first member with a matching key. Numbers with an exact
/// `i64` value appear as [`Json::Int`]; any other number (fractional, or out
/// of `i64` range) appears as [`Json::OtherNumber`], which the decoders treat
/// as a type mismatch wherever an integer is required.
#[derive(Debug, PartialEq)]
pub enum Json {
    Null,
    Bool(bool),
    Int(i64),
    OtherNumber,
    Str(String),
    Arr(Vec<Json>),
    Obj(Vec<(String, Json)>),
}

/// The document that a byte sequence holds, if it is well-formed JSON.
///
/// Parsing is a function of the bytes alone, so the result of the trusted
/// parser below is given this name; the decoders' contracts are stated over
/// it.
pub uninterp spec fn json_of(bytes: Seq<u8>) -> Option<Json>;

#[verifier::external_type_specification]
#[verifier::external_body]
pub struct ExValue(serde_json::Value);

/// Relies on `serde_json::Value`: one arm per variant of the parsed document,
/// each moved into the matching [`Json`] variant; `Number::as_i64` yields the
/// exact `i64` value of a number or `None`.
#[verifier::external_body]
fn json_from_value(v: serde_json::Value) -> Json {
    match v {
        serde_json::Value::Null => Json::Null,
        serde_json::Value::Bool(b) => Json::Bool(b),
        serde_json::Value::Number(n) => match n.as_i64() {
            Some(i) => Json::Int(i),
            None => Json::OtherNumber,
        },
        serde_json::Value::String(s) => Json::Str(s),
        serde_json::Value::Array(a) => Json::Arr(a.into_iter().map(json_from_value).collect()),
        serde_json::Value::Object(m) => Json::Obj(
            m.into_iter().map(|e| (e.0, json_from_value(e.1))).collect(),
        ),
    }
}

/// Relies on `serde_json::from_slice`: whether the bytes parse, and what they
/// parse to, depends on the bytes alone, so the outcome is exactly
/// [`json_of`] of the input.
#[verifier::external_body]
pub(crate) fn parse_json(bytes: &[u8]) -> (r: Option<Json>)
    ensures
        r == json_of(bytes@),
{
    match serde_json::from_slice::<serde_json::Value>(bytes) {
        Ok(v) => Some(json_from_value(v)),
        Err(_) => None,
    }
}

/// The value of the first member of `fields` whose key is `name`, if any.
pub open spec fn spec_get(fields: Seq<(String, Json)>, name: Seq<char>) -> Option<Json>
    decreases fields.len(),
{
    if fields.len() == 0 {
        None
    } else if fields[0].0@ == name {
        Some(fields[0].1)
    } else {
        spec_get(fields.drop_first(), name)
    }
}

/// Looks `name` up among an object's members.
pub fn get_field<'a>(fields: &'a Vec<(String, Json)>, name: &String) -> (r: Option<&'a Json>)
    ensures
        match r {
            Some(j) => spec_get(fields@, name@) == Some(*j),
            None => spec_get(fields@, name@) is None,
        },
{
    let mut i: usize = 0;
    proof {
        assert(fields@.skip(0) =~= fields@);
    }
    while i < fields.len()
        invariant
            i <= fields.len(),
            spec_get(fields@, name@) == spec_get(fields@.skip(i as int), name@),
        decreases fields.len() - i,
    {
        let pair = &fields[i];
        if pair.0 == *name {
            proof {
                assert(fields@.skip(i as int)[0] == fields@[i as int]);
            }
            return Some(&pair.1);
        }
        proof {
            assert(fields@.skip(i as int).drop_first() =~= fields@.skip(i as int + 1));
        }
        i += 1;
    }
    None
}

} // verus!
