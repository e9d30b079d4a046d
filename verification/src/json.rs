//! The trusted boundary to the JSON parser.
//!
//! Wire frames are JSON text. Parsing is done by serde_json; everything a
//! parsed document can show to the decoder is modeled by [`JsonVal`], and
//! each parser call the decoder makes goes through a wrapper here whose
//! contract speaks over that model. The decoding decisions themselves —
//! which fields are required, which tags are known, what is rejected —
//! are verified code in the decoder, not here.

use vstd::prelude::*;

use crate::event::DecodeError;

verus! {

/// What one parsed JSON value shows to the decoder. Numbers mirror the
/// parser's own storage: a nonnegative integer, a negative integer, or a
/// finite binary64 held by its bit pattern. Array contents are never
/// consumed and are not modeled.
pub enum JsonVal {
    /// A JSON `null`.
    Null,
    /// A JSON boolean.
    Bool(bool),
    /// An integer written without fraction or exponent, `0..=u64::MAX`.
    IntPos(u64),
    /// A negative integer written without fraction or exponent.
    IntNeg(i64),
    /// Any other number, as the bit pattern of the finite binary64 it
    /// parsed to.
    Binary64(u64),
    /// A JSON string, as its character sequence.
    Str(Seq<char>),
    /// A JSON array.
    Arr,
    /// A JSON object, as a map from field name to field value.
    Obj(Map<Seq<char>, JsonVal>),
}

/// The bit pattern of the binary64 nearest to the integer `i`; names the
/// rounding the parser's float accessor applies to integer-stored numbers.
pub uninterp spec fn binary64_of_int(i: int) -> u64;

impl JsonVal {
    /// What the parser's float accessor yields on this value: stored
    /// floats exactly, integers rounded to the nearest binary64.
    pub open spec fn as_binary64_bits(self) -> Option<u64> {
        match self {
            JsonVal::Binary64(b) => Some(b),
            JsonVal::IntPos(u) => Some(binary64_of_int(u as int)),
            JsonVal::IntNeg(i) => Some(binary64_of_int(i as int)),
            _ => None,
        }
    }

    /// What the parser's signed-integer accessor yields on this value.
    pub open spec fn as_int64(self) -> Option<i64> {
        match self {
            JsonVal::IntPos(u) => if u <= i64::MAX {
                Some(u as i64)
            } else {
                None
            },
            JsonVal::IntNeg(i) => Some(i),
            _ => None,
        }
    }

    /// What the parser's unsigned-integer accessor yields on this value.
    pub open spec fn as_uint64(self) -> Option<u64> {
        match self {
            JsonVal::IntPos(u) => Some(u),
            _ => None,
        }
    }
}

#[verifier::external_type_specification]
#[verifier::external_body]
/// Declares serde_json's parsed-value type; opaque here, read only
/// through the wrappers below.
pub struct ExValue(serde_json::Value);

#[verifier::external_type_specification]
#[verifier::external_body]
#[verifier::reject_recursive_types(K)]
#[verifier::reject_recursive_types(V)]
/// Declares serde_json's object type; opaque here, read only through
/// the wrappers below.
pub struct ExJsonObject<K, V>(serde_json::Map<K, V>);

/// The model of a parsed value.
pub uninterp spec fn val_model(v: serde_json::Value) -> JsonVal;

/// The model of a parsed object: its fields by name.
pub uninterp spec fn obj_model(m: serde_json::Map<String, serde_json::Value>) -> Map<
    Seq<char>,
    JsonVal,
>;

/// What a text parses to: `Some` with the model of the parsed value when
/// the parser accepts the text, `None` when it does not. Parsing depends
/// on the text alone.
pub uninterp spec fn json_doc(text: Seq<char>) -> Option<JsonVal>;

/// Relies on serde_json::from_str::<Value>: parsing is a function of the
/// text alone, and fails exactly when the parser rejects the text.
#[verifier::external_body]
pub(crate) fn parse_value(text: &str) -> (r: Result<serde_json::Value, DecodeError>)
    ensures
        r is Err <== json_doc(text@) is None,
        r is Ok <== json_doc(text@) is Some,
        r matches Ok(v) ==> json_doc(text@) == Some(val_model(v)),
        r is Err ==> r->Err_0 == DecodeError::MalformedJson,
{
    match serde_json::from_str::<serde_json::Value>(text) {
        Ok(v) => Ok(v),
        Err(_) => Err(DecodeError::MalformedJson),
    }
}

/// Relies on serde_json::Value::as_object: `Some` exactly on the object
/// variant, with the object itself.
#[verifier::external_body]
pub(crate) fn as_object<'a>(v: &'a serde_json::Value) -> (r: Option<
    &'a serde_json::Map<String, serde_json::Value>,
>)
    ensures
        r matches Some(m) ==> val_model(*v) == JsonVal::Obj(obj_model(*m)),
        r is None ==> !(val_model(*v) is Obj),
{
    v.as_object()
}

/// Relies on serde_json::Map::get: the entry stored under the key, if any.
#[verifier::external_body]
pub(crate) fn get_field<'a>(
    m: &'a serde_json::Map<String, serde_json::Value>,
    key: &str,
) -> (r: Option<&'a serde_json::Value>)
    ensures
        r matches Some(v) ==> obj_model(*m).contains_key(key@) && val_model(*v) == obj_model(
            *m,
        )[key@],
        r is None ==> !obj_model(*m).contains_key(key@),
{
    m.get(key)
}

/// Relies on serde_json::Value::as_str: `Some` exactly on the string
/// variant, with the string itself.
#[verifier::external_body]
pub(crate) fn as_str<'a>(v: &'a serde_json::Value) -> (r: Option<&'a str>)
    ensures
        r matches Some(s) ==> val_model(*v) == JsonVal::Str(s@),
        r is None ==> !(val_model(*v) is Str),
{
    v.as_str()
}

/// Relies on serde_json::Value::as_i64: `Some` exactly for integers
/// representable in `i64`.
#[verifier::external_body]
pub(crate) fn as_i64(v: &serde_json::Value) -> (r: Option<i64>)
    ensures
        r == val_model(*v).as_int64(),
{
    v.as_i64()
}

/// Relies on serde_json::Value::as_u64: `Some` exactly for integers
/// stored nonnegative.
#[verifier::external_body]
pub(crate) fn as_u64(v: &serde_json::Value) -> (r: Option<u64>)
    ensures
        r == val_model(*v).as_uint64(),
{
    v.as_u64()
}

/// Relies on serde_json::Value::as_f64: `Some` exactly on numbers, with
/// stored floats returned as stored and integers rounded to the nearest
/// binary64; the bit pattern is taken unchanged.
#[verifier::external_body]
pub(crate) fn as_binary64_bits(v: &serde_json::Value) -> (r: Option<u64>)
    ensures
        r == val_model(*v).as_binary64_bits(),
        val_model(*v) matches JsonVal::IntPos(u) ==> r == Some(binary64_of_int(u as int)),
        val_model(*v) matches JsonVal::IntNeg(i) ==> r == Some(binary64_of_int(i as int)),
{
    match v.as_f64() {
        Some(f) => Some(f.to_bits()),
        None => None,
    }
}

/// Relies on str's PartialEq: equality of the character sequences.
#[verifier::external_body]
pub(crate) fn str_eq(a: &str, b: &str) -> (r: bool)
    ensures
        r == (a@ == b@),
{
    a == b
}

} // verus!
