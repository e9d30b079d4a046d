//! The verified wire decoder: JSON text in, a pointer event message or a
//! `DecodeError` out.
//!
//! The wire shape is one JSON object per sample, with `event_type` and
//! `pointer_kind` as string tags, `buttons` as a byte whose unrecognized
//! bits are dropped, and the normalized scalars as numbers. Unknown enum
//! tags are rejected, never defaulted; unknown button bits are truncated,
//! never rejected. The fields the translator consumes are required; the
//! carried-only fields (`pointer_id` and the contact ellipse pair) default
//! to zero when absent. Fields are validated in declaration order and the
//! first failure decides the error.

use vstd::prelude::*;

use crate::event::{
    ButtonActions, DecodeError, Norm, PointerEventMessage, PointerEventType, PointerType,
};
use crate::json::{
    as_binary64_bits, as_i64, as_object, as_str, as_u64, get_field, json_doc, obj_model,
    parse_value, str_eq, JsonVal,
};

verus! {

/// The field stored under `name`, or the error every absent required
/// field gives.
pub open spec fn spec_field(fields: Map<Seq<char>, JsonVal>, name: Seq<char>) -> Result<
    JsonVal,
    DecodeError,
> {
    if fields.contains_key(name) {
        Ok(fields[name])
    } else {
        Err(DecodeError::MissingField)
    }
}

/// What an `event_type` tag decodes to: one known string tag per phase,
/// anything else rejected.
pub open spec fn spec_event_type(v: JsonVal) -> Result<PointerEventType, DecodeError> {
    match v {
        JsonVal::Str(s) => if s == "Down"@ {
            Ok(PointerEventType::Down)
        } else if s == "Up"@ {
            Ok(PointerEventType::Up)
        } else if s == "Cancel"@ {
            Ok(PointerEventType::Cancel)
        } else if s == "Move"@ {
            Ok(PointerEventType::Move)
        } else if s == "HoverMove"@ {
            Ok(PointerEventType::Over)
        } else if s == "HoverEnter"@ {
            Ok(PointerEventType::Enter)
        } else if s == "HoverLeave"@ {
            Ok(PointerEventType::Leave)
        } else if s == "Out"@ {
            Ok(PointerEventType::Out)
        } else {
            Err(DecodeError::UnknownEventType)
        },
        _ => Err(DecodeError::InvalidField),
    }
}

/// What a `pointer_kind` tag decodes to: one known string tag per device,
/// anything else rejected.
pub open spec fn spec_pointer_kind(v: JsonVal) -> Result<PointerType, DecodeError> {
    match v {
        JsonVal::Str(s) => if s == "Undetected"@ {
            Ok(PointerType::NoDetect)
        } else if s == "Touch"@ {
            Ok(PointerType::Touch)
        } else if s == "Stylus"@ {
            Ok(PointerType::Stylus)
        } else if s == "Mouse"@ {
            Ok(PointerType::Mouse)
        } else if s == "Eraser"@ {
            Ok(PointerType::Eraser)
        } else {
            Err(DecodeError::UnknownPointerKind)
        },
        _ => Err(DecodeError::InvalidField),
    }
}

/// What a `buttons` byte decodes to: the recognized bits of any value
/// `0..=255`; anything that is not such a value is malformed.
pub open spec fn spec_buttons(v: JsonVal) -> Result<ButtonActions, DecodeError> {
    match v.as_uint64() {
        Some(u) => if u <= 255 {
            Ok(ButtonActions::spec_truncate(u as u8))
        } else {
            Err(DecodeError::InvalidField)
        },
        None => Err(DecodeError::InvalidField),
    }
}

/// A signed 64-bit integer field value.
pub open spec fn spec_i64(v: JsonVal) -> Result<i64, DecodeError> {
    match v.as_int64() {
        Some(i) => Ok(i),
        None => Err(DecodeError::InvalidField),
    }
}

/// An unsigned 64-bit integer field value.
pub open spec fn spec_u64(v: JsonVal) -> Result<u64, DecodeError> {
    match v.as_uint64() {
        Some(u) => Ok(u),
        None => Err(DecodeError::InvalidField),
    }
}

/// A signed 32-bit integer field value.
pub open spec fn spec_i32(v: JsonVal) -> Result<i32, DecodeError> {
    match v.as_int64() {
        Some(i) => if i32::MIN <= i <= i32::MAX {
            Ok(i as i32)
        } else {
            Err(DecodeError::InvalidField)
        },
        None => Err(DecodeError::InvalidField),
    }
}

/// A normalized scalar field value: any number, kept as the binary64
/// pattern it parsed to.
pub open spec fn spec_norm(v: JsonVal) -> Result<Norm, DecodeError> {
    match v.as_binary64_bits() {
        Some(b) => Ok(Norm { bits: b }),
        None => Err(DecodeError::InvalidField),
    }
}

/// The `event_type` field of an object.
pub open spec fn spec_event_type_field(fields: Map<Seq<char>, JsonVal>) -> Result<
    PointerEventType,
    DecodeError,
> {
    match spec_field(fields, "event_type"@) {
        Ok(v) => spec_event_type(v),
        Err(e) => Err(e),
    }
}

/// The `pointer_kind` field of an object.
pub open spec fn spec_pointer_kind_field(fields: Map<Seq<char>, JsonVal>) -> Result<
    PointerType,
    DecodeError,
> {
    match spec_field(fields, "pointer_kind"@) {
        Ok(v) => spec_pointer_kind(v),
        Err(e) => Err(e),
    }
}

/// The `buttons` field of an object.
pub open spec fn spec_buttons_field(fields: Map<Seq<char>, JsonVal>) -> Result<
    ButtonActions,
    DecodeError,
> {
    match spec_field(fields, "buttons"@) {
        Ok(v) => spec_buttons(v),
        Err(e) => Err(e),
    }
}

/// A named optional signed 64-bit integer field: zero when absent.
pub open spec fn spec_opt_i64_field(fields: Map<Seq<char>, JsonVal>, name: Seq<char>) -> Result<
    i64,
    DecodeError,
> {
    if fields.contains_key(name) {
        spec_i64(fields[name])
    } else {
        Ok(0)
    }
}

/// A named required unsigned 64-bit integer field.
pub open spec fn spec_u64_field(fields: Map<Seq<char>, JsonVal>, name: Seq<char>) -> Result<
    u64,
    DecodeError,
> {
    match spec_field(fields, name) {
        Ok(v) => spec_u64(v),
        Err(e) => Err(e),
    }
}

/// A named required signed 32-bit integer field.
pub open spec fn spec_i32_field(fields: Map<Seq<char>, JsonVal>, name: Seq<char>) -> Result<
    i32,
    DecodeError,
> {
    match spec_field(fields, name) {
        Ok(v) => spec_i32(v),
        Err(e) => Err(e),
    }
}

/// A named required normalized scalar field.
pub open spec fn spec_norm_field(fields: Map<Seq<char>, JsonVal>, name: Seq<char>) -> Result<
    Norm,
    DecodeError,
> {
    match spec_field(fields, name) {
        Ok(v) => spec_norm(v),
        Err(e) => Err(e),
    }
}

/// A named optional normalized scalar field: zero when absent.
pub open spec fn spec_opt_norm_field(fields: Map<Seq<char>, JsonVal>, name: Seq<char>) -> Result<
    Norm,
    DecodeError,
> {
    if fields.contains_key(name) {
        spec_norm(fields[name])
    } else {
        Ok(Norm { bits: 0 })
    }
}

/// What a parsed object decodes to: fields validated in declaration
/// order, the first failure deciding the error.
pub open spec fn spec_decode_obj(fields: Map<Seq<char>, JsonVal>) -> Result<
    PointerEventMessage,
    DecodeError,
> {
    if spec_event_type_field(fields) is Err {
        Err(spec_event_type_field(fields)->Err_0)
    } else if spec_opt_i64_field(fields, "pointer_id"@) is Err {
        Err(spec_opt_i64_field(fields, "pointer_id"@)->Err_0)
    } else if spec_u64_field(fields, "timestamp"@) is Err {
        Err(spec_u64_field(fields, "timestamp"@)->Err_0)
    } else if spec_pointer_kind_field(fields) is Err {
        Err(spec_pointer_kind_field(fields)->Err_0)
    } else if spec_buttons_field(fields) is Err {
        Err(spec_buttons_field(fields)->Err_0)
    } else if spec_norm_field(fields, "x"@) is Err {
        Err(spec_norm_field(fields, "x"@)->Err_0)
    } else if spec_norm_field(fields, "y"@) is Err {
        Err(spec_norm_field(fields, "y"@)->Err_0)
    } else if spec_norm_field(fields, "pressure"@) is Err {
        Err(spec_norm_field(fields, "pressure"@)->Err_0)
    } else if spec_i32_field(fields, "tilt_x"@) is Err {
        Err(spec_i32_field(fields, "tilt_x"@)->Err_0)
    } else if spec_i32_field(fields, "tilt_y"@) is Err {
        Err(spec_i32_field(fields, "tilt_y"@)->Err_0)
    } else if spec_opt_norm_field(fields, "contact_major"@) is Err {
        Err(spec_opt_norm_field(fields, "contact_major"@)->Err_0)
    } else if spec_opt_norm_field(fields, "contact_minor"@) is Err {
        Err(spec_opt_norm_field(fields, "contact_minor"@)->Err_0)
    } else {
        Ok(
            PointerEventMessage {
                event_type: spec_event_type_field(fields)->Ok_0,
                pointer_id: spec_opt_i64_field(fields, "pointer_id"@)->Ok_0,
                timestamp: spec_u64_field(fields, "timestamp"@)->Ok_0,
                pointer_kind: spec_pointer_kind_field(fields)->Ok_0,
                buttons: spec_buttons_field(fields)->Ok_0,
                x: spec_norm_field(fields, "x"@)->Ok_0,
                y: spec_norm_field(fields, "y"@)->Ok_0,
                pressure: spec_norm_field(fields, "pressure"@)->Ok_0,
                tilt_x: spec_i32_field(fields, "tilt_x"@)->Ok_0,
                tilt_y: spec_i32_field(fields, "tilt_y"@)->Ok_0,
                contact_major: spec_opt_norm_field(fields, "contact_major"@)->Ok_0,
                contact_minor: spec_opt_norm_field(fields, "contact_minor"@)->Ok_0,
            },
        )
    }
}

/// What a parsed document decodes to: an object is decoded field by
/// field; any other document is rejected.
pub open spec fn spec_decode(doc: JsonVal) -> Result<PointerEventMessage, DecodeError> {
    match doc {
        JsonVal::Obj(fields) => spec_decode_obj(fields),
        _ => Err(DecodeError::NotAnObject),
    }
}

/// Reads the `event_type` tag of a parsed object.
fn event_type_field(m: &serde_json::Map<String, serde_json::Value>) -> (r: Result<
    PointerEventType,
    DecodeError,
>)
    ensures
        r == spec_event_type_field(obj_model(*m)),
{
    match get_field(m, "event_type") {
        None => Err(DecodeError::MissingField),
        Some(v) => match as_str(v) {
            None => Err(DecodeError::InvalidField),
            Some(s) => {
                if str_eq(s, "Down") {
                    Ok(PointerEventType::Down)
                } else if str_eq(s, "Up") {
                    Ok(PointerEventType::Up)
                } else if str_eq(s, "Cancel") {
                    Ok(PointerEventType::Cancel)
                } else if str_eq(s, "Move") {
                    Ok(PointerEventType::Move)
                } else if str_eq(s, "HoverMove") {
                    Ok(PointerEventType::Over)
                } else if str_eq(s, "HoverEnter") {
                    Ok(PointerEventType::Enter)
                } else if str_eq(s, "HoverLeave") {
                    Ok(PointerEventType::Leave)
                } else if str_eq(s, "Out") {
                    Ok(PointerEventType::Out)
                } else {
                    Err(DecodeError::UnknownEventType)
                }
            },
        },
    }
}

/// Reads the `pointer_kind` tag of a parsed object.
fn pointer_kind_field(m: &serde_json::Map<String, serde_json::Value>) -> (r: Result<
    PointerType,
    DecodeError,
>)
    ensures
        r == spec_pointer_kind_field(obj_model(*m)),
{
    match get_field(m, "pointer_kind") {
        None => Err(DecodeError::MissingField),
        Some(v) => match as_str(v) {
            None => Err(DecodeError::InvalidField),
            Some(s) => {
                if str_eq(s, "Undetected") {
                    Ok(PointerType::NoDetect)
                } else if str_eq(s, "Touch") {
                    Ok(PointerType::Touch)
                } else if str_eq(s, "Stylus") {
                    Ok(PointerType::Stylus)
                } else if str_eq(s, "Mouse") {
                    Ok(PointerType::Mouse)
                } else if str_eq(s, "Eraser") {
                    Ok(PointerType::Eraser)
                } else {
                    Err(DecodeError::UnknownPointerKind)
                }
            },
        },
    }
}

/// Reads the `buttons` byte of a parsed object, truncating unrecognized
/// bits.
fn buttons_field(m: &serde_json::Map<String, serde_json::Value>) -> (r: Result<
    ButtonActions,
    DecodeError,
>)
    ensures
        r == spec_buttons_field(obj_model(*m)),
{
    match get_field(m, "buttons") {
        None => Err(DecodeError::MissingField),
        Some(v) => match as_u64(v) {
            None => Err(DecodeError::InvalidField),
            Some(u) => {
                if u <= 255 {
                    Ok(ButtonActions::from_bits_truncate(u as u8))
                } else {
                    Err(DecodeError::InvalidField)
                }
            },
        },
    }
}

/// Reads a named optional signed 64-bit integer field, zero when absent.
fn opt_i64_field(m: &serde_json::Map<String, serde_json::Value>, key: &str) -> (r: Result<
    i64,
    DecodeError,
>)
    ensures
        r == spec_opt_i64_field(obj_model(*m), key@),
{
    match get_field(m, key) {
        None => Ok(0),
        Some(v) => match as_i64(v) {
            Some(i) => Ok(i),
            None => Err(DecodeError::InvalidField),
        },
    }
}

/// Reads a named required unsigned 64-bit integer field.
fn u64_field(m: &serde_json::Map<String, serde_json::Value>, key: &str) -> (r: Result<
    u64,
    DecodeError,
>)
    ensures
        r == spec_u64_field(obj_model(*m), key@),
{
    match get_field(m, key) {
        None => Err(DecodeError::MissingField),
        Some(v) => match as_u64(v) {
            Some(u) => Ok(u),
            None => Err(DecodeError::InvalidField),
        },
    }
}

/// Reads a named required signed 32-bit integer field.
fn i32_field(m: &serde_json::Map<String, serde_json::Value>, key: &str) -> (r: Result<
    i32,
    DecodeError,
>)
    ensures
        r == spec_i32_field(obj_model(*m), key@),
{
    match get_field(m, key) {
        None => Err(DecodeError::MissingField),
        Some(v) => match as_i64(v) {
            None => Err(DecodeError::InvalidField),
            Some(i) => {
                if i32::MIN as i64 <= i && i <= i32::MAX as i64 {
                    Ok(i as i32)
                } else {
                    Err(DecodeError::InvalidField)
                }
            },
        },
    }
}

/// Reads a named required normalized scalar field.
fn norm_field(m: &serde_json::Map<String, serde_json::Value>, key: &str) -> (r: Result<
    Norm,
    DecodeError,
>)
    ensures
        r == spec_norm_field(obj_model(*m), key@),
{
    match get_field(m, key) {
        None => Err(DecodeError::MissingField),
        Some(v) => match as_binary64_bits(v) {
            Some(b) => Ok(Norm { bits: b }),
            None => Err(DecodeError::InvalidField),
        },
    }
}

/// Reads a named optional normalized scalar field, zero when absent.
fn opt_norm_field(m: &serde_json::Map<String, serde_json::Value>, key: &str) -> (r: Result<
    Norm,
    DecodeError,
>)
    ensures
        r == spec_opt_norm_field(obj_model(*m), key@),
{
    match get_field(m, key) {
        None => Ok(Norm { bits: 0 }),
        Some(v) => match as_binary64_bits(v) {
            Some(b) => Ok(Norm { bits: b }),
            None => Err(DecodeError::InvalidField),
        },
    }
}

/// Decodes one wire frame. Total over all texts: well-formed JSON objects
/// whose fields are valid decode to the message the field values
/// determine; everything else yields the `DecodeError` of the first
/// failure.
pub fn decode(text: &str) -> (r: Result<PointerEventMessage, DecodeError>)
    ensures
        json_doc(text@) matches Some(doc) ==> r == spec_decode(doc),
        json_doc(text@) is None ==> r is Err && r->Err_0 == DecodeError::MalformedJson,
{
    let parsed = match parse_value(text) {
        Ok(v) => v,
        Err(e) => {
            return Err(e);
        },
    };
    let m = match as_object(&parsed) {
        Some(m) => m,
        None => {
            return Err(DecodeError::NotAnObject);
        },
    };
    let event_type = match event_type_field(m) {
        Ok(v) => v,
        Err(e) => {
            return Err(e);
        },
    };
    let pointer_id = match opt_i64_field(m, "pointer_id") {
        Ok(v) => v,
        Err(e) => {
            return Err(e);
        },
    };
    let timestamp = match u64_field(m, "timestamp") {
        Ok(v) => v,
        Err(e) => {
            return Err(e);
        },
    };
    let pointer_kind = match pointer_kind_field(m) {
        Ok(v) => v,
        Err(e) => {
            return Err(e);
        },
    };
    let buttons = match buttons_field(m) {
        Ok(v) => v,
        Err(e) => {
            return Err(e);
        },
    };
    let x = match norm_field(m, "x") {
        Ok(v) => v,
        Err(e) => {
            return Err(e);
        },
    };
    let y = match norm_field(m, "y") {
        Ok(v) => v,
        Err(e) => {
            return Err(e);
        },
    };
    let pressure = match norm_field(m, "pressure") {
        Ok(v) => v,
        Err(e) => {
            return Err(e);
        },
    };
    let tilt_x = match i32_field(m, "tilt_x") {
        Ok(v) => v,
        Err(e) => {
            return Err(e);
        },
    };
    let tilt_y = match i32_field(m, "tilt_y") {
        Ok(v) => v,
        Err(e) => {
            return Err(e);
        },
    };
    let contact_major = match opt_norm_field(m, "contact_major") {
        Ok(v) => v,
        Err(e) => {
            return Err(e);
        },
    };
    let contact_minor = match opt_norm_field(m, "contact_minor") {
        Ok(v) => v,
        Err(e) => {
            return Err(e);
        },
    };
    Ok(
        PointerEventMessage {
            event_type,
            pointer_id,
            timestamp,
            pointer_kind,
            buttons,
            x,
            y,
            pressure,
            tilt_x,
            tilt_y,
            contact_major,
            contact_minor,
        },
    )
}

/// Law: button decode is permissive. Every byte decodes successfully,
/// whatever unrecognized high bit is set, and the decoded set exposes
/// exactly the recognized bits.
pub proof fn lemma_buttons_permissive(raw: u8)
    ensures
        spec_buttons(JsonVal::IntPos(raw as u64)) == Ok::<ButtonActions, DecodeError>(
            ButtonActions { bits: raw & 0x7F },
        ),
{
}

/// Law: unrecognized tags fail decode rather than silently mapping to a
/// default variant: an `event_type` or `pointer_kind` string outside the
/// known tag sets decodes to its tag error, never to a message.
pub proof fn lemma_unknown_tags_rejected(s: Seq<char>)
    ensures
        s != "Down"@ && s != "Up"@ && s != "Cancel"@ && s != "Move"@ && s != "HoverMove"@ && s
            != "HoverEnter"@ && s != "HoverLeave"@ && s != "Out"@ ==> spec_event_type(
            JsonVal::Str(s),
        ) == Err::<PointerEventType, DecodeError>(DecodeError::UnknownEventType),
        s != "Undetected"@ && s != "Touch"@ && s != "Stylus"@ && s != "Mouse"@ && s != "Eraser"@
            ==> spec_pointer_kind(JsonVal::Str(s)) == Err::<PointerType, DecodeError>(
            DecodeError::UnknownPointerKind,
        ),
{
}

} // verus!
