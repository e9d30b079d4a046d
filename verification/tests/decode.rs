use waytab::decode::decode;
use waytab::event::{DecodeError, PointerEventType, PointerType};

#[test]
fn decodes_full_sample() {
    let text = r#"{"event_type":"Down","pointer_kind":"Stylus","x":0.5,"y":0.25,"pressure":0.8,"tilt_x":10,"tilt_y":-5,"buttons":0,"timestamp":1000}"#;
    let msg = decode(text).unwrap();
    assert_eq!(msg.event_type, PointerEventType::Down);
    assert_eq!(msg.pointer_kind, PointerType::Stylus);
    assert_eq!(msg.x.bits, 0.5f64.to_bits());
    assert_eq!(msg.y.bits, 0.25f64.to_bits());
    assert_eq!(msg.pressure.bits, 0.8f64.to_bits());
    assert_eq!(msg.tilt_x, 10);
    assert_eq!(msg.tilt_y, -5);
    assert_eq!(msg.buttons.bits, 0);
    assert_eq!(msg.timestamp, 1000);
    assert_eq!(msg.pointer_id, 0);
    assert_eq!(msg.contact_major.bits, 0);
    assert_eq!(msg.contact_minor.bits, 0);
}

#[test]
fn decodes_optional_fields_when_present() {
    let text = r#"{"event_type":"Move","pointer_kind":"Eraser","x":0.1,"y":0.2,"pressure":0.3,"tilt_x":0,"tilt_y":0,"buttons":3,"timestamp":7,"pointer_id":-9,"contact_major":1.5,"contact_minor":0.5}"#;
    let msg = decode(text).unwrap();
    assert_eq!(msg.pointer_id, -9);
    assert_eq!(msg.contact_major.bits, 1.5f64.to_bits());
    assert_eq!(msg.contact_minor.bits, 0.5f64.to_bits());
    assert_eq!(msg.buttons.bits, 3);
    assert_eq!(msg.pointer_kind, PointerType::Eraser);
}

#[test]
fn decodes_every_tag() {
    let tags = [
        ("Down", PointerEventType::Down),
        ("Up", PointerEventType::Up),
        ("Cancel", PointerEventType::Cancel),
        ("Move", PointerEventType::Move),
        ("HoverMove", PointerEventType::Over),
        ("HoverEnter", PointerEventType::Enter),
        ("HoverLeave", PointerEventType::Leave),
        ("Out", PointerEventType::Out),
    ];
    for (tag, expect) in tags {
        let text = format!(
            r#"{{"event_type":"{}","pointer_kind":"Touch","x":0,"y":0,"pressure":0,"tilt_x":0,"tilt_y":0,"buttons":0,"timestamp":0}}"#,
            tag
        );
        assert_eq!(decode(&text).unwrap().event_type, expect);
    }
    let kinds = [
        ("Undetected", PointerType::NoDetect),
        ("Touch", PointerType::Touch),
        ("Stylus", PointerType::Stylus),
        ("Mouse", PointerType::Mouse),
        ("Eraser", PointerType::Eraser),
    ];
    for (tag, expect) in kinds {
        let text = format!(
            r#"{{"event_type":"Up","pointer_kind":"{}","x":0,"y":0,"pressure":0,"tilt_x":0,"tilt_y":0,"buttons":0,"timestamp":0}}"#,
            tag
        );
        assert_eq!(decode(&text).unwrap().pointer_kind, expect);
    }
}

#[test]
fn rejects_unknown_event_type_tag() {
    let text = r#"{"event_type":"Wiggle","pointer_kind":"Stylus","x":0,"y":0,"pressure":0,"tilt_x":0,"tilt_y":0,"buttons":0,"timestamp":0}"#;
    assert_eq!(decode(text), Err(DecodeError::UnknownEventType));
}

#[test]
fn rejects_unknown_pointer_kind_tag() {
    let text = r#"{"event_type":"Down","pointer_kind":"Gamepad","x":0,"y":0,"pressure":0,"tilt_x":0,"tilt_y":0,"buttons":0,"timestamp":0}"#;
    assert_eq!(decode(text), Err(DecodeError::UnknownPointerKind));
}

#[test]
fn rejects_malformed_json() {
    assert_eq!(decode("{not json"), Err(DecodeError::MalformedJson));
    assert_eq!(decode(""), Err(DecodeError::MalformedJson));
}

#[test]
fn rejects_non_object_documents() {
    assert_eq!(decode("[1,2,3]"), Err(DecodeError::NotAnObject));
    assert_eq!(decode("42"), Err(DecodeError::NotAnObject));
    assert_eq!(decode("\"Down\""), Err(DecodeError::NotAnObject));
}

#[test]
fn rejects_missing_required_field() {
    let text = r#"{"event_type":"Down","pointer_kind":"Stylus","x":0,"y":0,"pressure":0,"tilt_x":0,"tilt_y":0,"buttons":0}"#;
    assert_eq!(decode(text), Err(DecodeError::MissingField));
}

#[test]
fn rejects_mistyped_tags() {
    let text = r#"{"event_type":3,"pointer_kind":"Stylus","x":0,"y":0,"pressure":0,"tilt_x":0,"tilt_y":0,"buttons":0,"timestamp":0}"#;
    assert_eq!(decode(text), Err(DecodeError::InvalidField));
    let text = r#"{"event_type":"Down","pointer_kind":2,"x":0,"y":0,"pressure":0,"tilt_x":0,"tilt_y":0,"buttons":0,"timestamp":0}"#;
    assert_eq!(decode(text), Err(DecodeError::InvalidField));
}

#[test]
fn truncates_unrecognized_button_bits() {
    let text = r#"{"event_type":"Down","pointer_kind":"Stylus","x":0,"y":0,"pressure":0,"tilt_x":0,"tilt_y":0,"buttons":255,"timestamp":0}"#;
    let msg = decode(text).unwrap();
    assert_eq!(msg.buttons.bits, 0x7F);
    let text = r#"{"event_type":"Down","pointer_kind":"Stylus","x":0,"y":0,"pressure":0,"tilt_x":0,"tilt_y":0,"buttons":160,"timestamp":0}"#;
    let msg = decode(text).unwrap();
    assert_eq!(msg.buttons.bits, 0x20);
}

#[test]
fn rejects_buttons_outside_byte_range() {
    let text = r#"{"event_type":"Down","pointer_kind":"Stylus","x":0,"y":0,"pressure":0,"tilt_x":0,"tilt_y":0,"buttons":256,"timestamp":0}"#;
    assert_eq!(decode(text), Err(DecodeError::InvalidField));
    let text = r#"{"event_type":"Down","pointer_kind":"Stylus","x":0,"y":0,"pressure":0,"tilt_x":0,"tilt_y":0,"buttons":-1,"timestamp":0}"#;
    assert_eq!(decode(text), Err(DecodeError::InvalidField));
    let text = r#"{"event_type":"Down","pointer_kind":"Stylus","x":0,"y":0,"pressure":0,"tilt_x":0,"tilt_y":0,"buttons":1.5,"timestamp":0}"#;
    assert_eq!(decode(text), Err(DecodeError::InvalidField));
}

#[test]
fn rejects_invalid_numeric_fields() {
    let text = r#"{"event_type":"Down","pointer_kind":"Stylus","x":0,"y":0,"pressure":0,"tilt_x":0,"tilt_y":0,"buttons":0,"timestamp":-5}"#;
    assert_eq!(decode(text), Err(DecodeError::InvalidField));
    let text = r#"{"event_type":"Down","pointer_kind":"Stylus","x":0,"y":0,"pressure":0,"tilt_x":3000000000,"tilt_y":0,"buttons":0,"timestamp":0}"#;
    assert_eq!(decode(text), Err(DecodeError::InvalidField));
    let text = r#"{"event_type":"Down","pointer_kind":"Stylus","x":"wide","y":0,"pressure":0,"tilt_x":0,"tilt_y":0,"buttons":0,"timestamp":0}"#;
    assert_eq!(decode(text), Err(DecodeError::InvalidField));
}

#[test]
fn accepts_integer_written_scalars() {
    let text = r#"{"event_type":"Down","pointer_kind":"Stylus","x":1,"y":0,"pressure":0,"tilt_x":0,"tilt_y":0,"buttons":0,"timestamp":0}"#;
    let msg = decode(text).unwrap();
    assert_eq!(msg.x.bits, 1.0f64.to_bits());
    assert_eq!(msg.y.bits, 0.0f64.to_bits());
}

#[test]
fn ignores_unknown_fields() {
    let text = r#"{"event_type":"Down","pointer_kind":"Stylus","x":0,"y":0,"pressure":0,"tilt_x":0,"tilt_y":0,"buttons":0,"timestamp":0,"battery":97}"#;
    assert!(decode(text).is_ok());
}
