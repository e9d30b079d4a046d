use tokio::sync::broadcast;
use tokio::sync::broadcast::error::TryRecvError;
use waytab::channel::{consume_step, publish_frame, ConsumerAction, PublishOutcome, RecvOutcome,
    CHANNEL_CAPACITY};
use waytab::decode::decode;
use waytab::event::{DecodeError, PointerEventMessage};
use waytab::translate::{translate, AXIS_MAX};

fn frame_text(timestamp: u64) -> String {
    format!(
        r#"{{"event_type":"Move","pointer_kind":"Stylus","x":0.5,"y":0.5,"pressure":0.5,"tilt_x":0,"tilt_y":0,"buttons":0,"timestamp":{}}}"#,
        timestamp
    )
}

#[test]
fn back_pressure_drops_oldest_and_reports_lag() {
    let (tx, mut rx) = broadcast::channel::<PointerEventMessage>(CHANNEL_CAPACITY);
    for i in 0..100u64 {
        let out = publish_frame(&tx, &frame_text(i)).unwrap();
        assert_eq!(out, PublishOutcome::Delivered(1));
    }
    match rx.try_recv() {
        Err(TryRecvError::Lagged(n)) => assert_eq!(n, 36),
        other => panic!("expected a lag notice, got {:?}", other),
    }
    let mut seen = Vec::new();
    loop {
        match rx.try_recv() {
            Ok(msg) => seen.push(msg.timestamp),
            Err(TryRecvError::Empty) => break,
            other => panic!("expected a message or empty, got {:?}", other),
        }
    }
    let expected: Vec<u64> = (36..100).collect();
    assert_eq!(seen, expected);
}

#[test]
fn publishing_without_a_consumer_discards_silently() {
    let (tx, rx) = broadcast::channel::<PointerEventMessage>(CHANNEL_CAPACITY);
    drop(rx);
    let out = publish_frame(&tx, &frame_text(1)).unwrap();
    assert_eq!(out, PublishOutcome::NoReceivers);
}

#[test]
fn bad_frames_publish_nothing() {
    let (tx, mut rx) = broadcast::channel::<PointerEventMessage>(CHANNEL_CAPACITY);
    assert_eq!(
        publish_frame(&tx, "{oops"),
        Err(DecodeError::MalformedJson)
    );
    assert_eq!(
        publish_frame(&tx, r#"{"event_type":"Warp","pointer_kind":"Stylus","x":0,"y":0,"pressure":0,"tilt_x":0,"tilt_y":0,"buttons":0,"timestamp":0}"#),
        Err(DecodeError::UnknownEventType)
    );
    assert!(matches!(rx.try_recv(), Err(TryRecvError::Empty)));
}

#[test]
fn published_frames_arrive_decoded_and_in_order() {
    let (tx, mut rx) = broadcast::channel::<PointerEventMessage>(CHANNEL_CAPACITY);
    publish_frame(&tx, &frame_text(1)).unwrap();
    publish_frame(&tx, &frame_text(2)).unwrap();
    let first = rx.try_recv().unwrap();
    let second = rx.try_recv().unwrap();
    assert_eq!(first, decode(&frame_text(1)).unwrap());
    assert_eq!(second, decode(&frame_text(2)).unwrap());
}

#[test]
fn consume_step_emits_the_translated_frame() {
    let msg = decode(&frame_text(44)).unwrap();
    match consume_step(&RecvOutcome::Received(msg), AXIS_MAX) {
        ConsumerAction::Emit(frame) => assert_eq!(frame, translate(&msg, AXIS_MAX)),
        _ => panic!("expected a frame to emit"),
    }
}

#[test]
fn consume_step_skips_past_lag_and_stops_on_close() {
    match consume_step(&RecvOutcome::Lagged(36), AXIS_MAX) {
        ConsumerAction::Skip(n) => assert_eq!(n, 36),
        _ => panic!("a lag notice must not stop the translator"),
    }
    assert!(matches!(
        consume_step(&RecvOutcome::Closed, AXIS_MAX),
        ConsumerAction::Stop
    ));
}
