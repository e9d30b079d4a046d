//! The event translator: one decoded message in, one ordered frame of
//! low-level device events out.
//!
//! `Stylus` and `Eraser` samples take the pen path; `Mouse`, `Touch` and
//! `NoDetect` are recognized but intentionally unhandled and produce no
//! device events. The tool-press key is edge-triggered: it is asserted only
//! when a contact or hover begins (`Down` or `Enter`), not re-asserted on
//! every active sample, so the device sees no redundant key events.

use vstd::prelude::*;

use crate::event::{
    PointerEventMessage, PointerEventType, PointerType, BUTTON_STYLUS_PRIMARY,
    BUTTON_STYLUS_SECONDARY,
};
use crate::scale::scale_spec;

verus! {

/// Event type: synchronization marker.
pub const EV_SYN: u16 = 0x00;
/// Event type: key or button state.
pub const EV_KEY: u16 = 0x01;
/// Event type: absolute axis value.
pub const EV_ABS: u16 = 0x03;
/// Event type: miscellaneous datum.
pub const EV_MSC: u16 = 0x04;
/// Synchronization code: commits the frame atomically.
pub const SYN_REPORT: u16 = 0x00;
/// Absolute axis: horizontal position.
pub const ABS_X: u16 = 0x00;
/// Absolute axis: vertical position.
pub const ABS_Y: u16 = 0x01;
/// Absolute axis: contact pressure.
pub const ABS_PRESSURE: u16 = 0x18;
/// Absolute axis: tilt around the horizontal axis.
pub const ABS_TILT_X: u16 = 0x1a;
/// Absolute axis: tilt around the vertical axis.
pub const ABS_TILT_Y: u16 = 0x1b;
/// Miscellaneous code: sender timestamp marker.
pub const MSC_TIMESTAMP: u16 = 0x05;
/// Key code: the pen tip tool.
pub const BTN_TOOL_PEN: u16 = 0x140;
/// Key code: the eraser tool.
pub const BTN_TOOL_RUBBER: u16 = 0x141;
/// Key code: the first stylus side button.
pub const BTN_STYLUS: u16 = 0x14b;
/// Key code: the second stylus side button.
pub const BTN_STYLUS2: u16 = 0x14c;
/// The axis maximum the virtual device is created with, shared by the
/// position and pressure axes.
pub const AXIS_MAX: u32 = 32767;

/// One raw low-level event as the virtual device sink consumes it.
#[derive(Clone, Copy, Debug, PartialEq, Eq, Structural)]
pub struct InputEvent {
    /// The event type (`EV_*`).
    pub ev_type: u16,
    /// The code within the type (`ABS_*`, `BTN_*`, ...).
    pub code: u16,
    /// The event value: axis position, key state, or timestamp.
    pub value: i32,
}

/// Whether a pointer kind routes to the pen path.
pub open spec fn is_pen(pt: PointerType) -> bool {
    pt is Stylus || pt is Eraser
}

/// The tool key a pen-path sample selects: the eraser end or the pen tip.
pub open spec fn tool_code(pt: PointerType) -> u16 {
    if pt is Eraser {
        BTN_TOOL_RUBBER
    } else {
        BTN_TOOL_PEN
    }
}

/// The tool-press events of a frame: one key press when a contact or
/// hover begins, nothing otherwise.
pub open spec fn tool_press_events(msg: PointerEventMessage) -> Seq<InputEvent> {
    if msg.event_type is Down || msg.event_type is Enter {
        seq![InputEvent { ev_type: EV_KEY, code: tool_code(msg.pointer_kind), value: 1 }]
    } else {
        Seq::empty()
    }
}

/// The axis events of an active-phase frame, in emission order: absolute
/// position, pressure, then the tilt pair passed through unscaled.
pub open spec fn motion_events(msg: PointerEventMessage, axis_max: u32) -> Seq<InputEvent> {
    seq![
        InputEvent { ev_type: EV_ABS, code: ABS_X, value: scale_spec(msg.x.bits, axis_max) },
        InputEvent { ev_type: EV_ABS, code: ABS_Y, value: scale_spec(msg.y.bits, axis_max) },
        InputEvent {
            ev_type: EV_ABS,
            code: ABS_PRESSURE,
            value: scale_spec(msg.pressure.bits, axis_max),
        },
        InputEvent { ev_type: EV_ABS, code: ABS_TILT_X, value: msg.tilt_x },
        InputEvent { ev_type: EV_ABS, code: ABS_TILT_Y, value: msg.tilt_y },
    ]
}

/// The single event of an end-phase frame: pressure released to zero,
/// the last known position left standing.
pub open spec fn end_events() -> Seq<InputEvent> {
    seq![InputEvent { ev_type: EV_ABS, code: ABS_PRESSURE, value: 0 }]
}

/// The phase-dependent middle of a frame.
pub open spec fn phase_events(msg: PointerEventMessage, axis_max: u32) -> Seq<InputEvent> {
    if msg.event_type.is_active_phase() {
        motion_events(msg, axis_max)
    } else {
        end_events()
    }
}

/// The side-button events of a frame: the current level of each stylus
/// side button, emitted on every frame (level-triggered, safe to repeat).
pub open spec fn button_events(msg: PointerEventMessage) -> Seq<InputEvent> {
    seq![
        InputEvent {
            ev_type: EV_KEY,
            code: BTN_STYLUS,
            value: if msg.buttons.spec_contains(BUTTON_STYLUS_PRIMARY) { 1int } else { 0int } as i32,
        },
        InputEvent {
            ev_type: EV_KEY,
            code: BTN_STYLUS2,
            value: if msg.buttons.spec_contains(BUTTON_STYLUS_SECONDARY) { 1int } else { 0int } as i32,
        },
    ]
}

/// The frame close: the sender timestamp folded modulo `2^31`, then the
/// mandatory synchronization event that commits the frame.
pub open spec fn frame_close_events(msg: PointerEventMessage) -> Seq<InputEvent> {
    seq![
        InputEvent {
            ev_type: EV_MSC,
            code: MSC_TIMESTAMP,
            value: (msg.timestamp % 0x8000_0000) as i32,
        },
        InputEvent { ev_type: EV_SYN, code: SYN_REPORT, value: 1 },
    ]
}

/// The whole frame one message translates to: empty off the pen path;
/// on it, tool press, phase events, side buttons, and the frame close,
/// strictly in that order.
pub open spec fn translate_spec(msg: PointerEventMessage, axis_max: u32) -> Seq<InputEvent> {
    if is_pen(msg.pointer_kind) {
        tool_press_events(msg) + phase_events(msg, axis_max) + button_events(msg)
            + frame_close_events(msg)
    } else {
        Seq::empty()
    }
}

/// Law: for every pen-path sample, whatever its phase, the emitted frame
/// closes with exactly one synchronization event, and exactly one
/// timestamp event immediately precedes it.
pub proof fn lemma_frame_close(msg: PointerEventMessage, axis_max: u32)
    requires
        is_pen(msg.pointer_kind),
    ensures
        ({
            let evs = translate_spec(msg, axis_max);
            &&& evs.len() >= 2
            &&& evs[evs.len() - 1] == (InputEvent { ev_type: EV_SYN, code: SYN_REPORT, value: 1 })
            &&& evs[evs.len() - 2] == (InputEvent {
                ev_type: EV_MSC,
                code: MSC_TIMESTAMP,
                value: (msg.timestamp % 0x8000_0000) as i32,
            })
            &&& forall|i: int|
                0 <= i < evs.len() - 1 ==> (#[trigger] evs[i]).ev_type != EV_SYN
            &&& forall|i: int|
                0 <= i < evs.len() - 2 ==> (#[trigger] evs[i]).ev_type != EV_MSC
        }),
{
    let evs = translate_spec(msg, axis_max);
    assert(evs =~= tool_press_events(msg) + phase_events(msg, axis_max) + button_events(msg)
        + frame_close_events(msg));
}

/// Law: an end-phase pen sample (`Up`, `Cancel`, `Leave`, `Out`) releases
/// pressure to exactly zero and emits no position events.
pub proof fn lemma_end_phase_release(msg: PointerEventMessage, axis_max: u32)
    requires
        is_pen(msg.pointer_kind),
        msg.event_type.is_end_phase(),
    ensures
        ({
            let evs = translate_spec(msg, axis_max);
            &&& exists|i: int|
                0 <= i < evs.len() && #[trigger] evs[i] == (InputEvent {
                    ev_type: EV_ABS,
                    code: ABS_PRESSURE,
                    value: 0,
                })
            &&& forall|i: int|
                0 <= i < evs.len() && (#[trigger] evs[i]).ev_type == EV_ABS && evs[i].code
                    == ABS_PRESSURE ==> evs[i].value == 0
            &&& forall|i: int|
                0 <= i < evs.len() && (#[trigger] evs[i]).ev_type == EV_ABS ==> evs[i].code
                    != ABS_X && evs[i].code != ABS_Y
        }),
{
    let evs = translate_spec(msg, axis_max);
    assert(!msg.event_type.is_active_phase());
    assert(evs[0] == (InputEvent { ev_type: EV_ABS, code: ABS_PRESSURE, value: 0 }));
}

/// Reduces a sender timestamp (monotonic milliseconds) modulo `2^31` so it
/// fits the device's signed 32-bit timestamp field.
pub fn fold_timestamp(ts: u64) -> (r: i32)
    ensures
        r == ts as int % 0x8000_0000,
        0 <= r < 0x8000_0000,
{
    (ts % 0x8000_0000) as i32
}

/// Translates one decoded message into its ordered frame of low-level
/// events for a device whose axes run from 0 to `axis_max`.
pub fn translate(msg: &PointerEventMessage, axis_max: u32) -> (r: Vec<InputEvent>)
    ensures
        r@ == translate_spec(*msg, axis_max),
{
    let mut out: Vec<InputEvent> = Vec::new();
    match msg.pointer_kind {
        PointerType::Stylus | PointerType::Eraser => {
            match msg.event_type {
                PointerEventType::Down | PointerEventType::Enter => {
                    let code = if matches!(msg.pointer_kind, PointerType::Eraser) {
                        BTN_TOOL_RUBBER
                    } else {
                        BTN_TOOL_PEN
                    };
                    out.push(InputEvent { ev_type: EV_KEY, code, value: 1 });
                },
                _ => {},
            }
            match msg.event_type {
                PointerEventType::Down
                | PointerEventType::Move
                | PointerEventType::Over
                | PointerEventType::Enter => {
                    out.push(InputEvent {
                        ev_type: EV_ABS,
                        code: ABS_X,
                        value: msg.x.scale(axis_max),
                    });
                    out.push(InputEvent {
                        ev_type: EV_ABS,
                        code: ABS_Y,
                        value: msg.y.scale(axis_max),
                    });
                    out.push(InputEvent {
                        ev_type: EV_ABS,
                        code: ABS_PRESSURE,
                        value: msg.pressure.scale(axis_max),
                    });
                    out.push(InputEvent { ev_type: EV_ABS, code: ABS_TILT_X, value: msg.tilt_x });
                    out.push(InputEvent { ev_type: EV_ABS, code: ABS_TILT_Y, value: msg.tilt_y });
                },
                _ => {
                    out.push(InputEvent { ev_type: EV_ABS, code: ABS_PRESSURE, value: 0 });
                },
            }
            let stylus_primary = msg.buttons.contains(BUTTON_STYLUS_PRIMARY);
            let stylus_secondary = msg.buttons.contains(BUTTON_STYLUS_SECONDARY);
            out.push(InputEvent {
                ev_type: EV_KEY,
                code: BTN_STYLUS,
                value: if stylus_primary { 1 } else { 0 },
            });
            out.push(InputEvent {
                ev_type: EV_KEY,
                code: BTN_STYLUS2,
                value: if stylus_secondary { 1 } else { 0 },
            });
            out.push(InputEvent {
                ev_type: EV_MSC,
                code: MSC_TIMESTAMP,
                value: fold_timestamp(msg.timestamp),
            });
            out.push(InputEvent { ev_type: EV_SYN, code: SYN_REPORT, value: 1 });
        },
        _ => {},
    }
    proof {
        assert(out@ =~= translate_spec(*msg, axis_max));
    }
    out
}

} // verus!
