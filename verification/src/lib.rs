//! Pointer-event ingestion and translation for a virtual pen/touch device.
//!
//! Remote pointer samples arrive as JSON text frames, are decoded into
//! [`PointerEventMessage`](event::PointerEventMessage) values, fan in through
//! a bounded broadcast channel, and are translated one at a time into an
//! ordered frame of low-level input events for a virtual human-interface
//! device.

pub mod channel;
pub mod decode;
pub mod event;
pub mod json;
pub mod scale;
pub mod translate;
