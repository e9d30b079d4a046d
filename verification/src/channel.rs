//! The event fan-in channel: many transport connections publish decoded
//! samples, one translator consumes them.
//!
//! The channel is a bounded broadcast ring. Publishing never blocks: with
//! no consumer attached the message is discarded, and when the consumer
//! falls behind the oldest unread messages are evicted and the consumer
//! is told how many it missed, rather than being handed stale data or
//! stalling the senders. Waiting for the next message is the embedding
//! program's job (it is an asynchronous suspension point); the decisions
//! around each outcome are verified here.

use vstd::prelude::*;

use crate::decode::{decode, spec_decode};
use crate::event::{DecodeError, PointerEventMessage};
use crate::json::json_doc;
use crate::translate::{translate, translate_spec, InputEvent};

verus! {

/// The capacity of the fan-in channel, in messages.
pub const CHANNEL_CAPACITY: usize = 64;

#[verifier::external_type_specification]
#[verifier::external_body]
#[verifier::reject_recursive_types(T)]
/// Declares tokio's broadcast sender; opaque here, used only through
/// the wrapper below.
pub struct ExSender<T>(tokio::sync::broadcast::Sender<T>);

/// What one publish attempt yields.
#[derive(Clone, Copy, Debug, PartialEq, Eq, Structural)]
pub enum PublishOutcome {
    /// The message entered the channel; this many consumers can see it.
    Delivered(usize),
    /// No consumer is attached; the message was silently discarded.
    NoReceivers,
}

/// What the consumer sees when it asks the channel for the next message.
#[derive(Clone, Copy, Debug, PartialEq, Eq, Structural)]
pub enum RecvOutcome {
    /// The oldest unread message.
    Received(PointerEventMessage),
    /// The consumer fell behind and this many messages were evicted
    /// unread; the next ask yields the oldest message still buffered.
    Lagged(u64),
    /// Every sender is gone and everything buffered was read.
    Closed,
}

/// What the translator does in reaction to one channel outcome.
pub enum ConsumerAction {
    /// Emit this frame to the virtual device, in order.
    Emit(Vec<InputEvent>),
    /// Note this many dropped samples and keep consuming.
    Skip(u64),
    /// The pipeline is over; stop consuming.
    Stop,
}

/// Relies on tokio::sync::broadcast::Sender::send: it never blocks, it
/// returns the receiver count (at least one) after storing the message,
/// evicting the oldest stored message if the ring is full, and it returns
/// the message unstored exactly when no receiver is attached.
#[verifier::external_body]
fn publish_raw(sender: &tokio::sync::broadcast::Sender<PointerEventMessage>, msg: PointerEventMessage) -> (r:
    PublishOutcome)
    ensures
        r matches PublishOutcome::Delivered(n) ==> n >= 1,
{
    match sender.send(msg) {
        Ok(n) => PublishOutcome::Delivered(n),
        Err(_) => PublishOutcome::NoReceivers,
    }
}

/// Decodes one wire frame and publishes the decoded sample into the
/// fan-in channel. A frame that fails decode is reported and publishes
/// nothing; the connection that sent it goes on. A message published
/// with no consumer attached is discarded, which is the channel's
/// policy, not an error.
pub fn publish_frame(
    sender: &tokio::sync::broadcast::Sender<PointerEventMessage>,
    text: &str,
) -> (r: Result<PublishOutcome, DecodeError>)
    ensures
        json_doc(text@) is None ==> r is Err && r->Err_0 == DecodeError::MalformedJson,
        json_doc(text@) matches Some(doc) ==> ((r is Ok) == (spec_decode(doc) is Ok)),
        json_doc(text@) matches Some(doc) ==> (r is Err ==> r->Err_0 == spec_decode(doc)->Err_0),
        r matches Ok(out) ==> (out matches PublishOutcome::Delivered(n) ==> n >= 1),
{
    match decode(text) {
        Ok(msg) => Ok(publish_raw(sender, msg)),
        Err(e) => Err(e),
    }
}

/// What the translator does with one channel outcome: a message becomes
/// its frame of device events, a lag notice is counted and consumption
/// goes on (pointer accuracy degrades gracefully under back-pressure),
/// and a closed channel stops the translator.
pub fn consume_step(outcome: &RecvOutcome, axis_max: u32) -> (r: ConsumerAction)
    ensures
        outcome matches RecvOutcome::Received(msg) ==> r matches ConsumerAction::Emit(evs)
            && evs@ == translate_spec(*msg, axis_max),
        outcome matches RecvOutcome::Lagged(n) ==> r == ConsumerAction::Skip(*n),
        outcome is Closed ==> r is Stop,
{
    match outcome {
        RecvOutcome::Received(msg) => ConsumerAction::Emit(translate(msg, axis_max)),
        RecvOutcome::Lagged(n) => ConsumerAction::Skip(*n),
        RecvOutcome::Closed => ConsumerAction::Stop,
    }
}

} // verus!
