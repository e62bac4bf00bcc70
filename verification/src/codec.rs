//! Structured encode/decode of events for the persistence boundary. The
//! envelope tags each event with its stable type name and schema version;
//! the core only requires that the two directions round-trip exactly, so
//! that replay sees precisely the events that were emitted.

use vstd::prelude::*;
use vstd::string::StringExecFns;
use crate::events::MyEvent;

verus! {

/// An event as the persistence boundary sees it: the variant's stable name,
/// the payload's schema version, and the payload itself.
#[derive(Debug)]
pub struct EncodedEvent {
    pub event_type: String,
    pub event_version: String,
    pub payload: String,
}

/// What it means for `enc` to be the encoding of `event`.
pub open spec fn encodes(event: MyEvent, enc: EncodedEvent) -> bool {
    match event {
        MyEvent::CommandAFiredEvent { value } => {
            &&& enc.event_type@ == "CommandAFiredEvent"@
            &&& enc.event_version@ == "1.0"@
            &&& enc.payload == value
        },
    }
}

/// What decoding an envelope yields: the event variant whose stable name the
/// envelope carries, rebuilt around the stored payload, or nothing when the
/// name matches no variant.
pub open spec fn decodes_to(enc: EncodedEvent, r: Option<MyEvent>) -> bool {
    if enc.event_type@ == "CommandAFiredEvent"@ {
        r == Some(MyEvent::CommandAFiredEvent { value: enc.payload })
    } else {
        r is None
    }
}

/// Tags an event for storage with its stable type name and schema version.
pub fn encode(event: &MyEvent) -> (r: EncodedEvent)
    ensures
        encodes(*event, r),
{
    let event_type = event.event_type();
    let event_version = event.event_version();
    match event {
        MyEvent::CommandAFiredEvent { value } => EncodedEvent {
            event_type,
            event_version,
            payload: value.clone(),
        },
    }
}

/// Rebuilds the event an envelope was encoded from, or returns `None` when
/// the envelope's type name matches no variant of the vocabulary.
pub fn decode(enc: &EncodedEvent) -> (r: Option<MyEvent>)
    ensures
        decodes_to(*enc, r),
{
    let tag = String::from_str("CommandAFiredEvent");
    if enc.event_type == tag {
        Some(MyEvent::CommandAFiredEvent { value: enc.payload.clone() })
    } else {
        None
    }
}

/// Round trip: decoding the encoding of any event gives back that event,
/// for every variant of the vocabulary.
pub proof fn lemma_encode_decode_round_trip(event: MyEvent, enc: EncodedEvent, r: Option<MyEvent>)
    requires
        encodes(event, enc),
        decodes_to(enc, r),
    ensures
        r == Some(event),
{
}

} // verus!
