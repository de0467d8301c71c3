//! The stream of kernel notifications, one classified event per message.
//!
//! The subscription itself is a socket and lives with the caller. What is
//! here is the part that decides: each raw multicast message is decoded and
//! classified, and a message that does not decode is dropped without ending
//! the stream.

use vstd::prelude::*;
use crate::network::codec::ByteOrder;
use crate::network::nl80211_stream::{
    command_of, event_of, parse_event, parsed_message, Event, GenlMessage, NlPayload,
    GENL_HEADER_LEN,
};

pub use crate::network::codec::NetError;

verus! {

/// The event that the raw message `raw` yields, or `None` when the stream
/// drops it.
pub open spec fn yielded_event(order: ByteOrder, raw: Seq<u8>) -> Option<Event> {
    match parsed_message(order, raw) {
        Some(m) => event_of(order, m),
        None => None,
    }
}

/// A message that decodes and has a command outside the catalog yields the
/// event that keeps its code, whatever its attributes.
pub proof fn lemma_unknown_command_is_kept(order: ByteOrder, raw: Seq<u8>)
    requires
        parsed_message(order, raw) is Some,
        command_of(raw[0]) is UnrecognizedConst,
    ensures
        yielded_event(order, raw) == Some(Event::UnrecognizedConst(raw[0])),
{
}

/// A message that is cut short in its header yields nothing.
pub proof fn lemma_short_message_is_dropped(order: ByteOrder, raw: Seq<u8>)
    requires
        raw.len() < GENL_HEADER_LEN,
    ensures
        yielded_event(order, raw) is None,
{
}

/// Turns raw multicast messages into events.
#[derive(Clone, Copy, Debug)]
pub struct EventStream {
    order: ByteOrder,
}

impl EventStream {
    /// The byte order in which this stream reads its messages.
    pub closed spec fn order(&self) -> ByteOrder {
        self.order
    }

    /// A stream over messages whose integers are in `order`.
    pub fn new(order: ByteOrder) -> (stream: Self)
        ensures
            stream.order() == order,
    {
        EventStream { order }
    }

    /// Takes the generic-netlink bytes of the next multicast message and
    /// gives the event to yield, or `None` when the message is dropped.
    pub fn decode_next(&self, raw: &[u8]) -> (r: Option<Event>)
        ensures
            r == yielded_event(self.order(), raw@),
    {
        match GenlMessage::decode(self.order, raw) {
            Ok(m) => {
                let payload = NlPayload::Payload(m);
                match parse_event(self.order, &payload) {
                    Ok(event) => Some(event),
                    Err(_) => None,
                }
            },
            Err(_) => None,
        }
    }
}

} // verus!
