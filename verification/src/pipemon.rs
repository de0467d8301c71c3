//! What the audio server reports, turned into events for the audio state.
//!
//! The connection to the server lives with the caller. It hands over what
//! its callbacks were given, as plain values, and gets back the event to
//! send on, if the report is one that the status bar follows.

use vstd::prelude::*;
use vstd::slice::{slice_subrange, slice_to_vec};
use crate::network::codec::{decode_string, string_payload};

verus! {

/// The key of the property that holds the mute switch of a node.
pub const PROP_MUTE: u32 = 65540;

/// The key of the property that holds the channel volumes of a node.
pub const PROP_CHANNEL_VOLUMES: u32 = 65544;

/// The length of what stands before the name in the value of the default
/// sink: an opening brace, the quoted word `name`, a colon and a quote.
pub const NAME_PREFIX_LEN: usize = 9;

/// The length of what stands behind the name: a quote and a closing brace.
pub const NAME_SUFFIX_LEN: usize = 2;

/// A change of the audio state.
#[derive(Clone, Debug)]
pub enum PipeWireEvent {
    /// The channel volumes of a node, in percent.
    UpdateVolumes(u32, Vec<u8>),
    /// The mute switch of a node.
    UpdateMuted(u32, bool),
    /// The name of the default sink.
    SetDefaultSinkName(String),
    /// A node and its name.
    UpdateNodeId(u32, String),
}

/// The value of a node property, as far as the status bar reads it.
#[derive(Clone, Debug)]
pub enum PropertyValue {
    Bool(bool),
    /// Channel volumes in percent.
    Volumes(Vec<u8>),
    Other,
}

/// The name inside the value of the default sink: what stands between the
/// nine bytes in front and the two bytes behind, read as text. `None` when
/// the value is shorter than those, or when what is between is not text.
pub open spec fn sink_name_of(value: Seq<u8>) -> Option<Seq<char>> {
    if value.len() < NAME_PREFIX_LEN + NAME_SUFFIX_LEN {
        None
    } else {
        string_payload(value.subrange(NAME_PREFIX_LEN as int, value.len() - NAME_SUFFIX_LEN))
    }
}

/// Cuts the name of the default sink out of the value that the server
/// stores under the key of the default sink.
pub fn default_sink_name(value: &[u8]) -> (r: Option<String>)
    ensures
        match r {
            Some(name) => sink_name_of(value@) == Some(name@),
            None => sink_name_of(value@) is None,
        },
{
    if value.len() < NAME_PREFIX_LEN + NAME_SUFFIX_LEN {
        return None;
    }
    let inner = slice_subrange(value, NAME_PREFIX_LEN, value.len() - NAME_SUFFIX_LEN);
    match decode_string(inner) {
        Ok(name) => Some(name),
        Err(_) => None,
    }
}

/// The value that stands for no default sink: an opening brace, the quoted
/// word `name`, a colon, two quotes with nothing between, a closing brace.
pub open spec fn no_sink_value() -> Seq<u8> {
    seq![0x7bu8, 0x22u8, 0x6eu8, 0x61u8, 0x6du8, 0x65u8, 0x22u8, 0x3au8, 0x22u8, 0x22u8, 0x7du8]
}

/// Whether `key` is the metadata key under which the server stores the
/// default sink.
pub open spec fn is_default_sink_key(key: Option<&str>) -> bool {
    key matches Some(k) && k@ == "default.audio.sink"@
}

/// The name that a metadata property gives the default sink: under the key
/// of the default sink, the name inside the value, or inside the value that
/// stands for no sink when there is none. `None` under any other key.
pub open spec fn metadata_name(key: Option<&str>, value: Option<&[u8]>) -> Option<Seq<char>> {
    if is_default_sink_key(key) {
        match value {
            Some(v) => sink_name_of(v@),
            None => sink_name_of(no_sink_value()),
        }
    } else {
        None
    }
}

/// The event for a metadata property: the name of the default sink when
/// the property is the default sink's and its value holds a name, and none
/// otherwise.
pub fn metadata_event(key: Option<&str>, value: Option<&[u8]>) -> (r: Option<PipeWireEvent>)
    ensures
        match r {
            Some(PipeWireEvent::SetDefaultSinkName(name)) => metadata_name(key, value) == Some(
                name@,
            ),
            Some(_) => false,
            None => metadata_name(key, value) is None,
        },
{
    let wanted = match key {
        Some(k) => k.to_owned() == "default.audio.sink".to_owned(),
        None => false,
    };
    if !wanted {
        return None;
    }
    let no_sink: [u8; 11] = [0x7b, 0x22, 0x6e, 0x61, 0x6d, 0x65, 0x22, 0x3a, 0x22, 0x22, 0x7d];
    assert(no_sink@ =~= no_sink_value());
    let name = match value {
        Some(v) => default_sink_name(v),
        None => default_sink_name(no_sink.as_slice()),
    };
    match name {
        Some(name) => Some(PipeWireEvent::SetDefaultSinkName(name)),
        None => None,
    }
}

/// The event for a property of the node `id`: the mute switch under its
/// key when the value is a boolean, the channel volumes under theirs when
/// the value is a list of volumes, and none for anything else.
pub fn property_event(id: u32, key: u32, value: PropertyValue) -> (r: Option<PipeWireEvent>)
    ensures
        match r {
            Some(PipeWireEvent::UpdateMuted(node, muted)) => node == id && key == PROP_MUTE
                && value == PropertyValue::Bool(muted),
            Some(PipeWireEvent::UpdateVolumes(node, volumes)) => node == id && key
                == PROP_CHANNEL_VOLUMES && value == PropertyValue::Volumes(volumes),
            Some(_) => false,
            None => !(key == PROP_MUTE && value is Bool) && !(key == PROP_CHANNEL_VOLUMES
                && value is Volumes),
        },
{
    if key == PROP_MUTE {
        match value {
            PropertyValue::Bool(muted) => Some(PipeWireEvent::UpdateMuted(id, muted)),
            _ => None,
        }
    } else if key == PROP_CHANNEL_VOLUMES {
        match value {
            PropertyValue::Volumes(volumes) => Some(PipeWireEvent::UpdateVolumes(id, volumes)),
            _ => None,
        }
    } else {
        None
    }
}

} // verus!
