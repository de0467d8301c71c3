//! The nl80211 command and attribute catalog, the generic-netlink message
//! model, and the classification of kernel notifications into events.
//!
//! The numeric codes are fixed by the kernel interface. A code outside the
//! catalog is kept in an `UnrecognizedConst` variant instead of failing, so
//! that messages of newer kernels still decode.

use vstd::prelude::*;
use vstd::std_specs::convert::FromSpecImpl;
use vstd::slice::slice_subrange;
use crate::network::codec::{
    attr_views, decode_attrs, decode_u32, parsed_attrs, u32_payload, Attr, AttrView, ByteOrder,
    NetError,
};

verus! {

/// Generic-netlink commands of the nl80211 family.
#[derive(Clone, Copy, Debug, PartialEq, Eq, Structural)]
pub enum Nl80211Command {
    Unspecified,
    GetWiPhy,
    GetInterface,
    GetStation,
    Connect,
    Disconnect,
    /// A code that this catalog does not name, kept as it came.
    UnrecognizedConst(u8),
}

/// The command that the wire code `code` stands for.
pub open spec fn command_of(code: u8) -> Nl80211Command {
    if code == 0 {
        Nl80211Command::Unspecified
    } else if code == 1 {
        Nl80211Command::GetWiPhy
    } else if code == 5 {
        Nl80211Command::GetInterface
    } else if code == 17 {
        Nl80211Command::GetStation
    } else if code == 46 {
        Nl80211Command::Connect
    } else if code == 48 {
        Nl80211Command::Disconnect
    } else {
        Nl80211Command::UnrecognizedConst(code)
    }
}

/// The wire code of a command.
pub open spec fn command_code(value: Nl80211Command) -> u8 {
    match value {
        Nl80211Command::Unspecified => 0,
        Nl80211Command::GetWiPhy => 1,
        Nl80211Command::GetInterface => 5,
        Nl80211Command::GetStation => 17,
        Nl80211Command::Connect => 46,
        Nl80211Command::Disconnect => 48,
        Nl80211Command::UnrecognizedConst(code) => code,
    }
}

impl From<u8> for Nl80211Command {
    fn from(code: u8) -> (r: Self)
        ensures
            r == command_of(code),
    {
        if code == 0 {
            Nl80211Command::Unspecified
        } else if code == 1 {
            Nl80211Command::GetWiPhy
        } else if code == 5 {
            Nl80211Command::GetInterface
        } else if code == 17 {
            Nl80211Command::GetStation
        } else if code == 46 {
            Nl80211Command::Connect
        } else if code == 48 {
            Nl80211Command::Disconnect
        } else {
            Nl80211Command::UnrecognizedConst(code)
        }
    }
}

impl FromSpecImpl<u8> for Nl80211Command {
    open spec fn obeys_from_spec() -> bool {
        true
    }

    open spec fn from_spec(code: u8) -> Self {
        command_of(code)
    }
}

impl From<Nl80211Command> for u8 {
    fn from(value: Nl80211Command) -> (r: Self)
        ensures
            r == command_code(value),
    {
        match value {
            Nl80211Command::Unspecified => 0,
            Nl80211Command::GetWiPhy => 1,
            Nl80211Command::GetInterface => 5,
            Nl80211Command::GetStation => 17,
            Nl80211Command::Connect => 46,
            Nl80211Command::Disconnect => 48,
            Nl80211Command::UnrecognizedConst(code) => code,
        }
    }
}

impl FromSpecImpl<Nl80211Command> for u8 {
    open spec fn obeys_from_spec() -> bool {
        true
    }

    open spec fn from_spec(value: Nl80211Command) -> Self {
        command_code(value)
    }
}

/// Every wire code survives the trip through the catalog unchanged, known
/// or not.
pub proof fn lemma_command_code_round_trip(code: u8)
    ensures
        command_code(command_of(code)) == code,
{
}

/// Top-level attributes of nl80211 messages.
#[derive(Clone, Copy, Debug, PartialEq, Eq, Structural)]
pub enum Nl80211Attribute {
    Unspecified,
    Wiphy,
    WiphyName,
    Ifindex,
    Iftype,
    Ssid,
    StaInfo,
    /// A code that this catalog does not name, kept as it came.
    UnrecognizedConst(u16),
}

/// The attribute that the wire code `code` stands for.
pub open spec fn attribute_of(code: u16) -> Nl80211Attribute {
    if code == 0 {
        Nl80211Attribute::Unspecified
    } else if code == 1 {
        Nl80211Attribute::Wiphy
    } else if code == 2 {
        Nl80211Attribute::WiphyName
    } else if code == 3 {
        Nl80211Attribute::Ifindex
    } else if code == 5 {
        Nl80211Attribute::Iftype
    } else if code == 52 {
        Nl80211Attribute::Ssid
    } else if code == 21 {
        Nl80211Attribute::StaInfo
    } else {
        Nl80211Attribute::UnrecognizedConst(code)
    }
}

/// The wire code of a attribute.
pub open spec fn attribute_code(value: Nl80211Attribute) -> u16 {
    match value {
        Nl80211Attribute::Unspecified => 0,
        Nl80211Attribute::Wiphy => 1,
        Nl80211Attribute::WiphyName => 2,
        Nl80211Attribute::Ifindex => 3,
        Nl80211Attribute::Iftype => 5,
        Nl80211Attribute::Ssid => 52,
        Nl80211Attribute::StaInfo => 21,
        Nl80211Attribute::UnrecognizedConst(code) => code,
    }
}

impl From<u16> for Nl80211Attribute {
    fn from(code: u16) -> (r: Self)
        ensures
            r == attribute_of(code),
    {
        if code == 0 {
            Nl80211Attribute::Unspecified
        } else if code == 1 {
            Nl80211Attribute::Wiphy
        } else if code == 2 {
            Nl80211Attribute::WiphyName
        } else if code == 3 {
            Nl80211Attribute::Ifindex
        } else if code == 5 {
            Nl80211Attribute::Iftype
        } else if code == 52 {
            Nl80211Attribute::Ssid
        } else if code == 21 {
            Nl80211Attribute::StaInfo
        } else {
            Nl80211Attribute::UnrecognizedConst(code)
        }
    }
}

impl FromSpecImpl<u16> for Nl80211Attribute {
    open spec fn obeys_from_spec() -> bool {
        true
    }

    open spec fn from_spec(code: u16) -> Self {
        attribute_of(code)
    }
}

impl From<Nl80211Attribute> for u16 {
    fn from(value: Nl80211Attribute) -> (r: Self)
        ensures
            r == attribute_code(value),
    {
        match value {
            Nl80211Attribute::Unspecified => 0,
            Nl80211Attribute::Wiphy => 1,
            Nl80211Attribute::WiphyName => 2,
            Nl80211Attribute::Ifindex => 3,
            Nl80211Attribute::Iftype => 5,
            Nl80211Attribute::Ssid => 52,
            Nl80211Attribute::StaInfo => 21,
            Nl80211Attribute::UnrecognizedConst(code) => code,
        }
    }
}

impl FromSpecImpl<Nl80211Attribute> for u16 {
    open spec fn obeys_from_spec() -> bool {
        true
    }

    open spec fn from_spec(value: Nl80211Attribute) -> Self {
        attribute_code(value)
    }
}

/// Every wire code survives the trip through the catalog unchanged, known
/// or not.
pub proof fn lemma_attribute_code_round_trip(code: u16)
    ensures
        attribute_code(attribute_of(code)) == code,
{
}

/// Attributes nested inside the station-info group.
#[derive(Clone, Copy, Debug, PartialEq, Eq, Structural)]
pub enum Nl80211StaInfo {
    Invalid,
    InactiveTime,
    RxBytes,
    TxBytes,
    Llid,
    Plid,
    PlinkState,
    Signal,
    TxBitrate,
    RxPackets,
    TxPackets,
    TxRetries,
    TxFailed,
    SignalAvg,
    RxBitrate,
    BssParam,
    ConnectedTime,
    StaFlags,
    BeaconLoss,
    TOffset,
    LocalPm,
    PeerPm,
    NonpeerPm,
    RxBytes64,
    TxBytes64,
    ChainSignal,
    ChainSignalAvg,
    ExpectedThroughput,
    RxDropMisc,
    BeaconRx,
    BeaconSignalAvg,
    TidStats,
    RxDuration,
    Pad,
    /// A code that this catalog does not name, kept as it came.
    UnrecognizedConst(u16),
}

/// The station attribute that the wire code `code` stands for.
pub open spec fn sta_info_of(code: u16) -> Nl80211StaInfo {
    if code == 0 {
        Nl80211StaInfo::Invalid
    } else if code == 1 {
        Nl80211StaInfo::InactiveTime
    } else if code == 2 {
        Nl80211StaInfo::RxBytes
    } else if code == 3 {
        Nl80211StaInfo::TxBytes
    } else if code == 4 {
        Nl80211StaInfo::Llid
    } else if code == 5 {
        Nl80211StaInfo::Plid
    } else if code == 6 {
        Nl80211StaInfo::PlinkState
    } else if code == 7 {
        Nl80211StaInfo::Signal
    } else if code == 8 {
        Nl80211StaInfo::TxBitrate
    } else if code == 9 {
        Nl80211StaInfo::RxPackets
    } else if code == 10 {
        Nl80211StaInfo::TxPackets
    } else if code == 11 {
        Nl80211StaInfo::TxRetries
    } else if code == 12 {
        Nl80211StaInfo::TxFailed
    } else if code == 13 {
        Nl80211StaInfo::SignalAvg
    } else if code == 14 {
        Nl80211StaInfo::RxBitrate
    } else if code == 15 {
        Nl80211StaInfo::BssParam
    } else if code == 16 {
        Nl80211StaInfo::ConnectedTime
    } else if code == 17 {
        Nl80211StaInfo::StaFlags
    } else if code == 18 {
        Nl80211StaInfo::BeaconLoss
    } else if code == 19 {
        Nl80211StaInfo::TOffset
    } else if code == 20 {
        Nl80211StaInfo::LocalPm
    } else if code == 21 {
        Nl80211StaInfo::PeerPm
    } else if code == 22 {
        Nl80211StaInfo::NonpeerPm
    } else if code == 23 {
        Nl80211StaInfo::RxBytes64
    } else if code == 24 {
        Nl80211StaInfo::TxBytes64
    } else if code == 25 {
        Nl80211StaInfo::ChainSignal
    } else if code == 26 {
        Nl80211StaInfo::ChainSignalAvg
    } else if code == 27 {
        Nl80211StaInfo::ExpectedThroughput
    } else if code == 28 {
        Nl80211StaInfo::RxDropMisc
    } else if code == 29 {
        Nl80211StaInfo::BeaconRx
    } else if code == 30 {
        Nl80211StaInfo::BeaconSignalAvg
    } else if code == 31 {
        Nl80211StaInfo::TidStats
    } else if code == 32 {
        Nl80211StaInfo::RxDuration
    } else if code == 33 {
        Nl80211StaInfo::Pad
    } else {
        Nl80211StaInfo::UnrecognizedConst(code)
    }
}

/// The wire code of a station attribute.
pub open spec fn sta_info_code(value: Nl80211StaInfo) -> u16 {
    match value {
        Nl80211StaInfo::Invalid => 0,
        Nl80211StaInfo::InactiveTime => 1,
        Nl80211StaInfo::RxBytes => 2,
        Nl80211StaInfo::TxBytes => 3,
        Nl80211StaInfo::Llid => 4,
        Nl80211StaInfo::Plid => 5,
        Nl80211StaInfo::PlinkState => 6,
        Nl80211StaInfo::Signal => 7,
        Nl80211StaInfo::TxBitrate => 8,
        Nl80211StaInfo::RxPackets => 9,
        Nl80211StaInfo::TxPackets => 10,
        Nl80211StaInfo::TxRetries => 11,
        Nl80211StaInfo::TxFailed => 12,
        Nl80211StaInfo::SignalAvg => 13,
        Nl80211StaInfo::RxBitrate => 14,
        Nl80211StaInfo::BssParam => 15,
        Nl80211StaInfo::ConnectedTime => 16,
        Nl80211StaInfo::StaFlags => 17,
        Nl80211StaInfo::BeaconLoss => 18,
        Nl80211StaInfo::TOffset => 19,
        Nl80211StaInfo::LocalPm => 20,
        Nl80211StaInfo::PeerPm => 21,
        Nl80211StaInfo::NonpeerPm => 22,
        Nl80211StaInfo::RxBytes64 => 23,
        Nl80211StaInfo::TxBytes64 => 24,
        Nl80211StaInfo::ChainSignal => 25,
        Nl80211StaInfo::ChainSignalAvg => 26,
        Nl80211StaInfo::ExpectedThroughput => 27,
        Nl80211StaInfo::RxDropMisc => 28,
        Nl80211StaInfo::BeaconRx => 29,
        Nl80211StaInfo::BeaconSignalAvg => 30,
        Nl80211StaInfo::TidStats => 31,
        Nl80211StaInfo::RxDuration => 32,
        Nl80211StaInfo::Pad => 33,
        Nl80211StaInfo::UnrecognizedConst(code) => code,
    }
}

impl From<u16> for Nl80211StaInfo {
    fn from(code: u16) -> (r: Self)
        ensures
            r == sta_info_of(code),
    {
        if code == 0 {
            Nl80211StaInfo::Invalid
        } else if code == 1 {
            Nl80211StaInfo::InactiveTime
        } else if code == 2 {
            Nl80211StaInfo::RxBytes
        } else if code == 3 {
            Nl80211StaInfo::TxBytes
        } else if code == 4 {
            Nl80211StaInfo::Llid
        } else if code == 5 {
            Nl80211StaInfo::Plid
        } else if code == 6 {
            Nl80211StaInfo::PlinkState
        } else if code == 7 {
            Nl80211StaInfo::Signal
        } else if code == 8 {
            Nl80211StaInfo::TxBitrate
        } else if code == 9 {
            Nl80211StaInfo::RxPackets
        } else if code == 10 {
            Nl80211StaInfo::TxPackets
        } else if code == 11 {
            Nl80211StaInfo::TxRetries
        } else if code == 12 {
            Nl80211StaInfo::TxFailed
        } else if code == 13 {
            Nl80211StaInfo::SignalAvg
        } else if code == 14 {
            Nl80211StaInfo::RxBitrate
        } else if code == 15 {
            Nl80211StaInfo::BssParam
        } else if code == 16 {
            Nl80211StaInfo::ConnectedTime
        } else if code == 17 {
            Nl80211StaInfo::StaFlags
        } else if code == 18 {
            Nl80211StaInfo::BeaconLoss
        } else if code == 19 {
            Nl80211StaInfo::TOffset
        } else if code == 20 {
            Nl80211StaInfo::LocalPm
        } else if code == 21 {
            Nl80211StaInfo::PeerPm
        } else if code == 22 {
            Nl80211StaInfo::NonpeerPm
        } else if code == 23 {
            Nl80211StaInfo::RxBytes64
        } else if code == 24 {
            Nl80211StaInfo::TxBytes64
        } else if code == 25 {
            Nl80211StaInfo::ChainSignal
        } else if code == 26 {
            Nl80211StaInfo::ChainSignalAvg
        } else if code == 27 {
            Nl80211StaInfo::ExpectedThroughput
        } else if code == 28 {
            Nl80211StaInfo::RxDropMisc
        } else if code == 29 {
            Nl80211StaInfo::BeaconRx
        } else if code == 30 {
            Nl80211StaInfo::BeaconSignalAvg
        } else if code == 31 {
            Nl80211StaInfo::TidStats
        } else if code == 32 {
            Nl80211StaInfo::RxDuration
        } else if code == 33 {
            Nl80211StaInfo::Pad
        } else {
            Nl80211StaInfo::UnrecognizedConst(code)
        }
    }
}

impl FromSpecImpl<u16> for Nl80211StaInfo {
    open spec fn obeys_from_spec() -> bool {
        true
    }

    open spec fn from_spec(code: u16) -> Self {
        sta_info_of(code)
    }
}

impl From<Nl80211StaInfo> for u16 {
    fn from(value: Nl80211StaInfo) -> (r: Self)
        ensures
            r == sta_info_code(value),
    {
        match value {
            Nl80211StaInfo::Invalid => 0,
            Nl80211StaInfo::InactiveTime => 1,
            Nl80211StaInfo::RxBytes => 2,
            Nl80211StaInfo::TxBytes => 3,
            Nl80211StaInfo::Llid => 4,
            Nl80211StaInfo::Plid => 5,
            Nl80211StaInfo::PlinkState => 6,
            Nl80211StaInfo::Signal => 7,
            Nl80211StaInfo::TxBitrate => 8,
            Nl80211StaInfo::RxPackets => 9,
            Nl80211StaInfo::TxPackets => 10,
            Nl80211StaInfo::TxRetries => 11,
            Nl80211StaInfo::TxFailed => 12,
            Nl80211StaInfo::SignalAvg => 13,
            Nl80211StaInfo::RxBitrate => 14,
            Nl80211StaInfo::BssParam => 15,
            Nl80211StaInfo::ConnectedTime => 16,
            Nl80211StaInfo::StaFlags => 17,
            Nl80211StaInfo::BeaconLoss => 18,
            Nl80211StaInfo::TOffset => 19,
            Nl80211StaInfo::LocalPm => 20,
            Nl80211StaInfo::PeerPm => 21,
            Nl80211StaInfo::NonpeerPm => 22,
            Nl80211StaInfo::RxBytes64 => 23,
            Nl80211StaInfo::TxBytes64 => 24,
            Nl80211StaInfo::ChainSignal => 25,
            Nl80211StaInfo::ChainSignalAvg => 26,
            Nl80211StaInfo::ExpectedThroughput => 27,
            Nl80211StaInfo::RxDropMisc => 28,
            Nl80211StaInfo::BeaconRx => 29,
            Nl80211StaInfo::BeaconSignalAvg => 30,
            Nl80211StaInfo::TidStats => 31,
            Nl80211StaInfo::RxDuration => 32,
            Nl80211StaInfo::Pad => 33,
            Nl80211StaInfo::UnrecognizedConst(code) => code,
        }
    }
}

impl FromSpecImpl<Nl80211StaInfo> for u16 {
    open spec fn obeys_from_spec() -> bool {
        true
    }

    open spec fn from_spec(value: Nl80211StaInfo) -> Self {
        sta_info_code(value)
    }
}

/// Every wire code survives the trip through the catalog unchanged, known
/// or not.
pub proof fn lemma_sta_info_code_round_trip(code: u16)
    ensures
        sta_info_code(sta_info_of(code)) == code,
{
}

/// Size of the generic-netlink header: command, version and two reserved bytes.
pub const GENL_HEADER_LEN: usize = 4;

/// A generic-netlink message: its command, the protocol version and the
/// attributes in wire order.
#[derive(Clone, Debug)]
pub struct GenlMessage {
    pub cmd: Nl80211Command,
    pub version: u8,
    pub attrs: Vec<Attr>,
}

/// The mathematical value of a [`GenlMessage`].
pub struct GenlMessageView {
    pub cmd: Nl80211Command,
    pub version: u8,
    pub attrs: Seq<AttrView>,
}

impl View for GenlMessage {
    type V = GenlMessageView;

    open spec fn view(&self) -> GenlMessageView {
        GenlMessageView { cmd: self.cmd, version: self.version, attrs: attr_views(self.attrs@) }
    }
}

/// What a netlink message carries: a generic-netlink message, or nothing
/// that this client reads (an acknowledgement, an error, an end marker).
#[derive(Clone, Debug)]
pub enum NlPayload {
    Payload(GenlMessage),
    Empty,
}

/// The message that a payload holds, if it holds one.
pub open spec fn message_of(payload: NlPayload) -> Option<GenlMessageView> {
    match payload {
        NlPayload::Payload(m) => Some(m@),
        NlPayload::Empty => None,
    }
}

/// The generic-netlink message that the bytes `buf` spell, or `None` when
/// the header is cut short or the attributes are not well framed.
pub open spec fn parsed_message(order: ByteOrder, buf: Seq<u8>) -> Option<GenlMessageView> {
    if buf.len() < GENL_HEADER_LEN {
        None
    } else {
        match parsed_attrs(order, buf.skip(GENL_HEADER_LEN as int)) {
            Some(attrs) => Some(
                GenlMessageView { cmd: command_of(buf[0]), version: buf[1], attrs },
            ),
            None => None,
        }
    }
}

impl GenlMessage {
    /// Decodes a generic-netlink message from the payload of a netlink
    /// message. Fails with `MalformedMessage` exactly when the bytes do not
    /// spell a message.
    pub fn decode(order: ByteOrder, buf: &[u8]) -> (r: Result<GenlMessage, NetError>)
        ensures
            match r {
                Ok(m) => parsed_message(order, buf@) == Some(m@),
                Err(e) => e == NetError::MalformedMessage && parsed_message(order, buf@) is None,
            },
    {
        if buf.len() < GENL_HEADER_LEN {
            return Err(NetError::MalformedMessage);
        }
        let cmd = Nl80211Command::from(buf[0]);
        let version: u8 = buf[1];
        let rest = slice_subrange(buf, GENL_HEADER_LEN, buf.len());
        assert(rest@ =~= buf@.skip(GENL_HEADER_LEN as int));
        match decode_attrs(order, rest) {
            Ok(attrs) => Ok(GenlMessage { cmd, version, attrs }),
            Err(_) => Err(NetError::MalformedMessage),
        }
    }
}

impl NlPayload {
    /// What a received netlink message carries, from its generic-netlink
    /// bytes if it has any: the message that they spell, and nothing when
    /// there are none or they spell no message.
    pub fn decode(order: ByteOrder, raw: Option<&[u8]>) -> (r: NlPayload)
        ensures
            message_of(r) == match raw {
                Some(bytes) => parsed_message(order, bytes@),
                None => None,
            },
    {
        match raw {
            Some(bytes) => match GenlMessage::decode(order, bytes) {
                Ok(m) => NlPayload::Payload(m),
                Err(_) => NlPayload::Empty,
            },
            None => NlPayload::Empty,
        }
    }
}

/// A connect or disconnect as a consumer may want to show it.
#[derive(Clone, Debug)]
pub enum Nl80211Event {
    Connect(String),
    Disconnect,
}

/// A kernel notification, classified.
///
/// `Connect` holds the wiphy index and the interface index of the new
/// association; either is `None` when the notification left it out.
#[derive(Clone, Copy, Debug, PartialEq, Eq)]
pub enum Event {
    Unspecified,
    GetWiPhy,
    GetInterface,
    Connect(Option<u32>, Option<u32>),
    Disconnect,
    UnrecognizedConst(u8),
}

/// The wiphy and interface index that the attributes of a connect
/// notification give, read front to back so that a later attribute replaces
/// an earlier one of the same type; `None` when one of them does not hold a
/// 32-bit number.
pub open spec fn connect_fields(order: ByteOrder, attrs: Seq<AttrView>) -> Option<
    (Option<u32>, Option<u32>),
>
    decreases attrs.len(),
{
    if attrs.len() == 0 {
        Some((None, None))
    } else {
        let last = attrs.last();
        match connect_fields(order, attrs.drop_last()) {
            None => None,
            Some((wiphy, ifindex)) => if last.kind == attribute_code(Nl80211Attribute::Wiphy) {
                match u32_payload(order, last.payload) {
                    Some(v) => Some((Some(v), ifindex)),
                    None => None,
                }
            } else if last.kind == attribute_code(Nl80211Attribute::Ifindex) {
                match u32_payload(order, last.payload) {
                    Some(v) => Some((wiphy, Some(v))),
                    None => None,
                }
            } else {
                Some((wiphy, ifindex))
            },
        }
    }
}

/// The event that a message stands for, or `None` when it is a connect
/// notification with a broken wiphy or interface attribute.
pub open spec fn event_of(order: ByteOrder, m: GenlMessageView) -> Option<Event> {
    match m.cmd {
        Nl80211Command::Unspecified => Some(Event::Unspecified),
        Nl80211Command::GetWiPhy => Some(Event::GetWiPhy),
        Nl80211Command::GetInterface => Some(Event::GetInterface),
        Nl80211Command::GetStation => Some(Event::Unspecified),
        Nl80211Command::Connect => match connect_fields(order, m.attrs) {
            Some((wiphy, ifindex)) => Some(Event::Connect(wiphy, ifindex)),
            None => None,
        },
        Nl80211Command::Disconnect => Some(Event::Disconnect),
        Nl80211Command::UnrecognizedConst(code) => Some(Event::UnrecognizedConst(code)),
    }
}

/// Reads the wiphy and interface index out of a connect notification.
fn read_connect_fields(order: ByteOrder, attrs: &Vec<Attr>) -> (r: Option<
    (Option<u32>, Option<u32>),
>)
    ensures
        r == connect_fields(order, attr_views(attrs@)),
{
    let ghost all = attr_views(attrs@);
    let mut wiphy: Option<u32> = None;
    let mut ifindex: Option<u32> = None;
    let mut i: usize = 0;
    while i < attrs.len()
        invariant
            i <= attrs@.len(),
            all == attr_views(attrs@),
            connect_fields(order, all.take(i as int)) == Some((wiphy, ifindex)),
        decreases attrs@.len() - i,
    {
        let attr = &attrs[i];
        proof {
            assert(all.take(i + 1).drop_last() =~= all.take(i as int));
            assert(all.take(i + 1).last() == attr@);
        }
        let kind = Nl80211Attribute::from(attr.kind);
        match kind {
            Nl80211Attribute::Wiphy => {
                match decode_u32(order, attr.payload.as_slice()) {
                    Ok(v) => {
                        wiphy = Some(v);
                    },
                    Err(_) => {
                        proof {
                            lemma_connect_fields_stay_broken(order, all, i + 1);
                        }
                        return None;
                    },
                }
            },
            Nl80211Attribute::Ifindex => {
                match decode_u32(order, attr.payload.as_slice()) {
                    Ok(v) => {
                        ifindex = Some(v);
                    },
                    Err(_) => {
                        proof {
                            lemma_connect_fields_stay_broken(order, all, i + 1);
                        }
                        return None;
                    },
                }
            },
            _ => {},
        }
        i = i + 1;
    }
    assert(all.take(i as int) =~= all);
    Some((wiphy, ifindex))
}

/// Once a prefix of the attributes is broken, so is the whole list.
proof fn lemma_connect_fields_stay_broken(order: ByteOrder, attrs: Seq<AttrView>, n: int)
    requires
        0 <= n <= attrs.len(),
        connect_fields(order, attrs.take(n)) is None,
    ensures
        connect_fields(order, attrs) is None,
    decreases attrs.len() - n,
{
    if n == attrs.len() {
        assert(attrs.take(n) =~= attrs);
    } else {
        assert(attrs.take(n + 1).drop_last() =~= attrs.take(n));
        lemma_connect_fields_stay_broken(order, attrs, n + 1);
    }
}

/// Classifies one netlink message.
///
/// Fails with `MalformedMessage` exactly when the message carries no
/// payload, or is a connect notification whose wiphy or interface index is
/// not a 32-bit number. A missing attribute is no failure: the field of
/// `Connect` is then `None`.
pub fn parse_event(order: ByteOrder, nlmsghdr: &NlPayload) -> (r: Result<Event, NetError>)
    ensures
        match r {
            Ok(event) => message_of(*nlmsghdr) matches Some(m) && event_of(order, m) == Some(
                event,
            ),
            Err(e) => e == NetError::MalformedMessage && (message_of(*nlmsghdr) matches Some(m)
                ==> event_of(order, m) is None),
        },
{
    let payload = match nlmsghdr {
        NlPayload::Payload(p) => p,
        NlPayload::Empty => {
            return Err(NetError::MalformedMessage);
        },
    };
    let event = match payload.cmd {
        Nl80211Command::Unspecified => Event::Unspecified,
        Nl80211Command::GetWiPhy => Event::GetWiPhy,
        Nl80211Command::GetInterface => Event::GetInterface,
        Nl80211Command::Connect => {
            match read_connect_fields(order, &payload.attrs) {
                Some((wiphy, ifindex)) => Event::Connect(wiphy, ifindex),
                None => {
                    return Err(NetError::MalformedMessage);
                },
            }
        },
        Nl80211Command::Disconnect => Event::Disconnect,
        Nl80211Command::UnrecognizedConst(i) => Event::UnrecognizedConst(i),
        Nl80211Command::GetStation => Event::Unspecified,
    };
    Ok(event)
}

/// Whether no attribute of the list has the type `kind`.
pub open spec fn lacks(attrs: Seq<AttrView>, kind: u16) -> bool {
    forall|i: int| 0 <= i < attrs.len() ==> (#[trigger] attrs[i]).kind != kind
}

/// Whether every attribute of type `kind` in the list holds a 32-bit number.
pub open spec fn all_u32(order: ByteOrder, attrs: Seq<AttrView>, kind: u16) -> bool {
    forall|i: int|
        0 <= i < attrs.len() && (#[trigger] attrs[i]).kind == kind ==> u32_payload(
            order,
            attrs[i].payload,
        ) is Some
}

/// A connect notification that leaves out the wiphy is classified, not
/// rejected: as long as every interface index in it is a 32-bit number, the
/// fields are read and the wiphy is `None`.
pub proof fn lemma_connect_without_wiphy(order: ByteOrder, attrs: Seq<AttrView>)
    requires
        lacks(attrs, attribute_code(Nl80211Attribute::Wiphy)),
        all_u32(order, attrs, attribute_code(Nl80211Attribute::Ifindex)),
    ensures
        connect_fields(order, attrs) is Some,
        connect_fields(order, attrs).unwrap().0 is None,
    decreases attrs.len(),
{
    if attrs.len() > 0 {
        let init = attrs.drop_last();
        assert(forall|i: int| 0 <= i < init.len() ==> init[i] == attrs[i]);
        lemma_connect_without_wiphy(order, init);
        assert(attrs.last() == attrs[attrs.len() - 1]);
    }
}

/// A connect notification that leaves out the interface index is
/// classified too, with `None` for the index.
pub proof fn lemma_connect_without_ifindex(order: ByteOrder, attrs: Seq<AttrView>)
    requires
        lacks(attrs, attribute_code(Nl80211Attribute::Ifindex)),
        all_u32(order, attrs, attribute_code(Nl80211Attribute::Wiphy)),
    ensures
        connect_fields(order, attrs) is Some,
        connect_fields(order, attrs).unwrap().1 is None,
    decreases attrs.len(),
{
    if attrs.len() > 0 {
        let init = attrs.drop_last();
        assert(forall|i: int| 0 <= i < init.len() ==> init[i] == attrs[i]);
        lemma_connect_without_ifindex(order, init);
        assert(attrs.last() == attrs[attrs.len() - 1]);
    }
}

/// The interface index of a connect notification is that of its last
/// interface attribute.
pub proof fn lemma_connect_fields_last_ifindex(
    order: ByteOrder,
    attrs: Seq<AttrView>,
    ifindex: u32,
)
    requires
        attrs.len() > 0,
        attrs.last().kind == attribute_code(Nl80211Attribute::Ifindex),
        u32_payload(order, attrs.last().payload) == Some(ifindex),
        connect_fields(order, attrs.drop_last()) is Some,
    ensures
        connect_fields(order, attrs) is Some,
        connect_fields(order, attrs).unwrap().1 == Some(ifindex),
{
}

} // verus!
