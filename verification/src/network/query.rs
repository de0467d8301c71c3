//! The three queries of the Wi-Fi monitor: which request to send, and what
//! the kernel's answer means.

use vstd::prelude::*;
use crate::network::codec::{
    attr_views, decode_i8, decode_nested, decode_string, decode_u16, decode_u32, encode_u32,
    front_len, get_attribute, i8_payload, lemma_encode_decode_u32, lemma_overlong_attr_rejected,
    nested_attrs, payload_of, string_payload, u16_payload, u32_attr_bytes, u32_payload, Attr,
    AttrView, ByteOrder, NetError,
};
use crate::network::nl80211_stream::{
    attribute_code, command_code, command_of, message_of, parsed_message, sta_info_code,
    Nl80211Attribute, Nl80211Command, Nl80211StaInfo, NlPayload, GENL_HEADER_LEN,
};

verus! {

/// Netlink flag: the message is a request.
pub const NLM_F_REQUEST: u16 = 0x0001;

/// Netlink flag: the request asks for a dump, a series of answers.
pub const NLM_F_DUMP: u16 = 0x0300;

/// The interface type of a managed interface, a station.
pub const IFTYPE_STATION: u16 = 2;

/// The protocol version that requests carry.
pub const GENL_VERSION: u8 = 1;

/// The most answers of a dump that are looked at.
pub const DUMP_LIMIT: usize = 256;

/// The name of the generic-netlink family.
pub const FAMILY_NAME: &'static str = "nl80211";

/// The name of the multicast group that carries connects and disconnects.
pub const GROUP_NAME: &'static str = "mlme";

/// The ids that the names of the family and of its multicast group resolve
/// to. Every request goes to the family; the notifications come from the
/// group.
#[derive(Clone, Copy, Debug, PartialEq, Eq, Structural)]
pub struct Endpoint {
    pub family: u16,
    pub group: u32,
}

impl Endpoint {
    /// Takes what the two resolutions gave. Without either id no monitoring
    /// is possible: the result is `TransportUnavailable` exactly when one of
    /// them is missing.
    pub fn resolve(family: Option<u16>, group: Option<u32>) -> (r: Result<Endpoint, NetError>)
        ensures
            match r {
                Ok(endpoint) => family == Some(endpoint.family) && group == Some(endpoint.group),
                Err(e) => e == NetError::TransportUnavailable && (family is None || group is None),
            },
    {
        match (family, group) {
            (Some(family), Some(group)) => Ok(Endpoint { family, group }),
            _ => Err(NetError::TransportUnavailable),
        }
    }
}

/// Whether the flags ask for a dump: both bits of the dump flag are set.
pub open spec fn asks_dump(flags: u16) -> bool {
    flags & NLM_F_DUMP == NLM_F_DUMP
}

/// A request to the nl80211 family: its command, the netlink flags and the
/// encoded attributes.
#[derive(Clone, Debug)]
pub struct Request {
    pub cmd: Nl80211Command,
    pub flags: u16,
    pub attrs: Vec<u8>,
}

/// The generic-netlink bytes of a request: command, version, two reserved
/// bytes, then the attributes.
pub open spec fn request_bytes(cmd: Nl80211Command, attrs: Seq<u8>) -> Seq<u8> {
    seq![command_code(cmd), GENL_VERSION, 0u8, 0u8] + attrs
}

impl Request {
    /// The request that lists all wireless interfaces.
    pub fn interface_dump() -> (r: Request)
        ensures
            r.cmd == Nl80211Command::GetInterface,
            r.flags == 0x0301,
            asks_dump(r.flags),
            r.attrs@ == Seq::<u8>::empty(),
    {
        assert(0x0300u16 | 0x0001u16 == 0x0301u16) by (bit_vector);
        assert(0x0301u16 & 0x0300u16 == 0x0300u16) by (bit_vector);
        Request {
            cmd: Nl80211Command::GetInterface,
            flags: NLM_F_DUMP | NLM_F_REQUEST,
            attrs: Vec::new(),
        }
    }

    /// The request for the state of the interface `ifindex`.
    pub fn interface(order: ByteOrder, ifindex: u32) -> (r: Request)
        ensures
            r.cmd == Nl80211Command::GetInterface,
            r.flags == NLM_F_REQUEST,
            !asks_dump(r.flags),
            r.attrs@ == u32_attr_bytes(order, attribute_code(Nl80211Attribute::Ifindex), ifindex),
    {
        assert(0x0001u16 & 0x0300u16 != 0x0300u16) by (bit_vector);
        Request {
            cmd: Nl80211Command::GetInterface,
            flags: NLM_F_REQUEST,
            attrs: encode_u32(order, u16::from(Nl80211Attribute::Ifindex), ifindex),
        }
    }

    /// The request for the station that the interface `ifindex` is
    /// associated with.
    pub fn station(order: ByteOrder, ifindex: u32) -> (r: Request)
        ensures
            r.cmd == Nl80211Command::GetStation,
            r.flags == NLM_F_REQUEST,
            !asks_dump(r.flags),
            r.attrs@ == u32_attr_bytes(order, attribute_code(Nl80211Attribute::Ifindex), ifindex),
    {
        assert(0x0001u16 & 0x0300u16 != 0x0300u16) by (bit_vector);
        Request {
            cmd: Nl80211Command::GetStation,
            flags: NLM_F_REQUEST,
            attrs: encode_u32(order, u16::from(Nl80211Attribute::Ifindex), ifindex),
        }
    }

    /// The most answers to read for this request: one for a plain request,
    /// `DUMP_LIMIT` for a dump, whose end the kernel may never signal.
    pub fn answer_limit(&self) -> (n: usize)
        ensures
            n == if asks_dump(self.flags) {
                DUMP_LIMIT
            } else {
                1
            },
    {
        if self.flags & NLM_F_DUMP == NLM_F_DUMP {
            DUMP_LIMIT
        } else {
            1
        }
    }

    /// The generic-netlink bytes to send.
    pub fn encode(&self) -> (out: Vec<u8>)
        ensures
            out@ == request_bytes(self.cmd, self.attrs@),
    {
        let mut out: Vec<u8> = Vec::new();
        out.push(u8::from(self.cmd));
        out.push(GENL_VERSION);
        out.push(0);
        out.push(0);
        let mut i: usize = 0;
        while i < self.attrs.len()
            invariant
                i <= self.attrs@.len(),
                out@ == seq![command_code(self.cmd), GENL_VERSION, 0u8, 0u8] + self.attrs@.take(
                    i as int,
                ),
            decreases self.attrs@.len() - i,
        {
            out.push(self.attrs[i]);
            assert(self.attrs@.take(i + 1) =~= self.attrs@.take(i as int).push(
                self.attrs@[i as int],
            ));
            i = i + 1;
        }
        assert(self.attrs@.take(i as int) =~= self.attrs@);
        out
    }
}

/// A request for one interface decodes to a message with the request's
/// command and exactly one attribute, the interface index that was asked
/// for.
pub proof fn lemma_request_round_trip(order: ByteOrder, cmd: Nl80211Command, ifindex: u32)
    ensures
        parsed_message(
            order,
            request_bytes(
                cmd,
                u32_attr_bytes(order, attribute_code(Nl80211Attribute::Ifindex), ifindex),
            ),
        ) matches Some(m) && {
            &&& m.cmd == command_of(command_code(cmd))
            &&& m.version == GENL_VERSION
            &&& m.attrs.len() == 1
            &&& m.attrs[0].kind == attribute_code(Nl80211Attribute::Ifindex)
            &&& u32_payload(order, m.attrs[0].payload) == Some(ifindex)
        },
{
    let attrs = u32_attr_bytes(order, attribute_code(Nl80211Attribute::Ifindex), ifindex);
    let buf = request_bytes(cmd, attrs);
    lemma_encode_decode_u32(order, attribute_code(Nl80211Attribute::Ifindex), ifindex);
    assert(buf.skip(4) =~= attrs);
}

/// Whether `r` is the request for the state of the interface `ifindex`.
pub open spec fn asks_interface(r: Request, order: ByteOrder, ifindex: u32) -> bool {
    &&& r.cmd == Nl80211Command::GetInterface
    &&& r.flags == NLM_F_REQUEST
    &&& r.attrs@ == u32_attr_bytes(order, attribute_code(Nl80211Attribute::Ifindex), ifindex)
}

/// Whether `r` is the request for the station of the interface `ifindex`.
pub open spec fn asks_station(r: Request, order: ByteOrder, ifindex: u32) -> bool {
    &&& r.cmd == Nl80211Command::GetStation
    &&& r.flags == NLM_F_REQUEST
    &&& r.attrs@ == u32_attr_bytes(order, attribute_code(Nl80211Attribute::Ifindex), ifindex)
}

/// What the attributes of one dump answer say, read front to back: the
/// interface index seen last before the first attribute that gives the
/// interface type as station. `current` is the index seen so far. `None`
/// when no attribute gives that type, or when an index or a type before it
/// does not have its width.
pub open spec fn scan_attrs(order: ByteOrder, attrs: Seq<AttrView>, current: u32) -> Option<u32>
    decreases attrs.len(),
{
    if attrs.len() == 0 {
        None
    } else if attrs[0].kind == attribute_code(Nl80211Attribute::Ifindex) {
        match u32_payload(order, attrs[0].payload) {
            Some(v) => scan_attrs(order, attrs.skip(1), v),
            None => None,
        }
    } else if attrs[0].kind == attribute_code(Nl80211Attribute::Iftype) {
        match u16_payload(order, attrs[0].payload) {
            Some(t) => if t == IFTYPE_STATION {
                Some(current)
            } else {
                scan_attrs(order, attrs.skip(1), current)
            },
            None => None,
        }
    } else {
        scan_attrs(order, attrs.skip(1), current)
    }
}

/// The managed interface that one dump answer names, if it names one. An
/// answer without payload names none.
pub open spec fn managed_interface(order: ByteOrder, answer: NlPayload) -> Option<u32> {
    match message_of(answer) {
        Some(m) => scan_attrs(order, m.attrs, 0),
        None => None,
    }
}

/// The interface of the first answer of `dump` that names a managed
/// interface, or 0 when none does.
pub open spec fn first_managed(order: ByteOrder, dump: Seq<NlPayload>) -> u32
    decreases dump.len(),
{
    if dump.len() == 0 {
        0
    } else {
        match managed_interface(order, dump[0]) {
            Some(ifindex) => ifindex,
            None => first_managed(order, dump.skip(1)),
        }
    }
}

/// The default interface that a dump of all interfaces gives: the first
/// managed one among its first `DUMP_LIMIT` answers, or 0.
pub open spec fn default_interface(order: ByteOrder, dump: Seq<NlPayload>) -> u32 {
    if dump.len() <= DUMP_LIMIT {
        first_managed(order, dump)
    } else {
        first_managed(order, dump.take(DUMP_LIMIT as int))
    }
}

/// Scans the attributes of one dump answer.
pub fn scan_message(order: ByteOrder, attrs: &Vec<Attr>) -> (r: Option<u32>)
    ensures
        r == scan_attrs(order, attr_views(attrs@), 0),
{
    let ghost all = attr_views(attrs@);
    let mut ifindex: u32 = 0;
    let mut i: usize = 0;
    assert(all.skip(0) =~= all);
    while i < attrs.len()
        invariant
            i <= attrs@.len(),
            all == attr_views(attrs@),
            scan_attrs(order, all, 0) == scan_attrs(order, all.skip(i as int), ifindex),
        decreases attrs@.len() - i,
    {
        let attr = &attrs[i];
        proof {
            assert(all.skip(i as int)[0] == attr@);
            assert(all.skip(i as int).skip(1) =~= all.skip(i + 1));
        }
        match Nl80211Attribute::from(attr.kind) {
            Nl80211Attribute::Ifindex => {
                match decode_u32(order, attr.payload.as_slice()) {
                    Ok(v) => {
                        ifindex = v;
                    },
                    Err(_) => {
                        return None;
                    },
                }
            },
            Nl80211Attribute::Iftype => {
                match decode_u16(order, attr.payload.as_slice()) {
                    Ok(t) => {
                        if t == IFTYPE_STATION {
                            return Some(ifindex);
                        }
                    },
                    Err(_) => {
                        return None;
                    },
                }
            },
            _ => {},
        }
        i = i + 1;
    }
    None
}

/// The network name in the answer to an interface request: the text of its
/// first SSID attribute. `None` when the answer has no payload or no such
/// attribute, or when the attribute is not text.
pub open spec fn ssid_of(answer: NlPayload) -> Option<Seq<char>> {
    match message_of(answer) {
        Some(m) => match payload_of(m.attrs, attribute_code(Nl80211Attribute::Ssid)) {
            Some(p) => string_payload(p),
            None => None,
        },
        None => None,
    }
}

/// Reads the network name out of the answer to an interface request. An
/// interface that is not associated has none, which is no error.
pub fn fetch_ssid(answer: &NlPayload) -> (r: Option<String>)
    ensures
        match r {
            Some(s) => ssid_of(*answer) == Some(s@),
            None => ssid_of(*answer) is None,
        },
{
    match answer {
        NlPayload::Payload(m) => {
            match get_attribute(&m.attrs, u16::from(Nl80211Attribute::Ssid)) {
                Some(attr) => match decode_string(attr.payload.as_slice()) {
                    Ok(s) => Some(s),
                    Err(_) => None,
                },
                None => None,
            }
        },
        NlPayload::Empty => None,
    }
}

/// The signal strength in the answer to a station request, in dBm: the
/// signal attribute inside the first station-info group. `None` when the
/// answer has no payload, no such group or no signal in it, or when either
/// is broken.
pub open spec fn signal_of(order: ByteOrder, answer: NlPayload) -> Option<i8> {
    match message_of(answer) {
        Some(m) => match nested_attrs(order, m.attrs, attribute_code(Nl80211Attribute::StaInfo)) {
            Some(nested) => match payload_of(nested, sta_info_code(Nl80211StaInfo::Signal)) {
                Some(p) => i8_payload(p),
                None => None,
            },
            None => None,
        },
        None => None,
    }
}

/// Reads the signal strength out of the answer to a station request.
pub fn fetch_signal(order: ByteOrder, answer: &NlPayload) -> (r: Option<i8>)
    ensures
        r == signal_of(order, *answer),
{
    let m = match answer {
        NlPayload::Payload(m) => m,
        NlPayload::Empty => {
            return None;
        },
    };
    let nested = match decode_nested(order, &m.attrs, u16::from(Nl80211Attribute::StaInfo)) {
        Some(nested) => nested,
        None => {
            return None;
        },
    };
    match get_attribute(&nested, u16::from(Nl80211StaInfo::Signal)) {
        Some(attr) => match decode_i8(attr.payload.as_slice()) {
            Ok(v) => Some(v),
            Err(_) => None,
        },
        None => None,
    }
}

/// An answer whose bytes do not decode gives nothing: no interface, no name
/// and no signal. That is so in particular when its first attribute
/// declares more bytes than the message holds.
pub proof fn lemma_broken_answer_gives_nothing(order: ByteOrder, raw: Seq<u8>, answer: NlPayload)
    requires
        message_of(answer) == parsed_message(order, raw),
        parsed_message(order, raw) is None || (raw.len() > GENL_HEADER_LEN && front_len(
            order,
            raw.skip(GENL_HEADER_LEN as int),
        ) > raw.len() - GENL_HEADER_LEN),
    ensures
        parsed_message(order, raw) is None,
        managed_interface(order, answer) is None,
        ssid_of(answer) is None,
        signal_of(order, answer) is None,
{
    if raw.len() > GENL_HEADER_LEN && front_len(order, raw.skip(GENL_HEADER_LEN as int))
        > raw.len() - GENL_HEADER_LEN {
        lemma_overlong_attr_rejected(order, raw.skip(GENL_HEADER_LEN as int));
    }
}

/// The link quality in percent that a signal of `dbm` stands for: the range
/// from -100 dBm to -50 dBm spread over 0 to 100, and clamped outside it.
pub open spec fn quality(dbm: int) -> int {
    if 2 * (dbm + 100) < 0 {
        0
    } else if 2 * (dbm + 100) > 100 {
        100
    } else {
        2 * (dbm + 100)
    }
}

/// Maps a signal strength in dBm to a quality between 0 and 100.
pub fn quality_percent(dbm: i32) -> (q: usize)
    ensures
        q == quality(dbm as int),
        q <= 100,
{
    if dbm <= -100 {
        0
    } else if dbm >= -50 {
        100
    } else {
        (2 * (dbm + 100)) as usize
    }
}

/// A stronger signal never maps to a lower quality.
pub proof fn lemma_quality_monotonic(a: int, b: int)
    requires
        a <= b,
    ensures
        0 <= quality(a) <= quality(b) <= 100,
{
}

} // verus!
