use std::io::Cursor;

use neli::genl::{AttrType, Genlmsghdr, GenlmsghdrBuilder, Nlattr, NlattrBuilder};
use neli::types::{Buffer, GenlBuffer};
use neli::{FromBytesWithInput, ToBytes};

use statusbar::network::codec::{decode_attrs, decode_u32, encode_u32, ByteOrder};
use statusbar::network::nl80211_stream::{
    GenlMessage, Nl80211Attribute, Nl80211Command, Nl80211StaInfo, NlPayload,
};
use statusbar::network::query::{fetch_signal, fetch_ssid, Request};
use statusbar::networkwidget::NetworkState;

fn host() -> ByteOrder {
    if u16::from_ne_bytes([1, 0]) == 1 {
        ByteOrder::Little
    } else {
        ByteOrder::Big
    }
}

fn bytes_of<T: ToBytes>(value: &T) -> Vec<u8> {
    let mut buffer = Cursor::new(Vec::new());
    value.to_bytes(&mut buffer).unwrap();
    buffer.into_inner()
}

fn u32_attr(kind: u16, value: u32) -> Nlattr<u16, Buffer> {
    NlattrBuilder::default()
        .nla_type(AttrType::from(kind))
        .nla_payload(value)
        .build()
        .unwrap()
}

fn message(cmd: u8, attrs: Vec<Nlattr<u16, Buffer>>) -> Genlmsghdr<u8, u16> {
    GenlmsghdrBuilder::default()
        .cmd(cmd)
        .version(1)
        .attrs(attrs.into_iter().collect::<GenlBuffer<u16, Buffer>>())
        .build()
        .unwrap()
}

#[test]
fn encoded_attribute_is_what_the_netlink_library_writes() {
    for (kind, value) in [(3u16, 7u32), (1, 0), (3, u32::MAX), (52, 0x0102_0304)] {
        assert_eq!(encode_u32(host(), kind, value), bytes_of(&u32_attr(kind, value)));
    }
}

#[test]
fn encoded_request_is_what_the_netlink_library_writes() {
    let theirs = bytes_of(&message(5, vec![u32_attr(3, 9)]));
    assert_eq!(Request::interface(host(), 9).encode(), theirs);
    let theirs = bytes_of(&message(17, vec![u32_attr(3, 9)]));
    assert_eq!(Request::station(host(), 9).encode(), theirs);
    let theirs = bytes_of(&message(5, Vec::new()));
    assert_eq!(Request::interface_dump().encode(), theirs);
}

#[test]
fn encoded_request_is_read_by_the_netlink_library() {
    let ours = Request::station(host(), 12).encode();
    let parsed =
        Genlmsghdr::<u8, u16>::from_bytes_with_input(&mut Cursor::new(&ours), ours.len()).unwrap();
    assert_eq!(*parsed.cmd(), u8::from(Nl80211Command::GetStation));
    assert_eq!(*parsed.version(), 1);
    let handle = parsed.attrs().get_attr_handle();
    let ifindex = handle
        .get_attr_payload_as::<u32>(u16::from(Nl80211Attribute::Ifindex))
        .unwrap();
    assert_eq!(ifindex, 12);
    assert_eq!(handle.get_attrs().len(), 1);
}

#[test]
fn attributes_of_the_netlink_library_decode_alike() {
    let ssid: Nlattr<u16, Buffer> = NlattrBuilder::default()
        .nla_type(AttrType::from(52u16))
        .nla_payload(Buffer::from(b"HomeNet".to_vec()))
        .build()
        .unwrap();
    let theirs = bytes_of(&message(5, vec![u32_attr(3, 5), ssid, u32_attr(1, 2)]));
    let m = GenlMessage::decode(host(), &theirs).unwrap();
    assert_eq!(m.cmd, Nl80211Command::GetInterface);
    assert_eq!(m.attrs.len(), 3);
    assert_eq!(m.attrs[0].kind, 3);
    assert_eq!(decode_u32(host(), &m.attrs[0].payload), Ok(5));
    assert_eq!(m.attrs[1].kind, 52);
    assert_eq!(m.attrs[1].payload, b"HomeNet".to_vec());
    assert_eq!(m.attrs[2].kind, 1);
    assert_eq!(fetch_ssid(&NlPayload::Payload(m)), Some("HomeNet".to_string()));
}

#[test]
fn nested_station_group_of_the_netlink_library_gives_the_signal() {
    let signal: Nlattr<u16, Buffer> = NlattrBuilder::default()
        .nla_type(AttrType::from(u16::from(Nl80211StaInfo::Signal)))
        .nla_payload(-60i8)
        .build()
        .unwrap();
    let inactive = u32_attr(u16::from(Nl80211StaInfo::InactiveTime), 40);
    let group: Nlattr<u16, Buffer> = NlattrBuilder::default()
        .nla_type(AttrType::from(u16::from(Nl80211Attribute::StaInfo)))
        .nla_payload(Buffer::from(Vec::new()))
        .build()
        .unwrap()
        .nest(&inactive)
        .unwrap()
        .nest(&signal)
        .unwrap();
    let theirs = bytes_of(&message(17, vec![u32_attr(3, 5), group]));
    let answer = NlPayload::decode(host(), Some(&theirs));
    assert_eq!(fetch_signal(host(), &answer), Some(-60));
}

#[test]
fn interface_dump_of_the_netlink_library_is_scanned() {
    let iftype = |value: u16| -> Nlattr<u16, Buffer> {
        NlattrBuilder::default()
            .nla_type(AttrType::from(5u16))
            .nla_payload(value)
            .build()
            .unwrap()
    };
    let dump: Vec<NlPayload> = [(3u32, 1u16), (7, 2), (9, 2)]
        .into_iter()
        .map(|(ifindex, kind)| {
            let raw = bytes_of(&message(5, vec![u32_attr(3, ifindex), iftype(kind)]));
            NlPayload::decode(host(), Some(&raw))
        })
        .collect();
    assert_eq!(NetworkState::get_default_ifindex(host(), &dump), 7);
}

#[test]
fn broken_framing_is_refused_by_both() {
    for raw in [
        vec![20u8, 0, 52, 0, b'a', b'b', b'c', b'd'],
        vec![8, 0, 3],
        vec![2, 0, 3, 0],
        vec![5, 0, 7, 0, 1],
    ] {
        let raw = match host() {
            ByteOrder::Little => raw,
            ByteOrder::Big => {
                let mut swapped = raw.clone();
                if swapped.len() >= 2 {
                    swapped.swap(0, 1);
                }
                if swapped.len() >= 4 {
                    swapped.swap(2, 3);
                }
                swapped
            }
        };
        let theirs =
            GenlBuffer::<u16, Buffer>::from_bytes_with_input(&mut Cursor::new(&raw), raw.len());
        assert!(theirs.is_err());
        assert!(decode_attrs(host(), &raw).is_err());
    }
}

#[test]
fn padded_attributes_are_read_by_both() {
    let raw_little = vec![5u8, 0, 7, 0, 0xc4, 0, 0, 0, 8, 0, 3, 0, 1, 0, 0, 0];
    let raw = match host() {
        ByteOrder::Little => raw_little,
        ByteOrder::Big => vec![0u8, 5, 0, 7, 0xc4, 0, 0, 0, 0, 8, 0, 3, 0, 0, 0, 1],
    };
    let theirs =
        GenlBuffer::<u16, Buffer>::from_bytes_with_input(&mut Cursor::new(&raw), raw.len())
            .unwrap();
    let ours = decode_attrs(host(), &raw).unwrap();
    assert_eq!(ours.len(), 2);
    let theirs: Vec<(u16, Vec<u8>)> = theirs
        .iter()
        .map(|attr| (*attr.nla_type().nla_type(), attr.nla_payload().as_ref().to_vec()))
        .collect();
    let ours: Vec<(u16, Vec<u8>)> = ours.into_iter().map(|a| (a.kind, a.payload)).collect();
    assert_eq!(ours, theirs);
}
