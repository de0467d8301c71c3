use statusbar::network::codec::{
    decode_attrs, decode_i8, decode_nested, decode_string, decode_u16, decode_u32, encode_u32,
    get_attribute,
    read_u16, read_u32, write_u16, write_u32, Attr, ByteOrder, NetError,
};

#[test]
fn read_u16_in_both_orders() {
    let buf = [0x34u8, 0x12, 0xff];
    assert_eq!(read_u16(ByteOrder::Little, &buf, 0), 0x1234);
    assert_eq!(read_u16(ByteOrder::Big, &buf, 0), 0x3412);
    assert_eq!(read_u16(ByteOrder::Little, &buf, 1), 0xff12);
}

#[test]
fn read_u32_in_both_orders() {
    let buf = [0u8, 0x78, 0x56, 0x34, 0x12];
    assert_eq!(read_u32(ByteOrder::Little, &buf, 1), 0x1234_5678);
    assert_eq!(read_u32(ByteOrder::Big, &buf, 1), 0x7856_3412);
    assert_eq!(read_u32(ByteOrder::Little, &[0xff, 0xff, 0xff, 0xff], 0), u32::MAX);
}

#[test]
fn write_appends_in_the_given_order() {
    let mut out = vec![9u8];
    write_u16(ByteOrder::Little, 0x1234, &mut out);
    write_u16(ByteOrder::Big, 0x1234, &mut out);
    write_u32(ByteOrder::Little, 0xdead_beef, &mut out);
    write_u32(ByteOrder::Big, 0xdead_beef, &mut out);
    assert_eq!(
        out,
        vec![9, 0x34, 0x12, 0x12, 0x34, 0xef, 0xbe, 0xad, 0xde, 0xde, 0xad, 0xbe, 0xef]
    );
}

#[test]
fn write_agrees_with_the_standard_library() {
    for v in [0u32, 1, 255, 256, 65535, 65536, 0x0102_0304, u32::MAX] {
        let mut le = Vec::new();
        write_u32(ByteOrder::Little, v, &mut le);
        assert_eq!(le, v.to_le_bytes().to_vec());
        let mut be = Vec::new();
        write_u32(ByteOrder::Big, v, &mut be);
        assert_eq!(be, v.to_be_bytes().to_vec());
        assert_eq!(read_u32(ByteOrder::Little, &le, 0), v);
        assert_eq!(read_u32(ByteOrder::Big, &be, 0), v);
    }
}

#[test]
fn encode_u32_spells_header_and_value() {
    assert_eq!(
        encode_u32(ByteOrder::Little, 3, 5),
        vec![8, 0, 3, 0, 5, 0, 0, 0]
    );
    assert_eq!(
        encode_u32(ByteOrder::Big, 3, 5),
        vec![0, 8, 0, 3, 0, 0, 0, 5]
    );
}

#[test]
fn encode_then_decode_gives_the_attribute_back() {
    for order in [ByteOrder::Little, ByteOrder::Big] {
        let bytes = encode_u32(order, 3, 0x0a0b_0c0d);
        let attrs = decode_attrs(order, &bytes).unwrap();
        assert_eq!(attrs.len(), 1);
        assert_eq!(attrs[0].kind, 3);
        assert_eq!(decode_u32(order, &attrs[0].payload), Ok(0x0a0b_0c0d));
    }
}

#[test]
fn decode_empty_buffer_has_no_attributes() {
    let attrs = decode_attrs(ByteOrder::Little, &[]).unwrap();
    assert!(attrs.is_empty());
}

#[test]
fn decode_skips_padding_between_attributes() {
    // A one-byte payload padded to eight bytes, then a two-byte payload.
    let buf = [5u8, 0, 7, 0, 0xc4, 0, 0, 0, 6, 0, 5, 0, 2, 0, 0, 0];
    let attrs = decode_attrs(ByteOrder::Little, &buf).unwrap();
    assert_eq!(attrs.len(), 2);
    assert_eq!(attrs[0].kind, 7);
    assert_eq!(attrs[0].payload, vec![0xc4]);
    assert_eq!(attrs[1].kind, 5);
    assert_eq!(attrs[1].payload, vec![2, 0]);
}

#[test]
fn decode_drops_the_flag_bits_of_the_type() {
    // Type 21 with the nested flag set.
    let buf = [4u8, 0, 21, 0x80];
    let attrs = decode_attrs(ByteOrder::Little, &buf).unwrap();
    assert_eq!(attrs[0].kind, 21);
    assert!(attrs[0].payload.is_empty());
    let buf = [4u8, 0, 21, 0x40];
    let attrs = decode_attrs(ByteOrder::Little, &buf).unwrap();
    assert_eq!(attrs[0].kind, 21);
}

#[test]
fn decode_ssid_longer_than_buffer_is_malformed() {
    // An SSID attribute that declares 20 bytes in a buffer of 12.
    let buf = [20u8, 0, 52, 0, b'H', b'o', b'm', b'e', b'N', b'e', b't', 0];
    assert_eq!(
        decode_attrs(ByteOrder::Little, &buf).err(),
        Some(NetError::MalformedMessage)
    );
}

#[test]
fn decode_truncated_header_is_malformed() {
    assert_eq!(
        decode_attrs(ByteOrder::Little, &[8, 0, 3]).err(),
        Some(NetError::MalformedMessage)
    );
}

#[test]
fn decode_length_below_header_is_malformed() {
    assert_eq!(
        decode_attrs(ByteOrder::Little, &[3, 0, 3, 0]).err(),
        Some(NetError::MalformedMessage)
    );
    assert_eq!(
        decode_attrs(ByteOrder::Little, &[0, 0, 3, 0]).err(),
        Some(NetError::MalformedMessage)
    );
}

#[test]
fn decode_missing_padding_is_malformed() {
    assert_eq!(
        decode_attrs(ByteOrder::Little, &[5, 0, 7, 0, 0xc4]).err(),
        Some(NetError::MalformedMessage)
    );
}

#[test]
fn decode_second_attribute_broken_fails_the_whole_buffer() {
    let buf = [8u8, 0, 3, 0, 1, 0, 0, 0, 12, 0, 5, 0, 2, 0, 0, 0];
    assert_eq!(
        decode_attrs(ByteOrder::Little, &buf).err(),
        Some(NetError::MalformedMessage)
    );
}

#[test]
fn get_attribute_finds_the_first_of_a_kind() {
    let attrs = vec![
        Attr { kind: 1, payload: vec![1] },
        Attr { kind: 3, payload: vec![2] },
        Attr { kind: 3, payload: vec![3] },
    ];
    assert_eq!(get_attribute(&attrs, 3).unwrap().payload, vec![2]);
    assert!(get_attribute(&attrs, 5).is_none());
    assert!(get_attribute(&Vec::new(), 3).is_none());
}

#[test]
fn fixed_width_payloads_need_their_width() {
    assert_eq!(decode_u32(ByteOrder::Little, &[7, 0, 0, 0]), Ok(7));
    assert_eq!(decode_u32(ByteOrder::Big, &[0, 0, 0, 7]), Ok(7));
    assert_eq!(
        decode_u32(ByteOrder::Little, &[7, 0, 0]),
        Err(NetError::MalformedAttribute)
    );
    assert_eq!(
        decode_u32(ByteOrder::Little, &[7, 0, 0, 0, 0]),
        Err(NetError::MalformedAttribute)
    );
    assert_eq!(decode_u16(ByteOrder::Little, &[2, 0]), Ok(2));
    assert_eq!(decode_u16(ByteOrder::Big, &[0, 2]), Ok(2));
    assert_eq!(
        decode_u16(ByteOrder::Little, &[2, 0, 0, 0]),
        Err(NetError::MalformedAttribute)
    );
    assert_eq!(decode_u16(ByteOrder::Little, &[]), Err(NetError::MalformedAttribute));
}

#[test]
fn signed_byte_is_twos_complement() {
    assert_eq!(decode_i8(&[0xc4]), Ok(-60));
    assert_eq!(decode_i8(&[0x00]), Ok(0));
    assert_eq!(decode_i8(&[0x7f]), Ok(127));
    assert_eq!(decode_i8(&[0x80]), Ok(-128));
    assert_eq!(decode_i8(&[0xff]), Ok(-1));
    assert_eq!(decode_i8(&[]), Err(NetError::MalformedAttribute));
    assert_eq!(decode_i8(&[1, 2]), Err(NetError::MalformedAttribute));
}

#[test]
fn string_payload_is_all_its_bytes() {
    assert_eq!(decode_string(b"HomeNet"), Ok("HomeNet".to_string()));
    assert_eq!(decode_string(b""), Ok(String::new()));
    assert_eq!(decode_string(b"ab\0"), Ok("ab\0".to_string()));
    assert_eq!(
        decode_string("caf\u{e9}".as_bytes()),
        Ok("caf\u{e9}".to_string())
    );
}

#[test]
fn string_payload_that_is_not_utf8_is_malformed() {
    assert_eq!(decode_string(&[0xff, 0xfe]), Err(NetError::MalformedAttribute));
    assert_eq!(decode_string(&[b'a', 0xc3]), Err(NetError::MalformedAttribute));
}

#[test]
fn nested_group_is_decoded_from_the_first_of_its_kind() {
    let attrs = vec![
        Attr { kind: 3, payload: vec![5, 0, 0, 0] },
        Attr { kind: 21, payload: vec![5, 0, 7, 0, 0xc4, 0, 0, 0, 8, 0, 1, 0, 9, 0, 0, 0] },
        Attr { kind: 21, payload: vec![] },
    ];
    let nested = decode_nested(ByteOrder::Little, &attrs, 21).unwrap();
    assert_eq!(nested.len(), 2);
    assert_eq!(nested[0].kind, 7);
    assert_eq!(nested[0].payload, vec![0xc4]);
    assert_eq!(nested[1].kind, 1);
    assert_eq!(nested[1].payload, vec![9, 0, 0, 0]);
    assert!(decode_nested(ByteOrder::Little, &attrs, 22).is_none());
    assert!(decode_nested(ByteOrder::Little, &attrs, 3).is_none());
    assert_eq!(decode_nested(ByteOrder::Big, &attrs, 21).map(|n| n.len()), None);
}
