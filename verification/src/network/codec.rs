//! Encoding and decoding of netlink attributes on raw byte buffers.
//!
//! An attribute on the wire is a four-byte header, a 16-bit total length
//! followed by a 16-bit type, then the payload, then padding up to the next
//! multiple of four bytes. Integers are in the byte order of the host that
//! produced the buffer, so every function here takes that order explicitly.

use vstd::prelude::*;
use vstd::slice::{slice_subrange, slice_to_vec};
use vstd::utf8::{decode_utf8, valid_utf8};

verus! {

/// Byte order of the fixed-width integers in a buffer.
#[derive(Clone, Copy, Debug, PartialEq, Eq, Structural)]
pub enum ByteOrder {
    Little,
    Big,
}

/// What went wrong while talking to the kernel or reading its answer.
#[derive(Clone, Copy, Debug, PartialEq, Eq, Structural)]
pub enum NetError {
    /// The nl80211 family or its multicast group could not be resolved.
    TransportUnavailable,
    /// A message carries no payload, or its attribute framing is broken.
    MalformedMessage,
    /// An attribute payload does not have the width of its type.
    MalformedAttribute,
}

/// Size of an attribute header: length and type, two bytes each.
pub const ATTR_HEADER_LEN: usize = 4;

/// Type codes lie below this; the two bits from here up are flags.
pub const ATTR_TYPE_LIMIT: u16 = 0x4000;

/// The unsigned 16-bit number that the two bytes `b` spell in `order`.
pub open spec fn u16_value(order: ByteOrder, b: Seq<u8>) -> int
    recommends
        b.len() == 2,
{
    match order {
        ByteOrder::Little => b[0] + 256 * b[1],
        ByteOrder::Big => b[1] + 256 * b[0],
    }
}

/// The unsigned 32-bit number that the four bytes `b` spell in `order`.
pub open spec fn u32_value(order: ByteOrder, b: Seq<u8>) -> int
    recommends
        b.len() == 4,
{
    match order {
        ByteOrder::Little => b[0] + 256 * b[1] + 65536 * b[2] + 16777216 * b[3],
        ByteOrder::Big => b[3] + 256 * b[2] + 65536 * b[1] + 16777216 * b[0],
    }
}

/// The signed 8-bit number that the byte `b` spells in two's complement.
pub open spec fn i8_value(b: u8) -> int {
    if b < 128 {
        b as int
    } else {
        b - 256
    }
}

/// The two bytes that spell `v` in `order`.
pub open spec fn u16_bytes(order: ByteOrder, v: u16) -> Seq<u8> {
    match order {
        ByteOrder::Little => seq![(v % 256) as u8, (v / 256) as u8],
        ByteOrder::Big => seq![(v / 256) as u8, (v % 256) as u8],
    }
}

/// The four bytes that spell `v` in `order`.
pub open spec fn u32_bytes(order: ByteOrder, v: u32) -> Seq<u8> {
    match order {
        ByteOrder::Little => seq![
            (v % 256) as u8,
            (v / 256 % 256) as u8,
            (v / 65536 % 256) as u8,
            (v / 16777216) as u8,
        ],
        ByteOrder::Big => seq![
            (v / 16777216) as u8,
            (v / 65536 % 256) as u8,
            (v / 256 % 256) as u8,
            (v % 256) as u8,
        ],
    }
}

/// Reading back what was written gives the number that was written.
pub proof fn lemma_u16_round_trip(order: ByteOrder, v: u16)
    ensures
        u16_bytes(order, v).len() == 2,
        u16_value(order, u16_bytes(order, v)) == v,
{
}

/// Reading back what was written gives the number that was written.
pub proof fn lemma_u32_round_trip(order: ByteOrder, v: u32)
    ensures
        u32_bytes(order, v).len() == 4,
        u32_value(order, u32_bytes(order, v)) == v,
{
}

/// Reads the 16-bit number at `pos`.
pub fn read_u16(order: ByteOrder, buf: &[u8], pos: usize) -> (v: u16)
    requires
        pos + 2 <= buf@.len(),
    ensures
        v == u16_value(order, buf@.subrange(pos as int, pos + 2)),
{
    let first: u16 = buf[pos] as u16;
    let second: u16 = buf[pos + 1] as u16;
    match order {
        ByteOrder::Little => first + 256 * second,
        ByteOrder::Big => second + 256 * first,
    }
}

/// Reads the 32-bit number at `pos`.
pub fn read_u32(order: ByteOrder, buf: &[u8], pos: usize) -> (v: u32)
    requires
        pos + 4 <= buf@.len(),
    ensures
        v == u32_value(order, buf@.subrange(pos as int, pos + 4)),
{
    let b0: u32 = buf[pos] as u32;
    let b1: u32 = buf[pos + 1] as u32;
    let b2: u32 = buf[pos + 2] as u32;
    let b3: u32 = buf[pos + 3] as u32;
    match order {
        ByteOrder::Little => b0 + 256 * b1 + 65536 * b2 + 16777216 * b3,
        ByteOrder::Big => b3 + 256 * b2 + 65536 * b1 + 16777216 * b0,
    }
}

/// Appends the two bytes of `v` to `out`.
pub fn write_u16(order: ByteOrder, v: u16, out: &mut Vec<u8>)
    ensures
        final(out)@ == old(out)@ + u16_bytes(order, v),
{
    let low: u8 = (v % 256) as u8;
    let high: u8 = (v / 256) as u8;
    match order {
        ByteOrder::Little => {
            out.push(low);
            out.push(high);
        },
        ByteOrder::Big => {
            out.push(high);
            out.push(low);
        },
    }
}

/// Appends the four bytes of `v` to `out`.
pub fn write_u32(order: ByteOrder, v: u32, out: &mut Vec<u8>)
    ensures
        final(out)@ == old(out)@ + u32_bytes(order, v),
{
    let b0: u8 = (v % 256) as u8;
    let b1: u8 = (v / 256 % 256) as u8;
    let b2: u8 = (v / 65536 % 256) as u8;
    let b3: u8 = (v / 16777216) as u8;
    match order {
        ByteOrder::Little => {
            out.push(b0);
            out.push(b1);
            out.push(b2);
            out.push(b3);
        },
        ByteOrder::Big => {
            out.push(b3);
            out.push(b2);
            out.push(b1);
            out.push(b0);
        },
    }
}

/// One attribute as it was read from a buffer: its type code, flag bits
/// removed, and its payload without header or padding.
#[derive(Clone, Debug)]
pub struct Attr {
    pub kind: u16,
    pub payload: Vec<u8>,
}

/// The mathematical value of an [`Attr`].
pub struct AttrView {
    pub kind: u16,
    pub payload: Seq<u8>,
}

impl View for Attr {
    type V = AttrView;

    open spec fn view(&self) -> AttrView {
        AttrView { kind: self.kind, payload: self.payload@ }
    }
}

/// The values of a list of attributes, in the same order.
pub open spec fn attr_views(attrs: Seq<Attr>) -> Seq<AttrView> {
    attrs.map_values(|a: Attr| a@)
}

/// `n` rounded up to the next multiple of four.
pub open spec fn align4(n: int) -> int {
    (n + 3) / 4 * 4
}

/// The total length that the attribute at the front of `buf` declares.
pub open spec fn front_len(order: ByteOrder, buf: Seq<u8>) -> int {
    u16_value(order, buf.subrange(0, 2))
}

/// Whether `buf` starts with a whole attribute: a full header, a declared
/// length that covers the header, and payload and padding inside the buffer.
pub open spec fn front_ok(order: ByteOrder, buf: Seq<u8>) -> bool {
    &&& buf.len() >= ATTR_HEADER_LEN
    &&& front_len(order, buf) >= ATTR_HEADER_LEN
    &&& align4(front_len(order, buf)) <= buf.len()
}

/// The attribute at the front of `buf`.
pub open spec fn front_attr(order: ByteOrder, buf: Seq<u8>) -> AttrView
    recommends
        front_ok(order, buf),
{
    AttrView {
        kind: (u16_value(order, buf.subrange(2, 4)) % (ATTR_TYPE_LIMIT as int)) as u16,
        payload: buf.subrange(ATTR_HEADER_LEN as int, front_len(order, buf)),
    }
}

/// `head` followed by `tail`, where `tail` may have failed.
pub open spec fn followed_by(head: Seq<AttrView>, tail: Option<Seq<AttrView>>) -> Option<
    Seq<AttrView>,
> {
    match tail {
        Some(rest) => Some(head + rest),
        None => None,
    }
}

/// The attributes that `buf` holds, in buffer order, or `None` when the
/// buffer is not a sequence of whole, padded attributes.
pub open spec fn parsed_attrs(order: ByteOrder, buf: Seq<u8>) -> Option<Seq<AttrView>>
    decreases buf.len(),
{
    if buf.len() == 0 {
        Some(Seq::empty())
    } else if !front_ok(order, buf) {
        None
    } else {
        followed_by(
            seq![front_attr(order, buf)],
            parsed_attrs(order, buf.skip(align4(front_len(order, buf)))),
        )
    }
}

/// An attribute whose declared length reaches past the end of the buffer
/// makes the buffer undecodable, whatever its type.
pub proof fn lemma_overlong_attr_rejected(order: ByteOrder, buf: Seq<u8>)
    requires
        buf.len() > 0,
        front_len(order, buf) > buf.len(),
    ensures
        parsed_attrs(order, buf) is None,
{
}

/// A buffer that fails behind a whole attribute fails as a whole: nothing
/// is decoded from a buffer with a broken attribute anywhere in it.
pub proof fn lemma_broken_rest_rejected(order: ByteOrder, buf: Seq<u8>)
    requires
        front_ok(order, buf),
        parsed_attrs(order, buf.skip(align4(front_len(order, buf)))) is None,
    ensures
        parsed_attrs(order, buf) is None,
{
}

/// Decodes every attribute of `buf`.
///
/// Fails with `MalformedMessage` exactly when the buffer is not a sequence
/// of whole attributes, for instance when a declared length reaches past
/// the end of the buffer. No byte outside `buf` is read.
pub fn decode_attrs(order: ByteOrder, buf: &[u8]) -> (r: Result<Vec<Attr>, NetError>)
    ensures
        match r {
            Ok(attrs) => parsed_attrs(order, buf@) == Some(attr_views(attrs@)),
            Err(e) => e == NetError::MalformedMessage && parsed_attrs(order, buf@) is None,
        },
{
    let mut out: Vec<Attr> = Vec::new();
    let mut pos: usize = 0;
    assert(buf@.skip(0) =~= buf@);
    assert(attr_views(out@) + Seq::<AttrView>::empty() =~= attr_views(out@));
    while pos < buf.len()
        invariant
            pos <= buf@.len(),
            parsed_attrs(order, buf@) == followed_by(
                attr_views(out@),
                parsed_attrs(order, buf@.skip(pos as int)),
            ),
        decreases buf@.len() - pos,
    {
        let ghost rest = buf@.skip(pos as int);
        let left: usize = buf.len() - pos;
        if left < ATTR_HEADER_LEN {
            return Err(NetError::MalformedMessage);
        }
        assert(rest.subrange(0, 2) =~= buf@.subrange(pos as int, pos + 2));
        assert(rest.subrange(2, 4) =~= buf@.subrange(pos + 2, pos + 4));
        let len: usize = read_u16(order, buf, pos) as usize;
        if len < ATTR_HEADER_LEN {
            return Err(NetError::MalformedMessage);
        }
        let padded: usize = (len + 3) / 4 * 4;
        if padded > left {
            return Err(NetError::MalformedMessage);
        }
        let kind: u16 = read_u16(order, buf, pos + 2) % ATTR_TYPE_LIMIT;
        let payload = slice_to_vec(slice_subrange(buf, pos + ATTR_HEADER_LEN, pos + len));
        let attr = Attr { kind, payload };
        proof {
            assert(attr@.payload =~= front_attr(order, rest).payload);
            assert(attr@ == front_attr(order, rest));
            assert(rest.skip(padded as int) =~= buf@.skip(pos + padded));
            let next = parsed_attrs(order, buf@.skip(pos + padded));
            assert(attr_views(out@.push(attr)) =~= attr_views(out@) + seq![attr@]);
            if let Some(more) = next {
                assert(attr_views(out@) + (seq![attr@] + more) =~= (attr_views(out@) + seq![
                    attr@,
                ]) + more);
            }
        }
        out.push(attr);
        pos = pos + padded;
    }
    assert(buf@.skip(pos as int).len() == 0);
    assert(attr_views(out@) + Seq::<AttrView>::empty() =~= attr_views(out@));
    Ok(out)
}

/// The payload of the first attribute of type `kind`, if there is one.
pub open spec fn payload_of(attrs: Seq<AttrView>, kind: u16) -> Option<Seq<u8>>
    decreases attrs.len(),
{
    if attrs.len() == 0 {
        None
    } else if attrs[0].kind == kind {
        Some(attrs[0].payload)
    } else {
        payload_of(attrs.skip(1), kind)
    }
}

/// Finds the first attribute of type `kind`.
pub fn get_attribute(attrs: &Vec<Attr>, kind: u16) -> (r: Option<&Attr>)
    ensures
        match r {
            Some(a) => a.kind == kind && payload_of(attr_views(attrs@), kind) == Some(
                a.payload@,
            ),
            None => payload_of(attr_views(attrs@), kind) is None,
        },
{
    let ghost all = attr_views(attrs@);
    let mut i: usize = 0;
    assert(all.skip(0) =~= all);
    while i < attrs.len()
        invariant
            i <= attrs@.len(),
            all == attr_views(attrs@),
            payload_of(all, kind) == payload_of(all.skip(i as int), kind),
        decreases attrs@.len() - i,
    {
        assert(all.skip(i as int)[0] == attrs@[i as int]@);
        if attrs[i].kind == kind {
            return Some(&attrs[i]);
        }
        assert(all.skip(i as int).skip(1) =~= all.skip(i + 1));
        i = i + 1;
    }
    None
}

/// The attributes nested inside the first attribute of type `group`, or
/// `None` when there is no such attribute or its payload is not a sequence
/// of whole attributes.
pub open spec fn nested_attrs(order: ByteOrder, attrs: Seq<AttrView>, group: u16) -> Option<
    Seq<AttrView>,
> {
    match payload_of(attrs, group) {
        Some(payload) => parsed_attrs(order, payload),
        None => None,
    }
}

/// Decodes the attributes nested inside the first attribute of type
/// `group`.
pub fn decode_nested(order: ByteOrder, attrs: &Vec<Attr>, group: u16) -> (r: Option<Vec<Attr>>)
    ensures
        match r {
            Some(nested) => nested_attrs(order, attr_views(attrs@), group) == Some(
                attr_views(nested@),
            ),
            None => nested_attrs(order, attr_views(attrs@), group) is None,
        },
{
    match get_attribute(attrs, group) {
        Some(attr) => match decode_attrs(order, attr.payload.as_slice()) {
            Ok(nested) => Some(nested),
            Err(_) => None,
        },
        None => None,
    }
}

/// The 32-bit number that a payload holds: it has exactly four bytes.
pub open spec fn u32_payload(order: ByteOrder, payload: Seq<u8>) -> Option<u32> {
    if payload.len() == 4 {
        Some(u32_value(order, payload) as u32)
    } else {
        None
    }
}

/// The 16-bit number that a payload holds: it has exactly two bytes.
pub open spec fn u16_payload(order: ByteOrder, payload: Seq<u8>) -> Option<u16> {
    if payload.len() == 2 {
        Some(u16_value(order, payload) as u16)
    } else {
        None
    }
}

/// The signed 8-bit number that a payload holds: it has exactly one byte.
pub open spec fn i8_payload(payload: Seq<u8>) -> Option<i8> {
    if payload.len() == 1 {
        Some(i8_value(payload[0]) as i8)
    } else {
        None
    }
}

/// Decodes a 32-bit payload; any other width is `MalformedAttribute`.
pub fn decode_u32(order: ByteOrder, payload: &[u8]) -> (r: Result<u32, NetError>)
    ensures
        match r {
            Ok(v) => u32_payload(order, payload@) == Some(v),
            Err(e) => e == NetError::MalformedAttribute && u32_payload(order, payload@) is None,
        },
{
    if payload.len() != 4 {
        return Err(NetError::MalformedAttribute);
    }
    assert(payload@.subrange(0, 4) =~= payload@);
    Ok(read_u32(order, payload, 0))
}

/// Decodes a 16-bit payload; any other width is `MalformedAttribute`.
pub fn decode_u16(order: ByteOrder, payload: &[u8]) -> (r: Result<u16, NetError>)
    ensures
        match r {
            Ok(v) => u16_payload(order, payload@) == Some(v),
            Err(e) => e == NetError::MalformedAttribute && u16_payload(order, payload@) is None,
        },
{
    if payload.len() != 2 {
        return Err(NetError::MalformedAttribute);
    }
    assert(payload@.subrange(0, 2) =~= payload@);
    Ok(read_u16(order, payload, 0))
}

/// Decodes a signed 8-bit payload; any other width is `MalformedAttribute`.
pub fn decode_i8(payload: &[u8]) -> (r: Result<i8, NetError>)
    ensures
        match r {
            Ok(v) => i8_payload(payload@) == Some(v),
            Err(e) => e == NetError::MalformedAttribute && i8_payload(payload@) is None,
        },
{
    if payload.len() != 1 {
        return Err(NetError::MalformedAttribute);
    }
    let b: u8 = payload[0];
    if b < 128 {
        Ok(b as i8)
    } else {
        Ok((b as i16 - 256) as i8)
    }
}

/// The text that a payload holds: all of its bytes, read as UTF-8.
pub open spec fn string_payload(payload: Seq<u8>) -> Option<Seq<char>> {
    if valid_utf8(payload) {
        Some(decode_utf8(payload))
    } else {
        None
    }
}

/// `String::from_utf8` of the standard library, with its error dropped.
///
/// Trusted: the call succeeds exactly on well-formed UTF-8, and the string
/// it returns holds the characters that those bytes encode.
#[verifier::external_body]
fn string_from_utf8(bytes: Vec<u8>) -> (r: Option<String>)
    ensures
        r is Some <==> valid_utf8(bytes@),
        r matches Some(s) ==> s@ == decode_utf8(bytes@),
{
    String::from_utf8(bytes).ok()
}

/// Decodes a text payload. Exactly the bytes of the payload are read, with
/// no terminator assumed; bytes that are not UTF-8 are `MalformedAttribute`.
pub fn decode_string(payload: &[u8]) -> (r: Result<String, NetError>)
    ensures
        match r {
            Ok(s) => string_payload(payload@) == Some(s@),
            Err(e) => e == NetError::MalformedAttribute && string_payload(payload@) is None,
        },
{
    match string_from_utf8(slice_to_vec(payload)) {
        Some(s) => Ok(s),
        None => Err(NetError::MalformedAttribute),
    }
}

/// The bytes of one attribute of type `kind` that carries the number `value`.
pub open spec fn u32_attr_bytes(order: ByteOrder, kind: u16, value: u32) -> Seq<u8> {
    u16_bytes(order, 8) + u16_bytes(order, kind) + u32_bytes(order, value)
}

/// Encodes one attribute of type `kind` whose payload is the 32-bit `value`.
pub fn encode_u32(order: ByteOrder, kind: u16, value: u32) -> (out: Vec<u8>)
    ensures
        out@ == u32_attr_bytes(order, kind, value),
{
    let mut out: Vec<u8> = Vec::new();
    write_u16(order, 8, &mut out);
    write_u16(order, kind, &mut out);
    write_u32(order, value, &mut out);
    assert(out@ =~= u32_attr_bytes(order, kind, value));
    out
}

/// Decoding an encoded attribute gives back its type and value, and
/// nothing else, as long as the type code leaves the flag bits clear.
pub proof fn lemma_encode_decode_u32(order: ByteOrder, kind: u16, value: u32)
    requires
        kind < ATTR_TYPE_LIMIT,
    ensures
        parsed_attrs(order, u32_attr_bytes(order, kind, value)) matches Some(attrs) && {
            &&& attrs.len() == 1
            &&& attrs[0].kind == kind
            &&& u32_payload(order, attrs[0].payload) == Some(value)
        },
{
    let buf = u32_attr_bytes(order, kind, value);
    lemma_u16_round_trip(order, 8);
    lemma_u16_round_trip(order, kind);
    lemma_u32_round_trip(order, value);
    assert(buf.len() == 8);
    assert(buf.subrange(0, 2) =~= u16_bytes(order, 8));
    assert(buf.subrange(2, 4) =~= u16_bytes(order, kind));
    assert(buf.subrange(4, 8) =~= u32_bytes(order, value));
    assert(front_ok(order, buf));
    assert(buf.skip(8).len() == 0);
    assert(parsed_attrs(order, buf.skip(8)) == Some(Seq::<AttrView>::empty()));
    assert(seq![front_attr(order, buf)] + Seq::<AttrView>::empty() =~= seq![
        front_attr(order, buf),
    ]);
}

} // verus!
