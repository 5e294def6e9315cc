//! The LIFX datagram codec: a request and its options become the bytes of a
//! datagram, and the bytes at the head of a buffer become a message.
use vstd::prelude::*;
use vstd::string::*;

use super::{SendOptions, Hsbk, LifxMessage, PowerLevel, Request};

verus! {

/// The two bytes of `x`, least significant first.
pub open spec fn le16(x: u16) -> Seq<u8> {
    seq![x as u8, (x >> 8) as u8]
}

/// The four bytes of `x`, least significant first.
pub open spec fn le32(x: u32) -> Seq<u8> {
    seq![x as u8, (x >> 8) as u8, (x >> 16) as u8, (x >> 24) as u8]
}

/// The eight bytes of `x`, least significant first.
pub open spec fn le64(x: u64) -> Seq<u8> {
    le32(x as u32) + le32((x >> 32) as u32)
}

/// The little-endian `u16` at `i` in `s`.
pub open spec fn read16(s: Seq<u8>, i: int) -> u16 {
    ((s[i] as u16) | ((s[i + 1] as u16) << 8)) as u16
}

/// The little-endian `u32` at `i` in `s`.
pub open spec fn read32(s: Seq<u8>, i: int) -> u32 {
    ((read16(s, i) as u32) | ((read16(s, i + 2) as u32) << 16)) as u32
}

/// The little-endian `u64` at `i` in `s`.
pub open spec fn read64(s: Seq<u8>, i: int) -> u64 {
    ((read32(s, i) as u64) | ((read32(s, i + 4) as u64) << 32)) as u64
}

/// The frame, frame address and protocol header of a LIFX datagram, field
/// by field, with the payload that follows them.
#[derive(Debug)]
pub struct RawFrame {
    /// Size of the whole datagram, in bytes.
    pub size: u16,
    pub origin: u8,
    /// Whether the datagram is addressed to every device.
    pub tagged: bool,
    pub addressable: bool,
    pub protocol: u16,
    pub source: u32,
    pub target: u64,
    pub reserved: [u8; 6],
    pub reserved2: u8,
    pub ack_required: bool,
    pub res_required: bool,
    pub sequence: u8,
    pub header_reserved: u64,
    /// The message type.
    pub typ: u16,
    pub header_reserved2: u16,
    pub payload: Vec<u8>,
}

/// The routing part of a datagram: the device addressed, the flags and the
/// sequence number.
#[derive(Clone, Copy, Debug)]
pub struct FrameAddress {
    pub target: u64,
    pub reserved: [u8; 6],
    pub reserved2: u8,
    pub ack_required: bool,
    pub res_required: bool,
    pub sequence: u8,
}

/// Why a datagram could not be read or written.
#[derive(Clone, Debug)]
pub enum LifxError {
    /// The message type is unknown: LIFX devices are known to send messages
    /// that are not documented, so this is not necessarily a bug.
    UnknownMessageType(u16),
    /// A field holds an invalid or unsupported value.
    ProtocolError(String),
    Io(String),
}

/// What reading the head of a buffer came to when no frame came of it.
#[derive(Clone, Debug)]
pub enum UnpackError {
    /// The buffer does not hold a whole header yet.
    Incomplete,
    Failed(LifxError),
}

/// The word that follows the size in a frame: origin, tagged and
/// addressable bits, and the protocol number.
pub open spec fn frame_word(origin: u8, tagged: bool, addressable: bool, protocol: u16) -> u16 {
    ((((origin as u16) & 3) << 14) + ((if tagged { 1u16 } else { 0u16 }) << 13) + ((if addressable {
        1u16
    } else {
        0u16
    }) << 12) + (protocol & 0xfff)) as u16
}

/// The byte of the frame address that holds the reserved bits and the two
/// flags.
pub open spec fn address_flags(reserved2: u8, ack_required: bool, res_required: bool) -> u8 {
    ((reserved2 << 2) + (if ack_required { 2u8 } else { 0u8 }) + (if res_required {
        1u8
    } else {
        0u8
    })) as u8
}

/// The bytes of a datagram with these fields.
pub open spec fn frame_bytes(
    size: u16,
    origin: u8,
    tagged: bool,
    addressable: bool,
    protocol: u16,
    source: u32,
    target: u64,
    reserved: Seq<u8>,
    reserved2: u8,
    ack_required: bool,
    res_required: bool,
    sequence: u8,
    header_reserved: u64,
    typ: u16,
    header_reserved2: u16,
    payload: Seq<u8>,
) -> Seq<u8> {
    le16(size) + le16(frame_word(origin, tagged, addressable, protocol)) + le32(source) + le64(target)
        + reserved + seq![address_flags(reserved2, ack_required, res_required), sequence] + le64(
        header_reserved,
    ) + le16(typ) + le16(header_reserved2) + payload
}

/// The bytes of `raw`.
pub open spec fn packed(raw: RawFrame) -> Seq<u8> {
    frame_bytes(
        raw.size,
        raw.origin,
        raw.tagged,
        raw.addressable,
        raw.protocol,
        raw.source,
        raw.target,
        raw.reserved@,
        raw.reserved2,
        raw.ack_required,
        raw.res_required,
        raw.sequence,
        raw.header_reserved,
        raw.typ,
        raw.header_reserved2,
        raw.payload@,
    )
}

/// Whether `s` holds the protocol word of a frame, with protocol 1024.
pub open spec fn protocol_ok(s: Seq<u8>) -> bool {
    s.len() >= 4 && read16(s, 2) & 0xfff == 1024
}

/// Whether reading a frame at the head of `s` fails an assertion of the
/// reader: a frame whose addressable bit is clear, or whose size is less
/// than its header or more than `s` holds.
pub open spec fn unpack_panics(s: Seq<u8>) -> bool {
    ||| protocol_ok(s) && s.len() >= 8 && read16(s, 2) & 0x1000 == 0
    ||| protocol_ok(s) && s.len() >= 36 && !(36 <= read16(s, 0) <= s.len())
}

/// Whether `raw` holds the frame at the head of `s`.
pub open spec fn unpacks_to(s: Seq<u8>, raw: RawFrame) -> bool {
    let d = read16(s, 2);
    let b = s[22];
    &&& raw.size == read16(s, 0)
    &&& raw.origin == ((d & 0xc000) >> 14) as u8
    &&& raw.tagged == (d & 0x2000 > 0)
    &&& raw.addressable == (d & 0x1000 > 0)
    &&& raw.protocol == d & 0xfff
    &&& raw.source == read32(s, 4)
    &&& raw.target == read64(s, 8)
    &&& raw.reserved@ == s.subrange(16, 22)
    &&& raw.reserved2 == (b & 0xfc) >> 2
    &&& raw.ack_required == (b & 2 > 0)
    &&& raw.res_required == (b & 1 > 0)
    &&& raw.sequence == s[23]
    &&& raw.header_reserved == read64(s, 24)
    &&& raw.typ == read16(s, 32)
    &&& raw.header_reserved2 == read16(s, 34)
    &&& raw.payload@ == s.subrange(36, read16(s, 0) as int)
}

proof fn lemma_read16(s: Seq<u8>, i: int, x: u16)
    requires
        0 <= i,
        i + 2 <= s.len(),
        s.subrange(i, i + 2) == le16(x),
    ensures
        read16(s, i) == x,
{
    assert(s[i] == s.subrange(i, i + 2)[0]);
    assert(s[i + 1] == s.subrange(i, i + 2)[1]);
    let b0 = s[i];
    let b1 = s[i + 1];
    assert(((b0 as u16) | ((b1 as u16) << 8)) as u16 == x) by (bit_vector)
        requires
            b0 == x as u8,
            b1 == (x >> 8) as u8,
    ;
}

proof fn lemma_read32(s: Seq<u8>, i: int, x: u32)
    requires
        0 <= i,
        i + 4 <= s.len(),
        s.subrange(i, i + 4) == le32(x),
    ensures
        read32(s, i) == x,
{
    let lo = x as u16;
    let hi = (x >> 16) as u16;
    assert(lo as u8 == x as u8 && (lo >> 8) as u8 == (x >> 8) as u8) by (bit_vector)
        requires
            lo == x as u16,
    ;
    assert(hi as u8 == (x >> 16) as u8 && (hi >> 8) as u8 == (x >> 24) as u8) by (bit_vector)
        requires
            hi == (x >> 16) as u16,
    ;
    assert(s.subrange(i, i + 2) =~= le16(lo)) by {
        assert(s.subrange(i, i + 2)[0] == s.subrange(i, i + 4)[0]);
        assert(s.subrange(i, i + 2)[1] == s.subrange(i, i + 4)[1]);
    }
    assert(s.subrange(i + 2, i + 4) =~= le16(hi)) by {
        assert(s.subrange(i + 2, i + 4)[0] == s.subrange(i, i + 4)[2]);
        assert(s.subrange(i + 2, i + 4)[1] == s.subrange(i, i + 4)[3]);
    }
    lemma_read16(s, i, lo);
    lemma_read16(s, i + 2, hi);
    assert(((lo as u32) | ((hi as u32) << 16)) as u32 == x) by (bit_vector)
        requires
            lo == x as u16,
            hi == (x >> 16) as u16,
    ;
}

proof fn lemma_read64(s: Seq<u8>, i: int, x: u64)
    requires
        0 <= i,
        i + 8 <= s.len(),
        s.subrange(i, i + 8) == le64(x),
    ensures
        read64(s, i) == x,
{
    let lo = x as u32;
    let hi = (x >> 32) as u32;
    assert(s.subrange(i, i + 4) =~= le32(lo)) by {
        assert forall|k: int| 0 <= k < 4 implies #[trigger] s.subrange(i, i + 4)[k] == s.subrange(
            i,
            i + 8,
        )[k] by {}
    }
    assert(s.subrange(i + 4, i + 8) =~= le32(hi)) by {
        assert forall|k: int| 0 <= k < 4 implies #[trigger] s.subrange(i + 4, i + 8)[k]
            == s.subrange(i, i + 8)[k + 4] by {}
    }
    lemma_read32(s, i, lo);
    lemma_read32(s, i + 4, hi);
    assert(((lo as u64) | ((hi as u64) << 32)) as u64 == x) by (bit_vector)
        requires
            lo == x as u32,
            hi == (x >> 32) as u32,
    ;
}

proof fn lemma_frame_word(origin: u8, tagged: bool, addressable: bool, protocol: u16)
    requires
        origin < 4,
        protocol < 4096,
    ensures
        ({
            let d = frame_word(origin, tagged, addressable, protocol);
            &&& ((d & 0xc000) >> 14) as u8 == origin
            &&& (d & 0x2000 > 0) == tagged
            &&& (d & 0x1000 > 0) == addressable
            &&& d & 0xfff == protocol
        }),
{
    let t: u16 = if tagged { 1 } else { 0 };
    let a: u16 = if addressable { 1 } else { 0 };
    let d = frame_word(origin, tagged, addressable, protocol);
    assert(d == ((((origin as u16) & 3) << 14) + (t << 13) + (a << 12) + (protocol & 0xfff)) as u16);
    assert(((d & 0xc000) >> 14) as u8 == origin && (d & 0x2000 > 0) == (t == 1) && (d & 0x1000 > 0)
        == (a == 1) && d & 0xfff == protocol) by (bit_vector)
        requires
            origin < 4,
            protocol < 4096,
            t < 2,
            a < 2,
            d == ((((origin as u16) & 3) << 14) + (t << 13) + (a << 12) + (protocol & 0xfff)) as u16,
    ;
}

proof fn lemma_address_flags(reserved2: u8, ack_required: bool, res_required: bool)
    requires
        reserved2 < 64,
    ensures
        ({
            let b = address_flags(reserved2, ack_required, res_required);
            &&& (b & 0xfc) >> 2 == reserved2
            &&& (b & 2 > 0) == ack_required
            &&& (b & 1 > 0) == res_required
        }),
{
    let k: u8 = if ack_required { 2 } else { 0 };
    let r: u8 = if res_required { 1 } else { 0 };
    let b = address_flags(reserved2, ack_required, res_required);
    assert(b == ((reserved2 << 2) + k + r) as u8);
    assert((b & 0xfc) >> 2 == reserved2 && (b & 2 > 0) == (k == 2) && (b & 1 > 0) == (r == 1))
        by (bit_vector)
        requires
            reserved2 < 64,
            k == 0 || k == 2,
            r < 2,
            b == ((reserved2 << 2) + k + r) as u8,
    ;
}

/// What reading the frame at the head of `frame_bytes(..) + rest` gives
/// back, field by field.
proof fn lemma_frame_fields(
    size: u16,
    origin: u8,
    tagged: bool,
    addressable: bool,
    protocol: u16,
    source: u32,
    target: u64,
    reserved: Seq<u8>,
    reserved2: u8,
    ack_required: bool,
    res_required: bool,
    sequence: u8,
    header_reserved: u64,
    typ: u16,
    header_reserved2: u16,
    payload: Seq<u8>,
    rest: Seq<u8>,
)
    requires
        origin < 4,
        addressable,
        protocol == 1024,
        reserved.len() == 6,
        reserved2 < 64,
        size == 36 + payload.len(),
    ensures
        ({
            let s = frame_bytes(
                size,
                origin,
                tagged,
                addressable,
                protocol,
                source,
                target,
                reserved,
                reserved2,
                ack_required,
                res_required,
                sequence,
                header_reserved,
                typ,
                header_reserved2,
                payload,
            ) + rest;
            let d = read16(s, 2);
            let b = s[22];
            &&& protocol_ok(s)
            &&& s.len() >= 36
            &&& !unpack_panics(s)
            &&& read16(s, 0) == size
            &&& ((d & 0xc000) >> 14) as u8 == origin
            &&& (d & 0x2000 > 0) == tagged
            &&& (d & 0x1000 > 0) == addressable
            &&& d & 0xfff == protocol
            &&& read32(s, 4) == source
            &&& read64(s, 8) == target
            &&& s.subrange(16, 22) == reserved
            &&& (b & 0xfc) >> 2 == reserved2
            &&& (b & 2 > 0) == ack_required
            &&& (b & 1 > 0) == res_required
            &&& s[23] == sequence
            &&& read64(s, 24) == header_reserved
            &&& read16(s, 32) == typ
            &&& read16(s, 34) == header_reserved2
            &&& s.subrange(36, size as int) == payload
            &&& s.subrange(size as int, s.len() as int) == rest
        }),
{
    let s = frame_bytes(
        size,
        origin,
        tagged,
        addressable,
        protocol,
        source,
        target,
        reserved,
        reserved2,
        ack_required,
        res_required,
        sequence,
        header_reserved,
        typ,
        header_reserved2,
        payload,
    ) + rest;
    let d = frame_word(origin, tagged, addressable, protocol);
    let b = address_flags(reserved2, ack_required, res_required);
    assert(s.subrange(0, 2) =~= le16(size));
    assert(s.subrange(2, 4) =~= le16(d));
    assert(s.subrange(4, 8) =~= le32(source));
    assert(s.subrange(8, 16) =~= le64(target));
    assert(s.subrange(16, 22) =~= reserved);
    assert(s[22] == b);
    assert(s[23] == sequence);
    assert(s.subrange(24, 32) =~= le64(header_reserved));
    assert(s.subrange(32, 34) =~= le16(typ));
    assert(s.subrange(34, 36) =~= le16(header_reserved2));
    assert(s.subrange(36, size as int) =~= payload);
    assert(s.subrange(size as int, s.len() as int) =~= rest);
    lemma_read16(s, 0, size);
    lemma_read16(s, 2, d);
    lemma_read32(s, 4, source);
    lemma_read64(s, 8, target);
    lemma_read64(s, 24, header_reserved);
    lemma_read16(s, 32, typ);
    lemma_read16(s, 34, header_reserved2);
    lemma_frame_word(origin, tagged, addressable, protocol);
    lemma_address_flags(reserved2, ack_required, res_required);
}

/// Reading a buffer that starts with the bytes of a well-formed frame
/// gives that frame back, field for field, and the frame is followed by
/// exactly what followed its bytes.
pub proof fn law_unpack_reads_back_a_packed_frame(raw: RawFrame, rest: Seq<u8>)
    requires
        raw.origin < 4,
        raw.addressable,
        raw.protocol == 1024,
        raw.reserved2 < 64,
        raw.size == 36 + raw.payload@.len(),
    ensures
        ({
            let s = packed(raw) + rest;
            &&& protocol_ok(s)
            &&& s.len() >= 36
            &&& !unpack_panics(s)
            &&& unpacks_to(s, raw)
            &&& s.subrange(raw.size as int, s.len() as int) == rest
        }),
{
    lemma_frame_fields(
        raw.size,
        raw.origin,
        raw.tagged,
        raw.addressable,
        raw.protocol,
        raw.source,
        raw.target,
        raw.reserved@,
        raw.reserved2,
        raw.ack_required,
        raw.res_required,
        raw.sequence,
        raw.header_reserved,
        raw.typ,
        raw.header_reserved2,
        raw.payload@,
        rest,
    );
}

#[verifier::external_type_specification]
#[verifier::external_body]
pub struct ExLifxBuildOptions(lifx_core::BuildOptions);

#[verifier::external_type_specification]
#[verifier::external_body]
pub struct ExLifxMessage(lifx_core::Message);

#[verifier::external_type_specification]
#[verifier::external_body]
pub struct ExLifxRawMessage(lifx_core::RawMessage);

#[verifier::external_type_specification]
#[verifier::external_body]
pub struct ExLifxError(lifx_core::Error);

/// The protocol number of a power level.
pub open spec fn power_level_value(level: PowerLevel) -> u16 {
    match level {
        PowerLevel::Standby => 0,
        PowerLevel::Enabled => 65535,
    }
}

/// The message type of `request`.
pub open spec fn request_number(request: Request) -> u16 {
    match request {
        Request::GetService => 2,
        Request::GetPower => 20,
        Request::SetPower { .. } => 21,
        Request::GetLabel => 23,
        Request::GetVersion => 32,
        Request::GetLocation => 48,
        Request::GetGroup => 51,
        Request::LightGet => 101,
        Request::LightSetColor { .. } => 102,
    }
}

/// The payload of `request`.
pub open spec fn request_payload(request: Request) -> Seq<u8> {
    match request {
        Request::LightSetColor { reserved, color, duration } => seq![reserved] + le16(color.hue)
            + le16(color.saturation) + le16(color.brightness) + le16(color.kelvin) + le32(duration),
        Request::SetPower { level } => le16(power_level_value(level)),
        _ => Seq::empty(),
    }
}

/// The bytes of the datagram that carries `request` with `options`.
pub open spec fn encoded(options: SendOptions, request: Request) -> Seq<u8> {
    let payload = request_payload(request);
    frame_bytes(
        (36 + payload.len()) as u16,
        0,
        options.target is None,
        true,
        1024,
        options.source,
        match options.target {
            Some(t) => t,
            None => 0,
        },
        seq![0u8, 0u8, 0u8, 0u8, 0u8, 0u8],
        0,
        options.ack_required,
        options.res_required,
        options.sequence,
        0,
        request_number(request),
        0,
        payload,
    )
}

/// What `lifx_core::Message::from_raw` reads from a datagram of type `typ`,
/// sequence number `sequence` and payload `payload`, as a message of this
/// crate.
pub uninterp spec fn lifx_from_raw(typ: u16, sequence: u8, payload: Seq<u8>) -> Result<
    LifxMessage,
    LifxError,
>;

/// The text of a label field of `lifx_core`: its bytes other than zero,
/// each read as the character of that code (for ASCII bytes).
pub open spec fn label_text(bytes: Seq<u8>) -> Seq<char>
    decreases bytes.len(),
{
    if bytes.len() == 0 {
        Seq::empty()
    } else if bytes.last() == 0 {
        label_text(bytes.drop_last())
    } else {
        label_text(bytes.drop_last()).push(bytes.last() as char)
    }
}

/// Whether `label` is what a label field of bytes `bytes` reads as, where
/// those bytes are ASCII.
pub open spec fn label_read(bytes: Seq<u8>, label: String) -> bool {
    (forall|i: int| 0 <= i < bytes.len() ==> #[trigger] bytes[i] < 128) ==> label@ == label_text(bytes)
}

/// What the payload of a message that a bulb sends about its state reads
/// as, by message type, when the payload holds all its fields: its power
/// level (type 22), label (25), version (33), location (50), group (53) or
/// light state (107). `m` is the message read, `None` for an error.
pub open spec fn state_message_read(typ: u16, payload: Seq<u8>, m: Option<LifxMessage>) -> bool {
    &&& typ == 22 && payload.len() >= 2 ==> m == Some(LifxMessage::StatePower { level: read16(payload, 0) })
    &&& typ == 25 && payload.len() >= 32 ==> (m matches Some(LifxMessage::StateLabel { label })
        && label_read(payload.subrange(0, 31), label))
    &&& typ == 33 && payload.len() >= 12 ==> m == Some(
        LifxMessage::StateVersion { vendor: read32(payload, 0), product: read32(payload, 4) },
    )
    &&& typ == 50 && payload.len() >= 56 ==> (m matches Some(LifxMessage::StateLocation { label })
        && label_read(payload.subrange(16, 47), label))
    &&& typ == 53 && payload.len() >= 56 ==> (m matches Some(LifxMessage::StateGroup { label })
        && label_read(payload.subrange(16, 47), label))
    &&& typ == 107 && payload.len() >= 52 ==> (m matches Some(LifxMessage::LightState { color, power, label })
        && color == (Hsbk {
        hue: read16(payload, 0),
        saturation: read16(payload, 2),
        brightness: read16(payload, 4),
        kelvin: read16(payload, 6),
    }) && power == read16(payload, 10) && label_read(payload.subrange(12, 43), label))
}

#[verifier::external_type_specification]
#[verifier::external_body]
pub struct ExLifxHsbk(lifx_core::HSBK);

/// Converts options to those of `lifx_core`, field for field.
#[verifier::external_body]
fn lifx_options(options: &SendOptions) -> lifx_core::BuildOptions {
    lifx_core::BuildOptions {
        target: options.target,
        ack_required: options.ack_required,
        res_required: options.res_required,
        sequence: options.sequence,
        source: options.source,
    }
}

/// Converts a color to that of `lifx_core`, field for field.
#[verifier::external_body]
fn lifx_hsbk(c: Hsbk) -> lifx_core::HSBK {
    lifx_core::HSBK { hue: c.hue, saturation: c.saturation, brightness: c.brightness, kelvin: c.kelvin }
}

/// Converts a color of `lifx_core` to one of this crate, field for field.
#[verifier::external_body]
fn hsbk_of(c: lifx_core::HSBK) -> Hsbk {
    Hsbk { hue: c.hue, saturation: c.saturation, brightness: c.brightness, kelvin: c.kelvin }
}

/// Converts a request to the `lifx_core` message of the same variant.
#[verifier::external_body]
fn lifx_request(request: Request) -> lifx_core::Message {
    match request {
        Request::GetService => lifx_core::Message::GetService,
        Request::GetLabel => lifx_core::Message::GetLabel,
        Request::GetLocation => lifx_core::Message::GetLocation,
        Request::GetGroup => lifx_core::Message::GetGroup,
        Request::GetVersion => lifx_core::Message::GetVersion,
        Request::GetPower => lifx_core::Message::GetPower,
        Request::LightGet => lifx_core::Message::LightGet,
        Request::LightSetColor { reserved, color, duration } =>
            lifx_core::Message::LightSetColor { reserved, color: lifx_hsbk(color), duration },
        Request::SetPower { level: PowerLevel::Standby } => lifx_core::Message::SetPower { level: lifx_core::PowerLevel::Standby },
        Request::SetPower { level: PowerLevel::Enabled } => lifx_core::Message::SetPower { level: lifx_core::PowerLevel::Enabled },
    }
}

/// Converts a `lifx_core` message to one of this crate; the requests are
/// converted here and the other messages by `state_message_of`.
#[verifier::external_body]
fn message_of(m: lifx_core::Message) -> LifxMessage {
    match m {
        lifx_core::Message::GetService => LifxMessage::GetService,
        lifx_core::Message::GetLabel => LifxMessage::GetLabel,
        lifx_core::Message::GetLocation => LifxMessage::GetLocation,
        lifx_core::Message::GetGroup => LifxMessage::GetGroup,
        lifx_core::Message::GetVersion => LifxMessage::GetVersion,
        lifx_core::Message::GetPower => LifxMessage::GetPower,
        lifx_core::Message::LightGet => LifxMessage::LightGet,
        lifx_core::Message::LightSetColor { reserved, color, duration } =>
            LifxMessage::LightSetColor { reserved, color: hsbk_of(color), duration },
        lifx_core::Message::SetPower { level: lifx_core::PowerLevel::Standby } => LifxMessage::SetPower { level: PowerLevel::Standby },
        lifx_core::Message::SetPower { level: lifx_core::PowerLevel::Enabled } => LifxMessage::SetPower { level: PowerLevel::Enabled },
        other => state_message_of(other),
    }
}

/// Converts a `lifx_core` message that a bulb sends about its state to one
/// of this crate, keeping the fields that this crate reads; any other
/// message becomes `LifxMessage::Unsupported`.
#[verifier::external_body]
fn state_message_of(m: lifx_core::Message) -> LifxMessage {
    match m {
        lifx_core::Message::StateService { service, port } => LifxMessage::StateService { service: service as u8, port },
        lifx_core::Message::StateVersion { vendor, product, .. } => LifxMessage::StateVersion { vendor, product },
        lifx_core::Message::StateLabel { label } => LifxMessage::StateLabel { label: label.to_string() },
        lifx_core::Message::StateLocation { label, .. } => LifxMessage::StateLocation { label: label.to_string() },
        lifx_core::Message::StateGroup { label, .. } => LifxMessage::StateGroup { label: label.to_string() },
        lifx_core::Message::LightState { color, power, label, .. } =>
            LifxMessage::LightState { color: hsbk_of(color), power, label: label.to_string() },
        lifx_core::Message::StatePower { level } => LifxMessage::StatePower { level },
        _ => LifxMessage::Unsupported,
    }
}

/// Converts an error of `lifx_core` to one of this crate; an i/o error is
/// kept as its description.
#[verifier::external_body]
fn error_of(e: lifx_core::Error) -> LifxError {
    match e {
        lifx_core::Error::UnknownMessageType(t) => LifxError::UnknownMessageType(t),
        lifx_core::Error::ProtocolError(s) => LifxError::ProtocolError(s),
        lifx_core::Error::Io(e) => LifxError::Io(format!("{}", e)),
    }
}

/// Converts a frame to the `lifx_core` raw message of the same fields.
#[verifier::external_body]
fn lifx_raw(raw: &RawFrame) -> lifx_core::RawMessage {
    lifx_core::RawMessage {
        frame: lifx_core::Frame { size: raw.size, origin: raw.origin, tagged: raw.tagged,
            addressable: raw.addressable, protocol: raw.protocol, source: raw.source },
        frame_addr: lifx_core::FrameAddress { target: raw.target, reserved: raw.reserved,
            reserved2: raw.reserved2, ack_required: raw.ack_required,
            res_required: raw.res_required, sequence: raw.sequence },
        protocol_header: lifx_core::ProtocolHeader { reserved: raw.header_reserved,
            typ: raw.typ, reserved2: raw.header_reserved2 },
        payload: raw.payload.clone(),
    }
}

/// Converts a `lifx_core` raw message to a frame of the same fields.
#[verifier::external_body]
fn frame_of(m: &lifx_core::RawMessage) -> RawFrame {
    RawFrame { size: m.frame.size, origin: m.frame.origin, tagged: m.frame.tagged,
        addressable: m.frame.addressable, protocol: m.frame.protocol, source: m.frame.source,
        target: m.frame_addr.target, reserved: m.frame_addr.reserved,
        reserved2: m.frame_addr.reserved2, ack_required: m.frame_addr.ack_required,
        res_required: m.frame_addr.res_required, sequence: m.frame_addr.sequence,
        header_reserved: m.protocol_header.reserved, typ: m.protocol_header.typ,
        header_reserved2: m.protocol_header.reserved2, payload: m.payload.clone() }
}

/// `lifx_core::RawMessage::build`: the frame that carries `request` with
/// `options`. Its payload is written to a vector, which cannot fail, so the
/// result is always `Ok`; the size counts the 36 bytes of the header and
/// the payload, the frame is tagged when no target is given, and the
/// reserved fields are zero.
#[verifier::external_body]
fn raw_build(options: &SendOptions, request: Request) -> (r: Result<RawFrame, LifxError>)
    ensures
        r is Ok,
        r->Ok_0.size == 36 + request_payload(request).len(),
        r->Ok_0.origin == 0,
        r->Ok_0.tagged == options.target is None,
        r->Ok_0.addressable,
        r->Ok_0.protocol == 1024,
        r->Ok_0.source == options.source,
        r->Ok_0.target == match options.target {
            Some(t) => t,
            None => 0,
        },
        r->Ok_0.reserved@ == seq![0u8, 0u8, 0u8, 0u8, 0u8, 0u8],
        r->Ok_0.reserved2 == 0,
        r->Ok_0.ack_required == options.ack_required,
        r->Ok_0.res_required == options.res_required,
        r->Ok_0.sequence == options.sequence,
        r->Ok_0.header_reserved == 0,
        r->Ok_0.typ == request_number(request),
        r->Ok_0.header_reserved2 == 0,
        r->Ok_0.payload@ == request_payload(request),
{
    lifx_core::RawMessage::build(&lifx_options(options), lifx_request(request))
        .map(|m| frame_of(&m))
        .map_err(error_of)
}

/// `lifx_core::RawMessage::pack`: the bytes of the frame, written to a
/// vector, which cannot fail.
#[verifier::external_body]
fn raw_pack(raw: &RawFrame) -> (r: Result<Vec<u8>, LifxError>)
    ensures
        r is Ok,
        r->Ok_0@ == packed(*raw),
{
    lifx_raw(raw).pack().map_err(error_of)
}

/// `lifx_core::RawMessage::unpack`: reads the frame at the head of
/// `bytes`. A buffer too short for what is read next ends in an
/// unexpected end of file, reported as `Incomplete`; a protocol other than
/// 1024 is refused. The inputs on which the reader panics are left out.
#[verifier::external_body]
fn raw_unpack(bytes: &[u8]) -> (r: Result<RawFrame, UnpackError>)
    requires
        !unpack_panics(bytes@),
    ensures
        protocol_ok(bytes@) && bytes@.len() >= 36 ==> r is Ok && unpacks_to(bytes@, r->Ok_0),
        bytes@.len() < 4 || (protocol_ok(bytes@) && bytes@.len() < 36) ==> r is Err && r->Err_0
            is Incomplete,
        bytes@.len() >= 4 && !protocol_ok(bytes@) ==> r is Err && r->Err_0 matches UnpackError::Failed(
            LifxError::ProtocolError(_),
        ),
{
    match lifx_core::RawMessage::unpack(bytes) {
        Ok(m) => Ok(frame_of(&m)),
        Err(lifx_core::Error::Io(e)) if e.kind() == std::io::ErrorKind::UnexpectedEof => Err(UnpackError::Incomplete),
        Err(e) => Err(UnpackError::Failed(error_of(e))),
    }
}

/// `lifx_core::Message::from_raw`: the message that the payload of `raw`
/// holds, which depends on its type, its payload and, for an
/// acknowledgement, its sequence number. `from_raw` picks the message by
/// its type and reads the fields in order, little-endian; a label field is
/// 32 bytes, of which the first 31 are read, those other than zero kept; a
/// group or location field starts with a 16-byte identifier. The message
/// types that the bulb table reads are stated (`state_message_read`).
#[verifier::external_body]
fn message_from_raw(raw: &RawFrame) -> (r: Result<LifxMessage, LifxError>)
    ensures
        r == lifx_from_raw(raw.typ, raw.sequence, raw.payload@),
        state_message_read(
            raw.typ,
            raw.payload@,
            match r {
                Ok(m) => Some(m),
                Err(_) => None,
            },
        ),
{
    lifx_core::Message::from_raw(&lifx_raw(raw)).map(message_of).map_err(error_of)
}

/// Whether `a` holds the routing part of the frame at the head of `s`.
pub open spec fn address_read(s: Seq<u8>, a: FrameAddress) -> bool {
    let b = s[22];
    &&& a.target == read64(s, 8)
    &&& a.reserved@ == s.subrange(16, 22)
    &&& a.reserved2 == (b & 0xfc) >> 2
    &&& a.ack_required == (b & 2 > 0)
    &&& a.res_required == (b & 1 > 0)
    &&& a.sequence == s[23]
}

/// Whether `r` is what decoding the head of `s` gives: nothing yet while
/// the header is incomplete, an error for a protocol other than 1024, and
/// otherwise the frame's address and the message that `lifx_core` reads
/// from its type, sequence number and payload.
pub open spec fn decode_outcome(
    s: Seq<u8>,
    r: Result<Option<(FrameAddress, LifxMessage)>, LifxError>,
) -> bool {
    if s.len() < 4 || (protocol_ok(s) && s.len() < 36) {
        r matches Ok(None)
    } else if !protocol_ok(s) {
        r matches Err(LifxError::ProtocolError(_))
    } else {
        match lifx_from_raw(read16(s, 32), s[23], s.subrange(36, read16(s, 0) as int)) {
            Ok(m) => r matches Ok(Some((a, m2))) && m2 == m && address_read(s, a),
            Err(e) => r == Err::<Option<(FrameAddress, LifxMessage)>, LifxError>(e),
        }
    }
}

/// What is left of `s` once its head is decoded: the bytes after the frame,
/// once there is a whole header; all of `s` otherwise.
pub open spec fn decode_rest(s: Seq<u8>) -> Seq<u8> {
    if protocol_ok(s) && s.len() >= 36 {
        s.subrange(read16(s, 0) as int, s.len() as int)
    } else {
        s
    }
}

fn read16_at(s: &[u8], i: usize) -> (r: u16)
    requires
        i + 2 <= s@.len(),
    ensures
        r == read16(s@, i as int),
{
    (s[i] as u16) | ((s[i + 1] as u16) << 8)
}

/// Whether reading the frame at the head of `bytes` would fail an
/// assertion of the reader (see `unpack_panics`).
pub fn unpack_would_panic(bytes: &[u8]) -> (r: bool)
    ensures
        r == unpack_panics(bytes@),
{
    if bytes.len() < 4 {
        return false;
    }
    let word = read16_at(bytes, 2);
    if word & 0xfff != 1024 {
        return false;
    }
    if bytes.len() >= 8 && word & 0x1000 == 0 {
        return true;
    }
    if bytes.len() >= 36 {
        let size = read16_at(bytes, 0) as usize;
        return !(36 <= size && size <= bytes.len());
    }
    false
}

/// Removes the first `n` bytes of `v`.
fn drop_front(v: &mut Vec<u8>, n: usize)
    requires
        n <= old(v)@.len(),
    ensures
        final(v)@ == old(v)@.subrange(n as int, old(v)@.len() as int),
{
    let mut rest: Vec<u8> = Vec::new();
    let mut i = n;
    while i < v.len()
        invariant
            n <= i <= v@.len(),
            rest@ == v@.subrange(n as int, i as int),
        decreases v@.len() - i,
    {
        rest.push(v[i]);
        i = i + 1;
    }
    *v = rest;
}

/// The codec of LIFX datagrams.
#[derive(Clone, Copy, Debug)]
pub struct LifxCodec;

impl LifxCodec {
    /// Appends to `dst` the datagram that carries `request` with `options`.
    pub fn encode(&mut self, item: (SendOptions, Request), dst: &mut Vec<u8>) -> (r: Result<
        (),
        LifxError,
    >)
        ensures
            r is Ok,
            final(dst)@ == old(dst)@ + encoded(item.0, item.1),
    {
        let (options, request) = item;
        let raw = match raw_build(&options, request) {
            Ok(raw) => raw,
            Err(e) => return Err(e),
        };
        let mut bytes = match raw_pack(&raw) {
            Ok(bytes) => bytes,
            Err(e) => return Err(e),
        };
        assert(bytes@ =~= encoded(options, request));
        dst.append(&mut bytes);
        Ok(())
    }

    /// Reads the datagram at the head of `src` and removes it from `src`.
    /// While the header is incomplete nothing is read and `src` is left as
    /// it is.
    pub fn decode(&mut self, src: &mut Vec<u8>) -> (r: Result<
        Option<(FrameAddress, LifxMessage)>,
        LifxError,
    >)
        requires
            !unpack_panics(old(src)@),
        ensures
            decode_outcome(old(src)@, r),
            final(src)@ == decode_rest(old(src)@),
            protocol_ok(old(src)@) && old(src)@.len() >= 36 ==> state_message_read(
                read16(old(src)@, 32),
                old(src)@.subrange(36, read16(old(src)@, 0) as int),
                match r {
                    Ok(Some((_, m))) => Some(m),
                    _ => None,
                },
            ),
    {
        let raw = match raw_unpack(src.as_slice()) {
            Ok(raw) => raw,
            Err(UnpackError::Incomplete) => return Ok(None),
            Err(UnpackError::Failed(e)) => return Err(e),
        };
        let size = 36 + raw.payload.len();
        drop_front(src, size);
        let address = FrameAddress {
            target: raw.target,
            reserved: raw.reserved,
            reserved2: raw.reserved2,
            ack_required: raw.ack_required,
            res_required: raw.res_required,
            sequence: raw.sequence,
        };
        match message_from_raw(&raw) {
            Ok(m) => Ok(Some((address, m))),
            Err(e) => Err(e),
        }
    }
}

/// Whether `r` is what decoding the head of `s` at the end of the input
/// gives: as `decode_outcome`, except that bytes that hold no whole header
/// are an error.
pub open spec fn decode_eof_outcome(
    s: Seq<u8>,
    r: Result<Option<(FrameAddress, LifxMessage)>, LifxError>,
) -> bool {
    if s.len() < 4 || (protocol_ok(s) && s.len() < 36) {
        if s.len() == 0 {
            r matches Ok(None)
        } else {
            r matches Err(LifxError::Io(m)) && m@ == "bytes remaining on stream"@
        }
    } else {
        decode_outcome(s, r)
    }
}

impl LifxCodec {
    /// Decodes the head of `src` when no more input will come: as
    /// `decode`, but bytes left over that hold no whole header are an
    /// error.
    pub fn decode_eof(&mut self, src: &mut Vec<u8>) -> (r: Result<
        Option<(FrameAddress, LifxMessage)>,
        LifxError,
    >)
        requires
            !unpack_panics(old(src)@),
        ensures
            decode_eof_outcome(old(src)@, r),
            final(src)@ == decode_rest(old(src)@),
            protocol_ok(old(src)@) && old(src)@.len() >= 36 ==> state_message_read(
                read16(old(src)@, 32),
                old(src)@.subrange(36, read16(old(src)@, 0) as int),
                match r {
                    Ok(Some((_, m))) => Some(m),
                    _ => None,
                },
            ),
    {
        match self.decode(src) {
            Ok(Some(frame)) => Ok(Some(frame)),
            Ok(None) => {
                if src.len() == 0 {
                    Ok(None)
                } else {
                    proof {
                        reveal_strlit("bytes remaining on stream");
                    }
                    Err(LifxError::Io(String::from_str("bytes remaining on stream")))
                }
            },
            Err(e) => Err(e),
        }
    }
}

/// The type field of an encoded request (bytes 32 and 33, little-endian)
/// is the request's number in the LIFX protocol: GetService 2, GetPower
/// 20, SetPower 21, GetLabel 23, GetVersion 32, GetLocation 48, GetGroup
/// 51, LightGet 101, LightSetColor 102.
pub proof fn law_encoded_type_is_the_protocol_number(options: SendOptions, request: Request)
    ensures
        ({
            let s = encoded(options, request);
            let n: u16 = match request {
                Request::GetService => 2,
                Request::GetPower => 20,
                Request::SetPower { .. } => 21,
                Request::GetLabel => 23,
                Request::GetVersion => 32,
                Request::GetLocation => 48,
                Request::GetGroup => 51,
                Request::LightGet => 101,
                Request::LightSetColor { .. } => 102,
            };
            &&& s.len() >= 36
            &&& read16(s, 32) == n
        }),
{
    law_decode_takes_one_encoded_datagram(options, request, Seq::empty());
    assert(encoded(options, request) + Seq::<u8>::empty() =~= encoded(options, request));
}

/// Decoding a buffer that starts with an encoded request reads that
/// datagram and leaves exactly what followed it: the frame's target is
/// the request's (zero for a broadcast), and its type, sequence number and
/// payload are those of the request and its options.
pub proof fn law_decode_takes_one_encoded_datagram(
    options: SendOptions,
    request: Request,
    rest: Seq<u8>,
)
    ensures
        ({
            let s = encoded(options, request) + rest;
            &&& !unpack_panics(s)
            &&& protocol_ok(s)
            &&& s.len() >= 36
            &&& decode_rest(s) == rest
            &&& read64(s, 8) == match options.target {
                Some(t) => t,
                None => 0,
            }
            &&& read16(s, 32) == request_number(request)
            &&& s[23] == options.sequence
            &&& s.subrange(36, read16(s, 0) as int) == request_payload(request)
        }),
{
    let payload = request_payload(request);
    assert(payload.len() <= 13);
    lemma_frame_fields(
        (36 + payload.len()) as u16,
        0,
        options.target is None,
        true,
        1024,
        options.source,
        match options.target {
            Some(t) => t,
            None => 0,
        },
        seq![0u8, 0u8, 0u8, 0u8, 0u8, 0u8],
        0,
        options.ack_required,
        options.res_required,
        options.sequence,
        0,
        request_number(request),
        0,
        payload,
        rest,
    );
}

} // verus!
