//! The client-facing wire protocol.
//!
//! Every packet is framed as an 8-byte little-endian tag, an 8-byte
//! little-endian declared payload length and the payload bytes.
use vstd::bytes::*;
use vstd::prelude::*;
use vstd::slice::{slice_subrange, slice_to_vec};

verus! {

/// Size of the frame header: tag and declared length.
pub const HEADER_LEN: usize = 16;

/// Canonical payload size of a handshake packet.
pub const HANDSHAKE_LEN: u64 = 9;

/// Canonical payload size of a switch-source packet.
pub const SWITCH_SOURCE_LEN: u64 = 8;

/// The kind of a packet, as carried by the frame's tag.
#[derive(Debug, Clone, Copy, PartialEq, Eq, Structural)]
pub enum LodestarPacketType {
    Handshake,
    DesktopList,
    SwitchSource,
    End,
}

/// Why a packet could not be decoded.
#[derive(Debug, Clone, Copy, PartialEq, Eq, Structural)]
pub enum LodestarPacketParsingError {
    /// The declared or actual payload length disagrees with the packet kind.
    InvalidPacketLength,
    /// A tag or a field holds a value outside its domain.
    InvalidField,
}

impl LodestarPacketType {
    pub open spec fn spec_tag(self) -> u64 {
        match self {
            LodestarPacketType::Handshake => 0,
            LodestarPacketType::DesktopList => 1,
            LodestarPacketType::SwitchSource => 2,
            LodestarPacketType::End => 3,
        }
    }

    pub open spec fn spec_from_tag(tag: u64) -> Option<LodestarPacketType> {
        if tag == 0 {
            Some(LodestarPacketType::Handshake)
        } else if tag == 1 {
            Some(LodestarPacketType::DesktopList)
        } else if tag == 2 {
            Some(LodestarPacketType::SwitchSource)
        } else if tag == 3 {
            Some(LodestarPacketType::End)
        } else {
            None
        }
    }

    /// The numeric tag written on the wire for this kind.
    pub fn tag(&self) -> (r: u64)
        ensures
            r == self.spec_tag(),
            Self::spec_from_tag(r) == Some(*self),
    {
        match self {
            LodestarPacketType::Handshake => 0,
            LodestarPacketType::DesktopList => 1,
            LodestarPacketType::SwitchSource => 2,
            LodestarPacketType::End => 3,
        }
    }

    /// The kind named by a wire tag, if any.
    pub fn from_tag(tag: u64) -> (r: Option<LodestarPacketType>)
        ensures
            r == Self::spec_from_tag(tag),
    {
        if tag == 0 {
            Some(LodestarPacketType::Handshake)
        } else if tag == 1 {
            Some(LodestarPacketType::DesktopList)
        } else if tag == 2 {
            Some(LodestarPacketType::SwitchSource)
        } else if tag == 3 {
            Some(LodestarPacketType::End)
        } else {
            None
        }
    }
}

/// The handshake payload: API revision and whether the peer was accepted.
#[derive(Debug, Clone, Copy, PartialEq, Eq, Structural)]
pub struct LodestarHandshakePacket {
    pub api_revision: u64,
    pub accepted: bool,
}

/// One desktop as announced to a client.
#[derive(Debug, Clone, Copy, PartialEq, Eq, Structural)]
pub struct LodestarDesktop {
    pub loded_id: u64,
    pub width: i32,
    pub height: i32,
}

/// The desktop-list payload.
#[derive(Debug, Clone, PartialEq, Eq)]
pub struct LodestarDesktopPacket {
    pub data: Vec<LodestarDesktop>,
}

/// The switch-source payload: the identifier of the desktop to show.
#[derive(Debug, Clone, Copy, PartialEq, Eq, Structural)]
pub struct LodestarSwitchSourcePacket {
    pub new_source: u64,
}

/// The end payload, which is empty.
#[derive(Debug, Clone, Copy, PartialEq, Eq, Structural)]
pub struct LodestarEndPacket {}

/// A decoded packet of any kind.
#[derive(Debug, Clone, PartialEq, Eq)]
pub enum LodestarMessage {
    Handshake(LodestarHandshakePacket),
    DesktopList(LodestarDesktopPacket),
    SwitchSource(LodestarSwitchSourcePacket),
    End(LodestarEndPacket),
}

/// The mathematical value of a packet.
pub enum MessageView {
    Handshake(LodestarHandshakePacket),
    DesktopList(Seq<LodestarDesktop>),
    SwitchSource(LodestarSwitchSourcePacket),
    End,
}

impl View for LodestarDesktopPacket {
    type V = Seq<LodestarDesktop>;

    open spec fn view(&self) -> Seq<LodestarDesktop> {
        self.data@
    }
}

impl View for LodestarMessage {
    type V = MessageView;

    open spec fn view(&self) -> MessageView {
        match self {
            LodestarMessage::Handshake(h) => MessageView::Handshake(*h),
            LodestarMessage::DesktopList(d) => MessageView::DesktopList(d@),
            LodestarMessage::SwitchSource(s) => MessageView::SwitchSource(*s),
            LodestarMessage::End(_) => MessageView::End,
        }
    }
}

/// A framed packet whose payload has not been interpreted yet.
#[derive(Debug, Clone, PartialEq, Eq)]
pub struct LodestarPacket {
    pub packet_type: LodestarPacketType,
    pub packet_length: u64,
    pub packet_data: Vec<u8>,
}

// ---------------------------------------------------------------------------
// The byte layout, as spec functions.

pub open spec fn le64(x: u64) -> Seq<u8> {
    spec_u64_to_le_bytes(x)
}

pub open spec fn le32(x: u32) -> Seq<u8> {
    spec_u32_to_le_bytes(x)
}

pub open spec fn handshake_payload(h: LodestarHandshakePacket) -> Seq<u8> {
    le64(h.api_revision) + seq![if h.accepted { 1u8 } else { 0u8 }]
}

pub open spec fn desktop_record(d: LodestarDesktop) -> Seq<u8> {
    le64(d.loded_id) + le32(#[verifier::truncate] (d.width as u32)) + le32(
        #[verifier::truncate] (d.height as u32),
    )
}

/// The records of a desktop list, packed one after another.
pub open spec fn records_bytes(s: Seq<LodestarDesktop>) -> Seq<u8>
    decreases s.len(),
{
    if s.len() == 0 {
        Seq::empty()
    } else {
        records_bytes(s.drop_last()) + desktop_record(s.last())
    }
}

pub open spec fn desktop_list_payload(s: Seq<LodestarDesktop>) -> Seq<u8> {
    le64(s.len() as u64) + records_bytes(s)
}

pub open spec fn switch_source_payload(p: LodestarSwitchSourcePacket) -> Seq<u8> {
    le64(p.new_source)
}

pub open spec fn message_type(m: MessageView) -> LodestarPacketType {
    match m {
        MessageView::Handshake(_) => LodestarPacketType::Handshake,
        MessageView::DesktopList(_) => LodestarPacketType::DesktopList,
        MessageView::SwitchSource(_) => LodestarPacketType::SwitchSource,
        MessageView::End => LodestarPacketType::End,
    }
}

pub open spec fn message_payload(m: MessageView) -> Seq<u8> {
    match m {
        MessageView::Handshake(h) => handshake_payload(h),
        MessageView::DesktopList(s) => desktop_list_payload(s),
        MessageView::SwitchSource(p) => switch_source_payload(p),
        MessageView::End => Seq::empty(),
    }
}

/// Tag, declared length and payload, one after another.
pub open spec fn frame_bytes(ty: LodestarPacketType, payload: Seq<u8>) -> Seq<u8> {
    le64(ty.spec_tag()) + le64(payload.len() as u64) + payload
}

pub open spec fn encode_message(m: MessageView) -> Seq<u8> {
    frame_bytes(message_type(m), message_payload(m))
}

/// A message whose lengths fit the 64-bit fields of the frame.
pub open spec fn message_fits(m: MessageView) -> bool {
    match m {
        MessageView::DesktopList(s) => 8 + 16 * s.len() <= u64::MAX,
        _ => true,
    }
}

pub open spec fn le64_at(b: Seq<u8>, start: int) -> u64 {
    spec_u64_from_le_bytes(b.subrange(start, start + 8))
}

pub open spec fn le32_at(b: Seq<u8>, start: int) -> u32 {
    spec_u32_from_le_bytes(b.subrange(start, start + 4))
}

pub open spec fn parse_record(b: Seq<u8>, start: int) -> LodestarDesktop {
    LodestarDesktop {
        loded_id: le64_at(b, start),
        width: #[verifier::truncate] (le32_at(b, start + 8) as i32),
        height: #[verifier::truncate] (le32_at(b, start + 12) as i32),
    }
}

pub open spec fn decode_handshake(b: Seq<u8>) -> Result<LodestarHandshakePacket, LodestarPacketParsingError> {
    if b.len() != 9 {
        Err(LodestarPacketParsingError::InvalidPacketLength)
    } else if b[8] > 1 {
        Err(LodestarPacketParsingError::InvalidField)
    } else {
        Ok(LodestarHandshakePacket { api_revision: le64_at(b, 0), accepted: b[8] == 1 })
    }
}

pub open spec fn decode_desktop_list(b: Seq<u8>) -> Result<Seq<LodestarDesktop>, LodestarPacketParsingError> {
    if b.len() < 8 {
        Err(LodestarPacketParsingError::InvalidPacketLength)
    } else if b.len() != 8 + 16 * le64_at(b, 0) {
        Err(LodestarPacketParsingError::InvalidPacketLength)
    } else {
        Ok(Seq::new(le64_at(b, 0) as nat, |i: int| parse_record(b, 8 + 16 * i)))
    }
}

pub open spec fn decode_switch_source(b: Seq<u8>) -> Result<LodestarSwitchSourcePacket, LodestarPacketParsingError> {
    if b.len() != 8 {
        Err(LodestarPacketParsingError::InvalidPacketLength)
    } else {
        Ok(LodestarSwitchSourcePacket { new_source: le64_at(b, 0) })
    }
}

pub open spec fn decode_end(b: Seq<u8>) -> Result<(), LodestarPacketParsingError> {
    if b.len() != 0 {
        Err(LodestarPacketParsingError::InvalidPacketLength)
    } else {
        Ok(())
    }
}

/// What a framed packet decodes to, given its kind, declared length and payload.
pub open spec fn parse_payload(ty: LodestarPacketType, declared: u64, b: Seq<u8>) -> Result<MessageView, LodestarPacketParsingError> {
    match ty {
        LodestarPacketType::Handshake => if declared != HANDSHAKE_LEN {
            Err(LodestarPacketParsingError::InvalidPacketLength)
        } else {
            match decode_handshake(b) {
                Ok(h) => Ok(MessageView::Handshake(h)),
                Err(e) => Err(e),
            }
        },
        LodestarPacketType::DesktopList => match decode_desktop_list(b) {
            Ok(s) => Ok(MessageView::DesktopList(s)),
            Err(e) => Err(e),
        },
        LodestarPacketType::SwitchSource => if declared != SWITCH_SOURCE_LEN {
            Err(LodestarPacketParsingError::InvalidPacketLength)
        } else {
            match decode_switch_source(b) {
                Ok(p) => Ok(MessageView::SwitchSource(p)),
                Err(e) => Err(e),
            }
        },
        LodestarPacketType::End => if declared != 0 {
            Err(LodestarPacketParsingError::InvalidPacketLength)
        } else {
            match decode_end(b) {
                Ok(_) => Ok(MessageView::End),
                Err(e) => Err(e),
            }
        },
    }
}

/// The framing layer: header fields and the bytes that follow them.
pub open spec fn decode_frame(b: Seq<u8>) -> Result<(LodestarPacketType, u64, Seq<u8>), LodestarPacketParsingError> {
    if b.len() < 16 {
        Err(LodestarPacketParsingError::InvalidPacketLength)
    } else {
        match LodestarPacketType::spec_from_tag(le64_at(b, 0)) {
            None => Err(LodestarPacketParsingError::InvalidField),
            Some(ty) => Ok((ty, le64_at(b, 8), b.subrange(16, b.len() as int))),
        }
    }
}

pub open spec fn decode_message(b: Seq<u8>) -> Result<MessageView, LodestarPacketParsingError> {
    match decode_frame(b) {
        Err(e) => Err(e),
        Ok((ty, declared, payload)) => parse_payload(ty, declared, payload),
    }
}

pub open spec fn message_result_view(r: Result<LodestarMessage, LodestarPacketParsingError>) -> Result<MessageView, LodestarPacketParsingError> {
    match r {
        Ok(m) => Ok(m@),
        Err(e) => Err(e),
    }
}


// ---------------------------------------------------------------------------
// Facts about the layout.

proof fn lemma_le_lengths()
    ensures
        forall|x: u64| #[trigger] le64(x).len() == 8,
        forall|x: u32| #[trigger] le32(x).len() == 4,
{
    lemma_auto_spec_u64_to_from_le_bytes();
    lemma_auto_spec_u32_to_from_le_bytes();
}

proof fn lemma_i32_u32_cast(w: i32)
    ensures
        #[verifier::truncate] (#[verifier::truncate] (w as u32)) as i32 == w,
{
    assert(#[verifier::truncate] (#[verifier::truncate] (w as u32)) as i32 == w) by (bit_vector);
}

/// Reading a record back from where it was written gives the record.
proof fn lemma_record_round_trip(b: Seq<u8>, start: int, d: LodestarDesktop)
    requires
        0 <= start,
        start + 16 <= b.len(),
        b.subrange(start, start + 16) == desktop_record(d),
    ensures
        parse_record(b, start) == d,
{
    lemma_le_lengths();
    lemma_auto_spec_u64_to_from_le_bytes();
    lemma_auto_spec_u32_to_from_le_bytes();
    let r = desktop_record(d);
    assert(b.subrange(start, start + 8) =~= r.subrange(0, 8));
    assert(r.subrange(0, 8) =~= le64(d.loded_id));
    assert(b.subrange(start + 8, start + 12) =~= r.subrange(8, 12));
    assert(r.subrange(8, 12) =~= le32(#[verifier::truncate] (d.width as u32)));
    assert(b.subrange(start + 12, start + 16) =~= r.subrange(12, 16));
    assert(r.subrange(12, 16) =~= le32(#[verifier::truncate] (d.height as u32)));
    lemma_i32_u32_cast(d.width);
    lemma_i32_u32_cast(d.height);
}

/// The packed records have 16 bytes each, record `i` at offset `16 * i`.
proof fn lemma_records_layout(s: Seq<LodestarDesktop>)
    ensures
        records_bytes(s).len() == 16 * s.len(),
        forall|i: int|
            0 <= i < s.len() ==> #[trigger] records_bytes(s).subrange(16 * i, 16 * i + 16)
                == desktop_record(s[i]),
    decreases s.len(),
{
    lemma_le_lengths();
    if s.len() > 0 {
        let p = s.drop_last();
        lemma_records_layout(p);
        let rb = records_bytes(s);
        assert(rb == records_bytes(p) + desktop_record(s.last()));
        assert forall|i: int| 0 <= i < s.len() implies #[trigger] rb.subrange(16 * i, 16 * i + 16)
            == desktop_record(s[i]) by {
            if i < p.len() {
                assert(rb.subrange(16 * i, 16 * i + 16) =~= records_bytes(p).subrange(
                    16 * i,
                    16 * i + 16,
                ));
                assert(s[i] == p[i]);
            } else {
                assert(rb.subrange(16 * i, 16 * i + 16) =~= desktop_record(s.last()));
            }
        }
    }
}

/// Records written by `records_bytes` extend a prefix one record at a time.
proof fn lemma_records_push(s: Seq<LodestarDesktop>, i: int)
    requires
        0 <= i < s.len(),
    ensures
        records_bytes(s.subrange(0, i + 1)) == records_bytes(s.subrange(0, i)) + desktop_record(
            s[i],
        ),
{
    assert(s.subrange(0, i + 1).drop_last() =~= s.subrange(0, i));
}

/// The tag, length and payload of a frame can be read back from it.
proof fn lemma_frame_round_trip(ty: LodestarPacketType, payload: Seq<u8>)
    requires
        payload.len() <= u64::MAX,
    ensures
        decode_frame(frame_bytes(ty, payload)) == Ok::<(LodestarPacketType, u64, Seq<u8>), LodestarPacketParsingError>((ty, payload.len() as u64, payload)),
{
    lemma_le_lengths();
    lemma_auto_spec_u64_to_from_le_bytes();
    let b = frame_bytes(ty, payload);
    assert(b.subrange(0, 8) =~= le64(ty.spec_tag()));
    assert(b.subrange(8, 16) =~= le64(payload.len() as u64));
    assert(b.subrange(16, b.len() as int) =~= payload);
}

/// Decoding the bytes that encoding a message gives yields that message again.
pub proof fn lemma_wire_round_trip(m: MessageView)
    requires
        message_fits(m),
    ensures
        decode_message(encode_message(m)) == Ok::<MessageView, LodestarPacketParsingError>(m),
{
    lemma_le_lengths();
    lemma_auto_spec_u64_to_from_le_bytes();
    let payload = message_payload(m);
    if let MessageView::DesktopList(s) = m {
        lemma_records_layout(s);
    }
    lemma_frame_round_trip(message_type(m), payload);
    match m {
        MessageView::Handshake(h) => {
            assert(payload.subrange(0, 8) =~= le64(h.api_revision));
            assert(decode_handshake(payload) == Ok::<LodestarHandshakePacket, LodestarPacketParsingError>(h));
        },
        MessageView::DesktopList(s) => {
            lemma_records_layout(s);
            assert(payload.subrange(0, 8) =~= le64(s.len() as u64));
            let n = s.len();
            assert forall|i: int| 0 <= i < n implies parse_record(payload, 8 + 16 * i) == s[i] by {
                let rb = records_bytes(s);
                assert(payload.subrange(8 + 16 * i, 8 + 16 * i + 16) =~= rb.subrange(
                    16 * i,
                    16 * i + 16,
                ));
                lemma_record_round_trip(payload, 8 + 16 * i, s[i]);
            }
            assert(Seq::new(n, |i: int| parse_record(payload, 8 + 16 * i)) =~= s);
            assert(decode_desktop_list(payload) == Ok::<Seq<LodestarDesktop>, LodestarPacketParsingError>(s));
        },
        MessageView::SwitchSource(p) => {
            assert(payload =~= le64(p.new_source));
            assert(payload.subrange(0, 8) =~= le64(p.new_source));
        },
        MessageView::End => {
        },
    }
}


/// A handshake whose declared or actual payload length is not nine bytes,
/// and a desktop list whose payload is not `8 + 16 * count` bytes long, are
/// refused with `InvalidPacketLength`.
pub proof fn lemma_length_enforcement(declared: u64, b: Seq<u8>)
    ensures
        declared != HANDSHAKE_LEN || b.len() != 9 ==> parse_payload(
            LodestarPacketType::Handshake,
            declared,
            b,
        ) == Err::<MessageView, LodestarPacketParsingError>(
            LodestarPacketParsingError::InvalidPacketLength,
        ),
        b.len() < 8 || b.len() != 8 + 16 * le64_at(b, 0) ==> parse_payload(
            LodestarPacketType::DesktopList,
            declared,
            b,
        ) == Err::<MessageView, LodestarPacketParsingError>(
            LodestarPacketParsingError::InvalidPacketLength,
        ),
{
}

// ---------------------------------------------------------------------------
// Encoding and decoding.

/// Whether `rest` bytes hold exactly `count` desktop records.
fn holds_records(rest: usize, count: u64) -> (r: bool)
    ensures
        r == (rest == 16 * count),
{
    let q = rest / 16;
    let m = rest % 16;
    assert(rest == 16 * q + m) by (nonlinear_arith)
        requires
            q == rest / 16,
            m == rest % 16,
    ;
    m == 0 && q as u64 == count
}

impl LodestarHandshakePacket {
    pub fn new(api_revision: u64, accepted: bool) -> (r: Self)
        ensures
            r.api_revision == api_revision,
            r.accepted == accepted,
    {
        LodestarHandshakePacket { api_revision, accepted }
    }

    /// The payload bytes: revision, then the accepted flag as one byte.
    pub fn into(&self) -> (r: Vec<u8>)
        ensures
            r@ == handshake_payload(*self),
    {
        let mut out = u64_to_le_bytes(self.api_revision);
        out.push(if self.accepted { 1u8 } else { 0u8 });
        out
    }

    pub fn decode(payload: &[u8]) -> (r: Result<Self, LodestarPacketParsingError>)
        ensures
            r == decode_handshake(payload@),
    {
        if payload.len() != 9 {
            return Err(LodestarPacketParsingError::InvalidPacketLength);
        }
        let flag = payload[8];
        if flag > 1 {
            return Err(LodestarPacketParsingError::InvalidField);
        }
        let api_revision = u64_from_le_bytes(slice_subrange(payload, 0, 8));
        Ok(LodestarHandshakePacket { api_revision, accepted: flag == 1 })
    }
}

impl LodestarDesktop {
    pub fn new(loded_id: u64, width: i32, height: i32) -> (r: Self)
        ensures
            r.loded_id == loded_id,
            r.width == width,
            r.height == height,
    {
        LodestarDesktop { loded_id, width, height }
    }

    /// The 16-byte record: identifier, width, height.
    pub fn to_bytes(&self) -> (r: Vec<u8>)
        ensures
            r@ == desktop_record(*self),
    {
        let mut out = u64_to_le_bytes(self.loded_id);
        let mut w = u32_to_le_bytes(#[verifier::truncate] (self.width as u32));
        let mut h = u32_to_le_bytes(#[verifier::truncate] (self.height as u32));
        out.append(&mut w);
        out.append(&mut h);
        out
    }

    /// Reads the record that starts at `start`.
    fn read_at(b: &[u8], start: usize) -> (r: Self)
        requires
            start + 16 <= b@.len(),
        ensures
            r == parse_record(b@, start as int),
    {
        let _len = b.len();
        let loded_id = u64_from_le_bytes(slice_subrange(b, start, start + 8));
        let width = u32_from_le_bytes(slice_subrange(b, start + 8, start + 12));
        let height = u32_from_le_bytes(slice_subrange(b, start + 12, start + 16));
        LodestarDesktop {
            loded_id,
            width: #[verifier::truncate] (width as i32),
            height: #[verifier::truncate] (height as i32),
        }
    }
}

impl LodestarDesktopPacket {
    pub fn new(data: Vec<LodestarDesktop>) -> (r: Self)
        ensures
            r@ == data@,
    {
        LodestarDesktopPacket { data }
    }

    /// Number of desktops in the list.
    pub fn desktop_count(&self) -> (r: u64)
        ensures
            r == self@.len(),
    {
        self.data.len() as u64
    }

    pub fn get_desktops(&self) -> (r: &[LodestarDesktop])
        ensures
            r@ == self@,
    {
        self.data.as_slice()
    }

    /// The payload bytes: the count, then each record in order.
    pub fn into(&self) -> (r: Vec<u8>)
        ensures
            r@ == desktop_list_payload(self@),
    {
        let n = self.data.len();
        let mut out = u64_to_le_bytes(n as u64);
        let mut i: usize = 0;
        while i < n
            invariant
                n == self@.len(),
                0 <= i <= n,
                out@ == le64(n as u64) + records_bytes(self@.subrange(0, i as int)),
            decreases n - i,
        {
            let mut rec = self.data[i].to_bytes();
            out.append(&mut rec);
            proof {
                lemma_records_push(self@, i as int);
            }
            i += 1;
        }
        proof {
            assert(self@.subrange(0, n as int) =~= self@);
        }
        out
    }

    pub fn decode(payload: &[u8]) -> (r: Result<Self, LodestarPacketParsingError>)
        ensures
            r matches Ok(p) ==> decode_desktop_list(payload@) == Ok::<Seq<LodestarDesktop>, LodestarPacketParsingError>(p@),
            r matches Err(e) ==> decode_desktop_list(payload@) == Err::<Seq<LodestarDesktop>, LodestarPacketParsingError>(e),
    {
        if payload.len() < 8 {
            return Err(LodestarPacketParsingError::InvalidPacketLength);
        }
        let count = u64_from_le_bytes(slice_subrange(payload, 0, 8));
        if !holds_records(payload.len() - 8, count) {
            return Err(LodestarPacketParsingError::InvalidPacketLength);
        }
        let n = count as usize;
        let mut data: Vec<LodestarDesktop> = Vec::new();
        let mut i: usize = 0;
        while i < n
            invariant
                n == count,
                payload@.len() == 8 + 16 * n,
                payload@.len() <= usize::MAX,
                count == le64_at(payload@, 0),
                0 <= i <= n,
                data@.len() == i,
                forall|j: int| 0 <= j < i ==> data@[j] == parse_record(payload@, 8 + 16 * j),
            decreases n - i,
        {
            let d = LodestarDesktop::read_at(payload, 8 + 16 * i);
            data.push(d);
            i += 1;
        }
        let r = LodestarDesktopPacket { data };
        assert(r@ =~= Seq::new(count as nat, |i: int| parse_record(payload@, 8 + 16 * i)));
        Ok(r)
    }
}

impl LodestarSwitchSourcePacket {
    pub fn new(new_source: u64) -> (r: Self)
        ensures
            r.new_source == new_source,
    {
        LodestarSwitchSourcePacket { new_source }
    }

    pub fn into(&self) -> (r: Vec<u8>)
        ensures
            r@ == switch_source_payload(*self),
    {
        u64_to_le_bytes(self.new_source)
    }

    pub fn decode(payload: &[u8]) -> (r: Result<Self, LodestarPacketParsingError>)
        ensures
            r == decode_switch_source(payload@),
    {
        if payload.len() != 8 {
            return Err(LodestarPacketParsingError::InvalidPacketLength);
        }
        let new_source = u64_from_le_bytes(slice_subrange(payload, 0, 8));
        Ok(LodestarSwitchSourcePacket { new_source })
    }
}

impl LodestarEndPacket {
    pub fn new() -> (r: Self) {
        LodestarEndPacket {  }
    }

    pub fn into(&self) -> (r: Vec<u8>)
        ensures
            r@ == Seq::<u8>::empty(),
    {
        Vec::new()
    }

    pub fn decode(payload: &[u8]) -> (r: Result<Self, LodestarPacketParsingError>)
        ensures
            r is Ok <==> decode_end(payload@) is Ok,
            r matches Err(e) ==> decode_end(payload@) == Err::<(), LodestarPacketParsingError>(e),
    {
        if payload.len() != 0 {
            return Err(LodestarPacketParsingError::InvalidPacketLength);
        }
        Ok(LodestarEndPacket {  })
    }
}

impl LodestarMessage {
    pub fn packet_type(&self) -> (r: LodestarPacketType)
        ensures
            r == message_type(self@),
    {
        match self {
            LodestarMessage::Handshake(_) => LodestarPacketType::Handshake,
            LodestarMessage::DesktopList(_) => LodestarPacketType::DesktopList,
            LodestarMessage::SwitchSource(_) => LodestarPacketType::SwitchSource,
            LodestarMessage::End(_) => LodestarPacketType::End,
        }
    }

    /// The payload bytes of the message, without the frame header.
    pub fn payload(&self) -> (r: Vec<u8>)
        ensures
            r@ == message_payload(self@),
    {
        match self {
            LodestarMessage::Handshake(h) => h.into(),
            LodestarMessage::DesktopList(d) => d.into(),
            LodestarMessage::SwitchSource(p) => p.into(),
            LodestarMessage::End(e) => e.into(),
        }
    }

    /// The whole frame: tag, payload length and payload.
    pub fn encode(&self) -> (r: Vec<u8>)
        ensures
            r@ == encode_message(self@),
    {
        let payload = self.payload();
        LodestarPacket::frame(self.packet_type(), payload)
    }

    /// Decodes one whole frame.
    pub fn decode(bytes: &[u8]) -> (r: Result<LodestarMessage, LodestarPacketParsingError>)
        ensures
            message_result_view(r) == decode_message(bytes@),
    {
        match LodestarPacket::from_bytes(bytes) {
            Ok(p) => p.parse_packet(),
            Err(e) => Err(e),
        }
    }
}

impl LodestarPacket {
    /// A packet of the given kind whose declared length is its payload's length.
    pub fn new(packet_type: LodestarPacketType, packet_data: Vec<u8>) -> (r: Self)
        ensures
            r.packet_type == packet_type,
            r.packet_length == packet_data@.len(),
            r.packet_data@ == packet_data@,
    {
        let packet_length = packet_data.len() as u64;
        LodestarPacket { packet_type, packet_length, packet_data }
    }

    fn frame(packet_type: LodestarPacketType, payload: Vec<u8>) -> (r: Vec<u8>)
        ensures
            r@ == frame_bytes(packet_type, payload@),
    {
        let mut payload = payload;
        let mut out = u64_to_le_bytes(packet_type.tag());
        let mut len = u64_to_le_bytes(payload.len() as u64);
        out.append(&mut len);
        out.append(&mut payload);
        out
    }

    /// The header, with the declared length as it stands, then the payload.
    pub fn to_bytes(&self) -> (r: Vec<u8>)
        ensures
            r@ == le64(self.packet_type.spec_tag()) + le64(self.packet_length) + self.packet_data@,
    {
        let mut out = u64_to_le_bytes(self.packet_type.tag());
        let mut len = u64_to_le_bytes(self.packet_length);
        let mut data = self.packet_data.clone();
        out.append(&mut len);
        out.append(&mut data);
        out
    }

    /// Splits a frame into its header fields and the bytes after the header.
    pub fn from_bytes(bytes: &[u8]) -> (r: Result<LodestarPacket, LodestarPacketParsingError>)
        ensures
            r matches Ok(p) ==> decode_frame(bytes@) == Ok::<(LodestarPacketType, u64, Seq<u8>), LodestarPacketParsingError>((p.packet_type, p.packet_length, p.packet_data@)),
            r matches Err(e) ==> decode_frame(bytes@) == Err::<(LodestarPacketType, u64, Seq<u8>), LodestarPacketParsingError>(e),
    {
        if bytes.len() < HEADER_LEN {
            return Err(LodestarPacketParsingError::InvalidPacketLength);
        }
        let tag = u64_from_le_bytes(slice_subrange(bytes, 0, 8));
        let packet_type = match LodestarPacketType::from_tag(tag) {
            Some(t) => t,
            None => {
                return Err(LodestarPacketParsingError::InvalidField);
            },
        };
        let packet_length = u64_from_le_bytes(slice_subrange(bytes, 8, 16));
        let packet_data = slice_to_vec(slice_subrange(bytes, 16, bytes.len()));
        Ok(LodestarPacket { packet_type, packet_length, packet_data })
    }

    /// Interprets the payload according to the packet's kind; fixed-size kinds
    /// must declare their canonical length.
    pub fn parse_packet(&self) -> (r: Result<LodestarMessage, LodestarPacketParsingError>)
        ensures
            message_result_view(r) == parse_payload(
                self.packet_type,
                self.packet_length,
                self.packet_data@,
            ),
    {
        let data = self.packet_data.as_slice();
        match self.packet_type {
            LodestarPacketType::Handshake => {
                if self.packet_length != HANDSHAKE_LEN {
                    return Err(LodestarPacketParsingError::InvalidPacketLength);
                }
                match LodestarHandshakePacket::decode(data) {
                    Ok(h) => Ok(LodestarMessage::Handshake(h)),
                    Err(e) => Err(e),
                }
            },
            LodestarPacketType::DesktopList => {
                match LodestarDesktopPacket::decode(data) {
                    Ok(d) => Ok(LodestarMessage::DesktopList(d)),
                    Err(e) => Err(e),
                }
            },
            LodestarPacketType::SwitchSource => {
                if self.packet_length != SWITCH_SOURCE_LEN {
                    return Err(LodestarPacketParsingError::InvalidPacketLength);
                }
                match LodestarSwitchSourcePacket::decode(data) {
                    Ok(p) => Ok(LodestarMessage::SwitchSource(p)),
                    Err(e) => Err(e),
                }
            },
            LodestarPacketType::End => {
                if self.packet_length != 0 {
                    return Err(LodestarPacketParsingError::InvalidPacketLength);
                }
                match LodestarEndPacket::decode(data) {
                    Ok(e) => Ok(LodestarMessage::End(e)),
                    Err(e) => Err(e),
                }
            },
        }
    }
}

} // verus!
