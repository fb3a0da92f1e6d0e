//! The USBR parser: framing, the per-endpoint state machine, capability
//! negotiation, and the per-direction gates every frame must pass before it
//! reaches the module pipeline.

use vstd::prelude::*;
use crate::bytes::{le16, le32, le64, read_u16_le, read_u32_le, read_u64_le};
use crate::usbr;

verus! {

#[derive(Debug)]
pub enum ParseError {
    /// Declared length and type-header size do not match.
    HeaderLength,
    /// Unknown or unsupported message type.
    HeaderType,
    /// Message sent by the wrong endpoint (red or blue machine).
    Source,
    /// Message content not valid for this protocol version.
    Version,
}

/// Current state of the parser. It only ever advances; see
/// [`Parser::process_state_change`].
#[derive(Copy, Clone, Debug, PartialEq, Eq, Structural)]
pub enum ParserState {
    New,
    Init,
    /// Hello received but not yet echoed by `push_outputs` (needed for the
    /// 32-bit packet-id quirk of the first frame).
    HelloR,
    Hello,
    IfaceReceived,
    EpReceived,
    /// Guest has been informed: both interface and endpoint info seen.
    Informed,
    Connected,
}

/// Which machine this endpoint faces: `Red` is the host side that owns the
/// device, `Blue` the untrusted guest side.
#[derive(Copy, Clone, Debug, PartialEq, Eq, Structural)]
pub enum Source {
    Red,
    Blue,
}

/// Position of a state in the monotonic progression.
pub open spec fn state_rank_spec(s: ParserState) -> int {
    match s {
        ParserState::New => 0,
        ParserState::Init => 1,
        ParserState::HelloR => 2,
        ParserState::Hello => 3,
        ParserState::IfaceReceived => 4,
        ParserState::EpReceived => 5,
        ParserState::Informed => 6,
        ParserState::Connected => 7,
    }
}

/// Position of a state in the monotonic progression.
pub fn state_rank(s: ParserState) -> (r: u8)
    ensures
        r == state_rank_spec(s),
{
    match s {
        ParserState::New => 0,
        ParserState::Init => 1,
        ParserState::HelloR => 2,
        ParserState::Hello => 3,
        ParserState::IfaceReceived => 4,
        ParserState::EpReceived => 5,
        ParserState::Informed => 6,
        ParserState::Connected => 7,
    }
}

/// Largest payload accepted for bulk and buffered-bulk packets: 128 MiB.
pub const MAX_BULK_TRANSFER_SIZE: u32 = 128 * 1024 * 1024;

pub const BUFFER_SIZE: usize = 65536;

/// How many corrupt frames in a row a direction skips before it gives the
/// stream up as unrecoverable.
pub const MAX_RESYNC_ATTEMPTS: usize = 4096;

/// One endpoint's parser: its state, its own and its peer's capability
/// words, and which machine it faces.
pub struct Parser {
    pub state: ParserState,
    pub our_caps: Vec<u32>,
    pub peer_caps: Vec<u32>,
    pub source: Source,
}

/// A parsed USBR message: the 16-byte generic header, the type-specific
/// header, and the optional data payload.
pub struct Request {
    pub header: Vec<u8>,
    pub type_header: Vec<u8>,
    pub data: Vec<u8>,
}

impl Request {
    /// A request always carries a full-size generic header in memory, even
    /// while the initial frames put only 12 bytes of it on the wire.
    pub open spec fn wf(&self) -> bool {
        self.header@.len() == usbr::REDIR_HEADER_SIZE
    }

    pub open spec fn type_spec(&self) -> u32 {
        le32(self.header@, 0)
    }

    pub open spec fn total_len_spec(&self) -> u32 {
        le32(self.header@, 4)
    }

    pub open spec fn id_spec(&self) -> u64 {
        le64(self.header@, 8)
    }

    /// The message type from the generic header.
    pub fn get_type(&self) -> (r: u32)
        requires
            self.wf(),
        ensures
            r == self.type_spec(),
    {
        read_u32_le(self.header.as_slice(), 0)
    }

    /// The combined length of type-header and data from the generic header.
    pub fn get_total_len(&self) -> (r: usize)
        requires
            self.wf(),
        ensures
            r == self.total_len_spec(),
    {
        read_u32_le(self.header.as_slice(), 4) as usize
    }

    /// The packet id from the generic header.
    pub fn get_id(&self) -> (r: u64)
        requires
            self.wf(),
        ensures
            r == self.id_spec(),
    {
        read_u64_le(self.header.as_slice(), 8)
    }
}

/// Whether bit `cap` is set in the capability words `caps`.
pub open spec fn has_cap_spec(caps: Seq<u32>, cap: usize) -> bool {
    caps[cap as int / 32] & (1u32 << (cap as u32 % 32)) != 0
}

/// Whether bit `cap` is set in the capability words `caps`.
pub fn has_cap(caps: &[u32], cap: usize) -> (r: bool)
    requires
        cap / 32 < usbr::CAPS_SIZE,
        cap / 32 < caps@.len(),
    ensures
        r == has_cap_spec(caps@, cap),
{
    caps[cap / 32] & (1u32 << (cap as u32 % 32)) != 0
}

/// Set bit `cap` in the capability words `caps`.
pub fn set_cap(caps: &mut Vec<u32>, cap: usize)
    requires
        cap / 32 < usbr::CAPS_SIZE,
        cap / 32 < old(caps)@.len(),
    ensures
        final(caps)@ == old(caps)@.update(
            cap as int / 32,
            old(caps)@[cap as int / 32] | (1u32 << (cap as u32 % 32)),
        ),
        has_cap_spec(final(caps)@, cap),
{
    let w = caps[cap / 32] | (1u32 << (cap as u32 % 32));
    caps.set(cap / 32, w);
    proof {
        let v = old(caps)@[cap as int / 32];
        let s = cap as u32 % 32;
        assert((v | (1u32 << s)) & (1u32 << s) != 0) by (bit_vector)
            requires
                s < 32,
        ;
    }
}

/// Clear bit `cap` in the capability words `caps` if it is set.
pub fn del_cap(caps: &mut Vec<u32>, cap: usize)
    requires
        cap / 32 < usbr::CAPS_SIZE,
        cap / 32 < old(caps)@.len(),
    ensures
        final(caps)@.len() == old(caps)@.len(),
        !has_cap_spec(final(caps)@, cap),
        final(caps)@[cap as int / 32] == old(caps)@[cap as int / 32] & !(1u32 << (cap as u32
            % 32)),
        forall|i: int|
            0 <= i < old(caps)@.len() && i != cap as int / 32 ==> final(caps)@[i] == old(caps)@[i],
{
    if has_cap(caps.as_slice(), cap) {
        let w = caps[cap / 32] ^ (1u32 << (cap as u32 % 32));
        caps.set(cap / 32, w);
    }
    proof {
        let v = old(caps)@[cap as int / 32];
        let s = cap as u32 % 32;
        assert(s < 32);
        assert((v & (1u32 << s) != 0) ==> ((v ^ (1u32 << s)) & (1u32 << s) == 0)) by (bit_vector);
        assert((v & (1u32 << s) != 0) ==> ((v ^ (1u32 << s)) == (v & !(1u32 << s)))) by (bit_vector);
        assert((v & (1u32 << s) == 0) ==> (v == (v & !(1u32 << s)))) by (bit_vector);
    }
}

/// The capability words every endpoint must announce: bulk streams,
/// connect-device-version, ep-info-max-packet-size, 64-bit ids, 32-bit bulk
/// lengths, and bulk receiving.
pub open spec fn verify_caps_spec(caps: Seq<u32>) -> bool {
    &&& has_cap_spec(caps, usbr::CAP_BULK_STREAMS)
    &&& has_cap_spec(caps, usbr::CAP_CONNECT_DEVICE_VERSION)
    &&& has_cap_spec(caps, usbr::CAP_EP_INFO_MAX_PACKET_SIZE)
    &&& has_cap_spec(caps, usbr::CAP_64_BITS_IDS)
    &&& has_cap_spec(caps, usbr::CAP_32_BITS_BULK_LENGTH)
    &&& has_cap_spec(caps, usbr::CAP_BULK_RECEIVING)
}

/// Whether `caps` holds every capability this proxy requires of both sides.
/// `desc` only names the set being checked, for the caller's diagnostics.
pub fn verify_caps(caps: &[u32], desc: &str) -> (r: bool)
    requires
        caps@.len() >= 1,
    ensures
        r == verify_caps_spec(caps@),
{
    let _ = desc;
    has_cap(caps, usbr::CAP_BULK_STREAMS) && has_cap(caps, usbr::CAP_CONNECT_DEVICE_VERSION)
        && has_cap(caps, usbr::CAP_EP_INFO_MAX_PACKET_SIZE) && has_cap(caps, usbr::CAP_64_BITS_IDS)
        && has_cap(caps, usbr::CAP_32_BITS_BULK_LENGTH) && has_cap(
        caps,
        usbr::CAP_BULK_RECEIVING,
    )
}

/// Whether the bytes up to the first NUL are plain (non-extended) ASCII.
pub open spec fn is_ascii_spec(s: Seq<u8>) -> bool
    decreases s.len(),
{
    if s.len() == 0 {
        true
    } else if s[0] == 0 {
        true
    } else if s[0] > 0x7f {
        false
    } else {
        is_ascii_spec(s.skip(1))
    }
}

/// Returns true if all characters before the terminating NUL are ASCII
/// (not counting extended ASCII).
pub fn is_ascii(x: &[u8]) -> (r: bool)
    ensures
        r == is_ascii_spec(x@),
{
    let n = x.len();
    let mut i: usize = 0;
    proof {
        assert(x@.skip(0) =~= x@);
    }
    while i < n
        invariant
            i <= n,
            n == x@.len(),
            is_ascii_spec(x@) == is_ascii_spec(x@.skip(i as int)),
        decreases n - i,
    {
        if x[i] == 0 {
            return true;
        }
        if x[i] > 0x7f {
            return false;
        }
        proof {
            assert(x@.skip(i as int).skip(1) =~= x@.skip(i as int + 1));
        }
        i = i + 1;
    }
    proof {
        assert(x@.skip(n as int) =~= Seq::<u8>::empty());
    }
    true
}

/// The endpoint a request handed to the module chain came from: the
/// opposite side of the parser that pulled it off the wire.
pub open spec fn get_sender_spec(s: Source) -> Source {
    match s {
        Source::Red => Source::Blue,
        Source::Blue => Source::Red,
    }
}

/// The opposite side.
pub fn get_sender(s: Source) -> (r: Source)
    ensures
        r == get_sender_spec(s),
{
    match s {
        Source::Red => Source::Blue,
        Source::Blue => Source::Red,
    }
}


/// A source of raw protocol bytes: the read half of the spliced socket.
/// The implementation is an external collaborator; nothing is assumed of
/// it, and every returned buffer's length is checked at run time.
pub trait ByteSource {
    /// Read exactly `n` bytes, or return `None` on stream failure.
    fn read_bytes(&mut self, n: usize) -> (r: Option<Vec<u8>>);
}

/// A sink for raw protocol bytes: the write half of the spliced socket.
pub trait ByteSink {
    /// Write the whole buffer; `false` means the stream failed.
    fn write_bytes(&mut self, data: &Vec<u8>) -> (r: bool);

    /// Flush buffered bytes; `false` means the stream failed.
    fn flush(&mut self) -> (r: bool);
}

/// `true` when the request is for the red machine: a receive on the
/// red-facing endpoint, or a send from the blue-facing one.
pub open spec fn for_red_spec(source: Source, send: bool) -> bool {
    (source == Source::Red) != send
}

/// The type-header size table: the size owed to each message type, or the
/// reason the type is refused for this direction.
pub open spec fn type_header_len_spec(for_red: bool, h_type: u32) -> Result<usize, ParseError> {
    if h_type == usbr::TYPE_HELLO {
        Ok(usbr::HELLO_MIN_SIZE)
    } else if h_type == usbr::TYPE_CONTROL_PACKET {
        Ok(usbr::CONTROL_PACKET_HEADER_SIZE)
    } else if h_type == usbr::TYPE_BULK_PACKET {
        Ok(usbr::BULK_PACKET_HEADER_SIZE)
    } else if h_type == usbr::TYPE_ISO_PACKET {
        Ok(usbr::ISO_PACKET_HEADER_SIZE)
    } else if h_type == usbr::TYPE_INT_PACKET {
        Ok(usbr::INT_PACKET_HEADER_SIZE)
    } else if h_type == usbr::TYPE_RESET {
        if for_red { Ok(0) } else { Err(ParseError::Source) }
    } else if h_type == usbr::TYPE_DEVICE_DISCONNECT_ACK {
        if for_red { Ok(0) } else { Err(ParseError::Source) }
    } else if h_type == usbr::TYPE_SET_CONF {
        if for_red { Ok(usbr::SET_CONF_HEADER_SIZE) } else { Err(ParseError::Source) }
    } else if h_type == usbr::TYPE_GET_CONF {
        if for_red { Ok(0) } else { Err(ParseError::Source) }
    } else if h_type == usbr::TYPE_SET_ALT_SETTING {
        if for_red { Ok(usbr::SET_ALT_SETTING_HEADER_SIZE) } else { Err(ParseError::Source) }
    } else if h_type == usbr::TYPE_GET_ALT_SETTING {
        if for_red { Ok(usbr::GET_ALT_SETTING_HEADER_SIZE) } else { Err(ParseError::Source) }
    } else if h_type == usbr::TYPE_START_ISO_STREAM {
        if for_red { Ok(usbr::START_ISO_STREAM_HEADER_SIZE) } else { Err(ParseError::Source) }
    } else if h_type == usbr::TYPE_STOP_ISO_STREAM {
        if for_red { Ok(usbr::STOP_ISO_STREAM_HEADER_SIZE) } else { Err(ParseError::Source) }
    } else if h_type == usbr::TYPE_START_INT_RECEIVING {
        if for_red { Ok(usbr::START_INT_RECEIVING_HEADER_SIZE) } else { Err(ParseError::Source) }
    } else if h_type == usbr::TYPE_STOP_INT_RECEIVING {
        if for_red { Ok(usbr::STOP_INT_RECEIVING_HEADER_SIZE) } else { Err(ParseError::Source) }
    } else if h_type == usbr::TYPE_ALLOC_BULK_STREAMS {
        if for_red { Ok(usbr::ALLOC_BULK_STREAMS_HEADER_SIZE) } else { Err(ParseError::Source) }
    } else if h_type == usbr::TYPE_FREE_BULK_STREAMS {
        if for_red { Ok(usbr::FREE_BULK_STREAMS_HEADER_SIZE) } else { Err(ParseError::Source) }
    } else if h_type == usbr::TYPE_CANCEL_DATA_PACKET {
        if for_red { Ok(0) } else { Err(ParseError::Source) }
    } else if h_type == usbr::TYPE_START_BULK_RECEIVING {
        if for_red { Ok(usbr::START_BULK_RECEIVING_HEADER_SIZE) } else { Err(ParseError::Source) }
    } else if h_type == usbr::TYPE_STOP_BULK_RECEIVING {
        if for_red { Ok(usbr::STOP_BULK_RECEIVING_HEADER_SIZE) } else { Err(ParseError::Source) }
    } else if h_type == usbr::TYPE_DEVICE_DISCONNECT {
        if !for_red { Ok(0) } else { Err(ParseError::Source) }
    } else if h_type == usbr::TYPE_CONF_STATUS {
        if !for_red { Ok(usbr::CONF_STATUS_HEADER_SIZE) } else { Err(ParseError::Source) }
    } else if h_type == usbr::TYPE_ALT_SETTING_STATUS {
        if !for_red { Ok(usbr::ALT_SETTING_STATUS_HEADER_SIZE) } else { Err(ParseError::Source) }
    } else if h_type == usbr::TYPE_ISO_STREAM_STATUS {
        if !for_red { Ok(usbr::ISO_STREAM_STATUS_HEADER_SIZE) } else { Err(ParseError::Source) }
    } else if h_type == usbr::TYPE_INT_RECEIVING_STATUS {
        if !for_red { Ok(usbr::INT_RECEIVING_STATUS_HEADER_SIZE) } else { Err(ParseError::Source) }
    } else if h_type == usbr::TYPE_BULK_STREAMS_STATUS {
        if !for_red { Ok(usbr::BULK_STREAMS_STATUS_HEADER_SIZE) } else { Err(ParseError::Source) }
    } else if h_type == usbr::TYPE_BULK_RECEIVING_STATUS {
        if !for_red { Ok(usbr::BULK_RECEIVING_STATUS_HEADER_SIZE) } else { Err(ParseError::Source) }
    } else if h_type == usbr::TYPE_BUFFERED_BULK_PACKET {
        if !for_red { Ok(usbr::BUFFERED_BULK_PACKET_HEADER_SIZE) } else { Err(ParseError::Source) }
    } else if h_type == usbr::TYPE_INTERFACE_INFO {
        if !for_red { Ok(usbr::INTERFACE_INFO_HEADER_SIZE) } else { Err(ParseError::Source) }
    } else if h_type == usbr::TYPE_EP_INFO {
        if !for_red { Ok(usbr::EP_INFO_HEADER_SIZE) } else { Err(ParseError::Source) }
    } else if h_type == usbr::TYPE_DEVICE_CONNECT {
        if !for_red { Ok(usbr::CONNECT_HEADER_SIZE) } else { Err(ParseError::Source) }
    } else if h_type == usbr::TYPE_FILTER_REJECT {
        if for_red { Ok(0) } else { Err(ParseError::Source) }
    } else {
        Err(ParseError::HeaderType)
    }
}

/// Whether the size table admits this type for this direction with a
/// type-header of exactly this length.
pub open spec fn th_len_matches(for_red: bool, h_type: u32, header: Seq<u8>) -> bool {
    match type_header_len_spec(for_red, h_type) {
        Ok(v) => v == header.len(),
        Err(_) => false,
    }
}

/// Whether the types that carry a payload expect one here: in-endpoints
/// send data to the guest, out-endpoints receive it from the host.
pub open spec fn expect_payload_spec(ep: u8, for_red: bool) -> bool {
    ((ep & 0x80 != 0) && !for_red) || ((ep & 0x80 == 0) && for_red)
}

/// The 32-bit payload length of a bulk packet, split on the wire into a low
/// and a high 16-bit half.
pub open spec fn bulk_len_spec(header: Seq<u8>) -> int {
    le16(header, 8) * 0x10000 + le16(header, 2)
}

/// What [`Parser::verify_type_header`] accepts: the per-type, per-state and
/// per-direction gate every frame must pass before it reaches the module
/// chain.
pub open spec fn vth_spec(p: Parser, h_type: u32, header: Seq<u8>, data: Seq<u8>, send: bool) -> bool {
    let fr = for_red_spec(p.source, send);
    let rank = state_rank_spec(p.state);
    &&& (rank >= state_rank_spec(ParserState::Hello) || h_type == usbr::TYPE_HELLO)
    &&& if h_type == usbr::TYPE_HELLO {
        true
    } else if h_type == usbr::TYPE_DEVICE_CONNECT {
        rank >= state_rank_spec(ParserState::Informed)
    } else if h_type == usbr::TYPE_DEVICE_DISCONNECT {
        rank >= state_rank_spec(ParserState::Connected)
    } else if h_type == usbr::TYPE_DEVICE_DISCONNECT_ACK {
        &&& if send {
            has_cap_spec(p.our_caps@, usbr::CAP_DEVICE_DISCONNECT_ACK)
        } else {
            has_cap_spec(p.peer_caps@, usbr::CAP_DEVICE_DISCONNECT_ACK)
        }
        &&& th_len_matches(fr, h_type, header)
        &&& rank >= state_rank_spec(ParserState::Connected)
    } else if h_type == usbr::TYPE_RESET || h_type == usbr::TYPE_CANCEL_DATA_PACKET || h_type
        == usbr::TYPE_FILTER_REJECT {
        true
    } else if h_type == usbr::TYPE_INTERFACE_INFO {
        &&& th_len_matches(fr, h_type, header)
        &&& le32(header, 0) <= 32
    } else if h_type == usbr::TYPE_EP_INFO || h_type == usbr::TYPE_SET_CONF || h_type
        == usbr::TYPE_GET_CONF {
        true
    } else if h_type == usbr::TYPE_CONF_STATUS {
        rank >= state_rank_spec(ParserState::Informed)
    } else if h_type == usbr::TYPE_SET_ALT_SETTING || h_type == usbr::TYPE_GET_ALT_SETTING {
        true
    } else if h_type == usbr::TYPE_ALT_SETTING_STATUS {
        rank >= state_rank_spec(ParserState::EpReceived)
    } else if h_type == usbr::TYPE_START_ISO_STREAM || h_type == usbr::TYPE_STOP_ISO_STREAM
        || h_type == usbr::TYPE_ISO_STREAM_STATUS {
        rank >= state_rank_spec(ParserState::Connected)
    } else if h_type == usbr::TYPE_ISO_PACKET {
        &&& th_len_matches(fr, h_type, header)
        &&& rank >= state_rank_spec(ParserState::Connected)
        &&& expect_payload_spec(header[0], fr)
        &&& data.len() == le16(header, 2)
    } else if h_type == usbr::TYPE_START_INT_RECEIVING || h_type == usbr::TYPE_STOP_INT_RECEIVING {
        &&& th_len_matches(fr, h_type, header)
        &&& header[0] & 0x80 != 0
        &&& rank >= state_rank_spec(ParserState::Connected)
    } else if h_type == usbr::TYPE_INT_RECEIVING_STATUS {
        &&& th_len_matches(fr, h_type, header)
        &&& header[1] & 0x80 != 0
        &&& rank >= state_rank_spec(ParserState::Connected)
    } else if h_type == usbr::TYPE_INT_PACKET {
        &&& th_len_matches(fr, h_type, header)
        &&& rank >= state_rank_spec(ParserState::Connected)
        &&& expect_payload_spec(header[0], fr)
        &&& data.len() == le16(header, 2)
    } else if h_type == usbr::TYPE_START_BULK_RECEIVING {
        &&& th_len_matches(fr, h_type, header)
        &&& le32(header, 4) <= MAX_BULK_TRANSFER_SIZE
        &&& header[8] & 0x80 != 0
        &&& rank >= state_rank_spec(ParserState::Connected)
    } else if h_type == usbr::TYPE_STOP_BULK_RECEIVING {
        &&& th_len_matches(fr, h_type, header)
        &&& header[4] & 0x80 != 0
        &&& rank >= state_rank_spec(ParserState::Connected)
    } else if h_type == usbr::TYPE_BULK_RECEIVING_STATUS {
        &&& th_len_matches(fr, h_type, header)
        &&& header[4] & 0x80 != 0
        &&& rank >= state_rank_spec(ParserState::Connected)
    } else if h_type == usbr::TYPE_ALLOC_BULK_STREAMS || h_type == usbr::TYPE_FREE_BULK_STREAMS
        || h_type == usbr::TYPE_BULK_STREAMS_STATUS {
        rank >= state_rank_spec(ParserState::Connected)
    } else if h_type == usbr::TYPE_BULK_PACKET {
        &&& th_len_matches(fr, h_type, header)
        &&& bulk_len_spec(header) <= MAX_BULK_TRANSFER_SIZE
        &&& rank >= state_rank_spec(ParserState::Connected)
        &&& if expect_payload_spec(header[0], fr) {
            data.len() == bulk_len_spec(header)
        } else {
            data.len() == 0
        }
    } else if h_type == usbr::TYPE_BUFFERED_BULK_PACKET {
        &&& th_len_matches(fr, h_type, header)
        &&& le32(header, 4) <= MAX_BULK_TRANSFER_SIZE
        &&& rank >= state_rank_spec(ParserState::Connected)
        &&& expect_payload_spec(header[8], fr)
        &&& data.len() == le32(header, 4)
    } else if h_type == usbr::TYPE_CONTROL_PACKET {
        &&& th_len_matches(fr, h_type, header)
        &&& rank >= state_rank_spec(ParserState::Connected)
        &&& if expect_payload_spec(header[0], fr) {
            data.len() == le16(header, 8)
        } else {
            data.len() == 0
        }
    } else {
        false
    }
}

/// The capability words carried in a Hello payload, one per 4 bytes.
pub open spec fn hello_caps_words(d: Seq<u8>) -> Seq<u32> {
    Seq::new((d.len() / 4) as nat, |i: int| le32(d, 4 * i))
}

/// Structural requirements on a Hello frame: a full version field, a
/// whole and bounded number of capability words.
pub open spec fn hello_lens_ok(th: Seq<u8>, d: Seq<u8>) -> bool {
    &&& th.len() >= usbr::HELLO_MIN_SIZE
    &&& d.len() % 4 == 0
    &&& d.len() / 4 >= 1
    &&& d.len() / 4 <= usbr::CAPS_SIZE
}

/// A Hello frame this side accepts: sound lengths, all required
/// capabilities announced, and an ASCII version string.
pub open spec fn hello_content_ok(th: Seq<u8>, d: Seq<u8>) -> bool {
    &&& hello_lens_ok(th, d)
    &&& verify_caps_spec(hello_caps_words(d))
    &&& is_ascii_spec(th.subrange(0, usbr::HELLO_MIN_SIZE as int))
}

/// The peer capability words after recording a Hello payload.
pub open spec fn hello_merge_caps(orig: Seq<u32>, d: Seq<u8>) -> Seq<u32> {
    Seq::new(orig.len(), |i: int| if i < d.len() / 4 { le32(d, 4 * i) } else { orig[i] })
}

/// The mathematical model of a [`Parser`]: its fields with the capability
/// vectors as sequences.
pub struct ParserModel {
    pub state: ParserState,
    pub our_caps: Seq<u32>,
    pub peer_caps: Seq<u32>,
    pub source: Source,
}

impl View for Parser {
    type V = ParserModel;

    open spec fn view(&self) -> ParserModel {
        ParserModel {
            state: self.state,
            our_caps: self.our_caps@,
            peer_caps: self.peer_caps@,
            source: self.source,
        }
    }
}

/// The parser after one call of [`Parser::handle_hello`] on a frame with
/// type-header `th` and payload `d`: a no-op once a Hello has been
/// recorded, a no-op on invalid content, and otherwise the step to
/// `HelloR` that records the peer's capabilities.
pub open spec fn hello_step(m: ParserModel, th: Seq<u8>, d: Seq<u8>) -> ParserModel {
    if state_rank_spec(m.state) >= state_rank_spec(ParserState::HelloR) {
        m
    } else if !hello_content_ok(th, d) {
        m
    } else {
        ParserModel {
            state: ParserState::HelloR,
            peer_caps: hello_merge_caps(m.peer_caps, d),
            ..m
        }
    }
}

/// Processing a valid Hello is idempotent: the second processing of the
/// same frame leaves the parser exactly as the first left it.
pub proof fn lemma_hello_idempotent(m: ParserModel, th: Seq<u8>, d: Seq<u8>)
    ensures
        hello_step(hello_step(m, th, d), th, d) == hello_step(m, th, d),
{
}


impl Parser {
    /// Both capability vectors hold exactly `CAPS_SIZE` words.
    pub open spec fn wf(&self) -> bool {
        &&& self.our_caps@.len() == usbr::CAPS_SIZE
        &&& self.peer_caps@.len() == usbr::CAPS_SIZE
    }

    /// A fresh parser for one direction, before initialization.
    pub fn new(src: Source) -> (r: Parser)
        ensures
            r.wf(),
            r.state == ParserState::New,
            r.source == src,
            forall|i: int| 0 <= i < usbr::CAPS_SIZE ==> r.our_caps@[i] == 0,
            forall|i: int| 0 <= i < usbr::CAPS_SIZE ==> r.peer_caps@[i] == 0,
    {
        let mut ours: Vec<u32> = Vec::new();
        let mut peers: Vec<u32> = Vec::new();
        while ours.len() < usbr::CAPS_SIZE
            invariant
                ours@.len() <= usbr::CAPS_SIZE,
                forall|i: int| 0 <= i < ours@.len() ==> ours@[i] == 0,
            decreases usbr::CAPS_SIZE - ours@.len(),
        {
            ours.push(0);
        }
        while peers.len() < usbr::CAPS_SIZE
            invariant
                peers@.len() <= usbr::CAPS_SIZE,
                forall|i: int| 0 <= i < peers@.len() ==> peers@[i] == 0,
            decreases usbr::CAPS_SIZE - peers@.len(),
        {
            peers.push(0);
        }
        Parser { state: ParserState::New, our_caps: ours, peer_caps: peers, source: src }
    }

    /// The capability words this side announces after initialization with
    /// `caps`: the given words, and on the guest side also the
    /// device-disconnect-ack capability that only the guest carries.
    pub open spec fn init_caps_spec(source: Source, orig: Seq<u32>, caps: Seq<u32>) -> Seq<u32> {
        let copied = Seq::new(orig.len(), |i: int| if i < caps.len() { caps[i] } else { orig[i] });
        if source == Source::Blue {
            copied.update(0, copied[0] | (1u32 << usbr::CAP_DEVICE_DISCONNECT_ACK as u32))
        } else {
            copied
        }
    }

    /// Record this side's version and capabilities. Fails with
    /// `ParseError::Version` when the resulting capability words miss a
    /// required capability; on success the parser advances to `Init`.
    pub fn init(&mut self, version: &str, caps: &[u32]) -> (r: Result<(), ParseError>)
        requires
            old(self).wf(),
            old(self).state == ParserState::New,
            caps@.len() <= usbr::CAPS_SIZE,
        ensures
            final(self).wf(),
            final(self).source == old(self).source,
            final(self).peer_caps@ == old(self).peer_caps@,
            final(self).our_caps@ == Self::init_caps_spec(
                old(self).source,
                old(self).our_caps@,
                caps@,
            ),
            r.is_ok() == verify_caps_spec(final(self).our_caps@),
            final(self).state == if r.is_ok() {
                ParserState::Init
            } else {
                ParserState::New
            },
    {
        let _ = version;
        let mut i: usize = 0;
        while i < caps.len()
            invariant
                i <= caps@.len(),
                caps@.len() <= usbr::CAPS_SIZE,
                self.our_caps@.len() == usbr::CAPS_SIZE,
                self.peer_caps@ == old(self).peer_caps@,
                self.state == old(self).state,
                self.source == old(self).source,
                forall|j: int| 0 <= j < i ==> self.our_caps@[j] == caps@[j],
                forall|j: int|
                    i <= j < usbr::CAPS_SIZE ==> self.our_caps@[j] == old(self).our_caps@[j],
            decreases caps@.len() - i,
        {
            let w = caps[i];
            self.our_caps.set(i, w);
            i = i + 1;
        }
        if matches!(self.source, Source::Blue) {
            set_cap(&mut self.our_caps, usbr::CAP_DEVICE_DISCONNECT_ACK);
        }
        proof {
            assert(self.our_caps@ =~= Self::init_caps_spec(
                old(self).source,
                old(self).our_caps@,
                caps@,
            ));
        }
        if verify_caps(self.our_caps.as_slice(), "our") {
            self.state = ParserState::Init;
            Ok(())
        } else {
            Err(ParseError::Version)
        }
    }

    /// Record the peer's Hello: verify its capability words and version
    /// string, store the capabilities, and advance to `HelloR`. A second
    /// Hello after the first is ignored, leaving the parser unchanged.
    pub fn handle_hello(&mut self, req: &Request) -> (r: Result<(), ParseError>)
        requires
            old(self).wf(),
            old(self).state != ParserState::New,
        ensures
            final(self).wf(),
            final(self)@ == hello_step(old(self)@, req.type_header@, req.data@),
            r.is_ok() == (state_rank_spec(old(self).state) >= state_rank_spec(ParserState::HelloR)
                || hello_content_ok(req.type_header@, req.data@)),
            r.is_err() ==> final(self)@ == old(self)@,
            (state_rank_spec(old(self).state) < state_rank_spec(ParserState::HelloR)
                && !hello_lens_ok(req.type_header@, req.data@)) ==> r
                == Result::<(), ParseError>::Err(ParseError::HeaderLength),
            (state_rank_spec(old(self).state) < state_rank_spec(ParserState::HelloR)
                && hello_lens_ok(req.type_header@, req.data@)
                && !hello_content_ok(req.type_header@, req.data@)) ==> r
                == Result::<(), ParseError>::Err(ParseError::Version),
    {
        if state_rank(self.state) >= 2 {
            return Ok(());
        }
        if req.type_header.len() < usbr::HELLO_MIN_SIZE {
            return Err(ParseError::HeaderLength);
        }
        if req.data.len() % 4 != 0 {
            return Err(ParseError::HeaderLength);
        }
        let words: usize = req.data.len() / 4;
        if words < 1 || words > usbr::CAPS_SIZE {
            return Err(ParseError::HeaderLength);
        }
        let mut caps: Vec<u32> = Vec::new();
        let mut j: usize = 0;
        while j < words
            invariant
                j <= words,
                words == req.data@.len() / 4,
                words <= usbr::CAPS_SIZE,
                req.data@.len() % 4 == 0,
                caps@.len() == j,
                forall|k: int| 0 <= k < j ==> caps@[k] == le32(req.data@, 4 * k),
            decreases words - j,
        {
            assert(4 * j + 4 <= req.data@.len());
            let w = read_u32_le(req.data.as_slice(), 4 * j);
            caps.push(w);
            j = j + 1;
        }
        proof {
            assert(caps@ =~= hello_caps_words(req.data@));
        }
        if !verify_caps(caps.as_slice(), "peer") {
            return Err(ParseError::Version);
        }
        let version_ok = {
            let th = req.type_header.as_slice();
            let mut v: Vec<u8> = Vec::new();
            let mut k: usize = 0;
            while k < usbr::HELLO_MIN_SIZE
                invariant
                    k <= usbr::HELLO_MIN_SIZE,
                    th@.len() >= usbr::HELLO_MIN_SIZE,
                    v@.len() == k,
                    forall|t: int| 0 <= t < k ==> v@[t] == th@[t],
                decreases usbr::HELLO_MIN_SIZE - k,
            {
                let b = th[k];
                v.push(b);
                k = k + 1;
            }
            proof {
                assert(v@ =~= req.type_header@.subrange(0, usbr::HELLO_MIN_SIZE as int));
            }
            is_ascii(v.as_slice())
        };
        if !version_ok {
            return Err(ParseError::Version);
        }
        let mut j: usize = 0;
        while j < words
            invariant
                j <= words,
                words == req.data@.len() / 4,
                words <= usbr::CAPS_SIZE,
                req.data@.len() % 4 == 0,
                self.our_caps@ == old(self).our_caps@,
                self.state == old(self).state,
                self.source == old(self).source,
                self.peer_caps@.len() == usbr::CAPS_SIZE,
                forall|k: int| 0 <= k < j ==> self.peer_caps@[k] == le32(req.data@, 4 * k),
                forall|k: int|
                    j <= k < usbr::CAPS_SIZE ==> self.peer_caps@[k] == old(self).peer_caps@[k],
            decreases words - j,
        {
            assert(4 * j + 4 <= req.data@.len());
            let w = read_u32_le(req.data.as_slice(), 4 * j);
            self.peer_caps.set(j, w);
            j = j + 1;
        }
        self.state = ParserState::HelloR;
        proof {
            assert(self.peer_caps@ =~= hello_merge_caps(old(self).peer_caps@, req.data@));
        }
        Ok(())
    }

    /// The per-type header-size table, also the first direction gate: the
    /// size of the type header owed by `h_type`, or why the type is refused
    /// for this direction.
    pub fn get_type_header_len(&self, h_type: u32, send: bool) -> (r: Result<usize, ParseError>)
        ensures
            r == type_header_len_spec(for_red_spec(self.source, send), h_type),
    {
        let mut for_red = matches!(self.source, Source::Red);
        if send {
            for_red = !for_red;
        }

        if h_type == usbr::TYPE_HELLO {
            Ok(usbr::HELLO_MIN_SIZE)
        } else if h_type == usbr::TYPE_CONTROL_PACKET {
            Ok(usbr::CONTROL_PACKET_HEADER_SIZE)
        } else if h_type == usbr::TYPE_BULK_PACKET {
            Ok(usbr::BULK_PACKET_HEADER_SIZE)
        } else if h_type == usbr::TYPE_ISO_PACKET {
            Ok(usbr::ISO_PACKET_HEADER_SIZE)
        } else if h_type == usbr::TYPE_INT_PACKET {
            Ok(usbr::INT_PACKET_HEADER_SIZE)
        } else if h_type == usbr::TYPE_RESET {
            if for_red { Ok(0) } else { Err(ParseError::Source) }
        } else if h_type == usbr::TYPE_DEVICE_DISCONNECT_ACK {
            if for_red { Ok(0) } else { Err(ParseError::Source) }
        } else if h_type == usbr::TYPE_SET_CONF {
            if for_red { Ok(usbr::SET_CONF_HEADER_SIZE) } else { Err(ParseError::Source) }
        } else if h_type == usbr::TYPE_GET_CONF {
            if for_red { Ok(0) } else { Err(ParseError::Source) }
        } else if h_type == usbr::TYPE_SET_ALT_SETTING {
            if for_red { Ok(usbr::SET_ALT_SETTING_HEADER_SIZE) } else { Err(ParseError::Source) }
        } else if h_type == usbr::TYPE_GET_ALT_SETTING {
            if for_red { Ok(usbr::GET_ALT_SETTING_HEADER_SIZE) } else { Err(ParseError::Source) }
        } else if h_type == usbr::TYPE_START_ISO_STREAM {
            if for_red { Ok(usbr::START_ISO_STREAM_HEADER_SIZE) } else { Err(ParseError::Source) }
        } else if h_type == usbr::TYPE_STOP_ISO_STREAM {
            if for_red { Ok(usbr::STOP_ISO_STREAM_HEADER_SIZE) } else { Err(ParseError::Source) }
        } else if h_type == usbr::TYPE_START_INT_RECEIVING {
            if for_red {
                Ok(usbr::START_INT_RECEIVING_HEADER_SIZE)
            } else {
                Err(ParseError::Source)
            }
        } else if h_type == usbr::TYPE_STOP_INT_RECEIVING {
            if for_red { Ok(usbr::STOP_INT_RECEIVING_HEADER_SIZE) } else { Err(ParseError::Source) }
        } else if h_type == usbr::TYPE_ALLOC_BULK_STREAMS {
            if for_red { Ok(usbr::ALLOC_BULK_STREAMS_HEADER_SIZE) } else { Err(ParseError::Source) }
        } else if h_type == usbr::TYPE_FREE_BULK_STREAMS {
            if for_red { Ok(usbr::FREE_BULK_STREAMS_HEADER_SIZE) } else { Err(ParseError::Source) }
        } else if h_type == usbr::TYPE_CANCEL_DATA_PACKET {
            if for_red { Ok(0) } else { Err(ParseError::Source) }
        } else if h_type == usbr::TYPE_START_BULK_RECEIVING {
            if for_red {
                Ok(usbr::START_BULK_RECEIVING_HEADER_SIZE)
            } else {
                Err(ParseError::Source)
            }
        } else if h_type == usbr::TYPE_STOP_BULK_RECEIVING {
            if for_red {
                Ok(usbr::STOP_BULK_RECEIVING_HEADER_SIZE)
            } else {
                Err(ParseError::Source)
            }
        } else if h_type == usbr::TYPE_DEVICE_DISCONNECT {
            if !for_red { Ok(0) } else { Err(ParseError::Source) }
        } else if h_type == usbr::TYPE_CONF_STATUS {
            if !for_red { Ok(usbr::CONF_STATUS_HEADER_SIZE) } else { Err(ParseError::Source) }
        } else if h_type == usbr::TYPE_ALT_SETTING_STATUS {
            if !for_red {
                Ok(usbr::ALT_SETTING_STATUS_HEADER_SIZE)
            } else {
                Err(ParseError::Source)
            }
        } else if h_type == usbr::TYPE_ISO_STREAM_STATUS {
            if !for_red {
                Ok(usbr::ISO_STREAM_STATUS_HEADER_SIZE)
            } else {
                Err(ParseError::Source)
            }
        } else if h_type == usbr::TYPE_INT_RECEIVING_STATUS {
            if !for_red {
                Ok(usbr::INT_RECEIVING_STATUS_HEADER_SIZE)
            } else {
                Err(ParseError::Source)
            }
        } else if h_type == usbr::TYPE_BULK_STREAMS_STATUS {
            if !for_red {
                Ok(usbr::BULK_STREAMS_STATUS_HEADER_SIZE)
            } else {
                Err(ParseError::Source)
            }
        } else if h_type == usbr::TYPE_BULK_RECEIVING_STATUS {
            if !for_red {
                Ok(usbr::BULK_RECEIVING_STATUS_HEADER_SIZE)
            } else {
                Err(ParseError::Source)
            }
        } else if h_type == usbr::TYPE_BUFFERED_BULK_PACKET {
            if !for_red {
                Ok(usbr::BUFFERED_BULK_PACKET_HEADER_SIZE)
            } else {
                Err(ParseError::Source)
            }
        } else if h_type == usbr::TYPE_INTERFACE_INFO {
            if !for_red { Ok(usbr::INTERFACE_INFO_HEADER_SIZE) } else { Err(ParseError::Source) }
        } else if h_type == usbr::TYPE_EP_INFO {
            if !for_red { Ok(usbr::EP_INFO_HEADER_SIZE) } else { Err(ParseError::Source) }
        } else if h_type == usbr::TYPE_DEVICE_CONNECT {
            if !for_red { Ok(usbr::CONNECT_HEADER_SIZE) } else { Err(ParseError::Source) }
        } else if h_type == usbr::TYPE_FILTER_REJECT {
            if for_red { Ok(0) } else { Err(ParseError::Source) }
        } else {
            Err(ParseError::HeaderType)
        }
    }

    /// Whether `h_type` may carry a data payload beyond its type header.
    pub open spec fn expect_extra_data_spec(h_type: u32) -> bool {
        ||| h_type == usbr::TYPE_HELLO
        ||| h_type == usbr::TYPE_CONTROL_PACKET
        ||| h_type == usbr::TYPE_BULK_PACKET
        ||| h_type == usbr::TYPE_ISO_PACKET
        ||| h_type == usbr::TYPE_INT_PACKET
        ||| h_type == usbr::TYPE_BUFFERED_BULK_PACKET
    }

    /// Whether `h_type` may carry a data payload beyond its type header.
    pub fn expect_extra_data(&self, h_type: u32) -> (r: bool)
        ensures
            r == Self::expect_extra_data_spec(h_type),
    {
        h_type == usbr::TYPE_HELLO || h_type == usbr::TYPE_CONTROL_PACKET || h_type
            == usbr::TYPE_BULK_PACKET || h_type == usbr::TYPE_ISO_PACKET || h_type
            == usbr::TYPE_INT_PACKET || h_type == usbr::TYPE_BUFFERED_BULK_PACKET
    }

    /// The deep gate on a frame already split into type header and data:
    /// state, direction, declared lengths, capability requirements, and the
    /// payload-direction rule for data packets. See [`vth_spec`].
    pub fn verify_type_header(&self, h_type: u32, header: &[u8], data: &[u8], send: bool) -> (r:
        bool)
        requires
            self.wf(),
        ensures
            r == vth_spec(*self, h_type, header@, data@, send),
    {
        let mut for_red = matches!(self.source, Source::Red);
        if send {
            for_red = !for_red;
        }
        let rank = state_rank(self.state);

        if rank < 3 && h_type != usbr::TYPE_HELLO {
            return false;
        }

        if h_type == usbr::TYPE_HELLO {
            true
        } else if h_type == usbr::TYPE_DEVICE_CONNECT {
            rank >= 6
        } else if h_type == usbr::TYPE_DEVICE_DISCONNECT {
            rank >= 7
        } else if h_type == usbr::TYPE_DEVICE_DISCONNECT_ACK {
            let cap_ok = if send {
                has_cap(self.our_caps.as_slice(), usbr::CAP_DEVICE_DISCONNECT_ACK)
            } else {
                has_cap(self.peer_caps.as_slice(), usbr::CAP_DEVICE_DISCONNECT_ACK)
            };
            let len_ok = match self.get_type_header_len(h_type, send) {
                Ok(v) => v == header.len(),
                Err(_) => false,
            };
            cap_ok && len_ok && rank >= 7
        } else if h_type == usbr::TYPE_RESET || h_type == usbr::TYPE_CANCEL_DATA_PACKET || h_type
            == usbr::TYPE_FILTER_REJECT {
            true
        } else if h_type == usbr::TYPE_INTERFACE_INFO {
            let len_ok = match self.get_type_header_len(h_type, send) {
                Ok(v) => v == header.len(),
                Err(_) => false,
            };
            if !len_ok {
                return false;
            }
            let count = read_u32_le(header, 0);
            count <= 32
        } else if h_type == usbr::TYPE_EP_INFO || h_type == usbr::TYPE_SET_CONF || h_type
            == usbr::TYPE_GET_CONF {
            true
        } else if h_type == usbr::TYPE_CONF_STATUS {
            rank >= 6
        } else if h_type == usbr::TYPE_SET_ALT_SETTING || h_type == usbr::TYPE_GET_ALT_SETTING {
            true
        } else if h_type == usbr::TYPE_ALT_SETTING_STATUS {
            rank >= 5
        } else if h_type == usbr::TYPE_START_ISO_STREAM || h_type == usbr::TYPE_STOP_ISO_STREAM
            || h_type == usbr::TYPE_ISO_STREAM_STATUS {
            rank >= 7
        } else if h_type == usbr::TYPE_ISO_PACKET {
            let len_ok = match self.get_type_header_len(h_type, send) {
                Ok(v) => v == header.len(),
                Err(_) => false,
            };
            if !len_ok {
                return false;
            }
            let ep = header[0];
            let data_len = read_u16_le(header, 2) as usize;
            rank >= 7 && expect_payload(ep, for_red) && data.len() == data_len
        } else if h_type == usbr::TYPE_START_INT_RECEIVING || h_type
            == usbr::TYPE_STOP_INT_RECEIVING {
            let len_ok = match self.get_type_header_len(h_type, send) {
                Ok(v) => v == header.len(),
                Err(_) => false,
            };
            if !len_ok {
                return false;
            }
            header[0] & 0x80 != 0 && rank >= 7
        } else if h_type == usbr::TYPE_INT_RECEIVING_STATUS {
            let len_ok = match self.get_type_header_len(h_type, send) {
                Ok(v) => v == header.len(),
                Err(_) => false,
            };
            if !len_ok {
                return false;
            }
            header[1] & 0x80 != 0 && rank >= 7
        } else if h_type == usbr::TYPE_INT_PACKET {
            let len_ok = match self.get_type_header_len(h_type, send) {
                Ok(v) => v == header.len(),
                Err(_) => false,
            };
            if !len_ok {
                return false;
            }
            let ep = header[0];
            let data_len = read_u16_le(header, 2) as usize;
            rank >= 7 && expect_payload(ep, for_red) && data.len() == data_len
        } else if h_type == usbr::TYPE_START_BULK_RECEIVING {
            let len_ok = match self.get_type_header_len(h_type, send) {
                Ok(v) => v == header.len(),
                Err(_) => false,
            };
            if !len_ok {
                return false;
            }
            let bytes_per_transfer = read_u32_le(header, 4);
            bytes_per_transfer <= MAX_BULK_TRANSFER_SIZE && header[8] & 0x80 != 0 && rank >= 7
        } else if h_type == usbr::TYPE_STOP_BULK_RECEIVING {
            let len_ok = match self.get_type_header_len(h_type, send) {
                Ok(v) => v == header.len(),
                Err(_) => false,
            };
            if !len_ok {
                return false;
            }
            header[4] & 0x80 != 0 && rank >= 7
        } else if h_type == usbr::TYPE_BULK_RECEIVING_STATUS {
            let len_ok = match self.get_type_header_len(h_type, send) {
                Ok(v) => v == header.len(),
                Err(_) => false,
            };
            if !len_ok {
                return false;
            }
            header[4] & 0x80 != 0 && rank >= 7
        } else if h_type == usbr::TYPE_ALLOC_BULK_STREAMS || h_type == usbr::TYPE_FREE_BULK_STREAMS
            || h_type == usbr::TYPE_BULK_STREAMS_STATUS {
            rank >= 7
        } else if h_type == usbr::TYPE_BULK_PACKET {
            let len_ok = match self.get_type_header_len(h_type, send) {
                Ok(v) => v == header.len(),
                Err(_) => false,
            };
            if !len_ok {
                return false;
            }
            let ep = header[0];
            let data_len: usize = (read_u16_le(header, 8) as usize) * 0x10000 + (read_u16_le(
                header,
                2,
            ) as usize);
            if data_len > MAX_BULK_TRANSFER_SIZE as usize {
                return false;
            }
            if rank < 7 {
                return false;
            }
            if expect_payload(ep, for_red) {
                data.len() == data_len
            } else {
                data.len() == 0
            }
        } else if h_type == usbr::TYPE_BUFFERED_BULK_PACKET {
            let len_ok = match self.get_type_header_len(h_type, send) {
                Ok(v) => v == header.len(),
                Err(_) => false,
            };
            if !len_ok {
                return false;
            }
            let ep = header[8];
            let data_len = read_u32_le(header, 4);
            if data_len > MAX_BULK_TRANSFER_SIZE {
                return false;
            }
            rank >= 7 && expect_payload(ep, for_red) && data.len() == data_len as usize
        } else if h_type == usbr::TYPE_CONTROL_PACKET {
            let len_ok = match self.get_type_header_len(h_type, send) {
                Ok(v) => v == header.len(),
                Err(_) => false,
            };
            if !len_ok {
                return false;
            }
            let ep = header[0];
            let data_len = read_u16_le(header, 8) as usize;
            if rank < 7 {
                return false;
            }
            if expect_payload(ep, for_red) {
                data.len() == data_len
            } else {
                data.len() == 0
            }
        } else {
            false
        }
    }

    /// The state after observing a transition trigger: the two
    /// "info received" states combine into `Informed`, and otherwise the
    /// parser only ever moves forward.
    pub open spec fn combine_state_spec(cur: ParserState, new: ParserState) -> ParserState {
        if (cur == ParserState::IfaceReceived && new == ParserState::EpReceived) || (cur
            == ParserState::EpReceived && new == ParserState::IfaceReceived) {
            ParserState::Informed
        } else if state_rank_spec(cur) < state_rank_spec(new) {
            new
        } else {
            cur
        }
    }

    /// Advance the state machine, never downgrading. Returns whether the
    /// state changed, in which case the caller publishes the change to the
    /// peer endpoint.
    pub fn process_state_change(&mut self, state: ParserState) -> (r: bool)
        ensures
            final(self).state == Self::combine_state_spec(old(self).state, state),
            r == (final(self).state != old(self).state),
            state_rank_spec(old(self).state) <= state_rank_spec(final(self).state),
            old(self).state == ParserState::Connected ==> final(self).state
                == ParserState::Connected,
            final(self).our_caps@ == old(self).our_caps@,
            final(self).peer_caps@ == old(self).peer_caps@,
            final(self).source == old(self).source,
            final(self).wf() == old(self).wf(),
    {
        let cur_iface = matches!(self.state, ParserState::IfaceReceived);
        let cur_ep = matches!(self.state, ParserState::EpReceived);
        let new_iface = matches!(state, ParserState::IfaceReceived);
        let new_ep = matches!(state, ParserState::EpReceived);
        if (cur_iface && new_ep) || (cur_ep && new_iface) {
            self.state = ParserState::Informed;
            true
        } else if state_rank(self.state) < state_rank(state) {
            self.state = state;
            true
        } else {
            false
        }
    }
}

/// Whether a data packet naming endpoint `ep` is expected to carry its
/// payload in this direction.
pub fn expect_payload(ep: u8, for_red: bool) -> (r: bool)
    ensures
        r == expect_payload_spec(ep, for_red),
{
    ((ep & 0x80 != 0) && !for_red) || ((ep & 0x80 == 0) && for_red)
}


/// Append a byte slice to a buffer.
pub fn append_bytes(out: &mut Vec<u8>, src: &[u8])
    ensures
        final(out)@ == old(out)@ + src@,
{
    let n = src.len();
    let mut i: usize = 0;
    while i < n
        invariant
            i <= n,
            n == src@.len(),
            out@ == old(out)@ + src@.subrange(0, i as int),
        decreases n - i,
    {
        let b = src[i];
        out.push(b);
        proof {
            assert(old(out)@ + src@.subrange(0, i as int) + seq![src@[i as int]] =~= old(out)@
                + src@.subrange(0, i as int + 1));
        }
        i = i + 1;
    }
    proof {
        assert(src@.subrange(0, n as int) =~= src@);
    }
}

/// A request as it goes on the wire once both sides are past the Hello
/// boundary: full generic header, type header, data.
pub open spec fn frame_bytes(req: Request) -> Seq<u8> {
    req.header@ + req.type_header@ + req.data@
}

/// Serialize a request in 16-byte generic-header mode.
pub fn serialize_request(req: &Request) -> (r: Vec<u8>)
    ensures
        r@ == frame_bytes(*req),
{
    let mut out: Vec<u8> = Vec::new();
    append_bytes(&mut out, req.header.as_slice());
    append_bytes(&mut out, req.type_header.as_slice());
    append_bytes(&mut out, req.data.as_slice());
    out
}

/// Serialize a request in the 12-byte generic-header mode of the very
/// first frame, dropping the upper half of the packet id.
pub fn serialize_request_initial(req: &Request) -> (r: Vec<u8>)
    requires
        req.wf(),
    ensures
        r@ == req.header@.subrange(0, 12) + req.type_header@ + req.data@,
{
    let mut out: Vec<u8> = Vec::new();
    let mut i: usize = 0;
    while i < 12
        invariant
            i <= 12,
            req.header@.len() == usbr::REDIR_HEADER_SIZE,
            out@ == req.header@.subrange(0, i as int),
        decreases 12 - i,
    {
        let b = req.header[i];
        out.push(b);
        proof {
            assert(req.header@.subrange(0, i as int) + seq![req.header@[i as int]]
                =~= req.header@.subrange(0, i as int + 1));
        }
        i = i + 1;
    }
    append_bytes(&mut out, req.type_header.as_slice());
    append_bytes(&mut out, req.data.as_slice());
    out
}

/// How many generic-header bytes this side reads next: 12 before the
/// peer's Hello has been recorded, 16 from then on.
pub open spec fn read_header_size_spec(s: ParserState) -> usize {
    if state_rank_spec(s) < state_rank_spec(ParserState::HelloR) {
        12
    } else {
        16
    }
}

/// How many generic-header bytes this side writes next: 12 exactly while
/// the recorded Hello still waits to be echoed, 16 from then on.
pub open spec fn write_header_size_spec(s: ParserState) -> usize {
    if s == ParserState::HelloR {
        12
    } else {
        16
    }
}

/// Once a direction reads full-size headers it never goes back: under the
/// monotonic state order the 12-to-16-byte switch happens at most once.
pub proof fn lemma_read_size_switch(s1: ParserState, s2: ParserState)
    requires
        state_rank_spec(s1) <= state_rank_spec(s2),
    ensures
        read_header_size_spec(s1) == 16 ==> read_header_size_spec(s2) == 16,
{
}

/// A direction writes a short header only in state `HelloR`; any state at
/// or past `Hello` writes full headers, so after the one short write of
/// the echoed Hello the switch is permanent.
pub proof fn lemma_write_size_switch(s: ParserState)
    requires
        state_rank_spec(s) >= state_rank_spec(ParserState::Hello),
    ensures
        write_header_size_spec(s) == 16,
{
}

/// Re-splitting a serialized frame with the reader's own length
/// computation returns exactly the request that was serialized: the first
/// 16 bytes are its generic header, the next `th_len` its type header, and
/// the rest its data.
pub proof fn lemma_frame_round_trip(req: Request, th_len: int)
    requires
        req.wf(),
        0 <= th_len,
        req.type_header@.len() == th_len,
        req.total_len_spec() == th_len + req.data@.len(),
    ensures
        frame_bytes(req).len() == 16 + req.total_len_spec(),
        le32(frame_bytes(req), 0) == req.type_spec(),
        le32(frame_bytes(req), 4) == req.total_len_spec(),
        frame_bytes(req).subrange(0, 16) == req.header@,
        frame_bytes(req).subrange(16, 16 + th_len) == req.type_header@,
        frame_bytes(req).subrange(16 + th_len, frame_bytes(req).len() as int) == req.data@,
{
    let b = frame_bytes(req);
    assert(b.subrange(0, 16) =~= req.header@);
    assert(b.subrange(16, 16 + th_len) =~= req.type_header@);
    assert(b.subrange(16 + th_len, b.len() as int) =~= req.data@);
    assert(b[0] == req.header@[0]);
    assert(b[1] == req.header@[1]);
    assert(b[2] == req.header@[2]);
    assert(b[3] == req.header@[3]);
    assert(b[4] == req.header@[4]);
    assert(b[5] == req.header@[5]);
    assert(b[6] == req.header@[6]);
    assert(b[7] == req.header@[7]);
}

/// Handlers for every message type: the interface of one stage of the
/// module chain. The default for each type forwards the request unchanged
/// on port 0; a stage overrides only what it inspects. A stage returns
/// `None` to terminate the connection.
pub trait HasHandlers: Sized {
    /// The stage's own well-formedness, carried through every handler
    /// call. Stages without internal state leave the default.
    open spec fn inv(&self) -> bool {
        true
    }

    /// The message types on which this stage is a pure pass-through:
    /// for those, every handler returns the request unchanged, alone,
    /// on port 0, and leaves the stage as it was. A stage narrows this
    /// to everything it does not inspect.
    open spec fn passes_through(h_type: u32) -> bool {
        true
    }

    fn handle_hello(&mut self, source: Source, req: Request) -> (r: Option<(u8, Vec<Request>)>)
        requires
            old(self).inv(),
            req.wf(),
        ensures
            final(self).inv(),
            r matches Some(o) ==> forall|i: int| 0 <= i < o.1@.len() ==> (#[trigger] o.1@[i]).wf(),
            Self::passes_through(usbr::TYPE_HELLO) ==> (*final(self) == *old(self) && (
            r matches Some(o) && o.0 == 0 && o.1@.len() == 1 && o.1@[0] == req)),
    {
        let _ = source;
        Some((0, vec![req]))
    }

    fn handle_connect(&mut self, source: Source, req: Request) -> (r: Option<(u8, Vec<Request>)>)
        requires
            old(self).inv(),
            req.wf(),
        ensures
            final(self).inv(),
            r matches Some(o) ==> forall|i: int| 0 <= i < o.1@.len() ==> (#[trigger] o.1@[i]).wf(),
            Self::passes_through(usbr::TYPE_DEVICE_CONNECT) ==> (*final(self) == *old(self) && (
            r matches Some(o) && o.0 == 0 && o.1@.len() == 1 && o.1@[0] == req)),
    {
        let _ = source;
        Some((0, vec![req]))
    }

    fn handle_disconnect(&mut self, source: Source, req: Request) -> (r: Option<(
        u8,
        Vec<Request>,
    )>)
        requires
            old(self).inv(),
            req.wf(),
        ensures
            final(self).inv(),
            r matches Some(o) ==> forall|i: int| 0 <= i < o.1@.len() ==> (#[trigger] o.1@[i]).wf(),
            Self::passes_through(usbr::TYPE_DEVICE_DISCONNECT) ==> (*final(self) == *old(self) && (
            r matches Some(o) && o.0 == 0 && o.1@.len() == 1 && o.1@[0] == req)),
    {
        let _ = source;
        Some((0, vec![req]))
    }

    fn handle_disconnect_ack(&mut self, source: Source, req: Request) -> (r: Option<(
        u8,
        Vec<Request>,
    )>)
        requires
            old(self).inv(),
            req.wf(),
        ensures
            final(self).inv(),
            r matches Some(o) ==> forall|i: int| 0 <= i < o.1@.len() ==> (#[trigger] o.1@[i]).wf(),
            Self::passes_through(usbr::TYPE_DEVICE_DISCONNECT_ACK) ==> (*final(self) == *old(self) && (
            r matches Some(o) && o.0 == 0 && o.1@.len() == 1 && o.1@[0] == req)),
    {
        let _ = source;
        Some((0, vec![req]))
    }

    fn handle_reset(&mut self, source: Source, req: Request) -> (r: Option<(u8, Vec<Request>)>)
        requires
            old(self).inv(),
            req.wf(),
        ensures
            final(self).inv(),
            r matches Some(o) ==> forall|i: int| 0 <= i < o.1@.len() ==> (#[trigger] o.1@[i]).wf(),
            Self::passes_through(usbr::TYPE_RESET) ==> (*final(self) == *old(self) && (
            r matches Some(o) && o.0 == 0 && o.1@.len() == 1 && o.1@[0] == req)),
    {
        let _ = source;
        Some((0, vec![req]))
    }

    fn handle_cancel_data_packet(&mut self, source: Source, req: Request) -> (r: Option<(
        u8,
        Vec<Request>,
    )>)
        requires
            old(self).inv(),
            req.wf(),
        ensures
            final(self).inv(),
            r matches Some(o) ==> forall|i: int| 0 <= i < o.1@.len() ==> (#[trigger] o.1@[i]).wf(),
            Self::passes_through(usbr::TYPE_CANCEL_DATA_PACKET) ==> (*final(self) == *old(self) && (
            r matches Some(o) && o.0 == 0 && o.1@.len() == 1 && o.1@[0] == req)),
    {
        let _ = source;
        Some((0, vec![req]))
    }

    fn handle_interface_info(&mut self, source: Source, req: Request) -> (r: Option<(
        u8,
        Vec<Request>,
    )>)
        requires
            old(self).inv(),
            req.wf(),
        ensures
            final(self).inv(),
            r matches Some(o) ==> forall|i: int| 0 <= i < o.1@.len() ==> (#[trigger] o.1@[i]).wf(),
            Self::passes_through(usbr::TYPE_INTERFACE_INFO) ==> (*final(self) == *old(self) && (
            r matches Some(o) && o.0 == 0 && o.1@.len() == 1 && o.1@[0] == req)),
    {
        let _ = source;
        Some((0, vec![req]))
    }

    fn handle_ep_info(&mut self, source: Source, req: Request) -> (r: Option<(u8, Vec<Request>)>)
        requires
            old(self).inv(),
            req.wf(),
        ensures
            final(self).inv(),
            r matches Some(o) ==> forall|i: int| 0 <= i < o.1@.len() ==> (#[trigger] o.1@[i]).wf(),
            Self::passes_through(usbr::TYPE_EP_INFO) ==> (*final(self) == *old(self) && (
            r matches Some(o) && o.0 == 0 && o.1@.len() == 1 && o.1@[0] == req)),
    {
        let _ = source;
        Some((0, vec![req]))
    }

    fn handle_get_conf(&mut self, source: Source, req: Request) -> (r: Option<(u8, Vec<Request>)>)
        requires
            old(self).inv(),
            req.wf(),
        ensures
            final(self).inv(),
            r matches Some(o) ==> forall|i: int| 0 <= i < o.1@.len() ==> (#[trigger] o.1@[i]).wf(),
            Self::passes_through(usbr::TYPE_GET_CONF) ==> (*final(self) == *old(self) && (
            r matches Some(o) && o.0 == 0 && o.1@.len() == 1 && o.1@[0] == req)),
    {
        let _ = source;
        Some((0, vec![req]))
    }

    fn handle_set_conf(&mut self, source: Source, req: Request) -> (r: Option<(u8, Vec<Request>)>)
        requires
            old(self).inv(),
            req.wf(),
        ensures
            final(self).inv(),
            r matches Some(o) ==> forall|i: int| 0 <= i < o.1@.len() ==> (#[trigger] o.1@[i]).wf(),
            Self::passes_through(usbr::TYPE_SET_CONF) ==> (*final(self) == *old(self) && (
            r matches Some(o) && o.0 == 0 && o.1@.len() == 1 && o.1@[0] == req)),
    {
        let _ = source;
        Some((0, vec![req]))
    }

    fn handle_conf_status(&mut self, source: Source, req: Request) -> (r: Option<(
        u8,
        Vec<Request>,
    )>)
        requires
            old(self).inv(),
            req.wf(),
        ensures
            final(self).inv(),
            r matches Some(o) ==> forall|i: int| 0 <= i < o.1@.len() ==> (#[trigger] o.1@[i]).wf(),
            Self::passes_through(usbr::TYPE_CONF_STATUS) ==> (*final(self) == *old(self) && (
            r matches Some(o) && o.0 == 0 && o.1@.len() == 1 && o.1@[0] == req)),
    {
        let _ = source;
        Some((0, vec![req]))
    }

    fn handle_get_alt_setting(&mut self, source: Source, req: Request) -> (r: Option<(
        u8,
        Vec<Request>,
    )>)
        requires
            old(self).inv(),
            req.wf(),
        ensures
            final(self).inv(),
            r matches Some(o) ==> forall|i: int| 0 <= i < o.1@.len() ==> (#[trigger] o.1@[i]).wf(),
            Self::passes_through(usbr::TYPE_GET_ALT_SETTING) ==> (*final(self) == *old(self) && (
            r matches Some(o) && o.0 == 0 && o.1@.len() == 1 && o.1@[0] == req)),
    {
        let _ = source;
        Some((0, vec![req]))
    }

    fn handle_set_alt_setting(&mut self, source: Source, req: Request) -> (r: Option<(
        u8,
        Vec<Request>,
    )>)
        requires
            old(self).inv(),
            req.wf(),
        ensures
            final(self).inv(),
            r matches Some(o) ==> forall|i: int| 0 <= i < o.1@.len() ==> (#[trigger] o.1@[i]).wf(),
            Self::passes_through(usbr::TYPE_SET_ALT_SETTING) ==> (*final(self) == *old(self) && (
            r matches Some(o) && o.0 == 0 && o.1@.len() == 1 && o.1@[0] == req)),
    {
        let _ = source;
        Some((0, vec![req]))
    }

    fn handle_alt_setting_status(&mut self, source: Source, req: Request) -> (r: Option<(
        u8,
        Vec<Request>,
    )>)
        requires
            old(self).inv(),
            req.wf(),
        ensures
            final(self).inv(),
            r matches Some(o) ==> forall|i: int| 0 <= i < o.1@.len() ==> (#[trigger] o.1@[i]).wf(),
            Self::passes_through(usbr::TYPE_ALT_SETTING_STATUS) ==> (*final(self) == *old(self) && (
            r matches Some(o) && o.0 == 0 && o.1@.len() == 1 && o.1@[0] == req)),
    {
        let _ = source;
        Some((0, vec![req]))
    }

    fn handle_start_iso_stream(&mut self, source: Source, req: Request) -> (r: Option<(
        u8,
        Vec<Request>,
    )>)
        requires
            old(self).inv(),
            req.wf(),
        ensures
            final(self).inv(),
            r matches Some(o) ==> forall|i: int| 0 <= i < o.1@.len() ==> (#[trigger] o.1@[i]).wf(),
            Self::passes_through(usbr::TYPE_START_ISO_STREAM) ==> (*final(self) == *old(self) && (
            r matches Some(o) && o.0 == 0 && o.1@.len() == 1 && o.1@[0] == req)),
    {
        let _ = source;
        Some((0, vec![req]))
    }

    fn handle_stop_iso_stream(&mut self, source: Source, req: Request) -> (r: Option<(
        u8,
        Vec<Request>,
    )>)
        requires
            old(self).inv(),
            req.wf(),
        ensures
            final(self).inv(),
            r matches Some(o) ==> forall|i: int| 0 <= i < o.1@.len() ==> (#[trigger] o.1@[i]).wf(),
            Self::passes_through(usbr::TYPE_STOP_ISO_STREAM) ==> (*final(self) == *old(self) && (
            r matches Some(o) && o.0 == 0 && o.1@.len() == 1 && o.1@[0] == req)),
    {
        let _ = source;
        Some((0, vec![req]))
    }

    fn handle_iso_stream_status(&mut self, source: Source, req: Request) -> (r: Option<(
        u8,
        Vec<Request>,
    )>)
        requires
            old(self).inv(),
            req.wf(),
        ensures
            final(self).inv(),
            r matches Some(o) ==> forall|i: int| 0 <= i < o.1@.len() ==> (#[trigger] o.1@[i]).wf(),
            Self::passes_through(usbr::TYPE_ISO_STREAM_STATUS) ==> (*final(self) == *old(self) && (
            r matches Some(o) && o.0 == 0 && o.1@.len() == 1 && o.1@[0] == req)),
    {
        let _ = source;
        Some((0, vec![req]))
    }

    fn handle_start_int_receiving(&mut self, source: Source, req: Request) -> (r: Option<(
        u8,
        Vec<Request>,
    )>)
        requires
            old(self).inv(),
            req.wf(),
        ensures
            final(self).inv(),
            r matches Some(o) ==> forall|i: int| 0 <= i < o.1@.len() ==> (#[trigger] o.1@[i]).wf(),
            Self::passes_through(usbr::TYPE_START_INT_RECEIVING) ==> (*final(self) == *old(self) && (
            r matches Some(o) && o.0 == 0 && o.1@.len() == 1 && o.1@[0] == req)),
    {
        let _ = source;
        Some((0, vec![req]))
    }

    fn handle_stop_int_receiving(&mut self, source: Source, req: Request) -> (r: Option<(
        u8,
        Vec<Request>,
    )>)
        requires
            old(self).inv(),
            req.wf(),
        ensures
            final(self).inv(),
            r matches Some(o) ==> forall|i: int| 0 <= i < o.1@.len() ==> (#[trigger] o.1@[i]).wf(),
            Self::passes_through(usbr::TYPE_STOP_INT_RECEIVING) ==> (*final(self) == *old(self) && (
            r matches Some(o) && o.0 == 0 && o.1@.len() == 1 && o.1@[0] == req)),
    {
        let _ = source;
        Some((0, vec![req]))
    }

    fn handle_int_receiving_status(&mut self, source: Source, req: Request) -> (r: Option<(
        u8,
        Vec<Request>,
    )>)
        requires
            old(self).inv(),
            req.wf(),
        ensures
            final(self).inv(),
            r matches Some(o) ==> forall|i: int| 0 <= i < o.1@.len() ==> (#[trigger] o.1@[i]).wf(),
            Self::passes_through(usbr::TYPE_INT_RECEIVING_STATUS) ==> (*final(self) == *old(self) && (
            r matches Some(o) && o.0 == 0 && o.1@.len() == 1 && o.1@[0] == req)),
    {
        let _ = source;
        Some((0, vec![req]))
    }

    fn handle_alloc_bulk_streams(&mut self, source: Source, req: Request) -> (r: Option<(
        u8,
        Vec<Request>,
    )>)
        requires
            old(self).inv(),
            req.wf(),
        ensures
            final(self).inv(),
            r matches Some(o) ==> forall|i: int| 0 <= i < o.1@.len() ==> (#[trigger] o.1@[i]).wf(),
            Self::passes_through(usbr::TYPE_ALLOC_BULK_STREAMS) ==> (*final(self) == *old(self) && (
            r matches Some(o) && o.0 == 0 && o.1@.len() == 1 && o.1@[0] == req)),
    {
        let _ = source;
        Some((0, vec![req]))
    }

    fn handle_free_bulk_streams(&mut self, source: Source, req: Request) -> (r: Option<(
        u8,
        Vec<Request>,
    )>)
        requires
            old(self).inv(),
            req.wf(),
        ensures
            final(self).inv(),
            r matches Some(o) ==> forall|i: int| 0 <= i < o.1@.len() ==> (#[trigger] o.1@[i]).wf(),
            Self::passes_through(usbr::TYPE_FREE_BULK_STREAMS) ==> (*final(self) == *old(self) && (
            r matches Some(o) && o.0 == 0 && o.1@.len() == 1 && o.1@[0] == req)),
    {
        let _ = source;
        Some((0, vec![req]))
    }

    fn handle_bulk_streams_status(&mut self, source: Source, req: Request) -> (r: Option<(
        u8,
        Vec<Request>,
    )>)
        requires
            old(self).inv(),
            req.wf(),
        ensures
            final(self).inv(),
            r matches Some(o) ==> forall|i: int| 0 <= i < o.1@.len() ==> (#[trigger] o.1@[i]).wf(),
            Self::passes_through(usbr::TYPE_BULK_STREAMS_STATUS) ==> (*final(self) == *old(self) && (
            r matches Some(o) && o.0 == 0 && o.1@.len() == 1 && o.1@[0] == req)),
    {
        let _ = source;
        Some((0, vec![req]))
    }

    fn handle_start_bulk_receiving(&mut self, source: Source, req: Request) -> (r: Option<(
        u8,
        Vec<Request>,
    )>)
        requires
            old(self).inv(),
            req.wf(),
        ensures
            final(self).inv(),
            r matches Some(o) ==> forall|i: int| 0 <= i < o.1@.len() ==> (#[trigger] o.1@[i]).wf(),
            Self::passes_through(usbr::TYPE_START_BULK_RECEIVING) ==> (*final(self) == *old(self) && (
            r matches Some(o) && o.0 == 0 && o.1@.len() == 1 && o.1@[0] == req)),
    {
        let _ = source;
        Some((0, vec![req]))
    }

    fn handle_stop_bulk_receiving(&mut self, source: Source, req: Request) -> (r: Option<(
        u8,
        Vec<Request>,
    )>)
        requires
            old(self).inv(),
            req.wf(),
        ensures
            final(self).inv(),
            r matches Some(o) ==> forall|i: int| 0 <= i < o.1@.len() ==> (#[trigger] o.1@[i]).wf(),
            Self::passes_through(usbr::TYPE_STOP_BULK_RECEIVING) ==> (*final(self) == *old(self) && (
            r matches Some(o) && o.0 == 0 && o.1@.len() == 1 && o.1@[0] == req)),
    {
        let _ = source;
        Some((0, vec![req]))
    }

    fn handle_bulk_receiving_status(&mut self, source: Source, req: Request) -> (r: Option<(
        u8,
        Vec<Request>,
    )>)
        requires
            old(self).inv(),
            req.wf(),
        ensures
            final(self).inv(),
            r matches Some(o) ==> forall|i: int| 0 <= i < o.1@.len() ==> (#[trigger] o.1@[i]).wf(),
            Self::passes_through(usbr::TYPE_BULK_RECEIVING_STATUS) ==> (*final(self) == *old(self) && (
            r matches Some(o) && o.0 == 0 && o.1@.len() == 1 && o.1@[0] == req)),
    {
        let _ = source;
        Some((0, vec![req]))
    }

    fn handle_filter_reject(&mut self, source: Source, req: Request) -> (r: Option<(
        u8,
        Vec<Request>,
    )>)
        requires
            old(self).inv(),
            req.wf(),
        ensures
            final(self).inv(),
            r matches Some(o) ==> forall|i: int| 0 <= i < o.1@.len() ==> (#[trigger] o.1@[i]).wf(),
            Self::passes_through(usbr::TYPE_FILTER_REJECT) ==> (*final(self) == *old(self) && (
            r matches Some(o) && o.0 == 0 && o.1@.len() == 1 && o.1@[0] == req)),
    {
        let _ = source;
        Some((0, vec![req]))
    }

    fn handle_control_packet(&mut self, source: Source, req: Request) -> (r: Option<(
        u8,
        Vec<Request>,
    )>)
        requires
            old(self).inv(),
            req.wf(),
        ensures
            final(self).inv(),
            r matches Some(o) ==> forall|i: int| 0 <= i < o.1@.len() ==> (#[trigger] o.1@[i]).wf(),
            Self::passes_through(usbr::TYPE_CONTROL_PACKET) ==> (*final(self) == *old(self) && (
            r matches Some(o) && o.0 == 0 && o.1@.len() == 1 && o.1@[0] == req)),
    {
        let _ = source;
        Some((0, vec![req]))
    }

    fn handle_bulk_packet(&mut self, source: Source, req: Request) -> (r: Option<(
        u8,
        Vec<Request>,
    )>)
        requires
            old(self).inv(),
            req.wf(),
        ensures
            final(self).inv(),
            r matches Some(o) ==> forall|i: int| 0 <= i < o.1@.len() ==> (#[trigger] o.1@[i]).wf(),
            Self::passes_through(usbr::TYPE_BULK_PACKET) ==> (*final(self) == *old(self) && (
            r matches Some(o) && o.0 == 0 && o.1@.len() == 1 && o.1@[0] == req)),
    {
        let _ = source;
        Some((0, vec![req]))
    }

    fn handle_int_packet(&mut self, source: Source, req: Request) -> (r: Option<(
        u8,
        Vec<Request>,
    )>)
        requires
            old(self).inv(),
            req.wf(),
        ensures
            final(self).inv(),
            r matches Some(o) ==> forall|i: int| 0 <= i < o.1@.len() ==> (#[trigger] o.1@[i]).wf(),
            Self::passes_through(usbr::TYPE_INT_PACKET) ==> (*final(self) == *old(self) && (
            r matches Some(o) && o.0 == 0 && o.1@.len() == 1 && o.1@[0] == req)),
    {
        let _ = source;
        Some((0, vec![req]))
    }

    fn handle_iso_packet(&mut self, source: Source, req: Request) -> (r: Option<(
        u8,
        Vec<Request>,
    )>)
        requires
            old(self).inv(),
            req.wf(),
        ensures
            final(self).inv(),
            r matches Some(o) ==> forall|i: int| 0 <= i < o.1@.len() ==> (#[trigger] o.1@[i]).wf(),
            Self::passes_through(usbr::TYPE_ISO_PACKET) ==> (*final(self) == *old(self) && (
            r matches Some(o) && o.0 == 0 && o.1@.len() == 1 && o.1@[0] == req)),
    {
        let _ = source;
        Some((0, vec![req]))
    }

    fn handle_buffered_bulk_packet(&mut self, source: Source, req: Request) -> (r: Option<(
        u8,
        Vec<Request>,
    )>)
        requires
            old(self).inv(),
            req.wf(),
        ensures
            final(self).inv(),
            r matches Some(o) ==> forall|i: int| 0 <= i < o.1@.len() ==> (#[trigger] o.1@[i]).wf(),
            Self::passes_through(usbr::TYPE_BUFFERED_BULK_PACKET) ==> (*final(self) == *old(self) && (
            r matches Some(o) && o.0 == 0 && o.1@.len() == 1 && o.1@[0] == req)),
    {
        let _ = source;
        Some((0, vec![req]))
    }
}

impl Parser {
    /// Consume and drop `len` bytes after a corrupt frame, so the stream
    /// is realigned on the next frame boundary. `false` means the read
    /// failed and the connection cannot be recovered.
    pub fn discard_current_request<T: ByteSource>(&self, input: &mut T, len: usize) -> (r: bool) {
        match input.read_bytes(len) {
            Some(buf) => buf.len() == len,
            None => false,
        }
    }

    /// Pull one frame off the stream: read the generic header (12 bytes
    /// before the Hello boundary, 16 after), look the type up in the size
    /// table, read type header and data, and hand back the request only if
    /// it passes [`Parser::verify_type_header`]. A frame that fails the
    /// table or length checks is discarded and the next one is tried, up
    /// to [`MAX_RESYNC_ATTEMPTS`] consecutive corrupt frames; `None` means
    /// the stream failed or ran out of attempts and the connection must
    /// end.
    pub fn pull_next_request<T: ByteSource>(&self, input: &mut T) -> (r: Option<Request>)
        requires
            self.wf(),
        ensures
            match r {
                Some(req) => {
                    &&& req.wf()
                    &&& th_len_matches(
                        for_red_spec(self.source, false),
                        req.type_spec(),
                        req.type_header@,
                    )
                    &&& req.type_header@.len() + req.data@.len() == req.total_len_spec()
                    &&& vth_spec(*self, req.type_spec(), req.type_header@, req.data@, false)
                },
                None => true,
            },
    {
        let mut attempts: usize = 0;
        while attempts < MAX_RESYNC_ATTEMPTS
            invariant
                self.wf(),
            decreases MAX_RESYNC_ATTEMPTS - attempts,
        {
            attempts = attempts + 1;
            let short_mode = state_rank(self.state) < 2;
            let hlen: usize = if short_mode {
                12
            } else {
                16
            };
            let mut header = match input.read_bytes(hlen) {
                Some(v) => v,
                None => {
                    return None;
                },
            };
            if header.len() != hlen {
                return None;
            }
            if short_mode {
                header.push(0);
                header.push(0);
                header.push(0);
                header.push(0);
            }
            let total_len: usize = read_u32_le(header.as_slice(), 4) as usize;
            let h_type: u32 = read_u32_le(header.as_slice(), 0);

            let type_len: usize = match self.get_type_header_len(h_type, false) {
                Ok(v) => v,
                Err(_) => {
                    if !self.discard_current_request(input, total_len) {
                        return None;
                    }
                    continue;
                },
            };

            if total_len < type_len || (total_len > type_len && !self.expect_extra_data(h_type)) {
                if !self.discard_current_request(input, total_len) {
                    return None;
                }
                continue;
            }

            let type_header = match input.read_bytes(type_len) {
                Some(v) => v,
                None => {
                    return None;
                },
            };
            if type_header.len() != type_len {
                return None;
            }

            let data_len: usize = total_len - type_len;
            let data = match input.read_bytes(data_len) {
                Some(v) => v,
                None => {
                    return None;
                },
            };
            if data.len() != data_len {
                return None;
            }

            let req = Request { header, type_header, data };
            if self.verify_type_header(
                h_type,
                req.type_header.as_slice(),
                req.data.as_slice(),
                false,
            ) {
                return Some(req);
            }
            // The frame's bytes are already consumed; drop it and realign
            // on the next one.
        }
        None
    }

    /// Write the processed requests to the peer socket. The one frame
    /// written while the state is still `HelloR` goes out with a 12-byte
    /// generic header and advances the state to `Hello`; everything after
    /// uses the full 16 bytes. `false` means the sink failed.
    pub fn push_outputs<W: ByteSink>(&mut self, output: &mut W, requests: Vec<Request>) -> (r:
        bool)
        requires
            old(self).wf(),
            forall|i: int| 0 <= i < requests@.len() ==> #[trigger] requests@[i].wf(),
        ensures
            final(self).wf(),
            final(self).our_caps@ == old(self).our_caps@,
            final(self).peer_caps@ == old(self).peer_caps@,
            final(self).source == old(self).source,
            state_rank_spec(old(self).state) <= state_rank_spec(final(self).state),
            old(self).state != ParserState::HelloR ==> final(self).state == old(self).state,
            old(self).state == ParserState::HelloR ==> (final(self).state == ParserState::HelloR
                || final(self).state == ParserState::Hello),
            (r && old(self).state == ParserState::HelloR && requests@.len() > 0)
                ==> final(self).state == ParserState::Hello,
    {
        let n = requests.len();
        let mut i: usize = 0;
        while i < n
            invariant
                i <= n,
                n == requests@.len(),
                forall|k: int| 0 <= k < requests@.len() ==> #[trigger] requests@[k].wf(),
                self.wf(),
                self.our_caps@ == old(self).our_caps@,
                self.peer_caps@ == old(self).peer_caps@,
                self.source == old(self).source,
                state_rank_spec(old(self).state) <= state_rank_spec(self.state),
                old(self).state != ParserState::HelloR ==> self.state == old(self).state,
                old(self).state == ParserState::HelloR ==> (self.state == ParserState::HelloR
                    || self.state == ParserState::Hello),
                old(self).state == ParserState::HelloR && i > 0 ==> self.state
                    == ParserState::Hello,
            decreases n - i,
        {
            let buf = if matches!(self.state, ParserState::HelloR) {
                let b = serialize_request_initial(&requests[i]);
                b
            } else {
                serialize_request(&requests[i])
            };
            let was_hello_r = matches!(self.state, ParserState::HelloR);
            if !output.write_bytes(&buf) {
                return false;
            }
            if was_hello_r {
                self.process_state_change(ParserState::Hello);
            }
            i = i + 1;
        }
        true
    }

    /// The message types the dispatcher hands to a handler. Anything
    /// else produces no output at all.
    pub open spec fn known_type_spec(t: u32) -> bool {
        ||| t == usbr::TYPE_HELLO
        ||| t == usbr::TYPE_DEVICE_CONNECT
        ||| t == usbr::TYPE_INTERFACE_INFO
        ||| t == usbr::TYPE_EP_INFO
        ||| t == usbr::TYPE_SET_CONF
        ||| t == usbr::TYPE_SET_ALT_SETTING
        ||| t == usbr::TYPE_DEVICE_DISCONNECT
        ||| t == usbr::TYPE_RESET
        ||| t == usbr::TYPE_CONF_STATUS
        ||| t == usbr::TYPE_GET_ALT_SETTING
        ||| t == usbr::TYPE_ALT_SETTING_STATUS
        ||| t == usbr::TYPE_START_ISO_STREAM
        ||| t == usbr::TYPE_STOP_ISO_STREAM
        ||| t == usbr::TYPE_ISO_STREAM_STATUS
        ||| t == usbr::TYPE_START_INT_RECEIVING
        ||| t == usbr::TYPE_INT_RECEIVING_STATUS
        ||| t == usbr::TYPE_ALLOC_BULK_STREAMS
        ||| t == usbr::TYPE_FREE_BULK_STREAMS
        ||| t == usbr::TYPE_BULK_STREAMS_STATUS
        ||| t == usbr::TYPE_CANCEL_DATA_PACKET
        ||| t == usbr::TYPE_DEVICE_DISCONNECT_ACK
        ||| t == usbr::TYPE_START_BULK_RECEIVING
        ||| t == usbr::TYPE_STOP_BULK_RECEIVING
        ||| t == usbr::TYPE_BULK_RECEIVING_STATUS
        ||| t == usbr::TYPE_FILTER_REJECT
        ||| t == usbr::TYPE_CONTROL_PACKET
        ||| t == usbr::TYPE_BULK_PACKET
        ||| t == usbr::TYPE_ISO_PACKET
        ||| t == usbr::TYPE_INT_PACKET
        ||| t == usbr::TYPE_BUFFERED_BULK_PACKET
    }

    /// Process one verified request: advance the state machine on the
    /// types that trigger transitions, then run the request through the
    /// handlers. Returns the handler's output requests together with the
    /// state change to publish to the peer endpoint, or `None` when the
    /// connection must terminate (a stage said so, or an invalid Hello).
    pub fn process_request<T: HasHandlers>(&mut self, handlers: &mut T, req: Request) -> (r:
        Option<(Vec<Request>, Option<ParserState>)>)
        requires
            old(self).wf(),
            old(self).state != ParserState::New,
            req.wf(),
            old(handlers).inv(),
        ensures
            final(self).wf(),
            final(handlers).inv(),
            final(self).source == old(self).source,
            final(self).our_caps@ == old(self).our_caps@,
            state_rank_spec(old(self).state) <= state_rank_spec(final(self).state),
            old(self).state == ParserState::Connected ==> final(self).state
                == ParserState::Connected,
            req.type_spec() == usbr::TYPE_HELLO ==> final(self)@ == hello_step(
                old(self)@,
                req.type_header@,
                req.data@,
            ),
            req.type_spec() != usbr::TYPE_HELLO ==> final(self).peer_caps@ == old(self).peer_caps@,
            req.type_spec() == usbr::TYPE_DEVICE_CONNECT ==> final(self).state
                == Self::combine_state_spec(old(self).state, ParserState::Connected),
            req.type_spec() == usbr::TYPE_INTERFACE_INFO ==> final(self).state
                == Self::combine_state_spec(old(self).state, ParserState::IfaceReceived),
            req.type_spec() == usbr::TYPE_EP_INFO ==> final(self).state
                == Self::combine_state_spec(old(self).state, ParserState::EpReceived),
            (req.type_spec() != usbr::TYPE_HELLO && req.type_spec() != usbr::TYPE_DEVICE_CONNECT
                && req.type_spec() != usbr::TYPE_INTERFACE_INFO && req.type_spec()
                != usbr::TYPE_EP_INFO) ==> final(self).state == old(self).state,
            r matches Some(o) ==> forall|i: int| 0 <= i < o.0@.len() ==> (#[trigger] o.0@[i]).wf(),
            Self::known_type_spec(req.type_spec()) == false ==> (r matches Some(o) && o.0@.len()
                == 0 && o.1 is None),
            (Self::known_type_spec(req.type_spec()) && T::passes_through(req.type_spec()) && (
            req.type_spec() == usbr::TYPE_HELLO ==> (state_rank_spec(old(self).state)
                >= state_rank_spec(ParserState::HelloR) || hello_content_ok(
                req.type_header@,
                req.data@,
            )))) ==> (r matches Some(o) && o.0@.len() == 1 && o.0@[0] == req && *final(handlers)
                == *old(handlers)),
            r matches Some(o) ==> o.1 == (if req.type_spec() == usbr::TYPE_DEVICE_CONNECT
                && Self::combine_state_spec(old(self).state, ParserState::Connected) != old(
                self,
            ).state {
                Some(ParserState::Connected)
            } else if req.type_spec() == usbr::TYPE_INTERFACE_INFO && Self::combine_state_spec(
                old(self).state,
                ParserState::IfaceReceived,
            ) != old(self).state {
                Some(ParserState::IfaceReceived)
            } else if req.type_spec() == usbr::TYPE_EP_INFO && Self::combine_state_spec(
                old(self).state,
                ParserState::EpReceived,
            ) != old(self).state {
                Some(ParserState::EpReceived)
            } else {
                None
            }),
    {
        let t = req.get_type();
        let sender = get_sender(self.source);

        if t == usbr::TYPE_HELLO {
            if self.handle_hello(&req).is_err() {
                return None;
            }
            match handlers.handle_hello(sender, req) {
                Some((_, out)) => Some((out, None)),
                None => None,
            }
        } else if t == usbr::TYPE_DEVICE_CONNECT {
            let changed = self.process_state_change(ParserState::Connected);
            let publish = if changed {
                Some(ParserState::Connected)
            } else {
                None
            };
            match handlers.handle_connect(sender, req) {
                Some((_, out)) => Some((out, publish)),
                None => None,
            }
        } else if t == usbr::TYPE_INTERFACE_INFO {
            let changed = self.process_state_change(ParserState::IfaceReceived);
            let publish = if changed {
                Some(ParserState::IfaceReceived)
            } else {
                None
            };
            match handlers.handle_interface_info(sender, req) {
                Some((_, out)) => Some((out, publish)),
                None => None,
            }
        } else if t == usbr::TYPE_EP_INFO {
            let changed = self.process_state_change(ParserState::EpReceived);
            let publish = if changed {
                Some(ParserState::EpReceived)
            } else {
                None
            };
            match handlers.handle_ep_info(sender, req) {
                Some((_, out)) => Some((out, publish)),
                None => None,
            }
        } else {
            let out = if t == usbr::TYPE_SET_CONF {
                handlers.handle_set_conf(sender, req)
            } else if t == usbr::TYPE_SET_ALT_SETTING {
                handlers.handle_set_alt_setting(sender, req)
            } else if t == usbr::TYPE_DEVICE_DISCONNECT {
                handlers.handle_disconnect(sender, req)
            } else if t == usbr::TYPE_RESET {
                handlers.handle_reset(sender, req)
            } else if t == usbr::TYPE_CONF_STATUS {
                handlers.handle_conf_status(sender, req)
            } else if t == usbr::TYPE_GET_ALT_SETTING {
                handlers.handle_get_alt_setting(sender, req)
            } else if t == usbr::TYPE_ALT_SETTING_STATUS {
                handlers.handle_alt_setting_status(sender, req)
            } else if t == usbr::TYPE_START_ISO_STREAM {
                handlers.handle_start_iso_stream(sender, req)
            } else if t == usbr::TYPE_STOP_ISO_STREAM {
                handlers.handle_stop_iso_stream(sender, req)
            } else if t == usbr::TYPE_ISO_STREAM_STATUS {
                handlers.handle_iso_stream_status(sender, req)
            } else if t == usbr::TYPE_START_INT_RECEIVING {
                handlers.handle_start_int_receiving(sender, req)
            } else if t == usbr::TYPE_INT_RECEIVING_STATUS {
                handlers.handle_int_receiving_status(sender, req)
            } else if t == usbr::TYPE_ALLOC_BULK_STREAMS {
                handlers.handle_alloc_bulk_streams(sender, req)
            } else if t == usbr::TYPE_FREE_BULK_STREAMS {
                handlers.handle_free_bulk_streams(sender, req)
            } else if t == usbr::TYPE_BULK_STREAMS_STATUS {
                handlers.handle_bulk_streams_status(sender, req)
            } else if t == usbr::TYPE_CANCEL_DATA_PACKET {
                handlers.handle_cancel_data_packet(sender, req)
            } else if t == usbr::TYPE_DEVICE_DISCONNECT_ACK {
                handlers.handle_disconnect_ack(sender, req)
            } else if t == usbr::TYPE_START_BULK_RECEIVING {
                handlers.handle_start_bulk_receiving(sender, req)
            } else if t == usbr::TYPE_STOP_BULK_RECEIVING {
                handlers.handle_stop_bulk_receiving(sender, req)
            } else if t == usbr::TYPE_BULK_RECEIVING_STATUS {
                handlers.handle_bulk_receiving_status(sender, req)
            } else if t == usbr::TYPE_FILTER_REJECT {
                handlers.handle_filter_reject(sender, req)
            } else if t == usbr::TYPE_CONTROL_PACKET {
                handlers.handle_control_packet(sender, req)
            } else if t == usbr::TYPE_BULK_PACKET {
                handlers.handle_bulk_packet(sender, req)
            } else if t == usbr::TYPE_ISO_PACKET {
                handlers.handle_iso_packet(sender, req)
            } else if t == usbr::TYPE_INT_PACKET {
                handlers.handle_int_packet(sender, req)
            } else if t == usbr::TYPE_BUFFERED_BULK_PACKET {
                handlers.handle_buffered_bulk_packet(sender, req)
            } else {
                Some((0, Vec::new()))
            };
            match out {
                Some((_, v)) => Some((v, None)),
                None => None,
            }
        }
    }
}

} // verus!
