//! Wire-level types and constants of the USBR redirection protocol: the
//! generic header, the per-type type-headers, capability bits, and verified
//! decoders from raw little-endian bytes into the header structs.

use vstd::prelude::*;
use crate::bytes::{le16, le32, read_u16_le, read_u32_le};

verus! {

pub const VERSION: usize = 0x000700;

/// Number of 32-bit words in a capability set.
pub const CAPS_SIZE: usize = 1;

/// Status codes carried by status and data-packet headers.
pub enum UsbrResult {
    Success,
    Cancelled,
    Inval,
    Ioerror,
    Stall,
    Timeout,
    Babble,
}

pub enum TransferType {
    Control,
    Iso,
    Bulk,
    Interrupt,
    Invalid,
}

pub enum Speed {
    Slow,
    Full,
    High,
    Super,
    Unknown,
}

/// The message types of the protocol. Control messages use wire codes 0-27
/// and data messages 100-104; see [`header_type_code`].
#[derive(Copy, Clone, PartialEq, Eq, Structural)]
pub enum HeaderType {
    Hello,
    DeviceConnect,
    DeviceDisconnect,
    Reset,
    InterfaceInfo,
    EpInfo,
    SetConf,
    GetConf,
    ConfStatus,
    SetAltSetting,
    GetAltSetting,
    AltSettingStatus,
    StartIsoStream,
    StopIsoStream,
    IsoStreamStatus,
    StartIntReceiving,
    StopIntReceiving,
    IntReceivingStatus,
    AllocBulkStreams,
    FreeBulkStreams,
    BulkStreamsStatus,
    CancelDataPacket,
    FilterReject,
    FilterFilter,
    DeviceDisconnectAck,
    StartBulkReceiving,
    StopBulkReceiving,
    BulkReceivingStatus,
    ControlPacket,
    BulkPacket,
    IsoPacket,
    IntPacket,
    BufferedBulkPacket,
}

// Wire codes for each message type.
pub const TYPE_HELLO: u32 = 0;
pub const TYPE_DEVICE_CONNECT: u32 = 1;
pub const TYPE_DEVICE_DISCONNECT: u32 = 2;
pub const TYPE_RESET: u32 = 3;
pub const TYPE_INTERFACE_INFO: u32 = 4;
pub const TYPE_EP_INFO: u32 = 5;
pub const TYPE_SET_CONF: u32 = 6;
pub const TYPE_GET_CONF: u32 = 7;
pub const TYPE_CONF_STATUS: u32 = 8;
pub const TYPE_SET_ALT_SETTING: u32 = 9;
pub const TYPE_GET_ALT_SETTING: u32 = 10;
pub const TYPE_ALT_SETTING_STATUS: u32 = 11;
pub const TYPE_START_ISO_STREAM: u32 = 12;
pub const TYPE_STOP_ISO_STREAM: u32 = 13;
pub const TYPE_ISO_STREAM_STATUS: u32 = 14;
pub const TYPE_START_INT_RECEIVING: u32 = 15;
pub const TYPE_STOP_INT_RECEIVING: u32 = 16;
pub const TYPE_INT_RECEIVING_STATUS: u32 = 17;
pub const TYPE_ALLOC_BULK_STREAMS: u32 = 18;
pub const TYPE_FREE_BULK_STREAMS: u32 = 19;
pub const TYPE_BULK_STREAMS_STATUS: u32 = 20;
pub const TYPE_CANCEL_DATA_PACKET: u32 = 21;
pub const TYPE_FILTER_REJECT: u32 = 22;
pub const TYPE_FILTER_FILTER: u32 = 23;
pub const TYPE_DEVICE_DISCONNECT_ACK: u32 = 24;
pub const TYPE_START_BULK_RECEIVING: u32 = 25;
pub const TYPE_STOP_BULK_RECEIVING: u32 = 26;
pub const TYPE_BULK_RECEIVING_STATUS: u32 = 27;
pub const TYPE_CONTROL_PACKET: u32 = 100;
pub const TYPE_BULK_PACKET: u32 = 101;
pub const TYPE_ISO_PACKET: u32 = 102;
pub const TYPE_INT_PACKET: u32 = 103;
pub const TYPE_BUFFERED_BULK_PACKET: u32 = 104;

pub open spec fn header_type_code_spec(t: HeaderType) -> u32 {
    match t {
        HeaderType::Hello => TYPE_HELLO,
        HeaderType::DeviceConnect => TYPE_DEVICE_CONNECT,
        HeaderType::DeviceDisconnect => TYPE_DEVICE_DISCONNECT,
        HeaderType::Reset => TYPE_RESET,
        HeaderType::InterfaceInfo => TYPE_INTERFACE_INFO,
        HeaderType::EpInfo => TYPE_EP_INFO,
        HeaderType::SetConf => TYPE_SET_CONF,
        HeaderType::GetConf => TYPE_GET_CONF,
        HeaderType::ConfStatus => TYPE_CONF_STATUS,
        HeaderType::SetAltSetting => TYPE_SET_ALT_SETTING,
        HeaderType::GetAltSetting => TYPE_GET_ALT_SETTING,
        HeaderType::AltSettingStatus => TYPE_ALT_SETTING_STATUS,
        HeaderType::StartIsoStream => TYPE_START_ISO_STREAM,
        HeaderType::StopIsoStream => TYPE_STOP_ISO_STREAM,
        HeaderType::IsoStreamStatus => TYPE_ISO_STREAM_STATUS,
        HeaderType::StartIntReceiving => TYPE_START_INT_RECEIVING,
        HeaderType::StopIntReceiving => TYPE_STOP_INT_RECEIVING,
        HeaderType::IntReceivingStatus => TYPE_INT_RECEIVING_STATUS,
        HeaderType::AllocBulkStreams => TYPE_ALLOC_BULK_STREAMS,
        HeaderType::FreeBulkStreams => TYPE_FREE_BULK_STREAMS,
        HeaderType::BulkStreamsStatus => TYPE_BULK_STREAMS_STATUS,
        HeaderType::CancelDataPacket => TYPE_CANCEL_DATA_PACKET,
        HeaderType::FilterReject => TYPE_FILTER_REJECT,
        HeaderType::FilterFilter => TYPE_FILTER_FILTER,
        HeaderType::DeviceDisconnectAck => TYPE_DEVICE_DISCONNECT_ACK,
        HeaderType::StartBulkReceiving => TYPE_START_BULK_RECEIVING,
        HeaderType::StopBulkReceiving => TYPE_STOP_BULK_RECEIVING,
        HeaderType::BulkReceivingStatus => TYPE_BULK_RECEIVING_STATUS,
        HeaderType::ControlPacket => TYPE_CONTROL_PACKET,
        HeaderType::BulkPacket => TYPE_BULK_PACKET,
        HeaderType::IsoPacket => TYPE_ISO_PACKET,
        HeaderType::IntPacket => TYPE_INT_PACKET,
        HeaderType::BufferedBulkPacket => TYPE_BUFFERED_BULK_PACKET,
    }
}

/// Wire code of a message type.
pub fn header_type_code(t: HeaderType) -> (r: u32)
    ensures
        r == header_type_code_spec(t),
{
    match t {
        HeaderType::Hello => TYPE_HELLO,
        HeaderType::DeviceConnect => TYPE_DEVICE_CONNECT,
        HeaderType::DeviceDisconnect => TYPE_DEVICE_DISCONNECT,
        HeaderType::Reset => TYPE_RESET,
        HeaderType::InterfaceInfo => TYPE_INTERFACE_INFO,
        HeaderType::EpInfo => TYPE_EP_INFO,
        HeaderType::SetConf => TYPE_SET_CONF,
        HeaderType::GetConf => TYPE_GET_CONF,
        HeaderType::ConfStatus => TYPE_CONF_STATUS,
        HeaderType::SetAltSetting => TYPE_SET_ALT_SETTING,
        HeaderType::GetAltSetting => TYPE_GET_ALT_SETTING,
        HeaderType::AltSettingStatus => TYPE_ALT_SETTING_STATUS,
        HeaderType::StartIsoStream => TYPE_START_ISO_STREAM,
        HeaderType::StopIsoStream => TYPE_STOP_ISO_STREAM,
        HeaderType::IsoStreamStatus => TYPE_ISO_STREAM_STATUS,
        HeaderType::StartIntReceiving => TYPE_START_INT_RECEIVING,
        HeaderType::StopIntReceiving => TYPE_STOP_INT_RECEIVING,
        HeaderType::IntReceivingStatus => TYPE_INT_RECEIVING_STATUS,
        HeaderType::AllocBulkStreams => TYPE_ALLOC_BULK_STREAMS,
        HeaderType::FreeBulkStreams => TYPE_FREE_BULK_STREAMS,
        HeaderType::BulkStreamsStatus => TYPE_BULK_STREAMS_STATUS,
        HeaderType::CancelDataPacket => TYPE_CANCEL_DATA_PACKET,
        HeaderType::FilterReject => TYPE_FILTER_REJECT,
        HeaderType::FilterFilter => TYPE_FILTER_FILTER,
        HeaderType::DeviceDisconnectAck => TYPE_DEVICE_DISCONNECT_ACK,
        HeaderType::StartBulkReceiving => TYPE_START_BULK_RECEIVING,
        HeaderType::StopBulkReceiving => TYPE_STOP_BULK_RECEIVING,
        HeaderType::BulkReceivingStatus => TYPE_BULK_RECEIVING_STATUS,
        HeaderType::ControlPacket => TYPE_CONTROL_PACKET,
        HeaderType::BulkPacket => TYPE_BULK_PACKET,
        HeaderType::IsoPacket => TYPE_ISO_PACKET,
        HeaderType::IntPacket => TYPE_INT_PACKET,
        HeaderType::BufferedBulkPacket => TYPE_BUFFERED_BULK_PACKET,
    }
}

/// Optional protocol features announced during the Hello exchange. The
/// bit index of each capability is its position in this list.
pub enum Caps {
    BulkStreams,
    ConnectDeviceVersion,
    Filter,
    DeviceDisconnectAck,
    EpInfoMaxPacketSize,
    Cap64BitsIds,
    Cap32BitsBulkLength,
    BulkReceiving,
}

// Bit indices of the capabilities, in declaration order.
pub const CAP_BULK_STREAMS: usize = 0;
pub const CAP_CONNECT_DEVICE_VERSION: usize = 1;
pub const CAP_FILTER: usize = 2;
pub const CAP_DEVICE_DISCONNECT_ACK: usize = 3;
pub const CAP_EP_INFO_MAX_PACKET_SIZE: usize = 4;
pub const CAP_64_BITS_IDS: usize = 5;
pub const CAP_32_BITS_BULK_LENGTH: usize = 6;
pub const CAP_BULK_RECEIVING: usize = 7;

pub open spec fn cap_bit_spec(c: Caps) -> usize {
    match c {
        Caps::BulkStreams => CAP_BULK_STREAMS,
        Caps::ConnectDeviceVersion => CAP_CONNECT_DEVICE_VERSION,
        Caps::Filter => CAP_FILTER,
        Caps::DeviceDisconnectAck => CAP_DEVICE_DISCONNECT_ACK,
        Caps::EpInfoMaxPacketSize => CAP_EP_INFO_MAX_PACKET_SIZE,
        Caps::Cap64BitsIds => CAP_64_BITS_IDS,
        Caps::Cap32BitsBulkLength => CAP_32_BITS_BULK_LENGTH,
        Caps::BulkReceiving => CAP_BULK_RECEIVING,
    }
}

/// Bit index of a capability.
pub fn cap_bit(c: Caps) -> (r: usize)
    ensures
        r == cap_bit_spec(c),
{
    match c {
        Caps::BulkStreams => CAP_BULK_STREAMS,
        Caps::ConnectDeviceVersion => CAP_CONNECT_DEVICE_VERSION,
        Caps::Filter => CAP_FILTER,
        Caps::DeviceDisconnectAck => CAP_DEVICE_DISCONNECT_ACK,
        Caps::EpInfoMaxPacketSize => CAP_EP_INFO_MAX_PACKET_SIZE,
        Caps::Cap64BitsIds => CAP_64_BITS_IDS,
        Caps::Cap32BitsBulkLength => CAP_32_BITS_BULK_LENGTH,
        Caps::BulkReceiving => CAP_BULK_RECEIVING,
    }
}

/// The generic header that begins every frame: type, total length, packet id.
#[derive(Copy, Clone)]
pub struct RedirHeader {
    pub h_type: u32,
    pub len: u32,
    pub id: u64,
}

/// On-wire size of the full generic header (the initial Hello uses 4 fewer).
pub const REDIR_HEADER_SIZE: usize = 16;

/// The Hello type-header: a 64-byte zero-padded ASCII version string.
/// The capability words follow as the data payload.
pub struct HelloHeader {
    pub version: [u8; 64],
}

pub const HELLO_MIN_SIZE: usize = 64;

#[derive(Copy, Clone)]
pub struct ConnectHeader {
    pub speed: u8,
    pub class: u8,
    pub subclass: u8,
    pub proto: u8,
    pub vendor_id: u16,
    pub product_id: u16,
    pub version_bcd: u16,
}

pub const CONNECT_HEADER_SIZE: usize = 10;

pub struct InterfaceInfoHeader {
    pub count: u32,
    pub interface: [u8; 32],
    pub class: [u8; 32],
    pub subclass: [u8; 32],
    pub proto: [u8; 32],
}

pub const INTERFACE_INFO_HEADER_SIZE: usize = 132;

pub struct EpInfoHeader {
    pub ep_type: [u8; 32],
    pub interval: [u8; 32],
    pub interface: [u8; 32],
    pub max_packet_size: [u16; 32],
    pub max_streams: [u32; 32],
}

pub const EP_INFO_HEADER_SIZE: usize = 288;

#[derive(Copy, Clone)]
pub struct SetConfHeader {
    pub conf: u8,
}

pub const SET_CONF_HEADER_SIZE: usize = 1;

#[derive(Copy, Clone)]
pub struct ConfStatusHeader {
    pub status: u8,
    pub conf: u8,
}

pub const CONF_STATUS_HEADER_SIZE: usize = 2;

#[derive(Copy, Clone)]
pub struct SetAltSettingHeader {
    pub interface: u8,
    pub alt: u8,
}

pub const SET_ALT_SETTING_HEADER_SIZE: usize = 2;

#[derive(Copy, Clone)]
pub struct GetAltSettingHeader {
    pub interface: u8,
}

pub const GET_ALT_SETTING_HEADER_SIZE: usize = 1;

#[derive(Copy, Clone)]
pub struct AltSettingStatusHeader {
    pub status: u8,
    pub interface: u8,
    pub alt: u8,
}

pub const ALT_SETTING_STATUS_HEADER_SIZE: usize = 3;

#[derive(Copy, Clone)]
pub struct StartIsoStreamHeader {
    pub ep: u8,
    pub pkts_per_urb: u8,
    pub no_urbs: u8,
}

pub const START_ISO_STREAM_HEADER_SIZE: usize = 3;

#[derive(Copy, Clone)]
pub struct StopIsoStreamHeader {
    pub ep: u8,
}

pub const STOP_ISO_STREAM_HEADER_SIZE: usize = 1;

#[derive(Copy, Clone)]
pub struct IsoStreamStatusHeader {
    pub status: u8,
    pub ep: u8,
}

pub const ISO_STREAM_STATUS_HEADER_SIZE: usize = 2;

#[derive(Copy, Clone)]
pub struct StartIntReceivingHeader {
    pub ep: u8,
}

pub const START_INT_RECEIVING_HEADER_SIZE: usize = 1;

#[derive(Copy, Clone)]
pub struct StopIntReceivingHeader {
    pub ep: u8,
}

pub const STOP_INT_RECEIVING_HEADER_SIZE: usize = 1;

#[derive(Copy, Clone)]
pub struct IntReceivingStatusHeader {
    pub status: u8,
    pub ep: u8,
}

pub const INT_RECEIVING_STATUS_HEADER_SIZE: usize = 2;

#[derive(Copy, Clone)]
pub struct AllocBulkStreamsHeader {
    pub ep_bmask: u32,
    pub no_streams: u32,
}

pub const ALLOC_BULK_STREAMS_HEADER_SIZE: usize = 8;

#[derive(Copy, Clone)]
pub struct FreeBulkStreamsHeader {
    pub ep_bmask: u32,
}

pub const FREE_BULK_STREAMS_HEADER_SIZE: usize = 4;

#[derive(Copy, Clone)]
pub struct BulkStreamsStatusHeader {
    pub ep_bmask: u32,
    pub no_streams: u32,
    pub status: u8,
}

pub const BULK_STREAMS_STATUS_HEADER_SIZE: usize = 9;

#[derive(Copy, Clone)]
pub struct StartBulkReceivingHeader {
    pub stream_id: u32,
    pub bytes_per_transfer: u32,
    pub ep: u8,
    pub no_transfers: u8,
}

pub const START_BULK_RECEIVING_HEADER_SIZE: usize = 10;

#[derive(Copy, Clone)]
pub struct StopBulkReceivingHeader {
    pub stream_id: u32,
    pub ep: u8,
}

pub const STOP_BULK_RECEIVING_HEADER_SIZE: usize = 5;

#[derive(Copy, Clone)]
pub struct BulkReceivingStatusHeader {
    pub stream_id: u32,
    pub ep: u8,
    pub status: u8,
}

pub const BULK_RECEIVING_STATUS_HEADER_SIZE: usize = 6;

#[derive(Copy, Clone)]
pub struct ControlPacketHeader {
    pub ep: u8,
    pub request: u8,
    pub requesttype: u8,
    pub status: u8,
    pub value: u16,
    pub index: u16,
    pub length: u16,
}

pub const CONTROL_PACKET_HEADER_SIZE: usize = 10;

#[derive(Copy, Clone)]
pub struct BulkPacketHeader {
    pub ep: u8,
    pub status: u8,
    pub length: u16,
    pub stream_id: u32,
    pub length_high: u16,
}

pub const BULK_PACKET_HEADER_SIZE: usize = 10;

#[derive(Copy, Clone)]
pub struct IsoPacketHeader {
    pub ep: u8,
    pub status: u8,
    pub length: u16,
}

pub const ISO_PACKET_HEADER_SIZE: usize = 4;

#[derive(Copy, Clone)]
pub struct IntPacketHeader {
    pub ep: u8,
    pub status: u8,
    pub length: u16,
}

pub const INT_PACKET_HEADER_SIZE: usize = 4;

#[derive(Copy, Clone)]
pub struct BufferedBulkPacketHeader {
    pub stream_id: u32,
    pub length: u32,
    pub ep: u8,
    pub status: u8,
}

pub const BUFFERED_BULK_PACKET_HEADER_SIZE: usize = 10;

/// The control-packet type-header encoded in `th`.
pub open spec fn control_packet_header_spec(th: Seq<u8>) -> ControlPacketHeader {
    ControlPacketHeader {
        ep: th[0],
        request: th[1],
        requesttype: th[2],
        status: th[3],
        value: le16(th, 4),
        index: le16(th, 6),
        length: le16(th, 8),
    }
}

/// Decode a control-packet type-header from its packed wire form.
pub fn parse_control_packet_header(th: &[u8]) -> (r: ControlPacketHeader)
    requires
        th@.len() >= CONTROL_PACKET_HEADER_SIZE,
    ensures
        r == control_packet_header_spec(th@),
        r.ep == th@[0],
        r.request == th@[1],
        r.requesttype == th@[2],
        r.status == th@[3],
        r.value == le16(th@, 4),
        r.index == le16(th@, 6),
        r.length == le16(th@, 8),
{
    ControlPacketHeader {
        ep: th[0],
        request: th[1],
        requesttype: th[2],
        status: th[3],
        value: read_u16_le(th, 4),
        index: read_u16_le(th, 6),
        length: read_u16_le(th, 8),
    }
}

/// Decode a bulk-packet type-header from its packed wire form.
pub fn parse_bulk_packet_header(th: &[u8]) -> (r: BulkPacketHeader)
    requires
        th@.len() >= BULK_PACKET_HEADER_SIZE,
    ensures
        r.ep == th@[0],
        r.status == th@[1],
        r.length == le16(th@, 2),
        r.stream_id == le32(th@, 4),
        r.length_high == le16(th@, 8),
{
    BulkPacketHeader {
        ep: th[0],
        status: th[1],
        length: read_u16_le(th, 2),
        stream_id: read_u32_le(th, 4),
        length_high: read_u16_le(th, 8),
    }
}

/// Decode an iso-packet type-header from its packed wire form.
pub fn parse_iso_packet_header(th: &[u8]) -> (r: IsoPacketHeader)
    requires
        th@.len() >= ISO_PACKET_HEADER_SIZE,
    ensures
        r.ep == th@[0],
        r.status == th@[1],
        r.length == le16(th@, 2),
{
    IsoPacketHeader { ep: th[0], status: th[1], length: read_u16_le(th, 2) }
}

/// Decode an interrupt-packet type-header from its packed wire form.
pub fn parse_int_packet_header(th: &[u8]) -> (r: IntPacketHeader)
    requires
        th@.len() >= INT_PACKET_HEADER_SIZE,
    ensures
        r.ep == th@[0],
        r.status == th@[1],
        r.length == le16(th@, 2),
{
    IntPacketHeader { ep: th[0], status: th[1], length: read_u16_le(th, 2) }
}

/// Decode a buffered-bulk-packet type-header from its packed wire form.
pub fn parse_buffered_bulk_packet_header(th: &[u8]) -> (r: BufferedBulkPacketHeader)
    requires
        th@.len() >= BUFFERED_BULK_PACKET_HEADER_SIZE,
    ensures
        r.stream_id == le32(th@, 0),
        r.length == le32(th@, 4),
        r.ep == th@[8],
        r.status == th@[9],
{
    BufferedBulkPacketHeader {
        stream_id: read_u32_le(th, 0),
        length: read_u32_le(th, 4),
        ep: th[8],
        status: th[9],
    }
}

/// Decode a device-connect type-header from its packed wire form.
pub fn parse_connect_header(th: &[u8]) -> (r: ConnectHeader)
    requires
        th@.len() >= CONNECT_HEADER_SIZE,
    ensures
        r.speed == th@[0],
        r.class == th@[1],
        r.subclass == th@[2],
        r.proto == th@[3],
        r.vendor_id == le16(th@, 4),
        r.product_id == le16(th@, 6),
        r.version_bcd == le16(th@, 8),
{
    ConnectHeader {
        speed: th[0],
        class: th[1],
        subclass: th[2],
        proto: th[3],
        vendor_id: read_u16_le(th, 4),
        product_id: read_u16_le(th, 6),
        version_bcd: read_u16_le(th, 8),
    }
}

} // verus!
