//! USB constants and structures needed by the descriptor validator: the
//! control-request encoding, descriptor types, class codes, and verified
//! decoders for each descriptor's packed little-endian fields.

pub mod bbb;
pub mod hid;
pub mod printer;

use vstd::prelude::*;
use crate::bytes::{le16, le32, read_u16_le, read_u32_le};

verus! {

// USB versions in packed BCD.
pub const V1: u16 = 0x0100;
pub const V2: u16 = 0x0200;
pub const V3: u16 = 0x0300;

// USB directions, used in endpoint addresses and in bmRequestType.
pub const DIR_OUT: u8 = 0;
pub const DIR_IN: u8 = 0x80;
pub const DIR_REMOVE: u8 = 0x7f;

// USB request types, the second of three bmRequestType fields.
pub const TYPE_MASK: u8 = 0x60;
pub const TYPE_STANDARD: u8 = 0;
pub const TYPE_CLASS: u8 = 0x20;
pub const TYPE_VENDOR: u8 = 0x40;
pub const TYPE_RESERVED: u8 = 0x60;

// USB recipients, the third of three bmRequestType fields.
pub const RECIP_MASK: u8 = 0x1f;
pub const RECIP_DEVICE: u8 = 0x00;
pub const RECIP_INTERFACE: u8 = 0x01;
pub const RECIP_ENDPOINT: u8 = 0x02;
pub const RECIP_OTHER: u8 = 0x03;
pub const RECIP_PORT: u8 = 0x04;
pub const RECIP_RPIPE: u8 = 0x05;

// Standard requests, for the bRequest field of a SETUP packet.
pub const REQ_GET_STATUS: u8 = 0x00;
pub const REQ_CLEAR_FEATURE: u8 = 0x01;
pub const REQ_SET_FEATURE: u8 = 0x03;
pub const REQ_SET_ADDRESS: u8 = 0x05;
pub const REQ_GET_DESCRIPTOR: u8 = 0x06;
pub const REQ_SET_DESCRIPTOR: u8 = 0x07;
pub const REQ_GET_CONFIGURATION: u8 = 0x08;
pub const REQ_SET_CONFIGURATION: u8 = 0x09;
pub const REQ_GET_INTERFACE: u8 = 0x0A;
pub const REQ_SET_INTERFACE: u8 = 0x0B;
pub const REQ_SYNCH_FRAME: u8 = 0x0C;
pub const REQ_SET_SEL: u8 = 0x30;
pub const REQ_SET_ISOCH_DELAY: u8 = 0x31;

/// The SETUP block of a USB control request.
#[derive(Copy, Clone)]
pub struct ControlRequest {
    pub request_type: u8,
    pub request: u8,
    pub value: u16,
    pub index: u16,
    pub length: u16,
}

// Descriptor types, USB 2.0 table 9.5 and later additions.
pub const DT_DEVICE: u8 = 0x01;
pub const DT_CONFIG: u8 = 0x02;
pub const DT_STRING: u8 = 0x03;
pub const DT_INTERFACE: u8 = 0x04;
pub const DT_ENDPOINT: u8 = 0x05;
pub const DT_DEVICE_QUALIFIER: u8 = 0x06;
pub const DT_OTHER_SPEED_CONFIG: u8 = 0x07;
pub const DT_INTERFACE_POWER: u8 = 0x08;
pub const DT_OTG: u8 = 0x09;
pub const DT_DEBUG: u8 = 0x0a;
pub const DT_INTERFACE_ASSOCIATION: u8 = 0x0b;
pub const DT_SECURITY: u8 = 0x0c;
pub const DT_KEY: u8 = 0x0d;
pub const DT_ENCRYPTION_TYPE: u8 = 0x0e;
pub const DT_BOS: u8 = 0x0f;
pub const DT_DEVICE_CAPABILITY: u8 = 0x10;
pub const DT_WIRELESS_ENDPOINT_COMP: u8 = 0x11;
pub const DT_WIRE_ADAPTER: u8 = 0x21;
pub const DT_RPIPE: u8 = 0x22;
pub const DT_CS_RADIO_CONTROL: u8 = 0x23;
pub const DT_PIPE_USAGE: u8 = 0x24;
pub const DT_SS_ENDPOINT_COMP: u8 = 0x30;

/// Every standard descriptor begins with these two bytes.
#[derive(Copy, Clone)]
pub struct DescriptorHeader {
    pub length: u8,
    pub descriptor_type: u8,
}

pub const HEADER_SIZE: usize = 2;

/// Decode the 2-byte descriptor header at `off`.
pub fn parse_descriptor_header(data: &[u8], off: usize) -> (r: DescriptorHeader)
    requires
        off + HEADER_SIZE <= data@.len(),
    ensures
        r.length == data@[off as int],
        r.descriptor_type == data@[off as int + 1],
{
    let n = data.len();
    DescriptorHeader { length: data[off], descriptor_type: data[off + 1] }
}

/// Device descriptor fields.
#[derive(Copy, Clone)]
pub struct DeviceDescriptor {
    pub bcd_usb: u16,
    pub device_class: u8,
    pub device_subclass: u8,
    pub device_protocol: u8,
    pub max_packet_size0: u8,
    pub id_vendor: u16,
    pub id_product: u16,
    pub bcd_device: u16,
    pub manufacturer: u8,
    pub product: u8,
    pub serial_number: u8,
    pub num_configurations: u8,
}

pub const DEVICE_DESC_SIZE: usize = 16;

/// Decode a device descriptor's fields starting at `off` (past the
/// 2-byte header).
pub fn parse_device_descriptor(data: &[u8], off: usize) -> (r: DeviceDescriptor)
    requires
        off + DEVICE_DESC_SIZE <= data@.len(),
    ensures
        r == device_descriptor_spec(data@, off as int),
{
    let n = data.len();
    DeviceDescriptor {
        bcd_usb: read_u16_le(data, off),
        device_class: data[off + 2],
        device_subclass: data[off + 3],
        device_protocol: data[off + 4],
        max_packet_size0: data[off + 5],
        id_vendor: read_u16_le(data, off + 6),
        id_product: read_u16_le(data, off + 8),
        bcd_device: read_u16_le(data, off + 10),
        manufacturer: data[off + 12],
        product: data[off + 13],
        serial_number: data[off + 14],
        num_configurations: data[off + 15],
    }
}

/// The device descriptor encoded at `off` of `data`.
pub open spec fn device_descriptor_spec(data: Seq<u8>, off: int) -> DeviceDescriptor {
    DeviceDescriptor {
        bcd_usb: le16(data, off),
        device_class: data[off + 2],
        device_subclass: data[off + 3],
        device_protocol: data[off + 4],
        max_packet_size0: data[off + 5],
        id_vendor: le16(data, off + 6),
        id_product: le16(data, off + 8),
        bcd_device: le16(data, off + 10),
        manufacturer: data[off + 12],
        product: data[off + 13],
        serial_number: data[off + 14],
        num_configurations: data[off + 15],
    }
}

// Device and interface class codes.
pub const CLASS_PER_INTERFACE: u8 = 0;
pub const CLASS_AUDIO: u8 = 1;
pub const CLASS_COMM: u8 = 2;
pub const CLASS_HID: u8 = 3;
pub const CLASS_PHYSICAL: u8 = 5;
pub const CLASS_STILL_IMAGE: u8 = 6;
pub const CLASS_PRINTER: u8 = 7;
pub const CLASS_MASS_STORAGE: u8 = 8;
pub const CLASS_HUB: u8 = 9;
pub const CLASS_CDC_DATA: u8 = 0x0a;
pub const CLASS_CSCID: u8 = 0x0b;
pub const CLASS_CONTENT_SEC: u8 = 0x0d;
pub const CLASS_VIDEO: u8 = 0x0e;
pub const CLASS_HEALTH: u8 = 0x0f;
pub const CLASS_AUDIO_VIDEO: u8 = 0x10;
pub const CLASS_BILLBOARD: u8 = 0x11;
pub const CLASS_DIAGNOSTIC: u8 = 0xdc;
pub const CLASS_WIRELESS_CONTROLLER: u8 = 0xe0;
pub const CLASS_MISC: u8 = 0xef;
pub const CLASS_APP_SPEC: u8 = 0xfe;
pub const CLASS_VENDOR_SPEC: u8 = 0xff;

pub const SUBCLASS_VENDOR_SPEC: u8 = 0xff;

/// Device qualifier descriptor fields.
#[derive(Copy, Clone)]
pub struct DeviceQualifierDescriptor {
    pub bcd_usb: u16,
    pub device_class: u8,
    pub device_subclass: u8,
    pub device_protocol: u8,
    pub max_packet_size0: u8,
    pub num_configurations: u8,
    pub reserved: u8,
}

pub const DEVICE_QUALIFIER_SIZE: usize = 8;

/// The device qualifier encoded at `off` of `data`.
pub open spec fn device_qualifier_spec(data: Seq<u8>, off: int) -> DeviceQualifierDescriptor {
    DeviceQualifierDescriptor {
        bcd_usb: le16(data, off),
        device_class: data[off + 2],
        device_subclass: data[off + 3],
        device_protocol: data[off + 4],
        max_packet_size0: data[off + 5],
        num_configurations: data[off + 6],
        reserved: data[off + 7],
    }
}

/// Decode a device qualifier's fields starting at `off`.
pub fn parse_device_qualifier(data: &[u8], off: usize) -> (r: DeviceQualifierDescriptor)
    requires
        off + DEVICE_QUALIFIER_SIZE <= data@.len(),
    ensures
        r == device_qualifier_spec(data@, off as int),
{
    let n = data.len();
    DeviceQualifierDescriptor {
        bcd_usb: read_u16_le(data, off),
        device_class: data[off + 2],
        device_subclass: data[off + 3],
        device_protocol: data[off + 4],
        max_packet_size0: data[off + 5],
        num_configurations: data[off + 6],
        reserved: data[off + 7],
    }
}

/// Configuration descriptor fields; an other-speed configuration uses the
/// same layout.
#[derive(Copy, Clone)]
pub struct ConfigDescriptor {
    pub total_length: u16,
    pub num_interfaces: u8,
    pub configuration_value: u8,
    pub configuration: u8,
    pub attributes: u8,
    pub max_power: u8,
}

pub const CONFIG_DESC_SIZE: usize = 7;

pub type OtherSpeedDescriptor = ConfigDescriptor;

pub const OTHER_SPEED_SIZE: usize = 7;

// Configuration attribute bits.
pub const CONFIG_ATT_ONE: u8 = 0x80;
pub const CONFIG_ATT_SELFPOWER: u8 = 0x40;
pub const CONFIG_ATT_WAKEUP: u8 = 0x20;
pub const CONFIG_ATT_BATTERY: u8 = 0x10;

/// The configuration descriptor encoded at `off` of `data`.
pub open spec fn config_descriptor_spec(data: Seq<u8>, off: int) -> ConfigDescriptor {
    ConfigDescriptor {
        total_length: le16(data, off),
        num_interfaces: data[off + 2],
        configuration_value: data[off + 3],
        configuration: data[off + 4],
        attributes: data[off + 5],
        max_power: data[off + 6],
    }
}

/// Decode a configuration descriptor's fields starting at `off`.
pub fn parse_config_descriptor(data: &[u8], off: usize) -> (r: ConfigDescriptor)
    requires
        off + CONFIG_DESC_SIZE <= data@.len(),
    ensures
        r == config_descriptor_spec(data@, off as int),
{
    let n = data.len();
    ConfigDescriptor {
        total_length: read_u16_le(data, off),
        num_interfaces: data[off + 2],
        configuration_value: data[off + 3],
        configuration: data[off + 4],
        attributes: data[off + 5],
        max_power: data[off + 6],
    }
}

pub const STRING_DESC_SIZE_MIN: usize = 2;

/// Interface descriptor fields.
#[derive(Copy, Clone)]
pub struct InterfaceDescriptor {
    pub interface_number: u8,
    pub alternate_setting: u8,
    pub num_endpoints: u8,
    pub interface_class: u8,
    pub interface_subclass: u8,
    pub interface_protocol: u8,
    pub interface: u8,
}

pub const INTERFACE_DESC_SIZE: usize = 7;

/// The interface descriptor encoded at `off` of `data`.
pub open spec fn interface_descriptor_spec(data: Seq<u8>, off: int) -> InterfaceDescriptor {
    InterfaceDescriptor {
        interface_number: data[off],
        alternate_setting: data[off + 1],
        num_endpoints: data[off + 2],
        interface_class: data[off + 3],
        interface_subclass: data[off + 4],
        interface_protocol: data[off + 5],
        interface: data[off + 6],
    }
}

/// Decode an interface descriptor's fields starting at `off`.
pub fn parse_interface_descriptor(data: &[u8], off: usize) -> (r: InterfaceDescriptor)
    requires
        off + INTERFACE_DESC_SIZE <= data@.len(),
    ensures
        r == interface_descriptor_spec(data@, off as int),
{
    let n = data.len();
    InterfaceDescriptor {
        interface_number: data[off],
        alternate_setting: data[off + 1],
        num_endpoints: data[off + 2],
        interface_class: data[off + 3],
        interface_subclass: data[off + 4],
        interface_protocol: data[off + 5],
        interface: data[off + 6],
    }
}

/// Endpoint descriptor fields.
#[derive(Copy, Clone)]
pub struct EndpointDescriptor {
    pub endpoint_address: u8,
    pub attributes: u8,
    pub max_packet_size: u16,
    pub interval: u8,
}

pub const ENDPOINT_DESC_SIZE: usize = 5;

/// The endpoint descriptor encoded at `off` of `data`.
pub open spec fn endpoint_descriptor_spec(data: Seq<u8>, off: int) -> EndpointDescriptor {
    EndpointDescriptor {
        endpoint_address: data[off],
        attributes: data[off + 1],
        max_packet_size: le16(data, off + 2),
        interval: data[off + 4],
    }
}

/// Decode an endpoint descriptor's fields starting at `off`.
pub fn parse_endpoint_descriptor(data: &[u8], off: usize) -> (r: EndpointDescriptor)
    requires
        off + ENDPOINT_DESC_SIZE <= data@.len(),
    ensures
        r == endpoint_descriptor_spec(data@, off as int),
{
    let n = data.len();
    EndpointDescriptor {
        endpoint_address: data[off],
        attributes: data[off + 1],
        max_packet_size: read_u16_le(data, off + 2),
        interval: data[off + 4],
    }
}

/// Audio endpoint descriptor fields, with the two extra bytes of the
/// audio-class extension.
#[derive(Copy, Clone)]
pub struct AudioEndpointDescriptor {
    pub endpoint_address: u8,
    pub attributes: u8,
    pub max_packet_size: u16,
    pub interval: u8,
    pub refresh: u8,
    pub synch_address: u8,
}

pub const AUDIO_EP_DESC_SIZE: usize = 7;

// Endpoint address and attribute masks.
pub const ENDPOINT_NUMBER_MASK: u8 = 0x0f;
pub const ENDPOINT_DIR_MASK: u8 = 0x80;

pub const ENDPOINT_XFERTYPE_MASK: u8 = 0x03;
pub const ENDPOINT_XFER_CONTROL: u8 = 0;
pub const ENDPOINT_XFER_ISOC: u8 = 1;
pub const ENDPOINT_XFER_BULK: u8 = 2;
pub const ENDPOINT_XFER_INT: u8 = 3;
pub const ENDPOINT_MAX_ADJUSTABLE: u8 = 0x80;

pub const ENDPOINT_INTRTYPE: u8 = 0x30;
pub const ENDPOINT_INTR_PERIODIC: u8 = 0x00;
pub const ENDPOINT_INTR_NOTIFICATION: u8 = 0x10;

pub const ENDPOINT_SYNCTYPE: u8 = 0x0c;
pub const ENDPOINT_SYNC_NONE: u8 = 0x00;
pub const ENDPOINT_SYNC_ASYNC: u8 = 0x04;
pub const ENDPOINT_SYNC_ADAPTIVE: u8 = 0x08;
pub const ENDPOINT_SYNC_SYNC: u8 = 0x0c;

pub const ENDPOINT_USAGE_MASK: u8 = 0x30;
pub const ENDPOINT_USAGE_DATA: u8 = 0x00;
pub const ENDPOINT_USAGE_FEEDBACK: u8 = 0x10;
pub const ENDPOINT_USAGE_IMPLICIT_FB: u8 = 0x20;

/// SuperSpeed endpoint companion descriptor fields.
#[derive(Copy, Clone)]
pub struct SsEpCompDescriptor {
    pub max_burst: u8,
    pub attributes: u8,
    pub bytes_per_interval: u16,
}

pub const SS_EP_DESC_SIZE: usize = 4;

/// The SuperSpeed endpoint companion encoded at `off` of `data`.
pub open spec fn ss_ep_comp_spec(data: Seq<u8>, off: int) -> SsEpCompDescriptor {
    SsEpCompDescriptor {
        max_burst: data[off],
        attributes: data[off + 1],
        bytes_per_interval: le16(data, off + 2),
    }
}

/// Decode a SuperSpeed endpoint companion's fields starting at `off`.
pub fn parse_ss_ep_comp(data: &[u8], off: usize) -> (r: SsEpCompDescriptor)
    requires
        off + SS_EP_DESC_SIZE <= data@.len(),
    ensures
        r == ss_ep_comp_spec(data@, off as int),
{
    let n = data.len();
    SsEpCompDescriptor {
        max_burst: data[off],
        attributes: data[off + 1],
        bytes_per_interval: read_u16_le(data, off + 2),
    }
}

/// Pipe usage descriptor (USB attached SCSI) fields.
#[derive(Copy, Clone)]
pub struct PipeUsageDescriptor {
    pub pipe_id: u8,
    pub reserved: u8,
}

pub const PIPE_DESC_SIZE: usize = 2;

/// Decode a pipe usage descriptor's fields starting at `off`.
pub fn parse_pipe_usage(data: &[u8], off: usize) -> (r: PipeUsageDescriptor)
    requires
        off + PIPE_DESC_SIZE <= data@.len(),
    ensures
        r.pipe_id == data@[off as int],
        r.reserved == data@[off as int + 1],
{
    let n = data.len();
    PipeUsageDescriptor { pipe_id: data[off], reserved: data[off + 1] }
}

/// Device qualifier descriptor fields (alias layout).
#[derive(Copy, Clone)]
pub struct QualifierDescriptor {
    pub bcd_usb: u16,
    pub device_class: u8,
    pub device_subclass: u8,
    pub device_protocol: u8,
    pub max_packet_size0: u8,
    pub num_configurations: u8,
    pub reserved: u8,
}

/// OTG descriptor fields.
#[derive(Copy, Clone)]
pub struct OtgDescriptor {
    pub attributes: u8,
}

pub const OTG_DESC_SIZE: usize = 1;

pub const OTG_SRP: u8 = 0x01;
pub const OTG_HNP: u8 = 0x02;

/// Debug descriptor fields: the two bulk endpoints of the debug interface.
#[derive(Copy, Clone)]
pub struct DebugDescriptor {
    pub debug_in_endpoint: u8,
    pub debug_out_endpoint: u8,
}

pub const DEBUG_DESC_SIZE: usize = 2;

/// Interface association descriptor fields.
#[derive(Copy, Clone)]
pub struct InterfaceAssocDescriptor {
    pub first_interface: u8,
    pub interface_count: u8,
    pub function_class: u8,
    pub function_subclass: u8,
    pub function_protocol: u8,
    pub function: u8,
}

pub const INTERFACE_ASSOC_DESC_SIZE: usize = 6;

/// Decode an interface association descriptor's fields starting at `off`.
pub fn parse_interface_assoc(data: &[u8], off: usize) -> (r: InterfaceAssocDescriptor)
    requires
        off + INTERFACE_ASSOC_DESC_SIZE <= data@.len(),
    ensures
        r.first_interface == data@[off as int],
        r.interface_count == data@[off as int + 1],
        r.function_class == data@[off as int + 2],
        r.function_subclass == data@[off as int + 3],
        r.function_protocol == data@[off as int + 4],
        r.function == data@[off as int + 5],
{
    let n = data.len();
    InterfaceAssocDescriptor {
        first_interface: data[off],
        interface_count: data[off + 1],
        function_class: data[off + 2],
        function_subclass: data[off + 3],
        function_protocol: data[off + 4],
        function: data[off + 5],
    }
}

/// BOS descriptor fields.
#[derive(Copy, Clone)]
pub struct BosDescriptor {
    pub total_length: u16,
    pub num_device_caps: u8,
}

pub const BOS_DESC_SIZE: usize = 3;

/// Decode a BOS descriptor's fields starting at `off`.
pub fn parse_bos_descriptor(data: &[u8], off: usize) -> (r: BosDescriptor)
    requires
        off + BOS_DESC_SIZE <= data@.len(),
    ensures
        r.total_length == le16(data@, off as int),
        r.num_device_caps == data@[off as int + 2],
{
    let n = data.len();
    BosDescriptor { total_length: read_u16_le(data, off), num_device_caps: data[off + 2] }
}

/// Device capability header: the capability type byte.
#[derive(Copy, Clone)]
pub struct DevCapHeader {
    pub dev_capability_type: u8,
}

pub const DEV_CAP_HEADER_SIZE: usize = 1;

pub const CAP_TYPE_WIRELESS: u8 = 0x01;

/// Ultra-wide-band wireless capability fields.
#[derive(Copy, Clone)]
pub struct WirelessCapDescriptor {
    pub attributes: u8,
    pub phy_rates: u16,
    pub tfi_tx_power_info: u8,
    pub ffi_tx_power_info: u8,
    pub band_group: u16,
    pub reserved: u8,
}

pub const CAP_TYPE_WIRELESS_SIZE: usize = 8;

pub const WIRELESS_P2P_DRD: u8 = 0x02;
pub const WIRELESS_BEACON_MASK: u8 = 0x0c;
pub const WIRELESS_BEACON_SELF: u8 = 0x04;
pub const WIRELESS_BEACON_DIRECTED: u8 = 0x08;
pub const WIRELESS_BEACON_NONE: u8 = 0x0c;

pub const CAP_TYPE_EXT: u8 = 2;

/// USB 2.0 extension (link power management) capability fields.
#[derive(Copy, Clone)]
pub struct ExtCapDescriptor {
    pub attributes: u32,
}

pub const CAP_TYPE_EXT_SIZE: usize = 4;

pub const LPM_SUPPORT: u32 = 0x02;
pub const BESL_SUPPORT: u32 = 0x04;
pub const BESL_BASELINE_VALID: u32 = 0x08;
pub const BESL_DEEP_VALID: u32 = 0x10;
pub const BESL_BASELINE_MASK: u32 = 0xf00;
pub const BESL_DEEP: u32 = 0xf000;

/// Decode a USB 2.0 extension capability starting at `off`.
pub fn parse_ext_cap(data: &[u8], off: usize) -> (r: ExtCapDescriptor)
    requires
        off + CAP_TYPE_EXT_SIZE <= data@.len(),
    ensures
        r.attributes == le32(data@, off as int),
{
    let n = data.len();
    ExtCapDescriptor { attributes: read_u32_le(data, off) }
}

pub const CAP_TYPE_SS: u8 = 3;

/// SuperSpeed device capability fields.
#[derive(Copy, Clone)]
pub struct SsCapDescriptor {
    pub attributes: u8,
    pub speed_supported: u16,
    pub functionality_support: u8,
    pub u1_dev_exit_lat: u8,
    pub u2_dev_exit_lat: u16,
}

pub const CAP_TYPE_SS_SIZE: usize = 7;

/// The SuperSpeed capability encoded at `off` of `data`.
pub open spec fn ss_cap_spec(data: Seq<u8>, off: int) -> SsCapDescriptor {
    SsCapDescriptor {
        attributes: data[off],
        speed_supported: le16(data, off + 1),
        functionality_support: data[off + 3],
        u1_dev_exit_lat: data[off + 4],
        u2_dev_exit_lat: le16(data, off + 5),
    }
}

/// Decode a SuperSpeed capability's fields starting at `off`.
pub fn parse_ss_cap(data: &[u8], off: usize) -> (r: SsCapDescriptor)
    requires
        off + CAP_TYPE_SS_SIZE <= data@.len(),
    ensures
        r == ss_cap_spec(data@, off as int),
{
    let n = data.len();
    SsCapDescriptor {
        attributes: data[off],
        speed_supported: read_u16_le(data, off + 1),
        functionality_support: data[off + 3],
        u1_dev_exit_lat: data[off + 4],
        u2_dev_exit_lat: read_u16_le(data, off + 5),
    }
}

pub const LTM_SUPPORT: u8 = 0x02;
pub const LOW_SPEED_OPERATION: u8 = 1;
pub const FULL_SPEED_OPERATION: u8 = 0x02;
pub const HIGH_SPEED_OPERATION: u8 = 0x04;
pub const SUPER_SPEED_OPERATION: u8 = 0x08;

pub const CAP_TYPE_CONTAINER_ID: u8 = 4;

/// Container-id capability fields: a reserved byte and a 128-bit id.
#[derive(Copy, Clone)]
pub struct ContainerIdDescriptor {
    pub reserved: u8,
    pub container_id: [u8; 16],
}

pub const CAP_TYPE_CONTAINER_SIZE: usize = 129;

/// Wireless endpoint companion fields.
#[derive(Copy, Clone)]
pub struct WirelessEpCompDescriptor {
    pub max_burst: u8,
    pub max_sequence: u8,
    pub max_stream_delay: u16,
    pub over_the_air_packet_size: u16,
    pub over_the_air_interval: u8,
    pub comp_attributes: u8,
}

pub const ENDPOINT_SWITCH_MASK: u8 = 0x03;
pub const ENDPOINT_SWITCH_NO: u8 = 0;
pub const ENDPOINT_SWITCH_SWITCH: u8 = 1;
pub const ENDPOINT_SWITCH_SCALE: u8 = 2;

/// Interface power descriptor fields.
#[derive(Copy, Clone)]
pub struct InterfacePowerDescriptor {
    pub capabilities_flags: u8,
}

pub const INTERFACE_POWER_DESC_SIZE: usize = 1;

/// The language ids a string-descriptor language table may carry: the
/// closed allow-list of assigned USB language ids.
pub open spec fn valid_lang_id_spec(id: u16) -> bool {
        ||| id == 0x436 || id == 0x041c || id == 0x0401 || id == 0x0801 || id == 0x0c01 || id == 0x1001
        ||| id == 0x1401 || id == 0x1801 || id == 0x1c01 || id == 0x2001 || id == 0x2401 || id == 0x2801
        ||| id == 0x2c01 || id == 0x3001 || id == 0x3401 || id == 0x3801 || id == 0x3c01 || id == 0x4001
        ||| id == 0x042b || id == 0x044d || id == 0x042c || id == 0x082c || id == 0x042d || id == 0x0423
        ||| id == 0x0445 || id == 0x0402 || id == 0x0455 || id == 0x0403 || id == 0x0404 || id == 0x0804
        ||| id == 0x0c04 || id == 0x1004 || id == 0x1404 || id == 0x041a || id == 0x0405 || id == 0x0406
        ||| id == 0x0413 || id == 0x0813 || id == 0x0409 || id == 0x0809 || id == 0x0c09 || id == 0x1009
        ||| id == 0x1409 || id == 0x1809 || id == 0x1c09 || id == 0x2009 || id == 0x2409 || id == 0x2809
        ||| id == 0x2c09 || id == 0x3009 || id == 0x3409 || id == 0x0425 || id == 0x0438 || id == 0x0429
        ||| id == 0x040b || id == 0x040c || id == 0x80c || id == 0x0c0c || id == 0x100c || id == 0x140c
        ||| id == 0x180c || id == 0x0437 || id == 0x0407 || id == 0x0807 || id == 0x0c07 || id == 0x1007
        ||| id == 0x1407 || id == 0x0408 || id == 0x0447 || id == 0x040d || id == 0x0439 || id == 0x040e
        ||| id == 0x040f || id == 0x0421 || id == 0x0410 || id == 0x0810 || id == 0x0411 || id == 0x044b
        ||| id == 0x0860 || id == 0x043f || id == 0x0457 || id == 0x0412 || id == 0x0812 || id == 0x0426
        ||| id == 0x0427 || id == 0x0827 || id == 0x042f || id == 0x043e || id == 0x83e || id == 0x044c
        ||| id == 0x0458 || id == 0x044e || id == 0x0861 || id == 0x0414 || id == 0x0814 || id == 0x0448
        ||| id == 0x0415 || id == 0x0416 || id == 0x0816 || id == 0x0446 || id == 0x0418 || id == 0x0419
        ||| id == 0x044f || id == 0x0c1a || id == 0x081a || id == 0x0459 || id == 0x041b || id == 0x0424
        ||| id == 0x040a || id == 0x080a || id == 0x0c0a || id == 0x100a || id == 0x140a || id == 0x180a
        ||| id == 0x1c0a || id == 0x200a || id == 0x240a || id == 0x280a || id == 0x2c0a || id == 0x300a
        ||| id == 0x340a || id == 0x380a || id == 0x3c0a || id == 0x400a || id == 0x440a || id == 0x480a
        ||| id == 0x4c0a || id == 0x500a || id == 0x0430 || id == 0x0441 || id == 0x041d || id == 0x081d
        ||| id == 0x0449 || id == 0x0444 || id == 0x044a || id == 0x041e || id == 0x041f || id == 0x0422
        ||| id == 0x0420 || id == 0x0820 || id == 0x0443 || id == 0x0843 || id == 0x042a || id == 0x04ff
        ||| id == 0xf0ff || id == 0xf4ff || id == 0xf8ff || id == 0xfcff
}

/// Whether `id` is an assigned USB language id.
pub fn valid_lang_id(id: u16) -> (r: bool)
    ensures
        r == valid_lang_id_spec(id),
{
    match id {
        0x436 | 0x041c | 0x0401 | 0x0801 | 0x0c01 | 0x1001 | 0x1401 | 0x1801 |
        0x1c01 | 0x2001 | 0x2401 | 0x2801 | 0x2c01 | 0x3001 | 0x3401 | 0x3801 |
        0x3c01 | 0x4001 | 0x042b | 0x044d | 0x042c | 0x082c | 0x042d | 0x0423 |
        0x0445 | 0x0402 | 0x0455 | 0x0403 | 0x0404 | 0x0804 | 0x0c04 | 0x1004 |
        0x1404 | 0x041a | 0x0405 | 0x0406 | 0x0413 | 0x0813 | 0x0409 | 0x0809 |
        0x0c09 | 0x1009 | 0x1409 | 0x1809 | 0x1c09 | 0x2009 | 0x2409 | 0x2809 |
        0x2c09 | 0x3009 | 0x3409 | 0x0425 | 0x0438 | 0x0429 | 0x040b | 0x040c |
        0x80c | 0x0c0c | 0x100c | 0x140c | 0x180c | 0x0437 | 0x0407 | 0x0807 |
        0x0c07 | 0x1007 | 0x1407 | 0x0408 | 0x0447 | 0x040d | 0x0439 | 0x040e |
        0x040f | 0x0421 | 0x0410 | 0x0810 | 0x0411 | 0x044b | 0x0860 | 0x043f |
        0x0457 | 0x0412 | 0x0812 | 0x0426 | 0x0427 | 0x0827 | 0x042f | 0x043e |
        0x83e | 0x044c | 0x0458 | 0x044e | 0x0861 | 0x0414 | 0x0814 | 0x0448 |
        0x0415 | 0x0416 | 0x0816 | 0x0446 | 0x0418 | 0x0419 | 0x044f | 0x0c1a |
        0x081a | 0x0459 | 0x041b | 0x0424 | 0x040a | 0x080a | 0x0c0a | 0x100a |
        0x140a | 0x180a | 0x1c0a | 0x200a | 0x240a | 0x280a | 0x2c0a | 0x300a |
        0x340a | 0x380a | 0x3c0a | 0x400a | 0x440a | 0x480a | 0x4c0a | 0x500a |
        0x0430 | 0x0441 | 0x041d | 0x081d | 0x0449 | 0x0444 | 0x044a | 0x041e |
        0x041f | 0x0422 | 0x0420 | 0x0820 | 0x0443 | 0x0843 | 0x042a | 0x04ff |
        0xf0ff | 0xf4ff | 0xf8ff | 0xfcff => true,
        _ => false,
    }
}

} // verus!
