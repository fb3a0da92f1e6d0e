//! The control-request and descriptor validator: a deep, class-aware
//! checker for USB descriptors and standard control requests. It maintains
//! a virtual model of the redirected device built from the descriptors the
//! device volunteers and cross-checks every later request against it.

pub mod bbb;
pub mod hid;
pub mod printer;
pub mod third_party;

use vstd::prelude::*;
use crate::bytes::{le16, le32, read_u16_le};
use crate::kvmap::KvMap;
use crate::usb;
use crate::parser::{Request, Source};
use crate::usbr::ControlPacketHeader;

verus! {

/// Ports returned by the validator stage: the request is valid and flows
/// on, or it matched a rule and routes to the reset terminal.
pub const NO_MATCH: u8 = 0;

pub const MATCH_PORT: u8 = 1;

/// Whether `bcd` is valid packed binary-coded decimal: every nibble below
/// ten.
pub open spec fn check_bcd_spec(bcd: u16) -> bool {
    (((((bcd as u32) + 0x06666666) as u32) ^ (bcd as u32)) & 0x11111110) == 0
}

/// Whether `bcd` is valid packed binary-coded decimal.
pub fn check_bcd(bcd: u16) -> (r: bool)
    ensures
        r == check_bcd_spec(bcd),
{
    let bcd32: u32 = bcd as u32;
    (((bcd32 + 0x06666666) ^ bcd32) & 0x11111110) == 0
}

pub open spec fn usb_v1_spec(bcd: u16) -> bool {
    usb::V1 <= bcd < usb::V2
}

pub open spec fn usb_v2_spec(bcd: u16) -> bool {
    usb::V2 <= bcd < usb::V3
}

pub open spec fn usb_v3_spec(bcd: u16) -> bool {
    usb::V3 <= bcd < 0x0400
}

/// What a GET_STATUS reply must look like: exactly two bytes, with only
/// the bits defined for the recipient in use.
pub open spec fn get_status_ok(h: ControlPacketHeader, data: Seq<u8>) -> bool {
    &&& data.len() == 2
    &&& (h.requesttype & usb::RECIP_MASK) == usb::RECIP_DEVICE ==> (le16(data, 0) & 0xffe0) == 0
    &&& (h.requesttype & usb::RECIP_MASK) == usb::RECIP_INTERFACE ==> (le16(data, 0) & 0xfffc)
        == 0
    &&& (h.requesttype & usb::RECIP_MASK) == usb::RECIP_ENDPOINT ==> (le16(data, 0) & 0xfffe) == 0
}

/// Check a GET_STATUS reply; see [`get_status_ok`].
pub fn check_get_status(h: &ControlPacketHeader, data: &[u8]) -> (r: bool)
    ensures
        r == get_status_ok(*h, data@),
{
    if data.len() != 2 {
        return false;
    }
    let status = read_u16_le(data, 0);
    if (h.requesttype & usb::RECIP_MASK) == usb::RECIP_DEVICE && (status & 0xffe0) != 0 {
        return false;
    }
    if (h.requesttype & usb::RECIP_MASK) == usb::RECIP_INTERFACE && (status & 0xfffc) != 0 {
        return false;
    }
    if (h.requesttype & usb::RECIP_MASK) == usb::RECIP_ENDPOINT && (status & 0xfffe) != 0 {
        return false;
    }
    true
}

/// The fixed table of consistent device class, subclass and protocol
/// triples.
pub open spec fn device_csp_ok(class: u8, sc: u8, prot: u8) -> bool {
    let sflag = if class == usb::CLASS_PER_INTERFACE || class == usb::CLASS_BILLBOARD {
        sc == 0x00
    } else if class == usb::CLASS_COMM {
        sc > 0x00 && sc < 0x0e
    } else if class == usb::CLASS_HUB {
        sc == 0x00
    } else if class == usb::CLASS_DIAGNOSTIC {
        sc == 0x01
    } else if class == usb::CLASS_MISC {
        sc == 0x01 || sc == 0x02
    } else if class == usb::CLASS_VENDOR_SPEC {
        true
    } else {
        false
    };
    let pflag = if class == usb::CLASS_PER_INTERFACE || class == usb::CLASS_BILLBOARD {
        prot == 0x00
    } else if class == usb::CLASS_COMM {
        prot == 0x00
    } else if class == usb::CLASS_HUB {
        prot >= 0x01 && prot <= 0x03
    } else if class == usb::CLASS_DIAGNOSTIC {
        prot == 0x01
    } else if class == usb::CLASS_MISC {
        prot == 0x01 || prot == 0x02
    } else if class == usb::CLASS_VENDOR_SPEC {
        true
    } else {
        false
    };
    sflag && (pflag || prot == 0xff)
}

/// Check a device's class, subclass and protocol against the fixed table.
pub fn check_device_csp(class: u8, sc: u8, prot: u8) -> (r: bool)
    ensures
        r == device_csp_ok(class, sc, prot),
{
    let sflag: bool;
    let mut pflag: bool;
    if class == usb::CLASS_PER_INTERFACE || class == usb::CLASS_BILLBOARD {
        sflag = sc == 0x00;
        pflag = prot == 0x00;
    } else if class == usb::CLASS_COMM {
        sflag = sc > 0x00 && sc < 0x0e;
        pflag = prot == 0x00;
    } else if class == usb::CLASS_HUB {
        sflag = sc == 0x00;
        pflag = prot >= 0x01 && prot <= 0x03;
    } else if class == usb::CLASS_DIAGNOSTIC {
        sflag = sc == 0x01;
        pflag = prot == 0x01;
    } else if class == usb::CLASS_MISC {
        sflag = sc == 0x01 || sc == 0x02;
        pflag = prot == 0x01 || prot == 0x02;
    } else if class == usb::CLASS_VENDOR_SPEC {
        sflag = true;
        pflag = true;
    } else {
        sflag = false;
        pflag = false;
    }
    pflag = pflag || prot == 0xff;
    sflag && pflag
}

/// The large class-driven table of consistent interface class, subclass
/// and protocol triples, cross-checked against the parent device's class.
pub open spec fn interface_csp_ok(iface: usb::InterfaceDescriptor, dev: usb::DeviceDescriptor) -> bool {
    let d_class = dev.device_class;
    let d_sc = dev.device_subclass;
    let d_proto = dev.device_protocol;
    let i_class = iface.interface_class;
    let i_sc = iface.interface_subclass;
    let i_proto = iface.interface_protocol;
    let dflag_default = d_class == usb::CLASS_PER_INTERFACE || (d_class == usb::CLASS_MISC && d_sc
        == 0x02 && d_proto == 0x01);
    let dflag = if i_class == usb::CLASS_HUB {
        d_class == usb::CLASS_HUB
    } else if i_class == usb::CLASS_COMM || i_class == usb::CLASS_CDC_DATA {
        d_class == usb::CLASS_COMM
    } else {
        dflag_default
    };
    let sflag = if i_class == usb::CLASS_HUB {
        i_sc == 0
    } else if i_class == usb::CLASS_AUDIO {
        i_sc <= 0x03
    } else if i_class == usb::CLASS_COMM {
        (i_sc >= 0x01 && i_sc <= 0x0d) || (i_sc >= 0x80 && i_sc <= 0xfe)
    } else if i_class == usb::CLASS_HID {
        i_sc <= 0x01
    } else if i_class == usb::CLASS_HEALTH || i_class == usb::CLASS_PHYSICAL || i_class
        == usb::CLASS_CONTENT_SEC {
        i_sc == 0x00
    } else if i_class == usb::CLASS_STILL_IMAGE || i_class == usb::CLASS_DIAGNOSTIC {
        i_sc == 0x01
    } else if i_class == usb::CLASS_PRINTER {
        i_sc == 0x01
    } else if i_class == usb::CLASS_MASS_STORAGE {
        i_sc <= 0x02 || i_sc == 0x04 || i_sc == 0xff || (i_sc >= 0x06 && i_sc <= 0x08)
    } else if i_class == usb::CLASS_CDC_DATA {
        i_sc == 0x00
    } else if i_class == usb::CLASS_CSCID {
        i_sc == 0x00
    } else if i_class == usb::CLASS_VIDEO {
        i_sc <= 0x03
    } else if i_class == usb::CLASS_AUDIO_VIDEO {
        i_sc <= 0x03
    } else if i_class == usb::CLASS_WIRELESS_CONTROLLER {
        i_sc == 0x01 || i_sc == 0x02
    } else if i_class == usb::CLASS_MISC {
        i_sc == 0x01 || i_sc == 0x03 || i_sc == 0x04 || i_sc == 0x05
    } else if i_class == usb::CLASS_APP_SPEC {
        i_sc == 0x01 || i_sc == 0x02 || i_sc == 0x03
    } else if i_class == usb::CLASS_VENDOR_SPEC {
        true
    } else {
        false
    };
    let pflag = if i_class == usb::CLASS_HUB {
        i_proto == 0
    } else if i_class == usb::CLASS_AUDIO {
        i_proto == 0x00 || i_proto == 0x20
    } else if i_class == usb::CLASS_COMM {
        i_proto <= 0x07 || i_proto == 0xfe
    } else if i_class == usb::CLASS_HID {
        i_proto <= 0x02
    } else if i_class == usb::CLASS_HEALTH || i_class == usb::CLASS_PHYSICAL || i_class
        == usb::CLASS_CONTENT_SEC {
        i_proto == 0x00
    } else if i_class == usb::CLASS_STILL_IMAGE || i_class == usb::CLASS_DIAGNOSTIC {
        i_proto == 0x01
    } else if i_class == usb::CLASS_PRINTER {
        i_proto <= 0x03
    } else if i_class == usb::CLASS_MASS_STORAGE {
        i_proto <= 0x01 || i_proto == 0x50 || i_proto == 0x62
    } else if i_class == usb::CLASS_CDC_DATA {
        i_proto <= 0x01 || (i_proto >= 0x30 && i_proto <= 0x32) || (i_proto >= 0x50 && i_proto
            <= 0x52) || (i_proto >= 0x90 && i_proto <= 0x93) || (i_proto >= 0xfd && i_proto
            <= 0xfe)
    } else if i_class == usb::CLASS_CSCID {
        i_proto == 0x02
    } else if i_class == usb::CLASS_VIDEO {
        i_proto <= 0x01
    } else if i_class == usb::CLASS_AUDIO_VIDEO {
        i_proto == 0x00 || i_proto == 0x10
    } else if i_class == usb::CLASS_WIRELESS_CONTROLLER {
        (i_proto >= 0x01 && i_proto <= 0x03) || (i_sc == 0x01 && i_proto == 0x04)
    } else if i_class == usb::CLASS_MISC {
        if i_sc == 0x01 || i_sc == 0x05 {
            i_proto == 0x01 || i_proto == 0x02
        } else if i_sc == 0x03 {
            i_proto == 0x01
        } else if i_sc == 0x04 {
            i_proto >= 0x01 && i_proto <= 0x07
        } else {
            false
        }
    } else if i_class == usb::CLASS_APP_SPEC {
        if i_sc == 0x01 {
            i_proto == 0x01
        } else if i_sc == 0x02 {
            i_proto == 0x00
        } else if i_sc == 0x03 {
            i_proto == 0x00 || i_proto == 0x01
        } else {
            false
        }
    } else if i_class == usb::CLASS_VENDOR_SPEC {
        true
    } else {
        false
    };
    dflag && sflag && (pflag || i_proto == 0xff)
}

/// Check an interface's class, subclass and protocol against the table
/// driven by the parent device's class.
pub fn check_interface_csp(iface: &usb::InterfaceDescriptor, dev: &usb::DeviceDescriptor) -> (r:
    bool)
    ensures
        r == interface_csp_ok(*iface, *dev),
{
    let d_class = dev.device_class;
    let d_sc = dev.device_subclass;
    let d_proto = dev.device_protocol;
    let i_class = iface.interface_class;
    let i_sc = iface.interface_subclass;
    let i_proto = iface.interface_protocol;

    let mut sflag: bool = false;
    let mut pflag: bool = false;
    let mut dflag: bool = d_class == usb::CLASS_PER_INTERFACE || (d_class == usb::CLASS_MISC && d_sc
        == 0x02 && d_proto == 0x01);

    if i_class == usb::CLASS_HUB {
        dflag = d_class == usb::CLASS_HUB;
        sflag = i_sc == 0;
        pflag = i_proto == 0;
    } else if i_class == usb::CLASS_AUDIO {
        sflag = i_sc <= 0x03;
        pflag = i_proto == 0x00 || i_proto == 0x20;
    } else if i_class == usb::CLASS_COMM {
        dflag = d_class == usb::CLASS_COMM;
        sflag = (i_sc >= 0x01 && i_sc <= 0x0d) || (i_sc >= 0x80 && i_sc <= 0xfe);
        pflag = i_proto <= 0x07 || i_proto == 0xfe;
    } else if i_class == usb::CLASS_HID {
        sflag = i_sc <= 0x01;
        pflag = i_proto <= 0x02;
    } else if i_class == usb::CLASS_HEALTH || i_class == usb::CLASS_PHYSICAL || i_class
        == usb::CLASS_CONTENT_SEC {
        sflag = i_sc == 0x00;
        pflag = i_proto == 0x00;
    } else if i_class == usb::CLASS_STILL_IMAGE || i_class == usb::CLASS_DIAGNOSTIC {
        sflag = i_sc == 0x01;
        pflag = i_proto == 0x01;
    } else if i_class == usb::CLASS_PRINTER {
        sflag = i_sc == 0x01;
        pflag = i_proto <= 0x03;
    } else if i_class == usb::CLASS_MASS_STORAGE {
        sflag = i_sc <= 0x02 || i_sc == 0x04 || i_sc == 0xff || (i_sc >= 0x06 && i_sc <= 0x08);
        pflag = i_proto <= 0x01 || i_proto == 0x50 || i_proto == 0x62;
    } else if i_class == usb::CLASS_CDC_DATA {
        dflag = d_class == usb::CLASS_COMM;
        sflag = i_sc == 0x00;
        pflag = i_proto <= 0x01 || (i_proto >= 0x30 && i_proto <= 0x32) || (i_proto >= 0x50
            && i_proto <= 0x52) || (i_proto >= 0x90 && i_proto <= 0x93) || (i_proto >= 0xfd
            && i_proto <= 0xfe);
    } else if i_class == usb::CLASS_CSCID {
        sflag = i_sc == 0x00;
        pflag = i_proto == 0x02;
    } else if i_class == usb::CLASS_VIDEO {
        sflag = i_sc <= 0x03;
        pflag = i_proto <= 0x01;
    } else if i_class == usb::CLASS_AUDIO_VIDEO {
        sflag = i_sc <= 0x03;
        pflag = i_proto == 0x00 || i_proto == 0x10;
    } else if i_class == usb::CLASS_WIRELESS_CONTROLLER {
        sflag = i_sc == 0x01 || i_sc == 0x02;
        pflag = (i_proto >= 0x01 && i_proto <= 0x03) || (i_sc == 0x01 && i_proto == 0x04);
    } else if i_class == usb::CLASS_MISC {
        if i_sc == 0x01 || i_sc == 0x05 {
            sflag = true;
            pflag = i_proto == 0x01 || i_proto == 0x02;
        } else if i_sc == 0x03 {
            sflag = true;
            pflag = i_proto == 0x01;
        } else if i_sc == 0x04 {
            sflag = true;
            pflag = i_proto >= 0x01 && i_proto <= 0x07;
        }
    } else if i_class == usb::CLASS_APP_SPEC {
        if i_sc == 0x01 {
            sflag = true;
            pflag = i_proto == 0x01;
        } else if i_sc == 0x02 {
            sflag = true;
            pflag = i_proto == 0x00;
        } else if i_sc == 0x03 {
            sflag = true;
            pflag = i_proto == 0x00 || i_proto == 0x01;
        }
    } else if i_class == usb::CLASS_VENDOR_SPEC {
        sflag = true;
        pflag = true;
    }

    pflag = pflag || i_proto == 0xff;
    dflag && sflag && pflag
}

/// What any received prefix of a device descriptor must satisfy: each
/// field that the prefix reaches is checked, because the host stack probes
/// with 2-, 8- and 18-byte reads.
pub open spec fn device_fields_ok(data: Seq<u8>) -> bool {
    &&& data.len() <= usb::DEVICE_DESC_SIZE
    &&& data.len() >= 2 ==> check_bcd_spec(le16(data, 0))
    &&& data.len() >= 5 ==> device_csp_ok(data[2], data[3], data[4])
    &&& data.len() >= 6 ==> (data[5] == 8 || data[5] == 16 || data[5] == 32 || data[5] == 64 || (
    data[5] == 9 && le16(data, 0) == 0x0300))
    &&& data.len() >= 12 ==> check_bcd_spec(le16(data, 10))
    &&& data.len() == usb::DEVICE_DESC_SIZE ==> data[15] != 0
}

/// Check the fields of a device descriptor prefix; see
/// [`device_fields_ok`].
pub fn check_device_fields(data: &[u8]) -> (r: bool)
    ensures
        r == device_fields_ok(data@),
{
    let n = data.len();
    let mut bcd_usb: u16 = 0;

    if n > usb::DEVICE_DESC_SIZE {
        return false;
    }
    if n >= 2 {
        bcd_usb = read_u16_le(data, 0);
        if !check_bcd(bcd_usb) {
            return false;
        }
    }
    if n >= 5 {
        if !check_device_csp(data[2], data[3], data[4]) {
            return false;
        }
    }
    if n >= 6 {
        let max_size = data[5];
        if !(max_size == 8 || max_size == 16 || max_size == 32 || max_size == 64 || (max_size == 9
            && bcd_usb == 0x0300)) {
            return false;
        }
    }
    if n >= 12 {
        let bcd_device = read_u16_le(data, 10);
        if !check_bcd(bcd_device) {
            return false;
        }
    }
    if n == usb::DEVICE_DESC_SIZE {
        if data[usb::DEVICE_DESC_SIZE - 1] == 0 {
            return false;
        }
    }
    true
}

/// The language-id table of string descriptor zero: every 16-bit entry is
/// an assigned language id.
pub open spec fn lang_table_ok(d: Seq<u8>) -> bool
    decreases d.len(),
{
    if d.len() < 2 {
        true
    } else {
        usb::valid_lang_id_spec(le16(d, 0)) && lang_table_ok(d.skip(2))
    }
}

/// A valid UTF-16LE code-unit sequence: normal units freely, surrogates
/// only as a high-low pair.
pub open spec fn utf16_ok(d: Seq<u8>) -> bool
    decreases d.len(),
{
    if d.len() < 2 {
        true
    } else {
        let c = le16(d, 0);
        if c <= 0xd7ff || c >= 0xe000 {
            utf16_ok(d.skip(2))
        } else if d.len() < 4 {
            false
        } else if 0xd800 <= c <= 0xdbff {
            let c2 = le16(d, 2);
            if 0xdc00 <= c2 <= 0xdfff {
                utf16_ok(d.skip(4))
            } else {
                false
            }
        } else {
            false
        }
    }
}

/// What a string descriptor payload (after its 2-byte header) must look
/// like: an even number of bytes; for index zero a table of assigned
/// language ids, for any other index valid UTF-16LE.
pub open spec fn string_fields_ok(data: Seq<u8>, index: u8) -> bool {
    &&& data.len() % 2 == 0
    &&& data.len() >= 2
    &&& index == 0 ==> lang_table_ok(data)
    &&& index != 0 ==> utf16_ok(data)
}

/// Check the payload of a string descriptor; see [`string_fields_ok`].
#[verifier::loop_isolation(false)]
pub fn check_string_fields(data: &[u8], index: u8) -> (r: bool)
    ensures
        r == string_fields_ok(data@, index),
{
    let n = data.len();
    if n % 2 == 1 || n < 2 {
        return false;
    }
    if index == 0 {
        let mut i: usize = 0;
        proof {
            assert(data@.skip(0) =~= data@);
        }
        while i < n - 1
            invariant
                n >= 2,
                n == data@.len(),
                n % 2 == 0,
                i % 2 == 0,
                i <= n,
                lang_table_ok(data@) == lang_table_ok(data@.skip(i as int)),
            decreases n - i,
        {
            let lang_id = read_u16_le(data, i);
            if !usb::valid_lang_id(lang_id) {
                return false;
            }
            proof {
                assert(data@.skip(i as int).skip(2) =~= data@.skip(i as int + 2));
            }
            i = i + 2;
        }
        return true;
    }
    let mut i: usize = 0;
    proof {
        assert(data@.skip(0) =~= data@);
    }
    while i < n - 1
        invariant
            n >= 2,
            n == data@.len(),
            n % 2 == 0,
            i % 2 == 0,
            i <= n,
            utf16_ok(data@) == utf16_ok(data@.skip(i as int)),
        decreases n - i,
    {
        let codepoint = read_u16_le(data, i);
        if codepoint <= 0xd7ff || codepoint >= 0xe000 {
            proof {
                assert(data@.skip(i as int).skip(2) =~= data@.skip(i as int + 2));
            }
            i = i + 2;
            continue;
        }
        if i + 2 == n {
            return false;
        }
        if codepoint >= 0xd800 && codepoint <= 0xdbff {
            let low = read_u16_le(data, i + 2);
            if low >= 0xdc00 && low <= 0xdfff {
                proof {
                    assert(data@.skip(i as int).skip(4) =~= data@.skip(i as int + 4));
                }
                i = i + 4;
                continue;
            }
        }
        return false;
    }
    true
}

/// What a configuration descriptor's own fields must satisfy: a total
/// length that can hold at least one interface, at least one interface
/// (two for communications devices), attribute bit 7 set and bits 0-4
/// clear, and a power draw of at most 250 units.
pub open spec fn config_fields_ok(config: usb::ConfigDescriptor, dev: usb::DeviceDescriptor) -> bool {
    &&& config.total_length >= usb::CONFIG_DESC_SIZE + usb::INTERFACE_DESC_SIZE + 2
        * usb::HEADER_SIZE
    &&& config.num_interfaces >= 1
    &&& dev.device_class == usb::CLASS_COMM ==> config.num_interfaces >= 2
    &&& (config.attributes & 0x9f) == 0x80
    &&& config.max_power <= 250
}

/// Check a configuration descriptor's fields; see [`config_fields_ok`].
pub fn check_config_fields(config: &usb::ConfigDescriptor, dev: &usb::DeviceDescriptor) -> (r:
    bool)
    ensures
        r == config_fields_ok(*config, *dev),
{
    if (config.total_length as usize) < usb::CONFIG_DESC_SIZE + usb::INTERFACE_DESC_SIZE + 2
        * usb::HEADER_SIZE {
        return false;
    }
    if config.num_interfaces < 1 {
        return false;
    }
    if dev.device_class == usb::CLASS_COMM && config.num_interfaces < 2 {
        return false;
    }
    if (config.attributes & 0x9f) != 0x80 {
        return false;
    }
    if config.max_power > 250 {
        return false;
    }
    true
}

/// What an other-speed configuration's fields must satisfy.
pub open spec fn other_speed_fields_ok(desc: usb::OtherSpeedDescriptor) -> bool {
    &&& (desc.attributes & 0x9f) == 0x80
    &&& desc.max_power <= 250
}

/// Check an other-speed configuration's fields.
pub fn check_other_speed_fields(desc: &usb::OtherSpeedDescriptor) -> (r: bool)
    ensures
        r == other_speed_fields_ok(*desc),
{
    (desc.attributes & 0x9f) == 0x80 && desc.max_power <= 250
}

/// What an interface descriptor must satisfy: at most 30 endpoints and a
/// consistent class triple.
pub open spec fn interface_fields_ok(iface: usb::InterfaceDescriptor, dev: usb::DeviceDescriptor) -> bool {
    &&& iface.num_endpoints <= 30
    &&& interface_csp_ok(iface, dev)
}

/// Check an interface descriptor's fields; see [`interface_fields_ok`].
pub fn check_interface_fields(iface: &usb::InterfaceDescriptor, dev: &usb::DeviceDescriptor) -> (r:
    bool)
    ensures
        r == interface_fields_ok(*iface, *dev),
{
    if iface.num_endpoints > 30 {
        return false;
    }
    check_interface_csp(iface, dev)
}

/// What an interface association descriptor must satisfy.
pub open spec fn interface_assoc_fields_ok(iface: usb::InterfaceAssocDescriptor) -> bool {
    iface.function_class != 0
}

/// Check an interface association descriptor's fields.
pub fn check_interface_assoc_fields(iface: &usb::InterfaceAssocDescriptor) -> (r: bool)
    ensures
        r == interface_assoc_fields_ok(*iface),
{
    iface.function_class != 0
}

/// The per-transfer-type rules on an endpoint descriptor, with separate
/// packet-size and interval tables for USB 1, 2 and 3.
pub open spec fn endpoint_fields_ok(ep: usb::EndpointDescriptor, dev: usb::DeviceDescriptor) -> bool {
    let bcd = dev.bcd_usb;
    let mps = ep.max_packet_size;
    &&& (ep.endpoint_address & 0x70) == 0
    &&& (ep.attributes & 0xc0) == 0
    &&& !usb_v3_spec(bcd) ==> (mps & 0xe000) == 0
    &&& if (ep.attributes & usb::ENDPOINT_XFERTYPE_MASK) == usb::ENDPOINT_XFER_CONTROL {
        &&& (ep.attributes & 0x3c) == 0
        &&& (usb_v1_spec(bcd) || usb_v2_spec(bcd)) ==> (mps & 0x1800) == 0
        &&& mps == 512
        &&& ep.interval == 0
    } else if (ep.attributes & usb::ENDPOINT_XFERTYPE_MASK) == usb::ENDPOINT_XFER_ISOC {
        &&& (ep.attributes & 0x30) != 0x30
        &&& if usb_v1_spec(bcd) {
            (mps & 0x1800) == 0
        } else if usb_v2_spec(bcd) {
            &&& (mps & 0x1800) == 0 ==> (1 <= (mps & 0x07ff) <= 1024)
            &&& (mps & 0x1800) == 0x0800 ==> (513 <= (mps & 0x07ff) <= 1024)
            &&& (mps & 0x1800) == 0x1000 ==> (683 <= (mps & 0x07ff) <= 1024)
            &&& (mps & 0x1800) != 0x1800
            &&& 1 <= ep.interval <= 16
        } else {
            &&& mps <= 1024
            &&& 1 <= ep.interval <= 16
        }
    } else if (ep.attributes & usb::ENDPOINT_XFERTYPE_MASK) == usb::ENDPOINT_XFER_BULK {
        &&& (ep.attributes & 0x3c) == 0
        &&& if usb_v1_spec(bcd) || usb_v2_spec(bcd) {
            (mps & 0x1800) == 0
        } else {
            &&& mps == 1024
            &&& ep.interval == 0
        }
    } else if (ep.attributes & usb::ENDPOINT_XFERTYPE_MASK) == usb::ENDPOINT_XFER_INT {
        if usb_v1_spec(bcd) {
            &&& (ep.attributes & 0x3c) == 0
            &&& (mps & 0x1800) == 0
            &&& ep.interval != 0
        } else if usb_v2_spec(bcd) {
            &&& (ep.attributes & 0x30) == 0
            &&& (mps & 0x1800) == 0 ==> (1 <= (mps & 0x07ff) <= 1024)
            &&& (mps & 0x1800) == 0x0800 ==> (513 <= (mps & 0x07ff) <= 1024)
            &&& (mps & 0x1800) == 0x1000 ==> (683 <= (mps & 0x07ff) <= 1024)
            &&& (mps & 0x1800) != 0x1800
            &&& 1 <= ep.interval <= 16
        } else {
            &&& (ep.attributes & 0x0c) == 0
            &&& ((ep.attributes & 0x30) >> 1) <= 1
            &&& 1 <= mps <= 1024
            &&& 1 <= ep.interval <= 16
        }
    } else {
        false
    }
}

/// Check an endpoint descriptor's fields; see [`endpoint_fields_ok`].
pub fn check_endpoint_fields(ep: &usb::EndpointDescriptor, dev: &usb::DeviceDescriptor) -> (r:
    bool)
    ensures
        r == endpoint_fields_ok(*ep, *dev),
{
    let bcd = dev.bcd_usb;
    let v1 = usb::V1 <= bcd && bcd < usb::V2;
    let v2 = usb::V2 <= bcd && bcd < usb::V3;
    let v3 = usb::V3 <= bcd && bcd < 0x0400;
    let mps = ep.max_packet_size;

    if (ep.endpoint_address & 0x70) != 0 {
        return false;
    }
    if (ep.attributes & 0xc0) != 0 {
        return false;
    }
    if !v3 && (mps & 0xe000) != 0 {
        return false;
    }
    let xfer = ep.attributes & usb::ENDPOINT_XFERTYPE_MASK;
    if xfer == usb::ENDPOINT_XFER_CONTROL {
        if (ep.attributes & 0x3c) != 0 {
            return false;
        }
        if (v1 || v2) && mps & 0x1800 != 0 {
            return false;
        }
        if mps != 512 {
            return false;
        }
        if ep.interval != 0 {
            return false;
        }
    } else if xfer == usb::ENDPOINT_XFER_ISOC {
        if (ep.attributes & 0x30) == 0x30 {
            return false;
        }
        if v1 && (mps & 0x1800) != 0 {
            return false;
        } else if v2 {
            if (mps & 0x1800) == 0 && ((mps & 0x07ff) < 1 || (mps & 0x07ff) > 1024) {
                return false;
            }
            if (mps & 0x1800) == 0x0800 && ((mps & 0x07ff) < 513 || (mps & 0x07ff) > 1024) {
                return false;
            }
            if (mps & 0x1800) == 0x1000 && ((mps & 0x07ff) < 683 || (mps & 0x07ff) > 1024) {
                return false;
            }
            if (mps & 0x1800) == 0x1800 {
                return false;
            }
            if ep.interval < 1 || ep.interval > 16 {
                return false;
            }
        } else if !v1 {
            if mps > 1024 {
                return false;
            }
            if ep.interval < 1 || ep.interval > 16 {
                return false;
            }
        }
    } else if xfer == usb::ENDPOINT_XFER_BULK {
        if ep.attributes & 0x3c != 0 {
            return false;
        }
        if v1 || v2 {
            if mps & 0x1800 != 0 {
                return false;
            }
        } else {
            if mps != 1024 {
                return false;
            }
            if ep.interval != 0 {
                return false;
            }
        }
    } else if xfer == usb::ENDPOINT_XFER_INT {
        if v1 {
            if (ep.attributes & 0x3c) != 0 {
                return false;
            }
            if (mps & 0x1800) != 0 {
                return false;
            }
            if ep.interval == 0 {
                return false;
            }
        } else if v2 {
            if (ep.attributes & 0x30) != 0 {
                return false;
            }
            if (mps & 0x1800) == 0 && ((mps & 0x07ff) < 1 || (mps & 0x07ff) > 1024) {
                return false;
            }
            if (mps & 0x1800) == 0x0800 && ((mps & 0x07ff) < 513 || (mps & 0x07ff) > 1024) {
                return false;
            }
            if (mps & 0x1800) == 0x1000 && ((mps & 0x07ff) < 683 || (mps & 0x07ff) > 1024) {
                return false;
            }
            if (mps & 0x1800) == 0x1800 {
                return false;
            }
            if ep.interval < 1 || ep.interval > 16 {
                return false;
            }
        } else {
            if (ep.attributes & 0x0c) != 0 {
                return false;
            }
            if ((ep.attributes & 0x30) >> 1) > 1 {
                return false;
            }
            if mps < 1 || mps > 1024 {
                return false;
            }
            if ep.interval < 1 || ep.interval > 16 {
                return false;
            }
        }
    } else {
        return false;
    }
    true
}

/// The SuperSpeed endpoint-companion rules, per transfer type of the
/// endpoint it accompanies.
pub open spec fn ss_ep_comp_fields_ok(ss: usb::SsEpCompDescriptor, ep: usb::EndpointDescriptor) -> bool {
    &&& ss.max_burst <= 15
    &&& ss.max_burst > 0 ==> ep.max_packet_size == 1024
    &&& if (ep.attributes & usb::ENDPOINT_XFERTYPE_MASK) == usb::ENDPOINT_XFER_CONTROL {
        &&& ss.max_burst == 0
        &&& ss.bytes_per_interval == 0
        &&& ss.attributes == 0
    } else if (ep.attributes & usb::ENDPOINT_XFERTYPE_MASK) == usb::ENDPOINT_XFER_INT {
        ss.attributes == 0
    } else if (ep.attributes & usb::ENDPOINT_XFERTYPE_MASK) == usb::ENDPOINT_XFER_ISOC {
        &&& (ss.attributes & 0xfc) == 0
        &&& (ss.attributes & 0x03) <= 2
        &&& ss.max_burst == 0 ==> (ss.attributes & 0x03) == 0
    } else if (ep.attributes & usb::ENDPOINT_XFERTYPE_MASK) == usb::ENDPOINT_XFER_BULK {
        &&& (ss.attributes & 0xe0) == 0
        &&& (ss.attributes & 0x1f) <= 16
        &&& ss.bytes_per_interval == 0
    } else {
        false
    }
}

/// Check a SuperSpeed endpoint companion; see [`ss_ep_comp_fields_ok`].
pub fn check_ss_ep_comp_fields(ss: &usb::SsEpCompDescriptor, ep: &usb::EndpointDescriptor) -> (r:
    bool)
    ensures
        r == ss_ep_comp_fields_ok(*ss, *ep),
{
    if ss.max_burst > 15 {
        return false;
    }
    if ss.max_burst > 0 && ep.max_packet_size != 1024 {
        return false;
    }
    let xfer = ep.attributes & usb::ENDPOINT_XFERTYPE_MASK;
    if xfer == usb::ENDPOINT_XFER_CONTROL {
        if ss.max_burst != 0 {
            return false;
        }
        if ss.bytes_per_interval != 0 {
            return false;
        }
        if ss.attributes != 0 {
            return false;
        }
    } else if xfer == usb::ENDPOINT_XFER_INT {
        if ss.attributes != 0 {
            return false;
        }
    } else if xfer == usb::ENDPOINT_XFER_ISOC {
        if (ss.attributes & 0xfc) != 0 {
            return false;
        }
        if (ss.attributes & 0x03) > 2 {
            return false;
        }
        if ss.max_burst == 0 && (ss.attributes & 0x03) != 0 {
            return false;
        }
    } else if xfer == usb::ENDPOINT_XFER_BULK {
        if (ss.attributes & 0xe0) != 0 {
            return false;
        }
        if (ss.attributes & 0x1f) > 16 {
            return false;
        }
        if ss.bytes_per_interval != 0 {
            return false;
        }
    } else {
        return false;
    }
    true
}

/// What a device qualifier must satisfy: a USB 2 BCD version, a
/// consistent class triple, a standard packet size, and a clear reserved
/// byte.
pub open spec fn device_qualifier_fields_ok(desc: usb::DeviceQualifierDescriptor) -> bool {
    &&& usb_v2_spec(desc.bcd_usb) && check_bcd_spec(desc.bcd_usb)
    &&& device_csp_ok(desc.device_class, desc.device_subclass, desc.device_protocol)
    &&& (desc.max_packet_size0 == 8 || desc.max_packet_size0 == 16 || desc.max_packet_size0 == 32
        || desc.max_packet_size0 == 64)
    &&& desc.reserved == 0
}

/// Check a device qualifier's fields; see [`device_qualifier_fields_ok`].
pub fn check_device_qualifier_fields(desc: &usb::DeviceQualifierDescriptor) -> (r: bool)
    ensures
        r == device_qualifier_fields_ok(*desc),
{
    let v2 = usb::V2 <= desc.bcd_usb && desc.bcd_usb < usb::V3;
    if !(v2 && check_bcd(desc.bcd_usb)) {
        return false;
    }
    if !check_device_csp(desc.device_class, desc.device_subclass, desc.device_protocol) {
        return false;
    }
    if !(desc.max_packet_size0 == 8 || desc.max_packet_size0 == 16 || desc.max_packet_size0 == 32
        || desc.max_packet_size0 == 64) {
        return false;
    }
    if desc.reserved != 0 {
        return false;
    }
    true
}

/// The pipe usage descriptor has no public field rules; the relevant
/// SCSI standards are not freely available, so every well-framed one is
/// accepted.
pub fn check_pipe_usage_fields(pipe: &usb::PipeUsageDescriptor) -> (r: bool)
    ensures
        r == true,
{
    let _ = pipe;
    true
}

/// What an OTG descriptor must satisfy: only the two defined attribute
/// bits in use.
pub open spec fn otg_fields_ok(otg: usb::OtgDescriptor) -> bool {
    (otg.attributes & 0xfc) == 0
}

/// Check an OTG descriptor's fields.
pub fn check_otg_fields(otg: &usb::OtgDescriptor) -> (r: bool)
    ensures
        r == otg_fields_ok(*otg),
{
    (otg.attributes & 0xfc) == 0
}

/// What a USB 2.0 extension capability must satisfy: reserved bits clear,
/// and the LPM bit set whenever the device claims USB 3.
pub open spec fn cap_ext_fields_ok(ext: usb::ExtCapDescriptor, bcd_usb: u16) -> bool {
    &&& (ext.attributes & 0xfffffffd) == 0
    &&& usb_v3_spec(bcd_usb) ==> (ext.attributes & 0x00000002) != 0
}

/// Check a USB 2.0 extension capability; see [`cap_ext_fields_ok`].
pub fn check_cap_ext_fields(ext: &usb::ExtCapDescriptor, bcd_usb: u16) -> (r: bool)
    ensures
        r == cap_ext_fields_ok(*ext, bcd_usb),
{
    if (ext.attributes & 0xfffffffd) != 0 {
        return false;
    }
    let v3 = usb::V3 <= bcd_usb && bcd_usb < 0x0400;
    if v3 && (ext.attributes & 0x00000002) == 0 {
        return false;
    }
    true
}

/// What a SuperSpeed capability must satisfy: reserved bits clear, a
/// supported-speed set within the defined bits that contains the lowest
/// functional speed, and latencies within their defined ranges.
pub open spec fn cap_ss_fields_ok(ss: usb::SsCapDescriptor) -> bool {
    &&& (ss.attributes & 0xfd) == 0
    &&& (ss.speed_supported & 0xfff0) == 0
    &&& ss.functionality_support < 16
    &&& (ss.speed_supported >> (ss.functionality_support as u16)) & 1 == 1
    &&& ss.u1_dev_exit_lat <= 0x0a
    &&& ss.u2_dev_exit_lat <= 0x07ff
}

/// Check a SuperSpeed capability; see [`cap_ss_fields_ok`].
pub fn check_cap_ss_fields(ss: &usb::SsCapDescriptor) -> (r: bool)
    ensures
        r == cap_ss_fields_ok(*ss),
{
    if (ss.attributes & 0xfd) != 0 {
        return false;
    }
    if (ss.speed_supported & 0xfff0) != 0 {
        return false;
    }
    if ss.functionality_support >= 16 {
        return false;
    }
    if (ss.speed_supported >> (ss.functionality_support as u16)) & 1 != 1 {
        return false;
    }
    if ss.u1_dev_exit_lat > 0x0a {
        return false;
    }
    if ss.u2_dev_exit_lat > 0x07ff {
        return false;
    }
    true
}

/// What a container-id capability must satisfy: a clear reserved byte.
pub open spec fn cap_container_fields_ok(con: usb::ContainerIdDescriptor) -> bool {
    con.reserved == 0
}

/// Check a container-id capability's fields.
pub fn check_cap_container_fields(con: &usb::ContainerIdDescriptor) -> (r: bool)
    ensures
        r == cap_container_fields_ok(*con),
{
    con.reserved == 0
}


/// One endpoint of the virtual device model: its descriptor and, when
/// present, the SuperSpeed companion and pipe-usage descriptors that
/// followed it.
pub struct EndpointNode {
    pub desc: usb::EndpointDescriptor,
    pub ss_desc: Option<usb::SsEpCompDescriptor>,
    pub pipe_desc: Option<usb::PipeUsageDescriptor>,
}

/// One interface alternate of the model: its descriptor and its
/// endpoints, keyed by masked endpoint address.
pub struct InterfaceNode {
    pub desc: usb::InterfaceDescriptor,
    pub endpoints: KvMap<EndpointNode>,
}

/// One configuration of the model: its descriptor and its interfaces,
/// keyed by interface number, each mapping alternate setting to an
/// [`InterfaceNode`].
pub struct ConfigNode {
    pub desc: usb::ConfigDescriptor,
    pub interfaces: KvMap<KvMap<InterfaceNode>>,
}

/// Map `b` keeps everything interface map `a` held: every interface
/// number, every alternate with its stored interface descriptor, and
/// every endpoint entry with its stored endpoint descriptor.
pub open spec fn ifaces_preserved(a: Map<u64, KvMap<InterfaceNode>>, b: Map<u64, KvMap<InterfaceNode>>) -> bool {
    &&& forall|i: u64| #[trigger] a.contains_key(i) ==> b.contains_key(i)
    &&& forall|i: u64, al: u64|
        a.contains_key(i) && (#[trigger] a[i]@.contains_key(al)) ==> b[i]@.contains_key(al)
            && b[i]@[al].desc == a[i]@[al].desc
    &&& forall|i: u64, al: u64, k: u64|
        a.contains_key(i) && a[i]@.contains_key(al) && (
        #[trigger] a[i]@[al].endpoints@.contains_key(k)) ==> b[i]@[al].endpoints@.contains_key(k)
            && b[i]@[al].endpoints@[k].desc == a[i]@[al].endpoints@[k].desc
}

/// The virtual model of the redirected device, built strictly from the
/// descriptors the device volunteers. Entries are installed on first
/// sight and never overwritten; later observations are only
/// cross-checked.
pub struct VirtualDevice {
    pub desc: Option<usb::DeviceDescriptor>,
    pub configs: KvMap<ConfigNode>,
    pub strings: KvMap<Vec<u8>>,
    pub chosen_conf: Option<u8>,
    pub chosen_interfaces: KvMap<u8>,
}

impl VirtualDevice {
    /// Every map of the tree has distinct keys.
    pub open spec fn maps_wf(&self) -> bool {
        &&& self.configs.inv()
        &&& self.strings.inv()
        &&& self.chosen_interfaces.inv()
        &&& forall|c: u64| #[trigger] self.configs@.contains_key(c) ==> c < 256
        &&& forall|i: u64| #[trigger] self.chosen_interfaces@.contains_key(i) ==> i < 256
        &&& forall|c: u64|
            self.configs@.contains_key(c) ==> (#[trigger] self.configs@[c]).interfaces.inv()
        &&& forall|c: u64, i: u64|
            self.configs@.contains_key(c) && (#[trigger] self.configs@[c]).interfaces@.contains_key(
                i,
            ) ==> (#[trigger] self.configs@[c].interfaces@[i]).inv()
        &&& forall|c: u64, i: u64, a: u64|
            self.configs@.contains_key(c) && self.configs@[c].interfaces@.contains_key(i) && (
            #[trigger] self.configs@[c].interfaces@[i])@.contains_key(a) ==> (
            #[trigger] self.configs@[c].interfaces@[i]@[a]).endpoints.inv()
    }

    /// Every chosen alternate names an alternate that exists in the
    /// current configuration.
    pub open spec fn chosen_ok(&self) -> bool {
        forall|i: u64|
            #[trigger] self.chosen_interfaces@.contains_key(i) ==> {
                &&& self.chosen_conf is Some
                &&& self.configs@.contains_key(self.chosen_conf.unwrap() as u64)
                &&& self.configs@[self.chosen_conf.unwrap() as u64].interfaces@.contains_key(i)
                &&& self.configs@[self.chosen_conf.unwrap() as u64].interfaces@[i]@.contains_key(
                    self.chosen_interfaces@[i] as u64,
                )
            }
    }

    pub open spec fn wf(&self) -> bool {
        self.maps_wf() && self.chosen_ok()
    }

    /// An empty model: nothing observed yet.
    pub fn new() -> (r: VirtualDevice)
        ensures
            r.wf(),
            r.desc is None,
            r.configs@ == Map::<u64, ConfigNode>::empty(),
            r.strings@ == Map::<u64, Vec<u8>>::empty(),
            r.chosen_conf is None,
            r.chosen_interfaces@ == Map::<u64, u8>::empty(),
    {
        VirtualDevice {
            desc: None,
            configs: KvMap::new(),
            strings: KvMap::new(),
            chosen_conf: None,
            chosen_interfaces: KvMap::new(),
        }
    }
}

/// The control-request and descriptor validator stage: the virtual
/// device model plus the class-specific sub-validators.
pub struct ControlCheck {
    pub vdev: VirtualDevice,
    pub hid_checks: hid::HidControlCheck,
    pub bbb_checks: bbb::BBBControlCheck,
    pub third_party: third_party::Patcher,
}

impl ControlCheck {
    pub open spec fn wf(&self) -> bool {
        &&& self.vdev.wf()
        &&& self.hid_checks.wf()
        &&& self.third_party.wf()
    }

    /// A fresh validator over the given third-party policy records.
    pub fn new(third_party: Vec<third_party::CompliancePatch>) -> (r: ControlCheck)
        ensures
            r.wf(),
            r.vdev.desc is None,
            r.vdev.chosen_conf is None,
    {
        ControlCheck {
            vdev: VirtualDevice::new(),
            hid_checks: hid::HidControlCheck::new(),
            bbb_checks: bbb::BBBControlCheck::new(),
            third_party: third_party::Patcher::new(third_party),
        }
    }

    /// A GET_CONFIGURATION reply is one byte naming a configuration the
    /// model has seen.
    pub open spec fn get_config_ok(vdev: VirtualDevice, d: Seq<u8>) -> bool {
        d.len() == 1 && vdev.configs@.contains_key(d[0] as u64)
    }

    /// Check a GET_CONFIGURATION reply; see [`ControlCheck::get_config_ok`].
    pub fn check_get_config(&self, data: &[u8]) -> (r: bool)
        requires
            self.wf(),
        ensures
            r == Self::get_config_ok(self.vdev, data@),
    {
        if data.len() != 1 {
            return false;
        }
        self.vdev.configs.contains_key(data[0] as u64)
    }

    /// The position in `keys` of the last configuration whose
    /// configuration value is `v`, or -1 when none matches.
    pub open spec fn last_config_match(keys: Seq<u64>, configs: Map<u64, ConfigNode>, v: u8, i: int) -> int
        decreases i,
    {
        if i <= 0 {
            -1
        } else if configs[keys[i - 1]].desc.configuration_value == v {
            i - 1
        } else {
            Self::last_config_match(keys, configs, v, i - 1)
        }
    }

    /// Record a guest-chosen configuration: point `chosen_conf` at the
    /// last stored configuration whose configuration value matches the
    /// request, if any does; otherwise change nothing. Changing
    /// configurations resets the chosen alternates, which keeps every
    /// chosen alternate inside the current configuration.
    #[verifier::loop_isolation(false)]
    pub fn update_config(&mut self, h: &crate::usbr::ControlPacketHeader)
        requires
            old(self).wf(),
        ensures
            final(self).wf(),
            final(self).vdev.desc == old(self).vdev.desc,
            final(self).vdev.configs@ == old(self).vdev.configs@,
            final(self).vdev.strings@ == old(self).vdev.strings@,
            final(self).hid_checks == old(self).hid_checks,
            final(self).bbb_checks == old(self).bbb_checks,
            final(self).third_party == old(self).third_party,
            ({
                let keys = old(self).vdev.configs.keys();
                let li = Self::last_config_match(
                    keys,
                    old(self).vdev.configs@,
                    (h.value & 0xff) as u8,
                    keys.len() as int,
                );
                if li == -1 {
                    *final(self) == *old(self)
                } else {
                    &&& final(self).vdev.chosen_conf == Some(keys[li] as u8)
                    &&& (if old(self).vdev.chosen_conf == Some(keys[li] as u8) {
                        final(self).vdev.chosen_interfaces@ == old(self).vdev.chosen_interfaces@
                    } else {
                        final(self).vdev.chosen_interfaces@ == Map::<u64, u8>::empty()
                    })
                }
            }),
    {
        let v = low_byte(h.value);
        let n = self.vdev.configs.len();
        let ghost keys = self.vdev.configs.keys();
        let mut i: usize = 0;
        let mut found: Option<u8> = None;
        while i < n
            invariant
                i <= n,
                match found {
                    Some(c) => ({
                        let li = Self::last_config_match(
                            keys,
                            self.vdev.configs@,
                            v,
                            i as int,
                        );
                        li >= 0 && keys[li] == c as u64 && c < 256
                    }),
                    None => Self::last_config_match(keys, self.vdev.configs@, v, i as int) == -1,
                },
            decreases n - i,
        {
            let key = self.vdev.configs.key_at(i);
            let node = self.vdev.configs.val_at(i);
            if node.desc.configuration_value == v {
                proof {
                    assert(key < 256);
                    assert(key & 0xff == key) by (bit_vector)
                        requires
                            key < 256,
                    ;
                }
                found = Some((key & 0xff) as u8);
            }
            i = i + 1;
        }
        if let Some(c) = found {
            let changed = match self.vdev.chosen_conf {
                Some(cur) => cur != c,
                None => true,
            };
            self.vdev.chosen_conf = Some(c);
            if changed {
                self.vdev.chosen_interfaces = KvMap::new();
            }
        }
    }
}

impl ControlCheck {
    /// The interface node currently selected for interface number `i`:
    /// the chosen alternate inside the chosen configuration. Present
    /// exactly when a configuration is chosen, modeled, and an alternate
    /// has been chosen for `i`; the model invariant then guarantees the
    /// alternate exists.
    pub fn current_interface(&self, i: u8) -> (r: Option<&InterfaceNode>)
        requires
            self.wf(),
        ensures
            r is Some <==> (self.vdev.chosen_conf is Some && self.vdev.configs@.contains_key(
                self.vdev.chosen_conf.unwrap() as u64,
            ) && self.vdev.chosen_interfaces@.contains_key(i as u64)),
            r matches Some(node) ==> *node == self.vdev.configs@[self.vdev.chosen_conf.unwrap()
                as u64].interfaces@[i as u64]@[self.vdev.chosen_interfaces@[i as u64] as u64],
    {
        let cc = match self.vdev.chosen_conf {
            Some(c) => c,
            None => {
                return None;
            },
        };
        let config = match self.vdev.configs.get(cc as u64) {
            Some(c) => c,
            None => {
                return None;
            },
        };
        let alt = match self.vdev.chosen_interfaces.get(i as u64) {
            Some(a) => *a,
            None => {
                return None;
            },
        };
        let alts = match config.interfaces.get(i as u64) {
            Some(m) => m,
            None => {
                return None;
            },
        };
        match alts.get(alt as u64) {
            Some(node) => Some(node),
            None => None,
        }
    }

    /// A GET_INTERFACE exchange: the request carries no payload and its
    /// index must name an interface of the current configuration; a
    /// one-byte reply must name a known alternate of that interface.
    pub open spec fn get_interface_ok(vdev: VirtualDevice, h: crate::usbr::ControlPacketHeader, d: Seq<u8>) -> bool {
        &&& d.len() <= 1
        &&& vdev.chosen_conf is Some
        &&& vdev.configs@.contains_key(vdev.chosen_conf.unwrap() as u64)
        &&& vdev.configs@[vdev.chosen_conf.unwrap() as u64].interfaces@.contains_key(
            (h.index & 0xff) as u64,
        )
        &&& d.len() == 1 ==> vdev.configs@[vdev.chosen_conf.unwrap() as u64].interfaces@[(h.index
            & 0xff) as u64]@.contains_key(d[0] as u64)
    }

    /// Check a GET_INTERFACE exchange; see [`ControlCheck::get_interface_ok`].
    pub fn check_get_interface(&self, h: &crate::usbr::ControlPacketHeader, data: &[u8]) -> (r:
        bool)
        requires
            self.wf(),
        ensures
            r == Self::get_interface_ok(self.vdev, *h, data@),
    {
        if data.len() > 1 {
            return false;
        }
        let cc = match self.vdev.chosen_conf {
            Some(c) => c,
            None => {
                return false;
            },
        };
        let config = match self.vdev.configs.get(cc as u64) {
            Some(c) => c,
            None => {
                return false;
            },
        };
        let inum = low_byte(h.index);
        let alts = match config.interfaces.get(inum as u64) {
            Some(m) => m,
            None => {
                return false;
            },
        };
        if data.len() == 1 {
            if !alts.contains_key(data[0] as u64) {
                return false;
            }
        }
        true
    }

    /// Record a guest-chosen alternate: set `chosen_interfaces[wIndex]`
    /// to the request's value, provided an alternate is already tracked
    /// for that interface and the named alternate exists in the current
    /// configuration, which keeps the model invariant.
    pub fn update_interface(&mut self, h: &crate::usbr::ControlPacketHeader)
        requires
            old(self).wf(),
        ensures
            final(self).wf(),
            final(self).vdev.desc == old(self).vdev.desc,
            final(self).vdev.configs@ == old(self).vdev.configs@,
            final(self).vdev.strings@ == old(self).vdev.strings@,
            final(self).vdev.chosen_conf == old(self).vdev.chosen_conf,
            final(self).hid_checks == old(self).hid_checks,
            final(self).bbb_checks == old(self).bbb_checks,
            final(self).third_party == old(self).third_party,
            ({
                let inum = (h.index & 0xff) as u64;
                let alt = (h.value & 0xff) as u8;
                if old(self).vdev.chosen_interfaces@.contains_key(inum) && old(self).vdev.configs@[old(self).vdev.chosen_conf.unwrap() as u64].interfaces@[inum]@.contains_key(
                    alt as u64,
                ) {
                    final(self).vdev.chosen_interfaces@ == old(self).vdev.chosen_interfaces@.insert(inum, alt)
                } else {
                    final(self).vdev.chosen_interfaces@ == old(self).vdev.chosen_interfaces@
                }
            }),
    {
        let inum = low_byte(h.index);
        let alt = low_byte(h.value);
        if !self.vdev.chosen_interfaces.contains_key(inum as u64) {
            return ;
        }
        let cc = match self.vdev.chosen_conf {
            Some(c) => c,
            None => {
                return ;
            },
        };
        let alt_exists = match self.vdev.configs.get(cc as u64) {
            Some(config) => match config.interfaces.get(inum as u64) {
                Some(alts) => alts.contains_key(alt as u64),
                None => false,
            },
            None => false,
        };
        if alt_exists {
            self.vdev.chosen_interfaces.set(inum as u64, alt);
        }
    }

    /// What a device-descriptor reply must look like: a full or
    /// host-requested prefix length, an 18-byte device header, and valid
    /// fields for however much of the descriptor arrived.
    pub open spec fn device_desc_ok(h: crate::usbr::ControlPacketHeader, d: Seq<u8>) -> bool {
        &&& (d.len() == usb::DEVICE_DESC_SIZE + usb::HEADER_SIZE || d.len() == h.length)
        &&& d.len() >= usb::HEADER_SIZE
        &&& d[0] == usb::DEVICE_DESC_SIZE + usb::HEADER_SIZE
        &&& d[1] == usb::DT_DEVICE
        &&& device_fields_ok(d.skip(2))
    }

    /// Check a device-descriptor reply, and install the descriptor in
    /// the model on its first full-size observation; see
    /// [`ControlCheck::device_desc_ok`].
    pub fn check_device_descriptor(&mut self, h: &crate::usbr::ControlPacketHeader, data: &[u8]) -> (r: bool)
        requires
            old(self).wf(),
        ensures
            final(self).wf(),
            r == Self::device_desc_ok(*h, data@),
            final(self).vdev.desc == (if r && old(self).vdev.desc is None && data@.len()
                == usb::DEVICE_DESC_SIZE + usb::HEADER_SIZE {
                Some(usb::device_descriptor_spec(data@, 2))
            } else {
                old(self).vdev.desc
            }),
            final(self).vdev.configs@ == old(self).vdev.configs@,
            final(self).vdev.strings@ == old(self).vdev.strings@,
            final(self).vdev.chosen_conf == old(self).vdev.chosen_conf,
            final(self).vdev.chosen_interfaces@ == old(self).vdev.chosen_interfaces@,
            final(self).hid_checks == old(self).hid_checks,
            final(self).bbb_checks == old(self).bbb_checks,
            final(self).third_party == old(self).third_party,
    {
        let n = data.len();
        if (n != usb::DEVICE_DESC_SIZE + usb::HEADER_SIZE && n != h.length as usize) || n
            < usb::HEADER_SIZE {
            return false;
        }
        let header = usb::parse_descriptor_header(data, 0);
        if header.length as usize != usb::DEVICE_DESC_SIZE + usb::HEADER_SIZE
            || header.descriptor_type != usb::DT_DEVICE {
            return false;
        }
        let rest = clone_tail(data, 2);
        if !check_device_fields(rest.as_slice()) {
            proof {
                assert(rest@ =~= data@.skip(2));
            }
            return false;
        }
        proof {
            assert(rest@ =~= data@.skip(2));
        }
        if self.vdev.desc.is_none() && n == usb::DEVICE_DESC_SIZE + usb::HEADER_SIZE {
            let parsed = usb::parse_device_descriptor(data, 2);
            self.vdev.desc = Some(parsed);
        }
        true
    }

    /// What a string-descriptor reply must look like, and whether it is
    /// only a length probe.
    pub open spec fn string_desc_ok(h: crate::usbr::ControlPacketHeader, d: Seq<u8>) -> bool {
        &&& d.len() >= usb::HEADER_SIZE
        &&& d[1] == usb::DT_STRING
        &&& if d.len() == d[0] {
            string_fields_ok(d.skip(2), (h.value & 0xff) as u8)
        } else {
            d.len() == h.length && d.len() == usb::STRING_DESC_SIZE_MIN
        }
    }

    /// Check a string-descriptor reply and install the raw descriptor
    /// bytes for its index on first sight; a short reply matching the
    /// host's requested length is only a length probe.
    pub fn check_string_descriptor(&mut self, h: &crate::usbr::ControlPacketHeader, data: &[u8]) -> (r: bool)
        requires
            old(self).wf(),
        ensures
            final(self).wf(),
            r == Self::string_desc_ok(*h, data@),
            final(self).vdev.desc == old(self).vdev.desc,
            final(self).vdev.configs@ == old(self).vdev.configs@,
            final(self).vdev.chosen_conf == old(self).vdev.chosen_conf,
            final(self).vdev.chosen_interfaces@ == old(self).vdev.chosen_interfaces@,
            final(self).hid_checks == old(self).hid_checks,
            final(self).bbb_checks == old(self).bbb_checks,
            final(self).third_party == old(self).third_party,
            r && data@.len() == data@[0] && !old(self).vdev.strings@.contains_key(
                (h.value & 0xff) as u64,
            ) ==> final(self).vdev.strings@.contains_key((h.value & 0xff) as u64),
            forall|k: u64|
                #[trigger] old(self).vdev.strings@.contains_key(k) ==> final(self).vdev.strings@.contains_key(k) && final(self).vdev.strings@[k] == old(self).vdev.strings@[k],
            (!r || data@.len() != data@[0] || old(self).vdev.strings@.contains_key(
                (h.value & 0xff) as u64,
            )) ==> final(self).vdev.strings@ == old(self).vdev.strings@,
    {
        let index = low_byte(h.value);
        let n = data.len();
        if n < usb::HEADER_SIZE {
            return false;
        }
        let header = usb::parse_descriptor_header(data, 0);
        if header.descriptor_type != usb::DT_STRING {
            return false;
        }
        if n != header.length as usize {
            if n != h.length as usize {
                return false;
            } else if n != usb::STRING_DESC_SIZE_MIN {
                return false;
            } else {
                // A probe for the descriptor's length only.
                return true;
            }
        }
        let body = clone_tail(data, 2);
        if !check_string_fields(body.as_slice(), index) {
            proof {
                assert(body@ =~= data@.skip(2));
            }
            return false;
        }
        proof {
            assert(body@ =~= data@.skip(2));
        }
        if !self.vdev.strings.contains_key(index as u64) {
            self.vdev.strings.set(index as u64, body);
        }
        true
    }

    /// What a device-qualifier reply must look like: refused on USB 3
    /// devices, correctly framed, with valid qualifier fields.
    pub open spec fn device_qual_ok(dev: Option<usb::DeviceDescriptor>, d: Seq<u8>) -> bool {
        &&& dev is Some
        &&& !usb_v3_spec(dev.unwrap().bcd_usb)
        &&& d.len() >= usb::DEVICE_QUALIFIER_SIZE + usb::HEADER_SIZE
        &&& d[0] == usb::DEVICE_QUALIFIER_SIZE + usb::HEADER_SIZE
        &&& d[1] == usb::DT_DEVICE_QUALIFIER
        &&& device_qualifier_fields_ok(usb::device_qualifier_spec(d, 2))
    }

    /// Check a device-qualifier reply; see [`ControlCheck::device_qual_ok`].
    pub fn check_device_qual_descriptor(&self, data: &[u8]) -> (r: bool)
        requires
            self.wf(),
        ensures
            r == Self::device_qual_ok(self.vdev.desc, data@),
    {
        let dev = match &self.vdev.desc {
            Some(d) => *d,
            None => {
                return false;
            },
        };
        if usb::V3 <= dev.bcd_usb && dev.bcd_usb < 0x0400 {
            return false;
        }
        let n = data.len();
        if n < usb::DEVICE_QUALIFIER_SIZE + usb::HEADER_SIZE {
            return false;
        }
        let header = usb::parse_descriptor_header(data, 0);
        if header.length as usize != usb::DEVICE_QUALIFIER_SIZE + usb::HEADER_SIZE
            || header.descriptor_type != usb::DT_DEVICE_QUALIFIER {
            return false;
        }
        let desc = usb::parse_device_qualifier(data, 2);
        check_device_qualifier_fields(&desc)
    }

    /// What an other-speed-configuration reply must look like: refused
    /// on USB 3 devices, correctly framed, with valid fields.
    pub open spec fn other_speed_ok(dev: Option<usb::DeviceDescriptor>, d: Seq<u8>) -> bool {
        &&& dev is Some
        &&& !usb_v3_spec(dev.unwrap().bcd_usb)
        &&& d.len() >= usb::OTHER_SPEED_SIZE + usb::HEADER_SIZE
        &&& d[0] == usb::OTHER_SPEED_SIZE + usb::HEADER_SIZE
        &&& d[1] == usb::DT_OTHER_SPEED_CONFIG
        &&& other_speed_fields_ok(usb::config_descriptor_spec(d, 2))
    }

    /// Check an other-speed-configuration reply; see
    /// [`ControlCheck::other_speed_ok`].
    pub fn check_other_speed_descriptor(&self, data: &[u8]) -> (r: bool)
        requires
            self.wf(),
        ensures
            r == Self::other_speed_ok(self.vdev.desc, data@),
    {
        let dev = match &self.vdev.desc {
            Some(d) => *d,
            None => {
                return false;
            },
        };
        if usb::V3 <= dev.bcd_usb && dev.bcd_usb < 0x0400 {
            return false;
        }
        let n = data.len();
        if n < usb::OTHER_SPEED_SIZE + usb::HEADER_SIZE {
            return false;
        }
        let header = usb::parse_descriptor_header(data, 0);
        if header.length as usize != usb::OTHER_SPEED_SIZE + usb::HEADER_SIZE
            || header.descriptor_type != usb::DT_OTHER_SPEED_CONFIG {
            return false;
        }
        let desc = usb::parse_config_descriptor(data, 2);
        check_other_speed_fields(&desc)
    }

    /// Check an interface-power descriptor's framing: only its header is
    /// defined.
    pub fn check_interface_power_desc(&self, data: &[u8]) -> (r: bool)
        ensures
            r == (data@.len() >= usb::HEADER_SIZE && data@[0] == usb::INTERFACE_POWER_DESC_SIZE
                + usb::HEADER_SIZE && data@[1] == usb::DT_INTERFACE_POWER),
    {
        if data.len() < usb::HEADER_SIZE {
            return false;
        }
        let header = usb::parse_descriptor_header(data, 0);
        header.length as usize == usb::INTERFACE_POWER_DESC_SIZE + usb::HEADER_SIZE
            && header.descriptor_type == usb::DT_INTERFACE_POWER
    }

    /// What an OTG descriptor must look like.
    pub open spec fn otg_ok(d: Seq<u8>) -> bool {
        &&& d.len() >= usb::OTG_DESC_SIZE + usb::HEADER_SIZE
        &&& d[0] == usb::OTG_DESC_SIZE + usb::HEADER_SIZE
        &&& d[1] == usb::DT_OTG
        &&& (d[2] & 0xfc) == 0
    }

    /// Check an OTG descriptor; see [`ControlCheck::otg_ok`].
    pub fn check_otg_desc(&self, data: &[u8]) -> (r: bool)
        ensures
            r == Self::otg_ok(data@),
    {
        if data.len() < usb::OTG_DESC_SIZE + usb::HEADER_SIZE {
            return false;
        }
        let header = usb::parse_descriptor_header(data, 0);
        if header.length as usize != usb::OTG_DESC_SIZE + usb::HEADER_SIZE
            || header.descriptor_type != usb::DT_OTG {
            return false;
        }
        let otg = usb::OtgDescriptor { attributes: data[2] };
        check_otg_fields(&otg)
    }
}


/// The low byte of a 16-bit field, as the 8-bit value and its widening.
pub fn low_byte(x: u16) -> (r: u8)
    ensures
        r == (x & 0xff) as u8,
        r as u64 == (x & 0xff) as u64,
        r as int == (x & 0xff) as int,
{
    proof {
        assert(x & 0xff < 256) by (bit_vector);
    }
    (x & 0xff) as u8
}

/// Copy `data[from..]` out as an owned buffer.
fn clone_tail(data: &[u8], from: usize) -> (r: Vec<u8>)
    requires
        from <= data@.len(),
    ensures
        r@ == data@.skip(from as int),
{
    let n = data.len();
    let mut out: Vec<u8> = Vec::new();
    let mut i: usize = from;
    while i < n
        invariant
            from <= i <= n,
            n == data@.len(),
            out@ == data@.subrange(from as int, i as int),
        decreases n - i,
    {
        let b = data[i];
        out.push(b);
        proof {
            assert(data@.subrange(from as int, i as int).push(data@[i as int]) =~= data@.subrange(
                from as int,
                i as int + 1,
            ));
        }
        i = i + 1;
    }
    proof {
        assert(data@.subrange(from as int, n as int) =~= data@.skip(from as int));
    }
    out
}


impl ControlCheck {
    /// What an interface-association descriptor starting at `off` must
    /// satisfy: correct framing and a non-zero function class.
    pub open spec fn assoc_ok(d: Seq<u8>, off: int) -> bool {
        &&& d.len() - off >= usb::HEADER_SIZE + usb::INTERFACE_ASSOC_DESC_SIZE
        &&& d[off] == usb::HEADER_SIZE + usb::INTERFACE_ASSOC_DESC_SIZE
        &&& d[off + 1] == usb::DT_INTERFACE_ASSOCIATION
        &&& d[off + 4] != 0
    }

    /// Check the interface-association descriptor starting at `off`,
    /// advancing past it; see [`ControlCheck::assoc_ok`].
    pub fn check_interface_assoc_desc(&self, data: &[u8], off: &mut usize) -> (r: bool)
        ensures
            r == Self::assoc_ok(data@, *old(off) as int),
            r ==> *final(off) == *old(off) + usb::HEADER_SIZE + usb::INTERFACE_ASSOC_DESC_SIZE
                && *final(off) <= data@.len(),
    {
        let n = data.len();
        if n < *off || n - *off < usb::HEADER_SIZE + usb::INTERFACE_ASSOC_DESC_SIZE {
            return false;
        }
        let header = usb::parse_descriptor_header(data, *off);
        if header.length as usize != usb::HEADER_SIZE + usb::INTERFACE_ASSOC_DESC_SIZE
            || header.descriptor_type != usb::DT_INTERFACE_ASSOCIATION {
            return false;
        }
        let iface = usb::parse_interface_assoc(data, *off + 2);
        *off = *off + usb::HEADER_SIZE + usb::INTERFACE_ASSOC_DESC_SIZE;
        check_interface_assoc_fields(&iface)
    }

    /// Whether `iface` is a USB-attached-SCSI interface, whose
    /// endpoints carry an extra pipe-usage descriptor on USB 3.
    pub open spec fn uas_iface(iface: usb::InterfaceDescriptor) -> bool {
        iface.interface_class == usb::CLASS_MASS_STORAGE && iface.interface_subclass == 0x06
            && iface.interface_protocol == 0x62
    }

    /// The SuperSpeed companion block owed after a USB 3 endpoint
    /// descriptor ending at `pos`, with a pipe-usage descriptor after it
    /// on a UAS interface.
    pub open spec fn ss_block_ok(d: Seq<u8>, pos: int, epd: usb::EndpointDescriptor, iface: usb::InterfaceDescriptor) -> bool {
        &&& d.len() - pos >= usb::SS_EP_DESC_SIZE + usb::HEADER_SIZE
        &&& d[pos] == usb::SS_EP_DESC_SIZE + usb::HEADER_SIZE
        &&& d[pos + 1] == usb::DT_SS_ENDPOINT_COMP
        &&& ss_ep_comp_fields_ok(usb::ss_ep_comp_spec(d, pos + 2), epd)
        &&& (Self::uas_iface(iface) ==> ({
            let p2 = pos + usb::HEADER_SIZE + usb::SS_EP_DESC_SIZE;
            &&& d.len() - p2 >= usb::PIPE_DESC_SIZE + usb::HEADER_SIZE
            &&& d[p2] == usb::PIPE_DESC_SIZE + usb::HEADER_SIZE
            &&& d[p2 + 1] == usb::DT_PIPE_USAGE
        }))
    }

    /// What the endpoint subtree starting at `off` (the endpoint
    /// descriptor's fields, past its 2-byte header) must satisfy, given
    /// the device descriptor, the third-party checker's state, and the
    /// model: valid endpoint fields, an accepted third-party pass, the
    /// companion block owed on USB 3, and an installed path for the
    /// owning interface alternate.
    pub open spec fn ep_reply_ok(
        dev: Option<usb::DeviceDescriptor>,
        tp: third_party::Patcher,
        configs: Map<u64, ConfigNode>,
        index: u8,
        iface: usb::InterfaceDescriptor,
        d: Seq<u8>,
        off: int,
    ) -> bool {
        let epd = usb::endpoint_descriptor_spec(d, off);
        &&& off + usb::ENDPOINT_DESC_SIZE <= d.len()
        &&& dev is Some
        &&& endpoint_fields_ok(epd, dev.unwrap())
        &&& third_party::ep_check_accepts(
            tp.patches@,
            tp.satisfied@,
            tp.num_ifs,
            tp.num_eps,
            epd,
            dev.unwrap(),
        )
        &&& (usb_v3_spec(dev.unwrap().bcd_usb) ==> Self::ss_block_ok(
            d,
            off + usb::ENDPOINT_DESC_SIZE,
            epd,
            iface,
        ))
        &&& configs.contains_key(index as u64)
        &&& configs[index as u64].interfaces@.contains_key(iface.interface_number as u64)
        &&& configs[index as u64].interfaces@[iface.interface_number as u64]@.contains_key(
            iface.alternate_setting as u64,
        )
    }

    /// Where the endpoint subtree starting at `off` ends: past the
    /// endpoint fields, and on USB 3 past the companion (and the
    /// pipe-usage descriptor of a UAS interface).
    pub open spec fn ep_subtree_end(d: Seq<u8>, off: int, dev: usb::DeviceDescriptor, iface: usb::InterfaceDescriptor) -> int {
        off + usb::ENDPOINT_DESC_SIZE + (if usb_v3_spec(dev.bcd_usb) {
            usb::HEADER_SIZE + usb::SS_EP_DESC_SIZE + (if Self::uas_iface(iface) {
                usb::HEADER_SIZE + usb::PIPE_DESC_SIZE
            } else {
                0
            })
        } else {
            0
        })
    }

    /// Check the endpoint descriptor starting at `off` (its 2-byte
    /// header already consumed), followed on USB 3 devices by its
    /// SuperSpeed companion and, on a UAS interface, a pipe-usage
    /// descriptor, and install it under its masked address in the model.
    /// Installing an endpoint a second time is a no-op.
    #[verifier::loop_isolation(false)]
    pub fn check_endpoint_desc(&mut self, data: &[u8], iface: usb::InterfaceDescriptor, index: u8, off: &mut usize) -> (r: bool)
        requires
            old(self).wf(),
        ensures
            final(self).wf(),
            r == Self::ep_reply_ok(
                old(self).vdev.desc,
                old(self).third_party,
                old(self).vdev.configs@,
                index,
                iface,
                data@,
                *old(off) as int,
            ),
            ({
                let epd = usb::endpoint_descriptor_spec(data@, *old(off) as int);
                if *old(off) + usb::ENDPOINT_DESC_SIZE <= data@.len() && old(self).vdev.desc
                    is Some && endpoint_fields_ok(epd, old(self).vdev.desc.unwrap()) {
                    ({
                        let st = third_party::ep_check_state(
                            old(self).third_party.patches@,
                            old(self).third_party.satisfied@,
                            old(self).third_party.num_eps,
                            epd,
                            old(self).vdev.desc.unwrap(),
                        );
                        &&& final(self).third_party.satisfied@ == st.0
                        &&& final(self).third_party.num_eps == st.1
                        &&& final(self).third_party.num_ifs == old(self).third_party.num_ifs
                        &&& final(self).third_party.patches == old(self).third_party.patches
                    })
                } else {
                    final(self).third_party == old(self).third_party
                }
            }),
            final(self).vdev.desc == old(self).vdev.desc,
            final(self).vdev.strings@ == old(self).vdev.strings@,
            final(self).vdev.chosen_conf == old(self).vdev.chosen_conf,
            final(self).vdev.chosen_interfaces == old(self).vdev.chosen_interfaces,
            final(self).hid_checks == old(self).hid_checks,
            final(self).bbb_checks == old(self).bbb_checks,
            r ==> *final(off) > *old(off) && *final(off) <= data@.len(),
            r ==> *final(off) == Self::ep_subtree_end(
                data@,
                *old(off) as int,
                old(self).vdev.desc.unwrap(),
                iface,
            ),
            r ==> old(self).vdev.desc is Some && endpoint_fields_ok(
                usb::endpoint_descriptor_spec(data@, *old(off) as int),
                old(self).vdev.desc.unwrap(),
            ),
            r ==> ({
                let epd = usb::endpoint_descriptor_spec(data@, *old(off) as int);
                let key = (epd.endpoint_address & 0x8f) as u64;
                let inum = iface.interface_number as u64;
                let alt = iface.alternate_setting as u64;
                let old_eps = old(self).vdev.configs@[index as u64].interfaces@[inum]@[alt].endpoints@;
                let new_eps = final(self).vdev.configs@[index as u64].interfaces@[inum]@[alt].endpoints@;
                &&& old(self).vdev.configs@.contains_key(index as u64)
                &&& old(self).vdev.configs@[index as u64].interfaces@.contains_key(inum)
                &&& old(self).vdev.configs@[index as u64].interfaces@[inum]@.contains_key(alt)
                &&& new_eps.contains_key(key)
                &&& new_eps[key].desc == (if old_eps.contains_key(key) {
                    old_eps[key].desc
                } else {
                    epd
                })
            }),
            forall|c: u64|
                old(self).vdev.configs@.contains_key(c) ==> final(self).vdev.configs@.contains_key(
                    c,
                ),
            forall|c: u64|
                final(self).vdev.configs@.contains_key(c) ==> old(self).vdev.configs@.contains_key(
                    c,
                ),
            forall|c: u64|
                old(self).vdev.configs@.contains_key(c) && c != index as u64 ==> final(self).vdev.configs@[c] == old(self).vdev.configs@[c],
            old(self).vdev.configs@.contains_key(index as u64) ==> ifaces_preserved(
                old(self).vdev.configs@[index as u64].interfaces@,
                final(self).vdev.configs@[index as u64].interfaces@,
            ),
            old(self).vdev.configs@.contains_key(index as u64) ==> {
                &&& final(self).vdev.configs@[index as u64].desc == old(self).vdev.configs@[index as u64].desc
                &&& final(self).vdev.configs@[index as u64].interfaces@.dom() == old(self).vdev.configs@[index as u64].interfaces@.dom()
                &&& forall|i: u64, a: u64|
                    old(self).vdev.configs@[index as u64].interfaces@.contains_key(i) && old(self).vdev.configs@[index as u64].interfaces@[i]@.contains_key(a) ==> final(self).vdev.configs@[index as u64].interfaces@[i]@.contains_key(a) && (#[trigger] final(self).vdev.configs@[index as u64].interfaces@[i]@[a]).desc == (#[trigger] old(self).vdev.configs@[index as u64].interfaces@[i]@[a]).desc
                &&& forall|i: u64|
                    final(self).vdev.configs@[index as u64].interfaces@.contains_key(i) ==> (
                    #[trigger] final(self).vdev.configs@[index as u64].interfaces@[i])@.dom()
                        == old(self).vdev.configs@[index as u64].interfaces@[i]@.dom()
            },
    {
        let n = data.len();
        if n < *off || n - *off < usb::ENDPOINT_DESC_SIZE {
            return false;
        }
        let ep = usb::parse_endpoint_descriptor(data, *off);
        *off = *off + usb::ENDPOINT_DESC_SIZE;

        let dev = match &self.vdev.desc {
            Some(d) => *d,
            None => {
                return false;
            },
        };
        if !check_endpoint_fields(&ep, &dev) {
            return false;
        }
        if !self.third_party.check_endpoint_fields(&ep, &dev) {
            return false;
        }

        let mut ss_ep: Option<usb::SsEpCompDescriptor> = None;
        let mut pipe: Option<usb::PipeUsageDescriptor> = None;

        let v3 = usb::V3 <= dev.bcd_usb && dev.bcd_usb < 0x0400;
        if v3 {
            if n - *off < usb::SS_EP_DESC_SIZE + usb::HEADER_SIZE {
                return false;
            }
            let header = usb::parse_descriptor_header(data, *off);
            *off = *off + usb::HEADER_SIZE;
            if header.length as usize != usb::SS_EP_DESC_SIZE + usb::HEADER_SIZE
                || header.descriptor_type != usb::DT_SS_ENDPOINT_COMP {
                return false;
            }
            let ss = usb::parse_ss_ep_comp(data, *off);
            *off = *off + usb::SS_EP_DESC_SIZE;
            if !check_ss_ep_comp_fields(&ss, &ep) {
                return false;
            }
            ss_ep = Some(ss);

            // A USB 3 UAS interface carries an extra pipe-usage
            // descriptor after each endpoint.
            if iface.interface_class == usb::CLASS_MASS_STORAGE && iface.interface_subclass == 0x06
                && iface.interface_protocol == 0x62 {
                if n - *off < usb::PIPE_DESC_SIZE + usb::HEADER_SIZE {
                    return false;
                }
                let pipe_h = usb::parse_descriptor_header(data, *off);
                *off = *off + usb::HEADER_SIZE;
                if pipe_h.length as usize != usb::PIPE_DESC_SIZE + usb::HEADER_SIZE
                    || pipe_h.descriptor_type != usb::DT_PIPE_USAGE {
                    return false;
                }
                let p = usb::parse_pipe_usage(data, *off);
                *off = *off + usb::PIPE_DESC_SIZE;
                if !check_pipe_usage_fields(&p) {
                    return false;
                }
                pipe = Some(p);
            }
        }

        // Install the endpoint under its masked address, keeping the
        // first-seen entry. Look the path up read-only first, so that a
        // missing node leaves the model untouched.
        let path_ok = match self.vdev.configs.get(index as u64) {
            Some(c) => match c.interfaces.get(iface.interface_number as u64) {
                Some(a) => a.contains_key(iface.alternate_setting as u64),
                None => false,
            },
            None => false,
        };
        if !path_ok {
            return false;
        }
        let mut cfg = match self.vdev.configs.remove(index as u64) {
            Some(c) => c,
            None => {
                // Unreachable: presence was established above.
                proof {
                    assert(false);
                }
                return false;
            },
        };
        let mut alts = match cfg.interfaces.remove(iface.interface_number as u64) {
            Some(a) => a,
            None => {
                // Unreachable: presence was established above.
                proof {
                    assert(false);
                }
                return false;
            },
        };
        let mut node = match alts.remove(iface.alternate_setting as u64) {
            Some(v) => v,
            None => {
                // Unreachable: presence was established above.
                proof {
                    assert(false);
                }
                return false;
            },
        };
        let ep_key = (ep.endpoint_address & 0x8f) as u64;
        if !node.endpoints.contains_key(ep_key) {
            node.endpoints.set(
                ep_key,
                EndpointNode { desc: ep, ss_desc: ss_ep, pipe_desc: pipe },
            );
        }
        alts.set(iface.alternate_setting as u64, node);
        cfg.interfaces.set(iface.interface_number as u64, alts);
        self.vdev.configs.set(index as u64, cfg);
        proof {
            assert(self.vdev.configs@.dom() =~= old(self).vdev.configs@.dom());
            assert(self.vdev.configs@[index as u64].interfaces@.dom() =~= old(self).vdev.configs@[index as u64].interfaces@.dom());
            assert forall|i: u64|
                self.vdev.configs@[index as u64].interfaces@.contains_key(i) implies (
            #[trigger] self.vdev.configs@[index as u64].interfaces@[i])@.dom() == old(self).vdev.configs@[index as u64].interfaces@[i]@.dom() by {
                if i == iface.interface_number as u64 {
                    assert(self.vdev.configs@[index as u64].interfaces@[i]@.dom() =~= old(self).vdev.configs@[index as u64].interfaces@[i]@.dom());
                }
            }
            assert forall|i: u64, al: u64|
                old(self).vdev.configs@[index as u64].interfaces@.contains_key(i) && (
                #[trigger] old(self).vdev.configs@[index as u64].interfaces@[i]@.contains_key(
                    al,
                )) implies self.vdev.configs@[index as u64].interfaces@[i]@.contains_key(al)
                && self.vdev.configs@[index as u64].interfaces@[i]@[al].desc == old(self).vdev.configs@[index as u64].interfaces@[i]@[al].desc by {
                if i != iface.interface_number as u64 {
                    assert(self.vdev.configs@[index as u64].interfaces@[i] == old(self).vdev.configs@[index as u64].interfaces@[i]);
                } else if al != iface.alternate_setting as u64 {
                    assert(self.vdev.configs@[index as u64].interfaces@[i]@[al] == old(self).vdev.configs@[index as u64].interfaces@[i]@[al]);
                }
            }
            assert(ifaces_preserved(
                old(self).vdev.configs@[index as u64].interfaces@,
                self.vdev.configs@[index as u64].interfaces@,
            ));
        }
        true
    }

    /// The endpoint descriptors owed by an interface, `remaining` of
    /// them from `off` on, threading the third-party checker's counters
    /// through each: every one correctly framed, field-valid, accepted
    /// by the third-party pass, and carrying its companion block on
    /// USB 3.
    pub open spec fn eps_walk_ok(
        dev: usb::DeviceDescriptor,
        patches: Seq<third_party::CompliancePatch>,
        sat: Map<u64, u16>,
        num_ifs: u8,
        num_eps: u8,
        iface: usb::InterfaceDescriptor,
        d: Seq<u8>,
        off: int,
        remaining: int,
    ) -> bool
        decreases remaining when remaining >= 0
    {
        if remaining <= 0 {
            true
        } else {
            let fields = off + usb::HEADER_SIZE;
            let epd = usb::endpoint_descriptor_spec(d, fields);
            let st = third_party::ep_check_state(patches, sat, num_eps, epd, dev);
            &&& d.len() - off >= usb::HEADER_SIZE
            &&& d[off] == usb::ENDPOINT_DESC_SIZE + usb::HEADER_SIZE
            &&& d[off + 1] == usb::DT_ENDPOINT
            &&& fields + usb::ENDPOINT_DESC_SIZE <= d.len()
            &&& endpoint_fields_ok(epd, dev)
            &&& third_party::ep_check_accepts(patches, sat, num_ifs, num_eps, epd, dev)
            &&& (usb_v3_spec(dev.bcd_usb) ==> Self::ss_block_ok(
                d,
                fields + usb::ENDPOINT_DESC_SIZE,
                epd,
                iface,
            ))
            &&& Self::eps_walk_ok(
                dev,
                patches,
                st.0,
                num_ifs,
                st.1,
                iface,
                d,
                Self::ep_subtree_end(d, fields, dev, iface),
                remaining - 1,
            )
        }
    }

    /// Where an interface's own fields and its optional HID descriptor
    /// end and its endpoint descriptors begin.
    pub open spec fn iface_body_start(d: Seq<u8>, off: int, ifd: usb::InterfaceDescriptor) -> int {
        if ifd.interface_class == usb::CLASS_HID {
            off + usb::INTERFACE_DESC_SIZE + usb::HEADER_SIZE + 4 + 3 * (d[off
                + usb::INTERFACE_DESC_SIZE + usb::HEADER_SIZE + 3] as int)
        } else {
            off + usb::INTERFACE_DESC_SIZE
        }
    }

    /// The bytes one endpoint subtree of this interface occupies.
    pub open spec fn per_endpoint_len(dev: usb::DeviceDescriptor, ifd: usb::InterfaceDescriptor) -> int {
        usb::HEADER_SIZE + usb::ENDPOINT_DESC_SIZE + (if usb_v3_spec(dev.bcd_usb) {
            usb::HEADER_SIZE + usb::SS_EP_DESC_SIZE + (if Self::uas_iface(ifd) {
                usb::HEADER_SIZE + usb::PIPE_DESC_SIZE
            } else {
                0
            })
        } else {
            0
        })
    }

    /// What the interface subtree starting at `off` (the interface
    /// descriptor's fields, past its 2-byte header) must satisfy, given
    /// the device descriptor and the third-party checker's state: valid
    /// interface fields, an accepted third-party pass, a supported
    /// class, the HID descriptor a HID interface owes, enough payload
    /// for the promised endpoints, and every endpoint subtree in turn.
    pub open spec fn iface_reply_ok_at(
        dev: Option<usb::DeviceDescriptor>,
        patches: Seq<third_party::CompliancePatch>,
        sat: Map<u64, u16>,
        num_ifs: u8,
        num_eps: u8,
        d: Seq<u8>,
        off: int,
    ) -> bool {
        let ifd = usb::interface_descriptor_spec(d, off);
        let st = third_party::iface_check_state(patches, sat, num_ifs, num_eps, ifd, dev.unwrap());
        let body = Self::iface_body_start(d, off, ifd);
        &&& off + usb::INTERFACE_DESC_SIZE <= d.len()
        &&& dev is Some
        &&& interface_fields_ok(ifd, dev.unwrap())
        &&& third_party::iface_check_accepts(patches, sat, num_ifs, num_eps, ifd, dev.unwrap())
        &&& ifd.interface_class != usb::CLASS_AUDIO
        &&& ifd.interface_class != usb::CLASS_AUDIO_VIDEO
        &&& (ifd.interface_class == usb::CLASS_HID ==> ({
            let hh = off + usb::INTERFACE_DESC_SIZE;
            &&& d.len() - hh >= usb::HEADER_SIZE
            &&& d[hh] >= crate::usb::hid::DESC_MIN_SIZE + usb::HEADER_SIZE
            &&& d[hh + 1] == crate::usb::hid::DT_HID
            &&& hid::hid_desc_reply_ok(
                usb::DescriptorHeader { length: d[hh], descriptor_type: d[hh + 1] },
                d,
                hh + usb::HEADER_SIZE,
            )
        }))
        &&& body <= d.len()
        &&& ((usb_v1_spec(dev.unwrap().bcd_usb) || usb_v2_spec(dev.unwrap().bcd_usb)) ==> (
        ifd.num_endpoints as int) * (usb::ENDPOINT_DESC_SIZE + usb::HEADER_SIZE) <= d.len() - body)
        &&& (usb_v3_spec(dev.unwrap().bcd_usb) ==> (ifd.num_endpoints as int) * (
        usb::ENDPOINT_DESC_SIZE + usb::SS_EP_DESC_SIZE + 2 * usb::HEADER_SIZE) <= d.len() - body)
        &&& Self::eps_walk_ok(
            dev.unwrap(),
            patches,
            st.0,
            st.1,
            st.2,
            ifd,
            d,
            body,
            ifd.num_endpoints as int,
        )
    }

    /// [`ControlCheck::iface_reply_ok_at`] over a third-party checker's
    /// state as carried by the checker itself.
    pub open spec fn iface_reply_ok(
        dev: Option<usb::DeviceDescriptor>,
        tp: third_party::Patcher,
        d: Seq<u8>,
        off: int,
    ) -> bool {
        Self::iface_reply_ok_at(dev, tp.patches@, tp.satisfied@, tp.num_ifs, tp.num_eps, d, off)
    }

    /// The third-party satisfied counts and endpoint counter after the
    /// endpoint walk of an interface: `remaining` endpoint subtrees from
    /// `off` on, each stepping the state once.
    pub open spec fn eps_walk_state(
        dev: usb::DeviceDescriptor,
        patches: Seq<third_party::CompliancePatch>,
        sat: Map<u64, u16>,
        num_eps: u8,
        iface: usb::InterfaceDescriptor,
        d: Seq<u8>,
        off: int,
        remaining: int,
    ) -> (Map<u64, u16>, u8)
        decreases remaining when remaining >= 0
    {
        if remaining <= 0 {
            (sat, num_eps)
        } else {
            let fields = off + usb::HEADER_SIZE;
            let epd = usb::endpoint_descriptor_spec(d, fields);
            let st = third_party::ep_check_state(patches, sat, num_eps, epd, dev);
            Self::eps_walk_state(
                dev,
                patches,
                st.0,
                st.1,
                iface,
                d,
                Self::ep_subtree_end(d, fields, dev, iface),
                remaining - 1,
            )
        }
    }

    /// The third-party state after a whole interface subtree: the
    /// interface pass, then one endpoint pass per endpoint.
    pub open spec fn iface_subtree_state(
        dev: usb::DeviceDescriptor,
        patches: Seq<third_party::CompliancePatch>,
        sat: Map<u64, u16>,
        num_ifs: u8,
        num_eps: u8,
        d: Seq<u8>,
        off: int,
    ) -> (Map<u64, u16>, u8, u8) {
        let ifd = usb::interface_descriptor_spec(d, off);
        let st = third_party::iface_check_state(patches, sat, num_ifs, num_eps, ifd, dev);
        let es = Self::eps_walk_state(
            dev,
            patches,
            st.0,
            st.2,
            ifd,
            d,
            Self::iface_body_start(d, off, ifd),
            ifd.num_endpoints as int,
        );
        (es.0, st.1, es.1)
    }

    /// Where the interface subtree starting at `off` (fields past the
    /// 2-byte header) ends.
    pub open spec fn iface_subtree_end(d: Seq<u8>, off: int, dev: usb::DeviceDescriptor) -> int {
        let ifd = usb::interface_descriptor_spec(d, off);
        Self::iface_body_start(d, off, ifd) + (ifd.num_endpoints as int) * Self::per_endpoint_len(
            dev,
            ifd,
        )
    }

    /// Check the interface descriptor starting at `off` (its 2-byte
    /// header already consumed) and everything it owns: its optional HID
    /// descriptor and its endpoint descriptors. Installs first-seen
    /// entries for the interface, its alternate, and the chosen
    /// alternate. Audio-class interfaces are not supported and are
    /// rejected.
    #[verifier::loop_isolation(false)]
    pub fn check_interface_desc(&mut self, index: u8, data: &[u8], off: &mut usize) -> (r: bool)
        requires
            old(self).wf(),
            old(self).vdev.chosen_conf == Some(index),
            old(self).vdev.configs@.contains_key(index as u64),
        ensures
            final(self).wf(),
            r == Self::iface_reply_ok(
                old(self).vdev.desc,
                old(self).third_party,
                data@,
                *old(off) as int,
            ),
            r ==> *final(off) == Self::iface_subtree_end(
                data@,
                *old(off) as int,
                old(self).vdev.desc.unwrap(),
            ),
            r ==> ({
                let st2 = Self::iface_subtree_state(
                    old(self).vdev.desc.unwrap(),
                    old(self).third_party.patches@,
                    old(self).third_party.satisfied@,
                    old(self).third_party.num_ifs,
                    old(self).third_party.num_eps,
                    data@,
                    *old(off) as int,
                );
                &&& final(self).third_party.satisfied@ == st2.0
                &&& final(self).third_party.num_ifs == st2.1
                &&& final(self).third_party.num_eps == st2.2
                &&& final(self).third_party.patches == old(self).third_party.patches
            }),
            final(self).vdev.desc == old(self).vdev.desc,
            final(self).vdev.strings@ == old(self).vdev.strings@,
            final(self).vdev.chosen_conf == old(self).vdev.chosen_conf,
            final(self).bbb_checks == old(self).bbb_checks,
            final(self).vdev.configs@.contains_key(index as u64),
            final(self).vdev.configs@[index as u64].desc == old(self).vdev.configs@[index as u64].desc,
            forall|c: u64|
                old(self).vdev.configs@.contains_key(c) <==> final(self).vdev.configs@.contains_key(c),
            forall|c: u64|
                old(self).vdev.configs@.contains_key(c) && c != index as u64 ==> final(self).vdev.configs@[c] == old(self).vdev.configs@[c],
            r ==> *final(off) > *old(off) && *final(off) <= data@.len(),
            r ==> old(self).vdev.desc is Some && interface_fields_ok(
                usb::interface_descriptor_spec(data@, *old(off) as int),
                old(self).vdev.desc.unwrap(),
            ),
            r ==> ({
                let ifd = usb::interface_descriptor_spec(data@, *old(off) as int);
                let inum = ifd.interface_number as u64;
                let alt = ifd.alternate_setting as u64;
                &&& final(self).vdev.configs@[index as u64].interfaces@.contains_key(inum)
                &&& final(self).vdev.configs@[index as u64].interfaces@[inum]@.contains_key(alt)
                &&& final(self).vdev.configs@[index as u64].interfaces@[inum]@[alt].desc == (if old(self).vdev.configs@[index as u64].interfaces@.contains_key(inum) && old(self).vdev.configs@[index as u64].interfaces@[inum]@.contains_key(alt) {
                    old(self).vdev.configs@[index as u64].interfaces@[inum]@[alt].desc
                } else {
                    ifd
                })
            }),
            ifaces_preserved(
                old(self).vdev.configs@[index as u64].interfaces@,
                final(self).vdev.configs@[index as u64].interfaces@,
            ),
            forall|i: u64|
                old(self).vdev.chosen_interfaces@.contains_key(i) ==> final(self).vdev.chosen_interfaces@.contains_key(i),
            r ==> ({
                let ifd = usb::interface_descriptor_spec(data@, *old(off) as int);
                let inum = ifd.interface_number as u64;
                if old(self).vdev.chosen_interfaces@.contains_key(inum) {
                    final(self).vdev.chosen_interfaces@ == old(self).vdev.chosen_interfaces@
                        && final(self).vdev.chosen_interfaces.keys() == old(self).vdev.chosen_interfaces.keys()
                } else {
                    final(self).vdev.chosen_interfaces@ == old(self).vdev.chosen_interfaces@.insert(
                        inum,
                        ifd.alternate_setting,
                    ) && final(self).vdev.chosen_interfaces.keys() == old(self).vdev.chosen_interfaces.keys().push(inum)
                }
            }),
    {
        let ghost off0 = *old(off) as int;
        let ghost tp0 = old(self).third_party;
        let n = data.len();
        if n < *off || n - *off < usb::INTERFACE_DESC_SIZE {
            return false;
        }
        let iface = usb::parse_interface_descriptor(data, *off);
        *off = *off + usb::INTERFACE_DESC_SIZE;

        let dev = match &self.vdev.desc {
            Some(d) => *d,
            None => {
                return false;
            },
        };
        if !check_interface_fields(&iface, &dev) {
            return false;
        }
        if !self.third_party.check_iface_fields(&iface, &dev) {
            return false;
        }
        let ghost st = third_party::iface_check_state(
            tp0.patches@,
            tp0.satisfied@,
            tp0.num_ifs,
            tp0.num_eps,
            iface,
            dev,
        );
        proof {
            assert(self.third_party.satisfied@ == st.0 && self.third_party.num_ifs == st.1
                && self.third_party.num_eps == st.2);
        }

        let i_num = iface.interface_number;
        let alt_setting = iface.alternate_setting;

        // Install the interface and alternate, first seen only. A newly
        // seen interface number also records its first alternate as the
        // chosen one.
        let mut cfg = match self.vdev.configs.remove(index as u64) {
            Some(c) => c,
            None => {
                return false;
            },
        };
        let has_iface = cfg.interfaces.contains_key(i_num as u64);
        if !has_iface {
            let mut alts: KvMap<InterfaceNode> = KvMap::new();
            alts.set(
                alt_setting as u64,
                InterfaceNode { desc: iface, endpoints: KvMap::new() },
            );
            cfg.interfaces.set(i_num as u64, alts);
            self.vdev.configs.set(index as u64, cfg);
            proof {
                assert(self.vdev.configs@.dom() =~= old(self).vdev.configs@.dom());
                assert forall|i: u64, a: u64|
                    old(self).vdev.configs@[index as u64].interfaces@.contains_key(i) && (
                    #[trigger] old(self).vdev.configs@[index as u64].interfaces@[i]@.contains_key(
                        a,
                    )) implies self.vdev.configs@[index as u64].interfaces@[i]@.contains_key(a)
                    && self.vdev.configs@[index as u64].interfaces@[i]@[a].desc
                    == old(self).vdev.configs@[index as u64].interfaces@[i]@[a].desc by {
                    assert(i != i_num as u64);
                    assert(self.vdev.configs@[index as u64].interfaces@[i] == old(self).vdev.configs@[index as u64].interfaces@[i]);
                }
                assert(ifaces_preserved(
                    old(self).vdev.configs@[index as u64].interfaces@,
                    self.vdev.configs@[index as u64].interfaces@,
                ));
            }
        } else {
            let mut alts = match cfg.interfaces.remove(i_num as u64) {
                Some(a) => a,
                None => {
                    // Unreachable: the interface map was seen to hold it.
                    proof {
                        assert(false);
                    }
                    return false;
                },
            };
            if !alts.contains_key(alt_setting as u64) {
                alts.set(
                    alt_setting as u64,
                    InterfaceNode { desc: iface, endpoints: KvMap::new() },
                );
            }
            cfg.interfaces.set(i_num as u64, alts);
            self.vdev.configs.set(index as u64, cfg);
            proof {
                assert(self.vdev.configs@.dom() =~= old(self).vdev.configs@.dom());
                assert(self.vdev.configs@[index as u64].interfaces@.dom() =~= old(self).vdev.configs@[index as u64].interfaces@.dom());
                assert forall|i: u64, a: u64|
                    old(self).vdev.configs@[index as u64].interfaces@.contains_key(i) && (
                    #[trigger] old(self).vdev.configs@[index as u64].interfaces@[i]@.contains_key(
                        a,
                    )) implies self.vdev.configs@[index as u64].interfaces@[i]@.contains_key(a)
                    && self.vdev.configs@[index as u64].interfaces@[i]@[a].desc
                    == old(self).vdev.configs@[index as u64].interfaces@[i]@[a].desc by {
                    if i != i_num as u64 {
                        assert(self.vdev.configs@[index as u64].interfaces@[i] == old(self).vdev.configs@[index as u64].interfaces@[i]);
                    } else {
                        assert(self.vdev.configs@[index as u64].interfaces@[i]@.contains_key(a));
                    }
                }
                assert(ifaces_preserved(
                    old(self).vdev.configs@[index as u64].interfaces@,
                    self.vdev.configs@[index as u64].interfaces@,
                ));
            }
        }

        // The first alternate a walk shows for an interface number
        // becomes the chosen one, once per walk.
        if !self.vdev.chosen_interfaces.contains_key(i_num as u64) {
            self.vdev.chosen_interfaces.set(i_num as u64, alt_setting);
        }

        let ghost node_desc0 = self.vdev.configs@[index as u64].interfaces@[i_num as u64]@[alt_setting as u64].desc;
        let ghost chosen1 = self.vdev.chosen_interfaces@;
        let ghost chosen_keys1 = self.vdev.chosen_interfaces.keys();

        // Audio-class interfaces use an extended endpoint layout that is
        // not supported here; reject them so the connection resets.
        if iface.interface_class == usb::CLASS_AUDIO || iface.interface_class
            == usb::CLASS_AUDIO_VIDEO {
            return false;
        }

        // A HID interface inserts its HID descriptor before the
        // endpoint descriptors.
        if iface.interface_class == usb::CLASS_HID {
            if n < *off || n - *off < usb::HEADER_SIZE {
                return false;
            }
            let header = usb::parse_descriptor_header(data, *off);
            *off = *off + usb::HEADER_SIZE;
            if (header.length as usize) < crate::usb::hid::DESC_MIN_SIZE + usb::HEADER_SIZE
                || header.descriptor_type != crate::usb::hid::DT_HID {
                return false;
            }
            if !self.hid_checks.check_hid_desc(&header, data, off, i_num, alt_setting) {
                return false;
            }
            if *off > n {
                return false;
            }
        }

        // Enough payload must remain for all promised endpoints.
        let v1 = usb::V1 <= dev.bcd_usb && dev.bcd_usb < usb::V2;
        let v2 = usb::V2 <= dev.bcd_usb && dev.bcd_usb < usb::V3;
        let v3 = usb::V3 <= dev.bcd_usb && dev.bcd_usb < 0x0400;
        if n < *off {
            return false;
        }
        let per_ep2: usize = usb::ENDPOINT_DESC_SIZE + usb::HEADER_SIZE;
        let per_ep3: usize = usb::ENDPOINT_DESC_SIZE + usb::SS_EP_DESC_SIZE + 2 * usb::HEADER_SIZE;
        if (v1 || v2) && (iface.num_endpoints as usize) * per_ep2 > n - *off {
            return false;
        }
        if v3 && (iface.num_endpoints as usize) * per_ep3 > n - *off {
            return false;
        }

        proof {
            assert(*off as int == Self::iface_body_start(data@, off0, iface));
        }
        let ghost body = Self::iface_body_start(data@, off0, iface);

        // Process each endpoint descriptor.
        let mut e: u8 = 0;
        while e < iface.num_endpoints
            invariant
                e <= iface.num_endpoints,
                self.third_party.patches == tp0.patches,
                Self::iface_reply_ok(old(self).vdev.desc, tp0, data@, off0)
                    == Self::eps_walk_ok(
                    dev,
                    tp0.patches@,
                    self.third_party.satisfied@,
                    self.third_party.num_ifs,
                    self.third_party.num_eps,
                    iface,
                    data@,
                    *off as int,
                    iface.num_endpoints - e,
                ),
                self.third_party.num_ifs == st.1,
                Self::eps_walk_state(
                    dev,
                    tp0.patches@,
                    st.0,
                    st.2,
                    iface,
                    data@,
                    body,
                    iface.num_endpoints as int,
                ) == Self::eps_walk_state(
                    dev,
                    tp0.patches@,
                    self.third_party.satisfied@,
                    self.third_party.num_eps,
                    iface,
                    data@,
                    *off as int,
                    iface.num_endpoints - e,
                ),
                *off as int == body + e * Self::per_endpoint_len(dev, iface),
                self.vdev.desc == Some(dev),
                self.wf(),
                self.vdev.desc == old(self).vdev.desc,
                self.vdev.strings@ == old(self).vdev.strings@,
                self.vdev.chosen_conf == old(self).vdev.chosen_conf,
                self.bbb_checks == old(self).bbb_checks,
                self.vdev.configs@.contains_key(index as u64),
                self.vdev.configs@[index as u64].desc == old(self).vdev.configs@[index as u64].desc,
                forall|c: u64|
                    old(self).vdev.configs@.contains_key(c) <==> self.vdev.configs@.contains_key(
                        c,
                    ),
                forall|c: u64|
                    old(self).vdev.configs@.contains_key(c) && c != index as u64
                        ==> self.vdev.configs@[c] == old(self).vdev.configs@[c],
                forall|i: u64|
                    old(self).vdev.chosen_interfaces@.contains_key(i)
                        ==> self.vdev.chosen_interfaces@.contains_key(i),
                self.vdev.chosen_interfaces@ == chosen1,
                self.vdev.chosen_interfaces.keys() == chosen_keys1,
                ifaces_preserved(
                    old(self).vdev.configs@[index as u64].interfaces@,
                    self.vdev.configs@[index as u64].interfaces@,
                ),
                self.vdev.configs@[index as u64].interfaces@.contains_key(i_num as u64),
                self.vdev.configs@[index as u64].interfaces@[i_num as u64]@.contains_key(
                    alt_setting as u64,
                ),
                self.vdev.configs@[index as u64].interfaces@[i_num as u64]@[alt_setting as u64].desc
                    == node_desc0,
                *old(off) < *off,
                *off <= n,
            decreases iface.num_endpoints - e,
        {
            if n - *off < usb::HEADER_SIZE {
                return false;
            }
            let header = usb::parse_descriptor_header(data, *off);
            *off = *off + usb::HEADER_SIZE;
            if header.length as usize != usb::ENDPOINT_DESC_SIZE + usb::HEADER_SIZE
                || header.descriptor_type != usb::DT_ENDPOINT {
                return false;
            }
            if !self.check_endpoint_desc(data, iface, index, off) {
                return false;
            }
            proof {
                let per = Self::per_endpoint_len(dev, iface);
                assert((e as int + 1) * per == e as int * per + per) by (nonlinear_arith);
            }
            e = e + 1;
            proof {
                assert(ifaces_preserved(
                    old(self).vdev.configs@[index as u64].interfaces@,
                    self.vdev.configs@[index as u64].interfaces@,
                ));
            }
        }
        proof {
            assert(Self::eps_walk_ok(
                dev,
                tp0.patches@,
                self.third_party.satisfied@,
                self.third_party.num_ifs,
                self.third_party.num_eps,
                iface,
                data@,
                *off as int,
                0,
            ));
        }
        true
    }
}


impl ControlCheck {
    /// The descriptors of a configuration tree from `off` on, threading
    /// the third-party checker's state and the chosen interface numbers
    /// through each: every one is an interface subtree or an interface
    /// association, and each newly seen interface number counts once.
    /// Returns whether the walk succeeds and how many distinct
    /// interface numbers it saw.
    pub open spec fn tree_walk(
        dev: usb::DeviceDescriptor,
        patches: Seq<third_party::CompliancePatch>,
        sat: Map<u64, u16>,
        num_ifs: u8,
        num_eps: u8,
        chosen: Set<u64>,
        cnt: int,
        d: Seq<u8>,
        off: int,
    ) -> (bool, int)
        decreases d.len() - off when off <= d.len()
    {
        if off >= d.len() {
            (true, cnt)
        } else if d.len() - off < usb::HEADER_SIZE {
            (false, cnt)
        } else if d[off] == usb::INTERFACE_DESC_SIZE + usb::HEADER_SIZE && d[off + 1]
            == usb::DT_INTERFACE {
            let fields = off + usb::HEADER_SIZE;
            let ifd = usb::interface_descriptor_spec(d, fields);
            if !Self::iface_reply_ok_at(Some(dev), patches, sat, num_ifs, num_eps, d, fields) {
                (false, cnt)
            } else {
                let st2 = Self::iface_subtree_state(dev, patches, sat, num_ifs, num_eps, d, fields);
                let next = Self::iface_subtree_end(d, fields, dev);
                let inum = ifd.interface_number as u64;
                let chosen2 = if chosen.contains(inum) {
                    chosen
                } else {
                    chosen.insert(inum)
                };
                let cnt2 = if chosen.contains(inum) {
                    cnt
                } else {
                    cnt + 1
                };
                if next <= off || next > d.len() {
                    (false, cnt)
                } else {
                    Self::tree_walk(dev, patches, st2.0, st2.1, st2.2, chosen2, cnt2, d, next)
                }
            }
        } else if d[off] == usb::HEADER_SIZE + usb::INTERFACE_ASSOC_DESC_SIZE && d[off + 1]
            == usb::DT_INTERFACE_ASSOCIATION {
            if Self::assoc_ok(d, off) {
                Self::tree_walk(
                    dev,
                    patches,
                    sat,
                    num_ifs,
                    num_eps,
                    chosen,
                    cnt,
                    d,
                    off + usb::HEADER_SIZE + usb::INTERFACE_ASSOC_DESC_SIZE,
                )
            } else {
                (false, cnt)
            }
        } else {
            (false, cnt)
        }
    }

    /// What a configuration-descriptor reply must satisfy. A reply of
    /// exactly the header-plus-configuration size is a probe: its own
    /// fields and the third-party configuration constraints are checked.
    /// A longer reply must carry its declared total length and a tree
    /// whose walk succeeds and covers exactly the promised number of
    /// interfaces.
    pub open spec fn config_reply_ok(
        dev: Option<usb::DeviceDescriptor>,
        tp: third_party::Patcher,
        h: crate::usbr::ControlPacketHeader,
        d: Seq<u8>,
    ) -> bool {
        &&& d.len() >= usb::CONFIG_DESC_SIZE + usb::HEADER_SIZE
        &&& d[0] == usb::CONFIG_DESC_SIZE + usb::HEADER_SIZE
        &&& d[1] == usb::DT_CONFIG
        &&& dev is Some
        &&& ({
            let cfgd = usb::config_descriptor_spec(d, 2);
            if h.length == usb::CONFIG_DESC_SIZE + usb::HEADER_SIZE {
                &&& d.len() == usb::CONFIG_DESC_SIZE + usb::HEADER_SIZE
                &&& config_fields_ok(cfgd, dev.unwrap())
                &&& third_party::config_check_accepts(tp.patches@, cfgd, dev.unwrap())
            } else {
                &&& d.len() == h.length
                &&& d.len() == cfgd.total_length
                &&& config_fields_ok(cfgd, dev.unwrap())
                &&& ({
                    let w = Self::tree_walk(
                        dev.unwrap(),
                        tp.patches@,
                        tp.satisfied@,
                        tp.num_ifs,
                        tp.num_eps,
                        Set::empty(),
                        0,
                        d,
                        usb::CONFIG_DESC_SIZE + usb::HEADER_SIZE,
                    );
                    w.0 && w.1 == cfgd.num_interfaces
                })
            }
        })
    }

    /// Check a configuration-descriptor reply. A reply of exactly nine
    /// bytes is a probe for the configuration header alone; a longer
    /// reply carries the whole configuration tree, whose interface and
    /// endpoint descriptors are walked and installed. Either way the
    /// configuration itself is installed first-seen; a tree walk makes
    /// this configuration the current one and rebuilds the chosen
    /// alternates from the tree, which must finally cover exactly the
    /// number of interfaces the configuration promises.
    #[verifier::loop_isolation(false)]
    pub fn check_config_descriptor(&mut self, h: &crate::usbr::ControlPacketHeader, data: &[u8]) -> (r: bool)
        requires
            old(self).wf(),
        ensures
            final(self).wf(),
            r == Self::config_reply_ok(old(self).vdev.desc, old(self).third_party, *h, data@),
            final(self).vdev.desc == old(self).vdev.desc,
            final(self).vdev.strings@ == old(self).vdev.strings@,
            final(self).bbb_checks == old(self).bbb_checks,
            r ==> {
                &&& data@.len() >= usb::CONFIG_DESC_SIZE + usb::HEADER_SIZE
                &&& data@[0] == usb::CONFIG_DESC_SIZE + usb::HEADER_SIZE
                &&& data@[1] == usb::DT_CONFIG
                &&& old(self).vdev.desc is Some
                &&& config_fields_ok(
                    usb::config_descriptor_spec(data@, 2),
                    old(self).vdev.desc.unwrap(),
                )
            },
            r ==> final(self).vdev.configs@.contains_key((h.value & 0xff) as u64),
            forall|c: u64|
                #[trigger] old(self).vdev.configs@.contains_key(c) ==> final(self).vdev.configs@.contains_key(c),
            forall|c: u64|
                old(self).vdev.configs@.contains_key(c) && c != (h.value & 0xff) as u64 ==> (
                #[trigger] final(self).vdev.configs@[c]) == old(self).vdev.configs@[c],
            final(self).vdev.configs@.contains_key((h.value & 0xff) as u64) && old(self).vdev.configs@.contains_key((h.value & 0xff) as u64) ==> final(self).vdev.configs@[(h.value
                & 0xff) as u64].desc == old(self).vdev.configs@[(h.value & 0xff) as u64].desc,
            old(self).vdev.configs@.contains_key((h.value & 0xff) as u64) ==> ifaces_preserved(
                old(self).vdev.configs@[(h.value & 0xff) as u64].interfaces@,
                final(self).vdev.configs@[(h.value & 0xff) as u64].interfaces@,
            ),
            r && old(self).vdev.configs@.contains_key((h.value & 0xff) as u64) ==> final(self).vdev.configs@[(h.value & 0xff) as u64].desc == old(self).vdev.configs@[(h.value
                & 0xff) as u64].desc,
            r && !old(self).vdev.configs@.contains_key((h.value & 0xff) as u64) ==> final(self).vdev.configs@[(h.value & 0xff) as u64].desc == usb::config_descriptor_spec(data@, 2),
            r && h.length != usb::CONFIG_DESC_SIZE + usb::HEADER_SIZE ==> {
                &&& data@.len() == h.length
                &&& data@.len() == le16(data@, 2)
                &&& final(self).vdev.chosen_conf == Some((h.value & 0xff) as u8)
                &&& final(self).vdev.chosen_interfaces.keys().len() == usb::config_descriptor_spec(
                    data@,
                    2,
                ).num_interfaces
            },
    {
        let n = data.len();
        if n < usb::CONFIG_DESC_SIZE + usb::HEADER_SIZE {
            return false;
        }
        let header = usb::parse_descriptor_header(data, 0);
        if header.length as usize != usb::CONFIG_DESC_SIZE + usb::HEADER_SIZE
            || header.descriptor_type != usb::DT_CONFIG {
            return false;
        }
        let config = usb::parse_config_descriptor(data, 2);
        let index = low_byte(h.value);

        let dev = match &self.vdev.desc {
            Some(d) => *d,
            None => {
                return false;
            },
        };

        if h.length as usize == usb::CONFIG_DESC_SIZE + usb::HEADER_SIZE {
            // A probe for the configuration header alone.
            if n != usb::CONFIG_DESC_SIZE + usb::HEADER_SIZE {
                return false;
            }
            if !check_config_fields(&config, &dev) {
                return false;
            }
            if !self.third_party.check_config_fields(&config, &dev) {
                return false;
            }
            if !self.vdev.configs.contains_key(index as u64) {
                self.vdev.configs.set(
                    index as u64,
                    ConfigNode { desc: config, interfaces: KvMap::new() },
                );
                self.vdev.chosen_conf = Some(index);
                self.vdev.chosen_interfaces = KvMap::new();
            }
            return true;
        }

        // The whole configuration tree.
        if n != h.length as usize {
            return false;
        }
        if n != config.total_length as usize {
            return false;
        }
        if !check_config_fields(&config, &dev) {
            return false;
        }

        if !self.vdev.configs.contains_key(index as u64) {
            self.vdev.configs.set(
                index as u64,
                ConfigNode { desc: config, interfaces: KvMap::new() },
            );
        }
        // Walking a tree re-chooses this configuration and rebuilds the
        // chosen alternates from what the tree declares.
        self.vdev.chosen_conf = Some(index);
        self.vdev.chosen_interfaces = KvMap::new();

        let ghost tp0 = old(self).third_party;
        proof {
            assert(self.vdev.chosen_interfaces@.dom() =~= Set::<u64>::empty());
        }
        let mut off: usize = usb::CONFIG_DESC_SIZE + usb::HEADER_SIZE;
        while off < n
            invariant
                self.wf(),
                self.vdev.desc == old(self).vdev.desc,
                self.vdev.desc == Some(dev),
                self.vdev.strings@ == old(self).vdev.strings@,
                self.bbb_checks == old(self).bbb_checks,
                self.vdev.chosen_conf == Some(index),
                self.vdev.configs@.contains_key(index as u64),
                self.vdev.configs@[index as u64].desc == (if old(self).vdev.configs@.contains_key(index as u64) {
                    old(self).vdev.configs@[index as u64].desc
                } else {
                    config
                }),
                forall|c: u64|
                    #[trigger] old(self).vdev.configs@.contains_key(c)
                        ==> self.vdev.configs@.contains_key(c),
                forall|c: u64|
                    old(self).vdev.configs@.contains_key(c) && c != index as u64 ==> (
                    #[trigger] self.vdev.configs@[c]) == old(self).vdev.configs@[c],
                old(self).vdev.configs@.contains_key(index as u64) ==> ifaces_preserved(
                    old(self).vdev.configs@[index as u64].interfaces@,
                    self.vdev.configs@[index as u64].interfaces@,
                ),
                self.third_party.patches == tp0.patches,
                Self::tree_walk(
                    dev,
                    tp0.patches@,
                    tp0.satisfied@,
                    tp0.num_ifs,
                    tp0.num_eps,
                    Set::empty(),
                    0,
                    data@,
                    usb::CONFIG_DESC_SIZE + usb::HEADER_SIZE,
                ) == Self::tree_walk(
                    dev,
                    tp0.patches@,
                    self.third_party.satisfied@,
                    self.third_party.num_ifs,
                    self.third_party.num_eps,
                    self.vdev.chosen_interfaces@.dom(),
                    self.vdev.chosen_interfaces.keys().len() as int,
                    data@,
                    off as int,
                ),
                off <= n,
            decreases n - off,
        {
            if n - off < usb::HEADER_SIZE {
                return false;
            }
            let ghost obh = off as int;
            let i_hdr = usb::parse_descriptor_header(data, off);
            if i_hdr.length as usize == usb::INTERFACE_DESC_SIZE + usb::HEADER_SIZE
                && i_hdr.descriptor_type == usb::DT_INTERFACE {
                off = off + usb::HEADER_SIZE;
                if !self.check_interface_desc(index, data, &mut off) {
                    return false;
                }
                proof {
                    assert(off as int == Self::iface_subtree_end(data@, obh + 2, dev));
                    assert(off as int > obh + 2 && off as int <= n as int);
                    if old(self).vdev.configs@.contains_key(index as u64) {
                        assert(ifaces_preserved(
                            old(self).vdev.configs@[index as u64].interfaces@,
                            self.vdev.configs@[index as u64].interfaces@,
                        ));
                    }
                }
            } else if i_hdr.length as usize == usb::HEADER_SIZE + usb::INTERFACE_ASSOC_DESC_SIZE
                && i_hdr.descriptor_type == usb::DT_INTERFACE_ASSOCIATION {
                if !self.check_interface_assoc_desc(data, &mut off) {
                    return false;
                }
            } else {
                return false;
            }
        }

        // The walk must have covered exactly the promised interfaces.
        if self.vdev.chosen_interfaces.len() != config.num_interfaces as usize {
            return false;
        }
        true
    }

    /// The device-capability descriptors of a BOS reply, `remaining` of
    /// them from `off` on: each correctly framed and passing the field
    /// rules of its capability type. Wireless capabilities are not
    /// supported and refused.
    pub open spec fn bos_caps_ok(
        dev: Option<usb::DeviceDescriptor>,
        d: Seq<u8>,
        off: int,
        remaining: int,
    ) -> bool
        decreases remaining when remaining >= 0
    {
        if remaining <= 0 {
            true
        } else {
            &&& d.len() - off >= usb::HEADER_SIZE
            &&& d[off + 1] == usb::DT_DEVICE_CAPABILITY
            &&& d.len() - off - usb::HEADER_SIZE >= usb::DEV_CAP_HEADER_SIZE
            &&& {
                let t_len = d[off];
                let cap = d[off + 2];
                let body = off + usb::HEADER_SIZE + usb::DEV_CAP_HEADER_SIZE;
                if cap == usb::CAP_TYPE_EXT {
                    &&& t_len == usb::HEADER_SIZE + usb::DEV_CAP_HEADER_SIZE
                        + usb::CAP_TYPE_EXT_SIZE
                    &&& d.len() - body >= usb::CAP_TYPE_EXT_SIZE
                    &&& dev is Some
                    &&& cap_ext_fields_ok(
                        usb::ExtCapDescriptor { attributes: le32(d, body) },
                        dev.unwrap().bcd_usb,
                    )
                    &&& Self::bos_caps_ok(dev, d, body + usb::CAP_TYPE_EXT_SIZE, remaining - 1)
                } else if cap == usb::CAP_TYPE_SS {
                    &&& t_len == usb::HEADER_SIZE + usb::DEV_CAP_HEADER_SIZE
                        + usb::CAP_TYPE_SS_SIZE
                    &&& d.len() - body >= usb::CAP_TYPE_SS_SIZE
                    &&& cap_ss_fields_ok(usb::ss_cap_spec(d, body))
                    &&& Self::bos_caps_ok(dev, d, body + usb::CAP_TYPE_SS_SIZE, remaining - 1)
                } else if cap == usb::CAP_TYPE_CONTAINER_ID {
                    &&& t_len == usb::HEADER_SIZE + usb::DEV_CAP_HEADER_SIZE
                        + usb::CAP_TYPE_CONTAINER_SIZE
                    &&& d.len() - body >= usb::CAP_TYPE_CONTAINER_SIZE
                    &&& d[body] == 0
                    &&& Self::bos_caps_ok(dev, d, body + usb::CAP_TYPE_CONTAINER_SIZE, remaining - 1)
                } else {
                    false
                }
            }
        }
    }

    /// What a BOS reply must look like: its header, then each
    /// device-capability descriptor passing its type's field rules. A
    /// reply holding only the BOS header is a length probe.
    pub open spec fn bos_ok(dev: Option<usb::DeviceDescriptor>, d: Seq<u8>) -> bool {
        &&& d.len() >= usb::HEADER_SIZE
        &&& d[0] == usb::BOS_DESC_SIZE + usb::HEADER_SIZE
        &&& d[1] == usb::DT_BOS
        &&& if d.len() == usb::BOS_DESC_SIZE + usb::HEADER_SIZE {
            true
        } else {
            &&& d.len() >= usb::BOS_DESC_SIZE + usb::HEADER_SIZE
            &&& d.len() >= le16(d, 2)
            &&& Self::bos_caps_ok(
                dev,
                d,
                usb::BOS_DESC_SIZE + usb::HEADER_SIZE,
                d[4] as int,
            )
        }
    }

    /// Check a BOS reply; see [`ControlCheck::bos_ok`].
    #[verifier::loop_isolation(false)]
    pub fn check_bos_desc(&self, data: &[u8]) -> (r: bool)
        requires
            self.wf(),
        ensures
            r == Self::bos_ok(self.vdev.desc, data@),
    {
        let n = data.len();
        if n < usb::HEADER_SIZE {
            return false;
        }
        let header = usb::parse_descriptor_header(data, 0);
        if header.length as usize != usb::BOS_DESC_SIZE + usb::HEADER_SIZE
            || header.descriptor_type != usb::DT_BOS {
            return false;
        }
        if n == usb::BOS_DESC_SIZE + usb::HEADER_SIZE {
            // Only the header: a probe to learn the total length.
            return true;
        }
        if n < usb::BOS_DESC_SIZE + usb::HEADER_SIZE {
            return false;
        }
        let bos = usb::parse_bos_descriptor(data, 2);
        if n < bos.total_length as usize {
            return false;
        }
        let total_caps = data[4];
        let mut off: usize = usb::BOS_DESC_SIZE + usb::HEADER_SIZE;
        let mut c: u8 = 0;
        while c < total_caps
            invariant
                off <= n,
                c <= total_caps,
                n == data@.len(),
                Self::bos_caps_ok(
                    self.vdev.desc,
                    data@,
                    usb::BOS_DESC_SIZE + usb::HEADER_SIZE,
                    total_caps as int,
                ) == Self::bos_caps_ok(
                    self.vdev.desc,
                    data@,
                    off as int,
                    total_caps - c,
                ),
            decreases total_caps - c,
        {
            if n - off < usb::HEADER_SIZE {
                return false;
            }
            let t_header = usb::parse_descriptor_header(data, off);
            off = off + usb::HEADER_SIZE;
            if t_header.descriptor_type != usb::DT_DEVICE_CAPABILITY || n - off
                < usb::DEV_CAP_HEADER_SIZE {
                return false;
            }
            let cap_type = data[off];
            off = off + usb::DEV_CAP_HEADER_SIZE;
            if cap_type == usb::CAP_TYPE_WIRELESS {
                // Wireless capability checks are not supported; reject so
                // the connection resets.
                return false;
            } else if cap_type == usb::CAP_TYPE_EXT {
                if t_header.length as usize != usb::HEADER_SIZE + usb::DEV_CAP_HEADER_SIZE
                    + usb::CAP_TYPE_EXT_SIZE {
                    return false;
                }
                if n - off < usb::CAP_TYPE_EXT_SIZE {
                    return false;
                }
                let ext = usb::parse_ext_cap(data, off);
                off = off + usb::CAP_TYPE_EXT_SIZE;
                let dev = match &self.vdev.desc {
                    Some(d) => *d,
                    None => {
                        return false;
                    },
                };
                if !check_cap_ext_fields(&ext, dev.bcd_usb) {
                    return false;
                }
            } else if cap_type == usb::CAP_TYPE_SS {
                if t_header.length as usize != usb::HEADER_SIZE + usb::DEV_CAP_HEADER_SIZE
                    + usb::CAP_TYPE_SS_SIZE {
                    return false;
                }
                if n - off < usb::CAP_TYPE_SS_SIZE {
                    return false;
                }
                let ss = usb::parse_ss_cap(data, off);
                off = off + usb::CAP_TYPE_SS_SIZE;
                if !check_cap_ss_fields(&ss) {
                    return false;
                }
            } else if cap_type == usb::CAP_TYPE_CONTAINER_ID {
                if t_header.length as usize != usb::HEADER_SIZE + usb::DEV_CAP_HEADER_SIZE
                    + usb::CAP_TYPE_CONTAINER_SIZE {
                    return false;
                }
                if n - off < usb::CAP_TYPE_CONTAINER_SIZE {
                    return false;
                }
                let reserved = data[off];
                off = off + usb::CAP_TYPE_CONTAINER_SIZE;
                if reserved != 0 {
                    return false;
                }
            } else {
                return false;
            }
            c = c + 1;
        }
        true
    }

    /// Whether the current configuration holds an endpoint whose masked
    /// address has number `ep_low` and direction bit `dir`.
    pub open spec fn model_has_endpoint(cfg: ConfigNode, ep_low: u8, dir: u8) -> bool {
        exists|i: u64, a: u64, k: u64|
            cfg.interfaces@.contains_key(i) && cfg.interfaces@[i]@.contains_key(a) && (#[trigger] cfg.interfaces@[i]@[a].endpoints@.contains_key(k)) && k & 0x0f == ep_low as u64 && k & 0x80
                == dir as u64
    }

    /// What a debug-descriptor reply must look like: correct framing,
    /// and both named debug endpoints present in the current
    /// configuration with the right directions.
    pub open spec fn dbg_ok(vdev: VirtualDevice, d: Seq<u8>) -> bool {
        &&& d.len() == usb::HEADER_SIZE + usb::DEBUG_DESC_SIZE
        &&& d[0] == usb::DEBUG_DESC_SIZE + usb::HEADER_SIZE
        &&& d[1] == usb::DT_DEBUG
        &&& vdev.chosen_conf is Some
        &&& vdev.configs@.contains_key(vdev.chosen_conf.unwrap() as u64)
        &&& Self::model_has_endpoint(
            vdev.configs@[vdev.chosen_conf.unwrap() as u64],
            d[2],
            usb::DIR_IN,
        )
        &&& Self::model_has_endpoint(
            vdev.configs@[vdev.chosen_conf.unwrap() as u64],
            d[3],
            usb::DIR_OUT,
        )
    }

    /// Check a debug-descriptor reply; see [`ControlCheck::dbg_ok`].
    #[verifier::loop_isolation(false)]
    #[verifier::rlimit(60)]
    pub fn check_dbg_desc(&self, data: &[u8]) -> (r: bool)
        requires
            self.wf(),
        ensures
            r == Self::dbg_ok(self.vdev, data@),
    {
        let n = data.len();
        if n < usb::HEADER_SIZE {
            return false;
        }
        let header = usb::parse_descriptor_header(data, 0);
        if header.length as usize != usb::DEBUG_DESC_SIZE + usb::HEADER_SIZE
            || header.descriptor_type != usb::DT_DEBUG {
            return false;
        }
        if n != usb::HEADER_SIZE + usb::DEBUG_DESC_SIZE {
            return false;
        }
        let debug_in = data[2];
        let debug_out = data[3];

        let cc = match self.vdev.chosen_conf {
            Some(c) => c,
            None => {
                return false;
            },
        };
        let cfg = match self.vdev.configs.get(cc as u64) {
            Some(c) => c,
            None => {
                return false;
            },
        };

        // Scan every endpoint of the current configuration for the two
        // debug endpoints.
        let mut found_ep_in = false;
        let mut found_ep_out = false;
        let ni = cfg.interfaces.len();
        let mut i: usize = 0;
        proof {
            cfg.interfaces.lemma_keys();
        }
        while i < ni
            invariant
                self.wf(),
                *cfg == self.vdev.configs@[cc as u64],
                self.vdev.configs@.contains_key(cc as u64),
                ni == cfg.interfaces.keys().len(),
                i <= ni,
                found_ep_in ==> Self::model_has_endpoint(*cfg, debug_in, usb::DIR_IN),
                found_ep_out ==> Self::model_has_endpoint(*cfg, debug_out, usb::DIR_OUT),
                !found_ep_in ==> forall|ii: int, a: u64, k: u64|
                    0 <= ii < i && cfg.interfaces@[cfg.interfaces.keys()[ii]]@.contains_key(a) && (
                    #[trigger] cfg.interfaces@[cfg.interfaces.keys()[ii]]@[a].endpoints@.contains_key(
                        k,
                    )) ==> !(k & 0x0f == debug_in as u64 && k & 0x80 == usb::DIR_IN as u64),
                !found_ep_out ==> forall|ii: int, a: u64, k: u64|
                    0 <= ii < i && cfg.interfaces@[cfg.interfaces.keys()[ii]]@.contains_key(a) && (
                    #[trigger] cfg.interfaces@[cfg.interfaces.keys()[ii]]@[a].endpoints@.contains_key(
                        k,
                    )) ==> !(k & 0x0f == debug_out as u64 && k & 0x80 == usb::DIR_OUT as u64),
            decreases ni - i,
        {
            let ghost ikey = cfg.interfaces.keys()[i as int];
            let alts = cfg.interfaces.val_at(i);
            let na = alts.len();
            let mut a: usize = 0;
            proof {
                alts.lemma_keys();
            }
            while a < na
                invariant
                    self.wf(),
                    *cfg == self.vdev.configs@[cc as u64],
                    self.vdev.configs@.contains_key(cc as u64),
                    ikey == cfg.interfaces.keys()[i as int],
                    i < cfg.interfaces.keys().len(),
                    *alts == cfg.interfaces@[ikey],
                    cfg.interfaces@.contains_key(ikey),
                    na == alts.keys().len(),
                    a <= na,
                    found_ep_in ==> Self::model_has_endpoint(*cfg, debug_in, usb::DIR_IN),
                    found_ep_out ==> Self::model_has_endpoint(*cfg, debug_out, usb::DIR_OUT),
                    !found_ep_in ==> forall|ii: int, av: u64, k: u64|
                        0 <= ii < i && cfg.interfaces@[cfg.interfaces.keys()[ii]]@.contains_key(
                            av,
                        ) && (#[trigger] cfg.interfaces@[cfg.interfaces.keys()[ii]]@[av].endpoints@.contains_key(
                            k,
                        )) ==> !(k & 0x0f == debug_in as u64 && k & 0x80 == usb::DIR_IN as u64),
                    !found_ep_out ==> forall|ii: int, av: u64, k: u64|
                        0 <= ii < i && cfg.interfaces@[cfg.interfaces.keys()[ii]]@.contains_key(
                            av,
                        ) && (#[trigger] cfg.interfaces@[cfg.interfaces.keys()[ii]]@[av].endpoints@.contains_key(
                            k,
                        )) ==> !(k & 0x0f == debug_out as u64 && k & 0x80 == usb::DIR_OUT as u64),
                    !found_ep_in ==> forall|aa: int, k: u64|
                        0 <= aa < a && (#[trigger] alts@[alts.keys()[aa]].endpoints@.contains_key(
                            k,
                        )) ==> !(k & 0x0f == debug_in as u64 && k & 0x80 == usb::DIR_IN as u64),
                    !found_ep_out ==> forall|aa: int, k: u64|
                        0 <= aa < a && (#[trigger] alts@[alts.keys()[aa]].endpoints@.contains_key(
                            k,
                        )) ==> !(k & 0x0f == debug_out as u64 && k & 0x80 == usb::DIR_OUT as u64),
                decreases na - a,
            {
                let ghost akey = alts.keys()[a as int];
                let node = alts.val_at(a);
                let ne = node.endpoints.len();
                let mut e: usize = 0;
                proof {
                    node.endpoints.lemma_keys();
                }
                while e < ne
                    invariant
                        ikey == cfg.interfaces.keys()[i as int],
                        akey == alts.keys()[a as int],
                        a < alts.keys().len(),
                        *node == alts@[akey],
                        alts@.contains_key(akey),
                        *alts == cfg.interfaces@[ikey],
                        cfg.interfaces@.contains_key(ikey),
                        ne == node.endpoints.keys().len(),
                        node.endpoints.inv(),
                        e <= ne,
                        found_ep_in ==> Self::model_has_endpoint(*cfg, debug_in, usb::DIR_IN),
                        found_ep_out ==> Self::model_has_endpoint(*cfg, debug_out, usb::DIR_OUT),
                        !found_ep_in ==> forall|ii: int, av: u64, k: u64|
                            0 <= ii < i && cfg.interfaces@[cfg.interfaces.keys()[ii]]@.contains_key(
                                av,
                            ) && (#[trigger] cfg.interfaces@[cfg.interfaces.keys()[ii]]@[av].endpoints@.contains_key(
                                k,
                            )) ==> !(k & 0x0f == debug_in as u64 && k & 0x80 == usb::DIR_IN as u64),
                        !found_ep_out ==> forall|ii: int, av: u64, k: u64|
                            0 <= ii < i && cfg.interfaces@[cfg.interfaces.keys()[ii]]@.contains_key(
                                av,
                            ) && (#[trigger] cfg.interfaces@[cfg.interfaces.keys()[ii]]@[av].endpoints@.contains_key(
                                k,
                            )) ==> !(k & 0x0f == debug_out as u64 && k & 0x80 == usb::DIR_OUT as u64),
                        !found_ep_in ==> forall|aa: int, k: u64|
                            0 <= aa < a && (#[trigger] alts@[alts.keys()[aa]].endpoints@.contains_key(
                                k,
                            )) ==> !(k & 0x0f == debug_in as u64 && k & 0x80 == usb::DIR_IN
                                as u64),
                        !found_ep_out ==> forall|aa: int, k: u64|
                            0 <= aa < a && (#[trigger] alts@[alts.keys()[aa]].endpoints@.contains_key(
                                k,
                            )) ==> !(k & 0x0f == debug_out as u64 && k & 0x80 == usb::DIR_OUT
                                as u64),
                        !found_ep_in ==> forall|ee: int|
                            0 <= ee < e ==> !((#[trigger] node.endpoints.keys()[ee]) & 0x0f
                                == debug_in as u64 && node.endpoints.keys()[ee] & 0x80
                                == usb::DIR_IN as u64),
                        !found_ep_out ==> forall|ee: int|
                            0 <= ee < e ==> !((#[trigger] node.endpoints.keys()[ee]) & 0x0f
                                == debug_out as u64 && node.endpoints.keys()[ee] & 0x80
                                == usb::DIR_OUT as u64),
                    decreases ne - e,
                {
                    let ep_key = node.endpoints.key_at(e);
                    let key_low = (ep_key & 0x0f) as u8;
                    let key_dir = (ep_key & 0x80) as u8;
                    proof {
                        assert(ep_key & 0x0f < 256 && ep_key & 0x80 < 256) by (bit_vector);
                    }
                    if !found_ep_in && key_low == debug_in && key_dir == usb::DIR_IN {
                        found_ep_in = true;
                    } else if !found_ep_out && key_low == debug_out && key_dir == usb::DIR_OUT {
                        found_ep_out = true;
                    }
                    e = e + 1;
                }
                proof {
                    node.endpoints.lemma_keys();
                    if !found_ep_in {
                        assert forall|k: u64|
                            #[trigger] node.endpoints@.contains_key(k) implies !(k & 0x0f
                            == debug_in as u64 && k & 0x80 == usb::DIR_IN as u64) by {
                            let ee = choose|ee: int|
                                0 <= ee < node.endpoints.keys().len() && (
                                #[trigger] node.endpoints.keys()[ee]) == k;
                        }
                    }
                    if !found_ep_out {
                        assert forall|k: u64|
                            #[trigger] node.endpoints@.contains_key(k) implies !(k & 0x0f
                            == debug_out as u64 && k & 0x80 == usb::DIR_OUT as u64) by {
                            let ee = choose|ee: int|
                                0 <= ee < node.endpoints.keys().len() && (
                                #[trigger] node.endpoints.keys()[ee]) == k;
                        }
                    }
                }
                a = a + 1;
            }
            proof {
                alts.lemma_keys();
                if !found_ep_in {
                    assert forall|aa: u64, k: u64|
                        alts@.contains_key(aa) && (#[trigger] alts@[aa].endpoints@.contains_key(
                            k,
                        )) implies !(k & 0x0f == debug_in as u64 && k & 0x80 == usb::DIR_IN
                        as u64) by {
                        let idx = choose|idx: int|
                            0 <= idx < alts.keys().len() && (#[trigger] alts.keys()[idx]) == aa;
                    }
                }
                if !found_ep_out {
                    assert forall|aa: u64, k: u64|
                        alts@.contains_key(aa) && (#[trigger] alts@[aa].endpoints@.contains_key(
                            k,
                        )) implies !(k & 0x0f == debug_out as u64 && k & 0x80 == usb::DIR_OUT
                        as u64) by {
                        let idx = choose|idx: int|
                            0 <= idx < alts.keys().len() && (#[trigger] alts.keys()[idx]) == aa;
                    }
                }
                if !found_ep_in {
                    assert forall|ii: int, av: u64, k: u64|
                        0 <= ii < i + 1 && cfg.interfaces@[cfg.interfaces.keys()[ii]]@.contains_key(
                            av,
                        ) && (#[trigger] cfg.interfaces@[cfg.interfaces.keys()[ii]]@[av].endpoints@.contains_key(
                            k,
                        )) implies !(k & 0x0f == debug_in as u64 && k & 0x80 == usb::DIR_IN
                        as u64) by {
                        if ii == i as int {
                            assert(cfg.interfaces.keys()[ii] == ikey);
                            assert(cfg.interfaces@[ikey] == *alts);
                            assert(alts@.contains_key(av));
                            assert(alts@[av].endpoints@.contains_key(k));
                        }
                    }
                }
                if !found_ep_out {
                    assert forall|ii: int, av: u64, k: u64|
                        0 <= ii < i + 1 && cfg.interfaces@[cfg.interfaces.keys()[ii]]@.contains_key(
                            av,
                        ) && (#[trigger] cfg.interfaces@[cfg.interfaces.keys()[ii]]@[av].endpoints@.contains_key(
                            k,
                        )) implies !(k & 0x0f == debug_out as u64 && k & 0x80 == usb::DIR_OUT
                        as u64) by {
                        if ii == i as int {
                            assert(cfg.interfaces.keys()[ii] == ikey);
                            assert(cfg.interfaces@[ikey] == *alts);
                            assert(alts@.contains_key(av));
                            assert(alts@[av].endpoints@.contains_key(k));
                        }
                    }
                }
            }
            i = i + 1;
        }
        proof {
            cfg.interfaces.lemma_keys();
            if !found_ep_in {
                assert(!Self::model_has_endpoint(*cfg, debug_in, usb::DIR_IN)) by {
                    if Self::model_has_endpoint(*cfg, debug_in, usb::DIR_IN) {
                        let (wi, wa, wk): (u64, u64, u64) = choose|wi: u64, wa: u64, wk: u64|
                            cfg.interfaces@.contains_key(wi) && cfg.interfaces@[wi]@.contains_key(
                                wa,
                            ) && (#[trigger] cfg.interfaces@[wi]@[wa].endpoints@.contains_key(wk))
                                && wk & 0x0f == debug_in as u64 && wk & 0x80 == usb::DIR_IN as u64;
                        let idx = choose|idx: int|
                            0 <= idx < cfg.interfaces.keys().len() && (
                            #[trigger] cfg.interfaces.keys()[idx]) == wi;
                        assert(cfg.interfaces@[cfg.interfaces.keys()[idx]]@.contains_key(wa));
                        assert(cfg.interfaces@[cfg.interfaces.keys()[idx]]@[wa].endpoints@.contains_key(wk));
                    }
                }
            }
            if !found_ep_out {
                assert(!Self::model_has_endpoint(*cfg, debug_out, usb::DIR_OUT)) by {
                    if Self::model_has_endpoint(*cfg, debug_out, usb::DIR_OUT) {
                        let (wi, wa, wk): (u64, u64, u64) = choose|wi: u64, wa: u64, wk: u64|
                            cfg.interfaces@.contains_key(wi) && cfg.interfaces@[wi]@.contains_key(
                                wa,
                            ) && (#[trigger] cfg.interfaces@[wi]@[wa].endpoints@.contains_key(wk))
                                && wk & 0x0f == debug_out as u64 && wk & 0x80 == usb::DIR_OUT
                                as u64;
                        let idx = choose|idx: int|
                            0 <= idx < cfg.interfaces.keys().len() && (
                            #[trigger] cfg.interfaces.keys()[idx]) == wi;
                        assert(cfg.interfaces@[cfg.interfaces.keys()[idx]]@.contains_key(wa));
                        assert(cfg.interfaces@[cfg.interfaces.keys()[idx]]@[wa].endpoints@.contains_key(wk));
                    }
                }
            }
        }
        found_ep_in && found_ep_out
    }

    /// The verdict on a GET_DESCRIPTOR reply: a failed request must
    /// carry no data; device-recipient replies are validated per
    /// descriptor family; interface-recipient replies require a chosen
    /// current interface and dispatch on its class, where only HID has
    /// checks; other recipients are refused.
    pub open spec fn get_descriptor_ok(
        vdev: VirtualDevice,
        hid_descs: Map<u64, crate::usb::hid::HidDescriptor>,
        tp: third_party::Patcher,
        h: crate::usbr::ControlPacketHeader,
        d: Seq<u8>,
    ) -> bool {
        if (h.requesttype & usb::RECIP_MASK) == usb::RECIP_DEVICE {
            if h.status != 0 {
                d.len() == 0
            } else {
                let kind = (h.value >> 8) as u8;
                if kind == usb::DT_DEVICE {
                    Self::device_desc_ok(h, d)
                } else if kind == usb::DT_CONFIG {
                    Self::config_reply_ok(vdev.desc, tp, h, d)
                } else if kind == usb::DT_STRING {
                    Self::string_desc_ok(h, d)
                } else if kind == usb::DT_DEVICE_QUALIFIER {
                    Self::device_qual_ok(vdev.desc, d)
                } else if kind == usb::DT_OTHER_SPEED_CONFIG {
                    Self::other_speed_ok(vdev.desc, d)
                } else if kind == usb::DT_INTERFACE_POWER {
                    &&& d.len() >= usb::HEADER_SIZE
                    &&& d[0] == usb::INTERFACE_POWER_DESC_SIZE + usb::HEADER_SIZE
                    &&& d[1] == usb::DT_INTERFACE_POWER
                } else if kind == usb::DT_OTG {
                    Self::otg_ok(d)
                } else if kind == usb::DT_DEBUG {
                    Self::dbg_ok(vdev, d)
                } else if kind == usb::DT_BOS {
                    Self::bos_ok(vdev.desc, d)
                } else {
                    false
                }
            }
        } else if (h.requesttype & usb::RECIP_MASK) == usb::RECIP_INTERFACE {
            let idx = (h.index & 0xff) as u64;
            if vdev.chosen_conf is Some && vdev.configs@.contains_key(
                vdev.chosen_conf.unwrap() as u64,
            ) && vdev.chosen_interfaces@.contains_key(idx) {
                let node = vdev.configs@[vdev.chosen_conf.unwrap() as u64].interfaces@[idx]@[vdev.chosen_interfaces@[idx] as u64];
                if node.desc.interface_class == usb::CLASS_HID {
                    hid::hid_get_desc_ok(
                        hid_descs,
                        h,
                        d,
                        node.desc.interface_number,
                        node.desc.alternate_setting,
                    )
                } else {
                    true
                }
            } else {
                false
            }
        } else {
            false
        }
    }

    /// Dispatch a GET_DESCRIPTOR reply; see
    /// [`ControlCheck::get_descriptor_ok`]. Whatever the reply installs,
    /// it installs first-seen: the device descriptor, every stored
    /// configuration's descriptor and interface tree, and every stored
    /// string survive unchanged, and only a configuration tree touches
    /// the chosen configuration and alternates.
    pub fn check_get_descriptor(&mut self, h: &crate::usbr::ControlPacketHeader, data: &[u8]) -> (r: bool)
        requires
            old(self).wf(),
        ensures
            final(self).wf(),
            r == Self::get_descriptor_ok(
                old(self).vdev,
                old(self).hid_checks.descs@,
                old(self).third_party,
                *h,
                data@,
            ),
            old(self).vdev.desc is Some ==> final(self).vdev.desc == old(self).vdev.desc,
            forall|c: u64|
                old(self).vdev.configs@.contains_key(c) ==> final(self).vdev.configs@.contains_key(
                    c,
                ) && (#[trigger] final(self).vdev.configs@[c]).desc == old(self).vdev.configs@[c].desc,
            forall|c: u64|
                #[trigger] old(self).vdev.configs@.contains_key(c) ==> ifaces_preserved(
                    old(self).vdev.configs@[c].interfaces@,
                    final(self).vdev.configs@[c].interfaces@,
                ),
            forall|k: u64|
                #[trigger] old(self).vdev.strings@.contains_key(k) ==> final(self).vdev.strings@.contains_key(k) && final(self).vdev.strings@[k] == old(self).vdev.strings@[k],
            ((h.requesttype & usb::RECIP_MASK) != usb::RECIP_DEVICE || (h.value >> 8) as u8
                != usb::DT_CONFIG || h.status != 0) ==> (final(self).vdev.chosen_conf == old(self).vdev.chosen_conf && final(self).vdev.chosen_interfaces@ == old(self).vdev.chosen_interfaces@),
            ((h.requesttype & usb::RECIP_MASK) == usb::RECIP_INTERFACE) ==> ({
                let idx = (h.index & 0xff) as u64;
                let present = old(self).vdev.chosen_conf is Some
                    && old(self).vdev.configs@.contains_key(
                    old(self).vdev.chosen_conf.unwrap() as u64,
                ) && old(self).vdev.chosen_interfaces@.contains_key(idx);
                &&& !present ==> r == false && *final(self) == *old(self)
                &&& present ==> ({
                    let node = old(self).vdev.configs@[old(self).vdev.chosen_conf.unwrap()
                        as u64].interfaces@[idx]@[old(self).vdev.chosen_interfaces@[idx] as u64];
                    &&& final(self).vdev == old(self).vdev
                    &&& final(self).bbb_checks == old(self).bbb_checks
                    &&& final(self).third_party == old(self).third_party
                    &&& (node.desc.interface_class != usb::CLASS_HID ==> r == true && final(self).hid_checks == old(self).hid_checks)
                    &&& (node.desc.interface_class == usb::CLASS_HID ==> r
                        == hid::hid_get_desc_ok(
                        old(self).hid_checks.descs@,
                        *h,
                        data@,
                        node.desc.interface_number,
                        node.desc.alternate_setting,
                    ))
                })
            }),
    {
        if (h.requesttype & usb::RECIP_MASK) == usb::RECIP_DEVICE {
            if h.status != 0 {
                // Not a success: the reply must be empty.
                return data.len() == 0;
            }
            let kind = (h.value >> 8) as u8;
            if kind == usb::DT_DEVICE {
                self.check_device_descriptor(h, data)
            } else if kind == usb::DT_CONFIG {
                self.check_config_descriptor(h, data)
            } else if kind == usb::DT_STRING {
                self.check_string_descriptor(h, data)
            } else if kind == usb::DT_INTERFACE {
                false
            } else if kind == usb::DT_ENDPOINT {
                false
            } else if kind == usb::DT_DEVICE_QUALIFIER {
                self.check_device_qual_descriptor(data)
            } else if kind == usb::DT_OTHER_SPEED_CONFIG {
                self.check_other_speed_descriptor(data)
            } else if kind == usb::DT_INTERFACE_POWER {
                self.check_interface_power_desc(data)
            } else if kind == usb::DT_OTG {
                self.check_otg_desc(data)
            } else if kind == usb::DT_DEBUG {
                self.check_dbg_desc(data)
            } else if kind == usb::DT_INTERFACE_ASSOCIATION {
                false
            } else if kind == usb::DT_BOS {
                self.check_bos_desc(data)
            } else if kind == usb::DT_DEVICE_CAPABILITY {
                false
            } else if kind == usb::DT_SS_ENDPOINT_COMP {
                false
            } else {
                false
            }
        } else if (h.requesttype & usb::RECIP_MASK) == usb::RECIP_INTERFACE {
            let (iclass, inum, alt) = match self.current_interface(low_byte(h.index)) {
                Some(node) => (
                    node.desc.interface_class,
                    node.desc.interface_number,
                    node.desc.alternate_setting,
                ),
                None => {
                    return false;
                },
            };
            if iclass == usb::CLASS_HID {
                if !self.hid_checks.check_hid_get_desc(h, data, inum, alt) {
                    return false;
                }
            }
            // Descriptors of other classes carry no checks here.
            true
        } else {
            false
        }
    }
}


impl ControlCheck {
    /// The port a control packet routes to: `NO_MATCH` when every check
    /// that applies to it passes, `MATCH_PORT` when one classifies it
    /// invalid. Standard requests are checked per request code against
    /// the model; class requests dispatch on the current interface's
    /// class (HID, mass storage, printer); vendor and reserved request
    /// types, unknown standard requests, and class requests without a
    /// chosen current interface are matched.
    pub open spec fn control_packet_port(cc: ControlCheck, source: Source, req: Request) -> u8 {
        if req.type_header@.len() < crate::usbr::CONTROL_PACKET_HEADER_SIZE {
            MATCH_PORT
        } else {
            let h = crate::usbr::control_packet_header_spec(req.type_header@);
            let d = req.data@;
            let tin = (h.requesttype & usb::DIR_IN) == usb::DIR_IN;
            let fr = source == Source::Red;
            let rt = h.requesttype & usb::TYPE_MASK;
            if rt == usb::TYPE_STANDARD {
                if h.request == usb::REQ_GET_STATUS {
                    if tin && fr && !get_status_ok(h, d) {
                        MATCH_PORT
                    } else {
                        NO_MATCH
                    }
                } else if h.request == usb::REQ_CLEAR_FEATURE {
                    if !tin && d.len() != 0 {
                        MATCH_PORT
                    } else {
                        NO_MATCH
                    }
                } else if h.request == usb::REQ_SET_FEATURE {
                    if !tin && d.len() != 0 {
                        MATCH_PORT
                    } else {
                        NO_MATCH
                    }
                } else if h.request == usb::REQ_GET_DESCRIPTOR {
                    if tin && fr && !Self::get_descriptor_ok(
                        cc.vdev,
                        cc.hid_checks.descs@,
                        cc.third_party,
                        h,
                        d,
                    ) {
                        MATCH_PORT
                    } else {
                        NO_MATCH
                    }
                } else if h.request == usb::REQ_SET_DESCRIPTOR {
                    if !tin && fr && d.len() != 0 {
                        MATCH_PORT
                    } else {
                        NO_MATCH
                    }
                } else if h.request == usb::REQ_GET_CONFIGURATION {
                    if tin && fr && !Self::get_config_ok(cc.vdev, d) {
                        MATCH_PORT
                    } else {
                        NO_MATCH
                    }
                } else if h.request == usb::REQ_SET_CONFIGURATION {
                    if !tin && fr && d.len() != 0 {
                        MATCH_PORT
                    } else {
                        NO_MATCH
                    }
                } else if h.request == usb::REQ_GET_INTERFACE {
                    if !tin && fr && !Self::get_interface_ok(cc.vdev, h, d) {
                        MATCH_PORT
                    } else {
                        NO_MATCH
                    }
                } else if h.request == usb::REQ_SET_INTERFACE {
                    if !tin && fr && d.len() != 0 {
                        MATCH_PORT
                    } else {
                        NO_MATCH
                    }
                } else if h.request == usb::REQ_SYNCH_FRAME {
                    if tin && fr && d.len() != 2 {
                        MATCH_PORT
                    } else {
                        NO_MATCH
                    }
                } else if h.request == usb::REQ_SET_ADDRESS {
                    if !tin && fr && d.len() != 0 {
                        MATCH_PORT
                    } else {
                        NO_MATCH
                    }
                } else {
                    MATCH_PORT
                }
            } else if rt == usb::TYPE_CLASS {
                let idx = (h.index & 0xff) as u64;
                if cc.vdev.chosen_conf is Some && cc.vdev.configs@.contains_key(
                    cc.vdev.chosen_conf.unwrap() as u64,
                ) && cc.vdev.chosen_interfaces@.contains_key(idx) {
                    let node = cc.vdev.configs@[cc.vdev.chosen_conf.unwrap() as u64].interfaces@[idx]@[cc.vdev.chosen_interfaces@[idx] as u64];
                    if node.desc.interface_class == usb::CLASS_HID {
                        if hid::hid_request_ok(h, d, source) {
                            NO_MATCH
                        } else {
                            MATCH_PORT
                        }
                    } else if node.desc.interface_class == usb::CLASS_MASS_STORAGE
                        && node.desc.interface_protocol == crate::usb::bbb::PR_BBB {
                        if bbb::bbb_request_verdict(cc.bbb_checks, h, d, source) {
                            NO_MATCH
                        } else {
                            MATCH_PORT
                        }
                    } else if node.desc.interface_class == usb::CLASS_PRINTER {
                        if printer::printer_request_ok(h, d, source) {
                            NO_MATCH
                        } else {
                            MATCH_PORT
                        }
                    } else {
                        NO_MATCH
                    }
                } else {
                    MATCH_PORT
                }
            } else {
                MATCH_PORT
            }
        }
    }

    /// Inspect one control packet and route it: `NO_MATCH` forwards, a
    /// match routes to the reset terminal; the port is exactly
    /// [`ControlCheck::control_packet_port`]. Whatever the verdict, the
    /// request itself flows on unchanged, alone, and everything the
    /// model had installed survives; only a configuration tree, a
    /// guest-sourced configuration or interface choice, and the
    /// mass-storage command state ever change it.
    pub fn check_control_packet(&mut self, source: Source, req: Request) -> (r: (
        u8,
        Vec<Request>,
    ))
        requires
            old(self).wf(),
            req.wf(),
        ensures
            final(self).wf(),
            r.0 == NO_MATCH || r.0 == MATCH_PORT,
            r.1@.len() == 1,
            r.1@[0] == req,
            r.0 == Self::control_packet_port(*old(self), source, req),
            old(self).vdev.desc is Some ==> final(self).vdev.desc == old(self).vdev.desc,
            forall|c: u64|
                old(self).vdev.configs@.contains_key(c) ==> final(self).vdev.configs@.contains_key(
                    c,
                ) && (#[trigger] final(self).vdev.configs@[c]).desc == old(self).vdev.configs@[c].desc,
            forall|c: u64|
                #[trigger] old(self).vdev.configs@.contains_key(c) ==> ifaces_preserved(
                    old(self).vdev.configs@[c].interfaces@,
                    final(self).vdev.configs@[c].interfaces@,
                ),
            forall|k: u64|
                #[trigger] old(self).vdev.strings@.contains_key(k) ==> final(self).vdev.strings@.contains_key(k) && final(self).vdev.strings@[k] == old(self).vdev.strings@[k],
            ({
                let h = crate::usbr::control_packet_header_spec(req.type_header@);
                let rt = h.requesttype & usb::TYPE_MASK;
                &&& ((req.type_header@.len() >= crate::usbr::CONTROL_PACKET_HEADER_SIZE && rt
                    == usb::TYPE_STANDARD && h.request == usb::REQ_SET_CONFIGURATION && source
                    == Source::Blue) ==> ({
                    let keys = old(self).vdev.configs.keys();
                    let li = Self::last_config_match(
                        keys,
                        old(self).vdev.configs@,
                        (h.value & 0xff) as u8,
                        keys.len() as int,
                    );
                    if li == -1 {
                        *final(self) == *old(self)
                    } else {
                        &&& final(self).vdev.chosen_conf == Some(keys[li] as u8)
                        &&& (if old(self).vdev.chosen_conf == Some(keys[li] as u8) {
                            final(self).vdev.chosen_interfaces@ == old(self).vdev.chosen_interfaces@
                        } else {
                            final(self).vdev.chosen_interfaces@ == Map::<u64, u8>::empty()
                        })
                    }
                }))
                &&& ((req.type_header@.len() >= crate::usbr::CONTROL_PACKET_HEADER_SIZE && rt
                    == usb::TYPE_STANDARD && h.request == usb::REQ_SET_INTERFACE && source
                    == Source::Blue) ==> ({
                    let inum = (h.index & 0xff) as u64;
                    let alt = (h.value & 0xff) as u8;
                    if old(self).vdev.chosen_interfaces@.contains_key(inum) && old(self).vdev.configs@[old(self).vdev.chosen_conf.unwrap() as u64].interfaces@[inum]@.contains_key(
                        alt as u64,
                    ) {
                        final(self).vdev.chosen_interfaces@ == old(self).vdev.chosen_interfaces@.insert(inum, alt)
                    } else {
                        final(self).vdev.chosen_interfaces@ == old(self).vdev.chosen_interfaces@
                    }
                }))
                &&& ((req.type_header@.len() >= crate::usbr::CONTROL_PACKET_HEADER_SIZE && rt
                    == usb::TYPE_STANDARD && h.request != usb::REQ_GET_DESCRIPTOR && h.request
                    != usb::REQ_SET_CONFIGURATION && h.request != usb::REQ_SET_INTERFACE) ==> *final(self) == *old(self))
                &&& ((req.type_header@.len() >= crate::usbr::CONTROL_PACKET_HEADER_SIZE && rt
                    != usb::TYPE_STANDARD && rt != usb::TYPE_CLASS) ==> *final(self) == *old(self))
                &&& ((req.type_header@.len() >= crate::usbr::CONTROL_PACKET_HEADER_SIZE && rt
                    == usb::TYPE_CLASS) ==> (final(self).vdev == old(self).vdev && final(self).hid_checks == old(self).hid_checks && final(self).third_party == old(self).third_party))
                &&& (req.type_header@.len() < crate::usbr::CONTROL_PACKET_HEADER_SIZE ==> *final(self) == *old(self))
            }),
    {
        if req.type_header.len() < crate::usbr::CONTROL_PACKET_HEADER_SIZE {
            return (MATCH_PORT, vec![req]);
        }
        let h = crate::usbr::parse_control_packet_header(req.type_header.as_slice());

        let transfer_in = (h.requesttype & usb::DIR_IN) == usb::DIR_IN;
        let req_type = h.requesttype & usb::TYPE_MASK;
        let from_red = matches!(source, Source::Red);

        if req_type == usb::TYPE_STANDARD {
            if h.request == usb::REQ_GET_STATUS {
                if transfer_in && from_red && !check_get_status(&h, req.data.as_slice()) {
                    return (MATCH_PORT, vec![req]);
                }
            } else if h.request == usb::REQ_CLEAR_FEATURE {
                if !transfer_in && req.data.len() != 0 {
                    return (MATCH_PORT, vec![req]);
                }
            } else if h.request == usb::REQ_SET_FEATURE {
                if !transfer_in && req.data.len() != 0 {
                    return (MATCH_PORT, vec![req]);
                }
            } else if h.request == usb::REQ_GET_DESCRIPTOR {
                if transfer_in && from_red && !self.check_get_descriptor(
                    &h,
                    req.data.as_slice(),
                ) {
                    return (MATCH_PORT, vec![req]);
                }
            } else if h.request == usb::REQ_SET_DESCRIPTOR {
                if !transfer_in && from_red && req.data.len() != 0 {
                    return (MATCH_PORT, vec![req]);
                }
            } else if h.request == usb::REQ_GET_CONFIGURATION {
                if transfer_in && from_red && !self.check_get_config(req.data.as_slice()) {
                    return (MATCH_PORT, vec![req]);
                }
            } else if h.request == usb::REQ_SET_CONFIGURATION {
                if !transfer_in && from_red && req.data.len() != 0 {
                    return (MATCH_PORT, vec![req]);
                }
                if matches!(source, Source::Blue) {
                    self.update_config(&h);
                }
            } else if h.request == usb::REQ_GET_INTERFACE {
                if !transfer_in && from_red && !self.check_get_interface(&h, req.data.as_slice()) {
                    return (MATCH_PORT, vec![req]);
                }
            } else if h.request == usb::REQ_SET_INTERFACE {
                if !transfer_in && from_red && req.data.len() != 0 {
                    return (MATCH_PORT, vec![req]);
                }
                if matches!(source, Source::Blue) {
                    self.update_interface(&h);
                }
            } else if h.request == usb::REQ_SYNCH_FRAME {
                if transfer_in && from_red && req.data.len() != 2 {
                    return (MATCH_PORT, vec![req]);
                }
            } else if h.request == usb::REQ_SET_ADDRESS {
                if !transfer_in && from_red && req.data.len() != 0 {
                    return (MATCH_PORT, vec![req]);
                }
            } else {
                return (MATCH_PORT, vec![req]);
            }
        } else if req_type == usb::TYPE_CLASS {
            let (iclass, iproto) = match self.current_interface(low_byte(h.index)) {
                Some(node) => (node.desc.interface_class, node.desc.interface_protocol),
                None => {
                    return (MATCH_PORT, vec![req]);
                },
            };
            if iclass == usb::CLASS_HID {
                if !hid::check_hid_request(&h, req.data.as_slice(), source) {
                    return (MATCH_PORT, vec![req]);
                }
            } else if iclass == usb::CLASS_MASS_STORAGE {
                if iproto == crate::usb::bbb::PR_BBB {
                    if !self.bbb_checks.check_bbb_request(&h, req.data.as_slice(), source) {
                        return (MATCH_PORT, vec![req]);
                    }
                }
            } else if iclass == usb::CLASS_PRINTER {
                if !printer::check_printer_request(&h, req.data.as_slice(), source) {
                    return (MATCH_PORT, vec![req]);
                }
            }
            // Requests of other classes carry no checks here.
        } else {
            // Vendor and reserved request types are refused.
            return (MATCH_PORT, vec![req]);
        }

        (NO_MATCH, vec![req])
    }
}

impl crate::parser::HasHandlers for ControlCheck {
    /// The stage is well formed exactly when its model and
    /// sub-validators are.
    open spec fn inv(&self) -> bool {
        self.wf()
    }

    /// The validator inspects control packets and passes everything
    /// else through.
    open spec fn passes_through(h_type: u32) -> bool {
        h_type != crate::usbr::TYPE_CONTROL_PACKET
    }

    /// The validator inspects control packets only; every other message
    /// type uses the forwarding defaults. On a match the packet routes
    /// to port 1 carrying exactly the one input request, unchanged.
    fn handle_control_packet(&mut self, source: Source, req: Request) -> (r: Option<(
        u8,
        Vec<Request>,
    )>)
        ensures
            r matches Some(o) && (o.0 == NO_MATCH || o.0 == MATCH_PORT) && o.1@.len() == 1
                && o.1@[0] == req,
            r matches Some(o) && o.0 == Self::control_packet_port(*old(self), source, req),
    {
        Some(self.check_control_packet(source, req))
    }
}

} // verus!
