//! Constants and structures of the USB human-interface-device class: the
//! HID descriptor, its class descriptors, and report items.

use vstd::prelude::*;

verus! {

// HID descriptor types.
pub const DT_HID: u8 = 0x21;
pub const DT_HID_REPORT: u8 = 0x22;
pub const DT_HID_PHYSICAL: u8 = 0x23;

// Class request values.
pub const GET_REPORT: u8 = 0x01;
pub const GET_IDLE: u8 = 0x02;
pub const GET_PROT: u8 = 0x03;

pub const SET_REPORT: u8 = 0x09;
pub const SET_IDLE: u8 = 0x0a;
pub const SET_PROT: u8 = 0x0b;

/// One class descriptor named inside a HID descriptor.
#[derive(Copy, Clone)]
pub struct HidClassDescriptor {
    pub descriptor_type: u8,
    pub descriptor_length: u16,
}

pub const CLASS_DESC_SIZE: usize = 3;

/// A HID descriptor: header fields plus at least one class descriptor.
pub struct HidDescriptor {
    pub bcd_hid: u16,
    pub country_code: u8,
    pub num_descriptors: u8,
    pub desc: Vec<HidClassDescriptor>,
}

pub const DESC_MIN_SIZE: usize = 7;

// Masks over the one-byte report-item attribute:
// size = bits 0-1, type = bits 2-3, tag = bits 4-7 (tag 0xf selects the
// long item format).
pub const ITEM_SIZE_MASK: u8 = 0x03;
pub const ITEM_TYPE_MASK: u8 = 0x0c;
pub const ITEM_TAG_MASK: u8 = 0xf0;
pub const ITEM_LONG_TAG: u8 = 0xf0;

// Report item types.
pub const ITEM_MAIN: u8 = 0;
pub const ITEM_GLOBAL: u8 = 1;
pub const ITEM_LOCAL: u8 = 2;

// Main tag types.
pub const TAG_INPUT: u8 = 0x08;
pub const TAG_OUTPUT: u8 = 0x09;
pub const TAG_COLLECTION: u8 = 0x0a;
pub const TAG_FEATURE: u8 = 0x0b;
pub const TAG_END_COLLECTION: u8 = 0x0c;

// Global tag types.
pub const TAG_USAGE_PAGE: u8 = 0x00;
pub const TAG_LOGIC_MIN: u8 = 0x01;
pub const TAG_LOGIC_MAX: u8 = 0x02;
pub const TAG_PHYS_MIN: u8 = 0x03;
pub const TAG_PHYS_MAX: u8 = 0x04;
pub const TAG_UNIT_EXP: u8 = 0x05;
pub const TAG_UNIT: u8 = 0x06;
pub const TAG_REPORT_SIZE: u8 = 0x07;
pub const TAG_REPORT_ID: u8 = 0x08;
pub const TAG_REPORT_COUNT: u8 = 0x09;
pub const TAG_PUSH: u8 = 0x0a;
pub const TAG_POP: u8 = 0x0b;

// Local tag types.
pub const TAG_USAGE: u8 = 0x00;
pub const TAG_USAGE_MIN: u8 = 0x01;
pub const TAG_USAGE_MAX: u8 = 0x02;
pub const TAG_DESIGN_IDX: u8 = 0x03;
pub const TAG_DESIGN_MIN: u8 = 0x04;
pub const TAG_DESIGN_MAX: u8 = 0x05;
pub const TAG_STRING_IDX: u8 = 0x07;
pub const TAG_STRING_MAX: u8 = 0x09;
pub const TAG_DELIM: u8 = 0x0a;

/// One report item: its attribute byte and the optional data that
/// follows it.
pub struct HidReportItem {
    pub attributes: u8,
    pub data: Vec<u8>,
}

pub const REPORT_MIN_SIZE: usize = 1;

} // verus!
