//! The human-interface-device validator: tracks the HID descriptor of
//! each interface alternate and walks report descriptors item by item,
//! checking the reserved-bit rules of every item kind.

use vstd::prelude::*;
use crate::bytes::{le16, le32, read_u16_le, read_u32_le};
use crate::kvmap::{first_seen_insert, KvMap};
use crate::parser::Source;
use crate::usb;
use crate::usb::hid;
use crate::usbr::ControlPacketHeader;

verus! {

/// The key under which an interface alternate's HID descriptor is stored.
pub open spec fn hid_key_spec(inum: u8, alt: u8) -> u64 {
    ((inum as u64) * 256 + (alt as u64)) as u64
}

/// The key under which an interface alternate's HID descriptor is stored.
pub fn hid_key(inum: u8, alt: u8) -> (r: u64)
    ensures
        r == hid_key_spec(inum, alt),
{
    (inum as u64) * 256 + (alt as u64)
}

/// What a HID descriptor's own fields must satisfy: a BCD version, a
/// known country code, at least one class descriptor, the advertised
/// length matching the class-descriptor count, and every class
/// descriptor a report descriptor of sane length (physical descriptors
/// are not supported).
pub open spec fn hid_desc_fields_ok(h: usb::DescriptorHeader, desc_len: int, bcd_hid: u16, country_code: u8, num_descriptors: u8, descs: Seq<hid::HidClassDescriptor>) -> bool {
    &&& crate::control_checks::check_bcd_spec(bcd_hid)
    &&& country_code <= 35
    &&& num_descriptors >= 1
    &&& h.length == usb::HEADER_SIZE + hid::DESC_MIN_SIZE + (num_descriptors - 1)
        * hid::CLASS_DESC_SIZE
    &&& descs.len() >= 1
    &&& forall|i: int|
        0 <= i < descs.len() ==> ((#[trigger] descs[i]).descriptor_type == hid::DT_HID_REPORT && 1
            <= descs[i].descriptor_length <= 258)
}

/// The reserved-bit rules of one short report item, per its type and tag.
pub open spec fn hid_item_fields_ok(attributes: u8, data: Seq<u8>) -> bool {
    let item_type = (attributes & hid::ITEM_TYPE_MASK) >> 2;
    let tag = (attributes & hid::ITEM_TAG_MASK) >> 4;
    if item_type == hid::ITEM_MAIN {
        if tag == hid::TAG_INPUT {
            &&& data.len() > 0 ==> (data[0] & 0x80) == 0
            &&& data.len() > 1 ==> (data[1] & 0xfe) == 0
            &&& forall|i: int| 2 <= i < data.len() ==> #[trigger] data[i] == 0
        } else if tag == hid::TAG_OUTPUT || tag == hid::TAG_FEATURE {
            &&& data.len() > 1 ==> (data[1] & 0xfe) == 0
            &&& forall|i: int| 2 <= i < data.len() ==> #[trigger] data[i] == 0
        } else if tag == hid::TAG_COLLECTION {
            &&& data.len() == 1
            &&& !(0x07 <= data[0] <= 0x7f)
        } else if tag == hid::TAG_END_COLLECTION {
            data.len() == 0
        } else {
            false
        }
    } else if item_type == hid::ITEM_GLOBAL {
        if tag == hid::TAG_REPORT_ID {
            &&& data.len() > 0
            &&& !(data.len() == 4 && le32(data, 0) == 0)
            &&& !(data.len() == 2 && le16(data, 0) == 0)
            &&& !(data.len() == 1 && data[0] == 0)
        } else {
            tag == hid::TAG_USAGE_PAGE || tag == hid::TAG_LOGIC_MIN || tag == hid::TAG_LOGIC_MAX
                || tag == hid::TAG_PHYS_MIN || tag == hid::TAG_PHYS_MAX || tag == hid::TAG_UNIT_EXP
                || tag == hid::TAG_UNIT || tag == hid::TAG_REPORT_SIZE || tag
                == hid::TAG_REPORT_COUNT || tag == hid::TAG_PUSH || tag == hid::TAG_POP
        }
    } else if item_type == hid::ITEM_LOCAL {
        tag == hid::TAG_USAGE || tag == hid::TAG_USAGE_MIN || tag == hid::TAG_USAGE_MAX || tag
            == hid::TAG_DESIGN_IDX || tag == hid::TAG_DESIGN_MIN || tag == hid::TAG_DESIGN_MAX
            || tag == hid::TAG_STRING_IDX || tag == hid::TAG_STRING_MAX || tag == hid::TAG_DELIM
    } else {
        false
    }
}

/// Check one short item's data against the reserved-bit rules; see
/// [`hid_item_fields_ok`].
fn check_hid_item_fields(item: &hid::HidReportItem) -> (r: bool)
    ensures
        r == hid_item_fields_ok(item.attributes, item.data@),
{
    let item_type = (item.attributes & hid::ITEM_TYPE_MASK) >> 2;
    let tag = (item.attributes & hid::ITEM_TAG_MASK) >> 4;
    let n = item.data.len();
    if item_type == hid::ITEM_MAIN {
        if tag == hid::TAG_INPUT {
            if n > 0 && (item.data[0] & 0x80) != 0 {
                return false;
            }
            if n > 1 && (item.data[1] & 0xfe) != 0 {
                return false;
            }
            let mut i: usize = 2;
            while i < n
                invariant
                    2 <= i <= n || (n < 2 && i == 2),
                    n == item.data@.len(),
                    (item.attributes & hid::ITEM_TYPE_MASK) >> 2 == hid::ITEM_MAIN,
                    (item.attributes & hid::ITEM_TAG_MASK) >> 4 == hid::TAG_INPUT,
                    forall|j: int| 2 <= j < i ==> #[trigger] item.data@[j] == 0,
                decreases n - i,
            {
                if item.data[i] != 0 {
                    return false;
                }
                i = i + 1;
            }
            true
        } else if tag == hid::TAG_OUTPUT || tag == hid::TAG_FEATURE {
            if n > 1 && (item.data[1] & 0xfe) != 0 {
                return false;
            }
            let mut i: usize = 2;
            while i < n
                invariant
                    2 <= i <= n || (n < 2 && i == 2),
                    n == item.data@.len(),
                    (item.attributes & hid::ITEM_TYPE_MASK) >> 2 == hid::ITEM_MAIN,
                    (item.attributes & hid::ITEM_TAG_MASK) >> 4 == hid::TAG_OUTPUT || (
                    item.attributes & hid::ITEM_TAG_MASK) >> 4 == hid::TAG_FEATURE,
                    forall|j: int| 2 <= j < i ==> #[trigger] item.data@[j] == 0,
                decreases n - i,
            {
                if item.data[i] != 0 {
                    return false;
                }
                i = i + 1;
            }
            true
        } else if tag == hid::TAG_COLLECTION {
            if n != 1 {
                return false;
            }
            if item.data[0] >= 0x07 && item.data[0] <= 0x7f {
                return false;
            }
            true
        } else if tag == hid::TAG_END_COLLECTION {
            n == 0
        } else {
            false
        }
    } else if item_type == hid::ITEM_GLOBAL {
        if tag == hid::TAG_REPORT_ID {
            if n == 0 {
                return false;
            }
            if (n == 4 && read_u32_le(item.data.as_slice(), 0) == 0) || (n == 2 && read_u16_le(
                item.data.as_slice(),
                0,
            ) == 0) || (n == 1 && item.data[0] == 0) {
                return false;
            }
            true
        } else {
            tag == hid::TAG_USAGE_PAGE || tag == hid::TAG_LOGIC_MIN || tag == hid::TAG_LOGIC_MAX
                || tag == hid::TAG_PHYS_MIN || tag == hid::TAG_PHYS_MAX || tag == hid::TAG_UNIT_EXP
                || tag == hid::TAG_UNIT || tag == hid::TAG_REPORT_SIZE || tag
                == hid::TAG_REPORT_COUNT || tag == hid::TAG_PUSH || tag == hid::TAG_POP
        }
    } else if item_type == hid::ITEM_LOCAL {
        tag == hid::TAG_USAGE || tag == hid::TAG_USAGE_MIN || tag == hid::TAG_USAGE_MAX || tag
            == hid::TAG_DESIGN_IDX || tag == hid::TAG_DESIGN_MIN || tag == hid::TAG_DESIGN_MAX
            || tag == hid::TAG_STRING_IDX || tag == hid::TAG_STRING_MAX || tag == hid::TAG_DELIM
    } else {
        false
    }
}

/// The per-request rules of the HID class control requests.
pub open spec fn hid_request_ok(h: ControlPacketHeader, data: Seq<u8>, source: Source) -> bool {
    if h.request == hid::GET_REPORT {
        source != Source::Blue ==> {
            &&& (h.value >> 8) < 0x0004
            &&& h.length == data.len()
        }
    } else if h.request == hid::GET_IDLE {
        source != Source::Blue ==> {
            &&& h.length == 1
            &&& (h.value >> 8) == 0
        }
    } else if h.request == hid::GET_PROT {
        source != Source::Blue ==> {
            &&& h.length == 1
            &&& h.value == 0
            &&& data.len() == 1
            &&& data[0] <= 1
        }
    } else if h.request == hid::SET_REPORT {
        source != Source::Blue ==> data.len() == 0
    } else if h.request == hid::SET_IDLE {
        source != Source::Blue ==> data.len() == 0
    } else if h.request == hid::SET_PROT {
        source != Source::Blue ==> {
            &&& h.value <= 1
            &&& data.len() == 0
        }
    } else {
        false
    }
}

/// Check a HID class control request; see [`hid_request_ok`].
pub fn check_hid_request(h: &ControlPacketHeader, data: &[u8], source: Source) -> (r: bool)
    ensures
        r == hid_request_ok(*h, data@, source),
{
    let from_device = !matches!(source, Source::Blue);
    if h.request == hid::GET_REPORT {
        if from_device {
            if (h.value >> 8) >= 0x0004 {
                return false;
            }
            if h.length as usize != data.len() {
                return false;
            }
        }
        true
    } else if h.request == hid::GET_IDLE {
        if from_device {
            if h.length != 1 {
                return false;
            }
            if (h.value >> 8) != 0 {
                return false;
            }
        }
        true
    } else if h.request == hid::GET_PROT {
        if from_device {
            if h.length != 1 {
                return false;
            }
            if h.value != 0 {
                return false;
            }
            if data.len() != 1 {
                return false;
            }
            if data[0] > 1 {
                return false;
            }
        }
        true
    } else if h.request == hid::SET_REPORT {
        if from_device && data.len() != 0 {
            return false;
        }
        true
    } else if h.request == hid::SET_IDLE {
        if from_device && data.len() != 0 {
            return false;
        }
        true
    } else if h.request == hid::SET_PROT {
        if from_device {
            if h.value > 1 {
                return false;
            }
            if data.len() != 0 {
                return false;
            }
        }
        true
    } else {
        false
    }
}

/// Whether the report item starting at `off` is acceptable, and where the
/// next item begins.
pub open spec fn report_item_ok(d: Seq<u8>, off: int) -> bool {
    &&& off + hid::REPORT_MIN_SIZE <= d.len()
    &&& {
        let attr = d[off];
        if (attr & hid::ITEM_TAG_MASK) == hid::ITEM_LONG_TAG {
            &&& (attr & hid::ITEM_SIZE_MASK) == 0x02
            &&& (attr & hid::ITEM_TYPE_MASK) == 0x0c
            &&& off + 1 + 2 <= d.len()
            &&& off + 3 + d[off + 1] <= d.len()
        } else {
            let size = if (attr & hid::ITEM_SIZE_MASK) == 3 {
                4
            } else {
                (attr & hid::ITEM_SIZE_MASK) as int
            };
            &&& (attr & hid::ITEM_TYPE_MASK) != 0x0c
            &&& off + 1 + size <= d.len()
            &&& hid_item_fields_ok(attr, d.subrange(off + 1, off + 1 + size))
        }
    }
}

/// Where the item starting at `off` ends; meaningful when
/// [`report_item_ok`] holds. Always past `off`.
pub open spec fn report_item_next(d: Seq<u8>, off: int) -> int {
    if off < d.len() {
        let attr = d[off];
        if (attr & hid::ITEM_TAG_MASK) == hid::ITEM_LONG_TAG {
            if off + 3 <= d.len() {
                off + 3 + d[off + 1]
            } else {
                off + 1
            }
        } else {
            let size = if (attr & hid::ITEM_SIZE_MASK) == 3 {
                4
            } else {
                (attr & hid::ITEM_SIZE_MASK) as int
            };
            off + 1 + size
        }
    } else {
        off + 1
    }
}

/// Whether the items from `off` on fill the declared report length
/// exactly, each one acceptable.
pub open spec fn report_items_ok(d: Seq<u8>, off: int, end: int) -> bool
    decreases end - off when off <= end
{
    if off >= end {
        off == end
    } else {
        let next = report_item_next(d, off);
        if next <= off {
            false
        } else if next >= end {
            report_item_ok(d, off) && next == end
        } else {
            report_item_ok(d, off) && report_items_ok(d, next, end)
        }
    }
}

/// What an encoded HID descriptor starting at `off` (header already
/// consumed into `h`) must satisfy: enough payload for its class
/// descriptors, and the field rules of [`hid_desc_fields_ok`] over the
/// decoded fields.
pub open spec fn hid_desc_reply_ok(h: usb::DescriptorHeader, d: Seq<u8>, off: int) -> bool {
    &&& off + hid::DESC_MIN_SIZE <= d.len()
    &&& off + 4 + 3 * (d[off + 3] as int) <= d.len()
    &&& crate::control_checks::check_bcd_spec(le16(d, off))
    &&& d[off + 2] <= 35
    &&& d[off + 3] >= 1
    &&& h.length == usb::HEADER_SIZE + hid::DESC_MIN_SIZE + (d[off + 3] - 1)
        * hid::CLASS_DESC_SIZE
    &&& forall|i: int|
        0 <= i < d[off + 3] ==> (#[trigger] d[off + 4 + 3 * i] == hid::DT_HID_REPORT && 1 <= le16(
            d,
            off + 4 + 3 * i + 1,
        ) <= 258)
}

/// Whether the report descriptor in `d` is accepted for the stored HID
/// descriptor `stored`: at most one class descriptor, and the items
/// fill its declared report length exactly.
pub open spec fn report_desc_ok(stored: Map<u64, hid::HidDescriptor>, key: u64, d: Seq<u8>) -> bool {
    &&& stored.contains_key(key)
    &&& stored[key].num_descriptors <= 1
    &&& stored[key].desc@.len() >= 1
    &&& report_items_ok(d, 0, stored[key].desc@[0].descriptor_length as int)
}

/// The verdict on a GET_DESCRIPTOR aimed at a HID interface: only
/// interface-recipient requests for a HID descriptor (checked by
/// framing and field rules) or a report descriptor (walked against the
/// stored HID descriptor) are accepted.
pub open spec fn hid_get_desc_ok(
    descs: Map<u64, hid::HidDescriptor>,
    h: ControlPacketHeader,
    d: Seq<u8>,
    inum: u8,
    alt: u8,
) -> bool {
    &&& (h.requesttype & usb::RECIP_MASK) == usb::RECIP_INTERFACE
    &&& if (h.value >> 8) as u8 == hid::DT_HID {
        &&& d.len() >= usb::HEADER_SIZE
        &&& d[0] >= hid::DESC_MIN_SIZE + usb::HEADER_SIZE
        &&& d[1] == hid::DT_HID
        &&& hid_desc_reply_ok(
            usb::DescriptorHeader { length: d[0], descriptor_type: d[1] },
            d,
            usb::HEADER_SIZE as int,
        )
    } else if (h.value >> 8) as u8 == hid::DT_HID_REPORT {
        report_desc_ok(descs, hid_key_spec(inum, alt), d)
    } else {
        false
    }
}

/// Per-interface-alternate HID state: the installed HID descriptors,
/// whose report lengths drive the report-descriptor walk.
pub struct HidControlCheck {
    pub descs: KvMap<hid::HidDescriptor>,
}

impl HidControlCheck {
    /// The stored map always has distinct keys.
    pub open spec fn wf(&self) -> bool {
        self.descs.inv()
    }

    /// A fresh HID validator with no descriptors installed.
    pub fn new() -> (r: HidControlCheck)
        ensures
            r.wf(),
            r.descs@ == Map::<u64, hid::HidDescriptor>::empty(),
    {
        HidControlCheck { descs: KvMap::new() }
    }

    /// Parse and check the HID descriptor whose fields begin at `off`
    /// (its 2-byte header already consumed into `header`), and install it
    /// for `(inum, alt)` if none is stored yet. Installing a second time
    /// is a no-op. On success `off` is left after the class descriptors.
    #[verifier::loop_isolation(false)]
    pub fn check_hid_desc(&mut self, header: &usb::DescriptorHeader, data: &[u8], off: &mut usize, inum: u8, alt: u8) -> (r: bool)
        requires
            old(self).wf(),
        ensures
            final(self).wf(),
            r == hid_desc_reply_ok(*header, data@, *old(off) as int),
            !r ==> final(self).descs@ == old(self).descs@,
            r ==> *final(off) == *old(off) + 4 + 3 * (data@[*old(off) + 3] as int),
            r ==> *old(off) < *final(off) <= data@.len(),
            r && old(self).descs@.contains_key(hid_key_spec(inum, alt)) ==> final(self).descs@
                == old(self).descs@,
            r && !old(self).descs@.contains_key(hid_key_spec(inum, alt)) ==> ({
                let key = hid_key_spec(inum, alt);
                let base = *old(off) as int;
                &&& final(self).descs@.dom() == old(self).descs@.dom().insert(key)
                &&& final(self).descs@[key].bcd_hid == le16(data@, base)
                &&& final(self).descs@[key].country_code == data@[base + 2]
                &&& final(self).descs@[key].num_descriptors == data@[base + 3]
                &&& final(self).descs@[key].desc@.len() == data@[base + 3]
                &&& forall|i: int|
                    0 <= i < data@[base + 3] ==> ((#[trigger] final(self).descs@[key].desc@[i]).descriptor_type == data@[base + 4 + 3 * i]
                        && final(self).descs@[key].desc@[i].descriptor_length == le16(
                        data@,
                        base + 4 + 3 * i + 1,
                    ))
            }),
    {
        let n = data.len();
        if n < *off || n - *off < hid::DESC_MIN_SIZE {
            return false;
        }
        let bcd_hid = read_u16_le(data, *off);
        let country_code = data[*off + 2];
        let num_descriptors = data[*off + 3];
        *off = *off + 4;
        let needed: usize = hid::CLASS_DESC_SIZE * (num_descriptors as usize);
        if n - *off < needed {
            return false;
        }
        let mut class_descs: Vec<hid::HidClassDescriptor> = Vec::new();
        let mut k: usize = 0;
        while k < num_descriptors as usize
            invariant
                k <= num_descriptors as usize,
                n == data@.len(),
                *off + 3 * (num_descriptors as usize) <= n,
                class_descs@.len() == k,
                *off + 3 * k <= n,
                forall|j: int|
                    0 <= j < k ==> ((#[trigger] class_descs@[j]).descriptor_type == data@[*off + 3
                        * j] && class_descs@[j].descriptor_length == le16(data@, *off + 3 * j + 1)),
            decreases num_descriptors as usize - k,
        {
            let base = *off + 3 * k;
            let cd = hid::HidClassDescriptor {
                descriptor_type: data[base],
                descriptor_length: read_u16_le(data, base + 1),
            };
            class_descs.push(cd);
            k = k + 1;
        }
        *off = *off + needed;
        let desc = hid::HidDescriptor { bcd_hid, country_code, num_descriptors, desc: class_descs };
        proof {
            // The field rules over the decoded struct coincide with the
            // byte-level acceptance statement.
            let base = *old(off) as int;
            let num = data@[base + 3] as int;
            assert forall|i: int| 0 <= i < num implies ((#[trigger] desc.desc@[i]).descriptor_type
                == data@[base + 4 + 3 * i] && desc.desc@[i].descriptor_length == le16(
                data@,
                base + 4 + 3 * i + 1,
            )) by {
                assert(desc.desc@[i].descriptor_type == data@[base + 4 + 3 * i]);
            }
        }
        if !check_hid_desc_fields(header, &desc) {
            proof {
                let base = *old(off) as int;
                if hid_desc_reply_ok(*header, data@, base) {
                    let num = data@[base + 3] as int;
                    assert forall|i: int| 0 <= i < desc.desc@.len() implies ((
                    #[trigger] desc.desc@[i]).descriptor_type == hid::DT_HID_REPORT && 1
                        <= desc.desc@[i].descriptor_length <= 258) by {
                        assert(data@[base + 4 + 3 * i] == hid::DT_HID_REPORT);
                        assert(1 <= le16(data@, base + 4 + 3 * i + 1) <= 258);
                    }
                    assert(false);
                }
            }
            return false;
        }
        proof {
            let base = *old(off) as int;
            assert forall|i: int| 0 <= i < data@[base + 3] implies (#[trigger] data@[base + 4 + 3
                * i] == hid::DT_HID_REPORT && 1 <= le16(data@, base + 4 + 3 * i + 1) <= 258) by {
                assert(desc.desc@[i].descriptor_type == hid::DT_HID_REPORT && 1
                    <= desc.desc@[i].descriptor_length <= 258);
            }
            assert(hid_desc_reply_ok(*header, data@, base));
        }
        let key = hid_key(inum, alt);
        let ghost installed = desc;
        if !self.descs.contains_key(key) {
            self.descs.set(key, desc);
        }
        proof {
            assert(self.descs@ == first_seen_insert(
                old(self).descs@,
                hid_key_spec(inum, alt),
                installed,
            ));
        }
        true
    }

    /// Walk a report descriptor item by item against the installed HID
    /// descriptor of `(inum, alt)`: every item must pass its kind's
    /// rules, and the items must fill the declared report length exactly.
    #[verifier::loop_isolation(false)]
    pub fn check_hid_report_desc(&self, data: &[u8], inum: u8, alt: u8) -> (r: bool)
        requires
            self.wf(),
        ensures
            r == report_desc_ok(self.descs@, hid_key_spec(inum, alt), data@),
    {
        let key = hid_key(inum, alt);
        let desc = match self.descs.get(key) {
            None => {
                return false;
            },
            Some(v) => v,
        };
        if desc.num_descriptors > 1 {
            return false;
        }
        if desc.desc.len() < 1 {
            return false;
        }
        let end = desc.desc[0].descriptor_length as usize;
        let mut off: usize = 0;
        while off < end
            invariant
                off <= end,
                report_items_ok(data@, 0, end as int) == report_items_ok(
                    data@,
                    off as int,
                    end as int,
                ),
            decreases end - off,
        {
            let ghost before = off;
            if !self.check_hid_report_item(data, &mut off) {
                return false;
            }
            proof {
                assert(report_item_next(data@, before as int) > before as int);
            }
            if off > end {
                return false;
            }
        }
        off == end
    }

    /// Check the single report item starting at `off`, advancing `off`
    /// past it; see [`report_item_ok`].
    #[verifier::loop_isolation(false)]
    pub fn check_hid_report_item(&self, data: &[u8], off: &mut usize) -> (r: bool)
        ensures
            r == report_item_ok(data@, *old(off) as int),
            r ==> *final(off) == report_item_next(data@, *old(off) as int),
            r ==> *final(off) > *old(off),
    {
        let n = data.len();
        if n < *off || n - *off < hid::REPORT_MIN_SIZE {
            return false;
        }
        let attributes = data[*off];
        *off = *off + 1;
        if (attributes & hid::ITEM_TAG_MASK) == hid::ITEM_LONG_TAG {
            // Long item format: a fixed 2-byte prefix carrying the size
            // of the optional data.
            let item_size = (attributes & hid::ITEM_SIZE_MASK) as usize;
            if item_size != 0x02 || (attributes & hid::ITEM_TYPE_MASK) != 0x0c {
                return false;
            }
            if n - *off < item_size {
                return false;
            }
            let data_size = data[*off] as usize;
            *off = *off + item_size;
            if n - *off < data_size {
                return false;
            }
            *off = *off + data_size;
            // Nothing further is publicly specified for long items; only
            // their framing is checked.
            true
        } else {
            // Short item format.
            if (attributes & hid::ITEM_TYPE_MASK) == 0x0c {
                return false;
            }
            let item_size: usize = if (attributes & hid::ITEM_SIZE_MASK) == 3 {
                4
            } else {
                (attributes & hid::ITEM_SIZE_MASK) as usize
            };
            if n - *off < item_size {
                return false;
            }
            let mut item = hid::HidReportItem { attributes, data: Vec::new() };
            let mut k: usize = 0;
            while k < item_size
                invariant
                    k <= item_size,
                    *off + item_size <= n,
                    n == data@.len(),
                    item.attributes == attributes,
                    item.data@.len() == k,
                    forall|j: int| 0 <= j < k ==> #[trigger] item.data@[j] == data@[*off + j],
                decreases item_size - k,
            {
                let b = data[*off + k];
                item.data.push(b);
                k = k + 1;
            }
            proof {
                assert(item.data@ =~= data@.subrange(
                    *off as int,
                    *off + item_size as int,
                ));
            }
            let ok = check_hid_item_fields(&item);
            *off = *off + item_size;
            ok
        }
    }

    /// Dispatch a GET_DESCRIPTOR aimed at a HID interface: install a HID
    /// descriptor, or walk a report descriptor; physical descriptors are
    /// not supported.
    pub fn check_hid_get_desc(&mut self, h: &ControlPacketHeader, data: &[u8], inum: u8, alt: u8) -> (r: bool)
        requires
            old(self).wf(),
        ensures
            final(self).wf(),
            r == hid_get_desc_ok(old(self).descs@, *h, data@, inum, alt),
            !r ==> final(self).descs@ == old(self).descs@,
            (h.value >> 8) as u8 != hid::DT_HID ==> final(self).descs@ == old(self).descs@,
            r && old(self).descs@.contains_key(hid_key_spec(inum, alt)) ==> final(self).descs@
                == old(self).descs@,
            r ==> final(self).descs@.contains_key(hid_key_spec(inum, alt)) || (h.value >> 8) as u8
                != hid::DT_HID,
    {
        if (h.requesttype & usb::RECIP_MASK) != usb::RECIP_INTERFACE {
            return false;
        }
        let kind = (h.value >> 8) as u8;
        if kind == hid::DT_HID {
            let mut off: usize = 0;
            if data.len() < usb::HEADER_SIZE {
                return false;
            }
            let header = usb::parse_descriptor_header(data, 0);
            off = usb::HEADER_SIZE;
            if (header.length as usize) < hid::DESC_MIN_SIZE + usb::HEADER_SIZE
                || header.descriptor_type != hid::DT_HID {
                return false;
            }
            self.check_hid_desc(&header, data, &mut off, inum, alt)
        } else if kind == hid::DT_HID_REPORT {
            self.check_hid_report_desc(data, inum, alt)
        } else {
            false
        }
    }
}

/// Check a HID descriptor's fields; see [`hid_desc_fields_ok`].
#[verifier::loop_isolation(false)]
pub fn check_hid_desc_fields(h: &usb::DescriptorHeader, desc: &hid::HidDescriptor) -> (r: bool)
    ensures
        r == hid_desc_fields_ok(
            *h,
            desc.desc@.len() as int,
            desc.bcd_hid,
            desc.country_code,
            desc.num_descriptors,
            desc.desc@,
        ),
{
    if !crate::control_checks::check_bcd(desc.bcd_hid) {
        return false;
    }
    if desc.country_code > 35 {
        return false;
    }
    if desc.num_descriptors < 1 {
        return false;
    }
    if h.length as usize != usb::HEADER_SIZE + hid::DESC_MIN_SIZE + ((desc.num_descriptors as usize
        - 1) * hid::CLASS_DESC_SIZE) {
        return false;
    }
    if desc.desc.len() < 1 {
        return false;
    }
    let n = desc.desc.len();
    let mut i: usize = 0;
    while i < n
        invariant
            i <= n,
            n == desc.desc@.len(),
            forall|j: int|
                0 <= j < i ==> ((#[trigger] desc.desc@[j]).descriptor_type == hid::DT_HID_REPORT
                    && 1 <= desc.desc@[j].descriptor_length <= 258),
        decreases n - i,
    {
        let d = desc.desc[i];
        if d.descriptor_type == hid::DT_HID_REPORT {
            if d.descriptor_length < 1 || d.descriptor_length > 258 {
                return false;
            }
        } else {
            return false;
        }
        i = i + 1;
    }
    true
}

} // verus!
