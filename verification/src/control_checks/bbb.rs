//! The mass-storage Bulk-Only (BBB) validator: class control requests on
//! endpoint zero, and the CBW/CSW two-phase protocol on the data
//! endpoints, with the tag of each status wrapper matched against the
//! stored command wrapper.

use vstd::prelude::*;
use crate::bytes::le32;
use crate::parser::Source;
use crate::usb;
use crate::usb::bbb;
use crate::usbr::ControlPacketHeader;

verus! {

/// The BBB validator's state: the command header and command block
/// wrapper of the most recent CBW, against which the next CSW is checked.
pub struct BBBControlCheck {
    pub header: Option<bbb::CommandHeader>,
    pub cbw: Option<bbb::CommandBlockWrapper>,
}

/// The two class control requests BBB defines, with their exact request
/// type, value, length and reply shapes.
pub open spec fn bbb_control_req_ok(h: ControlPacketHeader, data: Seq<u8>, source: Source) -> bool {
    if h.request == bbb::RESET {
        &&& h.requesttype == 0x21
        &&& h.value == 0
        &&& h.length == 0
        &&& source == Source::Red ==> data.len() == 0
    } else if h.request == bbb::MAX_LUN {
        &&& h.requesttype == 0xa1
        &&& h.value == 0
        &&& h.length == 1
        &&& source == Source::Red ==> (data.len() == 1 && data[0] <= 15)
    } else {
        false
    }
}

/// Whether a data-endpoint payload passes the CBW/CSW rules given the
/// stored command state.
pub open spec fn bbb_data_ok(
    st: BBBControlCheck,
    data: Seq<u8>,
    source: Source,
) -> bool {
    if data.len() < bbb::HEADER_SIZE {
        false
    } else {
        let sig = le32(data, 0);
        let tag = le32(data, 4);
        if sig == bbb::CBW_SIGN {
            &&& source == Source::Blue
            &&& data.len() >= bbb::HEADER_SIZE + bbb::CBW_SIZE
        } else if sig == bbb::CSW_SIGN {
            &&& source == Source::Red
            &&& st.header is Some
            &&& st.cbw is Some
            &&& st.header.unwrap().tag == tag
            &&& data.len() >= bbb::HEADER_SIZE + bbb::CSW_SIZE
            &&& {
                let status = data[bbb::HEADER_SIZE as int + 4];
                if status == bbb::STAT_OK || status == bbb::STAT_FAIL {
                    le32(data, bbb::HEADER_SIZE as int) <= st.cbw.unwrap().transfer_length
                } else {
                    status == bbb::STAT_PHASE
                }
            }
        } else {
            false
        }
    }
}

/// The verdict on one BBB request: endpoint zero carries the two class
/// control requests; every other endpoint carries a CBW or CSW checked
/// against the stored command state.
pub open spec fn bbb_request_verdict(
    st: BBBControlCheck,
    h: ControlPacketHeader,
    data: Seq<u8>,
    source: Source,
) -> bool {
    if (h.ep & usb::DIR_REMOVE) == 0 {
        bbb_control_req_ok(h, data, source)
    } else {
        bbb_data_ok(st, data, source)
    }
}

/// Whether a payload is an accepted CBW, which updates the stored state.
pub open spec fn bbb_records_cbw(data: Seq<u8>, source: Source) -> bool {
    &&& data.len() >= bbb::HEADER_SIZE + bbb::CBW_SIZE
    &&& le32(data, 0) == bbb::CBW_SIGN
    &&& source == Source::Blue
}

impl BBBControlCheck {
    /// A fresh validator with no command outstanding.
    pub fn new() -> (r: BBBControlCheck)
        ensures
            r.header is None,
            r.cbw is None,
    {
        BBBControlCheck { header: None, cbw: None }
    }

    /// Check one of the two BBB class control requests; see
    /// [`bbb_control_req_ok`].
    pub fn check_control_req(&self, h: &ControlPacketHeader, data: &[u8], source: Source) -> (r:
        bool)
        ensures
            r == bbb_control_req_ok(*h, data@, source),
    {
        if h.request == bbb::RESET {
            if h.requesttype != 0x21 {
                return false;
            }
            if h.value != 0 || h.length != 0 {
                return false;
            }
            if matches!(source, Source::Red) && data.len() != 0 {
                return false;
            }
            true
        } else if h.request == bbb::MAX_LUN {
            if h.requesttype != 0xa1 {
                return false;
            }
            if h.value != 0 || h.length != 1 {
                return false;
            }
            if matches!(source, Source::Red) {
                if data.len() != 1 {
                    return false;
                }
                if data[0] > 15 {
                    return false;
                }
            }
            true
        } else {
            false
        }
    }

    /// Check one BBB request: a control request when it names endpoint
    /// zero, otherwise a CBW or CSW on a data endpoint. An accepted CBW is
    /// stored so the matching CSW can be checked against its tag and
    /// transfer length.
    pub fn check_bbb_request(&mut self, h: &ControlPacketHeader, data: &[u8], source: Source) -> (r:
        bool)
        ensures
            (h.ep & usb::DIR_REMOVE) == 0 ==> {
                &&& r == bbb_control_req_ok(*h, data@, source)
                &&& final(self).header == old(self).header
                &&& final(self).cbw == old(self).cbw
            },
            (h.ep & usb::DIR_REMOVE) != 0 ==> {
                &&& r == bbb_data_ok(*old(self), data@, source)
                &&& if r && bbb_records_cbw(data@, source) {
                    &&& final(self).header matches Some(hd) && hd.signature == le32(data@, 0)
                        && hd.tag == le32(data@, 4)
                    &&& final(self).cbw matches Some(c) && c.transfer_length == le32(
                        data@,
                        bbb::HEADER_SIZE as int,
                    )
                } else {
                    final(self).header == old(self).header && final(self).cbw == old(self).cbw
                }
            },
    {
        if (h.ep & usb::DIR_REMOVE) == 0 {
            // Control requests go to endpoint zero.
            self.check_control_req(h, data, source)
        } else {
            // Everything else carries a command or status wrapper.
            if data.len() < bbb::HEADER_SIZE {
                return false;
            }
            let header = bbb::parse_command_header(data, 0);
            if header.signature == bbb::CBW_SIGN {
                if !matches!(source, Source::Blue) {
                    return false;
                }
                if data.len() < bbb::HEADER_SIZE + bbb::CBW_SIZE {
                    return false;
                }
                let cbw = bbb::parse_cbw(data, bbb::HEADER_SIZE);
                self.header = Some(header);
                self.cbw = Some(cbw);
                true
            } else if header.signature == bbb::CSW_SIGN {
                if !matches!(source, Source::Red) {
                    return false;
                }
                let stored_tag = match &self.header {
                    Some(hd) => hd.tag,
                    None => {
                        return false;
                    },
                };
                let stored_len = match &self.cbw {
                    Some(c) => c.transfer_length,
                    None => {
                        return false;
                    },
                };
                if stored_tag != header.tag {
                    return false;
                }
                if data.len() < bbb::HEADER_SIZE + bbb::CSW_SIZE {
                    return false;
                }
                let csw = bbb::parse_csw(data, bbb::HEADER_SIZE);
                if csw.status == bbb::STAT_OK || csw.status == bbb::STAT_FAIL {
                    if csw.data_residue > stored_len {
                        return false;
                    }
                    true
                } else if csw.status == bbb::STAT_PHASE {
                    true
                } else {
                    false
                }
            } else {
                false
            }
        }
    }
}

} // verus!
