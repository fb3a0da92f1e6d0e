//! The signature patcher stage: requests of the control, bulk and
//! connect families are matched against hex signatures; when a
//! signature's required match count is exhausted the request routes to
//! the reset terminal.

use vstd::prelude::*;
use crate::control_checks::printer::{contains_bytes, contains_in};
use crate::kvmap::KvMap;
use crate::parser::{HasHandlers, Request, Source};
use crate::usbr;

verus! {

/// Which request family a signature applies to.
#[derive(Copy, Clone, PartialEq, Eq, Structural)]
pub enum PatchKind {
    Control,
    Bulk,
    Connect,
}

/// What a signature binds: a family, a device, a control request, and
/// how many matches are tolerated before the connection resets.
#[derive(Copy, Clone)]
pub struct PatchMetadata {
    pub p_type: PatchKind,
    pub vendor_id: u16,
    pub product_id: u16,
    pub request: u8,
    pub requesttype: u8,
    pub patch_id: u32,
    pub min_matches: u16,
}

/// One signature: its metadata and its hex-encoded byte pattern.
pub struct Patch {
    pub meta: PatchMetadata,
    /// Lower-case hex characters, matched as a substring of the
    /// hex-encoded payload.
    pub data: Vec<u8>,
}

impl PatchMetadata {
    /// Whether a control signature applies to this control header.
    pub fn matches_descriptor(&self, header: &usbr::ControlPacketHeader) -> (r: bool)
        ensures
            r == (self.request == header.request && self.requesttype == header.requesttype),
    {
        self.request == header.request && self.requesttype == header.requesttype
    }
}

/// The lower-case hex character of a nibble.
pub open spec fn hex_digit_spec(x: u8) -> u8 {
    if x < 10 {
        (48 + x) as u8
    } else {
        (87 + x) as u8
    }
}

/// The lower-case hex encoding of a byte sequence, two characters per
/// byte.
pub open spec fn hex_of(d: Seq<u8>) -> Seq<u8> {
    Seq::new(2 * d.len(), |i: int| if i % 2 == 0 {
        hex_digit_spec(d[i / 2] >> 4)
    } else {
        hex_digit_spec((d[i / 2] & 0xf) as u8)
    })
}

/// Hex-encode a byte buffer in lower case.
#[verifier::loop_isolation(false)]
pub fn to_hex(data: &[u8]) -> (r: Vec<u8>)
    ensures
        r@ == hex_of(data@),
{
    let n = data.len();
    let mut out: Vec<u8> = Vec::new();
    let mut i: usize = 0;
    while i < n
        invariant
            i <= n,
            out@.len() == 2 * i,
            forall|j: int| 0 <= j < out@.len() ==> out@[j] == hex_of(data@)[j],
        decreases n - i,
    {
        let b = data[i];
        let hi = b >> 4;
        let lo = b & 0xf;
        proof {
            assert(b >> 4 < 16) by (bit_vector);
            assert(b & 0xf < 16) by (bit_vector);
        }
        let c1: u8 = if hi < 10 {
            48 + hi
        } else {
            87 + hi
        };
        let c2: u8 = if lo < 10 {
            48 + lo
        } else {
            87 + lo
        };
        out.push(c1);
        out.push(c2);
        i = i + 1;
    }
    proof {
        assert(out@ =~= hex_of(data@));
    }
    out
}

/// Whether the hex pattern of `patch` occurs in the hex encoding of a
/// payload.
pub open spec fn patch_hits(patch_data: Seq<u8>, payload: Seq<u8>) -> bool {
    &&& hex_of(payload).len() >= patch_data.len()
    &&& contains_in(hex_of(payload), 0, hex_of(payload).len() as int, patch_data)
}

/// Whether a control signature applies to this packet: same request and
/// request type, and its hex pattern occurs in the hex-encoded payload.
pub open spec fn control_patch_applies(p: Patch, h: usbr::ControlPacketHeader, payload: Seq<u8>) -> bool {
    &&& p.meta.p_type == PatchKind::Control
    &&& p.meta.request == h.request
    &&& p.meta.requesttype == h.requesttype
    &&& patch_hits(p.data@, payload)
}

/// Whether a bulk signature applies to this payload.
pub open spec fn bulk_patch_applies(p: Patch, payload: Seq<u8>) -> bool {
    &&& p.meta.p_type == PatchKind::Bulk
    &&& patch_hits(p.data@, payload)
}

/// One pass of the signatures over a packet, given which of them apply:
/// each applying signature consumes one tolerated match; the pass fails
/// on the signature that runs out. An applying signature without a
/// count entry, or with none left, fails at once.
pub open spec fn patch_scan(
    counts: Map<u64, u16>,
    ps: Seq<Patch>,
    i: int,
    applies: Seq<bool>,
) -> (bool, Map<u64, u16>)
    decreases ps.len() - i when 0 <= i <= ps.len()
{
    if i >= ps.len() {
        (true, counts)
    } else if !applies[i] {
        patch_scan(counts, ps, i + 1, applies)
    } else {
        let id = ps[i].meta.patch_id as u64;
        if !counts.contains_key(id) {
            (false, counts)
        } else if counts[id] <= 1 {
            (false, counts)
        } else {
            patch_scan(counts.insert(id, (counts[id] - 1) as u16), ps, i + 1, applies)
        }
    }
}

/// The signature patcher: its signatures and the remaining tolerated
/// matches of each.
pub struct Patcher {
    pub patches: Vec<Patch>,
    pub counts: KvMap<u16>,
}

impl Patcher {
    pub open spec fn wf(&self) -> bool {
        self.counts.inv()
    }

    /// A patcher over the given signatures; each signature id starts
    /// with its tolerated match count. The signatures come from the
    /// startup patch directory, already decoded into plain values.
    #[verifier::loop_isolation(false)]
    pub fn new(patches: Vec<Patch>) -> (r: Patcher)
        ensures
            r.wf(),
            r.patches == patches,
            forall|i: int|
                0 <= i < patches@.len() ==> r.counts@.contains_key(
                    (#[trigger] patches@[i]).meta.patch_id as u64,
                ),
    {
        let mut counts: KvMap<u16> = KvMap::new();
        let n = patches.len();
        let mut i: usize = 0;
        while i < n
            invariant
                i <= n,
                counts.inv(),
                forall|j: int|
                    0 <= j < i ==> counts@.contains_key(
                        (#[trigger] patches@[j]).meta.patch_id as u64,
                    ),
            decreases n - i,
        {
            let id = patches[i].meta.patch_id as u64;
            if !counts.contains_key(id) {
                let m = patches[i].meta.min_matches;
                counts.set(id, m);
            }
            i = i + 1;
        }
        Patcher { patches, counts }
    }

    /// Count one observed match of a signature. Returns `false` when the
    /// signature's tolerated matches are exhausted, which resets the
    /// connection.
    fn note_match(&mut self, patch_id: u32) -> (r: bool)
        requires
            old(self).wf(),
        ensures
            final(self).wf(),
            final(self).patches == old(self).patches,
            ({
                let id = patch_id as u64;
                if !old(self).counts@.contains_key(id) || old(self).counts@[id] <= 1 {
                    r == false && final(self).counts@ == old(self).counts@
                } else {
                    r == true && final(self).counts@ == old(self).counts@.insert(
                        id,
                        (old(self).counts@[id] - 1) as u16,
                    )
                }
            }),
    {
        let cur = match self.counts.get(patch_id as u64) {
            Some(v) => *v,
            None => {
                return false;
            },
        };
        if cur == 0 {
            return false;
        }
        let newv = cur - 1;
        if newv == 0 {
            return false;
        }
        self.counts.set(patch_id as u64, newv);
        true
    }

    /// Match a control packet against the control signatures; `false`
    /// routes the request to the reset terminal. A packet none of whose
    /// applicable signatures occurs in its payload always flows on, with
    /// every count untouched.
    #[verifier::loop_isolation(false)]
    pub fn check_control_packet(&mut self, req: &Request) -> (r: bool)
        requires
            old(self).wf(),
            req.type_header@.len() >= usbr::CONTROL_PACKET_HEADER_SIZE,
        ensures
            final(self).wf(),
            final(self).patches == old(self).patches,
            ({
                let h = usbr::control_packet_header_spec(req.type_header@);
                let applies = Seq::new(
                    old(self).patches@.len(),
                    |i: int| control_patch_applies(old(self).patches@[i], h, req.data@),
                );
                let scan = patch_scan(old(self).counts@, old(self).patches@, 0, applies);
                r == scan.0 && final(self).counts@ == scan.1
            }),
            final(self).counts@.dom() == old(self).counts@.dom(),
            forall|k: u64|
                old(self).counts@.contains_key(k) ==> #[trigger] final(self).counts@[k] <= old(
                    self,
                ).counts@[k],
    {
        let h = usbr::parse_control_packet_header(req.type_header.as_slice());
        let ghost applies = Seq::new(
            old(self).patches@.len(),
            |i: int| control_patch_applies(
                old(self).patches@[i],
                usbr::control_packet_header_spec(req.type_header@),
                req.data@,
            ),
        );
        let n = self.patches.len();
        let mut i: usize = 0;
        while i < n
            invariant
                self.wf(),
                self.patches == old(self).patches,
                i <= n,
                n == self.patches@.len(),
                applies == Seq::new(
                    old(self).patches@.len(),
                    |j: int| control_patch_applies(
                        old(self).patches@[j],
                        usbr::control_packet_header_spec(req.type_header@),
                        req.data@,
                    ),
                ),
                patch_scan(old(self).counts@, old(self).patches@, 0, applies) == patch_scan(
                    self.counts@,
                    self.patches@,
                    i as int,
                    applies,
                ),
                self.counts@.dom() == old(self).counts@.dom(),
                forall|k: u64|
                    old(self).counts@.contains_key(k) ==> #[trigger] self.counts@[k] <= old(
                        self,
                    ).counts@[k],
            decreases n - i,
        {
            let is_control = matches!(self.patches[i].meta.p_type, PatchKind::Control);
            if is_control && self.patches[i].meta.matches_descriptor(&h) {
                let data_hex = to_hex(req.data.as_slice());
                let sig_len = self.patches[i].data.len();
                if data_hex.len() >= sig_len {
                    let hlen = data_hex.len();
                    let hit = contains_bytes(
                        data_hex.as_slice(),
                        0,
                        hlen,
                        self.patches[i].data.as_slice(),
                    );
                    if hit {
                        let id = self.patches[i].meta.patch_id;
                        if !self.note_match(id) {
                            return false;
                        }
                    }
                }
            }
            i = i + 1;
        }
        true
    }

    /// Match a bulk packet's payload against the bulk signatures. A
    /// payload in which no bulk signature occurs always flows on, with
    /// every count untouched.
    #[verifier::loop_isolation(false)]
    pub fn check_bulk_packet(&mut self, req: &Request) -> (r: bool)
        requires
            old(self).wf(),
        ensures
            final(self).wf(),
            final(self).patches == old(self).patches,
            ({
                let applies = Seq::new(
                    old(self).patches@.len(),
                    |i: int| bulk_patch_applies(old(self).patches@[i], req.data@),
                );
                let scan = patch_scan(old(self).counts@, old(self).patches@, 0, applies);
                r == scan.0 && final(self).counts@ == scan.1
            }),
            final(self).counts@.dom() == old(self).counts@.dom(),
            forall|k: u64|
                old(self).counts@.contains_key(k) ==> #[trigger] final(self).counts@[k] <= old(
                    self,
                ).counts@[k],
    {
        let ghost applies = Seq::new(
            old(self).patches@.len(),
            |i: int| bulk_patch_applies(old(self).patches@[i], req.data@),
        );
        let n = self.patches.len();
        let mut i: usize = 0;
        while i < n
            invariant
                self.wf(),
                self.patches == old(self).patches,
                i <= n,
                n == self.patches@.len(),
                applies == Seq::new(
                    old(self).patches@.len(),
                    |j: int| bulk_patch_applies(old(self).patches@[j], req.data@),
                ),
                patch_scan(old(self).counts@, old(self).patches@, 0, applies) == patch_scan(
                    self.counts@,
                    self.patches@,
                    i as int,
                    applies,
                ),
                self.counts@.dom() == old(self).counts@.dom(),
                forall|k: u64|
                    old(self).counts@.contains_key(k) ==> #[trigger] self.counts@[k] <= old(
                        self,
                    ).counts@[k],
            decreases n - i,
        {
            let is_bulk = matches!(self.patches[i].meta.p_type, PatchKind::Bulk);
            if is_bulk {
                let data_hex = to_hex(req.data.as_slice());
                let sig_len = self.patches[i].data.len();
                if data_hex.len() >= sig_len {
                    let hlen = data_hex.len();
                    let hit = contains_bytes(
                        data_hex.as_slice(),
                        0,
                        hlen,
                        self.patches[i].data.as_slice(),
                    );
                    if hit {
                        let id = self.patches[i].meta.patch_id;
                        if !self.note_match(id) {
                            return false;
                        }
                    }
                }
            }
            i = i + 1;
        }
        true
    }

    /// Match a device-connect header against the connect signatures:
    /// a listed vendor and product id resets the connection at once.
    #[verifier::loop_isolation(false)]
    pub fn check_connect(&mut self, req: &Request) -> (r: bool)
        requires
            old(self).wf(),
        ensures
            final(self).wf(),
            final(self).patches == old(self).patches,
            ({
                let ok = forall|i: int|
                    0 <= i < old(self).patches@.len() && (#[trigger] old(
                        self,
                    ).patches@[i]).meta.p_type == PatchKind::Connect
                        ==> req.type_header@.len() >= usbr::CONNECT_HEADER_SIZE && !(old(
                        self,
                    ).patches@[i].meta.vendor_id == crate::bytes::le16(req.type_header@, 4) && old(
                        self,
                    ).patches@[i].meta.product_id == crate::bytes::le16(req.type_header@, 6));
                r == ok
            }),
    {
        let n = self.patches.len();
        let mut i: usize = 0;
        while i < n
            invariant
                self.wf(),
                self.patches == old(self).patches,
                i <= n,
                n == self.patches@.len(),
                forall|j: int|
                    0 <= j < i && (#[trigger] self.patches@[j]).meta.p_type == PatchKind::Connect
                        ==> req.type_header@.len() >= usbr::CONNECT_HEADER_SIZE && !(
                    self.patches@[j].meta.vendor_id == crate::bytes::le16(req.type_header@, 4)
                        && self.patches@[j].meta.product_id == crate::bytes::le16(
                        req.type_header@,
                        6,
                    )),
            decreases n - i,
        {
            let is_connect = matches!(self.patches[i].meta.p_type, PatchKind::Connect);
            if is_connect {
                if req.type_header.len() < usbr::CONNECT_HEADER_SIZE {
                    return false;
                }
                let h = usbr::parse_connect_header(req.type_header.as_slice());
                if self.patches[i].meta.vendor_id == h.vendor_id && self.patches[i].meta.product_id
                    == h.product_id {
                    return false;
                }
            }
            i = i + 1;
        }
        true
    }
}

impl HasHandlers for Patcher {
    open spec fn inv(&self) -> bool {
        self.wf()
    }

    /// The patcher inspects the control, bulk and connect families and
    /// passes everything else through.
    open spec fn passes_through(h_type: u32) -> bool {
        h_type != usbr::TYPE_CONTROL_PACKET && h_type != usbr::TYPE_BULK_PACKET && h_type
            != usbr::TYPE_DEVICE_CONNECT
    }

    fn handle_control_packet(&mut self, source: Source, req: Request) -> (r: Option<(
        u8,
        Vec<Request>,
    )>)
        ensures
            r matches Some(o) && (o.0 == 0 || o.0 == 1) && o.1@.len() == 1 && o.1@[0] == req,
            req.type_header@.len() >= usbr::CONTROL_PACKET_HEADER_SIZE ==> (r matches Some(o)
                && o.0 == (if patch_scan(
                old(self).counts@,
                old(self).patches@,
                0,
                Seq::new(
                    old(self).patches@.len(),
                    |i: int| control_patch_applies(
                        old(self).patches@[i],
                        usbr::control_packet_header_spec(req.type_header@),
                        req.data@,
                    ),
                ),
            ).0 {
                0u8
            } else {
                1u8
            })),
    {
        let _ = source;
        if req.type_header.len() < usbr::CONTROL_PACKET_HEADER_SIZE {
            return Some((1, vec![req]));
        }
        if self.check_control_packet(&req) {
            Some((0, vec![req]))
        } else {
            Some((1, vec![req]))
        }
    }

    fn handle_bulk_packet(&mut self, source: Source, req: Request) -> (r: Option<(
        u8,
        Vec<Request>,
    )>)
        ensures
            r matches Some(o) && (o.0 == 0 || o.0 == 1) && o.1@.len() == 1 && o.1@[0] == req,
            r matches Some(o) && o.0 == (if patch_scan(
                old(self).counts@,
                old(self).patches@,
                0,
                Seq::new(
                    old(self).patches@.len(),
                    |i: int| bulk_patch_applies(old(self).patches@[i], req.data@),
                ),
            ).0 {
                0u8
            } else {
                1u8
            }),
    {
        let _ = source;
        if self.check_bulk_packet(&req) {
            Some((0, vec![req]))
        } else {
            Some((1, vec![req]))
        }
    }

    fn handle_connect(&mut self, source: Source, req: Request) -> (r: Option<(u8, Vec<Request>)>)
        ensures
            r matches Some(o) && (o.0 == 0 || o.0 == 1) && o.1@.len() == 1 && o.1@[0] == req,
    {
        let _ = source;
        if self.check_connect(&req) {
            Some((0, vec![req]))
        } else {
            Some((1, vec![req]))
        }
    }
}

} // verus!
