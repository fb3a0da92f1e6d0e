//! The module pipeline: an ordered list of non-terminal inspection
//! stages plus a mapping from port number to terminal stage. Every
//! message flows through the chain; each stage names via its returned
//! port which stage handles the message next, and the final port picks
//! the terminal that forwards the message or resets the connection.

use vstd::prelude::*;
use crate::control_checks::ControlCheck;
use crate::kvmap::KvMap;
use crate::parser::{HasHandlers, Request, Source};
use crate::patcher::Patcher;
use crate::usbr;

verus! {

/// One stage of the chain. `Null` forwards unchanged; `Reset` ends the
/// connection; the validator and the signature patcher inspect.
pub enum Stage {
    Check(ControlCheck),
    Patch(Patcher),
    Null,
    Reset,
}

impl Stage {
    /// The stage's internal well-formedness.
    pub open spec fn stage_inv(&self) -> bool {
        match self {
            Stage::Check(c) => c.wf(),
            Stage::Patch(p) => p.wf(),
            Stage::Null => true,
            Stage::Reset => true,
        }
    }
}

/// The port one stage hands a message to, or `None` when the stage
/// terminates the connection: `Null` and every uninspected family
/// forward on port 0; the validator routes by
/// [`ControlCheck::control_packet_port`]; the patcher routes by its
/// signature scans; `Reset` terminates.
pub open spec fn stage_port(stage: Stage, h_type: u32, source: Source, req: Request) -> Option<u8> {
    match stage {
        Stage::Null => Some(0),
        Stage::Reset => None,
        Stage::Check(c) => if h_type == usbr::TYPE_CONTROL_PACKET {
            Some(ControlCheck::control_packet_port(c, source, req))
        } else {
            Some(0)
        },
        Stage::Patch(p) => if h_type == usbr::TYPE_CONTROL_PACKET {
            if req.type_header@.len() < usbr::CONTROL_PACKET_HEADER_SIZE {
                Some(1)
            } else if crate::patcher::patch_scan(
                p.counts@,
                p.patches@,
                0,
                Seq::new(
                    p.patches@.len(),
                    |i: int| crate::patcher::control_patch_applies(
                        p.patches@[i],
                        usbr::control_packet_header_spec(req.type_header@),
                        req.data@,
                    ),
                ),
            ).0 {
                Some(0)
            } else {
                Some(1)
            }
        } else if h_type == usbr::TYPE_BULK_PACKET {
            if crate::patcher::patch_scan(
                p.counts@,
                p.patches@,
                0,
                Seq::new(
                    p.patches@.len(),
                    |i: int| crate::patcher::bulk_patch_applies(p.patches@[i], req.data@),
                ),
            ).0 {
                Some(0)
            } else {
                Some(1)
            }
        } else if h_type == usbr::TYPE_DEVICE_CONNECT {
            if forall|i: int|
                0 <= i < p.patches@.len() && (#[trigger] p.patches@[i]).meta.p_type
                    == crate::patcher::PatchKind::Connect ==> req.type_header@.len()
                    >= usbr::CONNECT_HEADER_SIZE && !(p.patches@[i].meta.vendor_id
                    == crate::bytes::le16(req.type_header@, 4) && p.patches@[i].meta.product_id
                    == crate::bytes::le16(req.type_header@, 6)) {
                Some(0)
            } else {
                Some(1)
            }
        } else {
            Some(0)
        },
    }
}

/// The port maps of the chain's levels, as plain maps.
pub open spec fn levels_of(v: Seq<KvMap<Stage>>) -> Seq<Map<u64, Stage>> {
    Seq::new(v.len(), |i: int| v[i]@)
}

/// The route a message takes through the chain from level `idx` on
/// incoming port `port`: each level's stage must be wired at the port
/// and names the next port; the final port selects the terminal, whose
/// own port is the result. `None` terminates.
pub open spec fn route_spec(
    levels: Seq<Map<u64, Stage>>,
    terminal: Map<u64, Stage>,
    idx: int,
    port: u8,
    h_type: u32,
    source: Source,
    req: Request,
) -> Option<u8>
    decreases levels.len() - idx when 0 <= idx <= levels.len()
{
    if idx >= levels.len() {
        if !terminal.contains_key(port as u64) {
            None
        } else {
            stage_port(terminal[port as u64], h_type, source, req)
        }
    } else if !levels[idx].contains_key(port as u64) {
        None
    } else {
        match stage_port(levels[idx][port as u64], h_type, source, req) {
            None => None,
            Some(p2) => route_spec(levels, terminal, idx + 1, p2, h_type, source, req),
        }
    }
}

/// Run one stage on one message: the stage inspects only the message
/// families it registered handlers for and forwards everything else
/// unchanged on port 0. Whatever the verdict, a stage hands back
/// exactly the one request it was given; `None` ends the connection.
fn stage_handle(stage: &mut Stage, h_type: u32, source: Source, req: Request) -> (r: Option<(
    u8,
    Vec<Request>,
)>)
    requires
        old(stage).stage_inv(),
        req.wf(),
    ensures
        final(stage).stage_inv(),
        r matches Some(o) ==> (o.1@.len() == 1 && o.1@[0] == req),
        (match stage_port(*old(stage), h_type, source, req) {
            None => r is None,
            Some(p) => r matches Some(o) && o.0 == p,
        }),
        (*old(stage)) is Null ==> (r matches Some(o) && o.0 == 0 && *final(stage) == *old(stage)),
        (*old(stage)) is Reset ==> (r is None && *final(stage) == *old(stage)),
        (*old(stage)) is Check ==> (*final(stage)) is Check,
        (*old(stage)) is Patch ==> (*final(stage)) is Patch,
        ((*old(stage)) is Check && h_type != usbr::TYPE_CONTROL_PACKET) ==> (r matches Some(o) && o.0
            == 0 && *final(stage) == *old(stage)),
        ((*old(stage)) is Check && h_type == usbr::TYPE_CONTROL_PACKET) ==> (r matches Some(o) && (o.0
            == crate::control_checks::NO_MATCH || o.0 == crate::control_checks::MATCH_PORT)),
        ((*old(stage)) is Patch && h_type != usbr::TYPE_CONTROL_PACKET && h_type
            != usbr::TYPE_BULK_PACKET && h_type != usbr::TYPE_DEVICE_CONNECT) ==> (r matches
        Some(o) && o.0 == 0 && *final(stage) == *old(stage)),
        ((*old(stage)) is Patch && (h_type == usbr::TYPE_CONTROL_PACKET || h_type
            == usbr::TYPE_BULK_PACKET || h_type == usbr::TYPE_DEVICE_CONNECT)) ==> (r matches
        Some(o) && (o.0 == 0 || o.0 == 1)),
{
    match stage {
        Stage::Null => Some((0, vec![req])),
        Stage::Reset => None,
        Stage::Check(c) => {
            if h_type == usbr::TYPE_CONTROL_PACKET {
                let (port, out) = c.check_control_packet(source, req);
                Some((port, out))
            } else {
                Some((0, vec![req]))
            }
        },
        Stage::Patch(p) => {
            if h_type == usbr::TYPE_CONTROL_PACKET {
                if req.type_header.len() < usbr::CONTROL_PACKET_HEADER_SIZE {
                    return Some((1, vec![req]));
                }
                if p.check_control_packet(&req) {
                    Some((0, vec![req]))
                } else {
                    Some((1, vec![req]))
                }
            } else if h_type == usbr::TYPE_BULK_PACKET {
                if p.check_bulk_packet(&req) {
                    Some((0, vec![req]))
                } else {
                    Some((1, vec![req]))
                }
            } else if h_type == usbr::TYPE_DEVICE_CONNECT {
                if p.check_connect(&req) {
                    Some((0, vec![req]))
                } else {
                    Some((1, vec![req]))
                }
            } else {
                Some((0, vec![req]))
            }
        },
    }
}

/// The assembled chain: at each position a mapping from incoming port
/// to the stage that handles it, and the mapping from final port to
/// terminal.
pub struct Modules {
    pub nonterminals: Vec<KvMap<Stage>>,
    pub terminal: KvMap<Stage>,
}

impl Modules {
    /// Every port map and every held stage is well formed.
    pub open spec fn modules_inv(&self) -> bool {
        &&& self.terminal.inv()
        &&& forall|p: u64|
            self.terminal@.contains_key(p) ==> (#[trigger] self.terminal@[p]).stage_inv()
        &&& forall|i: int|
            0 <= i < self.nonterminals@.len() ==> (#[trigger] self.nonterminals@[i]).inv()
        &&& forall|i: int, p: u64|
            0 <= i < self.nonterminals@.len() && (#[trigger] self.nonterminals@[i])@.contains_key(
                p,
            ) ==> (#[trigger] self.nonterminals@[i]@[p]).stage_inv()
    }

    /// An empty chain.
    pub fn new() -> (r: Modules)
        ensures
            r.modules_inv(),
            r.nonterminals@.len() == 0,
            r.terminal@ == Map::<u64, Stage>::empty(),
    {
        Modules { nonterminals: Vec::new(), terminal: KvMap::new() }
    }

    /// Wire `term` as the terminal for final port `port`.
    pub fn add_terminal(&mut self, port: u8, term: Stage)
        requires
            old(self).modules_inv(),
            term.stage_inv(),
        ensures
            final(self).modules_inv(),
            final(self).nonterminals@ == old(self).nonterminals@,
            final(self).terminal@ == old(self).terminal@.insert(port as u64, term),
    {
        self.terminal.set(port as u64, term);
    }

    /// Wire `nonterm` at chain position `idx` for incoming port `port`;
    /// position `idx` may be at most one past the current chain, in
    /// which case a new level is appended. Every other entry of the
    /// chain and the terminal map stay as they were.
    pub fn add_nonterminal(&mut self, idx: usize, port: u8, nonterm: Stage)
        requires
            old(self).modules_inv(),
            nonterm.stage_inv(),
            idx <= old(self).nonterminals@.len(),
        ensures
            final(self).modules_inv(),
            final(self).terminal@ == old(self).terminal@,
            final(self).nonterminals@.len() == (if idx == old(self).nonterminals@.len() {
                old(self).nonterminals@.len() + 1
            } else {
                old(self).nonterminals@.len()
            }),
            final(self).nonterminals@[idx as int]@ == (if idx < old(self).nonterminals@.len() {
                old(self).nonterminals@[idx as int]@
            } else {
                Map::<u64, Stage>::empty()
            }).insert(port as u64, nonterm),
            forall|i: int|
                0 <= i < old(self).nonterminals@.len() && i != idx ==> final(self).nonterminals@[i]
                    == old(self).nonterminals@[i],
    {
        if idx == self.nonterminals.len() {
            self.nonterminals.push(KvMap::new());
        }
        let mut map = self.nonterminals.remove(idx);
        map.set(port as u64, nonterm);
        self.nonterminals.insert(idx, map);
        proof {
            assert(forall|i: int|
                0 <= i < self.nonterminals@.len() ==> (#[trigger] self.nonterminals@[i]).inv());
        }
    }

    /// Run one message through the chain: each non-terminal must hand
    /// back exactly one message and the port of the next stage; the last
    /// port selects the terminal. Every stage of this chain returns its
    /// input untouched, so a forwarded message is the one that came in.
    /// `None` ends the connection, whether a stage said so, a port was
    /// unwired, or a non-terminal broke the one-message rule.
    pub fn traverse(&mut self, h_type: u32, source: Source, req: Request) -> (r: Option<(
        u8,
        Vec<Request>,
    )>)
        requires
            old(self).modules_inv(),
            req.wf(),
        ensures
            final(self).modules_inv(),
            r matches Some(o) ==> (o.1@.len() == 1 && o.1@[0] == req),
            r matches Some(o) ==> forall|i: int| 0 <= i < o.1@.len() ==> (#[trigger] o.1@[i]).wf(),
            (match route_spec(
                levels_of(old(self).nonterminals@),
                old(self).terminal@,
                0,
                0,
                h_type,
                source,
                req,
            ) {
                None => r is None,
                Some(p) => r matches Some(o) && o.0 == p,
            }),
            (old(self).nonterminals@.len() == 0 && !old(self).terminal@.contains_key(0)) ==> r
                is None,
            (old(self).nonterminals@.len() == 0 && old(self).terminal@.contains_key(0) && old(
                self,
            ).terminal@[0] is Reset) ==> r is None,
            (old(self).nonterminals@.len() == 0 && old(self).terminal@.contains_key(0) && old(
                self,
            ).terminal@[0] is Null) ==> (r matches Some(o) && o.0 == 0 && final(self).terminal@
                == old(self).terminal@ && final(self).nonterminals@ == old(self).nonterminals@),
            (old(self).nonterminals@.len() == 1 && old(self).nonterminals@[0]@.contains_key(0)
                && old(self).nonterminals@[0]@[0] is Check && old(self).terminal@.contains_key(0)
                && old(self).terminal@[0] is Null && old(self).terminal@.contains_key(1) && old(
                self,
            ).terminal@[1] is Reset) ==> (r is None || (r matches Some(o) && o.0 == 0)),
    {
        let mut port: u8 = 0;
        let mut current = req;
        let n = self.nonterminals.len();
        let mut idx: usize = 0;
        while idx < n
            invariant
                self.modules_inv(),
                current.wf(),
                current == req,
                idx <= n,
                n == self.nonterminals@.len(),
                n as int == old(self).nonterminals@.len(),
                self.terminal == old(self).terminal,
                forall|j: int|
                    idx <= j < n ==> self.nonterminals@[j] == old(self).nonterminals@[j],
                route_spec(
                    levels_of(old(self).nonterminals@),
                    old(self).terminal@,
                    0,
                    0,
                    h_type,
                    source,
                    req,
                ) == route_spec(
                    levels_of(old(self).nonterminals@),
                    old(self).terminal@,
                    idx as int,
                    port,
                    h_type,
                    source,
                    req,
                ),
                n == 0 ==> port == 0,
                idx == 0 ==> port == 0,
                (old(self).nonterminals@.len() == 1 && old(self).nonterminals@[0]@.contains_key(0)
                    && old(self).nonterminals@[0]@[0] is Check && idx > 0) ==> (port == 0 || port
                    == 1),
            decreases n - idx,
        {
            let mut map = self.nonterminals.remove(idx);
            let mut stage = match map.remove(port as u64) {
                Some(s) => s,
                None => {
                    self.nonterminals.insert(idx, map);
                    return None;
                },
            };
            let out = stage_handle(&mut stage, h_type, source, current);
            map.set(port as u64, stage);
            self.nonterminals.insert(idx, map);
            match out {
                Some((p, mut v)) => {
                    if v.len() != 1 {
                        return None;
                    }
                    current = match v.pop() {
                        Some(x) => x,
                        None => {
                            return None;
                        },
                    };
                    port = p;
                },
                None => {
                    return None;
                },
            }
            idx = idx + 1;
        }
        let mut stage = match self.terminal.remove(port as u64) {
            Some(s) => s,
            None => {
                return None;
            },
        };
        let out = stage_handle(&mut stage, h_type, source, current);
        self.terminal.set(port as u64, stage);
        proof {
            if old(self).nonterminals@.len() == 0 && old(self).terminal@.contains_key(0) && old(
                self,
            ).terminal@[0] is Null {
                assert(self.terminal@ =~= old(self).terminal@);
            }
        }
        out
    }
}

impl HasHandlers for Modules {
    /// The chain is well formed when all its stages are.
    open spec fn inv(&self) -> bool {
        self.modules_inv()
    }

    /// The chain routes every message through its stages, so it is not
    /// a pass-through for any type.
    open spec fn passes_through(h_type: u32) -> bool {
        false
    }

    fn handle_hello(&mut self, source: Source, req: Request) -> (r: Option<(
        u8,
        Vec<Request>,
    )>)
        ensures
            r matches Some(o) ==> (o.1@.len() == 1 && o.1@[0] == req),
            (match route_spec(
                levels_of(old(self).nonterminals@),
                old(self).terminal@,
                0,
                0,
                usbr::TYPE_HELLO,
                source,
                req,
            ) {
                None => r is None,
                Some(p) => r matches Some(o) && o.0 == p,
            }),
    {
        self.traverse(usbr::TYPE_HELLO, source, req)
    }

    fn handle_connect(&mut self, source: Source, req: Request) -> (r: Option<(
        u8,
        Vec<Request>,
    )>)
        ensures
            r matches Some(o) ==> (o.1@.len() == 1 && o.1@[0] == req),
            (match route_spec(
                levels_of(old(self).nonterminals@),
                old(self).terminal@,
                0,
                0,
                usbr::TYPE_DEVICE_CONNECT,
                source,
                req,
            ) {
                None => r is None,
                Some(p) => r matches Some(o) && o.0 == p,
            }),
    {
        self.traverse(usbr::TYPE_DEVICE_CONNECT, source, req)
    }

    fn handle_disconnect(&mut self, source: Source, req: Request) -> (r: Option<(
        u8,
        Vec<Request>,
    )>)
        ensures
            r matches Some(o) ==> (o.1@.len() == 1 && o.1@[0] == req),
            (match route_spec(
                levels_of(old(self).nonterminals@),
                old(self).terminal@,
                0,
                0,
                usbr::TYPE_DEVICE_DISCONNECT,
                source,
                req,
            ) {
                None => r is None,
                Some(p) => r matches Some(o) && o.0 == p,
            }),
    {
        self.traverse(usbr::TYPE_DEVICE_DISCONNECT, source, req)
    }

    fn handle_disconnect_ack(&mut self, source: Source, req: Request) -> (r: Option<(
        u8,
        Vec<Request>,
    )>)
        ensures
            r matches Some(o) ==> (o.1@.len() == 1 && o.1@[0] == req),
            (match route_spec(
                levels_of(old(self).nonterminals@),
                old(self).terminal@,
                0,
                0,
                usbr::TYPE_DEVICE_DISCONNECT_ACK,
                source,
                req,
            ) {
                None => r is None,
                Some(p) => r matches Some(o) && o.0 == p,
            }),
    {
        self.traverse(usbr::TYPE_DEVICE_DISCONNECT_ACK, source, req)
    }

    fn handle_reset(&mut self, source: Source, req: Request) -> (r: Option<(
        u8,
        Vec<Request>,
    )>)
        ensures
            r matches Some(o) ==> (o.1@.len() == 1 && o.1@[0] == req),
            (match route_spec(
                levels_of(old(self).nonterminals@),
                old(self).terminal@,
                0,
                0,
                usbr::TYPE_RESET,
                source,
                req,
            ) {
                None => r is None,
                Some(p) => r matches Some(o) && o.0 == p,
            }),
    {
        self.traverse(usbr::TYPE_RESET, source, req)
    }

    fn handle_cancel_data_packet(&mut self, source: Source, req: Request) -> (r: Option<(
        u8,
        Vec<Request>,
    )>)
        ensures
            r matches Some(o) ==> (o.1@.len() == 1 && o.1@[0] == req),
            (match route_spec(
                levels_of(old(self).nonterminals@),
                old(self).terminal@,
                0,
                0,
                usbr::TYPE_CANCEL_DATA_PACKET,
                source,
                req,
            ) {
                None => r is None,
                Some(p) => r matches Some(o) && o.0 == p,
            }),
    {
        self.traverse(usbr::TYPE_CANCEL_DATA_PACKET, source, req)
    }

    fn handle_interface_info(&mut self, source: Source, req: Request) -> (r: Option<(
        u8,
        Vec<Request>,
    )>)
        ensures
            r matches Some(o) ==> (o.1@.len() == 1 && o.1@[0] == req),
            (match route_spec(
                levels_of(old(self).nonterminals@),
                old(self).terminal@,
                0,
                0,
                usbr::TYPE_INTERFACE_INFO,
                source,
                req,
            ) {
                None => r is None,
                Some(p) => r matches Some(o) && o.0 == p,
            }),
    {
        self.traverse(usbr::TYPE_INTERFACE_INFO, source, req)
    }

    fn handle_ep_info(&mut self, source: Source, req: Request) -> (r: Option<(
        u8,
        Vec<Request>,
    )>)
        ensures
            r matches Some(o) ==> (o.1@.len() == 1 && o.1@[0] == req),
            (match route_spec(
                levels_of(old(self).nonterminals@),
                old(self).terminal@,
                0,
                0,
                usbr::TYPE_EP_INFO,
                source,
                req,
            ) {
                None => r is None,
                Some(p) => r matches Some(o) && o.0 == p,
            }),
    {
        self.traverse(usbr::TYPE_EP_INFO, source, req)
    }

    fn handle_get_conf(&mut self, source: Source, req: Request) -> (r: Option<(
        u8,
        Vec<Request>,
    )>)
        ensures
            r matches Some(o) ==> (o.1@.len() == 1 && o.1@[0] == req),
            (match route_spec(
                levels_of(old(self).nonterminals@),
                old(self).terminal@,
                0,
                0,
                usbr::TYPE_GET_CONF,
                source,
                req,
            ) {
                None => r is None,
                Some(p) => r matches Some(o) && o.0 == p,
            }),
    {
        self.traverse(usbr::TYPE_GET_CONF, source, req)
    }

    fn handle_set_conf(&mut self, source: Source, req: Request) -> (r: Option<(
        u8,
        Vec<Request>,
    )>)
        ensures
            r matches Some(o) ==> (o.1@.len() == 1 && o.1@[0] == req),
            (match route_spec(
                levels_of(old(self).nonterminals@),
                old(self).terminal@,
                0,
                0,
                usbr::TYPE_SET_CONF,
                source,
                req,
            ) {
                None => r is None,
                Some(p) => r matches Some(o) && o.0 == p,
            }),
    {
        self.traverse(usbr::TYPE_SET_CONF, source, req)
    }

    fn handle_conf_status(&mut self, source: Source, req: Request) -> (r: Option<(
        u8,
        Vec<Request>,
    )>)
        ensures
            r matches Some(o) ==> (o.1@.len() == 1 && o.1@[0] == req),
            (match route_spec(
                levels_of(old(self).nonterminals@),
                old(self).terminal@,
                0,
                0,
                usbr::TYPE_CONF_STATUS,
                source,
                req,
            ) {
                None => r is None,
                Some(p) => r matches Some(o) && o.0 == p,
            }),
    {
        self.traverse(usbr::TYPE_CONF_STATUS, source, req)
    }

    fn handle_get_alt_setting(&mut self, source: Source, req: Request) -> (r: Option<(
        u8,
        Vec<Request>,
    )>)
        ensures
            r matches Some(o) ==> (o.1@.len() == 1 && o.1@[0] == req),
            (match route_spec(
                levels_of(old(self).nonterminals@),
                old(self).terminal@,
                0,
                0,
                usbr::TYPE_GET_ALT_SETTING,
                source,
                req,
            ) {
                None => r is None,
                Some(p) => r matches Some(o) && o.0 == p,
            }),
    {
        self.traverse(usbr::TYPE_GET_ALT_SETTING, source, req)
    }

    fn handle_set_alt_setting(&mut self, source: Source, req: Request) -> (r: Option<(
        u8,
        Vec<Request>,
    )>)
        ensures
            r matches Some(o) ==> (o.1@.len() == 1 && o.1@[0] == req),
            (match route_spec(
                levels_of(old(self).nonterminals@),
                old(self).terminal@,
                0,
                0,
                usbr::TYPE_SET_ALT_SETTING,
                source,
                req,
            ) {
                None => r is None,
                Some(p) => r matches Some(o) && o.0 == p,
            }),
    {
        self.traverse(usbr::TYPE_SET_ALT_SETTING, source, req)
    }

    fn handle_alt_setting_status(&mut self, source: Source, req: Request) -> (r: Option<(
        u8,
        Vec<Request>,
    )>)
        ensures
            r matches Some(o) ==> (o.1@.len() == 1 && o.1@[0] == req),
            (match route_spec(
                levels_of(old(self).nonterminals@),
                old(self).terminal@,
                0,
                0,
                usbr::TYPE_ALT_SETTING_STATUS,
                source,
                req,
            ) {
                None => r is None,
                Some(p) => r matches Some(o) && o.0 == p,
            }),
    {
        self.traverse(usbr::TYPE_ALT_SETTING_STATUS, source, req)
    }

    fn handle_start_iso_stream(&mut self, source: Source, req: Request) -> (r: Option<(
        u8,
        Vec<Request>,
    )>)
        ensures
            r matches Some(o) ==> (o.1@.len() == 1 && o.1@[0] == req),
            (match route_spec(
                levels_of(old(self).nonterminals@),
                old(self).terminal@,
                0,
                0,
                usbr::TYPE_START_ISO_STREAM,
                source,
                req,
            ) {
                None => r is None,
                Some(p) => r matches Some(o) && o.0 == p,
            }),
    {
        self.traverse(usbr::TYPE_START_ISO_STREAM, source, req)
    }

    fn handle_stop_iso_stream(&mut self, source: Source, req: Request) -> (r: Option<(
        u8,
        Vec<Request>,
    )>)
        ensures
            r matches Some(o) ==> (o.1@.len() == 1 && o.1@[0] == req),
            (match route_spec(
                levels_of(old(self).nonterminals@),
                old(self).terminal@,
                0,
                0,
                usbr::TYPE_STOP_ISO_STREAM,
                source,
                req,
            ) {
                None => r is None,
                Some(p) => r matches Some(o) && o.0 == p,
            }),
    {
        self.traverse(usbr::TYPE_STOP_ISO_STREAM, source, req)
    }

    fn handle_iso_stream_status(&mut self, source: Source, req: Request) -> (r: Option<(
        u8,
        Vec<Request>,
    )>)
        ensures
            r matches Some(o) ==> (o.1@.len() == 1 && o.1@[0] == req),
            (match route_spec(
                levels_of(old(self).nonterminals@),
                old(self).terminal@,
                0,
                0,
                usbr::TYPE_ISO_STREAM_STATUS,
                source,
                req,
            ) {
                None => r is None,
                Some(p) => r matches Some(o) && o.0 == p,
            }),
    {
        self.traverse(usbr::TYPE_ISO_STREAM_STATUS, source, req)
    }

    fn handle_start_int_receiving(&mut self, source: Source, req: Request) -> (r: Option<(
        u8,
        Vec<Request>,
    )>)
        ensures
            r matches Some(o) ==> (o.1@.len() == 1 && o.1@[0] == req),
            (match route_spec(
                levels_of(old(self).nonterminals@),
                old(self).terminal@,
                0,
                0,
                usbr::TYPE_START_INT_RECEIVING,
                source,
                req,
            ) {
                None => r is None,
                Some(p) => r matches Some(o) && o.0 == p,
            }),
    {
        self.traverse(usbr::TYPE_START_INT_RECEIVING, source, req)
    }

    fn handle_stop_int_receiving(&mut self, source: Source, req: Request) -> (r: Option<(
        u8,
        Vec<Request>,
    )>)
        ensures
            r matches Some(o) ==> (o.1@.len() == 1 && o.1@[0] == req),
            (match route_spec(
                levels_of(old(self).nonterminals@),
                old(self).terminal@,
                0,
                0,
                usbr::TYPE_STOP_INT_RECEIVING,
                source,
                req,
            ) {
                None => r is None,
                Some(p) => r matches Some(o) && o.0 == p,
            }),
    {
        self.traverse(usbr::TYPE_STOP_INT_RECEIVING, source, req)
    }

    fn handle_int_receiving_status(&mut self, source: Source, req: Request) -> (r: Option<(
        u8,
        Vec<Request>,
    )>)
        ensures
            r matches Some(o) ==> (o.1@.len() == 1 && o.1@[0] == req),
            (match route_spec(
                levels_of(old(self).nonterminals@),
                old(self).terminal@,
                0,
                0,
                usbr::TYPE_INT_RECEIVING_STATUS,
                source,
                req,
            ) {
                None => r is None,
                Some(p) => r matches Some(o) && o.0 == p,
            }),
    {
        self.traverse(usbr::TYPE_INT_RECEIVING_STATUS, source, req)
    }

    fn handle_alloc_bulk_streams(&mut self, source: Source, req: Request) -> (r: Option<(
        u8,
        Vec<Request>,
    )>)
        ensures
            r matches Some(o) ==> (o.1@.len() == 1 && o.1@[0] == req),
            (match route_spec(
                levels_of(old(self).nonterminals@),
                old(self).terminal@,
                0,
                0,
                usbr::TYPE_ALLOC_BULK_STREAMS,
                source,
                req,
            ) {
                None => r is None,
                Some(p) => r matches Some(o) && o.0 == p,
            }),
    {
        self.traverse(usbr::TYPE_ALLOC_BULK_STREAMS, source, req)
    }

    fn handle_free_bulk_streams(&mut self, source: Source, req: Request) -> (r: Option<(
        u8,
        Vec<Request>,
    )>)
        ensures
            r matches Some(o) ==> (o.1@.len() == 1 && o.1@[0] == req),
            (match route_spec(
                levels_of(old(self).nonterminals@),
                old(self).terminal@,
                0,
                0,
                usbr::TYPE_FREE_BULK_STREAMS,
                source,
                req,
            ) {
                None => r is None,
                Some(p) => r matches Some(o) && o.0 == p,
            }),
    {
        self.traverse(usbr::TYPE_FREE_BULK_STREAMS, source, req)
    }

    fn handle_bulk_streams_status(&mut self, source: Source, req: Request) -> (r: Option<(
        u8,
        Vec<Request>,
    )>)
        ensures
            r matches Some(o) ==> (o.1@.len() == 1 && o.1@[0] == req),
            (match route_spec(
                levels_of(old(self).nonterminals@),
                old(self).terminal@,
                0,
                0,
                usbr::TYPE_BULK_STREAMS_STATUS,
                source,
                req,
            ) {
                None => r is None,
                Some(p) => r matches Some(o) && o.0 == p,
            }),
    {
        self.traverse(usbr::TYPE_BULK_STREAMS_STATUS, source, req)
    }

    fn handle_start_bulk_receiving(&mut self, source: Source, req: Request) -> (r: Option<(
        u8,
        Vec<Request>,
    )>)
        ensures
            r matches Some(o) ==> (o.1@.len() == 1 && o.1@[0] == req),
            (match route_spec(
                levels_of(old(self).nonterminals@),
                old(self).terminal@,
                0,
                0,
                usbr::TYPE_START_BULK_RECEIVING,
                source,
                req,
            ) {
                None => r is None,
                Some(p) => r matches Some(o) && o.0 == p,
            }),
    {
        self.traverse(usbr::TYPE_START_BULK_RECEIVING, source, req)
    }

    fn handle_stop_bulk_receiving(&mut self, source: Source, req: Request) -> (r: Option<(
        u8,
        Vec<Request>,
    )>)
        ensures
            r matches Some(o) ==> (o.1@.len() == 1 && o.1@[0] == req),
            (match route_spec(
                levels_of(old(self).nonterminals@),
                old(self).terminal@,
                0,
                0,
                usbr::TYPE_STOP_BULK_RECEIVING,
                source,
                req,
            ) {
                None => r is None,
                Some(p) => r matches Some(o) && o.0 == p,
            }),
    {
        self.traverse(usbr::TYPE_STOP_BULK_RECEIVING, source, req)
    }

    fn handle_bulk_receiving_status(&mut self, source: Source, req: Request) -> (r: Option<(
        u8,
        Vec<Request>,
    )>)
        ensures
            r matches Some(o) ==> (o.1@.len() == 1 && o.1@[0] == req),
            (match route_spec(
                levels_of(old(self).nonterminals@),
                old(self).terminal@,
                0,
                0,
                usbr::TYPE_BULK_RECEIVING_STATUS,
                source,
                req,
            ) {
                None => r is None,
                Some(p) => r matches Some(o) && o.0 == p,
            }),
    {
        self.traverse(usbr::TYPE_BULK_RECEIVING_STATUS, source, req)
    }

    fn handle_filter_reject(&mut self, source: Source, req: Request) -> (r: Option<(
        u8,
        Vec<Request>,
    )>)
        ensures
            r matches Some(o) ==> (o.1@.len() == 1 && o.1@[0] == req),
            (match route_spec(
                levels_of(old(self).nonterminals@),
                old(self).terminal@,
                0,
                0,
                usbr::TYPE_FILTER_REJECT,
                source,
                req,
            ) {
                None => r is None,
                Some(p) => r matches Some(o) && o.0 == p,
            }),
    {
        self.traverse(usbr::TYPE_FILTER_REJECT, source, req)
    }

    fn handle_control_packet(&mut self, source: Source, req: Request) -> (r: Option<(
        u8,
        Vec<Request>,
    )>)
        ensures
            r matches Some(o) ==> (o.1@.len() == 1 && o.1@[0] == req),
            (match route_spec(
                levels_of(old(self).nonterminals@),
                old(self).terminal@,
                0,
                0,
                usbr::TYPE_CONTROL_PACKET,
                source,
                req,
            ) {
                None => r is None,
                Some(p) => r matches Some(o) && o.0 == p,
            }),
    {
        self.traverse(usbr::TYPE_CONTROL_PACKET, source, req)
    }

    fn handle_bulk_packet(&mut self, source: Source, req: Request) -> (r: Option<(
        u8,
        Vec<Request>,
    )>)
        ensures
            r matches Some(o) ==> (o.1@.len() == 1 && o.1@[0] == req),
            (match route_spec(
                levels_of(old(self).nonterminals@),
                old(self).terminal@,
                0,
                0,
                usbr::TYPE_BULK_PACKET,
                source,
                req,
            ) {
                None => r is None,
                Some(p) => r matches Some(o) && o.0 == p,
            }),
    {
        self.traverse(usbr::TYPE_BULK_PACKET, source, req)
    }

    fn handle_int_packet(&mut self, source: Source, req: Request) -> (r: Option<(
        u8,
        Vec<Request>,
    )>)
        ensures
            r matches Some(o) ==> (o.1@.len() == 1 && o.1@[0] == req),
            (match route_spec(
                levels_of(old(self).nonterminals@),
                old(self).terminal@,
                0,
                0,
                usbr::TYPE_INT_PACKET,
                source,
                req,
            ) {
                None => r is None,
                Some(p) => r matches Some(o) && o.0 == p,
            }),
    {
        self.traverse(usbr::TYPE_INT_PACKET, source, req)
    }

    fn handle_iso_packet(&mut self, source: Source, req: Request) -> (r: Option<(
        u8,
        Vec<Request>,
    )>)
        ensures
            r matches Some(o) ==> (o.1@.len() == 1 && o.1@[0] == req),
            (match route_spec(
                levels_of(old(self).nonterminals@),
                old(self).terminal@,
                0,
                0,
                usbr::TYPE_ISO_PACKET,
                source,
                req,
            ) {
                None => r is None,
                Some(p) => r matches Some(o) && o.0 == p,
            }),
    {
        self.traverse(usbr::TYPE_ISO_PACKET, source, req)
    }

    fn handle_buffered_bulk_packet(&mut self, source: Source, req: Request) -> (r: Option<(
        u8,
        Vec<Request>,
    )>)
        ensures
            r matches Some(o) ==> (o.1@.len() == 1 && o.1@[0] == req),
            (match route_spec(
                levels_of(old(self).nonterminals@),
                old(self).terminal@,
                0,
                0,
                usbr::TYPE_BUFFERED_BULK_PACKET,
                source,
                req,
            ) {
                None => r is None,
                Some(p) => r matches Some(o) && o.0 == p,
            }),
    {
        self.traverse(usbr::TYPE_BUFFERED_BULK_PACKET, source, req)
    }

}

} // verus!
