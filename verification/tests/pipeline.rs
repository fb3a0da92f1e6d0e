use cinch::control_checks::ControlCheck;
use cinch::endpoint::{gen_caps, CinchEndpoint, StateChannel};
use cinch::modules::{Modules, Stage};
use cinch::parser;
use cinch::parser::{ByteSink, ByteSource, HasHandlers, ParserState, Source};
use cinch::patcher::{Patch, PatchKind, PatchMetadata, Patcher};
use cinch::usbr;

struct VecSource {
    data: Vec<u8>,
    pos: usize,
}

impl ByteSource for VecSource {
    fn read_bytes(&mut self, n: usize) -> Option<Vec<u8>> {
        if self.data.len() - self.pos < n {
            return None;
        }
        let out = self.data[self.pos..self.pos + n].to_vec();
        self.pos += n;
        Some(out)
    }
}

struct VecSink {
    out: Vec<u8>,
}

impl ByteSink for VecSink {
    fn write_bytes(&mut self, data: &Vec<u8>) -> bool {
        self.out.extend_from_slice(data);
        true
    }

    fn flush(&mut self) -> bool {
        true
    }
}

struct TestChannel {
    pending: Vec<ParserState>,
    sent: Vec<ParserState>,
}

impl StateChannel for TestChannel {
    fn try_recv(&mut self) -> Option<ParserState> {
        if self.pending.is_empty() {
            None
        } else {
            Some(self.pending.remove(0))
        }
    }

    fn send(&mut self, s: ParserState) -> bool {
        self.sent.push(s);
        true
    }
}

fn control_request(requesttype: u8) -> parser::Request {
    let mut header: Vec<u8> = vec![];
    cinch::bytes::write_u32_le(&mut header, usbr::TYPE_CONTROL_PACKET);
    cinch::bytes::write_u32_le(&mut header, 10);
    cinch::bytes::write_u64_le(&mut header, 1);
    let type_header = vec![0x80, 0x06, requesttype, 0, 0, 0, 0, 0, 0, 0];
    parser::Request { header, type_header, data: vec![] }
}

#[test]
fn validator_match_routes_to_port_one() {
    // A vendor-type control request is classified as a match: the
    // validator returns port 1 with exactly the one input request,
    // unchanged.
    let mut cc = ControlCheck::new(vec![]);
    let req = control_request(0x40);
    let (port, out) = cc.check_control_packet(Source::Red, req);
    assert_eq!(port, 1);
    assert_eq!(out.len(), 1);
    assert_eq!(out[0].type_header, vec![0x80, 0x06, 0x40, 0, 0, 0, 0, 0, 0, 0]);
    assert_eq!(out[0].data, Vec::<u8>::new());
}

#[test]
fn pipeline_reset_on_match() {
    // Validator on the chain, null on port 0 and reset on port 1: a
    // vendor-type control packet ends the connection.
    let mut modules = Modules::new();
    modules.add_terminal(0, Stage::Null);
    modules.add_terminal(1, Stage::Reset);
    modules.add_nonterminal(0, 0, Stage::Check(ControlCheck::new(vec![])));

    let bad = control_request(0x40);
    assert!(modules.handle_control_packet(Source::Red, bad).is_none());

    // A message family the validator does not inspect flows through.
    let benign = parser::Request {
        header: {
            let mut h: Vec<u8> = vec![];
            cinch::bytes::write_u32_le(&mut h, usbr::TYPE_GET_CONF);
            cinch::bytes::write_u32_le(&mut h, 0);
            cinch::bytes::write_u64_le(&mut h, 2);
            h
        },
        type_header: vec![],
        data: vec![],
    };
    let (port, out) = modules.handle_get_conf(Source::Blue, benign).unwrap();
    assert_eq!(port, 0);
    assert_eq!(out.len(), 1);
}

#[test]
fn endpoint_drives_hello() {
    // One full driver cycle over an incoming hello: the parser records
    // it, the chain forwards it, and the echo goes out with the short
    // 12-byte header.
    let caps = gen_caps();
    let mut p = parser::Parser::new(Source::Red);
    p.init("proxy", &caps).unwrap();

    let mut stream: Vec<u8> = vec![];
    cinch::bytes::write_u32_le(&mut stream, usbr::TYPE_HELLO);
    cinch::bytes::write_u32_le(&mut stream, 68);
    cinch::bytes::write_u32_le(&mut stream, 1); // short 32-bit packet id
    stream.extend_from_slice(&[0u8; 64]); // version field
    cinch::bytes::write_u32_le(&mut stream, caps[0]); // capability word

    let mut modules = Modules::new();
    modules.add_terminal(0, Stage::Null);

    let mut endpoint = CinchEndpoint::new(
        p,
        VecSource { data: stream, pos: 0 },
        VecSink { out: vec![] },
        modules,
        TestChannel { pending: vec![], sent: vec![] },
    );

    assert!(endpoint.process_next_request());
    assert_eq!(endpoint.parser.state, ParserState::Hello);
    assert_eq!(endpoint.writer.out.len(), 12 + 64 + 4);

    // The stream is exhausted: the next cycle reports the connection
    // over.
    assert!(!endpoint.process_next_request());
}

#[test]
fn endpoint_consumes_peer_state() {
    let caps = gen_caps();
    let mut p = parser::Parser::new(Source::Red);
    p.init("proxy", &caps).unwrap();
    p.state = ParserState::Hello;

    let mut modules = Modules::new();
    modules.add_terminal(0, Stage::Null);

    // The peer direction published two state changes; the next cycle
    // drains them before pulling, then fails on the empty stream.
    let mut endpoint = CinchEndpoint::new(
        p,
        VecSource { data: vec![], pos: 0 },
        VecSink { out: vec![] },
        modules,
        TestChannel {
            pending: vec![ParserState::IfaceReceived, ParserState::EpReceived],
            sent: vec![],
        },
    );
    assert!(!endpoint.process_next_request());
    assert_eq!(endpoint.parser.state, ParserState::Informed);
}

#[test]
fn patcher_counts_matches() {
    // One bulk signature, hex "cafe", tolerating two matches.
    let patch = Patch {
        meta: PatchMetadata {
            p_type: PatchKind::Bulk,
            vendor_id: 0,
            product_id: 0,
            request: 0,
            requesttype: 0,
            patch_id: 7,
            min_matches: 2,
        },
        data: vec![b'c', b'a', b'f', b'e'],
    };
    let mut patcher = Patcher::new(vec![patch]);

    let req = parser::Request {
        header: vec![0; 16],
        type_header: vec![0; 10],
        data: vec![0xca, 0xfe],
    };
    // The first hit decrements the count; the second exhausts it.
    assert!(patcher.check_bulk_packet(&req));
    assert!(!patcher.check_bulk_packet(&req));

    // A payload without the signature never counts.
    let clean = parser::Request {
        header: vec![0; 16],
        type_header: vec![0; 10],
        data: vec![0x00, 0x11],
    };
    let mut patcher2 = Patcher::new(vec![Patch {
        meta: PatchMetadata {
            p_type: PatchKind::Bulk,
            vendor_id: 0,
            product_id: 0,
            request: 0,
            requesttype: 0,
            patch_id: 7,
            min_matches: 1,
        },
        data: vec![b'c', b'a', b'f', b'e'],
    }]);
    assert!(patcher2.check_bulk_packet(&clean));
}

#[test]
fn patcher_blocks_listed_device() {
    let patch = Patch {
        meta: PatchMetadata {
            p_type: PatchKind::Connect,
            vendor_id: 5,
            product_id: 6,
            request: 0,
            requesttype: 0,
            patch_id: 1,
            min_matches: 1,
        },
        data: vec![],
    };
    let mut patcher = Patcher::new(vec![patch]);

    // The connect header carries vendor 5 and product 6.
    let mut th: Vec<u8> = vec![1, 2, 3, 4];
    cinch::bytes::write_u16_le(&mut th, 5);
    cinch::bytes::write_u16_le(&mut th, 6);
    cinch::bytes::write_u16_le(&mut th, 7);
    let req = parser::Request { header: vec![0; 16], type_header: th, data: vec![] };
    assert!(!patcher.check_connect(&req));

    // A different device passes.
    let mut th2: Vec<u8> = vec![1, 2, 3, 4];
    cinch::bytes::write_u16_le(&mut th2, 8);
    cinch::bytes::write_u16_le(&mut th2, 6);
    cinch::bytes::write_u16_le(&mut th2, 7);
    let req2 = parser::Request { header: vec![0; 16], type_header: th2, data: vec![] };
    assert!(patcher.check_connect(&req2));
}
