use std::collections::HashMap;

use cinch::bytes::{write_u16_le, write_u32_le, write_u64_le};
use cinch::parser;
use cinch::parser::{ByteSink, ByteSource, ParserState, Source};
use cinch::usbr;

struct FakeHandler {
    #[allow(dead_code)]
    id: u8,
}

impl parser::HasHandlers for FakeHandler {}

struct VecSource {
    data: Vec<u8>,
    pos: usize,
}

impl VecSource {
    fn new(data: Vec<u8>) -> VecSource {
        VecSource { data, pos: 0 }
    }
}

impl ByteSource for VecSource {
    fn read_bytes(&mut self, n: usize) -> Option<Vec<u8>> {
        if self.data.len() - self.pos < n {
            return None;
        }
        let out = self.data[self.pos..self.pos + n].to_vec();
        self.pos += n;
        Some(out)
    }
}

struct VecSink {
    out: Vec<u8>,
}

impl ByteSink for VecSink {
    fn write_bytes(&mut self, data: &Vec<u8>) -> bool {
        self.out.extend_from_slice(data);
        true
    }

    fn flush(&mut self) -> bool {
        true
    }
}

fn util_init_caps() -> Vec<u32> {
    let mut caps: Vec<u32> = vec![0];
    parser::set_cap(&mut caps, usbr::Caps::BulkStreams as usize);
    parser::set_cap(&mut caps, usbr::Caps::ConnectDeviceVersion as usize);
    parser::set_cap(&mut caps, usbr::Caps::EpInfoMaxPacketSize as usize);
    parser::set_cap(&mut caps, usbr::Caps::Cap64BitsIds as usize);
    parser::set_cap(&mut caps, usbr::Caps::Cap32BitsBulkLength as usize);
    parser::set_cap(&mut caps, usbr::Caps::BulkReceiving as usize);
    caps
}

fn util_host_parser() -> parser::Parser {
    let mut x = parser::Parser::new(Source::Red);
    let caps = util_init_caps();
    x.init("1", &caps).unwrap();
    x
}

fn util_guest_parser() -> parser::Parser {
    let mut x = parser::Parser::new(Source::Blue);
    let caps = util_init_caps();
    x.init("1", &caps).unwrap();
    x
}

fn util_redir_header(h_type: u32, len: u32, id: u64) -> Vec<u8> {
    let mut buf: Vec<u8> = vec![];
    write_u32_le(&mut buf, h_type);
    write_u32_le(&mut buf, len);
    write_u64_le(&mut buf, id);
    buf
}

fn util_hello_header(caps: &[u32], version: &[u8]) -> (Vec<u8>, Vec<u8>) {
    let mut h_type: Vec<u8> = vec![0; 64];
    assert!(version.len() <= h_type.len());
    h_type[0..version.len()].clone_from_slice(version);
    let mut data: Vec<u8> = vec![];
    for i in caps {
        write_u32_le(&mut data, *i);
    }
    (h_type, data)
}

// Same layout as the control-packet header.
fn util_connect_header() -> Vec<u8> {
    let mut buf: Vec<u8> = vec![];
    buf.push(1);
    buf.push(2);
    buf.push(3);
    buf.push(4);
    write_u16_le(&mut buf, 5);
    write_u16_le(&mut buf, 6);
    write_u16_le(&mut buf, 7);
    buf
}

fn util_interface_header(count: u32) -> Vec<u8> {
    let mut buf: Vec<u8> = vec![];
    write_u32_le(&mut buf, count);
    buf.extend(&[1u8; 32]);
    buf.extend(&[2u8; 32]);
    buf.extend(&[3u8; 32]);
    buf.extend(&[4u8; 32]);
    buf
}

fn util_ep_header() -> Vec<u8> {
    let mut buf: Vec<u8> = vec![];
    buf.extend(&[1u8; 32]);
    buf.extend(&[2u8; 32]);
    buf.extend(&[3u8; 32]);
    for i in 0..32u16 {
        write_u16_le(&mut buf, i);
    }
    for i in 0..32u32 {
        write_u32_le(&mut buf, i);
    }
    buf
}

fn util_guest_parser_with_hello() -> parser::Parser {
    let mut x = util_guest_parser();
    let caps = util_init_caps();
    let version: &[u8] = b"1.4.2.5";
    let h = util_redir_header(usbr::TYPE_HELLO, 64 + caps.len() as u32 * 4, 1);
    let (h_type, data) = util_hello_header(&caps, version);
    let mut header = [0u8; 16];
    header[0..h.len()].clone_from_slice(&h);
    let req = parser::Request { header: header.to_vec(), type_header: h_type, data };
    x.handle_hello(&req).unwrap();
    x
}

fn util_host_parser_with_hello() -> parser::Parser {
    let mut x = util_host_parser();
    let caps = util_init_caps();
    let version: &[u8] = b"1.4.2.5";
    let h = util_redir_header(usbr::TYPE_HELLO, 64 + caps.len() as u32 * 4, 1);
    let (h_type, data) = util_hello_header(&caps, version);
    let mut header = [0u8; 16];
    header[0..h.len()].clone_from_slice(&h);
    let req = parser::Request { header: header.to_vec(), type_header: h_type, data };
    x.handle_hello(&req).unwrap();
    x
}

fn util_header_type(host: bool, send: bool) -> HashMap<u32, usize> {
    let for_red = (host && !send) || (!host && send);
    let mut res = HashMap::new();

    res.insert(usbr::TYPE_HELLO, 64usize);
    res.insert(usbr::TYPE_CONTROL_PACKET, 10);
    res.insert(usbr::TYPE_BULK_PACKET, 10);
    res.insert(usbr::TYPE_ISO_PACKET, 4);
    res.insert(usbr::TYPE_INT_PACKET, 4);

    if for_red {
        res.insert(usbr::TYPE_RESET, 0);
        res.insert(usbr::TYPE_SET_CONF, 1);
        res.insert(usbr::TYPE_GET_CONF, 0);
        res.insert(usbr::TYPE_SET_ALT_SETTING, 2);
        res.insert(usbr::TYPE_GET_ALT_SETTING, 1);
        res.insert(usbr::TYPE_START_ISO_STREAM, 3);
        res.insert(usbr::TYPE_STOP_ISO_STREAM, 1);
        res.insert(usbr::TYPE_START_INT_RECEIVING, 1);
        res.insert(usbr::TYPE_STOP_INT_RECEIVING, 1);
        res.insert(usbr::TYPE_ALLOC_BULK_STREAMS, 8);
        res.insert(usbr::TYPE_FREE_BULK_STREAMS, 4);
        res.insert(usbr::TYPE_CANCEL_DATA_PACKET, 0);
        res.insert(usbr::TYPE_DEVICE_DISCONNECT_ACK, 0);
        res.insert(usbr::TYPE_START_BULK_RECEIVING, 10);
        res.insert(usbr::TYPE_STOP_BULK_RECEIVING, 5);
    } else {
        res.insert(usbr::TYPE_DEVICE_CONNECT, 10);
        res.insert(usbr::TYPE_DEVICE_DISCONNECT, 0);
        res.insert(usbr::TYPE_INTERFACE_INFO, 4 + 32 * 4);
        res.insert(usbr::TYPE_EP_INFO, 32 * 3 + 32 * 2 + 32 * 4);
        res.insert(usbr::TYPE_CONF_STATUS, 2);
        res.insert(usbr::TYPE_ALT_SETTING_STATUS, 3);
        res.insert(usbr::TYPE_ISO_STREAM_STATUS, 2);
        res.insert(usbr::TYPE_INT_RECEIVING_STATUS, 2);
        res.insert(usbr::TYPE_BULK_STREAMS_STATUS, 9);
        res.insert(usbr::TYPE_BULK_RECEIVING_STATUS, 6);
        res.insert(usbr::TYPE_BUFFERED_BULK_PACKET, 10);
    }
    res
}

fn util_header_type_all() -> HashMap<u32, usize> {
    let mut res = HashMap::new();
    res.insert(usbr::TYPE_HELLO, 64usize);
    res.insert(usbr::TYPE_DEVICE_CONNECT, 10);
    res.insert(usbr::TYPE_DEVICE_DISCONNECT, 0);
    res.insert(usbr::TYPE_RESET, 0);
    res.insert(usbr::TYPE_INTERFACE_INFO, 4 + 32 * 4);
    res.insert(usbr::TYPE_EP_INFO, 32 * 3 + 32 * 2 + 32 * 4);
    res.insert(usbr::TYPE_SET_CONF, 1);
    res.insert(usbr::TYPE_GET_CONF, 0);
    res.insert(usbr::TYPE_CONF_STATUS, 2);
    res.insert(usbr::TYPE_SET_ALT_SETTING, 2);
    res.insert(usbr::TYPE_GET_ALT_SETTING, 1);
    res.insert(usbr::TYPE_ALT_SETTING_STATUS, 3);
    res.insert(usbr::TYPE_START_ISO_STREAM, 3);
    res.insert(usbr::TYPE_STOP_ISO_STREAM, 1);
    res.insert(usbr::TYPE_ISO_STREAM_STATUS, 2);
    res.insert(usbr::TYPE_START_INT_RECEIVING, 1);
    res.insert(usbr::TYPE_STOP_INT_RECEIVING, 1);
    res.insert(usbr::TYPE_INT_RECEIVING_STATUS, 2);
    res.insert(usbr::TYPE_ALLOC_BULK_STREAMS, 8);
    res.insert(usbr::TYPE_FREE_BULK_STREAMS, 4);
    res.insert(usbr::TYPE_BULK_STREAMS_STATUS, 9);
    res.insert(usbr::TYPE_CANCEL_DATA_PACKET, 0);
    res.insert(usbr::TYPE_DEVICE_DISCONNECT_ACK, 0);
    res.insert(usbr::TYPE_START_BULK_RECEIVING, 10);
    res.insert(usbr::TYPE_STOP_BULK_RECEIVING, 5);
    res.insert(usbr::TYPE_BULK_RECEIVING_STATUS, 6);
    res.insert(usbr::TYPE_CONTROL_PACKET, 10);
    res.insert(usbr::TYPE_BULK_PACKET, 10);
    res.insert(usbr::TYPE_ISO_PACKET, 4);
    res.insert(usbr::TYPE_INT_PACKET, 4);
    res.insert(usbr::TYPE_BUFFERED_BULK_PACKET, 10);
    res
}

#[test]
fn set_cap() {
    let mut caps: Vec<u32> = vec![0];
    let mut total: u32 = 0;

    for _ in 0..100 {
        let x = rand::random::<usize>() % 32;
        parser::set_cap(&mut caps, x);
        total = total | (1 << x);
        assert_eq!(caps[0], total);
    }
}

#[test]
fn has_cap() {
    let caps: [u32; 1] = [2147483659];

    assert!(parser::has_cap(&caps, 0));
    assert!(parser::has_cap(&caps, 1));
    assert!(parser::has_cap(&caps, 3));
    assert!(parser::has_cap(&caps, 31));

    assert!(!parser::has_cap(&caps, 22));
    assert!(!parser::has_cap(&caps, 2));
    assert!(!parser::has_cap(&caps, 16));
    assert!(!parser::has_cap(&caps, 30));
}

#[test]
fn init() {
    let mut x = parser::Parser::new(Source::Red);
    let caps = util_init_caps();

    // Below calls init as a host (red machine); the "host 1" string is
    // arbitrary.
    x.init("host 1", &caps).unwrap();

    assert_eq!(x.source, Source::Red);
    assert!(!parser::has_cap(&x.our_caps, usbr::Caps::DeviceDisconnectAck as usize));

    // Below calls init as a guest (blue machine) instead of a host.
    let mut x = parser::Parser::new(Source::Blue);
    x.init("guest 1", &caps).unwrap();

    assert_eq!(x.source, Source::Blue);
    assert!(parser::has_cap(&x.our_caps, usbr::Caps::DeviceDisconnectAck as usize));
}

#[test]
fn init_utils() {
    let x = util_host_parser();
    assert_eq!(x.source, Source::Red);
    assert!(!parser::has_cap(&x.our_caps, usbr::Caps::DeviceDisconnectAck as usize));

    let x = util_guest_parser();
    assert_eq!(x.source, Source::Blue);
    assert!(parser::has_cap(&x.our_caps, usbr::Caps::DeviceDisconnectAck as usize));
}

#[test]
fn init_rejects_missing_caps() {
    let mut x = parser::Parser::new(Source::Red);
    let caps: Vec<u32> = vec![423];
    assert!(x.init("1.2.3", &caps).is_err());
    assert_eq!(x.state, ParserState::New);
}

#[test]
fn handle_hello() {
    // The parser is for the host and sees a correct version and size-1
    // capability set.
    let mut x = util_host_parser();
    let caps = util_init_caps();
    let version: &[u8] = b"1.4.2.5";

    let h = util_redir_header(usbr::TYPE_HELLO, 64 + caps.len() as u32 * 4, 1);
    let (h_type, data) = util_hello_header(&caps, version);

    let mut header = [0u8; 16];
    assert!(h.len() <= header.len());
    header[0..h.len()].clone_from_slice(&h);
    let req = parser::Request { header: header.to_vec(), type_header: h_type, data };

    x.handle_hello(&req).unwrap();

    assert_eq!(caps, x.peer_caps);
    assert!(parser::state_rank(x.state) >= parser::state_rank(ParserState::HelloR));
}

#[test]
fn handle_hello_rejects_bad_version() {
    let mut x = util_host_parser();
    let caps = util_init_caps();
    let version: [u8; 4] = [127, 128, 129, 130];

    let (h_type, data) = util_hello_header(&caps, &version);
    let req = parser::Request { header: vec![0; 16], type_header: h_type, data };

    assert!(x.handle_hello(&req).is_err());
    assert_eq!(x.state, ParserState::Init);
}

#[test]
fn handle_hello_twice_is_noop() {
    let mut x = util_host_parser();
    let caps = util_init_caps();
    let version: &[u8] = b"1.4.2.5";
    let (h_type, data) = util_hello_header(&caps, version);
    let req = parser::Request { header: vec![0; 16], type_header: h_type, data };
    x.handle_hello(&req).unwrap();
    assert_eq!(x.state, ParserState::HelloR);
    let peer_before = x.peer_caps.clone();

    // A second hello, even with different capability words, changes
    // nothing after the first.
    let mut other_caps = util_init_caps();
    parser::set_cap(&mut other_caps, usbr::Caps::Filter as usize);
    let (h_type2, data2) = util_hello_header(&other_caps, b"9.9");
    let req2 = parser::Request { header: vec![0; 16], type_header: h_type2, data: data2 };
    x.handle_hello(&req2).unwrap();
    assert_eq!(x.state, ParserState::HelloR);
    assert_eq!(x.peer_caps, peer_before);
}

#[test]
fn get_type_header_len() {
    let host: bool = true;
    let send: bool = true;

    let all = util_header_type_all();
    let host_receiving = util_header_type(host, !send);
    let host_sending = util_header_type(host, send);

    let x = util_host_parser();
    let y = util_guest_parser();

    for (h_type, len) in all.iter() {
        // Case 1.1: host is receiving.
        if host_receiving.contains_key(h_type) {
            assert_eq!(x.get_type_header_len(*h_type, !send).unwrap(), *len);
        } else {
            assert!(x.get_type_header_len(*h_type, !send).is_err());
        }

        // Case 1.2: host is sending.
        if host_sending.contains_key(h_type) {
            assert_eq!(x.get_type_header_len(*h_type, send).unwrap(), *len);
        } else {
            assert!(x.get_type_header_len(*h_type, send).is_err());
        }

        // Case 2.1: guest is receiving (i.e., host is sending).
        if host_sending.contains_key(h_type) {
            assert_eq!(y.get_type_header_len(*h_type, !send).unwrap(), *len);
        } else {
            assert!(y.get_type_header_len(*h_type, !send).is_err());
        }

        // Case 2.2: guest is sending (i.e., host is receiving).
        if host_receiving.contains_key(h_type) {
            assert_eq!(y.get_type_header_len(*h_type, send).unwrap(), *len);
        } else {
            assert!(y.get_type_header_len(*h_type, send).is_err());
        }
    }
}

#[test]
fn parse_error_variants() {
    let x = util_host_parser();
    // Unknown type code.
    assert!(matches!(
        x.get_type_header_len(55, false),
        Err(parser::ParseError::HeaderType)
    ));
    // Wrong direction: the host does not receive DeviceConnect.
    assert!(matches!(
        x.get_type_header_len(usbr::TYPE_DEVICE_CONNECT, false),
        Err(parser::ParseError::Source)
    ));
    // A hello with a truncated version field.
    let mut y = util_host_parser();
    let req = parser::Request { header: vec![0; 16], type_header: vec![0; 10], data: vec![] };
    assert!(matches!(y.handle_hello(&req), Err(parser::ParseError::HeaderLength)));
    // A capability set missing required bits.
    let mut z = parser::Parser::new(Source::Red);
    assert!(matches!(z.init("1", &[423]), Err(parser::ParseError::Version)));
}

#[test]
fn pull_next_request() {
    let mut x = util_guest_parser_with_hello();

    // Pretend the guest has already received EpInfo and IfaceInfo.
    x.state = ParserState::Informed;

    // Generate a device-connect request.
    let mut h = util_redir_header(usbr::TYPE_DEVICE_CONNECT, 10, 1);
    h.extend(&util_connect_header());

    // Generate an interface-info request.
    h.extend(&util_redir_header(usbr::TYPE_INTERFACE_INFO, 132, 2));
    h.extend(&util_interface_header(1));

    // Generate another interface-info request.
    h.extend(&util_redir_header(usbr::TYPE_INTERFACE_INFO, 132, 3));
    h.extend(&util_interface_header(32));

    let mut buf = VecSource::new(h);

    let req = x.pull_next_request(&mut buf).unwrap();
    assert_eq!(req.type_header.len(), 10);
    assert_eq!(req.get_total_len(), 10);
    assert_eq!(req.get_id(), 1);

    let req = x.pull_next_request(&mut buf).unwrap();
    assert_eq!(req.type_header.len(), 132);
    assert_eq!(req.get_total_len(), 132);
    assert_eq!(req.get_id(), 2);

    let req = x.pull_next_request(&mut buf).unwrap();
    assert_eq!(req.type_header.len(), 132);
    assert_eq!(req.get_total_len(), 132);
    assert_eq!(req.get_id(), 3);
}

#[test]
fn pull_next_request_2() {
    let mut x = util_guest_parser_with_hello();

    // Pretend the guest has already received EpInfo and IfaceInfo.
    x.state = ParserState::Informed;

    // Generate a device-connect request.
    let mut h = util_redir_header(usbr::TYPE_DEVICE_CONNECT, 10, 1);
    h.extend(&util_connect_header());

    // Generate an invalid interface-info request: its count exceeds the
    // limit, a recoverable error.
    h.extend(&util_redir_header(usbr::TYPE_INTERFACE_INFO, 132, 2));
    h.extend(&util_interface_header(34));

    // Generate an invalid control packet, recoverable too: the state is
    // below Connected.
    h.extend(&util_redir_header(usbr::TYPE_CONTROL_PACKET, 10, 3));
    h.extend(&util_connect_header());

    // Generate another interface-info request.
    h.extend(&util_redir_header(usbr::TYPE_INTERFACE_INFO, 132, 4));
    h.extend(&util_interface_header(32));

    let mut buf = VecSource::new(h);

    let req = x.pull_next_request(&mut buf).unwrap();
    assert_eq!(req.type_header.len(), 10);
    assert_eq!(req.get_total_len(), 10);
    assert_eq!(req.get_id(), 1);

    let req = x.pull_next_request(&mut buf).unwrap();
    assert_eq!(req.type_header.len(), 132);
    assert_eq!(req.get_total_len(), 132);
    assert_eq!(req.get_id(), 4);
}

#[test]
fn pull_rejects_wrong_direction() {
    let mut x = util_host_parser_with_hello();
    x.state = ParserState::Informed;

    // A connect is never valid toward the host; after discarding it the
    // stream is empty, so the pull gives the connection up.
    let mut h = util_redir_header(usbr::TYPE_DEVICE_CONNECT, 10, 1);
    h.extend(&util_connect_header());

    let mut buf = VecSource::new(h);
    assert!(x.pull_next_request(&mut buf).is_none());
}

#[test]
fn process_request() {
    let mut x = util_guest_parser();
    let mut handler = FakeHandler { id: 0 };
    let caps = util_init_caps();

    assert_eq!(x.state, ParserState::Init);

    // Start with the hello header; the first frame uses the short
    // 12-byte generic header.
    let version: &[u8] = b"1.2.3";
    let mut h = util_redir_header(usbr::TYPE_HELLO, 64 + caps.len() as u32 * 4, 1);
    for _ in 0..4 {
        h.pop();
    }
    let (h_type, data) = util_hello_header(&caps, version);
    h.extend(&h_type);
    h.extend(&data);

    let mut buf = VecSource::new(h);

    let req = x.pull_next_request(&mut buf).unwrap();
    let (_, publish) = x.process_request(&mut handler, req).unwrap();

    assert!(publish.is_none());
    assert_eq!(x.state, ParserState::HelloR);
}

#[test]
fn state_promotion() {
    let mut x = util_guest_parser();
    let mut handler = FakeHandler { id: 0 };
    let caps = util_init_caps();

    assert_eq!(x.state, ParserState::Init);

    let version: &[u8] = b"1.2.3";
    let mut h = util_redir_header(usbr::TYPE_HELLO, 64 + caps.len() as u32 * 4, 1);
    let (h_type, data) = util_hello_header(&caps, version);
    for _ in 0..4 {
        h.pop();
    }
    h.extend(&h_type);
    h.extend(&data);

    h.extend(&util_redir_header(usbr::TYPE_EP_INFO, 288, 2));
    h.extend(&util_ep_header());

    h.extend(&util_redir_header(usbr::TYPE_INTERFACE_INFO, 132, 3));
    h.extend(&util_interface_header(4));

    let mut buf = VecSource::new(h);

    let req = x.pull_next_request(&mut buf).unwrap();
    let (_, publish) = x.process_request(&mut handler, req).unwrap();
    assert!(publish.is_none());
    assert_eq!(x.state, ParserState::HelloR);

    x.process_state_change(ParserState::Hello);

    let req = x.pull_next_request(&mut buf).unwrap();
    let (_, publish) = x.process_request(&mut handler, req).unwrap();
    assert_eq!(x.state, ParserState::EpReceived);
    assert_eq!(publish, Some(ParserState::EpReceived));

    let req = x.pull_next_request(&mut buf).unwrap();
    let (_, publish) = x.process_request(&mut handler, req).unwrap();
    assert_eq!(x.state, ParserState::Informed);
    assert_eq!(publish, Some(ParserState::IfaceReceived));
}

#[test]
fn state_never_downgrades() {
    let mut x = util_guest_parser();
    x.state = ParserState::Connected;
    assert!(!x.process_state_change(ParserState::Hello));
    assert_eq!(x.state, ParserState::Connected);
    assert!(!x.process_state_change(ParserState::Informed));
    assert_eq!(x.state, ParserState::Connected);
}

#[test]
fn hello_header_switch() {
    // The echoed hello goes out with a 12-byte generic header, exactly
    // once; everything after uses the full 16 bytes.
    let mut x = util_guest_parser_with_hello();
    assert_eq!(x.state, ParserState::HelloR);

    let req = parser::Request {
        header: util_redir_header(usbr::TYPE_HELLO, 68, 1),
        type_header: vec![0; 64],
        data: vec![1, 0, 0, 0],
    };
    let mut sink = VecSink { out: vec![] };
    assert!(x.push_outputs(&mut sink, vec![req]));
    assert_eq!(x.state, ParserState::Hello);
    assert_eq!(sink.out.len(), 12 + 64 + 4);

    // The next frame out carries the full header.
    let req2 = parser::Request {
        header: util_redir_header(usbr::TYPE_GET_CONF, 0, 2),
        type_header: vec![],
        data: vec![],
    };
    let mut sink2 = VecSink { out: vec![] };
    assert!(x.push_outputs(&mut sink2, vec![req2]));
    assert_eq!(x.state, ParserState::Hello);
    assert_eq!(sink2.out.len(), 16);
}

#[test]
fn serialize_parse_round_trip() {
    // Serializing a request and re-parsing it through a fresh parser
    // past the hello boundary yields an equal request.
    let mut first = parser::Request {
        header: util_redir_header(usbr::TYPE_DEVICE_CONNECT, 10, 77),
        type_header: util_connect_header(),
        data: vec![],
    };
    let bytes = parser::serialize_request(&first);

    let mut x = util_guest_parser_with_hello();
    x.state = ParserState::Informed;
    let mut buf = VecSource::new(bytes);
    let parsed = x.pull_next_request(&mut buf).unwrap();

    assert_eq!(parsed.header, first.header);
    assert_eq!(parsed.type_header, first.type_header);
    assert_eq!(parsed.data, first.data);
    // And the round trip is stable: serializing the parsed request gives
    // the same bytes again.
    first = parsed;
    let bytes2 = parser::serialize_request(&first);
    let mut buf2 = VecSource::new(bytes2);
    let parsed2 = x.pull_next_request(&mut buf2).unwrap();
    assert_eq!(parsed2.header, first.header);
    assert_eq!(parsed2.type_header, first.type_header);
    assert_eq!(parsed2.data, first.data);
}

#[test]
fn bulk_payload_cap() {
    // A declared bulk payload of exactly 128 MiB is accepted; one byte
    // more is refused. An out-endpoint toward the guest expects no
    // payload bytes, so the declared length alone decides.
    let mut x = util_guest_parser_with_hello();
    x.state = ParserState::Connected;

    let mut header: Vec<u8> = vec![];
    header.push(0x01); // out endpoint
    header.push(0); // status
    write_u16_le(&mut header, 0); // length low
    write_u32_le(&mut header, 0); // stream id
    write_u16_le(&mut header, 0x0800); // length high: 0x0800 << 16 = 128 MiB

    assert!(x.verify_type_header(usbr::TYPE_BULK_PACKET, &header, &[], false));

    let mut header2: Vec<u8> = vec![];
    header2.push(0x01);
    header2.push(0);
    write_u16_le(&mut header2, 1); // length low: one byte past 128 MiB
    write_u32_le(&mut header2, 0);
    write_u16_le(&mut header2, 0x0800);

    assert!(!x.verify_type_header(usbr::TYPE_BULK_PACKET, &header2, &[], false));
}

#[test]
fn control_length_mismatch_terminates() {
    // A control packet whose type header declares 16 payload bytes but
    // whose stream carries 15 cannot be realigned: the pull gives the
    // connection up.
    let mut x = util_guest_parser_with_hello();
    x.state = ParserState::Connected;

    let mut th: Vec<u8> = vec![];
    th.push(0x81); // in endpoint: payload expected toward the guest
    th.push(0x06); // request
    th.push(0x80); // requesttype
    th.push(0); // status
    write_u16_le(&mut th, 0); // value
    write_u16_le(&mut th, 0); // index
    write_u16_le(&mut th, 16); // declared payload length

    let mut h = util_redir_header(usbr::TYPE_CONTROL_PACKET, 10 + 15, 5);
    h.extend(&th);
    h.extend(&[0u8; 15]);

    let mut buf = VecSource::new(h);
    assert!(x.pull_next_request(&mut buf).is_none());
}

#[test]
fn guest_hello_scenario() {
    // The guest announces every capability, including the ack bit only
    // it carries; the parser advances to HelloR and echoes the hello
    // with a 12-byte header before 16-byte mode begins.
    let mut x = util_host_parser();
    let mut caps = util_init_caps();
    parser::set_cap(&mut caps, usbr::Caps::DeviceDisconnectAck as usize);

    let (h_type, data) = util_hello_header(&caps, b"usb-redir 0.6");
    let hello = parser::Request {
        header: util_redir_header(usbr::TYPE_HELLO, 64 + 4, 9),
        type_header: h_type,
        data,
    };
    x.handle_hello(&hello).unwrap();
    assert_eq!(x.state, ParserState::HelloR);
    assert!(parser::has_cap(&x.peer_caps, usbr::Caps::DeviceDisconnectAck as usize));

    let mut sink = VecSink { out: vec![] };
    assert!(x.push_outputs(&mut sink, vec![hello]));
    assert_eq!(x.state, ParserState::Hello);
    assert_eq!(sink.out.len(), 12 + 64 + 4);
}

#[test]
fn le_round_trips() {
    let mut buf: Vec<u8> = vec![];
    write_u16_le(&mut buf, 0xBEEF);
    write_u32_le(&mut buf, 0xCAFEBABE);
    write_u64_le(&mut buf, 0x0123456789ABCDEF);
    assert_eq!(buf, vec![0xEF, 0xBE, 0xBE, 0xBA, 0xFE, 0xCA, 0xEF, 0xCD, 0xAB, 0x89, 0x67, 0x45, 0x23, 0x01]);
    assert_eq!(cinch::bytes::read_u16_le(&buf, 0), 0xBEEF);
    assert_eq!(cinch::bytes::read_u32_le(&buf, 2), 0xCAFEBABE);
    assert_eq!(cinch::bytes::read_u64_le(&buf, 6), 0x0123456789ABCDEF);
}

#[test]
fn header_type_codes() {
    assert_eq!(usbr::header_type_code(usbr::HeaderType::Hello), usbr::TYPE_HELLO);
    assert_eq!(usbr::header_type_code(usbr::HeaderType::ControlPacket), usbr::TYPE_CONTROL_PACKET);
    assert_eq!(
        usbr::header_type_code(usbr::HeaderType::BufferedBulkPacket),
        usbr::TYPE_BUFFERED_BULK_PACKET
    );
    assert_eq!(usbr::cap_bit(usbr::Caps::DeviceDisconnectAck), usbr::CAP_DEVICE_DISCONNECT_ACK);
    assert_eq!(usbr::cap_bit(usbr::Caps::BulkReceiving), usbr::CAP_BULK_RECEIVING);
}

#[test]
fn iso_packet_direction_gate() {
    // An iso packet whose payload would flow the wrong way is refused
    // even with a consistent declared length.
    let mut x = util_guest_parser_with_hello();
    x.state = ParserState::Connected;

    // Toward the guest, an in-endpoint iso packet carries its payload.
    let mut header: Vec<u8> = vec![0x81, 0];
    write_u16_le(&mut header, 3);
    assert!(x.verify_type_header(usbr::TYPE_ISO_PACKET, &header, &[1, 2, 3], false));

    // The same packet naming an out endpoint is a wrong-direction drop.
    let mut header2: Vec<u8> = vec![0x01, 0];
    write_u16_le(&mut header2, 3);
    assert!(!x.verify_type_header(usbr::TYPE_ISO_PACKET, &header2, &[1, 2, 3], false));

    // A declared length that disagrees with the payload is refused.
    let mut header3: Vec<u8> = vec![0x81, 0];
    write_u16_le(&mut header3, 4);
    assert!(!x.verify_type_header(usbr::TYPE_ISO_PACKET, &header3, &[1, 2, 3], false));
}

#[test]
fn int_receiving_needs_in_endpoint() {
    let mut x = util_host_parser_with_hello();
    x.state = ParserState::Connected;

    // Start-interrupt-receiving must name an IN endpoint.
    assert!(x.verify_type_header(usbr::TYPE_START_INT_RECEIVING, &[0x81], &[], false));
    assert!(!x.verify_type_header(usbr::TYPE_START_INT_RECEIVING, &[0x01], &[], false));
}

#[test]
fn disconnect_ack_needs_capability() {
    // The ack is refused unless the issuing side announced the
    // capability for it.
    let mut x = util_host_parser_with_hello();
    x.state = ParserState::Connected;
    // The peer capabilities recorded from the hello lack the ack bit.
    assert!(!x.verify_type_header(usbr::TYPE_DEVICE_DISCONNECT_ACK, &[], &[], false));

    parser::set_cap(&mut x.peer_caps, usbr::Caps::DeviceDisconnectAck as usize);
    assert!(x.verify_type_header(usbr::TYPE_DEVICE_DISCONNECT_ACK, &[], &[], false));
}

#[test]
fn state_gates() {
    // DeviceConnect and ConfStatus are refused before the guest is
    // informed; AltSettingStatus before endpoint info arrived.
    let mut x = util_guest_parser_with_hello();
    x.state = ParserState::Hello;
    let connect = util_connect_header();
    assert!(!x.verify_type_header(usbr::TYPE_DEVICE_CONNECT, &connect, &[], false));
    assert!(!x.verify_type_header(usbr::TYPE_CONF_STATUS, &[0, 0], &[], false));
    assert!(!x.verify_type_header(usbr::TYPE_ALT_SETTING_STATUS, &[0, 0, 0], &[], false));

    x.state = ParserState::EpReceived;
    assert!(x.verify_type_header(usbr::TYPE_ALT_SETTING_STATUS, &[0, 0, 0], &[], false));

    x.state = ParserState::Informed;
    assert!(x.verify_type_header(usbr::TYPE_DEVICE_CONNECT, &connect, &[], false));
    assert!(x.verify_type_header(usbr::TYPE_CONF_STATUS, &[0, 0], &[], false));

    // Anything but a hello is refused below the Hello state.
    let mut y = util_guest_parser();
    y.state = ParserState::Init;
    assert!(!y.verify_type_header(usbr::TYPE_GET_CONF, &[], &[], true));
}

#[test]
fn start_bulk_receiving_gates() {
    let mut x = util_host_parser_with_hello();
    x.state = ParserState::Connected;

    // stream id, bytes per transfer, endpoint, transfer count.
    let mut header: Vec<u8> = vec![];
    write_u32_le(&mut header, 0);
    write_u32_le(&mut header, 128 * 1024 * 1024);
    header.push(0x81);
    header.push(1);
    assert!(x.verify_type_header(usbr::TYPE_START_BULK_RECEIVING, &header, &[], false));

    // One byte over the cap is refused.
    let mut header2: Vec<u8> = vec![];
    write_u32_le(&mut header2, 0);
    write_u32_le(&mut header2, 128 * 1024 * 1024 + 1);
    header2.push(0x81);
    header2.push(1);
    assert!(!x.verify_type_header(usbr::TYPE_START_BULK_RECEIVING, &header2, &[], false));

    // An out endpoint is refused.
    let mut header3: Vec<u8> = vec![];
    write_u32_le(&mut header3, 0);
    write_u32_le(&mut header3, 4096);
    header3.push(0x01);
    header3.push(1);
    assert!(!x.verify_type_header(usbr::TYPE_START_BULK_RECEIVING, &header3, &[], false));
}
