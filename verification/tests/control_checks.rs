use cinch::control_checks as checks;
use cinch::control_checks::third_party;
use cinch::parser::Source;
use cinch::usb;
use cinch::usbr::ControlPacketHeader;

fn util_generate_device_desc(data: &mut [u8]) {
    data[0] = 0x00; // bcd_usb low
    data[1] = 0x02; // bcd_usb high
    data[2] = 0; // device class
    data[3] = 0; // device subclass
    data[4] = 0; // device protocol
    data[5] = 64; // max packet size
    data[6] = 0x40; // id vendor low
    data[7] = 0x33; // id vendor high
    data[8] = 0x57; // id product low
    data[9] = 0x34; // id product high
    data[10] = 0x00; // bcd device low
    data[11] = 0x01; // bcd device high
    data[12] = 1; // manufacturer
    data[13] = 2; // product
    data[14] = 3; // serial
    data[15] = 1; // num configs
}

fn util_device_descriptor() -> usb::DeviceDescriptor {
    usb::DeviceDescriptor {
        bcd_usb: 0x0200,
        device_class: 0,
        device_subclass: 0,
        device_protocol: 0,
        max_packet_size0: 64,
        id_vendor: 0x3340,
        id_product: 0x3457,
        bcd_device: 0x0100,
        manufacturer: 1,
        product: 2,
        serial_number: 3,
        num_configurations: 1,
    }
}

fn util_control_header(request: u8, requesttype: u8, value: u16, index: u16, length: u16) -> ControlPacketHeader {
    ControlPacketHeader {
        ep: 0x80,
        request,
        requesttype,
        status: 0,
        value,
        index,
        length,
    }
}

fn util_install_device(cc: &mut checks::ControlCheck) {
    let mut data = vec![18u8, usb::DT_DEVICE];
    let mut fields = [0u8; 16];
    util_generate_device_desc(&mut fields);
    data.extend_from_slice(&fields);
    let h = util_control_header(usb::REQ_GET_DESCRIPTOR, 0x80, 0x0100, 0, 18);
    assert!(cc.check_device_descriptor(&h, &data));
}

fn util_config_tree(num_interfaces: u8) -> Vec<u8> {
    let mut data: Vec<u8> = vec![];
    // Configuration: total length 34, attributes 0x80, max power 100.
    data.extend_from_slice(&[9, usb::DT_CONFIG, 34, 0, num_interfaces, 1, 0, 0x80, 100]);
    // Interface: number 0, alternate 0, one endpoint, HID class.
    data.extend_from_slice(&[9, usb::DT_INTERFACE, 0, 0, 1, 3, 0, 0, 0]);
    // HID descriptor: bcdHID 0x0100, country 0, one report descriptor
    // of length 63.
    data.extend_from_slice(&[9, 0x21, 0x00, 0x01, 0, 1, 0x22, 63, 0]);
    // Interrupt-IN endpoint: address 0x81, attributes 0x03, max packet
    // size 8, interval 10.
    data.extend_from_slice(&[7, usb::DT_ENDPOINT, 0x81, 0x03, 8, 0, 10]);
    data
}

#[test]
fn valid_bcd() {
    assert_eq!(checks::check_bcd(0xa000), false);
    assert_eq!(checks::check_bcd(0x000f), false);
    assert_eq!(checks::check_bcd(0x0b00), false);
    assert_eq!(checks::check_bcd(0x00d0), false);
    assert_eq!(checks::check_bcd(0xe000), false);
    assert_eq!(checks::check_bcd(0x0000), true);
    assert_eq!(checks::check_bcd(0x0123), true);
}

#[test]
fn check_str_fields() {
    let index = 1;

    // Malformed UTF-16: a low surrogate before a high one.
    let data: [u8; 4] = [0x01, 0xdc, 0x01, 0xd8];
    assert_eq!(checks::check_string_fields(&data, index), false);

    // Malformed UTF-16: a high surrogate followed by a normal unit.
    let data: [u8; 4] = [0x01, 0xd8, 0x00, 0x03];
    assert_eq!(checks::check_string_fields(&data, index), false);

    // Out of range: a lone high surrogate.
    let data: [u8; 2] = [0x01, 0xd8];
    assert_eq!(checks::check_string_fields(&data, index), false);

    // Out of range: a lone low surrogate.
    let data: [u8; 2] = [0xff, 0xdf];
    assert_eq!(checks::check_string_fields(&data, index), false);

    // Valid UTF-16.
    let data: [u8; 4] = [0xfe, 0xff, 0xff, 0xfe];
    assert_eq!(checks::check_string_fields(&data, index), true);

    // Valid UTF-16.
    let data: [u8; 4] = [0xff, 0x4f, 0xff, 0xff];
    assert_eq!(checks::check_string_fields(&data, index), true);
}

#[test]
fn check_device_fields() {
    let mut data = [0u8; 16];
    assert_eq!(checks::check_device_fields(&data), false);

    util_generate_device_desc(&mut data);
    assert_eq!(checks::check_device_fields(&data), true);

    // An invalid configuration count.
    data[15] = 0;
    assert_eq!(checks::check_device_fields(&data), false);

    util_generate_device_desc(&mut data);

    // An inconsistent class triple.
    data[2] = 1;
    data[3] = 6;
    data[4] = 0;
    assert_eq!(checks::check_device_fields(&data), false);

    // An invalid length.
    let mut data = [0u8; 19];
    util_generate_device_desc(&mut data[..16]);
    assert_eq!(checks::check_device_fields(&data), false);
}

#[test]
fn string_descriptor_lengths() {
    // Two bytes of language table are accepted; an odd length is not.
    assert_eq!(checks::check_string_fields(&[0x09, 0x04], 0), true);
    assert_eq!(checks::check_string_fields(&[0x09, 0x04, 0x00], 0), false);
    // An unassigned language id is refused.
    assert_eq!(checks::check_string_fields(&[0x00, 0x00], 0), false);
}

#[test]
fn interface_endpoint_count_cap() {
    let dev = util_device_descriptor();
    let mut iface = usb::InterfaceDescriptor {
        interface_number: 0,
        alternate_setting: 0,
        num_endpoints: 30,
        interface_class: 3,
        interface_subclass: 0,
        interface_protocol: 0,
        interface: 0,
    };
    assert!(checks::check_interface_fields(&iface, &dev));
    iface.num_endpoints = 31;
    assert!(!checks::check_interface_fields(&iface, &dev));
}

#[test]
fn device_descriptor_superspeed_packet_size() {
    // bcdUSB 0x0300 with bMaxPacketSize0 9 is accepted; 7 is not.
    let mut data = [0u8; 16];
    util_generate_device_desc(&mut data);
    data[0] = 0x00;
    data[1] = 0x03;
    data[5] = 9;
    assert!(checks::check_device_fields(&data));
    data[5] = 7;
    assert!(!checks::check_device_fields(&data));
}

#[test]
fn config_tree_accepted() {
    let mut cc = checks::ControlCheck::new(vec![]);
    util_install_device(&mut cc);

    let tree = util_config_tree(1);
    let h = util_control_header(usb::REQ_GET_DESCRIPTOR, 0x80, 0x0200, 0, 34);
    assert!(cc.check_config_descriptor(&h, &tree));
}

#[test]
fn config_tree_interface_count_mismatch() {
    let mut cc = checks::ControlCheck::new(vec![]);
    util_install_device(&mut cc);

    // The configuration promises two interfaces but supplies one.
    let tree = util_config_tree(2);
    let h = util_control_header(usb::REQ_GET_DESCRIPTOR, 0x80, 0x0200, 0, 34);
    assert!(!cc.check_config_descriptor(&h, &tree));
}

#[test]
fn device_descriptor_installed_once() {
    let mut cc = checks::ControlCheck::new(vec![]);
    util_install_device(&mut cc);

    // A second, different device descriptor is cross-checked but not
    // installed: the model keeps the first-seen USB 2 descriptor.
    let mut data = vec![18u8, usb::DT_DEVICE];
    let mut fields = [0u8; 16];
    util_generate_device_desc(&mut fields);
    fields[0] = 0x00;
    fields[1] = 0x03;
    fields[5] = 9;
    data.extend_from_slice(&fields);
    let h = util_control_header(usb::REQ_GET_DESCRIPTOR, 0x80, 0x0100, 0, 18);
    assert!(cc.check_device_descriptor(&h, &data));

    // A device qualifier is reserved on USB 3; its acceptance shows the
    // stored descriptor is still the first one.
    let qual = vec![10u8, usb::DT_DEVICE_QUALIFIER, 0x00, 0x02, 0, 0, 0, 64, 1, 0];
    assert!(cc.check_device_qual_descriptor(&qual));
}

#[test]
fn get_config_names_known_index() {
    let mut cc = checks::ControlCheck::new(vec![]);
    util_install_device(&mut cc);
    let tree = util_config_tree(1);
    let h = util_control_header(usb::REQ_GET_DESCRIPTOR, 0x80, 0x0200, 0, 34);
    assert!(cc.check_config_descriptor(&h, &tree));

    assert!(cc.check_get_config(&[0]));
    assert!(!cc.check_get_config(&[1]));
    assert!(!cc.check_get_config(&[0, 0]));
}

#[test]
fn bbb_cbw_csw_exchange() {
    let mut bbb = cinch::control_checks::bbb::BBBControlCheck::new();

    // The guest issues a CBW on an out endpoint.
    let mut cbw: Vec<u8> = vec![];
    cbw.extend_from_slice(&[0x55, 0x53, 0x42, 0x43]); // signature 0x43425355
    cbw.extend_from_slice(&[0xBE, 0xBA, 0xFE, 0xCA]); // tag 0xCAFEBABE
    cbw.extend_from_slice(&[0x00, 0x02, 0x00, 0x00]); // transfer length 512
    cbw.push(0x80); // flags
    cbw.push(0); // lun
    cbw.push(6); // cb length
    cbw.extend_from_slice(&[0u8; 16]); // command block
    let h_out = ControlPacketHeader {
        ep: 0x02,
        request: 0,
        requesttype: 0,
        status: 0,
        value: 0,
        index: 0,
        length: 31,
    };
    assert!(bbb.check_bbb_request(&h_out, &cbw, Source::Blue));

    // The device answers with the matching CSW on an in endpoint.
    let mut csw: Vec<u8> = vec![];
    csw.extend_from_slice(&[0x55, 0x53, 0x42, 0x53]); // signature 0x53425355
    csw.extend_from_slice(&[0xBE, 0xBA, 0xFE, 0xCA]); // tag 0xCAFEBABE
    csw.extend_from_slice(&[0x00, 0x00, 0x00, 0x00]); // data residue 0
    csw.push(0x00); // status OK
    let h_in = ControlPacketHeader {
        ep: 0x81,
        request: 0,
        requesttype: 0,
        status: 0,
        value: 0,
        index: 0,
        length: 13,
    };
    assert!(bbb.check_bbb_request(&h_in, &csw, Source::Red));

    // A mismatched tag is refused.
    let mut bad = csw.clone();
    bad[4] = 0x00;
    assert!(!bbb.check_bbb_request(&h_in, &bad, Source::Red));
}

#[test]
fn printer_device_id() {
    let body = b"MFG:Acme;CMD:PCL,PJL;MDL:Acme2000;";
    let total = (body.len() + 2) as u16;
    let mut data: Vec<u8> = vec![(total >> 8) as u8, (total & 0xff) as u8];
    data.extend_from_slice(body);

    let h = util_control_header(0, 0xa1, 0, 0, total);
    assert!(checks::printer::check_printer_request(&h, &data, Source::Red));

    // Dropping the MDL key is refused.
    let body2 = b"MFG:Acme;CMD:PCL,PJL;";
    let total2 = (body2.len() + 2) as u16;
    let mut data2: Vec<u8> = vec![(total2 >> 8) as u8, (total2 & 0xff) as u8];
    data2.extend_from_slice(body2);
    let h2 = util_control_header(0, 0xa1, 0, 0, total2);
    assert!(!checks::printer::check_printer_request(&h2, &data2, Source::Red));

    // An unknown command-set token is refused.
    let body3 = b"MFG:Acme;CMD:EVIL;MDL:Acme2000;";
    let total3 = (body3.len() + 2) as u16;
    let mut data3: Vec<u8> = vec![(total3 >> 8) as u8, (total3 & 0xff) as u8];
    data3.extend_from_slice(body3);
    let h3 = util_control_header(0, 0xa1, 0, 0, total3);
    assert!(!checks::printer::check_printer_request(&h3, &data3, Source::Red));
}

#[test]
fn hid_report_walk() {
    let mut hid = cinch::control_checks::hid::HidControlCheck::new();
    let header = usb::DescriptorHeader { length: 9, descriptor_type: 0x21 };
    // bcdHID 0x0100, country 0, one report descriptor of length 6.
    let desc = [0x00u8, 0x01, 0, 1, 0x22, 6, 0];
    let mut off = 0usize;
    assert!(hid.check_hid_desc(&header, &desc, &mut off, 0, 0));
    assert_eq!(off, 7);

    // Usage page, usage, and two end-collection items: exactly 6 bytes.
    let report = [0x05u8, 0x01, 0x09, 0x02, 0xC0, 0xC0];
    assert!(hid.check_hid_report_desc(&report, 0, 0));

    // An item with an invalid main tag is refused.
    let bad = [0xD0u8, 0x05, 0x01, 0x09, 0x02, 0xC0];
    assert!(!hid.check_hid_report_desc(&bad, 0, 0));
}

#[test]
fn third_party_constraints() {
    let dev = util_device_descriptor();

    // One record for this device: configurations may draw at most 100
    // units, and one HID interface must appear.
    let record = third_party::CompliancePatch {
        ids: vec![third_party::PatchId { vendor_id: 0x3340, product_id: 0x3457 }],
        constraints: vec![
            third_party::Constraint {
                id: 0,
                desc_type: third_party::DescKind::Configuration,
                field_checks: vec![third_party::FieldCheck {
                    field: third_party::FieldName::MaxPower,
                    operation: third_party::FieldOp::Leq,
                    value: 100,
                }],
                count: None,
            },
            third_party::Constraint {
                id: 1,
                desc_type: third_party::DescKind::Interface,
                field_checks: vec![third_party::FieldCheck {
                    field: third_party::FieldName::InterfaceClass,
                    operation: third_party::FieldOp::Eq,
                    value: 3,
                }],
                count: Some(1),
            },
        ],
    };
    let mut tp = third_party::Patcher::new(vec![record]);

    let config = usb::ConfigDescriptor {
        total_length: 34,
        num_interfaces: 1,
        configuration_value: 1,
        configuration: 0,
        attributes: 0x80,
        max_power: 100,
    };
    assert!(tp.check_config_fields(&config, &dev));

    let iface = usb::InterfaceDescriptor {
        interface_number: 0,
        alternate_setting: 0,
        num_endpoints: 0,
        interface_class: 3,
        interface_subclass: 0,
        interface_protocol: 0,
        interface: 0,
    };
    // The single interface satisfies the counted constraint, and the
    // tree is complete after it: all counts reached zero.
    assert!(tp.check_iface_fields(&iface, &dev));

    // The same record with a non-matching interface leaves the count
    // unsatisfied at the end of the tree.
    let record2 = third_party::CompliancePatch {
        ids: vec![third_party::PatchId { vendor_id: 0x3340, product_id: 0x3457 }],
        constraints: vec![third_party::Constraint {
            id: 1,
            desc_type: third_party::DescKind::Interface,
            field_checks: vec![third_party::FieldCheck {
                field: third_party::FieldName::InterfaceClass,
                operation: third_party::FieldOp::Eq,
                value: 3,
            }],
            count: Some(1),
        }],
    };
    let mut tp2 = third_party::Patcher::new(vec![record2]);
    assert!(tp2.check_config_fields(&config, &dev));
    let mut other = iface;
    other.interface_class = 9;
    other.interface_subclass = 0;
    other.interface_protocol = 0;
    assert!(!tp2.check_iface_fields(&other, &dev));

    // A config over the power limit is refused outright.
    let mut greedy = config;
    greedy.max_power = 120;
    let mut tp3 = third_party::Patcher::new(vec![third_party::CompliancePatch {
        ids: vec![third_party::PatchId { vendor_id: 0x3340, product_id: 0x3457 }],
        constraints: vec![third_party::Constraint {
            id: 0,
            desc_type: third_party::DescKind::Configuration,
            field_checks: vec![third_party::FieldCheck {
                field: third_party::FieldName::MaxPower,
                operation: third_party::FieldOp::Leq,
                value: 100,
            }],
            count: None,
        }],
    }]);
    assert!(!tp3.check_config_fields(&greedy, &dev));
}

#[test]
fn get_status_reply() {
    let h = util_control_header(usb::REQ_GET_STATUS, 0x80, 0, 0, 2);
    assert!(checks::check_get_status(&h, &[0x01, 0x00]));
    assert!(!checks::check_get_status(&h, &[0x01]));
    assert!(!checks::check_get_status(&h, &[0xff, 0xff]));
}

#[test]
fn hid_class_requests() {
    // GET_PROTOCOL replies carry one byte of 0 or 1.
    let h = ControlPacketHeader {
        ep: 0x80,
        request: 0x03,
        requesttype: 0xa1,
        status: 0,
        value: 0,
        index: 0,
        length: 1,
    };
    assert!(checks::hid::check_hid_request(&h, &[1], Source::Red));
    assert!(!checks::hid::check_hid_request(&h, &[2], Source::Red));
    assert!(!checks::hid::check_hid_request(&h, &[], Source::Red));
}

#[test]
fn chosen_interface_tracking() {
    let mut cc = checks::ControlCheck::new(vec![]);
    util_install_device(&mut cc);
    let tree = util_config_tree(1);
    let h = util_control_header(usb::REQ_GET_DESCRIPTOR, 0x80, 0x0200, 0, 34);
    assert!(cc.check_config_descriptor(&h, &tree));

    // The walk chose alternate 0 of interface 0; a GET_INTERFACE reply
    // naming it is accepted, any other alternate is not.
    let gi = util_control_header(usb::REQ_GET_INTERFACE, 0x01, 0, 0, 1);
    assert!(cc.check_get_interface(&gi, &[0]));
    assert!(!cc.check_get_interface(&gi, &[1]));

    // A SET_INTERFACE naming an alternate the configuration does not
    // hold leaves the chosen alternate as it was.
    let si = util_control_header(usb::REQ_SET_INTERFACE, 0x01, 1, 0, 0);
    cc.update_interface(&si);
    assert!(cc.check_get_interface(&gi, &[0]));
}

#[test]
fn other_descriptor_families() {
    let mut cc = checks::ControlCheck::new(vec![]);
    util_install_device(&mut cc);

    // Device qualifier: valid on this USB 2 device.
    let qual = vec![10u8, usb::DT_DEVICE_QUALIFIER, 0x00, 0x02, 0, 0, 0, 64, 1, 0];
    assert!(cc.check_device_qual_descriptor(&qual));
    // A set reserved byte is refused.
    let bad_qual = vec![10u8, usb::DT_DEVICE_QUALIFIER, 0x00, 0x02, 0, 0, 0, 64, 1, 7];
    assert!(!cc.check_device_qual_descriptor(&bad_qual));

    // Other-speed configuration.
    let other = vec![9u8, usb::DT_OTHER_SPEED_CONFIG, 34, 0, 1, 1, 0, 0x80, 100];
    assert!(cc.check_other_speed_descriptor(&other));
    let bad_other = vec![9u8, usb::DT_OTHER_SPEED_CONFIG, 34, 0, 1, 1, 0, 0x40, 100];
    assert!(!cc.check_other_speed_descriptor(&bad_other));

    // OTG: only the two defined attribute bits may be used.
    assert!(cc.check_otg_desc(&[3, usb::DT_OTG, 0x03]));
    assert!(!cc.check_otg_desc(&[3, usb::DT_OTG, 0x04]));

    // Interface power: only the framing is defined.
    assert!(cc.check_interface_power_desc(&[3, usb::DT_INTERFACE_POWER, 0]));
    assert!(!cc.check_interface_power_desc(&[4, usb::DT_INTERFACE_POWER, 0]));
}

#[test]
fn bos_descriptor_walk() {
    let mut cc = checks::ControlCheck::new(vec![]);
    util_install_device(&mut cc);

    // Only the BOS header: a probe for the total length.
    let probe = vec![5u8, usb::DT_BOS, 12, 0, 1];
    assert!(cc.check_bos_desc(&probe));

    // A full BOS with one USB 2.0 extension capability.
    let mut bos = vec![5u8, usb::DT_BOS, 12, 0, 1];
    bos.extend_from_slice(&[7, usb::DT_DEVICE_CAPABILITY, usb::CAP_TYPE_EXT, 0, 0, 0, 0]);
    assert!(cc.check_bos_desc(&bos));

    // The same with a reserved attribute bit set is refused.
    let mut bad = vec![5u8, usb::DT_BOS, 12, 0, 1];
    bad.extend_from_slice(&[7, usb::DT_DEVICE_CAPABILITY, usb::CAP_TYPE_EXT, 1, 0, 0, 0]);
    assert!(!cc.check_bos_desc(&bad));

    // A wireless capability is not supported.
    let mut wireless = vec![5u8, usb::DT_BOS, 16, 0, 1];
    wireless.extend_from_slice(&[11, usb::DT_DEVICE_CAPABILITY, usb::CAP_TYPE_WIRELESS]);
    wireless.extend_from_slice(&[0; 8]);
    assert!(!cc.check_bos_desc(&wireless));
}

#[test]
fn debug_descriptor_needs_modeled_endpoints() {
    let mut cc = checks::ControlCheck::new(vec![]);
    util_install_device(&mut cc);
    let tree = util_config_tree(1);
    let h = util_control_header(usb::REQ_GET_DESCRIPTOR, 0x80, 0x0200, 0, 34);
    assert!(cc.check_config_descriptor(&h, &tree));

    // The configuration has an in endpoint 1 but no out endpoint 1.
    assert!(!cc.check_dbg_desc(&[4, usb::DT_DEBUG, 1, 1]));
}

#[test]
fn string_descriptor_model() {
    let mut cc = checks::ControlCheck::new(vec![]);
    util_install_device(&mut cc);

    // A full string descriptor: header plus one UTF-16 unit.
    let h = util_control_header(usb::REQ_GET_DESCRIPTOR, 0x80, 0x0301, 0, 4);
    assert!(cc.check_string_descriptor(&h, &[4, usb::DT_STRING, 0x41, 0x00]));

    // A lone surrogate is refused.
    let h2 = util_control_header(usb::REQ_GET_DESCRIPTOR, 0x80, 0x0302, 0, 4);
    assert!(!cc.check_string_descriptor(&h2, &[4, usb::DT_STRING, 0x01, 0xd8]));

    // A two-byte reply matching the requested length is only a probe.
    let h3 = util_control_header(usb::REQ_GET_DESCRIPTOR, 0x80, 0x0303, 0, 2);
    assert!(cc.check_string_descriptor(&h3, &[8, usb::DT_STRING]));
}

#[test]
fn get_descriptor_status_gate() {
    let mut cc = checks::ControlCheck::new(vec![]);
    // A failed request must carry no data.
    let mut h = util_control_header(usb::REQ_GET_DESCRIPTOR, 0x80, 0x0100, 0, 18);
    h.status = 4;
    assert!(cc.check_get_descriptor(&h, &[]));
    assert!(!cc.check_get_descriptor(&h, &[1]));
}

#[test]
fn bbb_control_requests() {
    let bbb = cinch::control_checks::bbb::BBBControlCheck::new();

    // RESET: class, interface, out; no value, no length, no data.
    let reset = ControlPacketHeader {
        ep: 0,
        request: 0xff,
        requesttype: 0x21,
        status: 0,
        value: 0,
        index: 0,
        length: 0,
    };
    assert!(bbb.check_control_req(&reset, &[], Source::Red));
    let mut bad = reset;
    bad.value = 1;
    assert!(!bbb.check_control_req(&bad, &[], Source::Red));

    // MAX_LUN: class, interface, in; one-byte reply of at most 15.
    let max_lun = ControlPacketHeader {
        ep: 0,
        request: 0xfe,
        requesttype: 0xa1,
        status: 0,
        value: 0,
        index: 0,
        length: 1,
    };
    assert!(bbb.check_control_req(&max_lun, &[15], Source::Red));
    assert!(!bbb.check_control_req(&max_lun, &[16], Source::Red));
}

#[test]
fn config_tree_reannounced() {
    // The host often re-reads the configuration tree; the second walk
    // is cross-checked against the model and accepted, and the chosen
    // alternates are rebuilt so the interface count still matches.
    let mut cc = checks::ControlCheck::new(vec![]);
    util_install_device(&mut cc);

    let tree = util_config_tree(1);
    let h = util_control_header(usb::REQ_GET_DESCRIPTOR, 0x80, 0x0200, 0, 34);
    assert!(cc.check_config_descriptor(&h, &tree));
    assert!(cc.check_config_descriptor(&h, &tree));
    let gi = util_control_header(usb::REQ_GET_INTERFACE, 0x01, 0, 0, 1);
    assert!(cc.check_get_interface(&gi, &[0]));
}

#[test]
fn config_probe_then_tree() {
    // The host first probes the nine-byte configuration header, then
    // asks for the whole tree.
    let mut cc = checks::ControlCheck::new(vec![]);
    util_install_device(&mut cc);

    let probe = vec![9u8, usb::DT_CONFIG, 34, 0, 1, 1, 0, 0x80, 100];
    let hp = util_control_header(usb::REQ_GET_DESCRIPTOR, 0x80, 0x0200, 0, 9);
    assert!(cc.check_config_descriptor(&hp, &probe));
    assert!(cc.check_get_config(&[0]));

    let tree = util_config_tree(1);
    let ht = util_control_header(usb::REQ_GET_DESCRIPTOR, 0x80, 0x0200, 0, 34);
    assert!(cc.check_config_descriptor(&ht, &tree));
}
