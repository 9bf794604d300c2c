use arp_wire::addr::{EthernetAddress, Ipv4Address};
use arp_wire::field;
use arp_wire::packet::Packet;
use arp_wire::render::{bytes_dec_text, bytes_hex_text, dec_text, hex2_text};
use arp_wire::repr::Repr;
use arp_wire::types::{Error, HardwareType, Operation, ProtocolType};

fn packet_bytes() -> Vec<u8> {
    vec![
        0x00, 0x01, 0x08, 0x00, 0x06, 0x04, 0x00, 0x01, 0x11, 0x12, 0x13, 0x14, 0x15, 0x16, 0x21,
        0x22, 0x23, 0x24, 0x31, 0x32, 0x33, 0x34, 0x35, 0x36, 0x41, 0x42, 0x43, 0x44,
    ]
}

fn packet_repr() -> Repr {
    Repr::EthernetIpv4 {
        operation: Operation::Request,
        source_hardware_addr: EthernetAddress::from_bytes(&[0x11, 0x12, 0x13, 0x14, 0x15, 0x16]),
        source_protocol_addr: Ipv4Address::from_bytes(&[0x21, 0x22, 0x23, 0x24]),
        target_hardware_addr: EthernetAddress::from_bytes(&[0x31, 0x32, 0x33, 0x34, 0x35, 0x36]),
        target_protocol_addr: Ipv4Address::from_bytes(&[0x41, 0x42, 0x43, 0x44]),
    }
}

#[test]
fn test_deconstruct() {
    let packet = Packet::new(packet_bytes()).unwrap();
    assert_eq!(packet.hardware_type(), HardwareType::Ethernet);
    assert_eq!(packet.protocol_type(), ProtocolType::Ipv4);
    assert_eq!(packet.hardware_length(), 6);
    assert_eq!(packet.protocol_length(), 4);
    assert_eq!(packet.operation(), Operation::Request);
    assert_eq!(packet.source_hardware_addr(), &[0x11, 0x12, 0x13, 0x14, 0x15, 0x16]);
    assert_eq!(packet.source_protocol_addr(), &[0x21, 0x22, 0x23, 0x24]);
    assert_eq!(packet.target_hardware_addr(), &[0x31, 0x32, 0x33, 0x34, 0x35, 0x36]);
    assert_eq!(packet.target_protocol_addr(), &[0x41, 0x42, 0x43, 0x44]);
}

#[test]
fn test_construct() {
    let mut packet = Packet::new(vec![0u8; 28]).unwrap();
    packet.set_hardware_type(HardwareType::Ethernet);
    packet.set_protocol_type(ProtocolType::Ipv4);
    packet.set_hardware_length(6);
    packet.set_protocol_length(4);
    packet.set_operation(Operation::Request);
    packet
        .set_source_hardware_addr(&[0x11, 0x12, 0x13, 0x14, 0x15, 0x16])
        .unwrap();
    packet.set_source_protocol_addr(&[0x21, 0x22, 0x23, 0x24]).unwrap();
    packet
        .set_target_hardware_addr(&[0x31, 0x32, 0x33, 0x34, 0x35, 0x36])
        .unwrap();
    packet.set_target_protocol_addr(&[0x41, 0x42, 0x43, 0x44]).unwrap();
    assert_eq!(&packet.into_inner()[..], &packet_bytes()[..]);
}

#[test]
fn test_parse() {
    let packet = Packet::new(packet_bytes()).unwrap();
    let repr = Repr::parse(&packet).unwrap();
    assert_eq!(repr, packet_repr());
}

#[test]
fn test_emit() {
    let mut packet = Packet::new(vec![0u8; 28]).unwrap();
    packet_repr().emit(&mut packet);
    assert_eq!(&packet.into_inner()[..], &packet_bytes()[..]);
}

#[test]
fn new_rejects_buffers_shorter_than_the_fixed_header() {
    for len in 0..8 {
        assert_eq!(Packet::new(vec![0u8; len]).unwrap_err(), Error::Truncated);
    }
    // Eight zero bytes declare zero-length addresses: exactly long enough.
    assert!(Packet::new(vec![0u8; 8]).is_ok());
}

#[test]
fn new_rejects_buffers_shorter_than_the_declared_total() {
    // The header declares 6-byte and 4-byte addresses: 28 bytes in all.
    for len in 8..28 {
        let mut bytes = packet_bytes();
        bytes.truncate(len);
        assert_eq!(Packet::new(bytes).unwrap_err(), Error::Truncated);
    }
    assert!(Packet::new(packet_bytes()).is_ok());
}

#[test]
fn new_reads_lengths_before_judging_the_total() {
    // 9 bytes with 1-byte hardware and 0-byte protocol addresses: the
    // declared total is 10, so construction must fail even though the
    // buffer passes the fixed-header check.
    let bytes = vec![0x00, 0x01, 0x08, 0x00, 0x01, 0x00, 0x00, 0x01, 0xaa];
    assert_eq!(Packet::new(bytes).unwrap_err(), Error::Truncated);
    // One more byte satisfies it.
    let bytes = vec![0x00, 0x01, 0x08, 0x00, 0x01, 0x00, 0x00, 0x01, 0xaa, 0xbb];
    assert!(Packet::new(bytes).is_ok());
}

#[test]
fn parse_rejects_any_other_combination() {
    // Wrong hardware type.
    let mut bytes = packet_bytes();
    bytes[1] = 0x02;
    let packet = Packet::new(bytes).unwrap();
    assert_eq!(Repr::parse(&packet).unwrap_err(), Error::Unrecognized);
    // Wrong protocol type.
    let mut bytes = packet_bytes();
    bytes[2] = 0x86;
    bytes[3] = 0xdd;
    let packet = Packet::new(bytes).unwrap();
    assert_eq!(Repr::parse(&packet).unwrap_err(), Error::Unrecognized);
    // Wrong hardware length: structurally valid, semantically unknown.
    let mut bytes = packet_bytes();
    bytes[4] = 0x05;
    let packet = Packet::new(bytes).unwrap();
    assert_eq!(Repr::parse(&packet).unwrap_err(), Error::Unrecognized);
    // Wrong protocol length.
    let mut bytes = packet_bytes();
    bytes[5] = 0x03;
    let packet = Packet::new(bytes).unwrap();
    assert_eq!(Repr::parse(&packet).unwrap_err(), Error::Unrecognized);
}

#[test]
fn parse_preserves_unknown_operation_codes() {
    let mut bytes = packet_bytes();
    bytes[6] = 0x12;
    bytes[7] = 0x34;
    let packet = Packet::new(bytes.clone()).unwrap();
    let repr = Repr::parse(&packet).unwrap();
    match repr {
        Repr::EthernetIpv4 { operation, .. } => {
            assert_eq!(operation, Operation::Unknown(0x1234))
        }
        _ => panic!("expected the Ethernet/IPv4 representation"),
    }
    // Emitting carries the unknown code back to the wire verbatim.
    let mut packet = Packet::new(vec![0u8; 28]).unwrap();
    repr.emit(&mut packet);
    assert_eq!(packet.into_inner(), bytes);
}

#[test]
fn round_trip_parse_then_emit() {
    let packet = Packet::new(packet_bytes()).unwrap();
    let repr = Repr::parse(&packet).unwrap();
    let mut fresh = Packet::new(vec![0u8; 28]).unwrap();
    repr.emit(&mut fresh);
    assert_eq!(fresh.into_inner(), packet_bytes());
}

#[test]
fn round_trip_emit_then_parse() {
    let repr = Repr::EthernetIpv4 {
        operation: Operation::Reply,
        source_hardware_addr: EthernetAddress::from_bytes(&[1, 2, 3, 4, 5, 6]),
        source_protocol_addr: Ipv4Address::from_bytes(&[10, 0, 0, 1]),
        target_hardware_addr: EthernetAddress::from_bytes(&[0xff; 6]),
        target_protocol_addr: Ipv4Address::from_bytes(&[192, 168, 1, 254]),
    };
    let mut packet = Packet::new(vec![0u8; 28]).unwrap();
    repr.emit(&mut packet);
    assert_eq!(Repr::parse(&packet).unwrap(), repr);
}

#[test]
fn emit_leaves_bytes_past_the_packet_untouched() {
    let mut storage = vec![0u8; 30];
    storage[28] = 0xde;
    storage[29] = 0xad;
    let mut packet = Packet::new(storage).unwrap();
    packet_repr().emit(&mut packet);
    let bytes = packet.into_inner();
    assert_eq!(&bytes[..28], &packet_bytes()[..]);
    assert_eq!(&bytes[28..], &[0xde, 0xad]);
}

#[test]
fn wrong_length_address_writes_change_nothing() {
    // A five-byte value against a declared hardware length of six.
    let mut packet = Packet::new(packet_bytes()).unwrap();
    assert_eq!(
        packet.set_source_hardware_addr(&[0x91, 0x92, 0x93, 0x94, 0x95]),
        Err(Error::LengthMismatch)
    );
    assert_eq!(
        packet.set_target_hardware_addr(&[0x91, 0x92, 0x93, 0x94, 0x95, 0x96, 0x97]),
        Err(Error::LengthMismatch)
    );
    assert_eq!(
        packet.set_source_protocol_addr(&[0x91, 0x92, 0x93]),
        Err(Error::LengthMismatch)
    );
    assert_eq!(packet.set_target_protocol_addr(&[]), Err(Error::LengthMismatch));
    // No partial write happened.
    assert_eq!(packet.into_inner(), packet_bytes());
}

#[test]
fn field_ranges_follow_the_declared_lengths() {
    let sha = field::SHA(6, 4);
    let spa = field::SPA(6, 4);
    let tha = field::THA(6, 4);
    let tpa = field::TPA(6, 4);
    assert_eq!((sha.start, sha.end), (8, 14));
    assert_eq!((spa.start, spa.end), (14, 18));
    assert_eq!((tha.start, tha.end), (18, 24));
    assert_eq!((tpa.start, tpa.end), (24, 28));
}

#[test]
fn field_ranges_stay_contiguous_for_arbitrary_lengths() {
    for hlen in [0u8, 1, 6, 16, 255] {
        for plen in [0u8, 1, 4, 16, 255] {
            let sha = field::SHA(hlen, plen);
            let spa = field::SPA(hlen, plen);
            let tha = field::THA(hlen, plen);
            let tpa = field::TPA(hlen, plen);
            assert_eq!(sha.start, 8);
            assert_eq!(sha.end - sha.start, hlen as usize);
            assert_eq!(spa.start, sha.end);
            assert_eq!(spa.end - spa.start, plen as usize);
            assert_eq!(tha.start, spa.end);
            assert_eq!(tha.end - tha.start, hlen as usize);
            assert_eq!(tpa.start, tha.end);
            assert_eq!(tpa.end - tpa.start, plen as usize);
            assert_eq!(tpa.end, 8 + 2 * (hlen as usize) + 2 * (plen as usize));
        }
    }
}

#[test]
fn codes_round_trip_through_the_enumerations() {
    assert_eq!(HardwareType::from_code(1), HardwareType::Ethernet);
    assert_eq!(HardwareType::from_code(9), HardwareType::Unknown(9));
    assert_eq!(HardwareType::Ethernet.code(), 1);
    assert_eq!(HardwareType::from_code(9).code(), 9);
    assert_eq!(ProtocolType::from_code(0x0800), ProtocolType::Ipv4);
    assert_eq!(ProtocolType::from_code(0x86dd), ProtocolType::Unknown(0x86dd));
    assert_eq!(ProtocolType::Ipv4.code(), 0x0800);
    assert_eq!(Operation::from_code(1), Operation::Request);
    assert_eq!(Operation::from_code(2), Operation::Reply);
    assert_eq!(Operation::from_code(3), Operation::Unknown(3));
    assert_eq!(Operation::Request.code(), 1);
    assert_eq!(Operation::Reply.code(), 2);
    assert_eq!(Operation::Unknown(3).code(), 3);
}

#[test]
fn numbers_render_exactly() {
    assert_eq!(dec_text(0), "0");
    assert_eq!(dec_text(7), "7");
    assert_eq!(dec_text(10), "10");
    assert_eq!(dec_text(2048), "2048");
    assert_eq!(dec_text(65535), "65535");
    assert_eq!(hex2_text(0x00), "00");
    assert_eq!(hex2_text(0xab), "ab");
    assert_eq!(hex2_text(0x0f), "0f");
    assert_eq!(bytes_hex_text(&[]), "");
    assert_eq!(bytes_hex_text(&[0x11]), "11");
    assert_eq!(bytes_hex_text(&[0x11, 0x22, 0x33]), "11:22:33");
    assert_eq!(bytes_dec_text(&[10, 0, 0, 1]), "10.0.0.1");
}

#[test]
fn recognized_packets_render_as_a_summary() {
    let packet = Packet::new(packet_bytes()).unwrap();
    assert_eq!(
        packet.display_string(),
        "ARP type=Ethernet+IPv4 src=11:12:13:14:15:16/33.34.35.36 \
         dst=31:32:33:34:35:36/65.66.67.68 op=Request"
    );
    let repr = Repr::parse(&packet).unwrap();
    assert_eq!(packet.display_string(), repr.display_string());
}

#[test]
fn unrecognized_packets_render_every_raw_field() {
    let mut bytes = packet_bytes();
    bytes[4] = 0x05;
    bytes[6] = 0x00;
    bytes[7] = 0x09;
    let packet = Packet::new(bytes).unwrap();
    let text = packet.display_string();
    assert!(text.contains("htype=Ethernet"));
    assert!(text.contains("ptype=Ipv4"));
    assert!(text.contains("hlen=5"));
    assert!(text.contains("plen=4"));
    assert!(text.contains("op=Unknown(9)"));
    assert!(text.contains("sha=11:12:13:14:15"));
    assert!(text.contains("spa=16:21:22:23"));
    assert!(text.contains("tha=24:31:32:33:34"));
    assert!(text.contains("tpa=35:36:41:42"));
}

#[test]
fn addresses_render_in_their_conventional_forms() {
    let mac = EthernetAddress::from_bytes(&[0x01, 0x23, 0x45, 0x67, 0x89, 0xab]);
    assert_eq!(mac.display_string(), "01:23:45:67:89:ab");
    let ip = Ipv4Address::from_bytes(&[192, 168, 1, 254]);
    assert_eq!(ip.display_string(), "192.168.1.254");
    assert_eq!(mac.as_bytes(), &[0x01, 0x23, 0x45, 0x67, 0x89, 0xab]);
    assert_eq!(ip.as_bytes(), &[192, 168, 1, 254]);
}

#[test]
fn into_inner_returns_the_wrapped_buffer() {
    let packet = Packet::new(packet_bytes()).unwrap();
    assert_eq!(packet.into_inner(), packet_bytes());
}

#[test]
fn length_fields_can_be_rewritten() {
    let mut packet = Packet::new(packet_bytes()).unwrap();
    packet.set_hardware_length(5);
    packet.set_protocol_length(3);
    assert_eq!(packet.hardware_length(), 5);
    assert_eq!(packet.protocol_length(), 3);
    // The address fields move with the lengths they are derived from.
    assert_eq!(packet.source_hardware_addr(), &[0x11, 0x12, 0x13, 0x14, 0x15]);
    assert_eq!(packet.source_protocol_addr(), &[0x16, 0x21, 0x22]);
}

#[test]
fn operation_writes_encode_big_endian() {
    let mut packet = Packet::new(packet_bytes()).unwrap();
    packet.set_operation(Operation::Unknown(0x1234));
    assert_eq!(packet.operation(), Operation::Unknown(0x1234));
    let bytes = packet.into_inner();
    assert_eq!(&bytes[6..8], &[0x12, 0x34]);
}
