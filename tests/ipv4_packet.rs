use header_record::address::IPAddress;
use header_record::error::DecodeError;
use header_record::ipv4_packet::Ipv4Packet;
use header_record::layer4::Layer4Packet;
use header_record::stream::ByteStream;

/// A fixed 20-byte header with the given first byte, total length and
/// protocol, from 10.0.0.1 to 10.0.0.2.
fn header(first: u8, total_length: u16, protocol: u8) -> Vec<u8> {
    vec![
        first,
        0x00,
        (total_length >> 8) as u8,
        (total_length & 0xff) as u8,
        0x1c, 0x46, 0x40, 0x00,
        0x40,
        protocol,
        0xb1, 0xe6,
        10, 0, 0, 1,
        10, 0, 0, 2,
    ]
}

#[test]
fn end_to_end_icmp_packet() {
    let mut bytes = header(0x45, 28, 1);
    bytes.extend_from_slice(&[0x08, 0x00, 0xf7, 0xfc, 0x00, 0x01, 0x00, 0x02]);
    let mut stream = ByteStream::new(bytes);
    let p = Ipv4Packet::read_and_decode(&mut stream).unwrap();
    assert_eq!(stream.position(), 28);
    assert_eq!(p.version, 4);
    assert_eq!(p.header_length, 5);
    assert_eq!(p.total_length, 28);
    assert_eq!(p.row1, 0x1c46_4000);
    assert_eq!(p.ttl, 0x40);
    assert_eq!(p.protocol, 1);
    assert_eq!(p.header_checksum, 0xb1e6);
    assert_eq!(p.source_addr, IPAddress { octets: [10, 0, 0, 1] });
    assert_eq!(p.dst_addr, IPAddress { octets: [10, 0, 0, 2] });
    assert!(!p.options_were_present);
    match p.content {
        Layer4Packet::Icmp(m) => {
            assert_eq!(m.icmp_type, 8);
            assert_eq!(m.code, 0);
            assert_eq!(m.checksum, 0xf7fc);
            assert_eq!(m.rest_of_header, 0x0001_0002);
            assert!(m.data.is_empty());
        }
        Layer4Packet::Unknown => panic!("expected an ICMP payload"),
    }
}

#[test]
fn first_byte_0x45_splits_into_version_and_length() {
    let mut stream = ByteStream::new(header(0x45, 20, 17));
    let p = Ipv4Packet::read_and_decode(&mut stream).unwrap();
    assert_eq!(p.version, 4);
    assert_eq!(p.header_length, 5);
}

#[test]
fn second_byte_splits_into_tos_and_ecn() {
    let mut bytes = header(0x45, 20, 17);
    bytes[1] = 0xb9;
    let mut stream = ByteStream::new(bytes);
    let p = Ipv4Packet::read_and_decode(&mut stream).unwrap();
    assert_eq!(p.tos, 0x2e);
    assert_eq!(p.ecn, 1);
}

#[test]
fn no_options_skipped_for_five_words() {
    let mut bytes = header(0x45, 24, 17);
    bytes.extend_from_slice(&[1, 2, 3, 4, 99]);
    let mut stream = ByteStream::new(bytes);
    let p = Ipv4Packet::read_and_decode(&mut stream).unwrap();
    assert!(!p.options_were_present);
    assert_eq!(p.content, Layer4Packet::Unknown);
    assert_eq!(stream.position(), 24);
    assert_eq!(stream.read_u8(), Ok(99));
}

#[test]
fn twelve_option_bytes_skipped_for_eight_words() {
    let mut bytes = header(0x48, 40, 1);
    bytes.extend_from_slice(&[0xee; 12]);
    bytes.extend_from_slice(&[0x00, 0x00, 0x12, 0x34, 0xaa, 0xbb, 0xcc, 0xdd]);
    let mut stream = ByteStream::new(bytes);
    let p = Ipv4Packet::read_and_decode(&mut stream).unwrap();
    assert_eq!(p.header_length, 8);
    assert!(p.options_were_present);
    assert_eq!(stream.position(), 40);
    match p.content {
        Layer4Packet::Icmp(m) => {
            assert_eq!(m.icmp_type, 0);
            assert_eq!(m.checksum, 0x1234);
            assert_eq!(m.rest_of_header, 0xaabb_ccdd);
        }
        Layer4Packet::Unknown => panic!("expected an ICMP payload"),
    }
}

#[test]
fn unknown_protocol_skips_its_payload() {
    let mut bytes = header(0x45, 30, 6);
    bytes.extend_from_slice(&[7; 10]);
    bytes.push(0x42);
    let mut stream = ByteStream::new(bytes);
    let p = Ipv4Packet::read_and_decode(&mut stream).unwrap();
    assert_eq!(p.protocol, 6);
    assert_eq!(p.content, Layer4Packet::Unknown);
    assert_eq!(stream.position(), 30);
}

#[test]
fn icmp_payload_keeps_its_data_bytes() {
    let mut bytes = header(0x45, 32, 1);
    bytes.extend_from_slice(&[0x00, 0x00, 0xff, 0xff, 0, 0, 0, 0, 1, 2, 3, 4]);
    let mut stream = ByteStream::new(bytes);
    let p = Ipv4Packet::read_and_decode(&mut stream).unwrap();
    match p.content {
        Layer4Packet::Icmp(m) => assert_eq!(m.data, vec![1, 2, 3, 4]),
        Layer4Packet::Unknown => panic!("expected an ICMP payload"),
    }
    assert_eq!(stream.position(), 32);
}

#[test]
fn consecutive_packets_decode_from_their_boundaries() {
    let mut bytes = header(0x46, 28, 17);
    bytes.extend_from_slice(&[0; 4]);
    bytes.extend_from_slice(&[9; 4]);
    let mut second = header(0x45, 28, 1);
    second.extend_from_slice(&[0x03, 0x01, 0, 0, 0, 0, 0, 0]);
    bytes.extend_from_slice(&second);
    let mut stream = ByteStream::new(bytes);
    let first = Ipv4Packet::read_and_decode(&mut stream).unwrap();
    assert_eq!(stream.position(), 28);
    assert_eq!(first.content, Layer4Packet::Unknown);
    let next = Ipv4Packet::read_and_decode(&mut stream).unwrap();
    assert_eq!(stream.position(), 56);
    match next.content {
        Layer4Packet::Icmp(m) => {
            assert_eq!(m.icmp_type, 3);
            assert_eq!(m.code, 1);
        }
        Layer4Packet::Unknown => panic!("expected an ICMP payload"),
    }
}

#[test]
fn short_total_length_is_malformed() {
    let mut bytes = header(0x46, 20, 17);
    bytes.extend_from_slice(&[0; 16]);
    let mut stream = ByteStream::new(bytes);
    assert_eq!(
        Ipv4Packet::read_and_decode(&mut stream),
        Err(DecodeError::MalformedHeader { total_length: 20, header_length: 6 })
    );
}

#[test]
fn truncated_header_is_end_of_stream() {
    let bytes = header(0x45, 20, 17);
    let mut stream = ByteStream::new(bytes[..19].to_vec());
    assert_eq!(Ipv4Packet::read_and_decode(&mut stream), Err(DecodeError::UnexpectedEof));
}

#[test]
fn truncated_options_are_end_of_stream() {
    let mut bytes = header(0x47, 28, 17);
    bytes.extend_from_slice(&[0; 7]);
    let mut stream = ByteStream::new(bytes);
    assert_eq!(Ipv4Packet::read_and_decode(&mut stream), Err(DecodeError::UnexpectedEof));
}

#[test]
fn truncated_payload_is_end_of_stream() {
    let mut bytes = header(0x45, 40, 17);
    bytes.extend_from_slice(&[0; 19]);
    let mut stream = ByteStream::new(bytes);
    assert_eq!(Ipv4Packet::read_and_decode(&mut stream), Err(DecodeError::UnexpectedEof));
}

#[test]
fn icmp_shorter_than_its_header_is_malformed() {
    let mut bytes = header(0x45, 24, 1);
    bytes.extend_from_slice(&[0; 4]);
    let mut stream = ByteStream::new(bytes);
    assert_eq!(
        Ipv4Packet::read_and_decode(&mut stream),
        Err(DecodeError::MalformedTransport { bytes_left: 4 })
    );
}
