use dns_decoder::domain::dns_packet::DnsPacket;
use dns_decoder::domain::dns_packet_buffer::DnsPacketBuffer;
use dns_decoder::error::DecodeError;

fn buffer_with(bytes: &[u8], at: usize) -> DnsPacketBuffer {
    let mut buffer = DnsPacketBuffer::new();
    for (i, b) in bytes.iter().enumerate() {
        buffer.buf[at + i] = *b;
    }
    buffer.pos = at;
    buffer
}

#[test]
fn plain_name_is_joined_by_dots() {
    let mut buffer = buffer_with(b"\x03www\x06google\x03com\x00", 0);
    assert_eq!(DnsPacket::decode_name(&mut buffer), Ok(String::from("www.google.com")));
    assert_eq!(buffer.pos(), 16);
}

#[test]
fn root_name_is_empty() {
    let mut buffer = buffer_with(&[0], 40);
    assert_eq!(DnsPacket::decode_name(&mut buffer), Ok(String::new()));
    assert_eq!(buffer.pos(), 41);
}

#[test]
fn labels_are_case_folded() {
    let mut upper = buffer_with(b"\x03WWW\x00", 0);
    let mut lower = buffer_with(b"\x03www\x00", 0);
    let a = DnsPacket::decode_name(&mut upper).unwrap();
    let b = DnsPacket::decode_name(&mut lower).unwrap();
    assert_eq!(a, b);
    assert_eq!(a, "www");
}

#[test]
fn mixed_case_name_is_lowercase() {
    let mut buffer = buffer_with(b"\x06GoOgLe\x03CoM\x00", 0);
    assert_eq!(DnsPacket::decode_name(&mut buffer), Ok(String::from("google.com")));
}

#[test]
fn malformed_octets_become_replacement_characters() {
    let mut buffer = buffer_with(&[3, b'a', 0xff, b'B', 0], 0);
    assert_eq!(DnsPacket::decode_name(&mut buffer), Ok(String::from("a\u{fffd}b")));
    assert_eq!(buffer.pos(), 5);
}

#[test]
fn non_ascii_label_is_lowercased() {
    // U+00C9, capital E with acute, in UTF-8
    let mut buffer = buffer_with(&[2, 0xc3, 0x89, 0], 0);
    assert_eq!(DnsPacket::decode_name(&mut buffer), Ok(String::from("\u{e9}")));
}

#[test]
fn pointer_leaves_cursor_behind_its_two_octets() {
    let mut bytes = vec![0u8; 64];
    bytes[12..24].copy_from_slice(b"\x06google\x03com\x00");
    bytes[40] = 0xc0;
    bytes[41] = 0x0c;
    let mut buffer = buffer_with(&bytes, 0);
    buffer.pos = 40;
    assert_eq!(DnsPacket::decode_name(&mut buffer), Ok(String::from("google.com")));
    assert_eq!(buffer.pos(), 42);
}

#[test]
fn labels_before_a_pointer_are_kept() {
    let mut bytes = vec![0u8; 64];
    bytes[12..24].copy_from_slice(b"\x06google\x03com\x00");
    bytes[30..36].copy_from_slice(b"\x03WWW\xc0\x0c");
    let mut buffer = buffer_with(&bytes, 0);
    buffer.pos = 30;
    assert_eq!(DnsPacket::decode_name(&mut buffer), Ok(String::from("www.google.com")));
    assert_eq!(buffer.pos(), 36);
}

#[test]
fn chained_pointers_keep_the_first_cursor() {
    let mut bytes = vec![0u8; 80];
    bytes[10..15].copy_from_slice(b"\x03com\x00");
    bytes[20..24].copy_from_slice(b"\x01b\xc0\x0a");
    bytes[30..34].copy_from_slice(b"\x01a\xc0\x14");
    bytes[60] = 0xc0;
    bytes[61] = 30;
    let mut buffer = buffer_with(&bytes, 0);
    buffer.pos = 60;
    assert_eq!(DnsPacket::decode_name(&mut buffer), Ok(String::from("a.b.com")));
    assert_eq!(buffer.pos(), 62);
}

#[test]
fn pointer_offset_uses_fourteen_bits() {
    let mut buffer = DnsPacketBuffer::new();
    buffer.buf[0x1f0] = 1;
    buffer.buf[0x1f1] = b'x';
    buffer.buf[0] = 0xc1;
    buffer.buf[1] = 0xf0;
    assert_eq!(DnsPacket::decode_name(&mut buffer), Ok(String::from("x")));
    assert_eq!(buffer.pos(), 2);
}

#[test]
fn two_pointers_in_a_cycle_are_refused() {
    let mut bytes = vec![0u8; 32];
    bytes[4] = 0xc0;
    bytes[5] = 20;
    bytes[20] = 0xc0;
    bytes[21] = 4;
    let mut buffer = buffer_with(&bytes, 0);
    buffer.pos = 4;
    assert_eq!(DnsPacket::decode_name(&mut buffer), Err(DecodeError::CompressionLoopExceeded));
    assert_eq!(buffer.pos(), 6);
}

#[test]
fn pointer_to_itself_is_refused() {
    let mut buffer = buffer_with(&[0xc0, 0x00], 0);
    assert_eq!(DnsPacket::decode_name(&mut buffer), Err(DecodeError::CompressionLoopExceeded));
    assert_eq!(buffer.pos(), 2);
}

fn pointer_chain(links: usize) -> DnsPacketBuffer {
    // pointer i stands at 2 * i and leads to 2 * (i + 1); the name stands behind the last
    let mut buffer = DnsPacketBuffer::new();
    for i in 0..links {
        buffer.buf[2 * i] = 0xc0;
        buffer.buf[2 * i + 1] = (2 * (i + 1)) as u8;
    }
    buffer.buf[2 * links] = 2;
    buffer.buf[2 * links + 1] = b'O';
    buffer.buf[2 * links + 2] = b'K';
    buffer
}

#[test]
fn six_pointers_are_followed() {
    let mut buffer = pointer_chain(6);
    assert_eq!(DnsPacket::decode_name(&mut buffer), Ok(String::from("ok")));
    assert_eq!(buffer.pos(), 2);
}

#[test]
fn seventh_pointer_is_refused() {
    let mut buffer = pointer_chain(7);
    assert_eq!(DnsPacket::decode_name(&mut buffer), Err(DecodeError::CompressionLoopExceeded));
    assert_eq!(buffer.pos(), 2);
}

#[test]
fn pointer_past_the_buffer_is_out_of_bounds() {
    let mut buffer = buffer_with(&[0xff, 0xff], 0);
    assert_eq!(DnsPacket::decode_name(&mut buffer), Err(DecodeError::OutOfBounds));
    assert_eq!(buffer.pos(), 2);
}

#[test]
fn pointer_cut_in_half_is_out_of_bounds() {
    let mut buffer = buffer_with(&[0xc0], 511);
    assert_eq!(DnsPacket::decode_name(&mut buffer), Err(DecodeError::OutOfBounds));
    assert_eq!(buffer.pos(), 513);
}

#[test]
fn label_reaching_the_end_is_out_of_bounds() {
    let mut buffer = buffer_with(&[5, b'a', b'b', b'c', b'd', b'e'], 506);
    assert_eq!(DnsPacket::decode_name(&mut buffer), Err(DecodeError::OutOfBounds));
    assert_eq!(buffer.pos(), 506);
}

#[test]
fn name_without_terminator_is_out_of_bounds() {
    let mut buffer = buffer_with(&[3, b'a', b'b', b'c'], 508);
    assert_eq!(DnsPacket::decode_name(&mut buffer), Err(DecodeError::OutOfBounds));
    assert_eq!(buffer.pos(), 508);
}

#[test]
fn name_from_exhausted_cursor_is_out_of_bounds() {
    let mut buffer = DnsPacketBuffer::new();
    buffer.pos = 512;
    assert_eq!(DnsPacket::decode_name(&mut buffer), Err(DecodeError::OutOfBounds));
    assert_eq!(buffer.pos(), 512);
}

#[test]
fn name_may_end_with_the_buffer() {
    let mut buffer = buffer_with(&[1, b'z', 0], 509);
    assert_eq!(DnsPacket::decode_name(&mut buffer), Ok(String::from("z")));
    assert_eq!(buffer.pos(), 512);
}

#[test]
fn longest_label_is_sixty_three_octets() {
    let mut bytes = vec![63u8];
    bytes.extend(std::iter::repeat(b'Q').take(63));
    bytes.push(0);
    let mut buffer = buffer_with(&bytes, 0);
    assert_eq!(DnsPacket::decode_name(&mut buffer), Ok("q".repeat(63)));
    assert_eq!(buffer.pos(), 65);
}
