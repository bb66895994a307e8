use dns_decoder::domain::dns_packet::DnsPacket;
use dns_decoder::domain::dns_packet_buffer::DnsPacketBuffer;
use dns_decoder::hex::{hex_str_to_bits, is_hex_str};

#[test]
fn hex_pairs_become_octets() {
    assert_eq!(hex_str_to_bits("862a8180"), Ok(vec![0x86, 0x2a, 0x81, 0x80]));
    assert_eq!(hex_str_to_bits("00ff10"), Ok(vec![0x00, 0xff, 0x10]));
}

#[test]
fn hex_digits_in_either_case() {
    assert_eq!(hex_str_to_bits("aBcDeF09"), Ok(vec![0xab, 0xcd, 0xef, 0x09]));
    assert_eq!(hex_str_to_bits("AF"), hex_str_to_bits("af"));
}

#[test]
fn empty_hex_text_is_empty() {
    assert_eq!(hex_str_to_bits(""), Ok(vec![]));
}

#[test]
fn odd_hex_text_is_refused() {
    assert_eq!(hex_str_to_bits("abc"), Err("Hex String Formatter Error"));
    assert_eq!(hex_str_to_bits("0"), Err("Hex String Formatter Error"));
    assert_eq!(hex_str_to_bits("xyz"), Err("Hex String Formatter Error"));
}

#[test]
fn hex_text_of_a_response_decodes() {
    let text = "862a8180000100010000000006676f6f676c6503636f6d0000010001c00c00010001000001250004d83ad38e";
    let bits = hex_str_to_bits(text).unwrap();
    assert_eq!(bits.len(), 44);
    let mut buffer = DnsPacketBuffer::new();
    for i in 0..bits.len() {
        buffer.buf[i] = bits[i];
    }
    let packet = DnsPacket::decode(&mut buffer).unwrap();
    assert_eq!(packet.questions[0].name, "google.com");
    assert_eq!(packet.answers[0].ttl, 293);
}

#[test]
fn hex_text_is_told_from_other_text() {
    assert!(is_hex_str(""));
    assert!(is_hex_str("0123456789abcdefABCDEF"));
    assert!(!is_hex_str("0g"));
    assert!(!is_hex_str("+1"));
    assert!(!is_hex_str(" 1"));
    assert!(!is_hex_str("/:"));
    assert!(!is_hex_str("@G"));
    assert!(!is_hex_str("`g"));
    assert!(!is_hex_str("\u{e9}1"));
}
