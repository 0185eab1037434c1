use homer_relay::address::DeviceAddress;
use homer_relay::format::format_bytes;
use homer_relay::listing::address_string;
use homer_relay::text::get_bytes_as_hex;

#[test]
fn hex_pairs_joined_by_colons() {
    assert_eq!(get_bytes_as_hex(&[0x00, 0x01, 0x02]), "00:01:02");
    assert_eq!(get_bytes_as_hex(&[0xAB, 0x0F, 0xF0]), "AB:0F:F0");
    assert_eq!(get_bytes_as_hex(&[0x7E]), "7E");
    assert_eq!(get_bytes_as_hex(&[]), "");
}

#[test]
fn empty_value_placeholder() {
    assert_eq!(format_bytes(&[]), "(empty)");
}

#[test]
fn printable_text_verbatim() {
    assert_eq!(format_bytes(b"Hello world"), "Hello world");
    assert_eq!(format_bytes("héllo wörld".as_bytes()), "héllo wörld");
}

#[test]
fn over_ninety_percent_printable_verbatim() {
    // Ten printable characters out of eleven is above 90%.
    assert_eq!(format_bytes(b"AAAAAAAAAA\t"), "AAAAAAAAAA\t");
}

#[test]
fn unprintable_bytes_as_hex() {
    assert_eq!(format_bytes(&[0x00, 0x01, 0x02]), "00:01:02");
}

#[test]
fn invalid_utf8_as_hex() {
    assert_eq!(format_bytes(&[0xFF, 0xFE, 0x41]), "FF:FE:41");
    assert_eq!(format_bytes(&[0xC3]), "C3");
}

#[test]
fn short_mixed_value_as_hex_and_text() {
    assert_eq!(format_bytes(&[0x41, 0x42, 0x01, 0x02]), "41:42:01:02 (\"AB\u{1}\u{2}\")");
    // Nine printable characters out of ten is exactly 90%, not above it.
    let mut v = b"abcdefghi".to_vec();
    v.push(0x03);
    assert_eq!(format_bytes(&v), "61:62:63:64:65:66:67:68:69:03 (\"abcdefghi\u{3}\")");
}

#[test]
fn long_mixed_value_as_hex() {
    let mut v = vec![0x41u8; 10];
    v.extend(vec![0x01u8; 10]);
    assert_eq!(format_bytes(&v), get_bytes_as_hex(&v));
    assert!(!format_bytes(&v).contains('('));
}

#[test]
fn mostly_unprintable_short_value_as_hex() {
    let v = [0x41u8, 0x01, 0x02, 0x03, 0x04, 0x05];
    assert_eq!(format_bytes(&v), "41:01:02:03:04:05");
}

#[test]
fn address_printed_last_byte_first() {
    let a = DeviceAddress::new([0x01, 0x02, 0x03, 0x04, 0x05, 0xAB]);
    assert_eq!(address_string(&a), "AB:05:04:03:02:01");
}

#[test]
fn twenty_percent_boundary() {
    // One printable character out of five is exactly 20%, not above it.
    assert_eq!(format_bytes(&[0x41, 0x01, 0x02, 0x03, 0x04]), "41:01:02:03:04");
    // One out of four is above it.
    assert_eq!(format_bytes(&[0x41, 0x01, 0x02, 0x03]), "41:01:02:03 (\"A\u{1}\u{2}\u{3}\")");
}
