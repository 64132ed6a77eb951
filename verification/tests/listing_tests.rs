use hymo_minimal::decode_rule_listing;

#[test]
fn empty_rule_set_decodes_to_empty_string() {
    // A component with no active rules leaves the scratch buffer zeroed:
    // the listing is an empty string, not an error.
    let buf = vec![0u8; 16 * 1024];
    assert_eq!(decode_rule_listing(&buf), "");
}

#[test]
fn listing_stops_at_the_first_null_byte() {
    let mut buf = vec![0u8; 64];
    buf[..12].copy_from_slice(b"rule1\nrule2\n");
    assert_eq!(decode_rule_listing(&buf), "rule1\nrule2\n");
}

#[test]
fn listing_without_terminator_takes_the_whole_buffer() {
    let buf = b"abc".to_vec();
    assert_eq!(decode_rule_listing(&buf), "abc");
}

#[test]
fn bytes_after_the_terminator_are_ignored() {
    let buf = b"kept\0dropped".to_vec();
    assert_eq!(decode_rule_listing(&buf), "kept");
}

#[test]
fn invalid_utf8_is_replaced_not_rejected() {
    let buf = [0xffu8, 0xfe, 0x00];
    assert_eq!(decode_rule_listing(&buf), "\u{fffd}\u{fffd}");
}
