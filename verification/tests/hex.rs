use vanity_search::hex::byte_array_to_hex;
use vanity_search::hex::byte_array_to_hex_prefixed;
use vanity_search::hex::nibble_to_hex;
use vanity_search::hex::push_hex;
use vanity_search::hex::push_hex_prefixed;

#[test]
fn hex_of_known_bytes() {
    assert_eq!(byte_array_to_hex(&vec![0x00, 0x0f, 0xa5, 0xff]), "000fa5ff");
    assert_eq!(byte_array_to_hex(&vec![0xde, 0xad, 0xbe, 0xef]), "deadbeef");
    assert_eq!(
        byte_array_to_hex_prefixed(&vec![0x00, 0x0f, 0xa5, 0xff]),
        "0x000fa5ff"
    );
}

#[test]
fn hex_of_nothing() {
    assert_eq!(byte_array_to_hex(&Vec::new()), "");
    assert_eq!(byte_array_to_hex_prefixed(&Vec::new()), "0x");
}

#[test]
fn hex_agrees_with_std_on_every_byte() {
    for b in 0..=255u8 {
        assert_eq!(byte_array_to_hex(&vec![b]), format!("{:02x}", b));
    }
}

#[test]
fn hex_has_two_digits_per_byte() {
    let bytes: Vec<u8> = (0..=255u8).collect();
    let text = byte_array_to_hex_prefixed(&bytes);
    assert_eq!(text.len(), 2 + 2 * 256);
    assert!(text.starts_with("0x"));
    assert!(text[2..]
        .chars()
        .all(|c| c.is_ascii_digit() || ('a'..='f').contains(&c)));
}

#[test]
fn every_nibble_has_its_digit() {
    let digits: Vec<char> = "0123456789abcdef".chars().collect();
    for n in 0..16u8 {
        assert_eq!(nibble_to_hex(n), digits[n as usize]);
    }
}

#[test]
fn hex_is_appended_to_what_is_there() {
    let mut text = String::from("key ");
    push_hex(&mut text, &[0x01, 0x2a]);
    assert_eq!(text, "key 012a");
    push_hex_prefixed(&mut text, &[0xff]);
    assert_eq!(text, "key 012a0xff");
}
