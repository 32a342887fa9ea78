use a2vm_core::keyboard::{map_apple_key, AppleKey};

#[test]
fn printable_keys_map_to_ascii() {
    assert_eq!(map_apple_key(AppleKey::Printable('a')), Some(b'A'));
    assert_eq!(map_apple_key(AppleKey::Printable('A')), Some(b'A'));
    assert_eq!(map_apple_key(AppleKey::Printable(' ')), Some(0x20));
    assert_eq!(map_apple_key(AppleKey::Printable('1')), Some(b'1'));
}

#[test]
fn non_ascii_printable_is_rejected() {
    assert_eq!(map_apple_key(AppleKey::Printable('é')), None);
}

#[test]
fn control_keys_map_to_apple_codes() {
    assert_eq!(map_apple_key(AppleKey::Control('a')), Some(0x01));
    assert_eq!(map_apple_key(AppleKey::Control('z')), Some(0x1A));
    assert_eq!(map_apple_key(AppleKey::Control('A')), Some(0x01));
    assert_eq!(map_apple_key(AppleKey::Control('1')), None);
}

#[test]
fn named_keys_map_to_expected_values() {
    assert_eq!(map_apple_key(AppleKey::Enter), Some(0x0D));
    assert_eq!(map_apple_key(AppleKey::Backspace), Some(0x08));
    assert_eq!(map_apple_key(AppleKey::Delete), Some(0x7F));
    assert_eq!(map_apple_key(AppleKey::Space), Some(0x20));
    assert_eq!(map_apple_key(AppleKey::Left), Some(0x08));
    assert_eq!(map_apple_key(AppleKey::Right), Some(0x15));
    assert_eq!(map_apple_key(AppleKey::Up), Some(0x0B));
    assert_eq!(map_apple_key(AppleKey::Down), Some(0x0A));
    assert_eq!(map_apple_key(AppleKey::Escape), Some(0x1B));
    assert_eq!(map_apple_key(AppleKey::Tab), Some(0x09));
}

#[test]
fn lowercase_letters_fold_to_uppercase() {
    for c in 'a'..='z' {
        let upper = (c as u8) - 0x20;
        assert_eq!(map_apple_key(AppleKey::Printable(c)), Some(upper));
    }
}

#[test]
fn every_key_code_is_seven_bit() {
    for c in 0u32..0x200 {
        if let Some(ch) = char::from_u32(c) {
            if let Some(code) = map_apple_key(AppleKey::Printable(ch)) {
                assert!(code < 0x80);
            }
            if let Some(code) = map_apple_key(AppleKey::Control(ch)) {
                assert!(code < 0x80);
            }
        }
    }
}
