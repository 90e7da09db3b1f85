use wireguard_proxy::keys::{read_key, read_private_key, read_pub_key, key_from_decoded, Base64Error, KeyError};

fn counting_key() -> [u8; 32] {
    let mut k = [0u8; 32];
    for i in 0..32 {
        k[i] = i as u8;
    }
    k
}

#[test]
fn read_key_accepts_thirty_two_bytes() {
    let key = read_key("WG_PEER_KEY", "AAECAwQFBgcICQoLDA0ODxAREhMUFRYXGBkaGxwdHh8=").unwrap();
    assert_eq!(key, counting_key());
}

#[test]
fn read_key_rejects_thirty_one_bytes() {
    let err = read_key("WG_PEER_KEY", "AAECAwQFBgcICQoLDA0ODxAREhMUFRYXGBkaGxwdHg==").unwrap_err();
    assert_eq!(err, KeyError::WrongLength { key: "WG_PEER_KEY".to_string(), decoded_len: 31 });
}

#[test]
fn read_key_rejects_thirty_three_bytes() {
    let err = read_key("WG_PRIVATE_KEY", "AAECAwQFBgcICQoLDA0ODxAREhMUFRYXGBkaGxwdHh8g").unwrap_err();
    assert_eq!(err, KeyError::WrongLength { key: "WG_PRIVATE_KEY".to_string(), decoded_len: 33 });
}

#[test]
fn read_key_rejects_empty_text() {
    let err = read_key("K", "").unwrap_err();
    assert_eq!(err, KeyError::WrongLength { key: "K".to_string(), decoded_len: 0 });
}

#[test]
fn read_key_rejects_bytes_outside_the_alphabet() {
    let err = read_key("K", "AA@A").unwrap_err();
    assert_eq!(err, KeyError::Base64(Base64Error::InvalidByte { offset: 2, byte: b'@' }));
}

#[test]
fn read_key_rejects_url_safe_alphabet() {
    let err = read_key("K", "AA_A").unwrap_err();
    assert_eq!(err, KeyError::Base64(Base64Error::InvalidByte { offset: 2, byte: b'_' }));
}

#[test]
fn read_key_rejects_trailing_bits() {
    let err = read_key("K", "AB==").unwrap_err();
    assert_eq!(err, KeyError::Base64(Base64Error::InvalidLastSymbol { offset: 1, symbol: b'B', symbol_value: 1 }));
}

#[test]
fn read_key_rejects_missing_padding() {
    let err = read_key("K", "AAECAw").unwrap_err();
    assert_eq!(err, KeyError::Base64(Base64Error::InvalidPadding));
}

#[test]
fn read_key_rejects_a_lone_symbol() {
    let err = read_key("K", "AAAAA").unwrap_err();
    assert_eq!(err, KeyError::Base64(Base64Error::InvalidLength { length: 5 }));
}

#[test]
fn key_from_decoded_keeps_bytes_in_order() {
    let bytes: Vec<u8> = (0u8..32).rev().collect();
    let key = key_from_decoded("K", bytes.clone()).unwrap();
    assert_eq!(key.to_vec(), bytes);
}

#[test]
fn key_from_decoded_reports_length() {
    let err = key_from_decoded("K", vec![1, 2, 3]).unwrap_err();
    assert_eq!(err, KeyError::WrongLength { key: "K".to_string(), decoded_len: 3 });
}

#[test]
fn read_private_key_holds_the_bytes() {
    let secret = read_private_key("WG_PRIVATE_KEY", "BwcHBwcHBwcHBwcHBwcHBwcHBwcHBwcHBwcHBwcHBwc=").unwrap();
    assert_eq!(secret.to_bytes(), [7u8; 32]);
}

#[test]
fn read_private_key_rejects_as_read_key_does() {
    let err = read_private_key("WG_PRIVATE_KEY", "AAAA").err().unwrap();
    assert_eq!(err, KeyError::WrongLength { key: "WG_PRIVATE_KEY".to_string(), decoded_len: 3 });
}

#[test]
fn read_pub_key_holds_the_bytes() {
    let public = read_pub_key("WG_PEER_KEY", "AAECAwQFBgcICQoLDA0ODxAREhMUFRYXGBkaGxwdHh8=").unwrap();
    assert_eq!(public.to_bytes(), counting_key());
}

#[test]
fn read_pub_key_rejects_bad_base64() {
    let err = read_pub_key("WG_PEER_KEY", "not base64!").err().unwrap();
    assert!(matches!(err, KeyError::Base64(Base64Error::InvalidByte { offset: 3, byte: b' ' })));
}

#[test]
fn wrong_length_message_names_the_key() {
    let err = read_key("WG_PEER_KEY", "AAAA").unwrap_err();
    assert_eq!(err.message(), "WG_PEER_KEY must decode to exactly 32 bytes");
}

#[test]
fn base64_messages_are_the_engines_own() {
    assert_eq!(read_key("K", "AA@A").unwrap_err().message(), "Invalid symbol 64, offset 2.");
    assert_eq!(read_key("K", "AAAAA").unwrap_err().message(), "Invalid input length: 5");
    assert_eq!(read_key("K", "AAECAw").unwrap_err().message(), "Invalid padding");
    assert_eq!(
        read_key("K", "AB==").unwrap_err().message(),
        "Invalid last symbol 0x42 ('B') at offset 1, decoded as 0b00000001."
    );
}
