use globalprotect::client::{decode_api_key, dev_api_key, parse_u16, port_from_lock, ApiKeyError, PortError};
use globalprotect::crypto::{Crypto, CryptoError, NONCE_LEN, TAG_LEN};
use globalprotect::encoding::{base64_decode, base64_encode};

#[test]
fn frames_round_trip() {
    let c = Crypto::new(vec![7u8; 32]);
    let msg = br#"{"Disconnect":null}"#;
    let frame = c.encrypt(msg).unwrap();
    assert_eq!(frame.len(), NONCE_LEN + msg.len() + TAG_LEN);
    assert_eq!(c.decrypt(&frame).unwrap(), msg.to_vec());
    // A fresh nonce each time.
    assert_ne!(c.encrypt(msg).unwrap(), frame);
}

#[test]
fn bad_frames_are_refused() {
    let c = Crypto::new(vec![7u8; 32]);
    assert_eq!(c.decrypt(&[0u8; NONCE_LEN]).unwrap_err(), CryptoError::FrameTooShort);
    assert_eq!(c.decrypt(&[]).unwrap_err(), CryptoError::FrameTooShort);
    let mut frame = c.encrypt(b"hello").unwrap();
    let last = frame.len() - 1;
    frame[last] ^= 1;
    assert_eq!(c.decrypt(&frame).unwrap_err(), CryptoError::DecryptFailed);
    let other = Crypto::new(vec![8u8; 32]);
    let frame = c.encrypt(b"hello").unwrap();
    assert_eq!(other.decrypt(&frame).unwrap_err(), CryptoError::DecryptFailed);
}

#[test]
fn base64_round_trip() {
    assert_eq!(base64_encode(b"hello"), "aGVsbG8=");
    assert_eq!(base64_decode("aGVsbG8="), Some(b"hello".to_vec()));
    assert_eq!(base64_decode("aGVsbG8"), None);
    assert_eq!(base64_decode("!!"), None);
}

#[test]
fn lock_file_port() {
    assert_eq!(port_from_lock("1234:40123\n"), Ok(40123));
    assert_eq!(port_from_lock("  99:+80  "), Ok(80));
    assert_eq!(port_from_lock("1234"), Err(PortError::NotPidPort));
    assert_eq!(port_from_lock("1:70000"), Err(PortError::BadPort));
    assert_eq!(port_from_lock("1:"), Err(PortError::BadPort));
    assert_eq!(port_from_lock("1:8x"), Err(PortError::BadPort));
    assert_eq!(port_from_lock("1:-8"), Err(PortError::BadPort));
    assert_eq!(port_from_lock("1:65535:extra"), Ok(65535));
}

#[test]
fn decimal_u16() {
    let p = |s: &str| parse_u16(&s.chars().collect::<Vec<char>>());
    for s in ["0", "1", "443", "65535", "+7", "0065535", "65536", "", "+", "-1", " 1", "1 "] {
        assert_eq!(p(s), s.parse::<u16>().ok(), "{s:?}");
    }
}

#[test]
fn shared_key() {
    let key = vec![3u8; 32];
    let text = format!("  {}\n", base64_encode(&key));
    assert_eq!(decode_api_key(&text), Ok(key));
    assert_eq!(decode_api_key(&base64_encode(&[1u8; 16])), Err(ApiKeyError::WrongLength(16)));
    assert_eq!(decode_api_key("not base64!"), Err(ApiKeyError::NotBase64));
    assert_eq!(dev_api_key(), vec![0u8; 32]);
}
