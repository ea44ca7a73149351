use tsunagu::encryption::Encryption;
use tsunagu::error::EncryptionError;
use tsunagu::error::TsunaguError;

/// A session that seals under a new key, and one that opens under it.
fn pair() -> (Encryption, Encryption) {
    let sender = Encryption::new().unwrap();
    let receiver = Encryption::from_base64_key(&sender.get_base64_key()).unwrap();
    (sender, receiver)
}

fn opener(key_byte: u8) -> Encryption {
    Encryption::from_key_bytes(vec![key_byte; 32]).unwrap()
}

fn is_error(result: Result<Vec<u8>, TsunaguError>, kind: EncryptionError) -> bool {
    result == Err(TsunaguError::Encryption(kind))
}

#[test]
fn test_encryption_decryption() {
    let mut encryption = Encryption::new().unwrap();
    let original_data = b"Hello, World!";

    let encrypted = encryption.encrypt(original_data).unwrap();
    assert_ne!(encrypted, original_data);

    let decrypted = encryption.decrypt(&encrypted).unwrap();
    assert_eq!(decrypted, original_data);
}

#[test]
fn test_base64_key() {
    let mut encryption = Encryption::new().unwrap();
    let base64_key = encryption.get_base64_key();

    let mut encryption_from_key = Encryption::from_base64_key(&base64_key).unwrap();

    let original_data = b"Test data";
    let encrypted = encryption.encrypt(original_data).unwrap();
    let decrypted = encryption_from_key.decrypt(&encrypted).unwrap();

    assert_eq!(decrypted, original_data);
}

#[test]
fn test_invalid_base64_key() {
    let result = Encryption::from_base64_key("invalid_base64");
    assert!(result.is_err());
}

#[test]
fn invalid_keys_are_refused_with_invalid_key() {
    let malformed = Encryption::from_base64_key("invalid_base64");
    assert!(matches!(malformed, Err(TsunaguError::Encryption(EncryptionError::InvalidKey))));
    // Well-formed text that decodes to 16 bytes, not 32.
    let short = Encryption::from_base64_key("AAAAAAAAAAAAAAAAAAAAAA==");
    assert!(matches!(short, Err(TsunaguError::Encryption(EncryptionError::InvalidKey))));
    let bytes = Encryption::from_key_bytes(vec![0u8; 31]);
    assert!(matches!(bytes, Err(TsunaguError::Encryption(EncryptionError::InvalidKey))));
    let longer = Encryption::from_key_bytes(vec![0u8; 33]);
    assert!(matches!(longer, Err(TsunaguError::Encryption(EncryptionError::InvalidKey))));
    let empty = Encryption::from_base64_key("");
    assert!(matches!(empty, Err(TsunaguError::Encryption(EncryptionError::InvalidKey))));
}

#[test]
fn key_text_round_trips_exactly() {
    assert_eq!(opener(0).get_base64_key(), "AAAAAAAAAAAAAAAAAAAAAAAAAAAAAAAAAAAAAAAAAAA=");
    let key: Vec<u8> = (0u8..32).collect();
    let original = Encryption::from_key_bytes(key).unwrap();
    let text = original.get_base64_key();
    assert_eq!(text, "AAECAwQFBgcICQoLDA0ODxAREhMUFRYXGBkaGxwdHh8=");
    let restored = Encryption::from_base64_key(&text).unwrap();
    assert_eq!(restored.get_base64_key(), text);
    assert_eq!(restored.recv_counter(), 0);
}

#[test]
fn the_text_of_a_key_is_accepted() {
    let zeros = "AAAAAAAAAAAAAAAAAAAAAAAAAAAAAAAAAAAAAAAAAAA=";
    assert_eq!(zeros.len(), 44);
    let session = Encryption::from_base64_key(zeros).unwrap();
    assert_eq!(session.get_base64_key(), zeros);

    let made = Encryption::new().unwrap();
    let shared = Encryption::from_base64_key(&made.get_base64_key()).unwrap();
    assert_eq!(shared.get_base64_key(), made.get_base64_key());
    assert!(Encryption::from_key_bytes(vec![9u8; 32]).is_ok());
}

#[test]
fn new_sessions_have_different_keys() {
    let a = Encryption::new().unwrap();
    let b = Encryption::new().unwrap();
    assert_eq!(a.get_base64_key().len(), 44);
    assert_ne!(a.get_base64_key(), b.get_base64_key());
    assert_eq!(a.send_counter(), 0);
    assert_eq!(a.recv_counter(), 0);
}

#[test]
fn only_the_session_that_made_the_key_seals() {
    let (mut sender, mut receiver) = pair();
    let message = sender.encrypt(b"from the maker").unwrap();

    assert_eq!(receiver.send_counter(), u64::MAX);
    assert!(is_error(receiver.encrypt(b"from the maker"), EncryptionError::CounterExhausted));
    assert!(is_error(receiver.encrypt(b""), EncryptionError::CounterExhausted));
    assert_eq!(receiver.send_counter(), u64::MAX);
    assert_eq!(receiver.decrypt(&message).unwrap(), b"from the maker");

    let mut from_bytes = opener(1);
    assert!(is_error(from_bytes.encrypt(b"x"), EncryptionError::CounterExhausted));
}

#[test]
fn known_messages_open_to_their_plaintext() {
    // AES-256-GCM with an all-zero key and an all-zero nonce: one block of
    // zeros seals to these sixteen bytes of ciphertext and this tag.
    let block: Vec<u8> = vec![
        0, 0, 0, 0, 0, 0, 0, 0, 0xce, 0xa7, 0x40, 0x3d, 0x4d, 0x60, 0x6b, 0x6e, 0x07, 0x4e, 0xc5,
        0xd3, 0xba, 0xf3, 0x9d, 0x18, 0xd0, 0xd1, 0xc8, 0xa7, 0x99, 0x99, 0x6b, 0xf0, 0x26, 0x5b,
        0x98, 0xb5, 0xd4, 0x8a, 0xb9, 0x19,
    ];
    assert_eq!(opener(0).decrypt(&block).unwrap(), vec![0u8; 16]);

    // And nothing at all seals to this tag alone.
    let empty: Vec<u8> = vec![
        0, 0, 0, 0, 0, 0, 0, 0, 0x53, 0x0f, 0x8a, 0xfb, 0xc7, 0x45, 0x36, 0xb9, 0xa9, 0x63, 0xb4,
        0xf1, 0xc4, 0xcb, 0x73, 0x8b,
    ];
    assert_eq!(opener(0).decrypt(&empty).unwrap(), Vec::<u8>::new());
    assert!(is_error(opener(1).decrypt(&block), EncryptionError::AuthenticationFailure));
}

#[test]
fn a_sealed_message_is_counter_ciphertext_and_tag() {
    let (mut sender, _) = pair();
    let first = sender.encrypt(b"abc").unwrap();
    assert_eq!(first.len(), 8 + 3 + 16);
    assert_eq!(&first[..8], &0u64.to_le_bytes());
    let second = sender.encrypt(b"abc").unwrap();
    assert_eq!(&second[..8], &1u64.to_le_bytes());
    assert_ne!(first[8..], second[8..]);
}

#[test]
fn round_trip_for_many_plaintexts() {
    let (mut sender, mut receiver) = pair();
    for len in [0usize, 1, 15, 16, 17, 255, 4096, 70000] {
        let plaintext: Vec<u8> = (0..len).map(|i| (i * 31 % 251) as u8).collect();
        let message = sender.encrypt(&plaintext).unwrap();
        assert_eq!(message.len(), 8 + len + 16);
        assert_eq!(receiver.decrypt(&message).unwrap(), plaintext);
    }
    assert_eq!(sender.send_counter(), 8);
    assert_eq!(receiver.recv_counter(), 8);
    assert_eq!(sender.recv_counter(), 0);
}

#[test]
fn flipping_any_bit_fails_authentication() {
    let (mut sender, _) = pair();
    let key = sender.get_base64_key();
    let message = sender.encrypt(b"tamper with me").unwrap();
    for index in 0..message.len() {
        for bit in 0..8 {
            let mut altered = message.clone();
            altered[index] ^= 1 << bit;
            let mut receiver = Encryption::from_base64_key(&key).unwrap();
            assert!(
                is_error(receiver.decrypt(&altered), EncryptionError::AuthenticationFailure),
                "byte {} bit {}",
                index,
                bit
            );
            assert_eq!(receiver.recv_counter(), 0);
            // The session is as it was: the genuine message still opens.
            assert_eq!(receiver.decrypt(&message).unwrap(), b"tamper with me");
        }
    }
}

#[test]
fn truncated_messages_fail_authentication() {
    let (mut sender, mut receiver) = pair();
    let message = sender.encrypt(b"short").unwrap();
    for len in 0..message.len() {
        assert!(is_error(
            receiver.decrypt(&message[..len]),
            EncryptionError::AuthenticationFailure
        ));
    }
    assert_eq!(receiver.decrypt(&message).unwrap(), b"short");
}

#[test]
fn a_wrong_key_fails_authentication() {
    let (mut sender, _) = pair();
    let message = sender.encrypt(b"secret").unwrap();
    let (_, mut stranger) = pair();
    assert!(is_error(stranger.decrypt(&message), EncryptionError::AuthenticationFailure));
    assert!(is_error(opener(2).decrypt(&message), EncryptionError::AuthenticationFailure));
}

#[test]
fn a_replayed_message_is_detected() {
    let (mut sender, mut receiver) = pair();
    let first = sender.encrypt(b"one").unwrap();
    let second = sender.encrypt(b"two").unwrap();
    assert_eq!(receiver.decrypt(&first).unwrap(), b"one");
    assert!(is_error(receiver.decrypt(&first), EncryptionError::ReplayDetected));
    assert_eq!(receiver.recv_counter(), 1);
    assert_eq!(receiver.decrypt(&second).unwrap(), b"two");
    assert!(is_error(receiver.decrypt(&first), EncryptionError::ReplayDetected));
    assert!(is_error(receiver.decrypt(&second), EncryptionError::ReplayDetected));
    assert_eq!(receiver.recv_counter(), 2);
}

#[test]
fn a_message_out_of_order_fails_authentication() {
    let (mut sender, mut receiver) = pair();
    let first = sender.encrypt(b"one").unwrap();
    let second = sender.encrypt(b"two").unwrap();
    assert!(is_error(receiver.decrypt(&second), EncryptionError::AuthenticationFailure));
    assert_eq!(receiver.recv_counter(), 0);
    assert_eq!(receiver.decrypt(&first).unwrap(), b"one");
    assert_eq!(receiver.decrypt(&second).unwrap(), b"two");
}

#[test]
fn no_nonce_is_used_twice() {
    let (mut sender, _) = pair();
    let mut seen: Vec<Vec<u8>> = Vec::new();
    for expected in 0u64..64 {
        assert_eq!(sender.send_counter(), expected);
        let message = sender.encrypt(b"same plaintext").unwrap();
        assert_eq!(&message[..8], &expected.to_le_bytes());
        assert!(!seen.contains(&message));
        seen.push(message);
    }
}
