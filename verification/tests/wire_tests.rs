use tsunagu::encryption::Encryption;
use tsunagu::error::EncryptionError;
use tsunagu::error::TransferError;
use tsunagu::error::TsunaguError;
use tsunagu::wire::check_greeting;
use tsunagu::wire::decode_frame;
use tsunagu::wire::encode_frame;
use tsunagu::wire::encode_greeting;
use tsunagu::wire::open_chunk;
use tsunagu::wire::seal_chunk;
use tsunagu::wire::Parsed;
use tsunagu::wire::Received;
use tsunagu::wire::MAX_PAYLOAD;
use tsunagu::wire::PROTOCOL_VERSION;

/// A session that seals under a new key, and one that opens under it.
fn pair() -> (Encryption, Encryption) {
    let sender = Encryption::new().unwrap();
    let receiver = Encryption::from_base64_key(&sender.get_base64_key()).unwrap();
    (sender, receiver)
}

fn violation() -> TsunaguError {
    TsunaguError::Transfer(TransferError::ProtocolViolation)
}

#[test]
fn the_greeting_is_magic_and_version() {
    assert_eq!(PROTOCOL_VERSION, 1);
    assert_eq!(encode_greeting(), vec![0x54, 0x53, 0x4e, 0x47, 1, 0, 0, 0]);
    assert_eq!(&encode_greeting()[..4], b"TSNG");
    assert!(check_greeting(&encode_greeting()).is_ok());
}

#[test]
fn other_greetings_are_protocol_violations() {
    assert_eq!(check_greeting(&[]).unwrap_err(), violation());
    assert_eq!(check_greeting(b"TSNG").unwrap_err(), violation());
    assert_eq!(check_greeting(&[0x54, 0x53, 0x4e, 0x47, 2, 0, 0, 0]).unwrap_err(), violation());
    assert_eq!(check_greeting(&[0x54, 0x53, 0x4e, 0x47, 1, 0, 0, 1]).unwrap_err(), violation());
    assert_eq!(check_greeting(&[0x54, 0x53, 0x4e, 0x48, 1, 0, 0, 0]).unwrap_err(), violation());
    assert_eq!(
        check_greeting(&[0x54, 0x53, 0x4e, 0x47, 1, 0, 0, 0, 0]).unwrap_err(),
        violation()
    );
    let greeting = encode_greeting();
    for index in 0..greeting.len() {
        let mut altered = greeting.clone();
        altered[index] ^= 0x80;
        assert_eq!(check_greeting(&altered).unwrap_err(), violation());
    }
}

#[test]
fn a_frame_is_length_then_payload() {
    assert_eq!(encode_frame(&[1, 2, 3]).unwrap(), vec![3, 0, 0, 0, 1, 2, 3]);
    assert_eq!(encode_frame(&[]).unwrap(), vec![0, 0, 0, 0]);
    let long = vec![9u8; 300];
    let frame = encode_frame(&long).unwrap();
    assert_eq!(&frame[..4], &[0x2c, 0x01, 0, 0]);
    assert_eq!(&frame[4..], &long[..]);
}

#[test]
fn the_largest_payload_fits_and_one_more_byte_does_not() {
    assert_eq!(MAX_PAYLOAD, 65536 + 8 + 16);
    let largest = vec![0u8; MAX_PAYLOAD];
    assert_eq!(encode_frame(&largest).unwrap().len(), MAX_PAYLOAD + 4);
    let too_large = vec![0u8; MAX_PAYLOAD + 1];
    assert_eq!(encode_frame(&too_large).unwrap_err(), violation());
}

#[test]
fn frames_parse_back_whatever_follows() {
    let mut buffer = encode_frame(&[1, 2, 3]).unwrap();
    buffer.extend_from_slice(&encode_frame(&[4, 5]).unwrap());
    buffer.push(0xff);
    match decode_frame(&buffer) {
        Parsed::Frame(payload, used) => {
            assert_eq!(payload, vec![1, 2, 3]);
            assert_eq!(used, 7);
        }
        _ => panic!("expected a frame"),
    }
    match decode_frame(&buffer[7..]) {
        Parsed::Frame(payload, used) => {
            assert_eq!(payload, vec![4, 5]);
            assert_eq!(used, 6);
        }
        _ => panic!("expected a frame"),
    }
    assert!(matches!(decode_frame(&buffer[13..]), Parsed::Incomplete));
}

#[test]
fn a_frame_that_has_not_arrived_whole_is_incomplete() {
    let frame = encode_frame(b"payload").unwrap();
    for len in 0..frame.len() {
        assert!(matches!(decode_frame(&frame[..len]), Parsed::Incomplete));
    }
    assert!(matches!(decode_frame(&frame), Parsed::Frame(_, 11)));
}

#[test]
fn a_length_beyond_the_largest_payload_is_invalid() {
    assert!(matches!(decode_frame(&[0xff, 0xff, 0xff, 0xff]), Parsed::Invalid));
    // 65561 = 0x00010019
    assert!(matches!(decode_frame(&[0x19, 0x00, 0x01, 0x00, 7]), Parsed::Invalid));
    // 65560 = 0x00010018: allowed, but not all here yet.
    assert!(matches!(decode_frame(&[0x18, 0x00, 0x01, 0x00, 7]), Parsed::Incomplete));
}

#[test]
fn sealed_chunks_travel_in_frames() {
    let (mut sender, mut receiver) = pair();
    let mut stream: Vec<u8> = Vec::new();
    let chunks: Vec<Vec<u8>> = vec![b"first".to_vec(), Vec::new(), vec![7u8; 65536]];
    for chunk in &chunks {
        let frame = seal_chunk(&mut sender, chunk).unwrap();
        assert_eq!(frame.len(), 4 + 8 + chunk.len() + 16);
        stream.extend_from_slice(&frame);
    }
    assert_eq!(sender.send_counter(), 3);

    let mut offset = 0;
    for chunk in &chunks {
        match open_chunk(&mut receiver, &stream[offset..]) {
            Received::Chunk(plain, used) => {
                assert_eq!(&plain, chunk);
                assert_eq!(used, 4 + 8 + chunk.len() + 16);
                offset += used;
            }
            _ => panic!("expected a chunk"),
        }
    }
    assert_eq!(offset, stream.len());
    assert!(matches!(open_chunk(&mut receiver, &stream[offset..]), Received::Incomplete));
    assert_eq!(receiver.recv_counter(), 3);
}

#[test]
fn a_chunk_beyond_the_chunk_size_is_not_sealed() {
    let (mut sender, _) = pair();
    let too_large = vec![0u8; 65537];
    assert_eq!(seal_chunk(&mut sender, &too_large).unwrap_err(), violation());
    assert_eq!(sender.send_counter(), 0);
}

#[test]
fn a_session_that_only_opens_seals_no_chunk() {
    let (_, mut receiver) = pair();
    assert_eq!(
        seal_chunk(&mut receiver, b"chunk").unwrap_err(),
        TsunaguError::Encryption(EncryptionError::CounterExhausted)
    );
}

#[test]
fn a_tampered_frame_fails_the_transfer() {
    let (mut sender, _) = pair();
    let key = sender.get_base64_key();
    let frame = seal_chunk(&mut sender, b"chunk").unwrap();
    for index in 4..frame.len() {
        let mut altered = frame.clone();
        altered[index] ^= 1;
        let mut receiver = Encryption::from_base64_key(&key).unwrap();
        assert!(matches!(
            open_chunk(&mut receiver, &altered),
            Received::Failed(TsunaguError::Encryption(EncryptionError::AuthenticationFailure))
        ));
        assert_eq!(receiver.recv_counter(), 0);
    }
    let mut receiver = Encryption::from_base64_key(&key).unwrap();
    assert!(matches!(open_chunk(&mut receiver, &frame), Received::Chunk(_, _)));
    assert!(matches!(
        open_chunk(&mut receiver, &frame),
        Received::Failed(TsunaguError::Encryption(EncryptionError::ReplayDetected))
    ));
    assert!(matches!(
        open_chunk(&mut receiver, &[0xff, 0xff, 0xff, 0x7f]),
        Received::Failed(TsunaguError::Transfer(TransferError::ProtocolViolation))
    ));
    assert!(matches!(open_chunk(&mut receiver, &frame[..10]), Received::Incomplete));
}
