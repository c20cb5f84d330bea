use oblivious_transfer::{Choice, Ciphertext, OTError, OTReceiver, OTSender, SenderResponse};

#[test]
fn test_decrypt_before_key_generation_is_state_error() {
    // Calling decrypt before key generation is a contract violation and
    // never returns a plaintext.
    let receiver = OTReceiver::new(Choice::Zero);
    let response = SenderResponse {
        encrypted_m0: Ciphertext::from_bytes(vec![1, 2, 3]),
        encrypted_m1: Ciphertext::from_bytes(vec![4, 5, 6]),
    };
    let result = receiver.decrypt_message(response);
    assert_eq!(result, Err(OTError::ProtocolStateError));
}

#[test]
fn test_second_key_generation_is_state_error() {
    // Key arrangement is one-shot: regenerating would silently invalidate
    // the offer already sent, so it is an explicit error instead.
    let mut receiver = OTReceiver::with_modulus_bits(Choice::One, 512);
    let first = receiver.generate_public_keys();
    assert!(first.is_ok());
    let second = receiver.generate_public_keys();
    assert!(matches!(second, Err(OTError::ProtocolStateError)));
}

#[test]
fn test_oversized_message_fails_slot_zero() {
    // A 512-bit modulus holds at most 64 - 11 = 53 bytes of plaintext.
    let long = vec![0x41u8; 100];
    let short = b"fits".to_vec();
    let sender = OTSender::new(long, short).unwrap();
    let mut receiver = OTReceiver::with_modulus_bits(Choice::Zero, 512);
    let public_keys = receiver.generate_public_keys().unwrap();
    let result = sender.encrypt_messages(public_keys);
    assert_eq!(result.err(), Some(OTError::EncryptionFailed(0)));
}

#[test]
fn test_oversized_message_fails_slot_one() {
    let short = b"fits".to_vec();
    let long = vec![0x42u8; 100];
    let sender = OTSender::new(short, long).unwrap();
    let mut receiver = OTReceiver::with_modulus_bits(Choice::One, 512);
    let public_keys = receiver.generate_public_keys().unwrap();
    let result = sender.encrypt_messages(public_keys);
    assert_eq!(result.err(), Some(OTError::EncryptionFailed(1)));
}

#[test]
fn test_malformed_ciphertext_fails_decryption() {
    let mut receiver = OTReceiver::with_modulus_bits(Choice::Zero, 512);
    let _ = receiver.generate_public_keys().unwrap();
    // A response no sender produced: too short to be a valid ciphertext.
    let response = SenderResponse {
        encrypted_m0: Ciphertext::from_bytes(vec![0xde, 0xad, 0xbe, 0xef]),
        encrypted_m1: Ciphertext::from_bytes(vec![0x00]),
    };
    let result = receiver.decrypt_message(response);
    assert_eq!(result, Err(OTError::DecryptionFailed));
}
