use oblivious_transfer::{Choice, OTReceiver, OTSender};

#[test]
fn test_classical_rsa_ot_choice_zero() {
    let message0 = b"Hello Alice!".to_vec();
    let message1 = b"Hello Bob!!".to_vec();

    // Create sender and receiver
    let sender = OTSender::new(message0.clone(), message1.clone()).unwrap();
    let mut receiver = OTReceiver::new(Choice::Zero);

    // Phase 1: receiver generates and sends its public keys
    let public_keys = receiver.generate_public_keys().unwrap();

    // Phase 2: sender encrypts both messages under the offered keys
    let response = sender.encrypt_messages(public_keys).unwrap();

    // Phase 2: receiver decrypts the chosen message
    let decrypted = receiver.decrypt_message(response).unwrap();

    // Verify we got the correct message
    assert_eq!(decrypted, message0);
}

#[test]
fn test_classical_rsa_ot_choice_one() {
    let message0 = b"Secret Zero".to_vec();
    let message1 = b"Secret One!".to_vec();

    let sender = OTSender::new(message0.clone(), message1.clone()).unwrap();
    let mut receiver = OTReceiver::new(Choice::One);

    let public_keys = receiver.generate_public_keys().unwrap();
    let response = sender.encrypt_messages(public_keys).unwrap();
    let decrypted = receiver.decrypt_message(response).unwrap();

    // Verify we got the correct message
    assert_eq!(decrypted, message1);
}

#[test]
fn test_sender_cannot_distinguish_keys() {
    // This test verifies that from the sender's perspective,
    // both public keys look valid (the sender can't tell which is real).

    let mut receiver = OTReceiver::new(Choice::Zero);
    let public_keys = receiver.generate_public_keys().unwrap();

    // Both keys should be usable for encryption (though one won't be decryptable)
    let test_msg = b"test message";
    let sender = OTSender::new(test_msg.to_vec(), test_msg.to_vec()).unwrap();

    // Both encryptions should succeed (this demonstrates the sender can't distinguish)
    let result = sender.encrypt_messages(public_keys);
    assert!(result.is_ok());
}

#[test]
fn test_cannot_decrypt_wrong_message() {
    let message0 = b"Should not get this".to_vec();
    let message1 = b"Should get this one".to_vec();

    let sender = OTSender::new(message0.clone(), message1.clone()).unwrap();
    let mut receiver = OTReceiver::new(Choice::One);

    let public_keys = receiver.generate_public_keys().unwrap();
    let response = sender.encrypt_messages(public_keys).unwrap();

    // Receiver should get message1, not message0
    let decrypted = receiver.decrypt_message(response).unwrap();
    assert_eq!(decrypted, message1);
    assert_ne!(decrypted, message0);
}

#[test]
fn test_protocol_at_small_modulus_both_choices() {
    for (bit, expected) in [(0u8, b"left".to_vec()), (1u8, b"right".to_vec())] {
        let choice = Choice::from_bit(bit).unwrap();
        let sender = OTSender::new(b"left".to_vec(), b"right".to_vec()).unwrap();
        let mut receiver = OTReceiver::with_modulus_bits(choice, 512);
        let public_keys = receiver.generate_public_keys().unwrap();
        let response = sender.encrypt_messages(public_keys).unwrap();
        let decrypted = receiver.decrypt_message(response).unwrap();
        assert_eq!(decrypted, expected);
    }
}

#[test]
fn test_offer_keys_have_uniform_size() {
    // Whatever the choice, the offer shows two keys of the same modulus
    // size, so inspecting it reveals nothing about the choice.
    for bit in [0u8, 1u8] {
        let choice = Choice::from_bit(bit).unwrap();
        let mut receiver = OTReceiver::with_modulus_bits(choice, 512);
        let keys = receiver.generate_public_keys().unwrap();
        assert_eq!(keys.pk0.modulus_bytes(), 64);
        assert_eq!(keys.pk1.modulus_bytes(), 64);
    }
}

#[test]
fn test_ciphertext_differs_from_plaintext() {
    // The sender's response must not hand the messages back in the clear.
    let message0 = b"plain zero".to_vec();
    let message1 = b"plain one!".to_vec();
    let sender = OTSender::new(message0.clone(), message1.clone()).unwrap();
    let mut receiver = OTReceiver::with_modulus_bits(Choice::Zero, 512);
    let public_keys = receiver.generate_public_keys().unwrap();
    let response = sender.encrypt_messages(public_keys).unwrap();
    assert_ne!(response.encrypted_m0.bytes().as_slice(), message0.as_slice());
    assert_ne!(response.encrypted_m1.bytes().as_slice(), message1.as_slice());
    // A 512-bit modulus gives 64-byte ciphertexts.
    assert_eq!(response.encrypted_m0.bytes().len(), 64);
    assert_eq!(response.encrypted_m1.bytes().len(), 64);
}
