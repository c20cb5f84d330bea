use oblivious_transfer::{Choice, OTError};

#[test]
fn test_from_bit_accepts_zero_and_one() {
    assert_eq!(Choice::from_bit(0), Ok(Choice::Zero));
    assert_eq!(Choice::from_bit(1), Ok(Choice::One));
}

#[test]
fn test_from_bit_rejects_other_bits() {
    assert_eq!(Choice::from_bit(2), Err(OTError::InvalidChoice));
    assert_eq!(Choice::from_bit(3), Err(OTError::InvalidChoice));
    assert_eq!(Choice::from_bit(255), Err(OTError::InvalidChoice));
}

#[test]
fn test_to_bit_values() {
    assert_eq!(Choice::Zero.to_bit(), 0);
    assert_eq!(Choice::One.to_bit(), 1);
}

#[test]
fn test_bit_round_trip() {
    for c in [Choice::Zero, Choice::One] {
        assert_eq!(Choice::from_bit(c.to_bit()), Ok(c));
    }
}
