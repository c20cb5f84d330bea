use crate::error::OTError;
use vstd::prelude::*;

verus! {

/// The receiver's selector between the sender's two messages.
///
/// A `Choice` is only ever built from the literal bits 0 and 1; any other
/// bit is a construction failure, never a silently clamped value.
#[derive(Clone, Copy, Debug, PartialEq, Eq, Structural)]
pub enum Choice {
    Zero,
    One,
}

impl Choice {
    /// The bit this choice encodes.
    pub open spec fn spec_bit(self) -> u8 {
        match self {
            Choice::Zero => 0,
            Choice::One => 1,
        }
    }

    /// The choice a bit encodes: exactly 0 and 1 are accepted.
    pub open spec fn spec_from_bit(bit: u8) -> Result<Choice, OTError> {
        if bit == 0 {
            Ok(Choice::Zero)
        } else if bit == 1 {
            Ok(Choice::One)
        } else {
            Err(OTError::InvalidChoice)
        }
    }

    /// Builds the choice that `bit` encodes; a bit outside `{0, 1}` is
    /// rejected with `OTError::InvalidChoice`.
    pub fn from_bit(bit: u8) -> (r: Result<Choice, OTError>)
        ensures
            r == Choice::spec_from_bit(bit),
    {
        match bit {
            0 => Ok(Choice::Zero),
            1 => Ok(Choice::One),
            _ => Err(OTError::InvalidChoice),
        }
    }

    /// The bit this choice encodes.
    pub fn to_bit(&self) -> (r: u8)
        ensures
            r == self.spec_bit(),
    {
        match self {
            Choice::Zero => 0,
            Choice::One => 1,
        }
    }

    /// Law: re-encoding a choice through its bit gives the same choice back,
    /// for both valid values.
    pub proof fn lemma_bit_round_trip(c: Choice)
        ensures
            Choice::spec_from_bit(c.spec_bit()) == Ok::<Choice, OTError>(c),
    {
    }
}

} // verus!
