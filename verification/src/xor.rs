use crate::error::OTError;
use vstd::prelude::*;

verus! {

/// The byte at position `i` of `s`, taken as zero past the end.
pub open spec fn byte_or_zero(s: Seq<u8>, i: int) -> u8 {
    if 0 <= i < s.len() {
        s[i]
    } else {
        0
    }
}

/// The bitwise XOR of two byte sequences, the shorter one padded with zeros
/// to the length of the longer.
pub open spec fn spec_xor(a: Seq<u8>, b: Seq<u8>) -> Seq<u8> {
    Seq::new(
        if a.len() >= b.len() {
            a.len()
        } else {
            b.len()
        },
        |i: int| byte_or_zero(a, i) ^ byte_or_zero(b, i),
    )
}

/// Bitwise XOR of two byte arrays; the shorter one counts as padded with
/// zeros. This is the insecure illustrative baseline of a two-message swap,
/// not part of the protocol proper.
pub fn xor(a: &[u8], b: &[u8]) -> (r: Result<Vec<u8>, OTError>)
    ensures
        r matches Ok(v) && v@ == spec_xor(a@, b@),
{
    let max_len: usize = if a.len() >= b.len() {
        a.len()
    } else {
        b.len()
    };
    let mut out: Vec<u8> = Vec::new();
    let mut i: usize = 0;
    while i < max_len
        invariant
            i <= max_len,
            a@.len() <= max_len && b@.len() <= max_len,
            max_len == a@.len() || max_len == b@.len(),
            out@.len() == i,
            forall|j: int| 0 <= j < i ==> out@[j] == byte_or_zero(a@, j) ^ byte_or_zero(b@, j),
        decreases max_len - i,
    {
        let x: u8 = if i < a.len() {
            a[i]
        } else {
            0
        };
        let y: u8 = if i < b.len() {
            b[i]
        } else {
            0
        };
        out.push(x ^ y);
        i = i + 1;
    }
    proof {
        assert(out@ =~= spec_xor(a@, b@));
    }
    Ok(out)
}

} // verus!
