use vstd::prelude::*;

verus! {

/// The big-endian 16-bit value encoded by a high and a low byte.
pub open spec fn u16_be(hi: u8, lo: u8) -> u16 {
    ((hi as int) * 256 + (lo as int)) as u16
}

/// Reads the big-endian 16-bit integer spanning the two bytes at
/// `start..=end`. The pair must span exactly two bytes and lie within the
/// slice; callers owe that from lengths they have already validated.
pub fn to_u16(bytes: &[u8], start: usize, end: usize) -> (r: u16)
    requires
        end == start + 1,
        end < bytes@.len(),
    ensures
        r == u16_be(bytes@[start as int], bytes@[end as int]),
{
    let hi: u8 = bytes[start];
    let lo: u8 = bytes[end];
    hi as u16 * 256 + lo as u16
}

} // verus!
