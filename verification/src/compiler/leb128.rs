//! Unsigned variable-length integers: seven value bits per byte, least
//! significant group first, the top bit set on every byte but the last.

use vstd::prelude::*;

verus! {

/// The variable-length encoding of `value`.
pub open spec fn spec_from_u32(value: u32) -> Seq<u8>
    decreases value,
{
    if value < 128 {
        seq![value as u8]
    } else {
        seq![(value % 128 + 128) as u8] + spec_from_u32(value / 128)
    }
}

/// An encoding has between one and five bytes.
pub proof fn lemma_from_u32_len(value: u32)
    ensures
        1 <= spec_from_u32(value).len() <= 5,
{
    reveal_with_fuel(spec_from_u32, 6);
    assert(value / 128 / 128 / 128 / 128 < 128);
}

/// Encodes `value` as an unsigned variable-length integer.
pub fn from_u32(value: u32) -> (out: Vec<u8>)
    ensures
        out@ == spec_from_u32(value),
{
    let mut out: Vec<u8> = Vec::new();
    let mut rest: u32 = value;
    while rest >= 128
        invariant
            spec_from_u32(value) == out@ + spec_from_u32(rest),
        decreases rest,
    {
        let low: u32 = rest & 0x7f;
        assert(low == rest % 128 && rest >> 7 == rest / 128 && 0x80u32 | low == low + 128)
            by (bit_vector)
            requires
                low == rest & 0x7f,
        ;
        let ghost before = out@;
        out.push((0x80u32 | low) as u8);
        assert(before + spec_from_u32(rest) == out@ + spec_from_u32(rest / 128));
        rest = rest >> 7;
    }
    out.push(rest as u8);
    out
}

} // verus!
