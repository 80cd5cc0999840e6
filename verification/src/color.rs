//! Colours as the Java side takes them.
use crate::attributes::RGBA;
use vstd::prelude::*;

verus! {

/// A colour as one number, read as if it had no sign: alpha, red, green, blue, from the highest
/// byte to the lowest.
pub open spec fn argb_unsigned(color: RGBA) -> int {
    color.3 * 0x100_0000 + color.0 * 0x1_0000 + color.1 * 0x100 + color.2
}

/// A colour as one signed number of the same bits.
pub open spec fn argb(color: RGBA) -> int {
    if argb_unsigned(color) < 0x8000_0000 {
        argb_unsigned(color)
    } else {
        argb_unsigned(color) - 0x1_0000_0000
    }
}

/// Different colours are different numbers.
pub proof fn argb_is_injective(a: RGBA, b: RGBA)
    requires
        argb(a) == argb(b),
    ensures
        a == b,
{
    assert(argb_unsigned(a) == argb_unsigned(b));
}

/// The number of a colour.
pub fn packed_argb(color: RGBA) -> (r: i32)
    ensures
        r == argb(color),
{
    let (r, g, b, a) = color;
    let packed: u32 = (a as u32) << 24 | (r as u32) << 16 | (g as u32) << 8 | (b as u32);
    assert(packed == a * 0x100_0000 + r * 0x1_0000 + g * 0x100 + b) by (bit_vector)
        requires
            packed == (a as u32) << 24 | (r as u32) << 16 | (g as u32) << 8 | (b as u32),
    ;
    let signed = #[verifier::truncate] (packed as i32);
    assert(signed == (if packed < 0x8000_0000 {
        packed as int
    } else {
        packed - 0x1_0000_0000
    })) by (bit_vector)
        requires
            signed == packed as i32,
    ;
    signed
}

} // verus!
