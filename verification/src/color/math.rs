//! Packing and unpacking of 32-bit ARGB colour values: alpha in bits
//! 24..32, red in 16..24, green in 8..16, blue in 0..8.
use vstd::prelude::*;

verus! {

/// The packed value of four channels.
pub open spec fn packed(alpha: u8, red: u8, green: u8, blue: u8) -> int {
    alpha * 16777216 + red * 65536 + green * 256 + blue
}

/// Extracts the red channel (bits 16..24).
pub fn red_from_argb(argb: u32) -> (red: u8)
    ensures
        red as int == (argb as int / 65536) % 256,
{
    assert(((argb >> 16u32) & 0xffu32) as int == (argb as int / 65536) % 256) by (bit_vector);
    ((argb >> 16u32) & 0xffu32) as u8
}

/// Extracts the green channel (bits 8..16).
pub fn green_from_argb(argb: u32) -> (green: u8)
    ensures
        green as int == (argb as int / 256) % 256,
{
    assert(((argb >> 8u32) & 0xffu32) as int == (argb as int / 256) % 256) by (bit_vector);
    ((argb >> 8u32) & 0xffu32) as u8
}

/// Extracts the blue channel (bits 0..8).
pub fn blue_from_argb(argb: u32) -> (blue: u8)
    ensures
        blue as int == argb as int % 256,
{
    assert((argb & 0xffu32) as int == argb as int % 256) by (bit_vector);
    (argb & 0xffu32) as u8
}

/// Packs four channels into one value.
pub fn argb_from_components(alpha: u8, red: u8, green: u8, blue: u8) -> (argb: u32)
    ensures
        argb as int == packed(alpha, red, green, blue),
{
    let a = alpha as u32;
    let r = red as u32;
    let g = green as u32;
    let b = blue as u32;
    assert((a << 24u32) | (r << 16u32) | (g << 8u32) | b == a * 16777216 + r * 65536 + g * 256 + b)
        by (bit_vector)
        requires
            a < 256,
            r < 256,
            g < 256,
            b < 256,
    ;
    (a << 24u32) | (r << 16u32) | (g << 8u32) | b
}

/// Packs three channels with full opacity.
pub fn argb_from_rgb(red: u8, green: u8, blue: u8) -> (argb: u32)
    ensures
        argb as int == packed(255, red, green, blue),
{
    argb_from_components(255, red, green, blue)
}

/// Packing then extracting gives the channels back, and extracting then
/// packing (with the value's own alpha) gives the value back.
pub proof fn lemma_argb_round_trip(alpha: u8, red: u8, green: u8, blue: u8, argb: u32)
    ensures
        (packed(alpha, red, green, blue) / 65536) % 256 == red,
        (packed(alpha, red, green, blue) / 256) % 256 == green,
        packed(alpha, red, green, blue) % 256 == blue,
        packed(
            (argb as int / 16777216) as u8,
            ((argb as int / 65536) % 256) as u8,
            ((argb as int / 256) % 256) as u8,
            (argb as int % 256) as u8,
        ) == argb,
{
    assert(((alpha as int * 16777216 + red as int * 65536 + green as int * 256 + blue as int)
        / 65536) % 256 == red) by (nonlinear_arith);
    assert(((alpha as int * 16777216 + red as int * 65536 + green as int * 256 + blue as int)
        / 256) % 256 == green) by (nonlinear_arith);
    assert((alpha as int * 16777216 + red as int * 65536 + green as int * 256 + blue as int)
        % 256 == blue) by (nonlinear_arith);
    let x = argb as int;
    assert((x / 16777216) * 16777216 + ((x / 65536) % 256) * 65536 + ((x / 256) % 256) * 256 + x
        % 256 == x) by (nonlinear_arith)
        requires
            0 <= x < 4294967296,
    ;
}

} // verus!
