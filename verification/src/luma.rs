//! Per-pixel colour reduction: the weighting of colour channels into one
//! intensity is the `image` crate's, the narrowing of wide samples goes
//! through `num_traits`.

use vstd::prelude::*;

verus! {

/// The intensity that `image` computes for an 8-bit RGB pixel.
pub uninterp spec fn srgb_luma8(r: u8, g: u8, b: u8) -> u8;

/// The intensity that `image` computes for a 16-bit RGB pixel.
pub uninterp spec fn srgb_luma16(r: u16, g: u16, b: u16) -> u16;

/// Calls `image::Pixel::to_luma` on `image::Rgb<u8>`.
///
/// Trusted: the result depends on the three channel values alone, and is
/// what `srgb_luma8` names. `image` weights the channels in single
/// precision floating point and truncates the sum, so no integer formula is
/// claimed here. The sum stays below 256 for every input, so the call
/// returns for all of them.
#[verifier::external_body]
pub(crate) fn rgb8_to_luma(r: u8, g: u8, b: u8) -> (luma: u8)
    ensures
        luma == srgb_luma8(r, g, b),
{
    image::Pixel::to_luma(&image::Rgb([r, g, b])).0[0]
}

/// Calls `image::Pixel::to_luma` on `image::Rgb<u16>`.
///
/// Trusted: the result depends on the three channel values alone, and is
/// what `srgb_luma16` names. The weighted sum stays below 65536 for every
/// input, so the call returns for all of them.
#[verifier::external_body]
pub(crate) fn rgb16_to_luma(r: u16, g: u16, b: u16) -> (luma: u16)
    ensures
        luma == srgb_luma16(r, g, b),
{
    image::Pixel::to_luma(&image::Rgb([r, g, b])).0[0]
}

/// Calls `num_traits::ToPrimitive::to_u64` on a `u16`.
///
/// Trusted: every `u16` is representable as a `u64`, so the result is always
/// `Some` of the same number.
#[verifier::external_body]
fn u16_to_u64(value: u16) -> (wide: Option<u64>)
    ensures
        wide == Some(value as u64),
{
    num_traits::ToPrimitive::to_u64(&value)
}

/// Calls `num_traits::NumCast::from` to turn a `u64` into a `u8`.
///
/// Trusted: the result is `Some` of the same number where it is at most
/// 255, and `None` above that.
#[verifier::external_body]
fn u64_to_u8(value: u64) -> (narrow: Option<u8>)
    ensures
        narrow == (if value <= 255 {
            Some(value as u8)
        } else {
            None
        }),
{
    num_traits::NumCast::from(value)
}

/// The upper byte of a 16-bit sample.
pub open spec fn upper_byte(c16: u16) -> u8 {
    (c16 / 256) as u8
}

/// Narrows a 16-bit sample to 8 bits by dropping its low byte.
pub fn downcast_channel(c16: u16) -> (c8: u8)
    ensures
        c8 == upper_byte(c16),
{
    let wide: u64 = u16_to_u64(c16).unwrap();
    let shifted: u64 = wide >> 8;
    assert(shifted == wide / 256) by (bit_vector)
        requires
            shifted == wide >> 8,
    ;
    u64_to_u8(shifted).unwrap()
}

} // verus!
