//! Motion level of a mask: which share of its pixels is switched on.
//!
//! The level is kept as an exact fraction, the number of pixels that are on
//! over the number of pixels. A mask without pixels has the level zero.

use vstd::prelude::*;
use crate::buffer::{GrayImage, Grid};
use crate::ops::{thresholded, uniform};

verus! {

/// A mask pixel is on when its high bit is set.
pub open spec fn is_on(sample: u8) -> bool {
    sample >= 128
}

/// Number of samples that are on.
pub open spec fn count_on(samples: Seq<u8>) -> nat
    decreases samples.len(),
{
    if samples.len() == 0 {
        0
    } else {
        count_on(samples.drop_last()) + if is_on(samples.last()) {
            1nat
        } else {
            0nat
        }
    }
}

/// One million: levels are compared in parts per million.
pub const PPM: u32 = 1_000_000;

/// The share of pixels that moved, as the fraction `moving / total`.
#[derive(Clone, Copy, Debug, PartialEq, Eq, Structural)]
pub struct MotionLevel {
    /// Number of mask pixels that are on.
    pub moving: u64,
    /// Number of pixels of the mask.
    pub total: u64,
}

impl MotionLevel {
    /// The level lies between zero and one.
    pub open spec fn in_unit_range(self) -> bool {
        self.moving <= self.total
    }

    /// The level is exactly zero. This includes the mask without pixels.
    pub open spec fn is_zero(self) -> bool {
        self.moving == 0 || self.total == 0
    }

    /// The level is exactly one.
    pub open spec fn is_one(self) -> bool {
        self.total > 0 && self.moving == self.total
    }

    /// The level is strictly above `threshold_ppm` millionths.
    pub open spec fn above(self, threshold_ppm: u32) -> bool {
        self.total > 0 && self.moving * PPM > threshold_ppm * self.total
    }

    /// Whether the level is strictly above `threshold_ppm` millionths. The
    /// level of a mask without pixels is zero and above no threshold.
    pub fn exceeds(&self, threshold_ppm: u32) -> (above: bool)
        ensures
            above == self.above(threshold_ppm),
    {
        if self.total == 0 {
            return false;
        }
        assert(self.moving * PPM <= 0xffff_ffff_ffff_ffff * 0xffff_ffff) by (nonlinear_arith)
            requires
                self.moving <= 0xffff_ffff_ffff_ffff,
                PPM <= 0xffff_ffff,
        ;
        assert(threshold_ppm * self.total <= 0xffff_ffff * 0xffff_ffff_ffff_ffff)
            by (nonlinear_arith)
            requires
                self.total <= 0xffff_ffff_ffff_ffff,
                threshold_ppm <= 0xffff_ffff,
        ;
        let scaled: u128 = (self.moving as u128) * (PPM as u128);
        let bound: u128 = (threshold_ppm as u128) * (self.total as u128);
        scaled > bound
    }
}

/// The level of a grid seen as a mask.
pub open spec fn level_of(mask: Grid<u8>) -> MotionLevel {
    MotionLevel { moving: count_on(mask.samples) as u64, total: mask.samples.len() as u64 }
}

/// No more samples are on than there are samples.
pub proof fn count_on_is_bounded(samples: Seq<u8>)
    ensures
        count_on(samples) <= samples.len(),
    decreases samples.len(),
{
    if samples.len() > 0 {
        count_on_is_bounded(samples.drop_last());
    }
}

/// Counts the pixels of a mask that are on, and the pixels of the mask.
pub fn motion_level(mask: &GrayImage) -> (level: MotionLevel)
    ensures
        level == level_of(mask@),
        level.moving == count_on(mask@.samples),
        level.total == mask@.width * mask@.height,
        level.in_unit_range(),
{
    let data: &Vec<u8> = mask.as_raw();
    let len: usize = data.len();
    let mut moving: usize = 0;
    let mut i: usize = 0;
    while i < len
        invariant
            len == data@.len(),
            i <= len,
            moving == count_on(data@.take(i as int)),
            moving <= i,
        decreases len - i,
    {
        let sample: u8 = data[i];
        let bit: u8 = sample >> 7;
        assert(bit == (if sample >= 128 { 1u8 } else { 0u8 })) by (bit_vector)
            requires
                bit == sample >> 7,
        ;
        assert(data@.take(i + 1).drop_last() == data@.take(i as int));
        moving += bit as usize;
        i += 1;
    }
    assert(data@.take(len as int) == data@);
    assert(mask@.width * mask@.height * 1 == mask@.width * mask@.height) by (nonlinear_arith);
    MotionLevel { moving: moving as u64, total: len as u64 }
}

/// Every level that `motion_level` gives lies between zero and one.
pub proof fn level_is_in_unit_range(mask: Grid<u8>)
    requires
        mask.samples.len() <= u64::MAX,
    ensures
        level_of(mask).in_unit_range(),
{
    count_on_is_bounded(mask.samples);
}

/// A mask that is zero everywhere has the level zero.
pub proof fn blank_mask_has_level_zero(width: nat, height: nat)
    ensures
        count_on(uniform(width, height, 0).samples) == 0,
        level_of(uniform(width, height, 0)).is_zero(),
{
    lemma_count_uniform(width * height, 0);
}

/// A mask that is 255 everywhere and has a pixel has the level one.
pub proof fn full_mask_has_level_one(width: nat, height: nat)
    requires
        0 < width * height <= u64::MAX,
    ensures
        count_on(uniform(width, height, 255).samples) == width * height,
        level_of(uniform(width, height, 255)).is_one(),
{
    lemma_count_uniform(width * height, 255);
}

/// The mask of a buffer against itself has the level zero, whatever the
/// size of the buffer: one pixel, or none at all.
pub proof fn self_difference_has_level_zero(x: Grid<u8>, threshold: u8)
    requires
        x.is_dense(1),
    ensures
        level_of(thresholded(x, x, threshold)).is_zero(),
        !level_of(thresholded(x, x, threshold)).above(0),
{
    crate::ops::difference_of_self_is_blank(x, threshold);
    blank_mask_has_level_zero(x.width, x.height);
}

/// In `len` samples of one value either all are on or none is.
proof fn lemma_count_uniform(len: nat, value: u8)
    ensures
        count_on(Seq::new(len, |i: int| value)) == if is_on(value) {
            len
        } else {
            0
        },
    decreases len,
{
    if len > 0 {
        lemma_count_uniform((len - 1) as nat, value);
        assert(Seq::new(len, |i: int| value).drop_last() == Seq::new(
            (len - 1) as nat,
            |i: int| value,
        ));
    }
}

} // verus!
