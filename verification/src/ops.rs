//! Per-pixel transforms of intensity buffers: maximum of two buffers,
//! bounded approach of one buffer towards another, and thresholded
//! difference.
//!
//! Each transform reads two buffers of the same size and produces a fresh
//! one. Every output sample depends on the two input samples at the same
//! position only.

use vstd::prelude::*;
use crate::buffer::{GrayImage, Grid};

verus! {

/// The larger of two samples.
pub open spec fn max_sample(src: u8, ovr: u8) -> u8 {
    if src > ovr {
        src
    } else {
        ovr
    }
}

/// `value` limited to the range from `low` to `high`.
pub open spec fn clamp(value: int, low: int, high: int) -> int {
    if value < low {
        low
    } else if value > high {
        high
    } else {
        value
    }
}

/// `src` moved towards `ovr` by at most `step_size`, never past `ovr`.
pub open spec fn approach(src: u8, ovr: u8, step_size: u8) -> u8 {
    (src + clamp(ovr - src, -step_size, step_size as int)) as u8
}

/// Unsigned distance between two samples.
pub open spec fn abs_difference(first: u8, second: u8) -> int {
    if first >= second {
        first - second
    } else {
        second - first
    }
}

/// 255 where two samples differ by more than `threshold`, else 0.
pub open spec fn exceeds_mark(first: u8, second: u8, threshold: u8) -> u8 {
    if abs_difference(first, second) > threshold {
        255
    } else {
        0
    }
}

/// Pixel-wise maximum of two grids, in the dimensions of the first.
pub open spec fn merged(image: Grid<u8>, overlay: Grid<u8>) -> Grid<u8> {
    Grid {
        width: image.width,
        height: image.height,
        samples: Seq::new(
            image.samples.len(),
            |i: int| max_sample(image.samples[i], overlay.samples[i]),
        ),
    }
}

/// The first grid with every sample moved towards the second grid's sample
/// by at most `step_size`.
pub open spec fn moved_towards(from: Grid<u8>, target: Grid<u8>, step_size: u8) -> Grid<u8> {
    Grid {
        width: from.width,
        height: from.height,
        samples: Seq::new(
            from.samples.len(),
            |i: int| approach(from.samples[i], target.samples[i], step_size),
        ),
    }
}

/// The binary mask of where two grids differ by more than `threshold`.
pub open spec fn thresholded(first: Grid<u8>, second: Grid<u8>, threshold: u8) -> Grid<u8> {
    Grid {
        width: first.width,
        height: first.height,
        samples: Seq::new(
            first.samples.len(),
            |i: int| exceeds_mark(first.samples[i], second.samples[i], threshold),
        ),
    }
}

/// A grid of the given size with every sample equal to `value`.
pub open spec fn uniform(width: nat, height: nat, value: u8) -> Grid<u8> {
    Grid { width, height, samples: Seq::new(width * height, |i: int| value) }
}

/// The larger of two samples.
pub fn merge_sample(src: u8, ovr: u8) -> (out: u8)
    ensures
        out == max_sample(src, ovr),
{
    if src > ovr {
        src
    } else {
        ovr
    }
}

/// Moves `src` towards `ovr` by at most `step_size`. The result lies between
/// the two and never passes `ovr`.
pub fn approach_sample(src: u8, ovr: u8, step_size: u8) -> (out: u8)
    ensures
        out == approach(src, ovr, step_size),
{
    let rising: bool = ovr > src;
    let distance: u8 = if rising {
        ovr - src
    } else {
        src - ovr
    };
    let moved: u8 = if step_size < distance {
        step_size
    } else {
        distance
    };
    if rising {
        src.saturating_add(moved)
    } else {
        src.saturating_sub(moved)
    }
}

/// 255 if the two samples differ by more than `threshold`, else 0.
pub fn difference_sample(first: u8, second: u8, threshold: u8) -> (out: u8)
    ensures
        out == exceeds_mark(first, second, threshold),
{
    let distance: u8 = if first >= second {
        first - second
    } else {
        second - first
    };
    if distance > threshold {
        255
    } else {
        0
    }
}

/// Pixel-wise maximum of two intensity buffers of the same size.
pub fn merge(image: &GrayImage, overlay: &GrayImage) -> (result: GrayImage)
    requires
        image@.same_size(overlay@),
    ensures
        result@ == merged(image@, overlay@),
{
    let src: &Vec<u8> = image.as_raw();
    let ovr: &Vec<u8> = overlay.as_raw();
    let len: usize = src.len();
    let mut out: Vec<u8> = Vec::with_capacity(len);
    let mut i: usize = 0;
    while i < len
        invariant
            len == src@.len(),
            len == ovr@.len(),
            i <= len,
            out@.len() == i,
            forall|k: int| 0 <= k < i ==> out@[k] == max_sample(src@[k], ovr@[k]),
        decreases len - i,
    {
        out.push(merge_sample(src[i], ovr[i]));
        i += 1;
    }
    let result: GrayImage = GrayImage::from_raw(image.width(), image.height(), out).unwrap();
    assert(result@ =~= merged(image@, overlay@));
    result
}

/// Moves every sample of `img1` towards the sample of `img2` at the same
/// position by at most `step_size`.
pub fn move_towards(img1: &GrayImage, img2: &GrayImage, step_size: u8) -> (result: GrayImage)
    requires
        img1@.same_size(img2@),
    ensures
        result@ == moved_towards(img1@, img2@, step_size),
{
    let src: &Vec<u8> = img1.as_raw();
    let ovr: &Vec<u8> = img2.as_raw();
    let len: usize = src.len();
    let mut out: Vec<u8> = Vec::with_capacity(len);
    let mut i: usize = 0;
    while i < len
        invariant
            len == src@.len(),
            len == ovr@.len(),
            i <= len,
            out@.len() == i,
            forall|k: int| 0 <= k < i ==> out@[k] == approach(src@[k], ovr@[k], step_size),
        decreases len - i,
    {
        out.push(approach_sample(src[i], ovr[i], step_size));
        i += 1;
    }
    let result: GrayImage = GrayImage::from_raw(img1.width(), img1.height(), out).unwrap();
    assert(result@ =~= moved_towards(img1@, img2@, step_size));
    result
}

/// The binary mask of where two intensity buffers of the same size differ
/// by more than `threshold`: 255 there, 0 elsewhere.
pub fn difference(img1: &GrayImage, img2: &GrayImage, threshold: u8) -> (result: GrayImage)
    requires
        img1@.same_size(img2@),
    ensures
        result@ == thresholded(img1@, img2@, threshold),
{
    let first: &Vec<u8> = img1.as_raw();
    let second: &Vec<u8> = img2.as_raw();
    let len: usize = first.len();
    let mut out: Vec<u8> = Vec::with_capacity(len);
    let mut i: usize = 0;
    while i < len
        invariant
            len == first@.len(),
            len == second@.len(),
            i <= len,
            out@.len() == i,
            forall|k: int|
                0 <= k < i ==> out@[k] == exceeds_mark(first@[k], second@[k], threshold),
        decreases len - i,
    {
        out.push(difference_sample(first[i], second[i], threshold));
        i += 1;
    }
    let result: GrayImage = GrayImage::from_raw(img1.width(), img1.height(), out).unwrap();
    assert(result@ =~= thresholded(img1@, img2@, threshold));
    result
}

/// A buffer differs from itself nowhere: whatever the threshold, the mask
/// of a buffer against itself is all zero.
pub proof fn difference_of_self_is_blank(x: Grid<u8>, threshold: u8)
    requires
        x.is_dense(1),
    ensures
        thresholded(x, x, threshold) == uniform(x.width, x.height, 0),
{
    assert(x.width * x.height * 1 == x.width * x.height) by (nonlinear_arith);
    assert(thresholded(x, x, threshold) =~= uniform(x.width, x.height, 0));
}

/// A difference mask is binary: each of its samples is 0 or 255, and it is
/// 255 exactly where the two buffers are more than the threshold apart.
pub proof fn difference_is_binary(first: Grid<u8>, second: Grid<u8>, threshold: u8)
    ensures
        forall|i: int|
            0 <= i < first.samples.len() ==> {
                let mark = #[trigger] thresholded(first, second, threshold).samples[i];
                &&& mark == 0 || mark == 255
                &&& mark == 255 <==> abs_difference(first.samples[i], second.samples[i])
                    > threshold
            },
{
}

/// A step of zero moves nothing.
pub proof fn move_towards_by_zero_is_identity(a: Grid<u8>, b: Grid<u8>)
    ensures
        moved_towards(a, b, 0) == a,
{
    assert(moved_towards(a, b, 0) =~= a);
}

/// A step of 255 adopts the target: no two 8-bit samples are further apart.
pub proof fn move_towards_by_full_range_is_target(a: Grid<u8>, b: Grid<u8>)
    requires
        a.is_dense(1),
        b.is_dense(1),
        a.same_size(b),
    ensures
        moved_towards(a, b, 255) == b,
{
    assert(moved_towards(a, b, 255) =~= b);
}

/// The merge of two buffers is at every pixel at least as bright as either
/// of them, and does not depend on their order.
pub proof fn merge_dominates_and_commutes(a: Grid<u8>, b: Grid<u8>)
    requires
        a.is_dense(1),
        b.is_dense(1),
        a.same_size(b),
    ensures
        forall|i: int|
            0 <= i < a.samples.len() ==> merged(a, b).samples[i] >= a.samples[i] && merged(
                a,
                b,
            ).samples[i] >= b.samples[i],
        merged(a, b) == merged(b, a),
{
    assert(merged(a, b) =~= merged(b, a));
}

/// Moving towards a target never overshoots it and never moves further
/// than the step allows.
pub proof fn approach_stays_between(src: u8, ovr: u8, step_size: u8)
    ensures
        src <= ovr ==> src <= approach(src, ovr, step_size) <= ovr,
        src >= ovr ==> ovr <= approach(src, ovr, step_size) <= src,
        abs_difference(src, approach(src, ovr, step_size)) <= step_size,
{
}

} // verus!
