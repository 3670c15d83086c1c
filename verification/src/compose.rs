//! Highlighting of the moving regions: the motion mask is blended into one
//! colour channel of the frame, the other channels stay as they are.

use vstd::prelude::*;
use crate::buffer::{GrayImage, Grid, RgbImage};
use crate::ops::{max_sample, merge, merged};

verus! {

/// A colour channel of an RGB pixel.
#[derive(Clone, Copy, Debug, PartialEq, Eq, Structural)]
pub enum Channel {
    Red,
    Green,
    Blue,
}

impl Channel {
    /// Position of the channel within a pixel.
    pub open spec fn offset(self) -> nat {
        match self {
            Channel::Red => 0,
            Channel::Green => 1,
            Channel::Blue => 2,
        }
    }

    /// Position of the channel within a pixel.
    pub fn index(self) -> (index: usize)
        ensures
            index == self.offset(),
    {
        match self {
            Channel::Red => 0,
            Channel::Green => 1,
            Channel::Blue => 2,
        }
    }
}

/// One channel of an RGB grid as an intensity grid.
pub open spec fn channel_plane(frame: Grid<u8>, channel: Channel) -> Grid<u8> {
    Grid {
        width: frame.width,
        height: frame.height,
        samples: Seq::new(frame.area(), |i: int| frame.samples[3 * i + channel.offset()]),
    }
}

/// An RGB grid with one channel taken from an intensity grid and the other
/// two kept.
pub open spec fn with_channel(frame: Grid<u8>, plane: Grid<u8>, channel: Channel) -> Grid<u8> {
    Grid {
        width: frame.width,
        height: frame.height,
        samples: Seq::new(
            frame.samples.len(),
            |j: int|
                if j % 3 == channel.offset() {
                    plane.samples[j / 3]
                } else {
                    frame.samples[j]
                },
        ),
    }
}

/// An RGB grid with the mask merged into one channel.
pub open spec fn highlighted(frame: Grid<u8>, mask: Grid<u8>, channel: Channel) -> Grid<u8> {
    with_channel(frame, merged(channel_plane(frame, channel), mask), channel)
}

/// Takes one channel out of an RGB frame.
pub fn extract_channel(frame: &RgbImage, channel: Channel) -> (plane: GrayImage)
    ensures
        plane@ == channel_plane(frame@, channel),
{
    let data: &Vec<u8> = frame.as_raw();
    let count: usize = data.len() / 3;
    let offset: usize = channel.index();
    assert(frame@.area() * 3 == frame@.width * frame@.height * 3) by (nonlinear_arith)
        requires
            frame@.area() == frame@.width * frame@.height,
    ;
    let mut out: Vec<u8> = Vec::with_capacity(count);
    let mut i: usize = 0;
    while i < count
        invariant
            data@ == frame@.samples,
            data@.len() == 3 * count,
            3 * count <= usize::MAX,
            offset == channel.offset(),
            i <= count,
            out@.len() == i,
            forall|k: int| 0 <= k < i ==> out@[k] == data@[3 * k + channel.offset()],
        decreases count - i,
    {
        out.push(data[3 * i + offset]);
        i += 1;
    }
    assert(frame@.width * frame@.height * 1 == frame@.area()) by (nonlinear_arith)
        requires
            frame@.area() == frame@.width * frame@.height,
    ;
    let plane: GrayImage = GrayImage::from_raw(frame.width(), frame.height(), out).unwrap();
    assert(plane@ =~= channel_plane(frame@, channel));
    plane
}

/// Puts an intensity buffer in the place of one channel of an RGB frame of
/// the same size.
pub fn replace_channel(frame: &RgbImage, plane: &GrayImage, channel: Channel) -> (result: RgbImage)
    requires
        frame@.same_size(plane@),
    ensures
        result@ == with_channel(frame@, plane@, channel),
{
    let data: &Vec<u8> = frame.as_raw();
    let values: &Vec<u8> = plane.as_raw();
    let count: usize = values.len();
    let offset: usize = channel.index();
    assert(data@.len() == 3 * count) by (nonlinear_arith)
        requires
            data@.len() == frame@.width * frame@.height * 3,
            count == plane@.width * plane@.height * 1,
            frame@.width == plane@.width,
            frame@.height == plane@.height,
    ;
    let mut out: Vec<u8> = Vec::with_capacity(data.len());
    let mut i: usize = 0;
    while i < count
        invariant
            data@.len() == 3 * count,
            3 * count <= usize::MAX,
            values@.len() == count,
            offset == channel.offset(),
            i <= count,
            out@.len() == 3 * i,
            forall|j: int|
                0 <= j < 3 * i ==> out@[j] == if j % 3 == channel.offset() {
                    values@[j / 3]
                } else {
                    data@[j]
                },
        decreases count - i,
    {
        let base: usize = 3 * i;
        let mut k: usize = 0;
        while k < 3
            invariant
                data@.len() == 3 * count,
                3 * count <= usize::MAX,
                values@.len() == count,
                offset == channel.offset(),
                i < count,
                base == 3 * i,
                k <= 3,
                out@.len() == base + k,
                forall|j: int|
                    0 <= j < base + k ==> out@[j] == if j % 3 == channel.offset() {
                        values@[j / 3]
                    } else {
                        data@[j]
                    },
            decreases 3 - k,
        {
            if k == offset {
                out.push(values[i]);
            } else {
                out.push(data[base + k]);
            }
            k += 1;
        }
        i += 1;
    }
    let result: RgbImage = RgbImage::from_raw(frame.width(), frame.height(), out).unwrap();
    assert(result@ =~= with_channel(frame@, plane@, channel));
    result
}

/// Highlights the moving regions of a frame: the given channel becomes the
/// maximum of itself and the mask, the other two channels stay untouched.
pub fn highlight(frame: &RgbImage, mask: &GrayImage, channel: Channel) -> (result: RgbImage)
    requires
        frame@.same_size(mask@),
    ensures
        result@ == highlighted(frame@, mask@, channel),
{
    let plane: GrayImage = extract_channel(frame, channel);
    let merged_plane: GrayImage = merge(&plane, mask);
    replace_channel(frame, &merged_plane, channel)
}

/// In a highlighted frame the chosen channel of every pixel is the larger
/// of that channel and the mask, so it is at least as bright as the mask,
/// and every other sample is the frame's own.
pub proof fn highlight_touches_one_channel(frame: Grid<u8>, mask: Grid<u8>, channel: Channel)
    requires
        frame.is_dense(3),
        mask.is_dense(1),
        frame.same_size(mask),
    ensures
        highlighted(frame, mask, channel).same_size(frame),
        highlighted(frame, mask, channel).is_dense(3),
        forall|i: int, k: int|
            0 <= i < frame.area() && 0 <= k < 3 ==> #[trigger] highlighted(
                frame,
                mask,
                channel,
            ).samples[3 * i + k] == if k == channel.offset() {
                max_sample(frame.samples[3 * i + k], mask.samples[i])
            } else {
                frame.samples[3 * i + k]
            },
{
    let plane = channel_plane(frame, channel);
    let out = highlighted(frame, mask, channel);
    assert(frame.area() * 3 == frame.width * frame.height * 3) by (nonlinear_arith)
        requires
            frame.area() == frame.width * frame.height,
    ;
    assert forall|i: int, k: int| 0 <= i < frame.area() && 0 <= k < 3 implies #[trigger] out.samples[3
        * i + k] == if k == channel.offset() {
        max_sample(frame.samples[3 * i + k], mask.samples[i])
    } else {
        frame.samples[3 * i + k]
    } by {
        let j = 3 * i + k;
        assert(j % 3 == k && j / 3 == i);
        assert(0 <= j < frame.samples.len());
    }
}

} // verus!
