//! Dense row-major pixel buffers.
//!
//! A buffer owns its samples and knows its dimensions. It is immutable
//! once built: every transform in this crate reads buffers and produces a
//! fresh one.

use vstd::prelude::*;

verus! {

/// What a pixel buffer holds: its dimensions and its samples in row-major
/// order, the channels of one pixel next to each other.
#[verifier::ext_equal]
pub struct Grid<T> {
    pub width: nat,
    pub height: nat,
    pub samples: Seq<T>,
}

impl<T> Grid<T> {
    /// Number of pixels.
    pub open spec fn area(self) -> nat {
        self.width * self.height
    }

    /// The sample array has exactly `channels` entries per pixel.
    pub open spec fn is_dense(self, channels: nat) -> bool {
        self.samples.len() == self.width * self.height * channels
    }

    /// Both grids have the same width and the same height.
    pub open spec fn same_size<U>(self, other: Grid<U>) -> bool {
        self.width == other.width && self.height == other.height
    }

    /// Where the sample of `channel` of the pixel in column `x` of row `y`
    /// stands in the sample array, with `channels` samples per pixel.
    pub open spec fn position(self, channels: nat, x: nat, y: nat, channel: nat) -> int {
        ((y * self.width + x) * channels + channel) as int
    }
}

/// A `width` x `height` grid of pixels with `N` samples of type `T` each.
///
/// The sample array always holds exactly `width * height * N` entries.
#[derive(Debug)]
pub struct ImageBuffer<T, const N: usize> {
    width: u32,
    height: u32,
    data: Vec<T>,
}

/// Single-channel 8-bit intensity buffer.
pub type GrayImage = ImageBuffer<u8, 1>;

/// 8-bit intensity with alpha.
pub type GrayAlphaImage = ImageBuffer<u8, 2>;

/// Three 8-bit channels per pixel.
pub type RgbImage = ImageBuffer<u8, 3>;

/// Four 8-bit channels per pixel.
pub type RgbaImage = ImageBuffer<u8, 4>;

impl<T, const N: usize> View for ImageBuffer<T, N> {
    type V = Grid<T>;

    closed spec fn view(&self) -> Grid<T> {
        Grid { width: self.width as nat, height: self.height as nat, samples: self.data@ }
    }
}

impl<T, const N: usize> ImageBuffer<T, N> {
    #[verifier::type_invariant]
    spec fn well_formed(self) -> bool {
        self.data@.len() == self.width * self.height * N
    }

    /// Builds a buffer from its dimensions and its samples. Succeeds exactly
    /// when `data` holds `width * height * N` samples.
    pub fn from_raw(width: u32, height: u32, data: Vec<T>) -> (result: Option<Self>)
        ensures
            result is Some <==> data@.len() == width * height * N,
            result matches Some(image) ==> image@ == (Grid {
                width: width as nat,
                height: height as nat,
                samples: data@,
            }),
    {
        assert(width * height <= 0xffff_ffff * 0xffff_ffff) by (nonlinear_arith)
            requires
                width <= 0xffff_ffff,
                height <= 0xffff_ffff,
        ;
        let area: u128 = (width as u128) * (height as u128);
        assert(area * N <= 0xffff_ffff * 0xffff_ffff * 0xffff_ffff_ffff_ffff) by (nonlinear_arith)
            requires
                area <= 0xffff_ffff * 0xffff_ffff,
                N <= 0xffff_ffff_ffff_ffff,
        ;
        let expected: u128 = area * (N as u128);
        if data.len() as u128 == expected {
            Some(ImageBuffer { width, height, data })
        } else {
            None
        }
    }

    /// Width in pixels.
    pub fn width(&self) -> (w: u32)
        ensures
            w == self@.width,
    {
        self.width
    }

    /// Height in pixels.
    pub fn height(&self) -> (h: u32)
        ensures
            h == self@.height,
    {
        self.height
    }

    /// Width and height in pixels.
    pub fn dimensions(&self) -> (d: (u32, u32))
        ensures
            d.0 == self@.width,
            d.1 == self@.height,
    {
        (self.width, self.height)
    }

    /// The sample of `channel` of the pixel in column `x` of row `y`, if
    /// there is such a pixel and such a channel.
    pub fn get(&self, x: u32, y: u32, channel: usize) -> (sample: Option<&T>)
        ensures
            sample is Some <==> x < self@.width && y < self@.height && channel < N,
            sample matches Some(value) ==> *value == self@.samples[self@.position(
                N as nat,
                x as nat,
                y as nat,
                channel as nat,
            )],
    {
        proof {
            use_type_invariant(self);
        }
        if x >= self.width || y >= self.height || channel >= N {
            return None;
        }
        proof {
            assert(self.data@.len() == self.data.len());
            lemma_position_in_bounds(
                self.width as nat,
                self.height as nat,
                N as nat,
                x as nat,
                y as nat,
                channel as nat,
            );
        }
        let pixel: usize = (y as usize) * (self.width as usize) + (x as usize);
        Some(&self.data[pixel * N + channel])
    }

    /// The samples, row by row.
    pub fn as_raw(&self) -> (data: &Vec<T>)
        ensures
            data@ == self@.samples,
            self@.is_dense(N as nat),
    {
        proof {
            use_type_invariant(self);
        }
        &self.data
    }

    /// Gives up the buffer for its samples.
    pub fn into_raw(self) -> (data: Vec<T>)
        ensures
            data@ == self@.samples,
            self@.is_dense(N as nat),
    {
        proof {
            use_type_invariant(&self);
        }
        self.data
    }
}

/// Every sample of every pixel of a dense grid has its place in the sample
/// array.
proof fn lemma_position_in_bounds(
    width: nat,
    height: nat,
    channels: nat,
    x: nat,
    y: nat,
    channel: nat,
)
    requires
        x < width,
        y < height,
        channel < channels,
    ensures
        y * width <= y * width + x < width * height,
        (y * width + x) * channels <= (y * width + x) * channels + channel < width * height
            * channels,
        width * height <= width * height * channels,
{
    assert(width * height <= width * height * channels) by (nonlinear_arith)
        requires
            channels >= 1,
    ;
    assert(y * width + width <= height * width) by (nonlinear_arith)
        requires
            y + 1 <= height,
    ;
    assert(height * width == width * height) by (nonlinear_arith);
    let pixel = y * width + x;
    assert(pixel * channels + channels <= width * height * channels) by (nonlinear_arith)
        requires
            pixel + 1 <= width * height,
    ;
}

impl<T: Copy, const N: usize> Clone for ImageBuffer<T, N> {
    /// A copy with the same dimensions and the same samples.
    fn clone(&self) -> (copy: Self)
        ensures
            copy@ == self@,
    {
        proof {
            use_type_invariant(self);
        }
        let n: usize = self.data.len();
        let mut data: Vec<T> = Vec::with_capacity(n);
        let mut i: usize = 0;
        while i < n
            invariant
                n == self.data@.len(),
                i <= n,
                data@ == self.data@.take(i as int),
            decreases n - i,
        {
            data.push(self.data[i]);
            i += 1;
        }
        assert(data@ == self.data@);
        ImageBuffer { width: self.width, height: self.height, data }
    }
}

} // verus!
