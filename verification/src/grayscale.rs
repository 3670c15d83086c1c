//! Reduction of a decoded frame, whatever its channel layout and sample
//! width, to a single-channel 8-bit intensity buffer of the same size.

use vstd::prelude::*;
use crate::buffer::{GrayAlphaImage, GrayImage, Grid, ImageBuffer, RgbImage, RgbaImage};
use crate::luma::{downcast_channel, rgb16_to_luma, rgb8_to_luma, srgb_luma16, srgb_luma8, upper_byte};

verus! {

/// A decoded frame in one of the supported pixel formats.
#[derive(Debug)]
pub enum DynamicImage {
    /// 8-bit intensity.
    ImageLuma8(GrayImage),
    /// 8-bit intensity with alpha.
    ImageLumaA8(GrayAlphaImage),
    /// 8-bit red, green, blue.
    ImageRgb8(RgbImage),
    /// 8-bit red, green, blue, alpha.
    ImageRgba8(RgbaImage),
    /// 8-bit blue, green, red.
    ImageBgr8(ImageBuffer<u8, 3>),
    /// 8-bit blue, green, red, alpha.
    ImageBgra8(ImageBuffer<u8, 4>),
    /// 16-bit intensity.
    ImageLuma16(ImageBuffer<u16, 1>),
    /// 16-bit intensity with alpha.
    ImageLumaA16(ImageBuffer<u16, 2>),
    /// 16-bit red, green, blue.
    ImageRgb16(ImageBuffer<u16, 3>),
    /// 16-bit red, green, blue, alpha.
    ImageRgba16(ImageBuffer<u16, 4>),
}

/// Where a pixel keeps what its intensity is computed from.
#[derive(Clone, Copy, Debug, PartialEq, Eq, Structural)]
pub enum ChannelOrder {
    /// The first channel is the intensity.
    Gray,
    /// The first three channels are red, green, blue.
    Rgb,
    /// The first three channels are blue, green, red.
    Bgr,
}

impl ChannelOrder {
    /// How many leading channels of a pixel the intensity depends on.
    pub open spec fn channels_read(self) -> nat {
        match self {
            ChannelOrder::Gray => 1,
            ChannelOrder::Rgb => 3,
            ChannelOrder::Bgr => 3,
        }
    }
}

/// Intensity of the 8-bit pixel whose first sample is `samples[base]`: the
/// weights go to the physical red, green and blue channels, whatever their
/// order, and any further channel is ignored.
pub open spec fn pixel_luma8(samples: Seq<u8>, base: int, order: ChannelOrder) -> u8 {
    match order {
        ChannelOrder::Gray => samples[base],
        ChannelOrder::Rgb => srgb_luma8(samples[base], samples[base + 1], samples[base + 2]),
        ChannelOrder::Bgr => srgb_luma8(samples[base + 2], samples[base + 1], samples[base]),
    }
}

/// Intensity of the 16-bit pixel whose first sample is `samples[base]`, in
/// 16-bit space.
pub open spec fn pixel_luma16(samples: Seq<u16>, base: int, order: ChannelOrder) -> u16 {
    match order {
        ChannelOrder::Gray => samples[base],
        ChannelOrder::Rgb => srgb_luma16(samples[base], samples[base + 1], samples[base + 2]),
        ChannelOrder::Bgr => srgb_luma16(samples[base + 2], samples[base + 1], samples[base]),
    }
}

/// The intensity grid of an 8-bit grid with `channels` samples per pixel.
pub open spec fn reduced8(grid: Grid<u8>, channels: nat, order: ChannelOrder) -> Grid<u8> {
    Grid {
        width: grid.width,
        height: grid.height,
        samples: Seq::new(grid.area(), |i: int| pixel_luma8(grid.samples, i * channels, order)),
    }
}

/// The intensity grid of a 16-bit grid with `channels` samples per pixel:
/// the intensity is taken in 16-bit space and its upper byte kept.
pub open spec fn reduced16(grid: Grid<u16>, channels: nat, order: ChannelOrder) -> Grid<u8> {
    Grid {
        width: grid.width,
        height: grid.height,
        samples: Seq::new(
            grid.area(),
            |i: int| upper_byte(pixel_luma16(grid.samples, i * channels, order)),
        ),
    }
}

/// The intensity grid of a frame.
pub open spec fn grayscale(image: DynamicImage) -> Grid<u8> {
    match image {
        DynamicImage::ImageLuma8(p) => p@,
        DynamicImage::ImageLumaA8(p) => reduced8(p@, 2, ChannelOrder::Gray),
        DynamicImage::ImageRgb8(p) => reduced8(p@, 3, ChannelOrder::Rgb),
        DynamicImage::ImageRgba8(p) => reduced8(p@, 4, ChannelOrder::Rgb),
        DynamicImage::ImageBgr8(p) => reduced8(p@, 3, ChannelOrder::Bgr),
        DynamicImage::ImageBgra8(p) => reduced8(p@, 4, ChannelOrder::Bgr),
        DynamicImage::ImageLuma16(p) => reduced16(p@, 1, ChannelOrder::Gray),
        DynamicImage::ImageLumaA16(p) => reduced16(p@, 2, ChannelOrder::Gray),
        DynamicImage::ImageRgb16(p) => reduced16(p@, 3, ChannelOrder::Rgb),
        DynamicImage::ImageRgba16(p) => reduced16(p@, 4, ChannelOrder::Rgb),
    }
}

impl DynamicImage {
    /// Width of the frame in pixels.
    pub open spec fn spec_width(&self) -> nat {
        grayscale(*self).width
    }

    /// Height of the frame in pixels.
    pub open spec fn spec_height(&self) -> nat {
        grayscale(*self).height
    }

    /// Width and height of the frame in pixels.
    pub fn dimensions(&self) -> (d: (u32, u32))
        ensures
            d.0 == self.spec_width(),
            d.1 == self.spec_height(),
    {
        match self {
            DynamicImage::ImageLuma8(p) => p.dimensions(),
            DynamicImage::ImageLumaA8(p) => p.dimensions(),
            DynamicImage::ImageRgb8(p) => p.dimensions(),
            DynamicImage::ImageRgba8(p) => p.dimensions(),
            DynamicImage::ImageBgr8(p) => p.dimensions(),
            DynamicImage::ImageBgra8(p) => p.dimensions(),
            DynamicImage::ImageLuma16(p) => p.dimensions(),
            DynamicImage::ImageLumaA16(p) => p.dimensions(),
            DynamicImage::ImageRgb16(p) => p.dimensions(),
            DynamicImage::ImageRgba16(p) => p.dimensions(),
        }
    }
}

/// Intensity of one 8-bit pixel.
fn luma8_at(data: &Vec<u8>, base: usize, order: ChannelOrder) -> (luma: u8)
    requires
        base + order.channels_read() <= data.len(),
    ensures
        luma == pixel_luma8(data@, base as int, order),
{
    match order {
        ChannelOrder::Gray => data[base],
        ChannelOrder::Rgb => rgb8_to_luma(data[base], data[base + 1], data[base + 2]),
        ChannelOrder::Bgr => rgb8_to_luma(data[base + 2], data[base + 1], data[base]),
    }
}

/// Intensity of one 16-bit pixel, in 16-bit space.
fn luma16_at(data: &Vec<u16>, base: usize, order: ChannelOrder) -> (luma: u16)
    requires
        base + order.channels_read() <= data.len(),
    ensures
        luma == pixel_luma16(data@, base as int, order),
{
    match order {
        ChannelOrder::Gray => data[base],
        ChannelOrder::Rgb => rgb16_to_luma(data[base], data[base + 1], data[base + 2]),
        ChannelOrder::Bgr => rgb16_to_luma(data[base + 2], data[base + 1], data[base]),
    }
}

/// Reduces an 8-bit buffer with `N` channels per pixel to its intensity.
fn reduce8<const N: usize>(pixels: &ImageBuffer<u8, N>, order: ChannelOrder) -> (out: GrayImage)
    requires
        order.channels_read() <= N,
    ensures
        out@ == reduced8(pixels@, N as nat, order),
{
    let data: &Vec<u8> = pixels.as_raw();
    let count: usize = data.len() / N;
    proof {
        lemma_dense_pixel_count(pixels@.area(), N as nat);
    }
    let mut out: Vec<u8> = Vec::with_capacity(count);
    let mut i: usize = 0;
    let mut base: usize = 0;
    while i < count
        invariant
            order.channels_read() <= N,
            data@ == pixels@.samples,
            data@.len() == count * N,
            count * N <= usize::MAX,
            count == pixels@.area(),
            i <= count,
            base == i * N,
            out@.len() == i,
            forall|k: int| 0 <= k < i ==> out@[k] == pixel_luma8(data@, k * N, order),
        decreases count - i,
    {
        proof {
            lemma_pixel_in_bounds(i as nat, count as nat, N as nat);
        }
        out.push(luma8_at(data, base, order));
        i += 1;
        base += N;
    }
    let reduced: Option<GrayImage> = GrayImage::from_raw(pixels.width(), pixels.height(), out);
    assert(reduced is Some) by {
        assert(pixels@.width * pixels@.height * 1 == pixels@.area()) by (nonlinear_arith)
            requires
                pixels@.area() == pixels@.width * pixels@.height,
        ;
    }
    let image: GrayImage = reduced.unwrap();
    assert(image@ =~= reduced8(pixels@, N as nat, order));
    image
}

/// Reduces a 16-bit buffer with `N` channels per pixel to its 8-bit
/// intensity.
fn reduce16<const N: usize>(pixels: &ImageBuffer<u16, N>, order: ChannelOrder) -> (out: GrayImage)
    requires
        order.channels_read() <= N,
    ensures
        out@ == reduced16(pixels@, N as nat, order),
{
    let data: &Vec<u16> = pixels.as_raw();
    let count: usize = data.len() / N;
    proof {
        lemma_dense_pixel_count(pixels@.area(), N as nat);
    }
    let mut out: Vec<u8> = Vec::with_capacity(count);
    let mut i: usize = 0;
    let mut base: usize = 0;
    while i < count
        invariant
            order.channels_read() <= N,
            data@ == pixels@.samples,
            data@.len() == count * N,
            count * N <= usize::MAX,
            count == pixels@.area(),
            i <= count,
            base == i * N,
            out@.len() == i,
            forall|k: int|
                0 <= k < i ==> out@[k] == upper_byte(pixel_luma16(data@, k * N, order)),
        decreases count - i,
    {
        proof {
            lemma_pixel_in_bounds(i as nat, count as nat, N as nat);
        }
        out.push(downcast_channel(luma16_at(data, base, order)));
        i += 1;
        base += N;
    }
    let reduced: Option<GrayImage> = GrayImage::from_raw(pixels.width(), pixels.height(), out);
    assert(reduced is Some) by {
        assert(pixels@.width * pixels@.height * 1 == pixels@.area()) by (nonlinear_arith)
            requires
                pixels@.area() == pixels@.width * pixels@.height,
        ;
    }
    let image: GrayImage = reduced.unwrap();
    assert(image@ =~= reduced16(pixels@, N as nat, order));
    image
}

/// `area * channels` samples split into exactly `area` pixels.
proof fn lemma_dense_pixel_count(area: nat, channels: nat)
    requires
        channels > 0,
    ensures
        (area * channels) / channels == area,
        ((area * channels) / channels) * channels == area * channels,
{
    vstd::arithmetic::div_mod::lemma_div_by_multiple(area as int, channels as int);
}

/// Pixel `i` of `count` lies inside the sample array, and the next pixel
/// starts right behind it.
proof fn lemma_pixel_in_bounds(i: nat, count: nat, channels: nat)
    requires
        i < count,
    ensures
        i * channels + channels <= count * channels,
        (i + 1) * channels == i * channels + channels,
{
    assert((i + 1) * channels == i * channels + channels) by (nonlinear_arith);
    assert((i + 1) * channels <= count * channels) by (nonlinear_arith)
        requires
            i + 1 <= count,
    ;
}

/// Reduces a frame to a single-channel 8-bit intensity buffer of the same
/// width and height.
///
/// An 8-bit intensity frame is copied. Of a frame with alpha the alpha is
/// ignored. A colour pixel gets the weighted intensity of its red, green
/// and blue samples, in whichever order the format stores them. A 16-bit
/// frame is reduced in 16-bit space, and the upper byte of each intensity is
/// kept.
pub fn dyn_grayscale(input_image: &DynamicImage) -> (result: GrayImage)
    ensures
        result@ == grayscale(*input_image),
{
    match input_image {
        DynamicImage::ImageLuma8(p) => p.clone(),
        DynamicImage::ImageLumaA8(p) => reduce8(p, ChannelOrder::Gray),
        DynamicImage::ImageRgb8(p) => reduce8(p, ChannelOrder::Rgb),
        DynamicImage::ImageRgba8(p) => reduce8(p, ChannelOrder::Rgb),
        DynamicImage::ImageBgr8(p) => reduce8(p, ChannelOrder::Bgr),
        DynamicImage::ImageBgra8(p) => reduce8(p, ChannelOrder::Bgr),
        DynamicImage::ImageLuma16(p) => reduce16(p, ChannelOrder::Gray),
        DynamicImage::ImageLumaA16(p) => reduce16(p, ChannelOrder::Gray),
        DynamicImage::ImageRgb16(p) => reduce16(p, ChannelOrder::Rgb),
        DynamicImage::ImageRgba16(p) => reduce16(p, ChannelOrder::Rgb),
    }
}

} // verus!
