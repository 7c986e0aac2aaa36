//! Packed 8-bit pixel buffers and their conversions.

use vstd::prelude::*;
use crate::encode::PixelLayout;

verus! {

/// Decoded pixel data: packed 8-bit samples, row after row.
#[derive(Clone, Debug)]
pub struct PixelData {
    /// How the samples of a pixel are laid out.
    pub layout: PixelLayout,
    /// Image width in pixels.
    pub width: u32,
    /// Image height in pixels.
    pub height: u32,
    /// The samples.
    pub data: Vec<u8>,
}

/// The number of whole pixels that `data` holds in `layout`.
pub open spec fn pixel_count(layout: PixelLayout, data: Seq<u8>) -> int {
    data.len() as int / layout.spec_bytes_per_pixel() as int
}

/// The red, green and blue sample of pixel `i`: a grey sample stands for
/// all three.
pub open spec fn color_sample(layout: PixelLayout, data: Seq<u8>, i: int, channel: int) -> u8 {
    match layout {
        PixelLayout::Rgb8 => data[3 * i + channel],
        PixelLayout::Rgba8 => data[4 * i + channel],
        PixelLayout::Bgra8 => data[4 * i + (2 - channel)],
        PixelLayout::Gray8 => data[i],
        PixelLayout::GrayAlpha8 => data[2 * i],
    }
}

/// The alpha sample of pixel `i`: 255 where the layout has no alpha.
pub open spec fn alpha_sample(layout: PixelLayout, data: Seq<u8>, i: int) -> u8 {
    match layout {
        PixelLayout::Rgb8 => 255,
        PixelLayout::Rgba8 => data[4 * i + 3],
        PixelLayout::Bgra8 => data[4 * i + 3],
        PixelLayout::Gray8 => 255,
        PixelLayout::GrayAlpha8 => data[2 * i + 1],
    }
}

/// Sample `k` of the RGBA form of `data`: pixel `k / 4`, channel `k % 4`.
pub open spec fn rgba_sample(layout: PixelLayout, data: Seq<u8>, k: int) -> u8 {
    if k % 4 == 3 {
        alpha_sample(layout, data, k / 4)
    } else {
        color_sample(layout, data, k / 4, k % 4)
    }
}

/// The RGBA form of `data`: four samples for every whole pixel.
pub open spec fn spec_to_rgba8(layout: PixelLayout, data: Seq<u8>) -> Seq<u8> {
    Seq::new((4 * pixel_count(layout, data)) as nat, |k: int| rgba_sample(layout, data, k))
}

/// The RGB form of `data`: three samples for every whole pixel, alpha
/// dropped.
pub open spec fn spec_to_rgb8(layout: PixelLayout, data: Seq<u8>) -> Seq<u8> {
    Seq::new(
        (3 * pixel_count(layout, data)) as nat,
        |k: int| color_sample(layout, data, k / 3, k % 3),
    )
}

/// `n` pixels of `layout` lie inside a buffer of `len` bytes.
pub open spec fn whole_pixels_fit(layout: PixelLayout, len: int, n: int) -> bool {
    match layout {
        PixelLayout::Rgb8 => 3 * n <= len,
        PixelLayout::Rgba8 => 4 * n <= len,
        PixelLayout::Bgra8 => 4 * n <= len,
        PixelLayout::Gray8 => n <= len,
        PixelLayout::GrayAlpha8 => 2 * n <= len,
    }
}

/// `pixels` pixels take a number of bytes that divides into `pixels`
/// pixels again.
proof fn lemma_whole_pixels(layout: PixelLayout, pixels: int)
    requires
        0 <= pixels,
    ensures
        (pixels * layout.spec_bytes_per_pixel()) / (layout.spec_bytes_per_pixel() as int) == pixels,
{
    match layout {
        PixelLayout::Rgb8 => {
            assert(pixels * 3 / 3 == pixels);
        },
        PixelLayout::Rgba8 => {
            assert(pixels * 4 / 4 == pixels);
        },
        PixelLayout::Bgra8 => {
            assert(pixels * 4 / 4 == pixels);
        },
        PixelLayout::Gray8 => {
            assert(pixels * 1 / 1 == pixels);
        },
        PixelLayout::GrayAlpha8 => {
            assert(pixels * 2 / 2 == pixels);
        },
    }
}

/// The layout of a decoder's output of `len` bytes for `width` by `height`
/// pixels: the first of RGB, RGBA, grey and grey with alpha whose byte
/// count for that size is `len`.
pub open spec fn decoded_layout(len: int, width: u32, height: u32) -> Option<PixelLayout> {
    if len == width * height * 3 {
        Some(PixelLayout::Rgb8)
    } else if len == width * height * 4 {
        Some(PixelLayout::Rgba8)
    } else if len == width * height * 1 {
        Some(PixelLayout::Gray8)
    } else if len == width * height * 2 {
        Some(PixelLayout::GrayAlpha8)
    } else {
        None
    }
}

impl PixelData {
    /// The buffer holds exactly the samples of `width` by `height` pixels.
    pub open spec fn well_formed(&self) -> bool {
        self.data@.len() == self.width * self.height * self.layout.spec_bytes_per_pixel()
    }

    /// Pixel data for a buffer that holds exactly the samples of `width`
    /// by `height` pixels; `None` for any other buffer.
    pub fn new(layout: PixelLayout, width: u32, height: u32, data: Vec<u8>) -> (r: Option<PixelData>)
        ensures
            match r {
                Some(p) => p == (PixelData { layout, width, height, data }) && p.well_formed(),
                None => data@.len() != width * height * layout.spec_bytes_per_pixel(),
            },
    {
        match layout.min_buffer_size(width, height) {
            Some(n) => {
                if data.len() == n {
                    Some(PixelData { layout, width, height, data })
                } else {
                    None
                }
            },
            None => {
                assert(data@.len() == data.len());
                None
            },
        }
    }

    /// Pixel data for the packed 8-bit output of a decoder, in the layout
    /// that its byte count implies; `None` where no layout fits.
    pub fn from_decoded(data: Vec<u8>, width: u32, height: u32) -> (r: Option<PixelData>)
        ensures
            match decoded_layout(data@.len() as int, width, height) {
                Some(layout) => r == Some(PixelData { layout, width, height, data }),
                None => r.is_none(),
            },
            r matches Some(p) ==> p.well_formed(),
    {
        let len = data.len();
        if PixelLayout::Rgb8.min_buffer_size(width, height) == Some(len) {
            PixelData::new(PixelLayout::Rgb8, width, height, data)
        } else if PixelLayout::Rgba8.min_buffer_size(width, height) == Some(len) {
            PixelData::new(PixelLayout::Rgba8, width, height, data)
        } else if PixelLayout::Gray8.min_buffer_size(width, height) == Some(len) {
            PixelData::new(PixelLayout::Gray8, width, height, data)
        } else if PixelLayout::GrayAlpha8.min_buffer_size(width, height) == Some(len) {
            PixelData::new(PixelLayout::GrayAlpha8, width, height, data)
        } else {
            None
        }
    }

    /// Image width in pixels.
    pub fn width(&self) -> (r: u32)
        ensures
            r == self.width,
    {
        self.width
    }

    /// Image height in pixels.
    pub fn height(&self) -> (r: u32)
        ensures
            r == self.height,
    {
        self.height
    }

    /// Whether this pixel data has an alpha channel.
    pub fn has_alpha(&self) -> (r: bool)
        ensures
            r == self.layout.spec_has_alpha(),
    {
        self.layout.has_alpha()
    }

    /// Whether this pixel data has no colour channels.
    pub fn is_grayscale(&self) -> (r: bool)
        ensures
            r == (self.layout == PixelLayout::Gray8 || self.layout == PixelLayout::GrayAlpha8),
    {
        matches!(self.layout, PixelLayout::Gray8 | PixelLayout::GrayAlpha8)
    }

    /// Convert to RGBA8, allocating a new buffer.
    ///
    /// Grey is expanded to red, green and blue; pixels without alpha get
    /// alpha 255; blue-first pixels are reordered.
    pub fn to_rgba8(&self) -> (r: PixelData)
        ensures
            r.layout == PixelLayout::Rgba8,
            r.width == self.width,
            r.height == self.height,
            r.data@ == spec_to_rgba8(self.layout, self.data@),
            self.well_formed() ==> r.well_formed(),
    {
        let bpp = self.layout.bytes_per_pixel();
        let n = self.data.len() / bpp;
        let mut out: Vec<u8> = Vec::new();
        let mut i: usize = 0;
        assert(whole_pixels_fit(self.layout, self.data@.len() as int, n as int));
        while i < n
            invariant
                n == pixel_count(self.layout, self.data@),
                whole_pixels_fit(self.layout, self.data@.len() as int, n as int),
                self.data@.len() <= usize::MAX,
                i <= n,
                out@ == Seq::new((4 * i) as nat, |k: int| rgba_sample(self.layout, self.data@, k)),
            decreases n - i,
        {
            let (r, g, b, a) = match self.layout {
                PixelLayout::Rgb8 => (
                    self.data[3 * i],
                    self.data[3 * i + 1],
                    self.data[3 * i + 2],
                    255u8,
                ),
                PixelLayout::Rgba8 => (
                    self.data[4 * i],
                    self.data[4 * i + 1],
                    self.data[4 * i + 2],
                    self.data[4 * i + 3],
                ),
                PixelLayout::Bgra8 => (
                    self.data[4 * i + 2],
                    self.data[4 * i + 1],
                    self.data[4 * i],
                    self.data[4 * i + 3],
                ),
                PixelLayout::Gray8 => (self.data[i], self.data[i], self.data[i], 255u8),
                PixelLayout::GrayAlpha8 => (
                    self.data[2 * i],
                    self.data[2 * i],
                    self.data[2 * i],
                    self.data[2 * i + 1],
                ),
            };
            out.push(r);
            out.push(g);
            out.push(b);
            out.push(a);
            proof {
                let next = Seq::new(
                    (4 * (i + 1)) as nat,
                    |k: int| rgba_sample(self.layout, self.data@, k),
                );
                assert(out@ =~= next);
            }
            i += 1;
        }
        proof {
            if self.well_formed() {
                lemma_whole_pixels(self.layout, self.width * self.height);
            }
        }
        PixelData { layout: PixelLayout::Rgba8, width: self.width, height: self.height, data: out }
    }

    /// Convert to RGB8, allocating a new buffer. Alpha is dropped; grey is
    /// expanded; blue-first pixels are reordered.
    pub fn to_rgb8(&self) -> (r: PixelData)
        ensures
            r.layout == PixelLayout::Rgb8,
            r.width == self.width,
            r.height == self.height,
            r.data@ == spec_to_rgb8(self.layout, self.data@),
            self.well_formed() ==> r.well_formed(),
    {
        let bpp = self.layout.bytes_per_pixel();
        let n = self.data.len() / bpp;
        let mut out: Vec<u8> = Vec::new();
        let mut i: usize = 0;
        assert(whole_pixels_fit(self.layout, self.data@.len() as int, n as int));
        while i < n
            invariant
                n == pixel_count(self.layout, self.data@),
                whole_pixels_fit(self.layout, self.data@.len() as int, n as int),
                self.data@.len() <= usize::MAX,
                i <= n,
                out@ == Seq::new(
                    (3 * i) as nat,
                    |k: int| color_sample(self.layout, self.data@, k / 3, k % 3),
                ),
            decreases n - i,
        {
            let (r, g, b) = match self.layout {
                PixelLayout::Rgb8 => (self.data[3 * i], self.data[3 * i + 1], self.data[3 * i + 2]),
                PixelLayout::Rgba8 => (self.data[4 * i], self.data[4 * i + 1], self.data[4 * i + 2]),
                PixelLayout::Bgra8 => (self.data[4 * i + 2], self.data[4 * i + 1], self.data[4 * i]),
                PixelLayout::Gray8 => (self.data[i], self.data[i], self.data[i]),
                PixelLayout::GrayAlpha8 => (self.data[2 * i], self.data[2 * i], self.data[2 * i]),
            };
            out.push(r);
            out.push(g);
            out.push(b);
            proof {
                let next = Seq::new(
                    (3 * (i + 1)) as nat,
                    |k: int| color_sample(self.layout, self.data@, k / 3, k % 3),
                );
                assert(out@ =~= next);
            }
            i += 1;
        }
        proof {
            if self.well_formed() {
                lemma_whole_pixels(self.layout, self.width * self.height);
            }
        }
        PixelData { layout: PixelLayout::Rgb8, width: self.width, height: self.height, data: out }
    }

    /// The samples as bytes, row after row.
    pub fn as_bytes(&self) -> (r: &[u8])
        ensures
            r@ == self.data@,
    {
        self.data.as_slice()
    }
}

/// The high byte of every 16-bit sample.
pub open spec fn spec_narrow_samples(samples: Seq<u16>) -> Seq<u8> {
    Seq::new(samples.len(), |k: int| (samples[k] / 256) as u8)
}

/// Reduce 16-bit samples to 8 bits by keeping the high byte of each.
pub fn narrow_samples(samples: &[u16]) -> (r: Vec<u8>)
    ensures
        r@ == spec_narrow_samples(samples@),
{
    let mut out: Vec<u8> = Vec::new();
    let mut i: usize = 0;
    while i < samples.len()
        invariant
            i <= samples.len(),
            out@ == Seq::new(i as nat, |k: int| (samples@[k] / 256) as u8),
        decreases samples.len() - i,
    {
        let s = samples[i];
        assert(s >> 8 == s / 256) by (bit_vector);
        out.push((s >> 8) as u8);
        proof {
            let next = Seq::new((i + 1) as nat, |k: int| (samples@[k] / 256) as u8);
            assert(out@ =~= next);
        }
        i += 1;
    }
    assert(out@ =~= spec_narrow_samples(samples@));
    out
}

} // verus!
