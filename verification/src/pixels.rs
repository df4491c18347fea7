use vstd::prelude::*;
use crate::escape::Rgb;

verus! {

/// A grid of RGBA samples, row by row, four bytes to a pixel.
pub struct PixelBuffer {
    width: u32,
    height: u32,
    data: Vec<u8>,
}

/// Row `y`, column `x` lies inside a grid of `w` columns and `h` rows: its cell
/// index is below `w * h`.
pub proof fn lemma_cell_index(x: int, y: int, w: int, h: int)
    requires
        0 <= x < w,
        0 <= y < h,
    ensures
        0 <= y * w + x < w * h,
{
    assert(y * w + x < w * h) by (nonlinear_arith)
        requires
            0 <= x < w,
            0 <= y < h,
    ;
    assert(0 <= y * w) by (nonlinear_arith)
        requires
            0 <= y,
            0 <= w,
    ;
}

impl PixelBuffer {
    /// Number of columns.
    pub closed spec fn spec_width(&self) -> u32 {
        self.width
    }

    /// Number of rows.
    pub closed spec fn spec_height(&self) -> u32 {
        self.height
    }

    /// The raw samples: red, green, blue and alpha of each pixel in turn.
    pub closed spec fn samples(&self) -> Seq<u8> {
        self.data@
    }

    /// The buffer has at least one pixel and exactly four samples for each.
    pub open spec fn wf(&self) -> bool {
        &&& self.spec_width() >= 1
        &&& self.spec_height() >= 1
        &&& self.samples().len() == 4 * (self.spec_width() * self.spec_height())
    }

    /// The colour at column `x` of row `y`; the alpha sample is left out.
    pub open spec fn pixel(&self, x: int, y: int) -> Rgb
        recommends
            self.wf(),
            0 <= x < self.spec_width(),
            0 <= y < self.spec_height(),
    {
        let at = 4 * (y * self.spec_width() + x);
        Rgb { r: self.samples()[at], g: self.samples()[at + 1], b: self.samples()[at + 2] }
    }

    /// Takes `data` as a grid of `width` by `height` pixels, which it is when
    /// neither dimension is zero and `data` holds four samples for each pixel.
    pub fn new(width: u32, height: u32, data: Vec<u8>) -> (buffer: Option<PixelBuffer>)
        ensures
            buffer is Some <==> width >= 1 && height >= 1 && data@.len() == 4 * (width * height),
            buffer matches Some(b) ==> b.wf() && b.spec_width() == width && b.spec_height()
                == height && b.samples() == data@,
    {
        if width == 0 || height == 0 {
            return None;
        }
        assert(width * height <= 0xffff_ffff * 0xffff_ffff) by (nonlinear_arith)
            requires
                width <= 0xffff_ffff,
                height <= 0xffff_ffff,
        ;
        let cells: u64 = width as u64 * height as u64;
        if data.len() as u128 != 4 * (cells as u128) {
            return None;
        }
        Some(PixelBuffer { width, height, data })
    }

    /// Number of columns.
    #[verifier::when_used_as_spec(spec_width)]
    pub fn width(&self) -> (w: u32)
        ensures
            w == self.spec_width(),
    {
        self.width
    }

    /// Number of rows.
    #[verifier::when_used_as_spec(spec_height)]
    pub fn height(&self) -> (h: u32)
        ensures
            h == self.spec_height(),
    {
        self.height
    }

    /// The raw samples: red, green, blue and alpha of each pixel in turn.
    pub fn as_raw(&self) -> (data: &Vec<u8>)
        ensures
            data@ == self.samples(),
    {
        &self.data
    }

    /// Reads the colour at column `x` of row `y`.
    pub fn get_pixel(&self, x: u32, y: u32) -> (c: Rgb)
        requires
            self.wf(),
            x < self.spec_width(),
            y < self.spec_height(),
        ensures
            c == self.pixel(x as int, y as int),
    {
        let len: usize = self.data.len();
        proof {
            lemma_cell_index(x as int, y as int, self.width as int, self.height as int);
            assert(0 <= y * self.width) by (nonlinear_arith)
                requires
                    0 <= y,
                    0 <= self.width,
            ;
            assert(len == 4 * (self.width * self.height));
            assert(4 * (y * self.width + x) + 3 < len);
        }
        let at: usize = 4 * (y as usize * self.width as usize + x as usize);
        Rgb { r: self.data[at], g: self.data[at + 1], b: self.data[at + 2] }
    }
}

/// Resampling a buffer of `source_width` columns to `target` (width, height)
/// stays within what one allocation can hold: the target itself at four bytes
/// to a pixel, and the intermediate grid of `source_width` by `target.1`
/// pixels at sixteen.
pub open spec fn resample_fits(source_width: u32, target: (u32, u32)) -> bool {
    &&& 16 * (source_width * target.1) <= isize::MAX
    &&& 4 * (target.0 * target.1) <= isize::MAX
}

impl PixelBuffer {
    /// Resamples the buffer to `width` by `height` pixels with the Lanczos
    /// filter of window 3, through `image::imageops::resize`.
    ///
    /// Trusted, not proved. Claimed of the outside function: it returns a
    /// buffer of exactly the dimensions asked for, with four samples to each
    /// pixel, and where these are the source's own dimensions, a copy of the
    /// source. Nothing is claimed of the resampled colours, which go through
    /// floating point. Its allocations are the two that [`resample_fits`]
    /// bounds.
    #[verifier::external_body]
    pub(crate) fn resized(&self, width: u32, height: u32) -> (out: PixelBuffer)
        requires
            self.wf(),
            width >= 1,
            height >= 1,
            resample_fits(self.spec_width(), (width, height)),
        ensures
            out.wf(),
            out.spec_width() == width,
            out.spec_height() == height,
            width == self.spec_width() && height == self.spec_height() ==> out.samples()
                == self.samples(),
    {
        let source: image::RgbaImage =
            image::ImageBuffer::from_raw(self.width, self.height, self.data.clone()).unwrap();
        let filter = image::imageops::FilterType::Lanczos3;
        let out = image::imageops::resize(&source, width, height, filter);
        PixelBuffer { width: out.width(), height: out.height(), data: out.into_raw() }
    }
}

/// One decoded frame of the source: its pixels, and how long it is shown, as a
/// fraction of milliseconds.
pub struct SourceFrame {
    pub buffer: PixelBuffer,
    /// Numerator and denominator of the delay in milliseconds.
    pub delay: (u32, u32),
}

impl SourceFrame {
    /// The pixels are well formed and the delay's denominator is not zero.
    pub open spec fn wf(&self) -> bool {
        self.buffer.wf() && self.delay.1 != 0
    }

    /// The delay in whole milliseconds, rounded down.
    pub open spec fn spec_delay_ms(&self) -> u64 {
        (self.delay.0 / self.delay.1) as u64
    }

    /// The delay in whole milliseconds, rounded down.
    pub fn delay_ms(&self) -> (ms: u64)
        requires
            self.wf(),
        ensures
            ms == self.spec_delay_ms(),
    {
        self.delay.0 as u64 / self.delay.1 as u64
    }
}

} // verus!
