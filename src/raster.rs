//! The decoded raster that the engine works on, and its conversions.
use vstd::prelude::*;

verus! {

/// How the samples of one pixel are laid out.
#[derive(Debug, Clone, Copy, PartialEq, Eq, Structural)]
pub enum PixelLayout {
    Gray,
    GrayAlpha,
    Rgb,
    Rgba,
}

pub open spec fn channel_count(layout: PixelLayout) -> nat {
    match layout {
        PixelLayout::Gray => 1,
        PixelLayout::GrayAlpha => 2,
        PixelLayout::Rgb => 3,
        PixelLayout::Rgba => 4,
    }
}

/// A decoded raster: `width * height` pixels, row by row, each pixel as
/// `channel_count(layout)` consecutive 8-bit samples.
#[derive(Debug, Clone)]
pub struct RasterImage {
    pub width: u32,
    pub height: u32,
    pub layout: PixelLayout,
    pub samples: Vec<u8>,
}

/// Channel `k` (0 red, 1 green, 2 blue, 3 alpha) of pixel `i` in the RGBA reading
/// of `samples`: gray spreads to all three colours, a missing alpha is opaque.
pub open spec fn rgba_channel(layout: PixelLayout, samples: Seq<u8>, i: int, k: int) -> u8 {
    match layout {
        PixelLayout::Gray => if k < 3 { samples[i] } else { 255 },
        PixelLayout::GrayAlpha => if k < 3 { samples[2 * i] } else { samples[2 * i + 1] },
        PixelLayout::Rgb => if k < 3 { samples[3 * i + k] } else { 255 },
        PixelLayout::Rgba => samples[4 * i + k],
    }
}

/// The largest factor `f <= start` (and at least 1) with `f * f * max_colors <= 65536`,
/// that is `f <= 256 / sqrt(max_colors)`.
pub open spec fn factor_from(max_colors: nat, start: nat) -> nat
    decreases start,
{
    if start <= 1 || start * start * max_colors <= 65536 {
        start
    } else {
        factor_from(max_colors, (start - 1) as nat)
    }
}

/// The posterization step for a colour budget: about `256 / sqrt(max_colors)`, at most 255.
pub open spec fn posterize_factor(max_colors: nat) -> nat {
    factor_from(max_colors, 255)
}

/// RGBA samples with each colour channel rounded down to a multiple of `f`;
/// alpha is kept.
pub open spec fn posterized(rgba: Seq<u8>, f: nat) -> Seq<u8> {
    Seq::new(rgba.len(), |j: int| if j % 4 == 3 { rgba[j] } else { ((rgba[j] as int / f as int) * f as int) as u8 })
}

impl RasterImage {
    pub open spec fn pixel_count(&self) -> nat {
        (self.width * self.height) as nat
    }

    /// The samples fill the raster exactly, and its RGBA form fits in memory.
    pub open spec fn wf(&self) -> bool {
        &&& self.samples@.len() == self.pixel_count() * channel_count(self.layout)
        &&& self.pixel_count() * 4 <= usize::MAX
    }

    pub open spec fn channel(&self, i: int, k: int) -> u8 {
        rgba_channel(self.layout, self.samples@, i, k)
    }

    /// The image as RGBA, four samples per pixel.
    pub open spec fn rgba_samples(&self) -> Seq<u8> {
        Seq::new(self.pixel_count() * 4, |j: int| self.channel(j / 4, j % 4))
    }

    /// The image as RGB, three samples per pixel; alpha is dropped.
    pub open spec fn rgb_samples(&self) -> Seq<u8> {
        Seq::new(self.pixel_count() * 3, |j: int| self.channel(j / 3, j % 3))
    }

    /// Raw size estimate: one byte per sample of the image's own layout.
    pub open spec fn raw_size(&self) -> nat {
        self.pixel_count() * channel_count(self.layout)
    }

    /// Builds an image, or `None` when the samples do not fill the raster exactly.
    pub fn new(width: u32, height: u32, layout: PixelLayout, samples: Vec<u8>) -> (r: Option<
        RasterImage,
    >)
        ensures
            r is Some <==> samples@.len() == width * height * channel_count(layout)
                && width * height * 4 <= usize::MAX,
            r matches Some(img) ==> img.wf() && img.width == width && img.height == height
                && img.layout == layout && img.samples@ == samples@,
    {
        proof {
            assert(width * height <= 0xffff_ffffu64 * 0xffff_ffffu64) by (nonlinear_arith)
                requires width <= 0xffff_ffffu64, height <= 0xffff_ffffu64;
        }
        let n = width as u64 * height as u64;
        if n > (usize::MAX / 4) as u64 {
            return None;
        }
        let c: u64 = match layout {
            PixelLayout::Gray => 1,
            PixelLayout::GrayAlpha => 2,
            PixelLayout::Rgb => 3,
            PixelLayout::Rgba => 4,
        };
        if samples.len() as u64 == n * c {
            Some(RasterImage { width, height, layout, samples })
        } else {
            None
        }
    }

    pub fn channels(&self) -> (r: usize)
        ensures
            r == channel_count(self.layout),
    {
        match self.layout {
            PixelLayout::Gray => 1,
            PixelLayout::GrayAlpha => 2,
            PixelLayout::Rgb => 3,
            PixelLayout::Rgba => 4,
        }
    }

    pub fn pixels(&self) -> (r: usize)
        requires
            self.wf(),
        ensures
            r == self.pixel_count(),
    {
        proof {
            assert(self.width * self.height <= self.width * self.height * 4) by (nonlinear_arith);
        }
        self.width as usize * self.height as usize
    }

    /// Sample `k` of pixel `i` in RGBA form.
    fn rgba_at(&self, i: usize, k: usize) -> (r: u8)
        requires
            self.wf(),
            i < self.pixel_count(),
            k < 4,
        ensures
            r == self.channel(i as int, k as int),
    {
        let ghost n = self.pixel_count();
        proof {
            assert(2 * i + 1 < 2 * n) by (nonlinear_arith)
                requires i < n;
        }
        match self.layout {
            PixelLayout::Gray => if k < 3 { self.samples[i] } else { 255 },
            PixelLayout::GrayAlpha => if k < 3 { self.samples[2 * i] } else { self.samples[2 * i + 1] },
            PixelLayout::Rgb => {
                if k < 3 {
                    proof {
                        assert(3 * i + k < 3 * n) by (nonlinear_arith)
                            requires i < n, k < 3;
                    }
                    self.samples[3 * i + k]
                } else {
                    255
                }
            },
            PixelLayout::Rgba => {
                proof {
                    assert(4 * i + k < 4 * n) by (nonlinear_arith)
                        requires i < n, k < 4;
                }
                self.samples[4 * i + k]
            },
        }
    }

    /// The image as RGBA, four samples per pixel.
    pub fn to_rgba8(&self) -> (r: Vec<u8>)
        requires
            self.wf(),
        ensures
            r@ == self.rgba_samples(),
    {
        let total = self.pixels() * 4;
        let mut out: Vec<u8> = Vec::with_capacity(total);
        let mut j: usize = 0;
        while j < total
            invariant
                self.wf(),
                total == self.pixel_count() * 4,
                j <= total,
                out@ == self.rgba_samples().take(j as int),
            decreases total - j,
        {
            let v = self.rgba_at(j / 4, j % 4);
            out.push(v);
            j = j + 1;
            assert(out@ =~= self.rgba_samples().take(j as int));
        }
        assert(out@ =~= self.rgba_samples());
        out
    }

    /// The image as RGB, three samples per pixel.
    pub fn to_rgb8(&self) -> (r: Vec<u8>)
        requires
            self.wf(),
        ensures
            r@ == self.rgb_samples(),
    {
        let total = self.pixels() * 3;
        let mut out: Vec<u8> = Vec::with_capacity(total);
        let mut j: usize = 0;
        while j < total
            invariant
                self.wf(),
                total == self.pixel_count() * 3,
                j <= total,
                out@ == self.rgb_samples().take(j as int),
            decreases total - j,
        {
            let v = self.rgba_at(j / 3, j % 3);
            out.push(v);
            j = j + 1;
            assert(out@ =~= self.rgb_samples().take(j as int));
        }
        assert(out@ =~= self.rgb_samples());
        out
    }

    /// Bytes of the uncompressed image: pixels times bytes per pixel of its layout.
    pub fn estimate_raw_size(&self) -> (r: u64)
        requires
            self.wf(),
        ensures
            r == self.raw_size(),
    {
        self.samples.len() as u64
    }
}

fn exceeds_square_budget(f: u128, m: u128) -> (r: bool)
    requires
        f <= 255,
        m <= 0xffff_ffff_ffff_ffffu128,
    ensures
        r == (f * f * m > 65536),
{
    assert(f * f <= 65025) by (nonlinear_arith)
        requires f <= 255;
    assert(f * f * m <= 65025 * 0xffff_ffff_ffff_ffffu128) by (nonlinear_arith)
        requires f * f <= 65025, m <= 0xffff_ffff_ffff_ffffu128;
    f * f * m > 65536
}

/// The posterization step for a colour budget.
pub fn posterize_step(max_colors: usize) -> (r: u8)
    ensures
        r == posterize_factor(max_colors as nat),
        r >= 1,
{
    let m = max_colors as u128;
    let mut f: u128 = 255;
    while f > 1 && exceeds_square_budget(f, m)
        invariant
            1 <= f <= 255,
            m == max_colors,
            factor_from(m as nat, f as nat) == posterize_factor(m as nat),
        decreases f,
    {
        f = f - 1;
    }
    f as u8
}

/// Rounds each colour channel of RGBA samples down to a multiple of `f`.
pub fn posterize(rgba: &Vec<u8>, f: u8) -> (r: Vec<u8>)
    requires
        f >= 1,
    ensures
        r@ == posterized(rgba@, f as nat),
{
    let mut out: Vec<u8> = Vec::with_capacity(rgba.len());
    let mut j: usize = 0;
    while j < rgba.len()
        invariant
            f >= 1,
            j <= rgba@.len(),
            out@ == posterized(rgba@, f as nat).take(j as int),
        decreases rgba@.len() - j,
    {
        let v = rgba[j];
        let w = if j % 4 == 3 {
            v
        } else {
            assert((v / f) * f <= v) by (nonlinear_arith)
                requires f >= 1, v >= 0;
            (v / f) * f
        };
        out.push(w);
        j = j + 1;
        assert(out@ =~= posterized(rgba@, f as nat).take(j as int));
    }
    assert(out@ =~= posterized(rgba@, f as nat));
    out
}

} // verus!
