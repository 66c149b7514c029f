//! The quick path: JPEG at falling quality until the budget is met, then,
//! when allowed, ever smaller copies of the image at a fixed quality.
use vstd::prelude::*;
use crate::codecs::{bytes_of, jpeg_encode, jpeg_encoding, lanczos_resize, lanczos_resized};
use crate::compressor::CompressError;
use crate::inputs::{is_listed_extension, listed_extension, lower_of, lowercase};
use crate::raster::{channel_count, PixelLayout, RasterImage};

verus! {

/// Number of qualities on the ladder: 95, 90, ..., 20.
pub const LADDER_STEPS: u8 = 16;

/// Downscaling steps: each keeps nine tenths of each side, while the scale of
/// the input image stays above one half (0.9 to the sixth is about 0.53).
pub const DOWNSCALE_STEPS: u8 = 6;

/// Quality used for the downscaled copies.
pub const DOWNSCALE_QUALITY: u8 = 75;

/// A budget in kibibytes as bytes, saturating.
pub open spec fn byte_target(target_kb: u64) -> u64 {
    if target_kb * 1024 > u64::MAX { u64::MAX } else { (target_kb * 1024) as u64 }
}

/// Quality at ladder step `i`.
pub open spec fn ladder_quality(i: int) -> u8 {
    (95 - 5 * i) as u8
}

/// The quality ladder from step `i`: `None` on an encoder failure, `Some(None)`
/// when no step meets the budget.
pub open spec fn ladder_from(w: u32, h: u32, layout: PixelLayout, samples: Seq<u8>, target: u64, i: int) -> Option<Option<Seq<u8>>>
    decreases LADDER_STEPS - i,
{
    if i >= LADDER_STEPS {
        Some(None)
    } else {
        match jpeg_encoding(w, h, layout, samples, ladder_quality(i)) {
            None => None,
            Some(d) => if d.len() <= target {
                Some(Some(d))
            } else {
                ladder_from(w, h, layout, samples, target, i + 1)
            },
        }
    }
}

/// Nine tenths of a side, rounded down.
pub open spec fn shrunk(side: u32) -> u32 {
    (side * 9 / 10) as u32
}

/// Downscaling from step `k`: shrink, encode at the fixed quality, stop at the
/// first result within budget, or when a side would vanish.
pub open spec fn downscale_from(w: u32, h: u32, layout: PixelLayout, samples: Seq<u8>, target: u64, k: int) -> Option<Option<Seq<u8>>>
    decreases DOWNSCALE_STEPS - k,
{
    if k >= DOWNSCALE_STEPS || shrunk(w) == 0 || shrunk(h) == 0 {
        Some(None)
    } else {
        let (nw, nh) = (shrunk(w), shrunk(h));
        let smaller = lanczos_resized(w, h, layout, samples, nw, nh);
        match jpeg_encoding(nw, nh, layout, smaller, DOWNSCALE_QUALITY) {
            None => None,
            Some(d) => if d.len() <= target {
                Some(Some(d))
            } else {
                downscale_from(nw, nh, layout, smaller, target, k + 1)
            },
        }
    }
}

/// What the quick path yields for an image, a budget and the downscale flag.
pub open spec fn simple_outcome(img: RasterImage, target_kb: u64, auto_scale: bool) -> Result<Seq<u8>, CompressError> {
    let t = byte_target(target_kb);
    match ladder_from(img.width, img.height, img.layout, img.samples@, t, 0) {
        None => Err(CompressError::Encode),
        Some(Some(d)) => Ok(d),
        Some(None) => if auto_scale {
            match downscale_from(img.width, img.height, img.layout, img.samples@, t, 0) {
                None => Err(CompressError::Encode),
                Some(Some(d)) => Ok(d),
                Some(None) => Err(CompressError::SizeUnreachable),
            }
        } else {
            Err(CompressError::SizeUnreachable)
        },
    }
}

/// JPEG of the image in its own layout at a quality.
pub fn save_to_buffer(image: &RasterImage, quality: u8) -> (r: Result<Vec<u8>, CompressError>)
    requires
        image.wf(),
    ensures
        match (r, jpeg_encoding(image.width, image.height, image.layout, image.samples@, quality)) {
            (Ok(d), Some(sd)) => d@ == sd,
            (Err(e), None) => e == CompressError::Encode,
            _ => false,
        },
{
    match jpeg_encode(image.width, image.height, image.layout, &image.samples, quality) {
        Some(d) => Ok(d),
        None => Err(CompressError::Encode),
    }
}

fn copy_samples(v: &Vec<u8>) -> (r: Vec<u8>)
    ensures
        r@ == v@,
{
    let mut out: Vec<u8> = Vec::with_capacity(v.len());
    let mut i: usize = 0;
    while i < v.len()
        invariant
            i <= v@.len(),
            out@ == v@.take(i as int),
        decreases v@.len() - i,
    {
        out.push(v[i]);
        i = i + 1;
        assert(out@ =~= v@.take(i as int));
    }
    assert(out@ =~= v@);
    out
}

/// Compresses to JPEG within `target_kb` kibibytes: qualities 95 down to 20 in
/// steps of 5, then, with `auto_scale`, up to six copies each nine tenths the
/// size of the last, at quality 75. The first result within budget is returned.
pub fn compress_to_size(image: &RasterImage, target_kb: u64, auto_scale: bool) -> (r: Result<Vec<u8>, CompressError>)
    requires
        image.wf(),
    ensures
        match (r, simple_outcome(*image, target_kb, auto_scale)) {
            (Ok(d), Ok(sd)) => d@ == sd,
            (Err(e), Err(se)) => e == se,
            _ => false,
        },
{
    let target: u64 = if target_kb > u64::MAX / 1024 { u64::MAX } else { target_kb * 1024 };
    let mut i: u8 = 0;
    while i < LADDER_STEPS
        invariant
            image.wf(),
            i <= LADDER_STEPS,
            target == byte_target(target_kb),
            ladder_from(image.width, image.height, image.layout, image.samples@, target, i as int)
                == ladder_from(image.width, image.height, image.layout, image.samples@, target, 0),
        decreases LADDER_STEPS - i,
    {
        let quality = 95 - 5 * i;
        match jpeg_encode(image.width, image.height, image.layout, &image.samples, quality) {
            None => {
                return Err(CompressError::Encode);
            },
            Some(d) => {
                if d.len() as u64 <= target {
                    return Ok(d);
                }
            },
        }
        i = i + 1;
    }
    if !auto_scale {
        return Err(CompressError::SizeUnreachable);
    }
    let layout = image.layout;
    let mut w = image.width;
    let mut h = image.height;
    let mut samples = copy_samples(&image.samples);
    let mut k: u8 = 0;
    while k < DOWNSCALE_STEPS
        invariant
            k <= DOWNSCALE_STEPS,
            auto_scale,
            target == byte_target(target_kb),
            ladder_from(image.width, image.height, image.layout, image.samples@, target, 0) == Some(None::<Seq<u8>>),
            layout == image.layout,
            samples@.len() == w * h * channel_count(layout),
            downscale_from(w, h, layout, samples@, target, k as int)
                == downscale_from(image.width, image.height, image.layout, image.samples@, target, 0),
        decreases DOWNSCALE_STEPS - k,
    {
        let nw = (w as u64 * 9 / 10) as u32;
        let nh = (h as u64 * 9 / 10) as u32;
        if nw == 0 || nh == 0 {
            return Err(CompressError::SizeUnreachable);
        }
        let smaller = match lanczos_resize(w, h, layout, &samples, nw, nh) {
            Some(v) => v,
            None => {
                return Err(CompressError::Encode);
            },
        };
        match jpeg_encode(nw, nh, layout, &smaller, DOWNSCALE_QUALITY) {
            None => {
                return Err(CompressError::Encode);
            },
            Some(d) => {
                if d.len() as u64 <= target {
                    return Ok(d);
                }
            },
        }
        w = nw;
        h = nh;
        samples = smaller;
        k = k + 1;
    }
    Err(CompressError::SizeUnreachable)
}

/// Whether the quick path takes a file with this extension, case ignored; AVIF
/// is not among them, and a file without an extension is not taken.
pub fn is_image_file(extension: Option<&str>) -> (r: bool)
    ensures
        r == match extension {
            Some(e) => listed_extension(lower_of(e@), false),
            None => false,
        },
{
    match extension {
        Some(e) => {
            let lowered = lowercase(e);
            is_listed_extension(lowered.as_str(), false)
        },
        None => false,
    }
}

} // verus!
