//! Binary search over an encoder's quality for the best encoding within a byte budget.
use vstd::prelude::*;
use crate::codecs::{
    bytes_of, jpeg_encode, jpeg_encoding, mozjpeg_default_encoding, mozjpeg_encode_default,
    mozjpeg_encode_web, mozjpeg_web_encoding, webp_encode, webp_encoding,
};
use crate::compressor::CompressError;
use crate::raster::PixelLayout;

verus! {

/// Lowest and highest quality that the search tries.
pub const SEARCH_LOW: u8 = 10;
pub const SEARCH_HIGH: u8 = 95;

/// The encoders whose output size the search steers by quality.
#[derive(Debug, Clone, Copy, PartialEq, Eq, Structural)]
pub enum QualityCodec {
    /// Baseline JPEG of RGB samples.
    Jpeg,
    /// MozJPEG of RGB samples at its default profile.
    MozJpegDefault,
    /// MozJPEG of RGB samples with the scan layout for the web.
    MozJpegWeb,
    /// Lossy WebP of RGBA samples.
    WebPLossy,
}

/// The pixel buffers and sizes that an encoder takes.
pub open spec fn codec_accepts(codec: QualityCodec, width: u32, height: u32, px: Seq<u8>) -> bool {
    match codec {
        QualityCodec::Jpeg => px.len() == width * height * 3,
        QualityCodec::MozJpegDefault | QualityCodec::MozJpegWeb => {
            &&& 1 <= width <= 65500
            &&& 1 <= height <= 65500
            &&& px.len() == 3 * (width * height)
        },
        QualityCodec::WebPLossy => {
            &&& 1 <= width <= 16383
            &&& 1 <= height <= 16383
            &&& px.len() == 4 * (width * height)
        },
    }
}

/// The encoding of `px` by `codec` at quality `q`, `None` where the encoder fails.
pub open spec fn quality_encoding(codec: QualityCodec, width: u32, height: u32, px: Seq<u8>, q: u8) -> Option<Seq<u8>> {
    match codec {
        QualityCodec::Jpeg => jpeg_encoding(width, height, PixelLayout::Rgb, px, q),
        QualityCodec::MozJpegDefault => mozjpeg_default_encoding(width, height, px, q),
        QualityCodec::MozJpegWeb => mozjpeg_web_encoding(width, height, px, q),
        QualityCodec::WebPLossy => webp_encoding(width, height, px, false, q),
    }
}

/// Quality `q` encodes, within `target` bytes.
pub open spec fn fits(codec: QualityCodec, width: u32, height: u32, px: Seq<u8>, target: u64, q: int) -> bool {
    match quality_encoding(codec, width, height, px, q as u8) {
        Some(d) => d.len() <= target,
        None => false,
    }
}

/// The search on the bracket `[low, high]`, with `best` the last encoding that
/// met the budget: probe the midpoint; within budget, keep it and go up;
/// over budget, go down. `None` when an encoder call fails; `Some(None)` when no
/// probe met the budget.
pub open spec fn search_from(
    codec: QualityCodec,
    width: u32,
    height: u32,
    px: Seq<u8>,
    target: u64,
    low: int,
    high: int,
    best: Option<(Seq<u8>, u8)>,
) -> Option<Option<(Seq<u8>, u8)>>
    decreases high - low + 1,
{
    if low > high {
        Some(best)
    } else {
        let q = (low + high) / 2;
        match quality_encoding(codec, width, height, px, q as u8) {
            None => None,
            Some(d) => if d.len() <= target {
                search_from(codec, width, height, px, target, q + 1, high, Some((d, q as u8)))
            } else {
                search_from(codec, width, height, px, target, low, q - 1, best)
            },
        }
    }
}

/// The outcome of the whole search over qualities 10 to 95.
pub open spec fn search_outcome(codec: QualityCodec, width: u32, height: u32, px: Seq<u8>, target: u64) -> Option<Option<(Seq<u8>, u8)>> {
    search_from(codec, width, height, px, target, SEARCH_LOW as int, SEARCH_HIGH as int, None)
}

/// The search's result as the library reports it.
pub open spec fn search_result(codec: QualityCodec, width: u32, height: u32, px: Seq<u8>, target: u64) -> Result<(Seq<u8>, u8), CompressError> {
    match search_outcome(codec, width, height, px, target) {
        None => Err(CompressError::Encode),
        Some(None) => Err(CompressError::SizeUnreachable),
        Some(Some(found)) => Ok(found),
    }
}

/// Encodes with one of the quality-steered encoders.
pub fn encode_at(codec: QualityCodec, width: u32, height: u32, px: &Vec<u8>, q: u8) -> (r: Option<Vec<u8>>)
    requires
        codec_accepts(codec, width, height, px@),
    ensures
        bytes_of(r) == quality_encoding(codec, width, height, px@, q),
{
    match codec {
        QualityCodec::Jpeg => jpeg_encode(width, height, PixelLayout::Rgb, px, q),
        QualityCodec::MozJpegDefault => mozjpeg_encode_default(width, height, px, q),
        QualityCodec::MozJpegWeb => mozjpeg_encode_web(width, height, px, q),
        QualityCodec::WebPLossy => webp_encode(width, height, px, false, q),
    }
}

/// Finds the encoding at the highest quality in 10..=95 within `target` bytes,
/// by binary search on the assumption that size grows with quality. Returns it
/// with its quality; `SizeUnreachable` when no probe met the budget; `Encode`
/// when the encoder failed.
pub fn quality_search(codec: QualityCodec, width: u32, height: u32, px: &Vec<u8>, target: u64) -> (r: Result<(Vec<u8>, u8), CompressError>)
    requires
        codec_accepts(codec, width, height, px@),
    ensures
        match (r, search_result(codec, width, height, px@, target)) {
            (Ok((d, q)), Ok((sd, sq))) => d@ == sd && q == sq,
            (Err(e), Err(se)) => e == se,
            _ => false,
        },
{
    let mut low: u8 = SEARCH_LOW;
    let mut high: u8 = SEARCH_HIGH;
    let mut best: Option<(Vec<u8>, u8)> = None;
    while low <= high
        invariant
            codec_accepts(codec, width, height, px@),
            SEARCH_LOW <= low,
            high <= SEARCH_HIGH,
            low <= high + 1,
            search_from(codec, width, height, px@, target, low as int, high as int, match best {
                Some((d, q)) => Some((d@, q)),
                None => None,
            }) == search_outcome(codec, width, height, px@, target),
        decreases high + 1 - low,
    {
        let q = (low + high) / 2;
        match encode_at(codec, width, height, px, q) {
            None => {
                return Err(CompressError::Encode);
            },
            Some(d) => {
                if d.len() as u64 <= target {
                    best = Some((d, q));
                    low = q + 1;
                } else {
                    high = q - 1;
                }
            },
        }
    }
    match best {
        Some(found) => Ok(found),
        None => Err(CompressError::SizeUnreachable),
    }
}

proof fn lemma_search_boundary(
    codec: QualityCodec,
    width: u32,
    height: u32,
    px: Seq<u8>,
    target: u64,
    low: int,
    high: int,
    best: Option<(Seq<u8>, u8)>,
)
    requires
        SEARCH_LOW <= low <= high + 1,
        high <= SEARCH_HIGH,
        best is None ==> low == SEARCH_LOW,
        best matches Some((d, q)) ==> q == low - 1 && SEARCH_LOW <= q && quality_encoding(codec, width, height, px, q) == Some(d) && d.len() <= target,
        high < SEARCH_HIGH ==> !fits(codec, width, height, px, target, high + 1),
    ensures
        match search_from(codec, width, height, px, target, low, high, best) {
            Some(Some((d, q))) => {
                &&& SEARCH_LOW <= q <= SEARCH_HIGH
                &&& quality_encoding(codec, width, height, px, q) == Some(d)
                &&& d.len() <= target
                &&& (q < SEARCH_HIGH ==> !fits(codec, width, height, px, target, q + 1))
            },
            Some(None) => !fits(codec, width, height, px, target, SEARCH_LOW as int),
            None => true,
        },
    decreases high - low + 1,
{
    if low <= high {
        let q = (low + high) / 2;
        match quality_encoding(codec, width, height, px, q as u8) {
            None => {},
            Some(d) => if d.len() <= target {
                lemma_search_boundary(codec, width, height, px, target, q + 1, high, Some((d, q as u8)));
            } else {
                lemma_search_boundary(codec, width, height, px, target, low, q - 1, best);
            },
        }
    }
}

/// Whatever the encoder does, a found quality is within the budget and the next
/// quality up is not (or it is the top of the range); and the budget is declared
/// unreachable only when the lowest quality already exceeds it.
pub proof fn search_stops_at_budget_boundary(codec: QualityCodec, width: u32, height: u32, px: Seq<u8>, target: u64)
    ensures
        match search_outcome(codec, width, height, px, target) {
            Some(Some((d, q))) => {
                &&& SEARCH_LOW <= q <= SEARCH_HIGH
                &&& quality_encoding(codec, width, height, px, q) == Some(d)
                &&& d.len() <= target
                &&& (q < SEARCH_HIGH ==> !fits(codec, width, height, px, target, q + 1))
            },
            Some(None) => !fits(codec, width, height, px, target, SEARCH_LOW as int),
            None => true,
        },
{
    lemma_search_boundary(codec, width, height, px, target, SEARCH_LOW as int, SEARCH_HIGH as int, None);
}

/// Every quality in 10..=95 encodes, and the size never shrinks as quality grows.
pub open spec fn size_grows_with_quality(codec: QualityCodec, width: u32, height: u32, px: Seq<u8>) -> bool {
    &&& forall|q: int| SEARCH_LOW <= q <= SEARCH_HIGH ==> #[trigger] quality_encoding(codec, width, height, px, q as u8) is Some
    &&& forall|q1: int, q2: int|
        SEARCH_LOW <= q1 <= q2 <= SEARCH_HIGH ==> (#[trigger] quality_encoding(codec, width, height, px, q1 as u8))->Some_0.len()
            <= (#[trigger] quality_encoding(codec, width, height, px, q2 as u8))->Some_0.len()
}

/// Where size grows with quality, the search returns the highest quality in
/// 10..=95 within the budget, and reports the budget unreachable exactly when
/// no quality in that range meets it.
pub proof fn monotone_search_finds_highest_fitting_quality(codec: QualityCodec, width: u32, height: u32, px: Seq<u8>, target: u64)
    requires
        size_grows_with_quality(codec, width, height, px),
    ensures
        search_outcome(codec, width, height, px, target) is Some,
        search_outcome(codec, width, height, px, target) matches Some(Some((d, q))) ==> {
            &&& d.len() <= target
            &&& forall|q2: int| q < q2 <= SEARCH_HIGH ==> !fits(codec, width, height, px, target, q2)
        },
        search_outcome(codec, width, height, px, target) is Some && search_outcome(codec, width, height, px, target)->Some_0 is None
            ==> forall|q2: int| SEARCH_LOW <= q2 <= SEARCH_HIGH ==> !fits(codec, width, height, px, target, q2),
{
    lemma_search_boundary(codec, width, height, px, target, SEARCH_LOW as int, SEARCH_HIGH as int, None);
    lemma_search_succeeds(codec, width, height, px, target, SEARCH_LOW as int, SEARCH_HIGH as int, None);
    match search_outcome(codec, width, height, px, target) {
        Some(Some((d, q))) => {
            assert forall|q2: int| q < q2 <= SEARCH_HIGH implies !fits(codec, width, height, px, target, q2) by {
                assert(quality_encoding(codec, width, height, px, (q + 1) as u8) is Some);
                assert(quality_encoding(codec, width, height, px, q2 as u8) is Some);
            }
        },
        Some(None) => {
            assert forall|q2: int| SEARCH_LOW <= q2 <= SEARCH_HIGH implies !fits(codec, width, height, px, target, q2) by {
                assert(quality_encoding(codec, width, height, px, SEARCH_LOW) is Some);
                assert(quality_encoding(codec, width, height, px, q2 as u8) is Some);
            }
        },
        None => {},
    }
}

proof fn lemma_search_succeeds(
    codec: QualityCodec,
    width: u32,
    height: u32,
    px: Seq<u8>,
    target: u64,
    low: int,
    high: int,
    best: Option<(Seq<u8>, u8)>,
)
    requires
        SEARCH_LOW <= low,
        high <= SEARCH_HIGH,
        size_grows_with_quality(codec, width, height, px),
    ensures
        search_from(codec, width, height, px, target, low, high, best) is Some,
    decreases high - low + 1,
{
    if low <= high {
        let q = (low + high) / 2;
        assert(quality_encoding(codec, width, height, px, q as u8) is Some);
        let d = quality_encoding(codec, width, height, px, q as u8)->Some_0;
        if d.len() <= target {
            lemma_search_succeeds(codec, width, height, px, target, q + 1, high, Some((d, q as u8)));
        } else {
            lemma_search_succeeds(codec, width, height, px, target, low, q - 1, best);
        }
    }
}

} // verus!
