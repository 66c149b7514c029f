//! Statistics of an image that steer the choice of encoder: transparency,
//! sampled colour diversity, a gradient signal and the dominant colours; and the
//! rules that turn them into an algorithm.
use vstd::prelude::*;
use std::collections::{HashMap, HashSet};
use crate::algorithm::CompressionAlgorithm;
use crate::compressor::SmartCompressor;
use crate::raster::RasterImage;

verus! {

broadcast use vstd::std_specs::hash::group_hash_axioms;

/// Largest number of pixels inspected, and largest count reported, by colour counting.
pub const SAMPLE_BUDGET: usize = 10000;

/// More sampled colours than this, together with gradients, marks a photograph.
pub const PHOTO_COLOR_THRESHOLD: usize = 1000;

/// A colour diversity at or under this fits a palette.
pub const PALETTE_LIMIT: usize = 256;

/// The (R, G, B) triple of a pixel packed into one integer, alpha ignored.
pub open spec fn color_key(r: u8, g: u8, b: u8) -> u32 {
    (r as int * 65536 + g as int * 256 + b as int) as u32
}

/// The packed colour of pixel `i` of an RGBA sample sequence.
pub open spec fn key_at(rgba: Seq<u8>, i: int) -> u32 {
    color_key(rgba[4 * i], rgba[4 * i + 1], rgba[4 * i + 2])
}

/// Some pixel among the first `n` is not fully opaque.
pub open spec fn any_translucent(rgba: Seq<u8>, n: int) -> bool {
    exists|i: int| 0 <= i < n && #[trigger] rgba[4 * i + 3] < 255
}

/// The stride of colour sampling: every `step`-th pixel is inspected.
pub open spec fn sample_step(n: nat, budget: nat) -> nat {
    if n / budget > 1 { n / budget } else { 1 }
}

/// The colours of the pixels among the first `k` whose index is a multiple of `step`.
pub open spec fn sampled_keys(rgba: Seq<u8>, step: nat, k: nat) -> Set<u32>
    decreases k,
{
    if k == 0 {
        Set::empty()
    } else {
        let prev = sampled_keys(rgba, step, (k - 1) as nat);
        if (k - 1) % (step as int) == 0 {
            prev.insert(key_at(rgba, k - 1))
        } else {
            prev
        }
    }
}

/// The distinct colours of the first `k` pixels.
pub open spec fn present_keys(rgba: Seq<u8>, k: nat) -> Set<u32>
    decreases k,
{
    if k == 0 {
        Set::empty()
    } else {
        present_keys(rgba, (k - 1) as nat).insert(key_at(rgba, k - 1))
    }
}

/// How many of the first `k` pixels have colour `key`.
pub open spec fn frequency(rgba: Seq<u8>, key: u32, k: nat) -> nat
    decreases k,
{
    if k == 0 {
        0
    } else {
        frequency(rgba, key, (k - 1) as nat) + if key_at(rgba, k - 1) == key {
            1nat
        } else {
            0nat
        }
    }
}

/// The reported colour count: the sampled colours, capped by the budget.
pub open spec fn sampled_color_count(rgba: Seq<u8>, n: nat, budget: nat) -> nat {
    let c = sampled_keys(rgba, sample_step(n, budget), n).len();
    if c < budget { c } else { budget }
}

/// Squared Euclidean distance in RGB space between pixels `a` and `b`.
pub open spec fn squared_distance(rgba: Seq<u8>, a: int, b: int) -> int {
    let dr = rgba[4 * a] - rgba[4 * b];
    let dg = rgba[4 * a + 1] - rgba[4 * b + 1];
    let db = rgba[4 * a + 2] - rgba[4 * b + 2];
    dr * dr + dg * dg + db * db
}

/// Distances are compared with a threshold of 10; squared, of 100.
pub open spec fn exceeds_threshold(d: int) -> bool {
    d > 100
}

/// Pixel (x, y) differs beyond the threshold from its right or its lower neighbour.
pub open spec fn gradient_at(rgba: Seq<u8>, w: int, x: int, y: int) -> bool {
    let p = y * w + x;
    exceeds_threshold(squared_distance(rgba, p, p + 1))
        || exceeds_threshold(squared_distance(rgba, p, p + w))
}

/// How many of `0 .. end` are multiples of four: the sampled rows or columns.
pub open spec fn sampled_lines(end: nat) -> nat
    decreases end,
{
    if end == 0 {
        0
    } else {
        sampled_lines((end - 1) as nat) + if (end - 1) % 4 == 0 {
            1nat
        } else {
            0nat
        }
    }
}

/// Gradient points in row `y` among sampled columns below `x_end`.
pub open spec fn row_gradients(rgba: Seq<u8>, w: int, y: int, x_end: nat) -> nat
    decreases x_end,
{
    if x_end == 0 {
        0
    } else {
        row_gradients(rgba, w, y, (x_end - 1) as nat) + if (x_end - 1) % 4 == 0 && gradient_at(
            rgba,
            w,
            x_end - 1,
            y,
        ) {
            1nat
        } else {
            0nat
        }
    }
}

/// Gradient points of the sampled grid in rows below `y_end`; columns stop one
/// short of the right edge, rows one short of the bottom.
pub open spec fn grid_gradients(rgba: Seq<u8>, w: nat, y_end: nat) -> nat
    decreases y_end,
{
    if y_end == 0 {
        0
    } else {
        grid_gradients(rgba, w, (y_end - 1) as nat) + if (y_end - 1) % 4 == 0 {
            row_gradients(rgba, w as int, y_end - 1, less_one(w))
        } else {
            0nat
        }
    }
}

pub open spec fn less_one(v: nat) -> nat {
    if v > 0 { (v - 1) as nat } else { 0 }
}

/// The gradient test: more than a tenth of the sampled distances (two per grid
/// point) belong to gradient points. The grid has `ceil((h - 1) / 4)` rows and
/// `ceil((w - 1) / 4)` columns.
pub open spec fn has_gradient_signal(rgba: Seq<u8>, w: nat, h: nat) -> bool {
    let points = ((less_one(h) + 3) / 4) * ((less_one(w) + 3) / 4);
    grid_gradients(rgba, w, less_one(h)) > (2 * points) / 10
}

proof fn lemma_sampled_lines(end: nat)
    ensures
        sampled_lines(end) == (end + 3) / 4,
    decreases end,
{
    if end > 0 {
        lemma_sampled_lines((end - 1) as nat);
    }
}

/// `keys` holds the `count` most frequent colours of the first `n` pixels (all of
/// them when fewer are present), each once, from most to least frequent.
pub open spec fn is_top_colors(rgba: Seq<u8>, n: nat, count: nat, keys: Seq<u32>) -> bool {
    let present = present_keys(rgba, n);
    &&& keys.len() == (if count < present.len() { count } else { present.len() })
    &&& keys.no_duplicates()
    &&& forall|i: int| 0 <= i < keys.len() ==> present.contains(#[trigger] keys[i])
    &&& forall|i: int, j: int|
        0 <= i < j < keys.len() ==> frequency(rgba, #[trigger] keys[i], n) >= frequency(
            rgba,
            #[trigger] keys[j],
            n,
        )
    &&& forall|key: u32, i: int|
        #[trigger] present.contains(key) && !keys.contains(key) && 0 <= i < keys.len()
            ==> frequency(rgba, key, n) <= frequency(rgba, #[trigger] keys[i], n)
}

/// The packed colour of an (R, G, B) triple.
pub open spec fn triple_key(c: [u8; 3]) -> u32 {
    color_key(c[0], c[1], c[2])
}

/// The packed keys of a sequence of colours.
pub open spec fn keys_of(colors: Seq<[u8; 3]>) -> Seq<u32> {
    colors.map_values(|c: [u8; 3]| triple_key(c))
}

proof fn lemma_sampled_keys_grow(rgba: Seq<u8>, step: nat, j: nat, k: nat)
    requires
        j <= k,
        step > 0,
    ensures
        sampled_keys(rgba, step, j).finite(),
        sampled_keys(rgba, step, k).finite(),
        sampled_keys(rgba, step, j).subset_of(sampled_keys(rgba, step, k)),
    decreases k,
{
    if k > j {
        lemma_sampled_keys_grow(rgba, step, j, (k - 1) as nat);
    } else if k > 0 {
        lemma_sampled_keys_grow(rgba, step, (k - 1) as nat, (k - 1) as nat);
    }
}

fn key_of(rgba: &Vec<u8>, i: usize) -> (r: u32)
    requires
        4 * i + 3 < rgba@.len() <= usize::MAX,
    ensures
        r == key_at(rgba@, i as int),
        r < 0x1000000,
{
    rgba[4 * i] as u32 * 65536 + rgba[4 * i + 1] as u32 * 256 + rgba[4 * i + 2] as u32
}

/// Whether any of the `pixels` pixels of an RGBA buffer is below full opacity.
pub fn has_alpha_channel(rgba: &Vec<u8>, pixels: usize) -> (r: bool)
    requires
        rgba@.len() == 4 * pixels,
    ensures
        r == any_translucent(rgba@, pixels as int),
{
    let n = rgba.len() / 4;
    let mut i: usize = 0;
    while i < n
        invariant
            rgba@.len() == 4 * pixels,
            4 * pixels <= usize::MAX,
            n == pixels,
            i <= pixels,
            !any_translucent(rgba@, i as int),
        decreases pixels - i,
    {
        if rgba[4 * i + 3] < 255 {
            return true;
        }
        i = i + 1;
    }
    false
}

/// Counts the distinct colours among sampled pixels: every `sample_step`-th pixel
/// is inspected, and counting stops once `max_sample` colours have been seen.
pub fn count_unique_colors(rgba: &Vec<u8>, pixels: usize, max_sample: usize) -> (r: usize)
    requires
        rgba@.len() == 4 * pixels,
        max_sample > 0,
    ensures
        r == sampled_color_count(rgba@, pixels as nat, max_sample as nat),
        r <= max_sample,
{
    let mut colors: HashSet<u32> = HashSet::new();
    let q = pixels / max_sample;
    let step: usize = if q > 1 { q } else { 1 };
    let ghost g_step = step as nat;
    assert(g_step == sample_step(pixels as nat, max_sample as nat));
    let n = rgba.len() / 4;
    let mut i: usize = 0;
    while i < n
        invariant
            rgba@.len() == 4 * pixels,
            rgba@.len() <= usize::MAX,
            n == pixels,
            i <= pixels,
            step == g_step,
            g_step == sample_step(pixels as nat, max_sample as nat),
            g_step > 0,
            colors@ == sampled_keys(rgba@, g_step, i as nat),
            colors@.len() < max_sample,
        decreases pixels - i,
    {
        proof {
            lemma_sampled_keys_grow(rgba@, g_step, i as nat, i as nat);
        }
        if i % step == 0 {
            let key = key_of(rgba, i);
            colors.insert(key);
            assert(colors@ == sampled_keys(rgba@, g_step, (i + 1) as nat));
            if colors.len() >= max_sample {
                proof {
                    lemma_sampled_keys_grow(rgba@, g_step, (i + 1) as nat, pixels as nat);
                    vstd::set_lib::lemma_len_subset(
                        sampled_keys(rgba@, g_step, (i + 1) as nat),
                        sampled_keys(rgba@, g_step, pixels as nat),
                    );
                    assert(colors@.len() == max_sample);
                    assert(sampled_keys(rgba@, g_step, pixels as nat).len() >= max_sample);
                }
                return max_sample;
            }
        }
        i = i + 1;
    }
    colors.len()
}

fn squared_distance_of(rgba: &Vec<u8>, a: usize, b: usize) -> (r: u32)
    requires
        4 * a + 3 < rgba@.len() <= usize::MAX,
        4 * b + 3 < rgba@.len(),
    ensures
        r == squared_distance(rgba@, a as int, b as int),
{
    let dr = rgba[4 * a] as i32 - rgba[4 * b] as i32;
    let dg = rgba[4 * a + 1] as i32 - rgba[4 * b + 1] as i32;
    let db = rgba[4 * a + 2] as i32 - rgba[4 * b + 2] as i32;
    assert(dr * dr <= 65025 && dg * dg <= 65025 && db * db <= 65025) by (nonlinear_arith)
        requires -255 <= dr <= 255, -255 <= dg <= 255, -255 <= db <= 255;
    assert(0 <= dr * dr && 0 <= dg * dg && 0 <= db * db) by (nonlinear_arith);
    (dr * dr + dg * dg + db * db) as u32
}

/// Gradient points along sampled row `y`, and the number of sampled columns.
fn row_scan(rgba: &Vec<u8>, width: u32, height: u32, y: u32) -> (r: (u64, u64))
    requires
        rgba@.len() == 4 * (width * height),
        rgba@.len() <= usize::MAX,
        y + 1 < height,
    ensures
        r.0 == row_gradients(rgba@, width as int, y as int, less_one(width as nat)),
        r.1 == sampled_lines(less_one(width as nat)),
        r.0 <= r.1,
        r.1 <= width,
{
    let wm: u32 = if width > 0 { width - 1 } else { 0 };
    let mut x: u32 = 0;
    let mut grads: u64 = 0;
    let mut cols: u64 = 0;
    while x < wm
        invariant
            rgba@.len() == 4 * (width * height),
            4 * (width * height) <= usize::MAX,
            y + 1 < height,
            wm == less_one(width as nat),
            x <= wm,
            grads == row_gradients(rgba@, width as int, y as int, x as nat),
            cols == sampled_lines(x as nat),
            grads <= cols,
            cols <= x,
        decreases wm - x,
    {
        if x % 4 == 0 {
            proof {
                assert((y as int + 1) * width + x + 1 < width * height) by (nonlinear_arith)
                    requires y + 1 < height, x + 1 < width;
                assert((y as int + 1) * width == y * width + width) by (nonlinear_arith);
            }
            let p = y as usize * width as usize + x as usize;
            let d1 = squared_distance_of(rgba, p, p + 1);
            let d2 = squared_distance_of(rgba, p, p + width as usize);
            if d1 > 100 || d2 > 100 {
                grads = grads + 1;
            }
            cols = cols + 1;
        }
        x = x + 1;
    }
    (grads, cols)
}

/// Walks every fourth row and column and reports whether the image shows gradients.
pub fn analyze_complexity(rgba: &Vec<u8>, width: u32, height: u32) -> (r: bool)
    requires
        rgba@.len() == 4 * (width * height),
        4 * (width * height) <= usize::MAX,
    ensures
        r == has_gradient_signal(rgba@, width as nat, height as nat),
{
    let hm: u32 = if height > 0 { height - 1 } else { 0 };
    let ghost wm = less_one(width as nat);
    let mut y: u32 = 0;
    let mut gradient_pixels: u64 = 0;
    let mut sample_points: u64 = 0;
    assert(sampled_lines(0) == 0);
    assert(0 * sampled_lines(wm) == 0);
    while y < hm
        invariant
            rgba@.len() == 4 * (width * height),
            4 * (width * height) <= usize::MAX,
            hm == less_one(height as nat),
            wm == less_one(width as nat),
            y <= hm,
            gradient_pixels == grid_gradients(rgba@, width as nat, y as nat),
            sample_points == sampled_lines(y as nat) * sampled_lines(wm),
            gradient_pixels <= sample_points,
            sample_points <= y * width,
        decreases hm - y,
    {
        if y % 4 == 0 {
            let (g, c) = row_scan(rgba, width, height, y);
            proof {
                assert(sample_points + c == (sampled_lines(y as nat) + 1) * sampled_lines(wm))
                    by (nonlinear_arith)
                    requires sample_points == sampled_lines(y as nat) * sampled_lines(wm),
                        c == sampled_lines(wm);
                assert((y as int + 1) * width == y * width + width) by (nonlinear_arith);
                assert((y as int + 1) * width <= 0xffff_ffffu64 * 0xffff_ffffu64) by (nonlinear_arith)
                    requires y + 1 <= 0xffff_ffffu64, width <= 0xffff_ffffu64;
            }
            gradient_pixels = gradient_pixels + g;
            sample_points = sample_points + c;
        } else {
            proof {
                assert((y as int + 1) * width == y * width + width) by (nonlinear_arith);
            }
        }
        y = y + 1;
    }
    proof {
        lemma_sampled_lines(hm as nat);
        lemma_sampled_lines(wm);
    }
    assert((2 * sample_points) / 10 == sample_points / 5);
    gradient_pixels > sample_points / 5
}

fn vec_contains(v: &Vec<u32>, key: u32) -> (r: bool)
    ensures
        r == v@.contains(key),
{
    let mut i: usize = 0;
    while i < v.len()
        invariant
            i <= v.len(),
            forall|j: int| 0 <= j < i ==> v@[j] != key,
        decreases v.len() - i,
    {
        if v[i] == key {
            return true;
        }
        i = i + 1;
    }
    false
}

/// Frequency of every colour of the first `pixels` pixels, and the distinct
/// colours in order of first appearance.
fn color_frequencies(rgba: &Vec<u8>, pixels: usize) -> (r: (HashMap<u32, u64>, Vec<u32>))
    requires
        rgba@.len() == 4 * pixels,
    ensures
        r.1@.no_duplicates(),
        forall|k: u32| #[trigger] r.1@.contains(k) <==> present_keys(rgba@, pixels as nat).contains(k),
        forall|k: u32| #[trigger] r.0@.contains_key(k) <==> r.1@.contains(k),
        forall|k: u32| r.0@.contains_key(k) ==> #[trigger] r.0@[k] == frequency(rgba@, k, pixels as nat),
        forall|k: u32| r.1@.contains(k) ==> k < 0x1000000,
{
    let n = rgba.len() / 4;
    let mut counts: HashMap<u32, u64> = HashMap::new();
    let mut order: Vec<u32> = Vec::new();
    let mut i: usize = 0;
    while i < n
        invariant
            n == pixels,
            rgba@.len() == 4 * pixels,
            4 * pixels <= usize::MAX,
            i <= pixels,
            order@.no_duplicates(),
            forall|k: u32| #[trigger] order@.contains(k) <==> present_keys(rgba@, i as nat).contains(k),
            forall|k: u32| #[trigger] counts@.contains_key(k) <==> order@.contains(k),
            forall|k: u32| counts@.contains_key(k) ==> #[trigger] counts@[k] == frequency(rgba@, k, i as nat),
            forall|k: u32| counts@.contains_key(k) ==> #[trigger] counts@[k] <= i,
            forall|k: u32| order@.contains(k) ==> k < 0x1000000,
        decreases pixels - i,
    {
        let key = key_of(rgba, i);
        let ghost old_counts = counts@;
        let ghost old_order = order@;
        match counts.get(&key) {
            Some(c) => {
                let c1 = *c + 1;
                counts.insert(key, c1);
                assert(order@.contains(key));
                assert(order@ == old_order);
            },
            None => {
                counts.insert(key, 1);
                order.push(key);
                assert(order@[order@.len() - 1] == key);
                assert(order@ == old_order.push(key));
                proof {
                    assert forall|a: int, b: int| 0 <= a < b < order@.len() implies order@[a] != order@[b] by {
                        if b == order@.len() - 1 {
                            assert(old_order.contains(old_order[a]));
                        }
                    }
                }
            },
        }
        proof {
            assert forall|k: u32| #[trigger] order@.contains(k) implies old_order.contains(k) || k == key by {
                let idx = choose|j: int| 0 <= j < order@.len() && order@[j] == k;
                if idx < old_order.len() {
                    assert(old_order[idx] == k);
                }
            }
            assert forall|k: u32| old_order.contains(k) implies #[trigger] order@.contains(k) by {
                let idx = choose|j: int| 0 <= j < old_order.len() && old_order[j] == k;
                assert(order@[idx] == k);
            }
            assert forall|k: u32| #[trigger] order@.contains(k) <==> present_keys(rgba@, (i + 1) as nat).contains(k) by {
                if order@.contains(k) && !old_order.contains(k) {
                    assert(k == key);
                }
                if k == key {
                    assert(order@.contains(key) || old_order.contains(key));
                }
            }
            assert forall|k: u32| counts@.contains_key(k) implies #[trigger] counts@[k] == frequency(rgba@, k, (i + 1) as nat) by {
                assert(frequency(rgba@, k, (i + 1) as nat) == frequency(rgba@, k, i as nat) + if key_at(rgba@, i as int) == k { 1nat } else { 0nat });
                if k != key {
                    assert(old_counts.contains_key(k));
                } else if !old_counts.contains_key(k) {
                    assert(!present_keys(rgba@, i as nat).contains(k));
                    lemma_absent_frequency(rgba@, k, i as nat);
                }
            }
        }
        i = i + 1;
    }
    (counts, order)
}

proof fn lemma_absent_frequency(rgba: Seq<u8>, key: u32, k: nat)
    requires
        !present_keys(rgba, k).contains(key),
    ensures
        frequency(rgba, key, k) == 0,
    decreases k,
{
    if k > 0 {
        lemma_absent_frequency(rgba, key, (k - 1) as nat);
    }
}

/// The most frequent colour of `order` not yet in `top`, the earliest one on ties.
fn most_frequent_unpicked(
    counts: &HashMap<u32, u64>,
    order: &Vec<u32>,
    top: &Vec<u32>,
    freq: Ghost<spec_fn(u32) -> nat>,
) -> (r: u32)
    requires
        forall|k: u32| #[trigger] counts@.contains_key(k) <==> order@.contains(k),
        forall|k: u32| counts@.contains_key(k) ==> #[trigger] counts@[k] == freq@(k),
        exists|k: u32| order@.contains(k) && !top@.contains(k),
    ensures
        order@.contains(r),
        !top@.contains(r),
        forall|k: u32| order@.contains(k) && !top@.contains(k) ==> #[trigger] freq@(k) <= freq@(r),
{
    let mut best: u32 = 0;
    let mut best_freq: u64 = 0;
    let mut found = false;
    let mut j: usize = 0;
    while j < order.len()
        invariant
            j <= order@.len(),
            forall|k: u32| #[trigger] counts@.contains_key(k) <==> order@.contains(k),
            forall|k: u32| counts@.contains_key(k) ==> #[trigger] counts@[k] == freq@(k),
            found ==> order@.contains(best) && !top@.contains(best) && best_freq == freq@(best),
            forall|a: int| 0 <= a < j && !top@.contains(#[trigger] order@[a]) ==> found && freq@(order@[a]) <= best_freq,
        decreases order@.len() - j,
    {
        let k = order[j];
        assert(order@.contains(k));
        if !vec_contains(top, k) {
            match counts.get(&k) {
                Some(f) => {
                    if !found || *f > best_freq {
                        best = k;
                        best_freq = *f;
                        found = true;
                    }
                },
                None => {},
            }
        }
        j = j + 1;
    }
    proof {
        let w = choose|k: u32| order@.contains(k) && !top@.contains(k);
        let a = choose|a: int| 0 <= a < order@.len() && order@[a] == w;
        assert(!top@.contains(order@[a]));
        assert forall|k: u32| order@.contains(k) && !top@.contains(k) implies #[trigger] freq@(k) <= freq@(best) by {
            let b = choose|b: int| 0 <= b < order@.len() && order@[b] == k;
            assert(!top@.contains(order@[b]));
        }
    }
    best
}

/// The keys of the `count` most frequent colours, most frequent first.
fn top_color_keys(rgba: &Vec<u8>, pixels: usize, count: usize) -> (r: Vec<u32>)
    requires
        rgba@.len() == 4 * pixels,
    ensures
        is_top_colors(rgba@, pixels as nat, count as nat, r@),
        forall|i: int| 0 <= i < r@.len() ==> #[trigger] r@[i] < 0x1000000,
{
    let (counts, order) = color_frequencies(rgba, pixels);
    let ghost n = pixels as nat;
    let ghost present = present_keys(rgba@, n);
    let ghost freq = |k: u32| frequency(rgba@, k, n);
    proof {
        order@.unique_seq_to_set();
        assert(order@.to_set() =~= present);
    }
    let mut top: Vec<u32> = Vec::new();
    while top.len() < count && top.len() < order.len()
        invariant
            order@.no_duplicates(),
            order@.len() == present.len(),
            present == present_keys(rgba@, n),
            freq == (|k: u32| frequency(rgba@, k, n)),
            forall|k: u32| #[trigger] order@.contains(k) <==> present.contains(k),
            forall|k: u32| #[trigger] counts@.contains_key(k) <==> order@.contains(k),
            forall|k: u32| counts@.contains_key(k) ==> #[trigger] counts@[k] == frequency(rgba@, k, n),
            forall|k: u32| order@.contains(k) ==> k < 0x1000000,
            top@.len() <= count,
            top@.len() <= order@.len(),
            top@.no_duplicates(),
            forall|i: int| 0 <= i < top@.len() ==> present.contains(#[trigger] top@[i]),
            forall|i: int, j: int|
                0 <= i < j < top@.len() ==> frequency(rgba@, #[trigger] top@[i], n) >= frequency(rgba@, #[trigger] top@[j], n),
            forall|key: u32, i: int|
                #[trigger] present.contains(key) && !top@.contains(key) && 0 <= i < top@.len()
                    ==> frequency(rgba@, key, n) <= frequency(rgba@, #[trigger] top@[i], n),
        decreases order@.len() - top@.len(),
    {
        proof {
            if forall|k: u32| order@.contains(k) ==> top@.contains(k) {
                top@.unique_seq_to_set();
                order@.unique_seq_to_set();
                vstd::seq_lib::seq_to_set_is_finite(top@);
                assert forall|k: u32| order@.to_set().contains(k) implies top@.to_set().contains(k) by {
                    assert(order@.contains(k));
                }
                assert(order@.to_set().subset_of(top@.to_set()));
                vstd::set_lib::lemma_len_subset(order@.to_set(), top@.to_set());
                assert(false);
            }
        }
        let best = most_frequent_unpicked(&counts, &order, &top, Ghost(freq));
        let ghost old_top = top@;
        top.push(best);
        proof {
            assert forall|a: int, b: int| 0 <= a < b < top@.len() implies top@[a] != top@[b] by {
                if b == top@.len() - 1 {
                    assert(old_top.contains(old_top[a]));
                }
            }
            assert forall|k: u32| #[trigger] top@.contains(k) implies old_top.contains(k) || k == best by {
                let idx = choose|j: int| 0 <= j < top@.len() && top@[j] == k;
                if idx < old_top.len() {
                    assert(old_top[idx] == k);
                }
            }
            assert forall|i: int, j: int| 0 <= i < j < top@.len() implies frequency(rgba@, #[trigger] top@[i], n) >= frequency(rgba@, #[trigger] top@[j], n) by {
                if j == top@.len() - 1 {
                    assert(present.contains(best));
                    assert(!old_top.contains(best));
                    assert(old_top[i] == top@[i]);
                }
            }
            assert forall|key: u32, i: int|
                #[trigger] present.contains(key) && !top@.contains(key) && 0 <= i < top@.len()
                    implies frequency(rgba@, key, n) <= frequency(rgba@, #[trigger] top@[i], n) by {
                assert(!old_top.contains(key)) by {
                    if old_top.contains(key) {
                        let idx = choose|j: int| 0 <= j < old_top.len() && old_top[j] == key;
                        assert(top@[idx] == key);
                    }
                }
                assert(order@.contains(key));
                if i < old_top.len() {
                    assert(old_top[i] == top@[i]);
                } else {
                    assert(freq(key) <= freq(best));
                }
            }
        }
    }
    top
}

fn key_to_triple(key: u32) -> (r: [u8; 3])
    requires
        key < 0x1000000,
    ensures
        triple_key(r) == key,
{
    let r = [(key / 65536) as u8, ((key / 256) % 256) as u8, (key % 256) as u8];
    assert(r[0] == key / 65536 && r[1] == (key / 256) % 256 && r[2] == key % 256);
    r
}

/// The `count` most frequent colours of the first `pixels` pixels, most frequent first.
pub fn get_dominant_colors(rgba: &Vec<u8>, pixels: usize, count: usize) -> (r: Vec<[u8; 3]>)
    requires
        rgba@.len() == 4 * pixels,
    ensures
        is_top_colors(rgba@, pixels as nat, count as nat, keys_of(r@)),
{
    let keys = top_color_keys(rgba, pixels, count);
    let mut out: Vec<[u8; 3]> = Vec::new();
    let mut i: usize = 0;
    while i < keys.len()
        invariant
            i <= keys@.len(),
            forall|j: int| 0 <= j < keys@.len() ==> #[trigger] keys@[j] < 0x1000000,
            out@.len() == i,
            keys_of(out@) == keys@.take(i as int),
        decreases keys@.len() - i,
    {
        let t = key_to_triple(keys[i]);
        let ghost old_out = out@;
        out.push(t);
        proof {
            assert forall|j: int| 0 <= j < old_out.len() implies out@[j] == old_out[j] by {}
            assert forall|j: int| 0 <= j < old_out.len() implies triple_key(old_out[j]) == keys@[j] by {
                assert(keys_of(old_out)[j] == keys@.take(i as int)[j]);
            }
        }
        i = i + 1;
        assert(keys_of(out@) =~= keys@.take(i as int));
    }
    assert(keys@.take(keys@.len() as int) =~= keys@);
    out
}

/// What the analyzer reports about an image.
pub struct ImageAnalysis {
    pub has_transparency: bool,
    pub color_count: usize,
    pub has_gradients: bool,
    pub is_photograph: bool,
    pub dominant_colors: Vec<[u8; 3]>,
}

/// Some pixel of the image is below full opacity.
pub open spec fn image_is_translucent(img: RasterImage) -> bool {
    any_translucent(img.rgba_samples(), img.pixel_count() as int)
}

/// The sampled, budget-capped colour count of an image.
pub open spec fn image_color_count(img: RasterImage) -> nat {
    sampled_color_count(img.rgba_samples(), img.pixel_count(), SAMPLE_BUDGET as nat)
}

pub open spec fn image_has_gradients(img: RasterImage) -> bool {
    has_gradient_signal(img.rgba_samples(), img.width as nat, img.height as nat)
}

/// Photographs are the images with many colours and gradients.
pub open spec fn photo_signal(color_count: nat, has_gradients: bool) -> bool {
    color_count > PHOTO_COLOR_THRESHOLD && has_gradients
}

/// `a` is the analysis of `img`; its dominant colours are the top five.
pub open spec fn describes(a: ImageAnalysis, img: RasterImage) -> bool {
    &&& a.has_transparency == image_is_translucent(img)
    &&& a.color_count == image_color_count(img)
    &&& a.has_gradients == image_has_gradients(img)
    &&& a.is_photograph == photo_signal(a.color_count as nat, a.has_gradients)
    &&& is_top_colors(
        img.rgba_samples(),
        img.pixel_count(),
        5,
        keys_of(a.dominant_colors@),
    )
}

/// The selection rules, first match wins.
pub open spec fn chosen_algorithm(has_transparency: bool, is_photograph: bool, color_count: nat) -> CompressionAlgorithm {
    if !has_transparency && is_photograph {
        CompressionAlgorithm::MozJpeg
    } else if has_transparency && color_count > PALETTE_LIMIT {
        CompressionAlgorithm::WebPLossy
    } else if !is_photograph && color_count <= PALETTE_LIMIT {
        CompressionAlgorithm::OxiPng
    } else if has_transparency {
        CompressionAlgorithm::WebPLossy
    } else {
        CompressionAlgorithm::WebPLossy
    }
}

/// The algorithm that automatic selection picks for an image.
pub open spec fn auto_algorithm(img: RasterImage) -> CompressionAlgorithm {
    let c = image_color_count(img);
    chosen_algorithm(image_is_translucent(img), photo_signal(c, image_has_gradients(img)), c)
}

impl SmartCompressor {
    /// Analyzes an image: transparency, sampled colour count, gradients, and the
    /// five dominant colours.
    pub fn analyze_image(&self, image: &RasterImage) -> (r: ImageAnalysis)
        requires
            image.wf(),
        ensures
            describes(r, *image),
            r.color_count <= SAMPLE_BUDGET,
            r.dominant_colors@.len() <= 5,
    {
        let rgba = image.to_rgba8();
        let n = image.pixels();
        let has_transparency = has_alpha_channel(&rgba, n);
        let color_count = count_unique_colors(&rgba, n, SAMPLE_BUDGET);
        let has_gradients = analyze_complexity(&rgba, image.width, image.height);
        let is_photograph = color_count > PHOTO_COLOR_THRESHOLD && has_gradients;
        let dominant_colors = get_dominant_colors(&rgba, n, 5);
        ImageAnalysis { has_transparency, color_count, has_gradients, is_photograph, dominant_colors }
    }

    /// Maps an analysis to an algorithm by the selection rules.
    pub fn select_best_algorithm(&self, analysis: &ImageAnalysis) -> (r: CompressionAlgorithm)
        ensures
            r == chosen_algorithm(
                analysis.has_transparency,
                analysis.is_photograph,
                analysis.color_count as nat,
            ),
    {
        if !analysis.has_transparency && analysis.is_photograph {
            CompressionAlgorithm::MozJpeg
        } else if analysis.has_transparency && analysis.color_count > PALETTE_LIMIT {
            CompressionAlgorithm::WebPLossy
        } else if !analysis.is_photograph && analysis.color_count <= PALETTE_LIMIT {
            CompressionAlgorithm::OxiPng
        } else if analysis.has_transparency {
            CompressionAlgorithm::WebPLossy
        } else {
            CompressionAlgorithm::WebPLossy
        }
    }
}

/// An image whose pixels are all fully opaque is analyzed as having no transparency.
pub proof fn opaque_image_has_no_transparency(img: RasterImage, a: ImageAnalysis)
    requires
        img.wf(),
        forall|i: int| 0 <= i < img.pixel_count() ==> #[trigger] img.channel(i, 3) == 255,
        describes(a, img),
    ensures
        !a.has_transparency,
{
    assert forall|i: int| 0 <= i < img.pixel_count() implies !(#[trigger] img.rgba_samples()[4 * i + 3] < 255) by {
        assert((4 * i + 3) / 4 == i && (4 * i + 3) % 4 == 3);
        assert(img.channel(i, 3) == 255);
    }
}

/// The dominant colours are at most `count`, and the first is at least as
/// frequent as every other.
pub proof fn dominant_colors_are_ordered(rgba: Seq<u8>, n: nat, count: nat, keys: Seq<u32>)
    requires
        is_top_colors(rgba, n, count, keys),
    ensures
        keys.len() <= count,
        forall|i: int| 0 < i < keys.len() ==> frequency(rgba, keys[0], n) >= #[trigger] frequency(rgba, keys[i], n),
{
}

/// The reported colour count never exceeds the sampling budget.
pub proof fn color_count_within_budget(rgba: Seq<u8>, n: nat, budget: nat)
    ensures
        sampled_color_count(rgba, n, budget) <= budget,
{
}

/// Selection is a function of the analysis: two analyses that agree on
/// transparency, photograph signal and colour count select the same algorithm.
pub proof fn selection_is_deterministic(a: ImageAnalysis, b: ImageAnalysis)
    requires
        a.has_transparency == b.has_transparency,
        a.is_photograph == b.is_photograph,
        a.color_count == b.color_count,
    ensures
        chosen_algorithm(a.has_transparency, a.is_photograph, a.color_count as nat)
            == chosen_algorithm(b.has_transparency, b.is_photograph, b.color_count as nat),
{
}

} // verus!
