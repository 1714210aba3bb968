use vstd::prelude::*;
use crate::bounds::{ContentBounds, calculate_content_bounds, content_bounds};
use crate::color::abs_diff;
use crate::fraction::Fraction;
use crate::pixels::{
    HarvestError, blue, dims_ok, green, lemma_opaque_count_le, opaque, opaque_count, pixel_count,
    pixel_total, red, validate_dimensions,
};

verus! {

broadcast use vstd::std_specs::hash::group_hash_axioms;

/// Brown or gold, the colours of a chest.
pub open spec fn is_chest_color(r: u8, g: u8, b: u8) -> bool {
    (80 <= r <= 180 && 40 <= g <= 140 && b <= 80) || (160 <= r && 100 <= g <= 200 && b <= 100) || (
    200 <= r && 180 <= g <= 220 && b <= 100)
}

/// Green dominates red and blue.
pub open spec fn is_green_color(r: u8, g: u8, b: u8) -> bool {
    g > r && g > b
}

/// Red, green and blue are within 40 of each other in turn.
pub open spec fn is_gray_color(r: u8, g: u8, b: u8) -> bool {
    abs_diff(r, g) < 40 && abs_diff(g, b) < 40
}

/// Number of opaque pixels among the first `k` whose colour satisfies `p`.
pub open spec fn opaque_matching(px: Seq<u8>, k: nat, p: spec_fn(u8, u8, u8) -> bool) -> nat
    decreases k,
{
    if k == 0 {
        0
    } else {
        opaque_matching(px, (k - 1) as nat, p) + if opaque(px, k - 1) && p(
            red(px, k - 1),
            green(px, k - 1),
            blue(px, k - 1),
        ) {
            1nat
        } else {
            0nat
        }
    }
}

/// A colour packed as `r * 65536 + g * 256 + b`.
pub open spec fn color_key(r: u8, g: u8, b: u8) -> u32 {
    (r as int * 65536 + g as int * 256 + b as int) as u32
}

/// Packed colours of the opaque pixels among the first `k`.
pub open spec fn color_set(px: Seq<u8>, k: nat) -> Set<u32>
    decreases k,
{
    if k == 0 {
        Set::empty()
    } else if opaque(px, k - 1) {
        color_set(px, (k - 1) as nat).insert(
            color_key(red(px, k - 1), green(px, k - 1), blue(px, k - 1)),
        )
    } else {
        color_set(px, (k - 1) as nat)
    }
}

/// Number of distinct colours among the opaque pixels.
pub open spec fn distinct_colors(px: Seq<u8>, width: u32, height: u32) -> nat {
    color_set(px, pixel_count(width, height)).len()
}

/// `count / total` as `(num, den)`, `0 / 1` when `total` is zero.
pub open spec fn ratio_of(count: int, total: int) -> (int, int) {
    if total > 0 {
        (count, total)
    } else {
        (0, 1)
    }
}

pub open spec fn frac(f: Fraction) -> (int, int) {
    (f.num as int, f.den as int)
}

/// `a < b` for fractions with positive denominators.
pub open spec fn pair_lt(a: (int, int), b: (int, int)) -> bool {
    a.0 * b.1 < b.0 * a.1
}

/// Width over height lies in `[1/2, 2]`.
pub open spec fn balanced_aspect(width: u32, height: u32) -> bool {
    height > 0 && height <= 2 * width && width <= 2 * height
}

pub proof fn lemma_color_set(px: Seq<u8>, k: nat)
    ensures
        color_set(px, k).finite(),
        color_set(px, k).len() <= opaque_count(px, k),
    decreases k,
{
    if k > 0 {
        lemma_color_set(px, (k - 1) as nat);
    }
}

pub proof fn lemma_matching_le(px: Seq<u8>, k: nat, p: spec_fn(u8, u8, u8) -> bool)
    ensures
        opaque_matching(px, k, p) <= opaque_count(px, k),
    decreases k,
{
    if k > 0 {
        lemma_matching_le(px, (k - 1) as nat, p);
    }
}

/// Sprite triage result: colour ratios, content bounds and category flags.
#[derive(Clone, Copy, Debug)]
pub struct SpriteAnalysis {
    pub chest_probability: Fraction,
    pub is_chest: bool,
    pub content_bounds: ContentBounds,
    pub color_diversity: Fraction,
    pub green_ratio: Fraction,
    pub gray_ratio: Fraction,
    pub brown_gold_ratio: Fraction,
    pub is_character: bool,
    pub is_decoration: bool,
    pub is_material: bool,
}

/// Sprite triage by colour statistics, with its configuration. Only
/// `chest_threshold` decides a flag (`is_chest`); the decoration rule uses the
/// fixed limits `1/20`, `1/5` and `3/10`, and the other three thresholds are
/// carried as configuration for callers.
#[derive(Clone, Copy, Debug)]
pub struct HarvestScanner {
    pub chest_threshold: Fraction,
    pub green_threshold: Fraction,
    pub gray_threshold: Fraction,
    pub diversity_threshold: Fraction,
}

impl SpriteAnalysis {
    /// Whether this is the analysis of `px` under the scanner's thresholds.
    pub open spec fn describes(&self, px: Seq<u8>, width: u32, height: u32, s: HarvestScanner) -> bool {
        let n = pixel_count(width, height);
        let total = opaque_count(px, n) as int;
        let chest = ratio_of(opaque_matching(px, n, |r: u8, g: u8, b: u8| is_chest_color(r, g, b)) as int, total);
        let green = ratio_of(opaque_matching(px, n, |r: u8, g: u8, b: u8| is_green_color(r, g, b)) as int, total);
        let gray = ratio_of(opaque_matching(px, n, |r: u8, g: u8, b: u8| is_gray_color(r, g, b)) as int, total);
        let diversity = ratio_of(distinct_colors(px, width, height) as int, total);
        &&& frac(self.chest_probability) == chest
        &&& frac(self.brown_gold_ratio) == chest
        &&& frac(self.green_ratio) == green
        &&& frac(self.gray_ratio) == gray
        &&& frac(self.color_diversity) == diversity
        &&& self.content_bounds@ == content_bounds(px, width, height)
        &&& self.is_chest == pair_lt(frac(s.chest_threshold), chest)
        &&& self.is_character == (total > 20 && balanced_aspect(width, height) && distinct_colors(
            px,
            width,
            height,
        ) > 3)
        &&& self.is_decoration == (pair_lt((1, 20), diversity) || pair_lt((1, 5), green) || pair_lt(
            (3, 10),
            gray,
        ))
        &&& self.is_material == pair_lt(diversity, (1, 10))
    }
}

impl HarvestScanner {
    /// Scanner with the given thresholds; each one left out takes its default:
    /// chest `3/10`, green `1/5`, gray `3/10`, diversity `1/20`.
    pub fn new(
        chest_threshold: Option<Fraction>,
        green_threshold: Option<Fraction>,
        gray_threshold: Option<Fraction>,
        diversity_threshold: Option<Fraction>,
    ) -> (s: HarvestScanner)
        ensures
            s.chest_threshold == match chest_threshold {
                Some(f) => f,
                None => Fraction { num: 3, den: 10 },
            },
            s.green_threshold == match green_threshold {
                Some(f) => f,
                None => Fraction { num: 1, den: 5 },
            },
            s.gray_threshold == match gray_threshold {
                Some(f) => f,
                None => Fraction { num: 3, den: 10 },
            },
            s.diversity_threshold == match diversity_threshold {
                Some(f) => f,
                None => Fraction { num: 1, den: 20 },
            },
    {
        HarvestScanner {
            chest_threshold: match chest_threshold {
                Some(f) => f,
                None => Fraction { num: 3, den: 10 },
            },
            green_threshold: match green_threshold {
                Some(f) => f,
                None => Fraction { num: 1, den: 5 },
            },
            gray_threshold: match gray_threshold {
                Some(f) => f,
                None => Fraction { num: 3, den: 10 },
            },
            diversity_threshold: match diversity_threshold {
                Some(f) => f,
                None => Fraction { num: 1, den: 20 },
            },
        }
    }

    /// Analyses a validated buffer.
    pub fn analyze_sprite_internal(&self, pixels: &[u8], width: u32, height: u32) -> (a: SpriteAnalysis)
        requires
            dims_ok(pixels@, width, height),
        ensures
            a.describes(pixels@, width, height, *self),
    {
        let n = pixel_total(pixels, width, height);
        let ghost px = pixels@;
        let ghost chest_p = |r: u8, g: u8, b: u8| is_chest_color(r, g, b);
        let ghost green_p = |r: u8, g: u8, b: u8| is_green_color(r, g, b);
        let ghost gray_p = |r: u8, g: u8, b: u8| is_gray_color(r, g, b);
        let mut brown_gold: u64 = 0;
        let mut greens: u64 = 0;
        let mut grays: u64 = 0;
        let mut total: u64 = 0;
        let mut colors: std::collections::HashSet<u32> = std::collections::HashSet::new();
        let mut i: usize = 0;
        while i < n
            invariant
                px == pixels@,
                n == pixel_count(width, height),
                4 * n == pixels@.len(),
                4 * n <= usize::MAX,
                i <= n,
                total == opaque_count(px, i as nat),
                brown_gold == opaque_matching(px, i as nat, chest_p),
                greens == opaque_matching(px, i as nat, green_p),
                grays == opaque_matching(px, i as nat, gray_p),
                colors@ == color_set(px, i as nat),
                forall|r: u8, g: u8, b: u8| #[trigger] chest_p(r, g, b) == is_chest_color(r, g, b),
                forall|r: u8, g: u8, b: u8| #[trigger] green_p(r, g, b) == is_green_color(r, g, b),
                forall|r: u8, g: u8, b: u8| #[trigger] gray_p(r, g, b) == is_gray_color(r, g, b),
            decreases n - i,
        {
            proof {
                lemma_opaque_count_le(px, i as nat);
                lemma_matching_le(px, i as nat, chest_p);
                lemma_matching_le(px, i as nat, green_p);
                lemma_matching_le(px, i as nat, gray_p);
            }
            let base = 4 * i;
            let r = pixels[base];
            let g = pixels[base + 1];
            let b = pixels[base + 2];
            if pixels[base + 3] > 0 {
                total += 1;
                colors.insert((r as u32) * 65536 + (g as u32) * 256 + (b as u32));
                if (80 <= r && r <= 180 && 40 <= g && g <= 140 && b <= 80) || (160 <= r && 100 <= g
                    && g <= 200 && b <= 100) || (200 <= r && 180 <= g && g <= 220 && b <= 100) {
                    brown_gold += 1;
                }
                if g > r && g > b {
                    greens += 1;
                }
                let rg: u8 = if r >= g { r - g } else { g - r };
                let gb: u8 = if g >= b { g - b } else { b - g };
                if rg < 40 && gb < 40 {
                    grays += 1;
                }
            }
            i += 1;
        }
        proof {
            lemma_color_set(px, n as nat);
            lemma_opaque_count_le(px, n as nat);
        }
        let distinct = colors.len() as u64;
        let chest_probability = Fraction::ratio_or_zero(brown_gold, total);
        let green_ratio = Fraction::ratio_or_zero(greens, total);
        let gray_ratio = Fraction::ratio_or_zero(grays, total);
        let color_diversity = Fraction::ratio_or_zero(distinct, total);
        let aspect_ok = height > 0 && (height as u64) <= 2 * (width as u64) && (width as u64) <= 2
            * (height as u64);
        let is_character = total > 20 && aspect_ok && distinct > 3;
        let is_decoration = Fraction { num: 1, den: 20 }.lt(&color_diversity) || Fraction {
            num: 1,
            den: 5,
        }.lt(&green_ratio) || Fraction { num: 3, den: 10 }.lt(&gray_ratio);
        let is_material = color_diversity.lt(&Fraction { num: 1, den: 10 });
        let is_chest = self.chest_threshold.lt(&chest_probability);
        let bounds = calculate_content_bounds(pixels, width, height);
        SpriteAnalysis {
            chest_probability,
            is_chest,
            content_bounds: bounds,
            color_diversity,
            green_ratio,
            gray_ratio,
            brown_gold_ratio: chest_probability,
            is_character,
            is_decoration,
            is_material,
        }
    }

    /// Analyses a buffer, after checking its length.
    pub fn analyze_sprite(&self, pixels: &[u8], width: u32, height: u32) -> (r: Result<SpriteAnalysis, HarvestError>)
        ensures
            match r {
                Ok(a) => dims_ok(pixels@, width, height) && a.describes(pixels@, width, height, *self),
                Err(e) => !dims_ok(pixels@, width, height) && e == HarvestError::DimensionMismatch,
            },
    {
        match validate_dimensions(pixels, width, height) {
            Ok(()) => Ok(self.analyze_sprite_internal(pixels, width, height)),
            Err(e) => Err(e),
        }
    }
}

} // verus!
