use vstd::prelude::*;
use crate::color::{BUCKET_COUNT, ColorBucket, bucket_at, bucket_index};
use crate::fraction::Fraction;
use crate::histogram::ColorHistogram;

verus! {

/// Material label of a sprite.
#[derive(Clone, Copy, Debug, PartialEq, Eq, Structural)]
pub enum MaterialType {
    Wood,
    Stone,
    Grass,
    Water,
    Metal,
    Glass,
    Organic,
    Unknown,
}

/// Confidence of a classification as an exact fraction `num / den`.
#[derive(Clone, Copy, Debug, PartialEq, Eq, Structural)]
pub struct Confidence {
    pub num: u128,
    pub den: u128,
}

/// Lower-case name of a material.
pub open spec fn material_name(m: MaterialType) -> Seq<char> {
    match m {
        MaterialType::Wood => "wood"@,
        MaterialType::Stone => "stone"@,
        MaterialType::Grass => "grass"@,
        MaterialType::Water => "water"@,
        MaterialType::Metal => "metal"@,
        MaterialType::Glass => "glass"@,
        MaterialType::Organic => "organic"@,
        MaterialType::Unknown => "unknown"@,
    }
}

/// The histogram bucket that carries the same name as a material, if any.
pub open spec fn material_bucket(m: MaterialType) -> Option<ColorBucket> {
    match m {
        MaterialType::Wood => Some(ColorBucket::Wood),
        MaterialType::Stone => Some(ColorBucket::Stone),
        MaterialType::Grass => Some(ColorBucket::Grass),
        MaterialType::Water => Some(ColorBucket::Water),
        MaterialType::Metal => Some(ColorBucket::Metal),
        MaterialType::Glass => Some(ColorBucket::Glass),
        MaterialType::Organic => Some(ColorBucket::Organic),
        MaterialType::Unknown => None,
    }
}

/// Confidence boost of a material, in tenths.
pub open spec fn boost_tenths(m: MaterialType) -> int {
    match m {
        MaterialType::Wood | MaterialType::Stone | MaterialType::Grass | MaterialType::Water => 2,
        MaterialType::Metal | MaterialType::Glass => 1,
        _ => 0,
    }
}

/// `d` is the first bucket, in canonical order, whose count is the largest
/// and non-zero.
pub open spec fn is_first_max(counts: Seq<u64>, d: int) -> bool {
    &&& 0 <= d < BUCKET_COUNT
    &&& counts[d] > 0
    &&& forall|j: int| 0 <= j < BUCKET_COUNT ==> counts[j] <= counts[d]
    &&& forall|j: int| 0 <= j < d ==> counts[j] < counts[d]
}

/// The dominant colour class of a histogram; none when it is empty.
pub open spec fn dominant_of(h: ColorHistogram) -> Option<ColorBucket> {
    if exists|d: int| is_first_max(h.counts@, d) {
        Some(bucket_at(choose|d: int| is_first_max(h.counts@, d)))
    } else {
        None
    }
}

/// Edge density above which a water-dominant sprite is glass: `15 / 100`.
pub open spec fn dense_for_glass(density: Fraction) -> bool {
    100 * density.num > 15 * density.den
}

/// Material of a dominant colour class, with the glass rule for water.
pub open spec fn material_of(dominant: Option<ColorBucket>, density: Fraction) -> MaterialType {
    match dominant {
        Some(ColorBucket::Water) => if dense_for_glass(density) {
            MaterialType::Glass
        } else {
            MaterialType::Water
        },
        Some(ColorBucket::Wood) => MaterialType::Wood,
        Some(ColorBucket::Stone) => MaterialType::Stone,
        Some(ColorBucket::Grass) => MaterialType::Grass,
        Some(ColorBucket::Metal) => MaterialType::Metal,
        Some(ColorBucket::Glass) => MaterialType::Glass,
        Some(ColorBucket::Organic) => MaterialType::Organic,
        _ => MaterialType::Unknown,
    }
}

/// Confidence: the frequency of the material's own bucket plus its boost,
/// capped at one, as `(num, den)`; `1 / 2` when the bucket has no entry.
pub open spec fn confidence_of(h: ColorHistogram, m: MaterialType) -> (int, int) {
    match material_bucket(m) {
        Some(b) => if h.count_of(b) > 0 {
            let num = 10 * h.count_of(b) + boost_tenths(m) * h.total;
            let den = 10 * h.total;
            (if num < den { num } else { den }, den)
        } else {
            (1, 2)
        },
        None => (1, 2),
    }
}

pub proof fn lemma_first_max_unique(counts: Seq<u64>, d1: int, d2: int)
    requires
        is_first_max(counts, d1),
        is_first_max(counts, d2),
    ensures
        d1 == d2,
{
}

impl MaterialType {
    /// Lower-case name of the material.
    pub fn to_string(&self) -> (r: String)
        ensures
            r@ == material_name(*self),
    {
        match self {
            MaterialType::Wood => String::from_str("wood"),
            MaterialType::Stone => String::from_str("stone"),
            MaterialType::Grass => String::from_str("grass"),
            MaterialType::Water => String::from_str("water"),
            MaterialType::Metal => String::from_str("metal"),
            MaterialType::Glass => String::from_str("glass"),
            MaterialType::Organic => String::from_str("organic"),
            MaterialType::Unknown => String::from_str("unknown"),
        }
    }
}

/// The first bucket with the largest non-zero count; ties go to the earlier
/// bucket of the canonical order.
pub fn dominant_class(h: &ColorHistogram) -> (r: Option<ColorBucket>)
    requires
        h.wf(),
    ensures
        r == dominant_of(*h),
        r matches Some(b) ==> is_first_max(h.counts@, bucket_index(b)),
        r is None ==> forall|j: int| 0 <= j < BUCKET_COUNT ==> h.counts@[j] == 0,
{
    let mut best: usize = 0;
    let mut best_count: u64 = 0;
    let mut k: usize = 0;
    while k < BUCKET_COUNT
        invariant
            h.wf(),
            0 <= k <= BUCKET_COUNT,
            best < BUCKET_COUNT,
            best_count == 0 ==> forall|j: int| 0 <= j < k ==> h.counts@[j] == 0,
            best_count > 0 ==> best < k && best_count == h.counts@[best as int] && (forall|j: int|
                0 <= j < k ==> h.counts@[j] <= best_count) && (forall|j: int|
                0 <= j < best ==> h.counts@[j] < best_count),
        decreases BUCKET_COUNT - k,
    {
        if h.counts[k] > best_count {
            best = k;
            best_count = h.counts[k];
        }
        k += 1;
    }
    if best_count == 0 {
        assert(!exists|d: int| is_first_max(h.counts@, d));
        None
    } else {
        let b = ColorBucket::from_index(best);
        proof {
            assert(is_first_max(h.counts@, best as int));
            let d = choose|d: int| is_first_max(h.counts@, d);
            lemma_first_max_unique(h.counts@, d, best as int);
        }
        Some(b)
    }
}

/// Material of a histogram: the dominant colour class, where a
/// water-dominant sprite with edge density above `15 / 100` is glass.
pub fn classify_material(h: &ColorHistogram, edge_density: Fraction) -> (m: MaterialType)
    requires
        h.wf(),
    ensures
        m == material_of(dominant_of(*h), edge_density),
{
    match dominant_class(h) {
        Some(ColorBucket::Water) => {
            if (edge_density.num as u128) * 100 > (edge_density.den as u128) * 15 {
                MaterialType::Glass
            } else {
                MaterialType::Water
            }
        },
        Some(ColorBucket::Wood) => MaterialType::Wood,
        Some(ColorBucket::Stone) => MaterialType::Stone,
        Some(ColorBucket::Grass) => MaterialType::Grass,
        Some(ColorBucket::Metal) => MaterialType::Metal,
        Some(ColorBucket::Glass) => MaterialType::Glass,
        Some(ColorBucket::Organic) => MaterialType::Organic,
        _ => MaterialType::Unknown,
    }
}

/// Confidence in a material label, always within `[0, 1]`.
pub fn calculate_confidence(h: &ColorHistogram, m: MaterialType) -> (c: Confidence)
    requires
        h.wf(),
    ensures
        (c.num as int, c.den as int) == confidence_of(*h, m),
        c.den > 0,
        c.num <= c.den,
{
    let bucket = match m {
        MaterialType::Wood => Some(ColorBucket::Wood),
        MaterialType::Stone => Some(ColorBucket::Stone),
        MaterialType::Grass => Some(ColorBucket::Grass),
        MaterialType::Water => Some(ColorBucket::Water),
        MaterialType::Metal => Some(ColorBucket::Metal),
        MaterialType::Glass => Some(ColorBucket::Glass),
        MaterialType::Organic => Some(ColorBucket::Organic),
        MaterialType::Unknown => None,
    };
    let boost: u128 = match m {
        MaterialType::Wood | MaterialType::Stone | MaterialType::Grass | MaterialType::Water => 2,
        MaterialType::Metal | MaterialType::Glass => 1,
        _ => 0,
    };
    match bucket {
        Some(b) => {
            let count = h.count(b);
            if count > 0 {
                assert(0 <= bucket_index(b) < 8);
                let num = 10 * (count as u128) + boost * (h.total as u128);
                let den = 10 * (h.total as u128);
                Confidence { num: if num < den { num } else { den }, den }
            } else {
                Confidence { num: 1, den: 2 }
            }
        },
        None => Confidence { num: 1, den: 2 },
    }
}

} // verus!
