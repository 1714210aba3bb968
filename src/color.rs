use vstd::prelude::*;

verus! {

/// Semantic colour label of one pixel, in canonical order.
#[derive(Clone, Copy, Debug, PartialEq, Eq, Structural)]
pub enum ColorBucket {
    Wood,
    Stone,
    Grass,
    Water,
    Metal,
    Glass,
    Organic,
    Other,
}

/// Which classification rules are active: the reduced set stops after water.
#[derive(Clone, Copy, Debug, PartialEq, Eq, Structural)]
pub enum RuleSet {
    Reduced,
    Full,
}

/// Number of colour buckets.
pub const BUCKET_COUNT: usize = 8;

/// Position of a bucket in the canonical order.
pub open spec fn bucket_index(b: ColorBucket) -> int {
    match b {
        ColorBucket::Wood => 0,
        ColorBucket::Stone => 1,
        ColorBucket::Grass => 2,
        ColorBucket::Water => 3,
        ColorBucket::Metal => 4,
        ColorBucket::Glass => 5,
        ColorBucket::Organic => 6,
        ColorBucket::Other => 7,
    }
}

/// Bucket at a position of the canonical order.
pub open spec fn bucket_at(k: int) -> ColorBucket {
    if k == 0 {
        ColorBucket::Wood
    } else if k == 1 {
        ColorBucket::Stone
    } else if k == 2 {
        ColorBucket::Grass
    } else if k == 3 {
        ColorBucket::Water
    } else if k == 4 {
        ColorBucket::Metal
    } else if k == 5 {
        ColorBucket::Glass
    } else if k == 6 {
        ColorBucket::Organic
    } else {
        ColorBucket::Other
    }
}

/// Lower-case name of a bucket.
pub open spec fn bucket_name(b: ColorBucket) -> Seq<char> {
    match b {
        ColorBucket::Wood => "wood"@,
        ColorBucket::Stone => "stone"@,
        ColorBucket::Grass => "grass"@,
        ColorBucket::Water => "water"@,
        ColorBucket::Metal => "metal"@,
        ColorBucket::Glass => "glass"@,
        ColorBucket::Organic => "organic"@,
        ColorBucket::Other => "other"@,
    }
}

pub open spec fn abs_diff(a: u8, b: u8) -> int {
    if a >= b {
        a - b
    } else {
        b - a
    }
}

/// Distance from neutral grey: `|r - g| + |g - b|`.
pub open spec fn gray_variance(r: u8, g: u8, b: u8) -> int {
    abs_diff(r, g) + abs_diff(g, b)
}

pub open spec fn is_wood(r: u8, g: u8, b: u8) -> bool {
    100 <= r <= 150 && 50 <= g <= 100 && 20 <= b <= 60
}

pub open spec fn is_stone(r: u8, g: u8, b: u8) -> bool {
    gray_variance(r, g, b) < 30
}

pub open spec fn is_grass(r: u8, g: u8, b: u8) -> bool {
    g > r && g > b && g > 100
}

pub open spec fn is_water(r: u8, g: u8, b: u8) -> bool {
    b > 150 && b > r && b > g
}

pub open spec fn is_metal(r: u8, g: u8, b: u8) -> bool {
    (r > 200 || g > 200 || b > 200) && gray_variance(r, g, b) > 50
}

pub open spec fn is_glass(r: u8, g: u8, b: u8) -> bool {
    (r > 180 && g > 180 && b > 200) || (r > 200 && g > 200 && b > 200)
}

pub open spec fn is_organic(r: u8, g: u8, b: u8) -> bool {
    (r > 100 && g > 80 && b < 100) || (r > 150 && g < 100 && b < 100)
}

/// The first rule that matches, in priority order; the reduced rule set
/// knows only the first four.
pub open spec fn classify(r: u8, g: u8, b: u8, rules: RuleSet) -> ColorBucket {
    if is_wood(r, g, b) {
        ColorBucket::Wood
    } else if is_stone(r, g, b) {
        ColorBucket::Stone
    } else if is_grass(r, g, b) {
        ColorBucket::Grass
    } else if is_water(r, g, b) {
        ColorBucket::Water
    } else if rules == RuleSet::Reduced {
        ColorBucket::Other
    } else if is_metal(r, g, b) {
        ColorBucket::Metal
    } else if is_glass(r, g, b) {
        ColorBucket::Glass
    } else if is_organic(r, g, b) {
        ColorBucket::Organic
    } else {
        ColorBucket::Other
    }
}

impl ColorBucket {
    /// Position in the canonical order.
    pub fn index(&self) -> (r: usize)
        ensures
            r == bucket_index(*self),
            r < BUCKET_COUNT,
    {
        match self {
            ColorBucket::Wood => 0,
            ColorBucket::Stone => 1,
            ColorBucket::Grass => 2,
            ColorBucket::Water => 3,
            ColorBucket::Metal => 4,
            ColorBucket::Glass => 5,
            ColorBucket::Organic => 6,
            ColorBucket::Other => 7,
        }
    }

    /// Bucket at a position of the canonical order.
    pub fn from_index(k: usize) -> (r: ColorBucket)
        requires
            k < BUCKET_COUNT,
        ensures
            r == bucket_at(k as int),
            bucket_index(r) == k,
    {
        if k == 0 {
            ColorBucket::Wood
        } else if k == 1 {
            ColorBucket::Stone
        } else if k == 2 {
            ColorBucket::Grass
        } else if k == 3 {
            ColorBucket::Water
        } else if k == 4 {
            ColorBucket::Metal
        } else if k == 5 {
            ColorBucket::Glass
        } else if k == 6 {
            ColorBucket::Organic
        } else {
            ColorBucket::Other
        }
    }

    /// Lower-case name of the bucket.
    pub fn to_string(&self) -> (r: String)
        ensures
            r@ == bucket_name(*self),
    {
        match self {
            ColorBucket::Wood => String::from_str("wood"),
            ColorBucket::Stone => String::from_str("stone"),
            ColorBucket::Grass => String::from_str("grass"),
            ColorBucket::Water => String::from_str("water"),
            ColorBucket::Metal => String::from_str("metal"),
            ColorBucket::Glass => String::from_str("glass"),
            ColorBucket::Organic => String::from_str("organic"),
            ColorBucket::Other => String::from_str("other"),
        }
    }
}

fn abs_diff_u8(a: u8, b: u8) -> (r: u16)
    ensures
        r == abs_diff(a, b),
{
    if a >= b {
        (a - b) as u16
    } else {
        (b - a) as u16
    }
}

/// Classifies one RGB triple: the first matching rule wins.
pub fn classify_color(r: u8, g: u8, b: u8, rules: RuleSet) -> (c: ColorBucket)
    ensures
        c == classify(r, g, b, rules),
{
    if 100 <= r && r <= 150 && 50 <= g && g <= 100 && 20 <= b && b <= 60 {
        return ColorBucket::Wood;
    }
    let variance: u16 = abs_diff_u8(r, g) + abs_diff_u8(g, b);
    if variance < 30 {
        return ColorBucket::Stone;
    }
    if g > r && g > b && g > 100 {
        return ColorBucket::Grass;
    }
    if b > 150 && b > r && b > g {
        return ColorBucket::Water;
    }
    match rules {
        RuleSet::Reduced => ColorBucket::Other,
        RuleSet::Full => {
            if (r > 200 || g > 200 || b > 200) && variance > 50 {
                ColorBucket::Metal
            } else if (r > 180 && g > 180 && b > 200) || (r > 200 && g > 200 && b > 200) {
                ColorBucket::Glass
            } else if (r > 100 && g > 80 && b < 100) || (r > 150 && g < 100 && b < 100) {
                ColorBucket::Organic
            } else {
                ColorBucket::Other
            }
        },
    }
}

} // verus!
