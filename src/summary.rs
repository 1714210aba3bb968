use vstd::prelude::*;
use crate::fraction::Fraction;
use crate::pixels::{
    blue, dims_ok, green, lemma_opaque_count_le, opaque, opaque_count, pixel_count, pixel_total,
    red,
};

verus! {

/// An RGB colour.
#[derive(Clone, Copy, Debug, PartialEq, Eq, Structural)]
pub struct Rgb {
    pub r: u8,
    pub g: u8,
    pub b: u8,
}

/// Sum of one channel (0 red, 1 green, 2 blue) over the opaque pixels among
/// the first `k`.
pub open spec fn channel_sum(px: Seq<u8>, channel: int, k: nat) -> nat
    decreases k,
{
    if k == 0 {
        0
    } else {
        channel_sum(px, channel, (k - 1) as nat) + if opaque(px, k - 1) {
            px[4 * (k - 1) + channel] as nat
        } else {
            0nat
        }
    }
}

/// Mean of one channel over the opaque pixels, truncated; zero without any.
pub open spec fn channel_mean(px: Seq<u8>, width: u32, height: u32, channel: int) -> int {
    let n = pixel_count(width, height);
    if opaque_count(px, n) > 0 {
        channel_sum(px, channel, n) as int / opaque_count(px, n) as int
    } else {
        0
    }
}

/// Transparent pixels over all pixels, as `(num, den)`; `0 / 1` without pixels.
pub open spec fn transparency_of(px: Seq<u8>, width: u32, height: u32) -> (int, int) {
    let n = pixel_count(width, height);
    if n > 0 {
        (n - opaque_count(px, n), n as int)
    } else {
        (0, 1)
    }
}

pub proof fn lemma_channel_sum_le(px: Seq<u8>, channel: int, k: nat)
    requires
        0 <= channel < 3,
        4 * k <= px.len(),
    ensures
        channel_sum(px, channel, k) <= 255 * opaque_count(px, k),
    decreases k,
{
    if k > 0 {
        lemma_channel_sum_le(px, channel, (k - 1) as nat);
    }
}

/// Mean colour `(r, g, b)` of the opaque pixels of a validated buffer.
pub fn get_dominant_color(pixels: &[u8], width: u32, height: u32) -> (c: Rgb)
    requires
        dims_ok(pixels@, width, height),
    ensures
        c.r == channel_mean(pixels@, width, height, 0),
        c.g == channel_mean(pixels@, width, height, 1),
        c.b == channel_mean(pixels@, width, height, 2),
{
    let n = pixel_total(pixels, width, height);
    let mut r_sum: u128 = 0;
    let mut g_sum: u128 = 0;
    let mut b_sum: u128 = 0;
    let mut count: u128 = 0;
    let mut i: usize = 0;
    while i < n
        invariant
            n == pixel_count(width, height),
            4 * n == pixels@.len(),
            4 * n <= usize::MAX,
            i <= n,
            count == opaque_count(pixels@, i as nat),
            r_sum == channel_sum(pixels@, 0, i as nat),
            g_sum == channel_sum(pixels@, 1, i as nat),
            b_sum == channel_sum(pixels@, 2, i as nat),
        decreases n - i,
    {
        proof {
            lemma_opaque_count_le(pixels@, i as nat);
            lemma_channel_sum_le(pixels@, 0, i as nat);
            lemma_channel_sum_le(pixels@, 1, i as nat);
            lemma_channel_sum_le(pixels@, 2, i as nat);
        }
        let base = 4 * i;
        if pixels[base + 3] > 0 {
            r_sum += pixels[base] as u128;
            g_sum += pixels[base + 1] as u128;
            b_sum += pixels[base + 2] as u128;
            count += 1;
        }
        i += 1;
    }
    if count > 0 {
        proof {
            lemma_channel_sum_le(pixels@, 0, n as nat);
            lemma_channel_sum_le(pixels@, 1, n as nat);
            lemma_channel_sum_le(pixels@, 2, n as nat);
            assert(r_sum / count <= 255) by (nonlinear_arith)
                requires
                    r_sum <= 255 * count,
                    count > 0,
            ;
            assert(g_sum / count <= 255) by (nonlinear_arith)
                requires
                    g_sum <= 255 * count,
                    count > 0,
            ;
            assert(b_sum / count <= 255) by (nonlinear_arith)
                requires
                    b_sum <= 255 * count,
                    count > 0,
            ;
        }
        Rgb { r: (r_sum / count) as u8, g: (g_sum / count) as u8, b: (b_sum / count) as u8 }
    } else {
        Rgb { r: 0, g: 0, b: 0 }
    }
}

/// Transparent pixels over all pixels of a validated buffer.
pub fn calculate_transparency_ratio(pixels: &[u8], width: u32, height: u32) -> (r: Fraction)
    requires
        dims_ok(pixels@, width, height),
    ensures
        r.wf(),
        (r.num as int, r.den as int) == transparency_of(pixels@, width, height),
        r.num <= r.den,
{
    let n = pixel_total(pixels, width, height);
    let mut transparent: u64 = 0;
    let mut i: usize = 0;
    while i < n
        invariant
            n == pixel_count(width, height),
            4 * n == pixels@.len(),
            4 * n <= usize::MAX,
            i <= n,
            transparent == i - opaque_count(pixels@, i as nat),
        decreases n - i,
    {
        proof {
            lemma_opaque_count_le(pixels@, i as nat);
        }
        if pixels[4 * i + 3] == 0 {
            transparent += 1;
        }
        i += 1;
    }
    Fraction::ratio_or_zero(transparent, n as u64)
}

} // verus!
