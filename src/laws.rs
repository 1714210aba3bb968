use vstd::prelude::*;
use crate::bounds::{alpha_box, content_bounds, lemma_scan_bounds, scan_bounds};
use crate::clean::{cleaned, kept, lemma_pixel_of_byte, padded_bounds};
use crate::color::{ColorBucket, RuleSet, bucket_index};
use crate::histogram::{ColorHistogram, bucket_count};
use crate::material::{MaterialType, confidence_of};
use crate::pixels::{alpha, col, dims_ok, opaque, opaque_count, pixel_count, row};
use crate::summary::transparency_of;

verus! {

proof fn lemma_no_opaque(px: Seq<u8>, rules: RuleSet, k: nat)
    requires
        forall|i: int| 0 <= i < k ==> alpha(px, i) == 0,
    ensures
        opaque_count(px, k) == 0,
        forall|b: ColorBucket| #[trigger] bucket_count(px, rules, b, k) == 0,
    decreases k,
{
    if k > 0 {
        lemma_no_opaque(px, rules, (k - 1) as nat);
        assert forall|b: ColorBucket| #[trigger] bucket_count(px, rules, b, k) == 0 by {
            assert(bucket_count(px, rules, b, (k - 1) as nat) == 0);
        }
    }
}

proof fn lemma_all_opaque(px: Seq<u8>, k: nat)
    requires
        forall|i: int| 0 <= i < k ==> alpha(px, i) > 0,
    ensures
        opaque_count(px, k) == k,
    decreases k,
{
    if k > 0 {
        lemma_all_opaque(px, (k - 1) as nat);
    }
}

/// A buffer whose pixels all have alpha zero has a zero-area bounding box
/// and an empty colour histogram.
pub proof fn transparent_buffer_is_empty(px: Seq<u8>, width: u32, height: u32, rules: RuleSet)
    requires
        dims_ok(px, width, height),
        forall|i: int| 0 <= i < pixel_count(width, height) ==> alpha(px, i) == 0,
    ensures
        alpha_box(px, width, height) == (width as int, height as int, 0int, 0int),
        forall|b: ColorBucket| #[trigger] bucket_count(px, rules, b, pixel_count(width, height)) == 0,
        forall|h: ColorHistogram| #[trigger]
            h.describes(px, width, height, rules) ==> h.spec_is_empty(),
{
    lemma_no_opaque(px, rules, pixel_count(width, height));
}

/// A buffer whose pixels all have non-zero alpha has transparency ratio zero.
pub proof fn opaque_buffer_has_no_transparency(px: Seq<u8>, width: u32, height: u32)
    requires
        dims_ok(px, width, height),
        forall|i: int| 0 <= i < pixel_count(width, height) ==> alpha(px, i) > 0,
    ensures
        transparency_of(px, width, height).0 == 0,
{
    lemma_all_opaque(px, pixel_count(width, height));
}

/// Cleaning with threshold zero keeps exactly the pixels inside the tight
/// content bounds, byte for byte, and zeroes every other pixel.
pub proof fn clean_without_padding_keeps_exact_box(px: Seq<u8>, width: u32, height: u32)
    requires
        dims_ok(px, width, height),
    ensures
        ({
            let b = content_bounds(px, width, height);
            let out = cleaned(px, width, height, 0);
            &&& out.len() == px.len()
            &&& forall|i: int, c: int|
                0 <= i < pixel_count(width, height) && 0 <= c < 4 ==> #[trigger] out[4 * i + c]
                    == if b.0 <= col(i, width) <= b.2 && b.1 <= row(i, width) <= b.3 {
                    px[4 * i + c]
                } else {
                    0
                }
        }),
{
    let n = pixel_count(width, height);
    lemma_scan_bounds(px, width, height, n);
    assert forall|i: int, c: int| 0 <= i < n && 0 <= c < 4 implies #[trigger] cleaned(
        px,
        width,
        height,
        0,
    )[4 * i + c] == (if content_bounds(px, width, height).0 <= col(i, width) <= content_bounds(
        px,
        width,
        height,
    ).2 && content_bounds(px, width, height).1 <= row(i, width) <= content_bounds(
        px,
        width,
        height,
    ).3 {
        px[4 * i + c]
    } else {
        0
    }) by {
        lemma_pixel_of_byte(i, c);
        crate::bounds::lemma_coords(i, width, height);
    }
}

/// Cleaning does not change which pixels are opaque.
proof fn lemma_clean_keeps_opacity(px: Seq<u8>, width: u32, height: u32, threshold: u32, i: int)
    requires
        dims_ok(px, width, height),
        0 <= i < pixel_count(width, height),
    ensures
        opaque(cleaned(px, width, height, threshold), i) == opaque(px, i),
{
    let n = pixel_count(width, height);
    lemma_scan_bounds(px, width, height, n);
    lemma_pixel_of_byte(i, 3);
    crate::bounds::lemma_coords(i, width, height);
    if opaque(px, i) {
        assert(kept(px, width, height, threshold, i));
    }
}

proof fn lemma_clean_same_bounds(px: Seq<u8>, width: u32, height: u32, threshold: u32, k: nat)
    requires
        dims_ok(px, width, height),
        k <= pixel_count(width, height),
    ensures
        scan_bounds(cleaned(px, width, height, threshold), width, height, k) == scan_bounds(
            px,
            width,
            height,
            k,
        ),
    decreases k,
{
    if k > 0 {
        lemma_clean_same_bounds(px, width, height, threshold, (k - 1) as nat);
        lemma_clean_keeps_opacity(px, width, height, threshold, k - 1);
    }
}

/// Cleaning twice with the same threshold gives the same buffer as cleaning once.
pub proof fn clean_is_idempotent(px: Seq<u8>, width: u32, height: u32, threshold: u32)
    requires
        dims_ok(px, width, height),
    ensures
        cleaned(cleaned(px, width, height, threshold), width, height, threshold) == cleaned(
            px,
            width,
            height,
            threshold,
        ),
{
    let q = cleaned(px, width, height, threshold);
    lemma_clean_same_bounds(px, width, height, threshold, pixel_count(width, height));
    assert(padded_bounds(q, width, height, threshold) == padded_bounds(px, width, height, threshold));
    assert(cleaned(q, width, height, threshold) =~= q);
}

/// The bucket counts of a histogram add up to its total, which is the number
/// of opaque pixels: the frequencies sum to one, and with no opaque pixel
/// there is no entry at all.
pub proof fn histogram_counts_sum_to_total(
    h: ColorHistogram,
    px: Seq<u8>,
    width: u32,
    height: u32,
    rules: RuleSet,
)
    requires
        h.describes(px, width, height, rules),
    ensures
        h.counts_sum() == h.total,
        h.total == opaque_count(px, pixel_count(width, height)),
        h.total == 0 ==> h.spec_is_empty(),
{
    if h.total == 0 {
        assert forall|b: ColorBucket| #[trigger] h.count_of(b) == 0 by {
            assert(0 <= bucket_index(b) < 8);
        }
    }
}

/// Confidence always lies in `[0, 1]` with a positive denominator.
pub proof fn confidence_in_unit_range(h: ColorHistogram, m: MaterialType)
    requires
        h.wf(),
    ensures
        0 <= confidence_of(h, m).0 <= confidence_of(h, m).1,
        confidence_of(h, m).1 > 0,
{
    match crate::material::material_bucket(m) {
        Some(b) => {
            assert(0 <= bucket_index(b) < 8);
        },
        None => {},
    }
}

} // verus!
