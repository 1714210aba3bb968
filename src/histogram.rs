use vstd::prelude::*;
use crate::color::{
    BUCKET_COUNT, ColorBucket, RuleSet, bucket_at, bucket_index, classify, classify_color,
};
use crate::fraction::Fraction;
use crate::pixels::{
    blue, dims_ok, green, opaque, opaque_count, pixel_count, pixel_total, red,
};

verus! {

/// Bucket of pixel `i` under the given rules.
pub open spec fn pixel_bucket(px: Seq<u8>, rules: RuleSet, i: int) -> ColorBucket {
    classify(red(px, i), green(px, i), blue(px, i), rules)
}

/// Number of opaque pixels among the first `k` that fall in `bucket`.
pub open spec fn bucket_count(px: Seq<u8>, rules: RuleSet, bucket: ColorBucket, k: nat) -> nat
    decreases k,
{
    if k == 0 {
        0
    } else {
        bucket_count(px, rules, bucket, (k - 1) as nat) + if opaque(px, k - 1) && pixel_bucket(
            px,
            rules,
            k - 1,
        ) == bucket {
            1nat
        } else {
            0nat
        }
    }
}

/// Sum of `counts[0..k]`.
pub open spec fn sum_prefix(counts: Seq<u64>, k: nat) -> int
    decreases k,
{
    if k == 0 {
        0
    } else {
        sum_prefix(counts, (k - 1) as nat) + counts[k - 1]
    }
}

/// Sum over all buckets of the per-bucket counts among the first `k` pixels.
pub open spec fn all_bucket_counts(px: Seq<u8>, rules: RuleSet, k: nat) -> nat {
    bucket_count(px, rules, ColorBucket::Wood, k) + bucket_count(px, rules, ColorBucket::Stone, k)
        + bucket_count(px, rules, ColorBucket::Grass, k) + bucket_count(
        px,
        rules,
        ColorBucket::Water,
        k,
    ) + bucket_count(px, rules, ColorBucket::Metal, k) + bucket_count(
        px,
        rules,
        ColorBucket::Glass,
        k,
    ) + bucket_count(px, rules, ColorBucket::Organic, k) + bucket_count(
        px,
        rules,
        ColorBucket::Other,
        k,
    )
}

/// Every opaque pixel is counted in exactly one bucket.
pub proof fn lemma_buckets_partition(px: Seq<u8>, rules: RuleSet, k: nat)
    ensures
        all_bucket_counts(px, rules, k) == opaque_count(px, k),
    decreases k,
{
    if k > 0 {
        lemma_buckets_partition(px, rules, (k - 1) as nat);
    }
}

/// Per-bucket counts of the opaque pixels of a buffer, with their total.
/// The frequency of a bucket is `counts[bucket] / total`; a bucket with no
/// pixel has no entry.
#[derive(Clone, Debug)]
pub struct ColorHistogram {
    pub counts: Vec<u64>,
    pub total: u64,
}

impl ColorHistogram {
    /// Sum of the per-bucket counts.
    pub open spec fn counts_sum(&self) -> int {
        self.counts@[0] + self.counts@[1] + self.counts@[2] + self.counts@[3] + self.counts@[4]
            + self.counts@[5] + self.counts@[6] + self.counts@[7]
    }

    /// One count per bucket, and together they make up the total.
    pub open spec fn wf(&self) -> bool {
        &&& self.counts@.len() == BUCKET_COUNT
        &&& self.counts_sum() == self.total
    }

    /// Count of a bucket.
    pub open spec fn count_of(&self, b: ColorBucket) -> u64 {
        self.counts@[bucket_index(b)]
    }

    /// Whether the histogram is the one of the opaque pixels of `px`.
    pub open spec fn describes(&self, px: Seq<u8>, width: u32, height: u32, rules: RuleSet) -> bool {
        &&& self.wf()
        &&& self.total == opaque_count(px, pixel_count(width, height))
        &&& forall|b: ColorBucket|
            #[trigger] self.count_of(b) == bucket_count(px, rules, b, pixel_count(width, height))
    }

    /// Whether the histogram has no entry.
    pub open spec fn spec_is_empty(&self) -> bool {
        forall|b: ColorBucket| #[trigger] self.count_of(b) == 0
    }

    /// Number of pixels counted in `b`.
    pub fn count(&self, b: ColorBucket) -> (r: u64)
        requires
            self.wf(),
        ensures
            r == self.count_of(b),
    {
        self.counts[b.index()]
    }

    /// Frequency of `b`, absent when no pixel fell in it.
    pub fn frequency(&self, b: ColorBucket) -> (r: Option<Fraction>)
        requires
            self.wf(),
        ensures
            self.count_of(b) == 0 <==> r is None,
            r matches Some(f) ==> f.num == self.count_of(b) && f.den == self.total,
    {
        assert(0 <= bucket_index(b) < 8);
        let c = self.counts[b.index()];
        if c == 0 {
            None
        } else {
            Some(Fraction { num: c, den: self.total })
        }
    }

    /// Whether no bucket has an entry.
    pub fn is_empty(&self) -> (r: bool)
        requires
            self.wf(),
        ensures
            r == self.spec_is_empty(),
    {
        let mut k: usize = 0;
        while k < BUCKET_COUNT
            invariant
                self.wf(),
                0 <= k <= BUCKET_COUNT,
                forall|j: int| 0 <= j < k ==> self.counts@[j] == 0,
            decreases BUCKET_COUNT - k,
        {
            if self.counts[k] != 0 {
                assert(self.count_of(bucket_at(k as int)) != 0);
                return false;
            }
            k += 1;
        }
        assert forall|b: ColorBucket| #[trigger] self.count_of(b) == 0 by {
            assert(0 <= bucket_index(b) < 8);
        }
        true
    }
}

/// Counts the opaque pixels of a validated buffer by colour bucket.
pub fn calculate_color_histogram(pixels: &[u8], width: u32, height: u32, rules: RuleSet) -> (h: ColorHistogram)
    requires
        dims_ok(pixels@, width, height),
    ensures
        h.describes(pixels@, width, height, rules),
{
    let n = pixel_total(pixels, width, height);
    let mut counts: Vec<u64> = vec![0, 0, 0, 0, 0, 0, 0, 0];
    let mut total: u64 = 0;
    let mut i: usize = 0;
    while i < n
        invariant
            n == pixel_count(width, height),
            4 * n == pixels@.len(),
            4 * n <= usize::MAX,
            i <= n,
            counts@.len() == BUCKET_COUNT,
            total == opaque_count(pixels@, i as nat),
            forall|k: int|
                0 <= k < BUCKET_COUNT ==> #[trigger] counts@[k] == bucket_count(
                    pixels@,
                    rules,
                    bucket_at(k),
                    i as nat,
                ),
        decreases n - i,
    {
        proof {
            crate::pixels::lemma_opaque_count_le(pixels@, i as nat);
            lemma_buckets_partition(pixels@, rules, i as nat);
            assert forall|k: int| 0 <= k < BUCKET_COUNT implies counts@[k] <= i by {
                assert(bucket_index(bucket_at(k)) == k);
            }
        }
        let base = 4 * i;
        if pixels[base + 3] > 0 {
            let c = classify_color(pixels[base], pixels[base + 1], pixels[base + 2], rules);
            let idx = c.index();
            assert(bucket_at(idx as int) == c);
            let v = counts[idx];
            counts.set(idx, v + 1);
            total += 1;
        }
        i += 1;
    }
    let h = ColorHistogram { counts, total };
    proof {
        lemma_buckets_partition(pixels@, rules, n as nat);
        assert forall|k: int| 0 <= k < BUCKET_COUNT implies #[trigger] h.counts@[k]
            == bucket_count(pixels@, rules, bucket_at(k), n as nat) by {}
    }
    assert forall|b: ColorBucket|
        #[trigger] h.count_of(b) == bucket_count(pixels@, rules, b, pixel_count(width, height)) by {
        assert(bucket_at(bucket_index(b)) == b);
    }
    h
}

} // verus!
