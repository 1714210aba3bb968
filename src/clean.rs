use vstd::prelude::*;
use crate::bounds::{calculate_content_bounds, content_bounds, lemma_coords, lemma_scan_bounds};
use crate::sprite::HarvestScanner;
use crate::pixels::{HarvestError, col, dims_ok, pixel_count, pixel_total, row, validate_dimensions};

verus! {

/// Content bounds widened by `threshold` on every side and clamped to the
/// image: `(min_x, min_y, max_x, max_y)`.
pub open spec fn padded_bounds(px: Seq<u8>, width: u32, height: u32, threshold: u32) -> (
    int,
    int,
    int,
    int,
) {
    let b = content_bounds(px, width, height);
    (
        if b.0 >= threshold { b.0 - threshold } else { 0 },
        if b.1 >= threshold { b.1 - threshold } else { 0 },
        if b.2 + threshold <= width - 1 { b.2 + threshold } else { width - 1 },
        if b.3 + threshold <= height - 1 { b.3 + threshold } else { height - 1 },
    )
}

/// Whether pixel `i` lies inside the padded box.
pub open spec fn kept(px: Seq<u8>, width: u32, height: u32, threshold: u32, i: int) -> bool {
    let p = padded_bounds(px, width, height, threshold);
    let x = col(i, width);
    let y = row(i, width);
    p.0 <= x <= p.2 && p.1 <= y <= p.3
}

/// The buffer with every pixel outside the padded box set to zero.
pub open spec fn cleaned(px: Seq<u8>, width: u32, height: u32, threshold: u32) -> Seq<u8> {
    Seq::new(px.len(), |j: int| if kept(px, width, height, threshold, j / 4) { px[j] } else { 0 })
}

pub proof fn lemma_pixel_of_byte(i: int, c: int)
    requires
        0 <= i,
        0 <= c < 4,
    ensures
        (4 * i + c) / 4 == i,
{
}

impl HarvestScanner {
    /// Zeroes every pixel of a validated buffer outside the content bounds
    /// widened by `threshold`; the input is left as it is.
    pub fn auto_clean_edges_internal(&self, pixels: &[u8], width: u32, height: u32, threshold: u32) -> (r: Vec<u8>)
        requires
            dims_ok(pixels@, width, height),
        ensures
            r@ == cleaned(pixels@, width, height, threshold),
    {
        let n = pixel_total(pixels, width, height);
        let ghost px = pixels@;
        let b = calculate_content_bounds(pixels, width, height);
        let min_x = b.min_x.saturating_sub(threshold) as u64;
        let min_y = b.min_y.saturating_sub(threshold) as u64;
        let max_x_wide = b.max_x as u64 + threshold as u64;
        let max_y_wide = b.max_y as u64 + threshold as u64;
        let mut out: Vec<u8> = Vec::with_capacity(pixels.len());
        if n == 0 {
            assert(out@ =~= cleaned(px, width, height, threshold));
            return out;
        }
        proof {
            lemma_scan_bounds(px, width, height, pixel_count(width, height));
            lemma_coords(0, width, height);
        }
        let max_x: u64 = if max_x_wide <= width as u64 - 1 { max_x_wide } else { width as u64 - 1 };
        let max_y: u64 = if max_y_wide <= height as u64 - 1 { max_y_wide } else { height as u64 - 1 };
        assert((min_x as int, min_y as int, max_x as int, max_y as int) == padded_bounds(
            px,
            width,
            height,
            threshold,
        ));
        let mut i: usize = 0;
        while i < n
            invariant
                px == pixels@,
                n == pixel_count(width, height),
                n > 0,
                4 * n == pixels@.len(),
                4 * n <= usize::MAX,
                i <= n,
                (min_x as int, min_y as int, max_x as int, max_y as int) == padded_bounds(
                    px,
                    width,
                    height,
                    threshold,
                ),
                out@.len() == 4 * i,
                forall|j: int|
                    0 <= j < 4 * i ==> #[trigger] out@[j] == cleaned(px, width, height, threshold)[j],
            decreases n - i,
        {
            proof {
                lemma_coords(i as int, width, height);
            }
            let x = (i % (width as usize)) as u64;
            let y = (i / (width as usize)) as u64;
            let base = 4 * i;
            let keep = min_x <= x && x <= max_x && min_y <= y && y <= max_y;
            proof {
                lemma_pixel_of_byte(i as int, 0);
                lemma_pixel_of_byte(i as int, 1);
                lemma_pixel_of_byte(i as int, 2);
                lemma_pixel_of_byte(i as int, 3);
                assert(keep == kept(px, width, height, threshold, i as int));
            }
            if keep {
                out.push(pixels[base]);
                out.push(pixels[base + 1]);
                out.push(pixels[base + 2]);
                out.push(pixels[base + 3]);
            } else {
                out.push(0);
                out.push(0);
                out.push(0);
                out.push(0);
            }
            i += 1;
        }
        assert(out@ =~= cleaned(px, width, height, threshold));
        out
    }

    /// Cleans the edges of a buffer, after checking its length.
    pub fn auto_clean_edges(&self, pixels: &[u8], width: u32, height: u32, threshold: u32) -> (r: Result<Vec<u8>, HarvestError>)
        ensures
            match r {
                Ok(v) => dims_ok(pixels@, width, height) && v@ == cleaned(pixels@, width, height, threshold),
                Err(e) => !dims_ok(pixels@, width, height) && e == HarvestError::DimensionMismatch,
            },
    {
        match validate_dimensions(pixels, width, height) {
            Ok(()) => Ok(self.auto_clean_edges_internal(pixels, width, height, threshold)),
            Err(e) => Err(e),
        }
    }
}

} // verus!
