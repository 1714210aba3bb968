use vstd::prelude::*;
use crate::pixels::{
    col, dims_ok, opaque, opaque_count, pixel_count, pixel_total, row,
};

verus! {

/// Running bounds `(min_x, min_y, max_x, max_y)` over the opaque pixels among
/// the first `k`, starting from `(width, height, 0, 0)`.
pub open spec fn scan_bounds(px: Seq<u8>, width: u32, height: u32, k: nat) -> (int, int, int, int)
    decreases k,
{
    if k == 0 {
        (width as int, height as int, 0, 0)
    } else {
        let b = scan_bounds(px, width, height, (k - 1) as nat);
        let i = k - 1;
        if opaque(px, i) {
            let x = col(i, width);
            let y = row(i, width);
            (
                if x < b.0 { x } else { b.0 },
                if y < b.1 { y } else { b.1 },
                if x > b.2 { x } else { b.2 },
                if y > b.3 { y } else { b.3 },
            )
        } else {
            b
        }
    }
}

/// Bounds over the whole buffer.
pub open spec fn content_bounds(px: Seq<u8>, width: u32, height: u32) -> (int, int, int, int) {
    scan_bounds(px, width, height, pixel_count(width, height))
}

/// Whether the buffer has at least one opaque pixel.
pub open spec fn has_content(px: Seq<u8>, width: u32, height: u32) -> bool {
    opaque_count(px, pixel_count(width, height)) > 0
}

/// Tight box `(x, y, width, height)` around the opaque pixels; `(width, height, 0, 0)`
/// when there are none.
pub open spec fn alpha_box(px: Seq<u8>, width: u32, height: u32) -> (int, int, int, int) {
    let b = content_bounds(px, width, height);
    if has_content(px, width, height) {
        (b.0, b.1, b.2 - b.0 + 1, b.3 - b.1 + 1)
    } else {
        (width as int, height as int, 0, 0)
    }
}

/// Inclusive bounds `min_x..=max_x`, `min_y..=max_y` of the opaque pixels,
/// `(width, height, 0, 0)` when there are none.
#[derive(Clone, Copy, Debug, PartialEq, Eq, Structural)]
pub struct ContentBounds {
    pub min_x: u32,
    pub min_y: u32,
    pub max_x: u32,
    pub max_y: u32,
}

impl ContentBounds {
    pub open spec fn view(self) -> (int, int, int, int) {
        (self.min_x as int, self.min_y as int, self.max_x as int, self.max_y as int)
    }
}

/// An axis-aligned box `(x, y, width, height)`; zero area means no content.
#[derive(Clone, Copy, Debug, PartialEq, Eq, Structural)]
pub struct BoundingBox {
    pub x: u32,
    pub y: u32,
    pub width: u32,
    pub height: u32,
}

impl BoundingBox {
    pub open spec fn view(self) -> (int, int, int, int) {
        (self.x as int, self.y as int, self.width as int, self.height as int)
    }

    /// Whether the box covers no pixel.
    pub fn is_empty(&self) -> (r: bool)
        ensures
            r == (self.width == 0 || self.height == 0),
    {
        self.width == 0 || self.height == 0
    }
}

pub proof fn lemma_coords(i: int, width: u32, height: u32)
    requires
        0 <= i < (width as int) * (height as int),
    ensures
        0 <= col(i, width) < width,
        0 <= row(i, width) < height,
{
    assert(width > 0) by (nonlinear_arith)
        requires
            0 <= i < (width as int) * (height as int),
    ;
    assert(0 <= i / (width as int) < height) by (nonlinear_arith)
        requires
            0 <= i < (width as int) * (height as int),
            width > 0,
    ;
}

/// The running bounds stay inside the image, and once a pixel was opaque
/// they are ordered and enclose every opaque pixel seen.
pub proof fn lemma_scan_bounds(px: Seq<u8>, width: u32, height: u32, k: nat)
    requires
        k <= pixel_count(width, height),
    ensures
        ({
            let b = scan_bounds(px, width, height, k);
            &&& 0 <= b.0 <= width
            &&& 0 <= b.1 <= height
            &&& 0 <= b.2
            &&& 0 <= b.3
            &&& (k > 0 ==> b.2 < width && b.3 < height)
            &&& (opaque_count(px, k) > 0 ==> b.0 <= b.2 && b.1 <= b.3)
            &&& (opaque_count(px, k) == 0 ==> b == (width as int, height as int, 0int, 0int))
            &&& forall|i: int|
                0 <= i < k && #[trigger] opaque(px, i) ==> b.0 <= col(i, width) <= b.2 && b.1
                    <= row(i, width) <= b.3
        }),
    decreases k,
{
    if k > 0 {
        lemma_scan_bounds(px, width, height, (k - 1) as nat);
        lemma_coords(k - 1, width, height);
        if k == 1 {
            assert(width > 0 && height > 0) by (nonlinear_arith)
                requires
                    1 <= (width as int) * (height as int),
            ;
        }
    }
}

/// Computes the inclusive bounds of the opaque pixels.
pub fn calculate_content_bounds(pixels: &[u8], width: u32, height: u32) -> (r: ContentBounds)
    requires
        dims_ok(pixels@, width, height),
    ensures
        r@ == content_bounds(pixels@, width, height),
{
    let n = pixel_total(pixels, width, height);
    let mut min_x: u32 = width;
    let mut min_y: u32 = height;
    let mut max_x: u32 = 0;
    let mut max_y: u32 = 0;
    let mut i: usize = 0;
    while i < n
        invariant
            dims_ok(pixels@, width, height),
            n == pixel_count(width, height),
            4 * n == pixels@.len(),
            4 * n <= usize::MAX,
            i <= n,
            (min_x as int, min_y as int, max_x as int, max_y as int) == scan_bounds(
                pixels@,
                width,
                height,
                i as nat,
            ),
        decreases n - i,
    {
        proof {
            lemma_coords(i as int, width, height);
        }
        if pixels[4 * i + 3] > 0 {
            let x = (i % (width as usize)) as u32;
            let y = (i / (width as usize)) as u32;
            if x < min_x {
                min_x = x;
            }
            if y < min_y {
                min_y = y;
            }
            if x > max_x {
                max_x = x;
            }
            if y > max_y {
                max_y = y;
            }
        }
        i += 1;
    }
    ContentBounds { min_x, min_y, max_x, max_y }
}

/// Counts the opaque pixels.
pub fn count_opaque(pixels: &[u8], width: u32, height: u32) -> (r: u64)
    requires
        dims_ok(pixels@, width, height),
    ensures
        r == opaque_count(pixels@, pixel_count(width, height)),
{
    let n = pixel_total(pixels, width, height);
    let mut count: u64 = 0;
    let mut i: usize = 0;
    while i < n
        invariant
            n == pixel_count(width, height),
            4 * n == pixels@.len(),
            4 * n <= usize::MAX,
            i <= n,
            count == opaque_count(pixels@, i as nat),
        decreases n - i,
    {
        proof {
            crate::pixels::lemma_opaque_count_le(pixels@, i as nat);
        }
        if pixels[4 * i + 3] > 0 {
            count += 1;
        }
        i += 1;
    }
    count
}

/// Tight box around the opaque pixels of a validated buffer.
pub fn calculate_alpha_bounding_box(pixels: &[u8], width: u32, height: u32) -> (r: BoundingBox)
    requires
        dims_ok(pixels@, width, height),
    ensures
        r@ == alpha_box(pixels@, width, height),
{
    let b = calculate_content_bounds(pixels, width, height);
    let count = count_opaque(pixels, width, height);
    proof {
        lemma_scan_bounds(pixels@, width, height, pixel_count(width, height));
    }
    if count > 0 {
        BoundingBox {
            x: b.min_x,
            y: b.min_y,
            width: b.max_x - b.min_x + 1,
            height: b.max_y - b.min_y + 1,
        }
    } else {
        BoundingBox { x: width, y: height, width: 0, height: 0 }
    }
}

} // verus!
