use vstd::prelude::*;
use crate::fraction::Fraction;
use crate::pixels::{
    blue, dims_ok, green, opaque, pixel_count, pixel_total, red,
};

verus! {

/// Gradient magnitude above which an interior pixel is an edge.
pub const EDGE_MAGNITUDE_THRESHOLD: i32 = 30;

/// Luminance `0.299 R + 0.587 G + 0.114 B` truncated to an integer; a fully
/// transparent pixel has luminance zero.
pub open spec fn luma(px: Seq<u8>, i: int) -> int {
    if opaque(px, i) {
        (299 * red(px, i) + 587 * green(px, i) + 114 * blue(px, i)) / 1000
    } else {
        0
    }
}

/// Luminance at column `x`, row `y`.
pub open spec fn luma_at(px: Seq<u8>, width: u32, x: int, y: int) -> int {
    luma(px, y * width + x)
}

/// Horizontal Sobel response at an interior pixel.
pub open spec fn sobel_x(px: Seq<u8>, width: u32, x: int, y: int) -> int {
    -luma_at(px, width, x - 1, y - 1) + luma_at(px, width, x + 1, y - 1) - 2 * luma_at(
        px,
        width,
        x - 1,
        y,
    ) + 2 * luma_at(px, width, x + 1, y) - luma_at(px, width, x - 1, y + 1) + luma_at(
        px,
        width,
        x + 1,
        y + 1,
    )
}

/// Vertical Sobel response at an interior pixel.
pub open spec fn sobel_y(px: Seq<u8>, width: u32, x: int, y: int) -> int {
    -luma_at(px, width, x - 1, y - 1) - 2 * luma_at(px, width, x, y - 1) - luma_at(
        px,
        width,
        x + 1,
        y - 1,
    ) + luma_at(px, width, x - 1, y + 1) + 2 * luma_at(px, width, x, y + 1) + luma_at(
        px,
        width,
        x + 1,
        y + 1,
    )
}

pub open spec fn abs(v: int) -> int {
    if v < 0 {
        -v
    } else {
        v
    }
}

/// An interior pixel is an edge when `|Gx| + |Gy|` exceeds the threshold.
pub open spec fn is_edge(px: Seq<u8>, width: u32, x: int, y: int) -> bool {
    abs(sobel_x(px, width, x, y)) + abs(sobel_y(px, width, x, y)) > EDGE_MAGNITUDE_THRESHOLD
}

/// Edge pixels of row `y` with column in `1..k`.
pub open spec fn row_edges(px: Seq<u8>, width: u32, y: int, k: int) -> nat
    decreases k,
{
    if k <= 1 {
        0
    } else {
        row_edges(px, width, y, k - 1) + if is_edge(px, width, k - 1, y) {
            1nat
        } else {
            0nat
        }
    }
}

/// Edge pixels of the interior rows `1..k`.
pub open spec fn rows_edges(px: Seq<u8>, width: u32, k: int) -> nat
    decreases k,
{
    if k <= 1 {
        0
    } else {
        rows_edges(px, width, k - 1) + row_edges(px, width, k - 1, width - 1)
    }
}

/// Number of edge pixels; the one-pixel border never counts.
pub open spec fn edge_count(px: Seq<u8>, width: u32, height: u32) -> nat {
    if width >= 3 && height >= 3 {
        rows_edges(px, width, height - 1)
    } else {
        0
    }
}

/// Edge density as a fraction: edge pixels over all pixels, `0 / 1` for an
/// image without pixels.
pub open spec fn edge_density_of(px: Seq<u8>, width: u32, height: u32) -> (int, int) {
    if pixel_count(width, height) > 0 {
        (edge_count(px, width, height) as int, pixel_count(width, height) as int)
    } else {
        (0, 1)
    }
}

pub proof fn lemma_row_edges_le(px: Seq<u8>, width: u32, y: int, k: int)
    ensures
        row_edges(px, width, y, k) <= if k <= 1 { 0 } else { k - 1 },
    decreases k,
{
    if k > 1 {
        lemma_row_edges_le(px, width, y, k - 1);
    }
}

pub proof fn lemma_rows_edges_le(px: Seq<u8>, width: u32, k: int)
    requires
        width >= 3,
    ensures
        rows_edges(px, width, k) <= if k <= 1 { 0 } else { (k - 1) * (width - 2) },
    decreases k,
{
    if k > 1 {
        lemma_rows_edges_le(px, width, k - 1);
        lemma_row_edges_le(px, width, k - 1, width - 1);
        assert((k - 1) * (width - 2) == (k - 2) * (width - 2) + (width - 2)) by (nonlinear_arith);
    }
}

pub proof fn lemma_cell_index(x: int, y: int, width: int, height: int)
    requires
        0 <= x < width,
        0 <= y < height,
    ensures
        0 <= y * width + x < width * height,
{
    assert(y * width + x < width * height) by (nonlinear_arith)
        requires
            0 <= x < width,
            0 <= y < height,
    ;
    assert(0 <= y * width) by (nonlinear_arith)
        requires
            0 <= y,
            0 <= x < width,
    ;
}

/// Luminance of every pixel of a validated buffer.
fn grayscale(pixels: &[u8], width: u32, height: u32) -> (gray: Vec<u8>)
    requires
        dims_ok(pixels@, width, height),
    ensures
        gray@.len() == pixel_count(width, height),
        4 * gray@.len() <= usize::MAX,
        forall|i: int| 0 <= i < gray@.len() ==> #[trigger] gray@[i] == luma(pixels@, i),
{
    let n = pixel_total(pixels, width, height);
    let mut gray: Vec<u8> = Vec::with_capacity(n);
    let mut i: usize = 0;
    while i < n
        invariant
            n == pixel_count(width, height),
            4 * n == pixels@.len(),
            4 * n <= usize::MAX,
            i <= n,
            gray@.len() == i,
            forall|j: int| 0 <= j < i ==> #[trigger] gray@[j] == luma(pixels@, j),
        decreases n - i,
    {
        let base = 4 * i;
        if pixels[base + 3] > 0 {
            let r = pixels[base] as u32;
            let g = pixels[base + 1] as u32;
            let b = pixels[base + 2] as u32;
            let l = (299 * r + 587 * g + 114 * b) / 1000;
            gray.push(l as u8);
        } else {
            gray.push(0);
        }
        i += 1;
    }
    gray
}

/// Luminance at column `x`, row `y` of a grayscale plane.
fn gray_at(gray: &Vec<u8>, width: usize, height: usize, x: usize, y: usize) -> (v: i32)
    requires
        gray@.len() == width * height,
        width * height <= usize::MAX,
        x < width,
        y < height,
    ensures
        v == gray@[y * width + x],
{
    proof {
        lemma_cell_index(x as int, y as int, width as int, height as int);
    }
    gray[y * width + x] as i32
}

/// Counts the edge pixels of a validated buffer.
pub fn count_edges(pixels: &[u8], width: u32, height: u32) -> (r: u64)
    requires
        dims_ok(pixels@, width, height),
    ensures
        r == edge_count(pixels@, width, height),
{
    let gray = grayscale(pixels, width, height);
    if width < 3 || height < 3 {
        return 0;
    }
    let w = width as usize;
    let h = height as usize;
    let ghost px = pixels@;
    proof {
        assert(w * h == pixel_count(width, height));
    }
    assert forall|x: int, y: int| 0 <= x < w && 0 <= y < h implies gray@[y * w + x]
        == luma_at(px, width, x, y) by {
        lemma_cell_index(x, y, w as int, h as int);
    }
    let mut count: u64 = 0;
    let mut y: usize = 1;
    while y < h - 1
        invariant
            w == width,
            h == height,
            w >= 3,
            h >= 3,
            gray@.len() == w * h,
            w * h <= usize::MAX,
            forall|x: int, y: int| 0 <= x < w && 0 <= y < h ==> gray@[y * w + x] == luma_at(
                px,
                width,
                x,
                y,
            ),
            1 <= y <= h - 1,
            count == rows_edges(px, width, y as int),
            count <= (y - 1) * (w - 2),
        decreases h - y,
    {
        let mut x: usize = 1;
        let mut row_count: u64 = 0;
        while x < w - 1
            invariant
                w == width,
                h == height,
                w >= 3,
                h >= 3,
                gray@.len() == w * h,
                w * h <= usize::MAX,
                forall|x: int, y: int| 0 <= x < w && 0 <= y < h ==> gray@[y * w + x] == luma_at(
                    px,
                    width,
                    x,
                    y,
                ),
                1 <= y < h - 1,
                1 <= x <= w - 1,
                row_count == row_edges(px, width, y as int, x as int),
                row_count <= x - 1,
            decreases w - x,
        {
            let tl = gray_at(&gray, w, h, x - 1, y - 1);
            let tm = gray_at(&gray, w, h, x, y - 1);
            let tr = gray_at(&gray, w, h, x + 1, y - 1);
            let ml = gray_at(&gray, w, h, x - 1, y);
            let mr = gray_at(&gray, w, h, x + 1, y);
            let bl = gray_at(&gray, w, h, x - 1, y + 1);
            let bm = gray_at(&gray, w, h, x, y + 1);
            let br = gray_at(&gray, w, h, x + 1, y + 1);
            let gx = -tl + tr - 2 * ml + 2 * mr - bl + br;
            let gy = -tl - 2 * tm - tr + bl + 2 * bm + br;
            let ax = if gx < 0 { -gx } else { gx };
            let ay = if gy < 0 { -gy } else { gy };
            if ax + ay > EDGE_MAGNITUDE_THRESHOLD {
                row_count += 1;
            }
            x += 1;
        }
        proof {
            assert((y as int) * (w - 2) == (y - 1) * (w - 2) + (w - 2)) by (nonlinear_arith);
            assert((y as int) * (w - 2) <= (h as int) * (w as int)) by (nonlinear_arith)
                requires
                    y < h,
                    w >= 3,
            ;
        }
        count += row_count;
        y += 1;
    }
    count
}

/// Edge density of a validated buffer: edge pixels over all pixels.
pub fn calculate_edge_density(pixels: &[u8], width: u32, height: u32) -> (r: Fraction)
    requires
        dims_ok(pixels@, width, height),
    ensures
        r.wf(),
        (r.num as int, r.den as int) == edge_density_of(pixels@, width, height),
        r.num <= r.den,
{
    let edges = count_edges(pixels, width, height);
    let total = pixel_total(pixels, width, height) as u64;
    proof {
        if width >= 3 && height >= 3 {
            lemma_rows_edges_le(pixels@, width, height - 1);
            assert(((height - 2) as int) * ((width - 2) as int) <= (width as int) * (height as int))
                by (nonlinear_arith)
                requires
                    width >= 3,
                    height >= 3,
            ;
        }
    }
    Fraction::ratio_or_zero(edges, total)
}

} // verus!
