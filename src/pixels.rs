use vstd::prelude::*;

verus! {

/// The only failure of the engine: a buffer whose length is not
/// `width * height * 4`.
#[derive(Clone, Copy, Debug, PartialEq, Eq, Structural)]
pub enum HarvestError {
    DimensionMismatch,
}

/// Number of pixels of a `width` by `height` image.
pub open spec fn pixel_count(width: u32, height: u32) -> nat {
    (width * height) as nat
}

/// A buffer holds exactly `width * height` RGBA pixels.
pub open spec fn dims_ok(px: Seq<u8>, width: u32, height: u32) -> bool {
    px.len() == 4 * pixel_count(width, height)
}

/// Red channel of pixel `i`.
pub open spec fn red(px: Seq<u8>, i: int) -> u8 {
    px[4 * i]
}

/// Green channel of pixel `i`.
pub open spec fn green(px: Seq<u8>, i: int) -> u8 {
    px[4 * i + 1]
}

/// Blue channel of pixel `i`.
pub open spec fn blue(px: Seq<u8>, i: int) -> u8 {
    px[4 * i + 2]
}

/// Alpha channel of pixel `i`.
pub open spec fn alpha(px: Seq<u8>, i: int) -> u8 {
    px[4 * i + 3]
}

/// A pixel is opaque when its alpha is non-zero.
pub open spec fn opaque(px: Seq<u8>, i: int) -> bool {
    alpha(px, i) > 0
}

/// Number of opaque pixels among the first `k`.
pub open spec fn opaque_count(px: Seq<u8>, k: nat) -> nat
    decreases k,
{
    if k == 0 {
        0
    } else {
        opaque_count(px, (k - 1) as nat) + if opaque(px, k - 1) {
            1nat
        } else {
            0nat
        }
    }
}

/// Column of pixel `i` in a row-major image of the given width.
pub open spec fn col(i: int, width: u32) -> int {
    i % (width as int)
}

/// Row of pixel `i` in a row-major image of the given width.
pub open spec fn row(i: int, width: u32) -> int {
    i / (width as int)
}

pub proof fn lemma_opaque_count_le(px: Seq<u8>, k: nat)
    ensures
        opaque_count(px, k) <= k,
    decreases k,
{
    if k > 0 {
        lemma_opaque_count_le(px, (k - 1) as nat);
    }
}

/// Checks that the buffer length matches the dimensions.
pub fn validate_dimensions(pixels: &[u8], width: u32, height: u32) -> (r: Result<(), HarvestError>)
    ensures
        r is Ok <==> dims_ok(pixels@, width, height),
        r is Err ==> r == Err::<(), HarvestError>(HarvestError::DimensionMismatch),
{
    proof {
        assert((width as int) * (height as int) <= (u32::MAX as int) * (u32::MAX as int))
            by (nonlinear_arith);
    }
    let expected: u128 = (width as u128) * (height as u128) * 4;
    if (pixels.len() as u128) == expected {
        Ok(())
    } else {
        Err(HarvestError::DimensionMismatch)
    }
}

/// Number of pixels of a buffer that passed validation.
pub fn pixel_total(pixels: &[u8], width: u32, height: u32) -> (n: usize)
    requires
        dims_ok(pixels@, width, height),
    ensures
        n == pixel_count(width, height),
        4 * n == pixels@.len(),
        4 * n <= usize::MAX,
{
    pixels.len() / 4
}

} // verus!
