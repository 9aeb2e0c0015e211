//! Fingerprints of frames and the distance between two fingerprints.
use crate::capture::frame::{frame_shape, Frame, FrameView};
use image::imageops::{grayscale, resize, FilterType};
use image::{ImageBuffer, Rgba};
use vstd::arithmetic::div_mod::lemma_fundamental_div_mod_converse;
use vstd::prelude::*;

verus! {

/// Largest side of the comparison grid: a fingerprint has 64 bits, one per
/// cell, so larger requests are fingerprinted at this side.
pub const MAX_RESOLUTION: u32 = 8;

/// Whether bit `i` of `x` is set.
pub open spec fn bit_is_set(x: u64, i: u64) -> bool {
    (x >> i) & 1 == 1
}

/// Number of set bits among the lowest `n` bits of `x`.
pub open spec fn count_set_bits(x: u64, n: nat) -> nat
    decreases n,
{
    if n == 0 {
        0
    } else {
        count_set_bits(x, (n - 1) as nat) + if bit_is_set(x, (n - 1) as u64) {
            1nat
        } else {
            0nat
        }
    }
}

/// Number of set bits of `x`.
pub open spec fn popcount(x: u64) -> nat {
    count_set_bits(x, 64)
}

/// Hamming distance of two fingerprints: the number of bit positions in
/// which they differ.
pub open spec fn distance(a: u64, b: u64) -> nat {
    popcount(a ^ b)
}

/// The side of the comparison grid used for a requested resolution.
pub open spec fn effective_resolution(resolution: u32) -> u32 {
    if resolution > MAX_RESOLUTION {
        MAX_RESOLUTION
    } else {
        resolution
    }
}

/// Grayscale intensity of an RGB triple, as `image` computes it for 8-bit
/// channels.
pub open spec fn luma(r: u8, g: u8, b: u8) -> u8 {
    ((2126 * r + 7152 * g + 722 * b) / 10000) as u8
}

/// Grayscale image of a row-major RGBA buffer: one intensity per pixel, the
/// alpha channel dropped.
pub open spec fn luma_image(pixels: Seq<u8>) -> Seq<u8> {
    Seq::new(
        (pixels.len() / 4) as nat,
        |i: int| luma(pixels[4 * i], pixels[4 * i + 1], pixels[4 * i + 2]),
    )
}

/// The RGBA bytes, row by row, of the image that `image::imageops::resize`
/// returns with the Lanczos filter of window 3, for a `width` by `height`
/// image with the bytes `pixels` and the target size `nwidth` by `nheight`.
/// The resampling itself is not written out: it is what the `image` crate
/// computes, taken to depend on these arguments and on nothing else.
pub uninterp spec fn lanczos3_resized(
    pixels: Seq<u8>,
    width: u32,
    height: u32,
    nwidth: u32,
    nheight: u32,
) -> Seq<u8>;

/// Whether, in a grayscale image of `side + 1` columns, the pixel of cell
/// `cell` (cells are counted row by row, `side` per row) is strictly darker
/// than its right neighbour.
pub open spec fn rises_at(gray: Seq<u8>, side: nat, cell: nat) -> bool {
    let row = cell / side;
    let col = cell % side;
    gray[(row * (side + 1) + col) as int] < gray[(row * (side + 1) + col + 1) as int]
}

/// The word whose bit `k`, for `k < cells`, is set exactly when the image
/// rises at cell `k`.
pub open spec fn gradient_bits(gray: Seq<u8>, side: nat, cells: nat) -> u64
    decreases cells,
{
    if cells == 0 {
        0
    } else {
        let rest = gradient_bits(gray, side, (cells - 1) as nat);
        if rises_at(gray, side, (cells - 1) as nat) {
            rest | (1u64 << ((cells - 1) as u64))
        } else {
            rest
        }
    }
}

/// Difference hash of a grayscale image of `side + 1` columns and `side`
/// rows.
pub open spec fn gradient_fingerprint(gray: Seq<u8>, side: nat) -> u64 {
    gradient_bits(gray, side, side * side)
}

/// Difference hash of a frame at a requested resolution: the frame is
/// resampled to `side + 1` by `side` pixels, turned to grayscale, and each
/// pixel is compared with its right neighbour.
pub open spec fn fingerprint(frame: FrameView, resolution: u32) -> u64 {
    let side = effective_resolution(resolution);
    gradient_fingerprint(
        luma_image(
            lanczos3_resized(
                frame.pixels,
                frame.width,
                frame.height,
                (side + 1) as u32,
                side,
            ),
        ),
        side as nat,
    )
}

pub proof fn lemma_count_set_bits_bound(x: u64, n: nat)
    ensures
        count_set_bits(x, n) <= n,
    decreases n,
{
    if n > 0 {
        lemma_count_set_bits_bound(x, (n - 1) as nat);
    }
}

/// Number of bit positions in which `hash1` and `hash2` differ.
pub fn hamming_distance(hash1: u64, hash2: u64) -> (d: u32)
    ensures
        d == distance(hash1, hash2),
        d <= 64,
{
    let x: u64 = hash1 ^ hash2;
    let mut count: u32 = 0;
    let mut i: u32 = 0;
    while i < 64
        invariant
            i <= 64,
            count == count_set_bits(x, i as nat),
            count <= i,
        decreases 64 - i,
    {
        if (x >> i) & 1 == 1 {
            count = count + 1;
        }
        i = i + 1;
    }
    count
}

/// Calls `image::imageops::resize` with `FilterType::Lanczos3` on the RGBA
/// image that `pixels` holds. Not proved, but taken from the `image` crate:
/// the result holds `nwidth * nheight` pixels of four bytes, and the same
/// arguments always give the same bytes, which [`lanczos3_resized`] names.
/// The bounds keep the two buffers that `resize` allocates, one of 16 bytes
/// per pixel for `width * nheight` pixels and the result, within the address
/// space.
#[verifier::external_body]
fn resize_rgba(pixels: &Vec<u8>, width: u32, height: u32, nwidth: u32, nheight: u32) -> (out: Vec<
    u8,
>)
    requires
        frame_shape(width, height, pixels@.len()),
        1 <= nwidth,
        1 <= nheight,
        32 * (width * nheight) <= usize::MAX,
        32 * (nwidth * nheight) <= usize::MAX,
    ensures
        out@ == lanczos3_resized(pixels@, width, height, nwidth, nheight),
        out@.len() == 4 * (nwidth * nheight),
{
    let source: ImageBuffer<Rgba<u8>, &[u8]> = ImageBuffer::from_raw(
        width,
        height,
        pixels.as_slice(),
    ).unwrap();
    resize(&source, nwidth, nheight, FilterType::Lanczos3).into_raw()
}

/// Calls `image::imageops::grayscale` on the RGBA image that `pixels`
/// holds. Not proved, but taken from the `image` crate: the result has one
/// byte per pixel, in the same order, which is the [`luma`] of the pixel's
/// red, green and blue bytes; the alpha byte plays no part.
#[verifier::external_body]
fn grayscale_rgba(pixels: &Vec<u8>, width: u32, height: u32) -> (gray: Vec<u8>)
    requires
        pixels@.len() == 4 * (width * height),
    ensures
        gray@ == luma_image(pixels@),
{
    let source: ImageBuffer<Rgba<u8>, &[u8]> = ImageBuffer::from_raw(
        width,
        height,
        pixels.as_slice(),
    ).unwrap();
    grayscale(&source).into_raw()
}

proof fn lemma_cell_position(row: nat, col: nat, side: nat)
    requires
        col < side,
    ensures
        (row * side + col) / side == row,
        (row * side + col) % side == col,
{
    lemma_fundamental_div_mod_converse(
        (row * side + col) as int,
        side as int,
        row as int,
        col as int,
    );
}

/// Difference hash of a grayscale image of `resolution + 1` columns and
/// `resolution` rows, given row by row.
pub fn gradient_hash(gray: &Vec<u8>, resolution: u32) -> (hash: u64)
    requires
        resolution <= MAX_RESOLUTION,
        gray@.len() == (resolution + 1) * resolution,
    ensures
        hash == gradient_fingerprint(gray@, resolution as nat),
{
    let mut hash: u64 = 0;
    let mut y: u32 = 0;
    while y < resolution
        invariant
            y <= resolution <= 8,
            gray@.len() == (resolution + 1) * resolution,
            hash == gradient_bits(gray@, resolution as nat, (y * resolution) as nat),
        decreases resolution - y,
    {
        let mut x: u32 = 0;
        assert(y * resolution + 0 == y * resolution);
        while x < resolution
            invariant
                x <= resolution <= 8,
                y < resolution,
                gray@.len() == (resolution + 1) * resolution,
                hash == gradient_bits(gray@, resolution as nat, (y * resolution + x) as nat),
            decreases resolution - x,
        {
            proof {
                lemma_cell_position(y as nat, x as nat, resolution as nat);
                assert(y * resolution + x < 64 && y * (resolution + 1) <= 63 && y * (resolution
                    + 1) + x + 1 < (resolution + 1) * resolution) by (nonlinear_arith)
                    requires
                        x < resolution,
                        y < resolution,
                        resolution <= 8,
                ;
            }
            let left = gray[(y * (resolution + 1) + x) as usize];
            let right = gray[(y * (resolution + 1) + x + 1) as usize];
            if left < right {
                hash = hash | (1u64 << (y * resolution + x));
            }
            x = x + 1;
        }
        assert(y * resolution + resolution == (y + 1) * resolution) by (nonlinear_arith);
        y = y + 1;
    }
    hash
}

/// Difference hash of `image` at the requested resolution.
#[allow(non_snake_case)]
pub fn dHash(image: &Frame, resolution: u32) -> (hash: u64)
    ensures
        hash == fingerprint(image@, resolution),
{
    let side: u32 = if resolution > MAX_RESOLUTION {
        MAX_RESOLUTION
    } else {
        resolution
    };
    if side == 0 {
        assert(0nat * 0nat == 0);
        return 0;
    }
    let pixels = image.pixels();
    assert(32 * (image@.width * side) <= usize::MAX && 32 * ((side + 1) * side) <= usize::MAX
        && 4 * ((side + 1) * side) / 4 == (side + 1) * side) by (nonlinear_arith)
        requires
            256 * image@.width <= usize::MAX,
            1 <= side <= 8,
            usize::MAX >= 0xffff_ffff,
    ;
    let resized = resize_rgba(pixels, image.width(), image.height(), side + 1, side);
    let gray = grayscale_rgba(&resized, side + 1, side);
    gradient_hash(&gray, side)
}

proof fn lemma_zero_has_no_set_bits(n: nat)
    requires
        n <= 64,
    ensures
        count_set_bits(0, n) == 0,
    decreases n,
{
    if n > 0 {
        lemma_zero_has_no_set_bits((n - 1) as nat);
        let i = (n - 1) as u64;
        assert((0u64 >> i) & 1 != 1) by (bit_vector);
    }
}

proof fn lemma_no_set_bits(x: u64, n: nat)
    requires
        1 <= n <= 64,
        count_set_bits(x, n) == 0,
    ensures
        x << ((64 - n) as u64) == 0,
    decreases n,
{
    if n == 1 {
        assert(count_set_bits(x, 0) == 0);
        assert(!bit_is_set(x, 0));
        assert((x >> 0u64) & 1 != 1 ==> x << 63u64 == 0) by (bit_vector);
    } else {
        lemma_no_set_bits(x, (n - 1) as nat);
        let k = (n - 1) as u64;
        let above = (64 - k) as u64;
        let here = (63 - k) as u64;
        assert(!bit_is_set(x, k));
        assert(1 <= k <= 63 && above == 64 - k && here == 63 - k && x << above == 0 && (x >> k) & 1
            != 1 ==> x << here == 0) by (bit_vector);
    }
}

/// Only the word without set bits has a population count of zero.
pub proof fn lemma_popcount_zero(x: u64)
    ensures
        popcount(x) == 0 <==> x == 0,
{
    if x == 0 {
        lemma_zero_has_no_set_bits(64);
    }
    if popcount(x) == 0 {
        lemma_no_set_bits(x, 64);
        assert(x << 0u64 == x) by (bit_vector);
    }
}

/// The distance of a fingerprint from itself is zero.
pub proof fn law_distance_to_itself(x: u64)
    ensures
        distance(x, x) == 0,
{
    assert(x ^ x == 0) by (bit_vector);
    lemma_popcount_zero(0);
}

/// The distance does not depend on the order of the two fingerprints.
pub proof fn law_distance_symmetric(a: u64, b: u64)
    ensures
        distance(a, b) == distance(b, a),
{
    assert(a ^ b == b ^ a) by (bit_vector);
}

/// The distance lies between 0 and 64.
pub proof fn law_distance_bounded(a: u64, b: u64)
    ensures
        0 <= distance(a, b) <= 64,
{
    lemma_count_set_bits_bound(a ^ b, 64);
}

/// The distance is zero exactly for equal fingerprints.
pub proof fn law_distance_zero_iff_equal(a: u64, b: u64)
    ensures
        distance(a, b) == 0 <==> a == b,
{
    lemma_popcount_zero(a ^ b);
    assert(a ^ b == 0 <==> a == b) by (bit_vector);
}

/// Two frames with the same size and the same bytes have the same
/// fingerprint at every resolution, and the distance of their fingerprints
/// is zero.
pub proof fn law_identical_frames(a: FrameView, b: FrameView, resolution: u32)
    requires
        a.width == b.width,
        a.height == b.height,
        a.pixels == b.pixels,
    ensures
        fingerprint(a, resolution) == fingerprint(b, resolution),
        distance(fingerprint(a, resolution), fingerprint(b, resolution)) == 0,
{
    law_distance_to_itself(fingerprint(a, resolution));
}

/// Bit `k` of a difference hash over `cells` cells is set exactly when `k`
/// is one of the cells and the image rises there.
pub proof fn law_fingerprint_bits(gray: Seq<u8>, side: nat, cells: nat, k: u64)
    requires
        cells <= 64,
        k < 64,
    ensures
        bit_is_set(gradient_bits(gray, side, cells), k) == (k < cells && rises_at(
            gray,
            side,
            k as nat,
        )),
    decreases cells,
{
    if cells == 0 {
        assert((0u64 >> k) & 1 != 1) by (bit_vector);
    } else {
        law_fingerprint_bits(gray, side, (cells - 1) as nat, k);
        let rest = gradient_bits(gray, side, (cells - 1) as nat);
        let c = (cells - 1) as u64;
        assert(c < 64 && k < 64 ==> ((((rest | (1u64 << c)) >> k) & 1 == 1) <==> (((rest >> k) & 1
            == 1) || k == c))) by (bit_vector);
    }
}

/// An image that rises nowhere, as one of a single colour, has the
/// difference hash zero.
pub proof fn law_flat_image_hashes_to_zero(gray: Seq<u8>, side: nat, cells: nat)
    requires
        forall|k: nat| k < cells ==> !rises_at(gray, side, k),
    ensures
        gradient_bits(gray, side, cells) == 0,
    decreases cells,
{
    if cells > 0 {
        law_flat_image_hashes_to_zero(gray, side, (cells - 1) as nat);
    }
}

} // verus!
