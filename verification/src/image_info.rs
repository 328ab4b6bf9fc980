//! The rules on the memory that holds the pixels of an image.
use vstd::prelude::*;

verus! {

/// Shifting a length right and back left by `s` keeps it exactly when it is
/// a multiple of `2^s`.
proof fn lemma_shift_round_trip(x: usize, s: usize)
    requires
        s <= 4,
    ensures
        ((x >> s) << s == x) == (x % (1usize << s) == 0),
{
    if s == 0 {
        assert(((x >> 0usize) << 0usize == x) == (x % (1usize << 0usize) == 0)) by (bit_vector);
    } else if s == 1 {
        assert(((x >> 1usize) << 1usize == x) == (x % (1usize << 1usize) == 0)) by (bit_vector);
    } else if s == 2 {
        assert(((x >> 2usize) << 2usize == x) == (x % (1usize << 2usize) == 0)) by (bit_vector);
    } else if s == 3 {
        assert(((x >> 3usize) << 3usize == x) == (x % (1usize << 3usize) == 0)) by (bit_vector);
    } else {
        assert(((x >> 4usize) << 4usize == x) == (x % (1usize << 4usize) == 0)) by (bit_vector);
    }
}

/// Whether `row_bytes` is a valid row length for an image whose rows need at
/// least `min_row_bytes` bytes and whose pixels take `2^shift_per_pixel`
/// bytes (a pixel takes at most 16 bytes): it is long enough and a whole
/// number of pixels.
pub fn valid_row_bytes(row_bytes: usize, min_row_bytes: usize, shift_per_pixel: usize) -> (r: bool)
    requires
        shift_per_pixel <= 4,
    ensures
        r == (row_bytes >= min_row_bytes && row_bytes % (1usize << shift_per_pixel) == 0),
{
    if row_bytes < min_row_bytes {
        return false;
    }
    proof {
        lemma_shift_round_trip(row_bytes, shift_per_pixel);
    }
    let aligned_row_bytes = row_bytes >> shift_per_pixel << shift_per_pixel;
    aligned_row_bytes == row_bytes
}

/// Whether a pixel buffer of `pixels_size` bytes with rows of `row_bytes`
/// bytes can hold an image whose rows need at least `min_row_bytes` bytes,
/// whose pixels take `2^shift_per_pixel` bytes, and which takes
/// `byte_size` bytes with that row length.
pub fn valid_pixels(
    row_bytes: usize,
    pixels_size: usize,
    min_row_bytes: usize,
    shift_per_pixel: usize,
    byte_size: usize,
) -> (r: bool)
    requires
        shift_per_pixel <= 4,
    ensures
        r == (row_bytes >= min_row_bytes && row_bytes % (1usize << shift_per_pixel) == 0
            && pixels_size >= byte_size),
{
    valid_row_bytes(row_bytes, min_row_bytes, shift_per_pixel) && pixels_size >= byte_size
}

} // verus!
