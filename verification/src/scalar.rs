//! Skia `scalar`s are IEEE-754 single-precision numbers.  The library holds
//! each one as its bit pattern (what `f32::to_bits` gives and `f32::from_bits`
//! takes back), so that everything the library decides about scalars is a
//! decision about plain integers.
use vstd::prelude::*;

verus! {

/// A Skia scalar, held as its IEEE-754 single-precision bit pattern.
pub type Scalar = u32;

/// The bit pattern of `0.0`.
pub const SCALAR_ZERO: Scalar = 0x0000_0000u32;

/// The bit pattern of `1.0`.
pub const SCALAR_ONE: Scalar = 0x3f80_0000u32;

/// Mask of every bit of a scalar but its sign.
pub const SCALAR_MAGNITUDE_MASK: u32 = 0x7fff_ffffu32;

/// The bit pattern of the positive infinity; larger magnitudes are NaNs.
pub const SCALAR_INFINITY: u32 = 0x7f80_0000u32;

/// `x` is `+0.0` or `-0.0`.
pub open spec fn spec_is_zero(x: Scalar) -> bool {
    x & 0x7fff_ffffu32 == 0
}

/// `x` is a NaN: all exponent bits set and a non-zero fraction.
pub open spec fn spec_is_nan(x: Scalar) -> bool {
    x & 0x7fff_ffffu32 > 0x7f80_0000u32
}

/// `x` is `1.0` (there is exactly one pattern for it).
pub open spec fn spec_is_one(x: Scalar) -> bool {
    x == 0x3f80_0000u32
}

/// `x` is finite: neither an infinity nor a NaN (its exponent bits are not all set).
pub open spec fn spec_is_finite(x: Scalar) -> bool {
    x & 0x7f80_0000u32 != 0x7f80_0000u32
}

/// IEEE-754 equality `x == y` of two single-precision numbers: no NaN equals
/// anything, the two zeros are equal, and otherwise equal numbers have equal
/// patterns.
pub open spec fn spec_scalar_eq(x: Scalar, y: Scalar) -> bool {
    &&& !spec_is_nan(x)
    &&& !spec_is_nan(y)
    &&& (x == y || (spec_is_zero(x) && spec_is_zero(y)))
}

/// Whether the scalar is a zero (`x == 0.0`).
pub fn is_zero(x: Scalar) -> (r: bool)
    ensures
        r == spec_is_zero(x),
{
    x & SCALAR_MAGNITUDE_MASK == 0
}

/// Whether the scalar is a NaN (`x.is_nan()`).
pub fn is_nan(x: Scalar) -> (r: bool)
    ensures
        r == spec_is_nan(x),
{
    x & SCALAR_MAGNITUDE_MASK > SCALAR_INFINITY
}

/// Whether the scalar is finite (`x.is_finite()`).
pub fn is_finite(x: Scalar) -> (r: bool)
    ensures
        r == spec_is_finite(x),
{
    x & SCALAR_INFINITY != SCALAR_INFINITY
}

/// Whether the scalar is one (`x == 1.0`).
pub fn is_one(x: Scalar) -> (r: bool)
    ensures
        r == spec_is_one(x),
{
    x == SCALAR_ONE
}

/// The negation of a scalar (`-x`): its sign bit flipped.
pub open spec fn spec_neg(x: Scalar) -> Scalar {
    x ^ 0x8000_0000u32
}

/// The negation of a scalar (`-x` on `f32`), which flips its sign bit.
pub fn neg(x: Scalar) -> (r: Scalar)
    ensures
        r == spec_neg(x),
{
    x ^ 0x8000_0000u32
}

/// IEEE-754 equality of two scalars (`x == y` on `f32`).
pub fn scalar_eq(x: Scalar, y: Scalar) -> (r: bool)
    ensures
        r == spec_scalar_eq(x, y),
{
    !is_nan(x) && !is_nan(y) && (x == y || (is_zero(x) && is_zero(y)))
}

/// What the predicates say of the patterns of zero and one.
pub proof fn lemma_scalar_constants()
    by (bit_vector)
    ensures
        spec_is_zero(0u32),
        !spec_is_zero(0x3f80_0000u32),
        !spec_is_nan(0u32),
        !spec_is_nan(0x3f80_0000u32),
{
}

/// Scalar equality is symmetric.
pub proof fn lemma_scalar_eq_symmetric(x: Scalar, y: Scalar)
    ensures
        spec_scalar_eq(x, y) == spec_scalar_eq(y, x),
{
}

/// Scalar equality is reflexive exactly on the numbers that are not NaN.
pub proof fn lemma_scalar_eq_reflexive(x: Scalar)
    ensures
        spec_scalar_eq(x, x) == !spec_is_nan(x),
{
}

/// Scalar equality is transitive.
pub proof fn lemma_scalar_eq_transitive(x: Scalar, y: Scalar, z: Scalar)
    requires
        spec_scalar_eq(x, y),
        spec_scalar_eq(y, z),
    ensures
        spec_scalar_eq(x, z),
{
}

} // verus!
