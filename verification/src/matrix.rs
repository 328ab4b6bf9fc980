//! A 3x3 transformation matrix, with the type mask that classifies it.
use vstd::prelude::*;
use crate::scalar::{
    Scalar, SCALAR_ONE, spec_is_one, spec_is_zero, spec_is_finite, spec_scalar_eq, is_one, is_zero, is_finite, scalar_eq,
    lemma_scalar_constants, spec_is_nan, spec_neg, neg,
};
use crate::types::RSXform;

verus! {

/// The classes of transformation that a [`Matrix`] may perform, as a set of bits.
#[derive(Clone, Copy, PartialEq, Eq, Structural, Debug)]
pub struct TypeMask {
    bits: u32,
}

/// The bit of the translation class.
pub const TRANSLATE_BIT: u32 = 0x01u32;
/// The bit of the scale class.
pub const SCALE_BIT: u32 = 0x02u32;
/// The bit of the skew/rotation class.
pub const AFFINE_BIT: u32 = 0x04u32;
/// The bit of the perspective class.
pub const PERSPECTIVE_BIT: u32 = 0x08u32;
/// Every bit that a public [`TypeMask`] may hold.
pub const ALL_TYPE_BITS: u32 = 0x0fu32;
/// The cached-mask bit: the matrix maps rectangles to rectangles.
pub const RECT_STAYS_RECT_BIT: u32 = 0x10u32;
/// The cached-mask bit: the cached mask must be computed again.
pub const UNKNOWN_BIT: u32 = 0x80u32;

impl TypeMask {
    /// The identity: no class set.
    pub fn identity() -> (r: TypeMask)
        ensures
            r.spec_bits() == 0,
    {
        TypeMask { bits: 0 }
    }

    /// The translation class.
    pub fn translate() -> (r: TypeMask)
        ensures
            r.spec_bits() == TRANSLATE_BIT,
    {
        TypeMask { bits: TRANSLATE_BIT }
    }

    /// The scale class.
    pub fn scale() -> (r: TypeMask)
        ensures
            r.spec_bits() == SCALE_BIT,
    {
        TypeMask { bits: SCALE_BIT }
    }

    /// The skew/rotation class.
    pub fn affine() -> (r: TypeMask)
        ensures
            r.spec_bits() == AFFINE_BIT,
    {
        TypeMask { bits: AFFINE_BIT }
    }

    /// The perspective class.
    pub fn perspective() -> (r: TypeMask)
        ensures
            r.spec_bits() == PERSPECTIVE_BIT,
    {
        TypeMask { bits: PERSPECTIVE_BIT }
    }

    /// The bits of the mask.
    pub closed spec fn spec_bits(self) -> u32 {
        self.bits
    }

    /// Two masks with the same bits are the same mask.
    pub proof fn lemma_eq_from_bits(a: TypeMask, b: TypeMask)
        requires
            a.spec_bits() == b.spec_bits(),
        ensures
            a == b,
    {
    }

    /// The bits of the mask.
    pub fn bits(&self) -> (r: u32)
        ensures
            r == self.spec_bits(),
    {
        self.bits
    }

    /// The mask of the known bits of `bits`; the others are dropped.
    pub fn from_bits_truncate(bits: u32) -> (r: TypeMask)
        ensures
            r.spec_bits() == bits & 0x0f,
    {
        TypeMask { bits: bits & ALL_TYPE_BITS }
    }

    /// No class is set.
    pub fn is_empty(&self) -> (r: bool)
        ensures
            r == (self.spec_bits() == 0),
    {
        self.bits == 0
    }

    /// Every class of `other` is set in `self`.
    pub fn contains(&self, other: TypeMask) -> (r: bool)
        ensures
            r == (self.spec_bits() & other.spec_bits() == other.spec_bits()),
    {
        self.bits & other.bits == other.bits
    }

    /// The classes of either mask.
    pub fn union(self, other: TypeMask) -> (r: TypeMask)
        ensures
            r.spec_bits() == self.spec_bits() | other.spec_bits(),
    {
        TypeMask { bits: self.bits | other.bits }
    }

    /// The classes of both masks.
    pub fn intersection(self, other: TypeMask) -> (r: TypeMask)
        ensures
            r.spec_bits() == self.spec_bits() & other.spec_bits(),
    {
        TypeMask { bits: self.bits & other.bits }
    }

    /// The known classes that are not in `self`.
    pub fn complement(self) -> (r: TypeMask)
        ensures
            r.spec_bits() == !self.spec_bits() & 0x0f,
    {
        TypeMask { bits: !self.bits & ALL_TYPE_BITS }
    }
}


/// Entry `i` of the matrix is a zero.
pub open spec fn zero_at(m: Seq<Scalar>, i: int) -> bool {
    spec_is_zero(m[i])
}

/// Entry `i` of the matrix is one.
pub open spec fn one_at(m: Seq<Scalar>, i: int) -> bool {
    spec_is_one(m[i])
}

/// The matrix has a perspective row other than `0 0 1`.
pub open spec fn spec_has_perspective(m: Seq<Scalar>) -> bool {
    !zero_at(m, 6) || !zero_at(m, 7) || !one_at(m, 8)
}

/// The matrix translates: one of its translation entries is not zero.
pub open spec fn spec_has_translation(m: Seq<Scalar>) -> bool {
    !zero_at(m, 2) || !zero_at(m, 5)
}

/// The matrix skews or rotates: one of its skew entries is not zero.
pub open spec fn spec_has_skew(m: Seq<Scalar>) -> bool {
    !zero_at(m, 1) || !zero_at(m, 3)
}

/// The matrix scales: one of its scale entries is not one.
pub open spec fn spec_has_scale(m: Seq<Scalar>) -> bool {
    !one_at(m, 0) || !one_at(m, 4)
}

/// The matrix maps rectangles to rectangles: no perspective, and either no
/// skew and non-zero scales, or zero scales and non-zero skews (a rotation by
/// a multiple of 90 degrees, possibly mirrored).
pub open spec fn spec_rect_stays_rect(m: Seq<Scalar>) -> bool {
    &&& !spec_has_perspective(m)
    &&& if spec_has_skew(m) {
        zero_at(m, 0) && zero_at(m, 4) && !zero_at(m, 1) && !zero_at(m, 3)
    } else {
        !zero_at(m, 0) && !zero_at(m, 4)
    }
}

/// The bit `bit` when `b` holds, else nothing.
pub open spec fn bit_if(b: bool, bit: u32) -> u32 {
    if b { bit } else { 0 }
}

/// The classes of a matrix, as documented for Skia's `getType`: a perspective
/// matrix is in every class; otherwise the translation class when it
/// translates, the affine class when it skews, and the scale class when it
/// scales or skews (skews are counted as scaling).
pub open spec fn spec_type_bits(m: Seq<Scalar>) -> u32 {
    if spec_has_perspective(m) {
        0x0f
    } else {
        (bit_if(spec_has_translation(m), 0x01) + bit_if(spec_has_scale(m) || spec_has_skew(m), 0x02)
            + bit_if(spec_has_skew(m), 0x04)) as u32
    }
}

/// The full cached mask of a matrix: its classes, plus the rect-stays-rect bit.
pub open spec fn spec_cache_bits(m: Seq<Scalar>) -> u32 {
    (spec_type_bits(m) + bit_if(spec_rect_stays_rect(m), 0x10)) as u32
}

/// The low four bits of the cached mask are the classes.
pub proof fn lemma_cache_bits_low(m: Seq<Scalar>)
    ensures
        spec_cache_bits(m) & 0x0f == spec_type_bits(m),
        spec_cache_bits(m) & 0x80 == 0,
        spec_type_bits(m) & 0x0f == spec_type_bits(m),
{
    let t = spec_type_bits(m);
    let r = bit_if(spec_rect_stays_rect(m), 0x10);
    assert(t <= 0x0f);
    assert(r == 0 || r == 0x10);
    if r == 0 {
        assert((t + 0u32) as u32 & 0x0f == t && (t + 0u32) as u32 & 0x80 == 0 && t & 0x0f == t) by (bit_vector)
            requires t <= 0x0f;
    } else {
        assert((t + 0x10u32) as u32 & 0x0f == t && (t + 0x10u32) as u32 & 0x80 == 0 && t & 0x0f == t) by (bit_vector)
            requires t <= 0x0f;
    }
}


/// The named entries of a [`Matrix`], row after row.
#[derive(Clone, Copy, PartialEq, Eq, Structural, Debug)]
pub enum Member {
    ScaleX,
    SkewX,
    TransX,
    SkewY,
    ScaleY,
    TransY,
    Persp0,
    Persp1,
    Persp2,
}

/// The named entries of an affine array, in its column-major order.
#[derive(Clone, Copy, PartialEq, Eq, Structural, Debug)]
pub enum AffineMember {
    ScaleX,
    SkewY,
    SkewX,
    ScaleY,
    TransX,
    TransY,
}

/// What names an entry of a [`Matrix`]: its position among the nine entries.
pub trait MatrixIndex: Copy {
    /// The position named.
    spec fn spec_position(self) -> int;

    /// The position named.
    fn position(self) -> (r: usize)
        ensures
            r as int == self.spec_position(),
    ;
}

impl MatrixIndex for Member {
    open spec fn spec_position(self) -> int {
        match self {
            Member::ScaleX => 0,
            Member::SkewX => 1,
            Member::TransX => 2,
            Member::SkewY => 3,
            Member::ScaleY => 4,
            Member::TransY => 5,
            Member::Persp0 => 6,
            Member::Persp1 => 7,
            Member::Persp2 => 8,
        }
    }

    fn position(self) -> (r: usize) {
        match self {
            Member::ScaleX => 0,
            Member::SkewX => 1,
            Member::TransX => 2,
            Member::SkewY => 3,
            Member::ScaleY => 4,
            Member::TransY => 5,
            Member::Persp0 => 6,
            Member::Persp1 => 7,
            Member::Persp2 => 8,
        }
    }
}

/// An affine member names the matrix entry at its own ordinal, the way the
/// matrix is indexed by one.
impl MatrixIndex for AffineMember {
    open spec fn spec_position(self) -> int {
        match self {
            AffineMember::ScaleX => 0,
            AffineMember::SkewY => 1,
            AffineMember::SkewX => 2,
            AffineMember::ScaleY => 3,
            AffineMember::TransX => 4,
            AffineMember::TransY => 5,
        }
    }

    fn position(self) -> (r: usize) {
        match self {
            AffineMember::ScaleX => 0,
            AffineMember::SkewY => 1,
            AffineMember::SkewX => 2,
            AffineMember::ScaleY => 3,
            AffineMember::TransX => 4,
            AffineMember::TransY => 5,
        }
    }
}

impl MatrixIndex for usize {
    open spec fn spec_position(self) -> int {
        self as int
    }

    fn position(self) -> (r: usize) {
        self
    }
}

/// A 3x3 matrix of scalars, row after row:
/// `| scale-x skew-x trans-x | skew-y scale-y trans-y | persp-0 persp-1 persp-2 |`,
/// with a cached classification of the transformation it performs.
#[derive(Clone, Copy, Debug)]
pub struct Matrix {
    mat: [Scalar; 9],
    type_mask: u32,
}

impl View for Matrix {
    type V = Seq<Scalar>;

    /// The nine entries, row after row.
    closed spec fn view(&self) -> Seq<Scalar> {
        self.mat@
    }
}

/// The entries of the identity matrix.
pub open spec fn spec_identity() -> Seq<Scalar> {
    seq![0x3f80_0000u32, 0u32, 0u32, 0u32, 0x3f80_0000u32, 0u32, 0u32, 0u32, 0x3f80_0000u32]
}

/// The entries of the translation by `(dx, dy)`.
pub open spec fn spec_translate(dx: Scalar, dy: Scalar) -> Seq<Scalar> {
    seq![0x3f80_0000u32, 0u32, dx, 0u32, 0x3f80_0000u32, dy, 0u32, 0u32, 0x3f80_0000u32]
}

/// The entries of the scale by `(sx, sy)` followed by the translation by `(tx, ty)`.
pub open spec fn spec_scale_translate(sx: Scalar, sy: Scalar, tx: Scalar, ty: Scalar) -> Seq<Scalar> {
    seq![sx, 0u32, tx, 0u32, sy, ty, 0u32, 0u32, 0x3f80_0000u32]
}

/// The entries of the rotation-scale transform `(scos, ssin)` followed by the
/// translation `(tx, ty)`.
pub open spec fn spec_rsxform(scos: Scalar, ssin: Scalar, tx: Scalar, ty: Scalar) -> Seq<Scalar> {
    seq![scos, spec_neg(ssin), tx, ssin, scos, ty, 0u32, 0u32, 0x3f80_0000u32]
}

/// The affine array (column-major) of the entries of a matrix.
pub open spec fn spec_affine_of(m: Seq<Scalar>) -> Seq<Scalar> {
    seq![m[0], m[3], m[1], m[4], m[2], m[5]]
}

/// The entries of the matrix of an affine array (column-major).
pub open spec fn spec_from_affine(a: Seq<Scalar>) -> Seq<Scalar> {
    seq![a[0], a[2], a[4], a[1], a[3], a[5], 0u32, 0u32, 0x3f80_0000u32]
}

/// Whether the entries are those of the identity matrix.
pub open spec fn spec_is_identity(m: Seq<Scalar>) -> bool {
    &&& one_at(m, 0) && zero_at(m, 1) && zero_at(m, 2)
    &&& zero_at(m, 3) && one_at(m, 4) && zero_at(m, 5)
    &&& zero_at(m, 6) && zero_at(m, 7) && one_at(m, 8)
}

/// Whether the matrix at most scales and translates.
pub open spec fn spec_is_scale_translate(m: Seq<Scalar>) -> bool {
    !spec_has_perspective(m) && !spec_has_skew(m)
}

/// Whether the matrix at most translates.
pub open spec fn spec_is_translate(m: Seq<Scalar>) -> bool {
    !spec_has_perspective(m) && !spec_has_skew(m) && !spec_has_scale(m)
}

/// Facts on the low bits of a class mask, by the value of its classes.
proof fn lemma_class_bits()
    by (bit_vector)
    ensures
        forall|x: u32| x <= 7 ==> ((x & 0x0c == 0) <==> x <= 3),
        forall|x: u32| x <= 7 ==> ((x & 0x0e == 0) <==> x <= 1),
        forall|x: u32| x <= 7 ==> ((x & 0x08 == 0) && (x & 0x0f == x)),
        (0x0fu32 & 0x0c != 0) && (0x0fu32 & 0x0e != 0) && (0x0fu32 & 0x08 != 0),
        (0x02u32 | 0x01u32) == 0x03u32,
        0x0fu32 & 0x08u32 == 0x08u32,
        0x80u32 & 0x80u32 != 0,
        !0x03u32 & 0x0fu32 == 0x0cu32,
        !0x01u32 & 0x0fu32 == 0x0eu32,
{
}

impl Matrix {
    /// The cache is either marked unknown or holds the mask of the entries.
    #[verifier::type_invariant]
    closed spec fn cache_is_coherent(self) -> bool {
        self.type_mask & 0x80 != 0 || self.type_mask == spec_cache_bits(self.mat@)
    }

    /// The stored type mask: the cached classification bits, or
    /// [`UNKNOWN_BIT`] when the classification must be computed again.
    pub closed spec fn spec_stored_mask(self) -> u32 {
        self.type_mask
    }

    /// A matrix always has nine entries.
    pub proof fn lemma_len(&self)
        ensures
            self@.len() == 9,
    {
    }

    /// The cached mask of the entries, computed from them.
    fn compute_cache_bits(mat: &[Scalar; 9]) -> (r: u32)
        ensures
            r == spec_cache_bits(mat@),
    {
        let persp = !is_zero(mat[6]) || !is_zero(mat[7]) || !is_one(mat[8]);
        let translation = !is_zero(mat[2]) || !is_zero(mat[5]);
        let skew = !is_zero(mat[1]) || !is_zero(mat[3]);
        let scale = !is_one(mat[0]) || !is_one(mat[4]);
        let classes: u32 = if persp {
            0x0f
        } else {
            (if translation { 1u32 } else { 0u32 }) + (if scale || skew { 2u32 } else { 0u32 }) + (
            if skew { 4u32 } else { 0u32 })
        };
        let rect_stays_rect = !persp && if skew {
            is_zero(mat[0]) && is_zero(mat[4]) && !is_zero(mat[1]) && !is_zero(mat[3])
        } else {
            !is_zero(mat[0]) && !is_zero(mat[4])
        };
        classes + if rect_stays_rect { RECT_STAYS_RECT_BIT } else { 0u32 }
    }

    /// The identity matrix.
    fn new() -> (r: Matrix)
        ensures
            r@ == spec_identity(),
    {
        proof {
            lemma_scalar_constants();
        }
        let r = Matrix {
            mat: [SCALAR_ONE, 0, 0, 0, SCALAR_ONE, 0, 0, 0, SCALAR_ONE],
            type_mask: RECT_STAYS_RECT_BIT,
        };
        assert(r.mat@ =~= spec_identity());
        r
    }

    /// The identity matrix.
    pub fn new_identity() -> (r: Matrix)
        ensures
            r@ == spec_identity(),
    {
        Self::new()
    }

    /// The classes of transformation the matrix performs (Skia's `getType`).
    pub fn get_type(&self) -> (r: TypeMask)
        ensures
            r.spec_bits() == spec_type_bits(self@),
    {
        proof {
            use_type_invariant(self);
            lemma_cache_bits_low(self.mat@);
        }
        let bits = if self.type_mask & UNKNOWN_BIT != 0 {
            Self::compute_cache_bits(&self.mat)
        } else {
            self.type_mask
        };
        TypeMask::from_bits_truncate(bits)
    }

    /// Whether the matrix is the identity.
    pub fn is_identity(&self) -> (r: bool)
        ensures
            r == spec_is_identity(self@),
    {
        let t = self.get_type();
        proof {
            lemma_class_bits();
        }
        t.bits() == TypeMask::identity().bits()
    }

    /// Whether the matrix at most scales and translates.
    pub fn is_scale_translate(&self) -> (r: bool)
        ensures
            r == spec_is_scale_translate(self@),
    {
        let t = self.get_type();
        proof {
            lemma_class_bits();
        }
        t.intersection(TypeMask::scale().union(TypeMask::translate()).complement()).is_empty()
    }

    /// Whether the matrix is the identity or only translates.
    pub fn is_translate(&self) -> (r: bool)
        ensures
            r == spec_is_translate(self@),
    {
        let t = self.get_type();
        proof {
            lemma_class_bits();
        }
        t.intersection(TypeMask::translate().complement()).is_empty()
    }

    /// Whether the matrix maps rectangles to rectangles.
    pub fn rect_stays_rect(&self) -> (r: bool)
        ensures
            r == spec_rect_stays_rect(self@),
    {
        proof {
            use_type_invariant(self);
        }
        let bits = if self.type_mask & UNKNOWN_BIT != 0 {
            Self::compute_cache_bits(&self.mat)
        } else {
            self.type_mask
        };
        proof {
            let t = spec_type_bits(self.mat@);
            assert(t <= 0x0f);
            if spec_rect_stays_rect(self.mat@) {
                assert(((t + 0x10u32) as u32) & 0x10 != 0) by (bit_vector)
                    requires t <= 0x0f;
            } else {
                assert(((t + 0u32) as u32) & 0x10 == 0) by (bit_vector)
                    requires t <= 0x0f;
            }
        }
        bits & RECT_STAYS_RECT_BIT != 0
    }

    /// Whether the matrix keeps axis-aligned rectangles axis-aligned; the
    /// same as [`Matrix::rect_stays_rect`].
    pub fn preserves_axis_alignment(&self) -> (r: bool)
        ensures
            r == spec_rect_stays_rect(self@),
    {
        self.rect_stays_rect()
    }

    /// Whether the matrix has a perspective row other than `0 0 1`.
    pub fn has_perspective(&self) -> (r: bool)
        ensures
            r == spec_has_perspective(self@),
    {
        let t = self.get_type();
        proof {
            lemma_class_bits();
        }
        t.contains(TypeMask::perspective())
    }

    /// The entry in row `r` and column `c`.
    pub fn rc(&self, r: usize, c: usize) -> (v: Scalar)
        requires
            r <= 2,
            c <= 2,
        ensures
            v == self@[r * 3 + c],
    {
        self.mat[r * 3 + c]
    }

    /// The entry at `index`.
    pub fn get<I: MatrixIndex>(&self, index: I) -> (v: Scalar)
        requires
            0 <= index.spec_position() < 9,
        ensures
            v == self@[index.spec_position()],
    {
        self.mat[index.position()]
    }

    /// Sets the entry at `index`; the cached classification is dropped.
    pub fn set<I: MatrixIndex>(&mut self, index: I, value: Scalar) -> (r: &mut Self)
        requires
            0 <= index.spec_position() < 9,
        ensures
            r@ == old(self)@.update(index.spec_position(), value),
            *final(self) == *final(r),
    {
        proof {
            lemma_class_bits();
        }
        let mut mat = self.mat;
        mat[index.position()] = value;
        *self = Matrix { mat, type_mask: UNKNOWN_BIT };
        self
    }

    /// The scale factor along x (entry 0).
    pub fn scale_x(&self) -> (v: Scalar)
        ensures
            v == self@[0],
    {
        self.mat[0]
    }

    /// The scale factor along y (entry 4).
    pub fn scale_y(&self) -> (v: Scalar)
        ensures
            v == self@[4],
    {
        self.mat[4]
    }

    /// The skew factor along y (entry 3).
    pub fn skew_y(&self) -> (v: Scalar)
        ensures
            v == self@[3],
    {
        self.mat[3]
    }

    /// The skew factor along x (entry 1).
    pub fn skew_x(&self) -> (v: Scalar)
        ensures
            v == self@[1],
    {
        self.mat[1]
    }

    /// The translation along x (entry 2).
    pub fn translate_x(&self) -> (v: Scalar)
        ensures
            v == self@[2],
    {
        self.mat[2]
    }

    /// The translation along y (entry 5).
    pub fn translate_y(&self) -> (v: Scalar)
        ensures
            v == self@[5],
    {
        self.mat[5]
    }

    /// The first perspective entry (entry 6).
    pub fn persp_x(&self) -> (v: Scalar)
        ensures
            v == self@[6],
    {
        self.mat[6]
    }

    /// The second perspective entry (entry 7).
    pub fn persp_y(&self) -> (v: Scalar)
        ensures
            v == self@[7],
    {
        self.mat[7]
    }

    /// Sets the scale factor along x (entry 0); the cached classification is dropped.
    pub fn set_scale_x(&mut self, v: Scalar) -> (r: &mut Self)
        ensures
            r@ == old(self)@.update(0, v),
            *final(self) == *final(r),
    {
        self.set(Member::ScaleX, v)
    }

    /// Sets the scale factor along y (entry 4); the cached classification is dropped.
    pub fn set_scale_y(&mut self, v: Scalar) -> (r: &mut Self)
        ensures
            r@ == old(self)@.update(4, v),
            *final(self) == *final(r),
    {
        self.set(Member::ScaleY, v)
    }

    /// Sets the skew factor along y (entry 3); the cached classification is dropped.
    pub fn set_skew_y(&mut self, v: Scalar) -> (r: &mut Self)
        ensures
            r@ == old(self)@.update(3, v),
            *final(self) == *final(r),
    {
        self.set(Member::SkewY, v)
    }

    /// Sets the skew factor along x (entry 1); the cached classification is dropped.
    pub fn set_skew_x(&mut self, v: Scalar) -> (r: &mut Self)
        ensures
            r@ == old(self)@.update(1, v),
            *final(self) == *final(r),
    {
        self.set(Member::SkewX, v)
    }

    /// Sets the translation along x (entry 2); the cached classification is dropped.
    pub fn set_translate_x(&mut self, v: Scalar) -> (r: &mut Self)
        ensures
            r@ == old(self)@.update(2, v),
            *final(self) == *final(r),
    {
        self.set(Member::TransX, v)
    }

    /// Sets the translation along y (entry 5); the cached classification is dropped.
    pub fn set_translate_y(&mut self, v: Scalar) -> (r: &mut Self)
        ensures
            r@ == old(self)@.update(5, v),
            *final(self) == *final(r),
    {
        self.set(Member::TransY, v)
    }

    /// Sets the first perspective entry (entry 6); the cached classification is dropped.
    pub fn set_persp_x(&mut self, v: Scalar) -> (r: &mut Self)
        ensures
            r@ == old(self)@.update(6, v),
            *final(self) == *final(r),
    {
        self.set(Member::Persp0, v)
    }

    /// Sets the second perspective entry (entry 7); the cached classification is dropped.
    pub fn set_persp_y(&mut self, v: Scalar) -> (r: &mut Self)
        ensures
            r@ == old(self)@.update(7, v),
            *final(self) == *final(r),
    {
        self.set(Member::Persp1, v)
    }

    /// Sets all nine entries, row after row; the cached classification is dropped.
    #[allow(clippy::too_many_arguments)]
    pub fn set_all(
        &mut self,
        scale_x: Scalar,
        skew_x: Scalar,
        trans_x: Scalar,
        skew_y: Scalar,
        scale_y: Scalar,
        trans_y: Scalar,
        persp_0: Scalar,
        persp_1: Scalar,
        persp_2: Scalar,
    ) -> (r: &mut Self)
        ensures
            r@ == seq![scale_x, skew_x, trans_x, skew_y, scale_y, trans_y, persp_0, persp_1, persp_2],
            *final(self) == *final(r),
    {
        proof {
            lemma_class_bits();
        }
        let mat = [scale_x, skew_x, trans_x, skew_y, scale_y, trans_y, persp_0, persp_1, persp_2];
        *self = Matrix { mat, type_mask: UNKNOWN_BIT };
        assert(self.mat@ =~= seq![scale_x, skew_x, trans_x, skew_y, scale_y, trans_y, persp_0, persp_1, persp_2]);
        self
    }

    /// The matrix with the nine given entries, row after row.
    #[allow(clippy::too_many_arguments)]
    pub fn new_all(
        scale_x: Scalar,
        skew_x: Scalar,
        trans_x: Scalar,
        skew_y: Scalar,
        scale_y: Scalar,
        trans_y: Scalar,
        pers_0: Scalar,
        pers_1: Scalar,
        pers_2: Scalar,
    ) -> (m: Matrix)
        ensures
            m@ == seq![scale_x, skew_x, trans_x, skew_y, scale_y, trans_y, pers_0, pers_1, pers_2],
    {
        let mut m = Self::new();
        m.set_all(scale_x, skew_x, trans_x, skew_y, scale_y, trans_y, pers_0, pers_1, pers_2);
        m
    }

    /// Copies the nine entries, row after row, into `buffer`.
    pub fn get_9(&self, buffer: &mut [Scalar; 9])
        ensures
            final(buffer)@ == self@,
    {
        *buffer = self.mat;
    }

    /// Sets the nine entries from `buffer`, row after row; the cached
    /// classification is dropped.
    pub fn set_9(&mut self, buffer: &[Scalar; 9]) -> (r: &mut Self)
        ensures
            r@ == buffer@,
            *final(self) == *final(r),
    {
        proof {
            lemma_class_bits();
        }
        *self = Matrix { mat: *buffer, type_mask: UNKNOWN_BIT };
        self
    }

    /// Sets the matrix to the identity.
    pub fn reset(&mut self) -> (r: &mut Self)
        ensures
            r@ == spec_identity(),
            *final(self) == *final(r),
    {
        *self = Self::new();
        self
    }

    /// Sets the matrix to the identity.
    pub fn set_identity(&mut self) -> (r: &mut Self)
        ensures
            r@ == spec_identity(),
            *final(self) == *final(r),
    {
        self.reset()
    }

    /// Sets the matrix to translate by `(dx, dy)`:
    /// `| 1 0 dx | 0 1 dy | 0 0 1 |`.
    pub fn set_translate(&mut self, d: (Scalar, Scalar)) -> (r: &mut Self)
        ensures
            r@ == spec_translate(d.0, d.1),
            *final(self) == *final(r),
    {
        let (dx, dy) = d;
        let mat = [SCALAR_ONE, 0, dx, 0, SCALAR_ONE, dy, 0, 0, SCALAR_ONE];
        let type_mask = Self::compute_cache_bits(&mat);
        *self = Matrix { mat, type_mask };
        assert(self.mat@ =~= spec_translate(dx, dy));
        self
    }

    /// The matrix that translates by `d`.
    #[must_use]
    pub fn translate(d: (Scalar, Scalar)) -> (m: Matrix)
        ensures
            m@ == spec_translate(d.0, d.1),
    {
        let mut m = Self::new();
        m.set_translate(d);
        m
    }

    /// The matrix that translates by `d`.
    pub fn new_trans(d: (Scalar, Scalar)) -> (m: Matrix)
        ensures
            m@ == spec_translate(d.0, d.1),
    {
        Self::translate(d)
    }

    /// Sets the matrix to scale by `s` and then translate by `t`:
    /// `| sx 0 tx | 0 sy ty | 0 0 1 |`.
    pub fn set_scale_translate(&mut self, s: (Scalar, Scalar), t: (Scalar, Scalar)) -> (r: &mut Self)
        ensures
            r@ == spec_scale_translate(s.0, s.1, t.0, t.1),
            *final(self) == *final(r),
    {
        let (sx, sy) = s;
        let (tx, ty) = t;
        let mat = [sx, 0, tx, 0, sy, ty, 0, 0, SCALAR_ONE];
        let type_mask = Self::compute_cache_bits(&mat);
        *self = Matrix { mat, type_mask };
        assert(self.mat@ =~= spec_scale_translate(sx, sy, tx, ty));
        self
    }

    /// Sets the matrix to rotate, scale and translate by a compressed form:
    /// `| scos -ssin tx | ssin scos ty | 0 0 1 |`; the cached classification
    /// is dropped.
    pub fn set_rsxform(&mut self, rsxform: &RSXform) -> (r: &mut Self)
        ensures
            r@ == spec_rsxform(rsxform.scos, rsxform.ssin, rsxform.tx, rsxform.ty),
            *final(self) == *final(r),
    {
        proof {
            lemma_class_bits();
        }
        let mat = [
            rsxform.scos,
            neg(rsxform.ssin),
            rsxform.tx,
            rsxform.ssin,
            rsxform.scos,
            rsxform.ty,
            0,
            0,
            SCALAR_ONE,
        ];
        *self = Matrix { mat, type_mask: UNKNOWN_BIT };
        assert(self.mat@ =~= spec_rsxform(rsxform.scos, rsxform.ssin, rsxform.tx, rsxform.ty));
        self
    }

    /// Drops the cached classification: the stored mask becomes
    /// [`UNKNOWN_BIT`], and the entries stay as they are.
    pub fn dirty_matrix_type_cache(&mut self)
        ensures
            final(self)@ == old(self)@,
            final(self).spec_stored_mask() == UNKNOWN_BIT,
    {
        proof {
            lemma_class_bits();
        }
        *self = Matrix { mat: self.mat, type_mask: UNKNOWN_BIT };
    }

    /// The identity matrix.
    pub fn i() -> (m: Matrix)
        ensures
            m@ == spec_identity(),
    {
        Self::new()
    }

    /// Whether every entry is finite: neither an infinity nor a NaN.
    pub fn is_finite(&self) -> (r: bool)
        ensures
            r == (forall|i: int| 0 <= i < 9 ==> #[trigger] spec_is_finite(self@[i])),
    {
        let mut i: usize = 0;
        while i < 9
            invariant
                0 <= i <= 9,
                self.mat@.len() == 9,
                forall|j: int| 0 <= j < i ==> #[trigger] spec_is_finite(self.mat@[j]),
            decreases 9 - i,
        {
            if !is_finite(self.mat[i]) {
                assert(!spec_is_finite(self@[i as int]));
                return false;
            }
            i = i + 1;
        }
        true
    }

    /// The affine entries in column-major order
    /// `[scale-x, skew-y, skew-x, scale-y, trans-x, trans-y]`, or `None` when
    /// the matrix has perspective.
    #[must_use]
    pub fn to_affine(self) -> (r: Option<[Scalar; 6]>)
        ensures
            spec_has_perspective(self@) ==> r is None,
            !spec_has_perspective(self@) ==> (r is Some && r->0@ == spec_affine_of(self@)),
    {
        if self.has_perspective() {
            None
        } else {
            let m = self.mat;
            let affine = [m[0], m[3], m[1], m[4], m[2], m[5]];
            assert(affine@ =~= spec_affine_of(self@));
            Some(affine)
        }
    }

    /// Sets the matrix from affine entries in column-major order:
    /// `| a[0] a[2] a[4] | a[1] a[3] a[5] | 0 0 1 |`; the cached classification
    /// is dropped.
    pub fn set_affine(&mut self, affine: &[Scalar; 6]) -> (r: &mut Self)
        ensures
            r@ == spec_from_affine(affine@),
            *final(self) == *final(r),
    {
        proof {
            lemma_class_bits();
        }
        let a = *affine;
        let mat = [a[0], a[2], a[4], a[1], a[3], a[5], 0, 0, SCALAR_ONE];
        *self = Matrix { mat, type_mask: UNKNOWN_BIT };
        assert(self.mat@ =~= spec_from_affine(affine@));
        self
    }

    /// The matrix of the affine entries, in column-major order.
    pub fn from_affine(affine: &[Scalar; 6]) -> (m: Matrix)
        ensures
            m@ == spec_from_affine(affine@),
    {
        let mut m = Self::new_identity();
        m.set_affine(affine);
        m
    }

    /// Fills `affine` with the affine entries of the identity.
    pub fn set_affine_identity(affine: &mut [Scalar; 6])
        ensures
            final(affine)@ == seq![SCALAR_ONE, 0u32, 0u32, SCALAR_ONE, 0u32, 0u32],
    {
        *affine = [SCALAR_ONE, 0, 0, SCALAR_ONE, 0, 0];
        assert(affine@ =~= seq![SCALAR_ONE, 0u32, 0u32, SCALAR_ONE, 0u32, 0u32]);
    }
}


/// Numeric equality of two matrices: every pair of entries is equal as
/// scalars, so zeros of either sign are equal and no NaN equals anything.
pub open spec fn spec_matrix_eq(a: Seq<Scalar>, b: Seq<Scalar>) -> bool {
    forall|i: int| 0 <= i < 9 ==> #[trigger] spec_scalar_eq(a[i], b[i])
}

impl PartialEq for Matrix {
    fn eq(&self, rhs: &Self) -> (r: bool) {
        let mut i: usize = 0;
        while i < 9
            invariant
                0 <= i <= 9,
                self.mat@.len() == 9,
                rhs.mat@.len() == 9,
                forall|j: int| 0 <= j < i ==> #[trigger] spec_scalar_eq(self.mat@[j], rhs.mat@[j]),
            decreases 9 - i,
        {
            if !scalar_eq(self.mat[i], rhs.mat[i]) {
                assert(!spec_scalar_eq(self@[i as int], rhs@[i as int]));
                return false;
            }
            i = i + 1;
        }
        true
    }
}

impl vstd::std_specs::cmp::PartialEqSpecImpl for Matrix {
    open spec fn obeys_eq_spec() -> bool {
        true
    }

    open spec fn eq_spec(&self, other: &Self) -> bool {
        spec_matrix_eq(self@, other@)
    }
}

impl Default for Matrix {
    fn default() -> (r: Matrix)
        ensures
            r@ == spec_identity(),
    {
        Matrix::new()
    }
}


/// A matrix with perspective is counted in every class.
pub proof fn lemma_perspective_sets_all_classes(m: Seq<Scalar>)
    requires
        spec_has_perspective(m),
    ensures
        spec_type_bits(m) == TRANSLATE_BIT + SCALE_BIT + AFFINE_BIT + PERSPECTIVE_BIT,
{
}

/// The classes nest: the identity only translates (by nothing), and a
/// translation only scales (by one) and translates.
pub proof fn lemma_classes_nest(m: Seq<Scalar>)
    ensures
        spec_is_identity(m) ==> spec_is_translate(m),
        spec_is_translate(m) ==> spec_is_scale_translate(m),
        spec_is_identity(m) <==> spec_type_bits(m) == 0,
{
}

/// A matrix that maps rectangles to rectangles has no perspective.
pub proof fn lemma_rect_stays_rect_no_perspective(m: Seq<Scalar>)
    ensures
        spec_rect_stays_rect(m) ==> !spec_has_perspective(m),
{
}

/// The identity matrix is the identity, and maps rectangles to rectangles.
pub proof fn lemma_identity_classes()
    ensures
        spec_is_identity(spec_identity()),
        spec_type_bits(spec_identity()) == 0,
        spec_rect_stays_rect(spec_identity()),
{
    lemma_scalar_constants();
}

/// A translation only translates; it is the identity exactly when it
/// translates by zero along both axes.
pub proof fn lemma_translate_classes(dx: Scalar, dy: Scalar)
    ensures
        spec_is_translate(spec_translate(dx, dy)),
        spec_is_identity(spec_translate(dx, dy)) <==> (spec_is_zero(dx) && spec_is_zero(dy)),
        spec_rect_stays_rect(spec_translate(dx, dy)),
{
    lemma_scalar_constants();
}

/// A scale followed by a translation never skews and has no perspective; it
/// maps rectangles to rectangles exactly when neither scale factor is zero,
/// and it only translates exactly when both scale factors are one.
pub proof fn lemma_scale_translate_classes(sx: Scalar, sy: Scalar, tx: Scalar, ty: Scalar)
    ensures
        spec_is_scale_translate(spec_scale_translate(sx, sy, tx, ty)),
        spec_rect_stays_rect(spec_scale_translate(sx, sy, tx, ty)) <==> (!spec_is_zero(sx)
            && !spec_is_zero(sy)),
        spec_is_translate(spec_scale_translate(sx, sy, tx, ty)) <==> (spec_is_one(sx) && spec_is_one(
            sy,
        )),
{
    lemma_scalar_constants();
}

/// Which matrices keep rectangles rectangles, by their entries: a matrix
/// whose perspective row is not `0 0 1` never does; a matrix with a non-zero
/// skew entry does only when both scale entries are zero and both skew
/// entries are non-zero (a quarter turn, possibly mirrored), so a rotation
/// by 45 degrees does not; a matrix without skew does exactly when both of
/// its scale entries are non-zero.
pub proof fn lemma_rect_stays_rect_by_entries(m: Seq<Scalar>)
    ensures
        spec_rect_stays_rect(m) ==> (spec_is_zero(m[6]) && spec_is_zero(m[7]) && spec_is_one(m[8])),
        (spec_rect_stays_rect(m) && (!spec_is_zero(m[1]) || !spec_is_zero(m[3]))) ==> (spec_is_zero(
            m[0],
        ) && spec_is_zero(m[4]) && !spec_is_zero(m[1]) && !spec_is_zero(m[3])),
        (!spec_is_zero(m[0]) && (!spec_is_zero(m[1]) || !spec_is_zero(m[3]))) ==> !spec_rect_stays_rect(m),
        (!spec_is_zero(m[4]) && (!spec_is_zero(m[1]) || !spec_is_zero(m[3]))) ==> !spec_rect_stays_rect(m),
        (spec_is_zero(m[6]) && spec_is_zero(m[7]) && spec_is_one(m[8]) && spec_is_zero(m[1])
            && spec_is_zero(m[3])) ==> (spec_rect_stays_rect(m) <==> (!spec_is_zero(m[0])
            && !spec_is_zero(m[4]))),
        (spec_is_zero(m[6]) && spec_is_zero(m[7]) && spec_is_one(m[8]) && spec_is_zero(m[0])
            && spec_is_zero(m[4]) && !spec_is_zero(m[1]) && !spec_is_zero(m[3])) ==> spec_rect_stays_rect(
            m,
        ),
{
}

/// The four class bits that a value made of a translation bit, a scale bit
/// and an affine bit holds.
proof fn lemma_three_class_bits(x: u32, t: bool, s: bool, a: bool)
    by (bit_vector)
    requires
        x == (if t { 1u32 } else { 0u32 }) + (if s { 2u32 } else { 0u32 }) + (if a { 4u32 } else { 0u32 }),
    ensures
        (x & 0x01 != 0) == t,
        (x & 0x02 != 0) == s,
        (x & 0x04 != 0) == a,
        x & 0x08 == 0,
        x & !0x0fu32 == 0,
{
}

/// What each class bit of a matrix says, by its entries.  The perspective
/// bit is set exactly when the perspective row is not `0 0 1`, and then
/// every bit is set.  Otherwise the affine bit is set exactly when a skew
/// entry is not zero; the scale bit exactly when a scale entry is not one or
/// a skew entry is not zero (skewing counts as scaling, so a pure shear is
/// in both classes); and the translation bit exactly when a translation
/// entry is not zero.  No other bit is ever set.
pub proof fn lemma_type_bits_by_entries(m: Seq<Scalar>)
    ensures
        spec_type_bits(m) & !0x0fu32 == 0,
        (spec_type_bits(m) & 0x08 != 0) == (!spec_is_zero(m[6]) || !spec_is_zero(m[7]) || !spec_is_one(
            m[8],
        )),
        (spec_type_bits(m) & 0x04 != 0) == ((!spec_is_zero(m[6]) || !spec_is_zero(m[7])
            || !spec_is_one(m[8])) || !spec_is_zero(m[1]) || !spec_is_zero(m[3])),
        (spec_type_bits(m) & 0x02 != 0) == ((!spec_is_zero(m[6]) || !spec_is_zero(m[7])
            || !spec_is_one(m[8])) || !spec_is_one(m[0]) || !spec_is_one(m[4]) || !spec_is_zero(m[1])
            || !spec_is_zero(m[3])),
        (spec_type_bits(m) & 0x01 != 0) == ((!spec_is_zero(m[6]) || !spec_is_zero(m[7])
            || !spec_is_one(m[8])) || !spec_is_zero(m[2]) || !spec_is_zero(m[5])),
{
    let x = spec_type_bits(m);
    if !spec_is_zero(m[6]) || !spec_is_zero(m[7]) || !spec_is_one(m[8]) {
        assert(x == 0x0fu32);
        assert(0x0fu32 & !0x0fu32 == 0 && 0x0fu32 & 0x08 != 0 && 0x0fu32 & 0x04 != 0 && 0x0fu32 & 0x02
            != 0 && 0x0fu32 & 0x01 != 0) by (bit_vector);
    } else {
        let t = !spec_is_zero(m[2]) || !spec_is_zero(m[5]);
        let a = !spec_is_zero(m[1]) || !spec_is_zero(m[3]);
        let sc = !spec_is_one(m[0]) || !spec_is_one(m[4]) || a;
        assert(x == (if t { 1u32 } else { 0u32 }) + (if sc { 2u32 } else { 0u32 }) + (if a { 4u32 } else {
            0u32
        }));
        lemma_three_class_bits(x, t, sc, a);
    }
}

/// Setting an entry and reading it back gives the value set; every other
/// entry keeps its value.
pub proof fn lemma_set_then_get(m: Seq<Scalar>, i: int, v: Scalar, j: int)
    requires
        m.len() == 9,
        0 <= i < 9,
        0 <= j < 9,
    ensures
        m.update(i, v)[i] == v,
        j != i ==> m.update(i, v)[j] == m[j],
        m.update(i, v).len() == 9,
{
}

/// The affine array of the matrix of an affine array is that array, and that
/// matrix has no perspective.
pub proof fn lemma_affine_roundtrip(a: Seq<Scalar>)
    requires
        a.len() == 6,
    ensures
        !spec_has_perspective(spec_from_affine(a)),
        spec_affine_of(spec_from_affine(a)) == a,
{
    lemma_scalar_constants();
    assert(spec_affine_of(spec_from_affine(a)) =~= a);
}

/// A matrix whose perspective row is exactly `0 0 1` is rebuilt exactly from
/// its affine array.
pub proof fn lemma_matrix_affine_roundtrip(m: Seq<Scalar>)
    requires
        m.len() == 9,
        m[6] == 0,
        m[7] == 0,
        m[8] == SCALAR_ONE,
    ensures
        spec_from_affine(spec_affine_of(m)) == m,
{
    assert(spec_from_affine(spec_affine_of(m)) =~= m);
}

/// Matrix equality is symmetric.
pub proof fn lemma_matrix_eq_symmetric(a: Seq<Scalar>, b: Seq<Scalar>)
    ensures
        spec_matrix_eq(a, b) == spec_matrix_eq(b, a),
{
    if spec_matrix_eq(a, b) {
        assert forall|i: int| 0 <= i < 9 implies #[trigger] spec_scalar_eq(b[i], a[i]) by {
            assert(spec_scalar_eq(a[i], b[i]));
        }
    }
    if spec_matrix_eq(b, a) {
        assert forall|i: int| 0 <= i < 9 implies #[trigger] spec_scalar_eq(a[i], b[i]) by {
            assert(spec_scalar_eq(b[i], a[i]));
        }
    }
}

/// A matrix equals itself exactly when none of its entries is a NaN.
pub proof fn lemma_matrix_eq_reflexive(a: Seq<Scalar>)
    ensures
        spec_matrix_eq(a, a) == (forall|i: int| 0 <= i < 9 ==> !#[trigger] spec_is_nan(a[i])),
{
    if spec_matrix_eq(a, a) {
        assert forall|i: int| 0 <= i < 9 implies !#[trigger] spec_is_nan(a[i]) by {
            assert(spec_scalar_eq(a[i], a[i]));
        }
    }
}

} // verus!
