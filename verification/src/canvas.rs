//! What the drawing calls of a canvas check before they draw: glyph runs and
//! their positions, and nine-patch lattices.
use vstd::prelude::*;
use crate::color::Color;
use crate::matrix::Matrix;
use crate::types::{IRect, Point, RSXform};

verus! {

/// The positions of a run of glyphs: either points or rotation-scale
/// transforms, one per glyph.
#[derive(Clone, Debug)]
pub enum GlyphPositions<'a> {
    Points(&'a [Point]),
    RSXforms(&'a [RSXform]),
}

impl<'a> GlyphPositions<'a> {
    /// The number of positions.
    pub open spec fn spec_len(&self) -> nat {
        match self {
            GlyphPositions::Points(points) => points@.len(),
            GlyphPositions::RSXforms(xforms) => xforms@.len(),
        }
    }

    /// The number of positions.
    pub fn len(&self) -> (r: usize)
        ensures
            r == self.spec_len(),
    {
        match self {
            GlyphPositions::Points(points) => points.len(),
            GlyphPositions::RSXforms(xforms) => xforms.len(),
        }
    }
}

impl<'a> From<&'a [Point]> for GlyphPositions<'a> {
    fn from(points: &'a [Point]) -> (r: GlyphPositions<'a>) {
        GlyphPositions::Points(points)
    }
}

impl<'a> vstd::std_specs::convert::FromSpecImpl<&'a [Point]> for GlyphPositions<'a> {
    open spec fn obeys_from_spec() -> bool {
        true
    }

    open spec fn from_spec(points: &'a [Point]) -> GlyphPositions<'a> {
        GlyphPositions::Points(points)
    }
}

impl<'a> From<&'a [RSXform]> for GlyphPositions<'a> {
    fn from(rs_xforms: &'a [RSXform]) -> (r: GlyphPositions<'a>) {
        GlyphPositions::RSXforms(rs_xforms)
    }
}

impl<'a> vstd::std_specs::convert::FromSpecImpl<&'a [RSXform]> for GlyphPositions<'a> {
    open spec fn obeys_from_spec() -> bool {
        true
    }

    open spec fn from_spec(rs_xforms: &'a [RSXform]) -> GlyphPositions<'a> {
        GlyphPositions::RSXforms(rs_xforms)
    }
}

/// The number of glyphs a glyph run hands to the drawing, or `None` when the
/// run is empty and nothing is drawn.  A non-empty run has as many positions
/// (and clusters, where it has them) as glyphs, and its count fits an `int`.
pub fn glyph_draw_count(glyphs_len: usize, positions_len: usize) -> (r: Option<i32>)
    requires
        glyphs_len == 0 || (positions_len == glyphs_len && glyphs_len <= i32::MAX),
    ensures
        glyphs_len == 0 ==> r is None,
        glyphs_len != 0 ==> r == Some(glyphs_len as i32),
{
    if glyphs_len == 0 {
        None
    } else {
        Some(glyphs_len as i32)
    }
}

/// Whether a glyph run can be drawn as given: it is empty, or it has as many
/// positions as glyphs and its count fits an `int`.
pub fn glyph_run_is_drawable(glyphs_len: usize, positions_len: usize) -> (r: bool)
    ensures
        r == (glyphs_len == 0 || (positions_len == glyphs_len && glyphs_len <= i32::MAX)),
{
    glyphs_len == 0 || (positions_len == glyphs_len && glyphs_len <= 0x7fff_ffffusize)
}

/// The fill of a rectangle of a [`Lattice`].
#[derive(Clone, Copy, PartialEq, Eq, Structural, Debug)]
pub enum RectType {
    /// Draws the bitmap into the lattice rectangle.
    Default,
    /// Skips the lattice rectangle by making it transparent.
    Transparent,
    /// Draws one of the colors into the lattice rectangle.
    FixedColor,
}

impl Default for RectType {
    /// Drawing the bitmap into the rectangle.
    fn default() -> (r: RectType)
        ensures
            r == RectType::Default,
    {
        RectType::Default
    }
}

/// A division of a bitmap or image into a rectangular grid.  Grid entries on
/// even columns and even rows are fixed; they are drawn at their original
/// size if the destination is large enough.  If the destination side is too
/// small to hold the fixed entries, all fixed entries are proportionately
/// scaled down to fit.  The grid entries not on even columns and rows are
/// scaled to fit the remaining space, if any.
#[derive(Debug)]
pub struct Lattice<'a> {
    /// x-axis values dividing bitmap
    pub x_divs: &'a [i32],
    /// y-axis values dividing bitmap
    pub y_divs: &'a [i32],
    /// array of fill types
    pub rect_types: Option<&'a [RectType]>,
    /// source bounds to draw from
    pub bounds: Option<IRect>,
    /// array of colors
    pub colors: Option<&'a [Color]>,
}

/// The number of rectangles of a grid with `x_divs` and `y_divs` divisions.
pub open spec fn spec_rect_count(x_divs: nat, y_divs: nat) -> nat {
    (x_divs + 1) * (y_divs + 1)
}

impl<'a> Lattice<'a> {
    /// Whether the lattice can be handed to the drawing: both division
    /// counts fit an `int`, and when fill types are given there are as many
    /// of them, and as many colors, as grid rectangles.
    pub open spec fn spec_is_drawable(&self) -> bool {
        &&& self.x_divs@.len() <= i32::MAX
        &&& self.y_divs@.len() <= i32::MAX
        &&& match self.rect_types {
            None => true,
            Some(rect_types) => {
                &&& spec_rect_count(self.x_divs@.len(), self.y_divs@.len()) <= usize::MAX
                &&& rect_types@.len() == spec_rect_count(self.x_divs@.len(), self.y_divs@.len())
                &&& self.colors matches Some(colors)
                &&& colors@.len() == spec_rect_count(self.x_divs@.len(), self.y_divs@.len())
            },
        }
    }

    /// Whether the lattice can be handed to the drawing.
    pub fn is_drawable(&self) -> (r: bool)
        ensures
            r == self.spec_is_drawable(),
    {
        if self.x_divs.len() > 0x7fff_ffffusize || self.y_divs.len() > 0x7fff_ffffusize {
            return false;
        }
        match self.rect_types {
            None => true,
            Some(rect_types) => {
                let x = self.x_divs.len() + 1;
                let y = self.y_divs.len() + 1;
                match x.checked_mul(y) {
                    None => false,
                    Some(rect_count) => {
                        assert(rect_count == spec_rect_count(self.x_divs@.len(), self.y_divs@.len()));
                        rect_types.len() == rect_count && match self.colors {
                            None => false,
                            Some(colors) => colors.len() == rect_count,
                        }
                    },
                }
            },
        }
    }

    /// The division counts handed to the drawing.
    pub fn native_counts(&self) -> (r: (i32, i32))
        requires
            self.spec_is_drawable(),
        ensures
            r.0 == self.x_divs@.len(),
            r.1 == self.y_divs@.len(),
    {
        (self.x_divs.len() as i32, self.y_divs.len() as i32)
    }
}

/// A lattice with fill types can be drawn only with one fill type and one
/// color for each rectangle of its grid: as many as (x divisions + 1) times
/// (y divisions + 1).  A lattice without fill types can be drawn whenever
/// its division counts fit an `int`.
pub proof fn lemma_lattice_drawable_counts<'a>(l: Lattice<'a>)
    ensures
        (l.spec_is_drawable() && l.rect_types is Some) ==> ({
            let n = (l.x_divs@.len() + 1) * (l.y_divs@.len() + 1);
            &&& l.rect_types->0@.len() == n
            &&& l.colors is Some
            &&& l.colors->0@.len() == n
        }),
        (l.rect_types is Some && l.colors is None) ==> !l.spec_is_drawable(),
        (l.rect_types is Some && l.colors is Some && l.colors->0@.len() != (l.x_divs@.len() + 1) * (
        l.y_divs@.len() + 1)) ==> !l.spec_is_drawable(),
        l.rect_types is None ==> (l.spec_is_drawable() <==> (l.x_divs@.len() <= i32::MAX
            && l.y_divs@.len() <= i32::MAX)),
        l.spec_is_drawable() ==> (l.x_divs@.len() <= i32::MAX && l.y_divs@.len() <= i32::MAX),
{
}

/// Replacing the current matrix of a canvas.
pub trait SetMatrix {
    fn set_matrix(&mut self, matrix: &Matrix) -> &mut Self;
}

} // verus!
