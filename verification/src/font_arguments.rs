//! The arguments that select a font: its index in a collection, a position in
//! its variation space, a palette, and synthetic bold and oblique requests.
use vstd::prelude::*;
use variation_position::Coordinate;
use palette::Override;

pub mod palette;
pub mod variation_position;

verus! {

/// A position in the variation design space.
///
/// Any axis not specified uses the default value.
/// Any specified axis not actually present in the font is ignored.
#[derive(Clone, Debug)]
pub struct VariationPosition<'a> {
    pub coordinates: &'a [Coordinate],
}

/// A palette to use and overrides for palette entries.
///
/// `overrides` is a list of pairs of palette entry index and color.
/// Overridden palette entries use the associated color.
///
/// Override pairs with palette entry indices out of range are not applied.
/// Later override entries override earlier ones.
#[derive(Clone, Debug)]
pub struct Palette<'a> {
    pub index: i32,
    pub overrides: &'a [Override],
}

/// The stored form of a tri-state request: `1` for yes, `0` for no, `-1`
/// when unspecified.
pub open spec fn spec_option_bool_to_ffi(value: Option<bool>) -> i32 {
    match value {
        Some(true) => 1i32,
        Some(false) => 0i32,
        None => -1i32,
    }
}

/// The tri-state request of a stored value: `1` is yes, `0` is no, anything
/// else is unspecified.
pub open spec fn spec_ffi_to_option_bool(value: i32) -> Option<bool> {
    if value == 1 {
        Some(true)
    } else if value == 0 {
        Some(false)
    } else {
        None
    }
}

/// The stored form of a tri-state request.
pub fn option_bool_to_ffi(value: Option<bool>) -> (r: i32)
    ensures
        r == spec_option_bool_to_ffi(value),
{
    match value {
        Some(true) => 1,
        Some(false) => 0,
        None => -1,
    }
}

/// The tri-state request of a stored value.
pub fn ffi_to_option_bool(value: i32) -> (r: Option<bool>)
    ensures
        r == spec_ffi_to_option_bool(value),
{
    match value {
        1 => Some(true),
        0 => Some(false),
        _ => None,
    }
}

/// Reading back a stored tri-state request gives the request.
pub proof fn lemma_option_bool_roundtrip(value: Option<bool>)
    ensures
        spec_ffi_to_option_bool(spec_option_bool_to_ffi(value)) == value,
{
}

/// A set of actual arguments for a font.
#[derive(Debug)]
pub struct FontArguments<'vp, 'p> {
    collection_index: i32,
    coordinates: &'vp [Coordinate],
    palette_index: i32,
    overrides: &'p [Override],
    synthetic_bold: i32,
    synthetic_oblique: i32,
}

impl<'vp, 'p> FontArguments<'vp, 'p> {
    /// The counts stored with the native arguments fit their `int` fields.
    #[verifier::type_invariant]
    closed spec fn counts_fit(self) -> bool {
        &&& 0 <= self.collection_index
        &&& self.coordinates@.len() <= i32::MAX
        &&& self.overrides@.len() <= i32::MAX
    }

    /// The index of the font in an indexed collection.
    pub closed spec fn spec_collection_index(self) -> int {
        self.collection_index as int
    }

    /// The coordinates of the variation design position.
    pub closed spec fn spec_coordinates(self) -> Seq<Coordinate> {
        self.coordinates@
    }

    /// The index of the palette.
    pub closed spec fn spec_palette_index(self) -> i32 {
        self.palette_index
    }

    /// The palette overrides.
    pub closed spec fn spec_overrides(self) -> Seq<Override> {
        self.overrides@
    }

    /// The synthetic bold request.
    pub closed spec fn spec_synthetic_bold(self) -> Option<bool> {
        spec_ffi_to_option_bool(self.synthetic_bold)
    }

    /// The synthetic oblique request.
    pub closed spec fn spec_synthetic_oblique(self) -> Option<bool> {
        spec_ffi_to_option_bool(self.synthetic_oblique)
    }

    /// Default font arguments: the first font of a collection, no variation
    /// coordinates, palette 0 without overrides, and no synthetic bold or
    /// oblique request.
    pub fn new() -> (a: Self)
        ensures
            a.spec_collection_index() == 0,
            a.spec_coordinates() == Seq::<Coordinate>::empty(),
            a.spec_palette_index() == 0,
            a.spec_overrides() == Seq::<Override>::empty(),
            a.spec_synthetic_bold() is None,
            a.spec_synthetic_oblique() is None,
    {
        let a = FontArguments {
            collection_index: 0,
            coordinates: &[],
            palette_index: 0,
            overrides: &[],
            synthetic_bold: -1,
            synthetic_oblique: -1,
        };
        assert(a.coordinates@ =~= Seq::<Coordinate>::empty());
        assert(a.overrides@ =~= Seq::<Override>::empty());
        a
    }

    /// Specifies the index of the desired font.
    ///
    /// Font formats like ttc, dfont, cff, cid, pfr, t42, t1, and fon may
    /// actually be indexed collections of fonts.
    pub fn set_collection_index(&mut self, collection_index: usize) -> (r: &mut Self)
        requires
            collection_index <= i32::MAX,
        ensures
            r.spec_collection_index() == collection_index,
            r.spec_coordinates() == old(self).spec_coordinates(),
            r.spec_palette_index() == old(self).spec_palette_index(),
            r.spec_overrides() == old(self).spec_overrides(),
            r.spec_synthetic_bold() == old(self).spec_synthetic_bold(),
            r.spec_synthetic_oblique() == old(self).spec_synthetic_oblique(),
            *final(self) == *final(r),
    {
        proof {
            use_type_invariant(&*self);
        }
        *self = FontArguments {
            collection_index: collection_index as i32,
            coordinates: self.coordinates,
            palette_index: self.palette_index,
            overrides: self.overrides,
            synthetic_bold: self.synthetic_bold,
            synthetic_oblique: self.synthetic_oblique,
        };
        self
    }

    /// The index of the selected font in an indexed collection.
    pub fn collection_index(&self) -> (r: usize)
        ensures
            r == self.spec_collection_index(),
    {
        proof {
            use_type_invariant(self);
        }
        self.collection_index as usize
    }

    /// Specifies a position in the variation design space; the arguments
    /// borrow the coordinates of `position`.
    pub fn set_variation_design_position<'a>(self, position: VariationPosition<'a>) -> (r:
        FontArguments<'a, 'p>)
        requires
            position.coordinates@.len() <= i32::MAX,
        ensures
            r.spec_collection_index() == self.spec_collection_index(),
            r.spec_coordinates() == position.coordinates@,
            r.spec_palette_index() == self.spec_palette_index(),
            r.spec_overrides() == self.spec_overrides(),
            r.spec_synthetic_bold() == self.spec_synthetic_bold(),
            r.spec_synthetic_oblique() == self.spec_synthetic_oblique(),
    {
        proof {
            use_type_invariant(&self);
        }
        FontArguments {
            collection_index: self.collection_index,
            coordinates: position.coordinates,
            palette_index: self.palette_index,
            overrides: self.overrides,
            synthetic_bold: self.synthetic_bold,
            synthetic_oblique: self.synthetic_oblique,
        }
    }

    /// The variation design position.
    pub fn variation_design_position(&self) -> (r: VariationPosition<'vp>)
        ensures
            r.coordinates@ == self.spec_coordinates(),
    {
        VariationPosition { coordinates: self.coordinates }
    }

    /// Specifies the color palette and the palette entry overrides; the
    /// arguments borrow the overrides of `palette`.
    pub fn set_palette<'a>(self, palette: Palette<'a>) -> (r: FontArguments<'vp, 'a>)
        requires
            palette.overrides@.len() <= i32::MAX,
        ensures
            r.spec_collection_index() == self.spec_collection_index(),
            r.spec_coordinates() == self.spec_coordinates(),
            r.spec_palette_index() == palette.index,
            r.spec_overrides() == palette.overrides@,
            r.spec_synthetic_bold() == self.spec_synthetic_bold(),
            r.spec_synthetic_oblique() == self.spec_synthetic_oblique(),
    {
        proof {
            use_type_invariant(&self);
        }
        FontArguments {
            collection_index: self.collection_index,
            coordinates: self.coordinates,
            palette_index: palette.index,
            overrides: palette.overrides,
            synthetic_bold: self.synthetic_bold,
            synthetic_oblique: self.synthetic_oblique,
        }
    }

    /// The palette selection and the override entries.
    pub fn palette(&self) -> (r: Palette<'p>)
        ensures
            r.index == self.spec_palette_index(),
            r.overrides@ == self.spec_overrides(),
    {
        Palette { index: self.palette_index, overrides: self.overrides }
    }

    /// Sets whether synthetic bold styling is requested: `Some(true)` to
    /// force it, `Some(false)` to force non-bold, `None` to leave it
    /// unspecified.
    pub fn set_synthetic_bold(&mut self, synthetic_bold: Option<bool>) -> (r: &mut Self)
        ensures
            r.spec_synthetic_bold() == synthetic_bold,
            r.spec_collection_index() == old(self).spec_collection_index(),
            r.spec_coordinates() == old(self).spec_coordinates(),
            r.spec_palette_index() == old(self).spec_palette_index(),
            r.spec_overrides() == old(self).spec_overrides(),
            r.spec_synthetic_oblique() == old(self).spec_synthetic_oblique(),
            *final(self) == *final(r),
    {
        proof {
            use_type_invariant(&*self);
        }
        *self = FontArguments {
            collection_index: self.collection_index,
            coordinates: self.coordinates,
            palette_index: self.palette_index,
            overrides: self.overrides,
            synthetic_bold: option_bool_to_ffi(synthetic_bold),
            synthetic_oblique: self.synthetic_oblique,
        };
        self
    }

    /// The synthetic bold request, if specified.
    pub fn synthetic_bold(&self) -> (r: Option<bool>)
        ensures
            r == self.spec_synthetic_bold(),
    {
        ffi_to_option_bool(self.synthetic_bold)
    }

    /// Sets whether synthetic oblique styling is requested: `Some(true)` to
    /// force it, `Some(false)` to force non-oblique, `None` to leave it
    /// unspecified.
    pub fn set_synthetic_oblique(&mut self, synthetic_oblique: Option<bool>) -> (r: &mut Self)
        ensures
            r.spec_synthetic_oblique() == synthetic_oblique,
            r.spec_collection_index() == old(self).spec_collection_index(),
            r.spec_coordinates() == old(self).spec_coordinates(),
            r.spec_palette_index() == old(self).spec_palette_index(),
            r.spec_overrides() == old(self).spec_overrides(),
            r.spec_synthetic_bold() == old(self).spec_synthetic_bold(),
            *final(self) == *final(r),
    {
        proof {
            use_type_invariant(&*self);
        }
        *self = FontArguments {
            collection_index: self.collection_index,
            coordinates: self.coordinates,
            palette_index: self.palette_index,
            overrides: self.overrides,
            synthetic_bold: self.synthetic_bold,
            synthetic_oblique: option_bool_to_ffi(synthetic_oblique),
        };
        self
    }

    /// The synthetic oblique request, if specified.
    pub fn synthetic_oblique(&self) -> (r: Option<bool>)
        ensures
            r == self.spec_synthetic_oblique(),
    {
        ffi_to_option_bool(self.synthetic_oblique)
    }
}

impl<'vp, 'p> Default for FontArguments<'vp, 'p> {
    fn default() -> (a: Self)
        ensures
            a.spec_collection_index() == 0,
            a.spec_coordinates() == Seq::<Coordinate>::empty(),
            a.spec_palette_index() == 0,
            a.spec_overrides() == Seq::<Override>::empty(),
            a.spec_synthetic_bold() is None,
            a.spec_synthetic_oblique() is None,
    {
        FontArguments::new()
    }
}

} // verus!
