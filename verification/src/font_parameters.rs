//! The parameters of a font.

pub mod variation;

pub use variation::Axis as VariationAxis;
