//! Verified core of the Skia value types: 3x3 matrices and their
//! classification, colors, font metrics, font styles and arguments, font
//! requests, four-component vectors and document page bookkeeping.
//!
//! Every Skia `scalar` (an IEEE-754 single-precision number) is carried here
//! as its 32-bit pattern, see [`scalar`]: what the library decides about a
//! scalar is a decision about an integer.

pub mod canvas;
pub mod codec;
pub mod color;
pub mod color_space;
pub mod color_type;
pub mod document;
pub mod font;
pub mod font_arguments;
pub mod font_metrics;
pub mod font_mgr;
pub mod font_parameters;
pub mod font_style;
pub mod image_info;
pub mod matrix;
pub mod matrix44;
pub mod overloads;
pub mod path;
pub mod path_types;
pub mod scalar;
pub mod types;

pub use color::{Color, RGB};
pub use color_space::XYZD50Hash;
pub use color_type::ColorType;
pub use font_arguments::FontArguments;
pub use font_metrics::FontMetrics;
pub use font_style::{FontStyle, Weight, Width};
pub use matrix::Matrix;
pub use matrix44::Vector4;
pub use canvas::SetMatrix;
pub use overloads::{Contains, QuickReject};
pub use path_types::{PathFillType, PathVerb};
pub use scalar::Scalar;
pub use types::{AlphaType, FourByteTag, IRect, Point, RSXform};
