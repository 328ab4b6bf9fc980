# skia_safe (verified core)

The value types of the Skia bindings, with their decisions proved in Verus.

- `src/` is the library. Every Skia `scalar` is held as its IEEE-754
  single-precision bit pattern (`scalar::Scalar = u32`), so that what the
  library decides about scalars (zero, one, finite, NaN, numeric equality,
  negation) is integer logic that Verus checks.
  - `matrix`: the 3x3 matrix, its entries, setters and getters, the affine
    and rotation-scale forms, numeric equality, and the classification of the
    transformation (`get_type`, `is_identity`, `rect_stays_rect`, ...), with
    a cached classification kept coherent by a type invariant.
  - `color`, `font_metrics`, `font_style`, `font_arguments`, `font_mgr`,
    `font_parameters`, `font`, `matrix44` (`Vector4`), `document` (page
    counting), `codec` (decode options, frame info, repetition counts),
    `canvas` (glyph runs and lattices), `image_info` (row bytes), `path`
    (conic-to-quad storage), `path_types` (fill rules and verbs), `types`
    (tags, rectangles, points, alpha types).
- `app/` holds the drawing calls into Skia (which run after the library's
  checks), what computes with floating-point numbers in Skia itself
  (rotations, scales, concatenation, inversion and mapping of matrices, noise
  shaders), the conversions from Skia's native structs, and `DataTable`, a
  type without values.
- `tests/` runs the library on concrete values.
