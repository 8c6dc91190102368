//! Marker types for the functional kinds of background layer.

use vstd::prelude::*;

verus! {

/// Marker for tiled backgrounds.
pub struct Tiled {}

/// Marker for affine backgrounds.
pub struct Affine {}

/// Marker for bitmap backgrounds.
pub struct Bitmap {}

} // verus!
