//! Sealing for the video-mode trait: only the mode types declared by this
//! crate can be operating modes, so the set of modes is closed and the
//! layer sets they expose are exhaustive.

use vstd::prelude::*;

verus! {

/// Implemented only inside this crate; outside crates cannot add video
/// modes.
pub trait Sealed {

}

} // verus!
