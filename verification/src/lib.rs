//! Hardware-abstraction core for a memory-mapped-register display device.
//!
//! The crate gives a program checked access to the device's control
//! registers and a statically enforced model of its mutually exclusive
//! operating modes:
//!
//! - [`bits`] holds a fixed-width bit-field value type with
//!   offset/length-checked accessors, the building block for every
//!   register value;
//! - [`video`] holds the typed register-control builders, the mode
//!   type-state machine and the computation side of the memory-mapped
//!   register accesses;
//! - [`entry`] holds the decision logic of the boot-entry adapter: which
//!   user entry declarations are accepted, and with which diagnostic the
//!   rest are rejected at build time.
//!
//! The raw volatile loads and stores at fixed hardware addresses live
//! outside this library: the library computes the exact values involved
//! and proves what they are.

use vstd::prelude::*;

pub mod bits;
pub mod entry;
pub mod link;
pub mod video;

use crate::video::Display;
use crate::video::Effects;

verus! {

/// The root hardware-capability value: evidence that the program runs on
/// the real device, handed to the user entry function exactly once.
///
/// It owns the display handle (in the initial, unconfigured mode) and the
/// effects handles. It is move-only and cannot be duplicated, so two
/// simultaneous owners of the same physical register can never exist.
pub struct Gba {
    pub display: Display<()>,
    pub effects: Effects,
}

impl Gba {
    /// Constructs the hardware-capability value.
    ///
    /// The caller vouches that this is genuinely the first and only
    /// hardware boot: only the generated boot symbol may call this, and
    /// only once, before handing the value to the user entry function.
    pub fn new_unchecked() -> Self {
        Gba { display: Display::new(), effects: Effects::new() }
    }
}

} // verus!
