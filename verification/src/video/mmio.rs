//! The computation side of the memory-mapped register accesses.
//!
//! Every hardware register access happens at a fixed physical address and
//! must stay exactly as ordered. This library cannot perform the raw
//! volatile loads and stores itself; instead, each register handle here
//! computes the exact value that a store must apply (and the address it
//! belongs to), with a proved contract, and the thin hardware-facing layer
//! around the library performs the access with those values, in program
//! order, without touching any bit of them.

use vstd::prelude::*;

use core::marker::PhantomData;

use crate::video::DisplayControl;
use crate::video::VideoMode;

verus! {

/// The fixed physical address of the display-control register.
pub const DISPCNT_ADDR: u32 = 0x0400_0000;

/// The fixed physical address of the display-status register.
pub const DISPSTAT_ADDR: u32 = 0x0400_0004;

/// The fixed physical address of the vertical (scanline) counter.
pub const VCOUNT_ADDR: u32 = 0x0400_0006;

/// The value that reaches the display-control register when the value
/// `cnt` is written while the mode with identifier `mode_bits` is active:
/// the register's mode-select field (its low three bits) is overwritten
/// with the active mode's identifier, whatever `cnt` holds there.
pub open spec fn spec_control_bits(cnt: u16, mode_bits: u16) -> u16 {
    (cnt & !0x7u16) | mode_bits
}

/// Exclusive access to the display-control register while mode `M` is
/// active.
pub struct Dispcnt<M>(pub(crate) PhantomData<M>);

impl<M: VideoMode> Dispcnt<M> {
    /// Computes the exact 16-bit value that writing `cnt` stores to the
    /// display-control register.
    ///
    /// The mode-select field of the stored value always encodes the
    /// currently active mode's identifier, so no control write can
    /// contradict the active type state; every other bit comes from `cnt`
    /// unchanged.
    pub fn write(&mut self, cnt: DisplayControl) -> (bits: u16)
        ensures
            *final(self) == *old(self),
            bits == spec_control_bits(cnt@, M::spec_mode_bits()),
            bits & 0x7u16 == M::spec_mode_bits(),
            bits & !0x7u16 == cnt@ & !0x7u16,
    {
        proof {
            M::mode_bits_in_range();
            lemma_mode_field_overwrite(cnt@, M::spec_mode_bits());
        }
        (cnt.to_bits() & !0x7u16) | M::mode_bits()
    }
}

/// The mode-select field of a control write holds exactly the mode
/// identifier, and every bit outside that field comes from the written
/// control value.
proof fn lemma_mode_field_overwrite(cnt: u16, mode_bits: u16)
    by (bit_vector)
    requires
        mode_bits <= 7,
    ensures
        ((cnt & !0x7u16) | mode_bits) & 0x7u16 == mode_bits,
        ((cnt & !0x7u16) | mode_bits) & !0x7u16 == cnt & !0x7u16,
{
}

/// Access to the display-status register.
#[non_exhaustive]
pub struct Dispstat;

} // verus!
