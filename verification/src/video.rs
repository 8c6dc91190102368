//! Typed access to the display hardware.
//!
//! A [`DisplayControl`] or [`BackgroundControl`] value is a register image
//! built by chaining field setters over a [`Bits`] value; it is inert
//! until applied through the memory-mapped register layer in [`mmio`].
//! The operating modes of the display are mutually exclusive and are
//! encoded as types: the live [`Display`] handle's mode parameter says
//! which mode is active and which layer handles exist at all, and a mode
//! switch consumes the old handle together with its whole layer set.

use vstd::prelude::*;

use core::marker::PhantomData;

/// Memory-mapped I/O registers.
pub mod mmio;
pub mod marker;
mod sealed;

use crate::bits::Bits;
use crate::bits::spec_or_field16;
use crate::bits::spec_set_field16;
use crate::video::marker::Affine;
use crate::video::marker::Bitmap;
use crate::video::marker::Tiled;
use crate::video::mmio::Dispcnt;
use crate::video::mmio::Dispstat;

verus! {

/// Display layers, as bit flags in the layout of the display-control
/// register's layer-enable field.
pub struct Layers(pub u16);

impl Layers {
    /// First tiled/affine background layer.
    pub const BG0: u16 = 1;

    /// Second background layer.
    pub const BG1: u16 = 2;

    /// Third background layer.
    pub const BG2: u16 = 4;

    /// Fourth background layer.
    pub const BG3: u16 = 8;

    /// The object (sprite) layer.
    pub const OBJ: u16 = 16;

    /// Only for blending.
    pub const BACKDROP: u16 = 32;

    /// Window 0. Only for the display control.
    pub const WIN0: u16 = 32;

    /// Window 1. Only for the display control.
    pub const WIN1: u16 = 64;

    /// Object window. Only for the display control. Requires the OBJ
    /// layer.
    pub const OBJ_WIN: u16 = 128 | 16;

    /// The raw flag bits.
    pub fn bits(self) -> (r: u16)
        ensures
            r == self.0,
    {
        self.0
    }
}

/// A display-control register value: the bit-exact image of the hardware's
/// documented display-control layout, mutated only through named field
/// setters.
pub struct DisplayControl(pub(crate) Bits<u16>);

impl View for DisplayControl {
    type V = u16;

    closed spec fn view(&self) -> u16 {
        self.0.0
    }
}

impl DisplayControl {
    /// The zero register image: every field cleared.
    pub fn new() -> (r: Self)
        ensures
            r@ == 0u16,
    {
        DisplayControl(Bits(0))
    }

    /// Wraps a raw register value read back from the hardware.
    pub fn from_bits(bits: u16) -> (r: Self)
        ensures
            r@ == bits,
    {
        DisplayControl(Bits(bits))
    }

    /// The raw register value this image holds.
    pub fn to_bits(self) -> (r: u16)
        ensures
            r == self@,
    {
        self.0.0
    }

    /// Enables the given layers: their flags are OR-ed into the five-bit
    /// layer-enable field at bit 8, masked to that field.
    pub fn enable_layers(self, layers: Layers) -> (r: Self)
        ensures
            r@ == spec_or_field16(self@, 8, 5, layers.0),
    {
        DisplayControl(self.0.or_field(8, 5, layers.bits()))
    }
}

/// Size of a tiled background.
pub enum TiledBgSize {
    _256x256,
    _256x512,
    _512x256,
    _512x512,
}

impl TiledBgSize {
    /// The register encoding of this size.
    pub open spec fn spec_bits(self) -> u16 {
        match self {
            TiledBgSize::_256x256 => 0,
            TiledBgSize::_256x512 => 1,
            TiledBgSize::_512x256 => 2,
            TiledBgSize::_512x512 => 3,
        }
    }

    /// The register encoding of this size.
    pub fn bits(self) -> (r: u16)
        ensures
            r == self.spec_bits(),
    {
        match self {
            TiledBgSize::_256x256 => 0,
            TiledBgSize::_256x512 => 1,
            TiledBgSize::_512x256 => 2,
            TiledBgSize::_512x512 => 3,
        }
    }
}

/// Size of an affine background.
pub enum AffineBgSize {
    _128x128,
    _256x256,
    _512x512,
    _1024x1024,
}

impl AffineBgSize {
    /// The register encoding of this size.
    pub open spec fn spec_bits(self) -> u16 {
        match self {
            AffineBgSize::_128x128 => 0,
            AffineBgSize::_256x256 => 1,
            AffineBgSize::_512x512 => 2,
            AffineBgSize::_1024x1024 => 3,
        }
    }

    /// The register encoding of this size.
    pub fn bits(self) -> (r: u16)
        ensures
            r == self.spec_bits(),
    {
        match self {
            AffineBgSize::_128x128 => 0,
            AffineBgSize::_256x256 => 1,
            AffineBgSize::_512x512 => 2,
            AffineBgSize::_1024x1024 => 3,
        }
    }
}

/// Palettes used by a tiled background or object.
pub enum PaletteMode {
    /// 16 palettes of 16 colors.
    Multi,
    /// 1 palette of 256 colors.
    Single,
}

impl PaletteMode {
    /// The register encoding of this palette mode.
    pub open spec fn spec_bits(self) -> u16 {
        match self {
            PaletteMode::Multi => 0,
            PaletteMode::Single => 1,
        }
    }

    /// The register encoding of this palette mode.
    pub fn bits(self) -> (r: u16)
        ensures
            r == self.spec_bits(),
    {
        match self {
            PaletteMode::Multi => 0,
            PaletteMode::Single => 1,
        }
    }
}

/// A background-control register value for a background of kind `T`: the
/// bit-exact image of the hardware's background-control layout.
///
/// Setters that only apply to one kind of background exist only on that
/// kind's instantiation, so a field that the hardware does not support for
/// the background at hand cannot be set at all.
pub struct BackgroundControl<T>(pub(crate) Bits<u16>, pub(crate) PhantomData<T>);

impl<T> View for BackgroundControl<T> {
    type V = u16;

    closed spec fn view(&self) -> u16 {
        self.0.0
    }
}

impl<T> BackgroundControl<T> {
    /// The zero register image: every field cleared.
    pub fn new() -> (r: Self)
        ensures
            r@ == 0u16,
    {
        BackgroundControl(Bits(0), PhantomData)
    }

    /// The raw register value this image holds.
    pub fn to_bits(self) -> (r: u16)
        ensures
            r == self@,
    {
        self.0.0
    }
}

impl BackgroundControl<Tiled> {
    /// Sets the background's size.
    pub fn size(self, size: TiledBgSize) -> (r: Self)
        ensures
            r@ == spec_set_field16(self@, 14, 2, size.spec_bits()),
    {
        let v = size.bits();
        BackgroundControl(self.0.set_field(14, 2, v), PhantomData)
    }

    /// Sets the starting block for the background's tile data.
    pub fn graphics_block(self, block: usize) -> (r: Self)
        requires
            block < 4,
        ensures
            r@ == spec_set_field16(self@, 2, 2, block as u16),
    {
        BackgroundControl(self.0.set_field(2, 2, block as u16), PhantomData)
    }

    /// Sets the starting block for the background's map data.
    pub fn map_block(self, block: usize) -> (r: Self)
        requires
            block < 32,
        ensures
            r@ == spec_set_field16(self@, 8, 5, block as u16),
    {
        BackgroundControl(self.0.set_field(8, 5, block as u16), PhantomData)
    }

    /// Sets the background's priority.
    pub fn priority(self, prio: usize) -> (r: Self)
        requires
            prio < 4,
        ensures
            r@ == spec_set_field16(self@, 0, 2, prio as u16),
    {
        BackgroundControl(self.0.set_field(0, 2, prio as u16), PhantomData)
    }

    /// Enables the mosaic for this background.
    pub fn enable_mosaic(self, enable: bool) -> (r: Self)
        ensures
            r@ == spec_set_field16(self@, 6, 1, if enable { 1u16 } else { 0u16 }),
    {
        BackgroundControl(self.0.set_bit(6, enable), PhantomData)
    }

    /// Sets the background's palette mode.
    pub fn palette_mode(self, pal: PaletteMode) -> (r: Self)
        ensures
            r@ == spec_set_field16(self@, 7, 1, pal.spec_bits()),
    {
        let v = pal.bits();
        BackgroundControl(self.0.set_field(7, 1, v), PhantomData)
    }
}

impl BackgroundControl<Affine> {
    /// Sets the background's size.
    ///
    /// Affine register semantics are not wired up yet: this setter is a
    /// deliberate placeholder and returns the value unchanged.
    pub fn size(self, _size: AffineBgSize) -> (r: Self)
        ensures
            r@ == self@,
    {
        self
    }

    /// Sets the starting block for the background's tile data.
    ///
    /// Affine register semantics are not wired up yet: this setter is a
    /// deliberate placeholder and returns the value unchanged.
    pub fn graphics_block(self, _block: usize) -> (r: Self)
        ensures
            r@ == self@,
    {
        self
    }

    /// Sets the starting block for the background's map data.
    ///
    /// Affine register semantics are not wired up yet: this setter is a
    /// deliberate placeholder and returns the value unchanged.
    pub fn map_block(self, _block: usize) -> (r: Self)
        ensures
            r@ == self@,
    {
        self
    }

    /// Sets the background's priority.
    ///
    /// Affine register semantics are not wired up yet: this setter is a
    /// deliberate placeholder and returns the value unchanged.
    pub fn priority(self, _prio: usize) -> (r: Self)
        ensures
            r@ == self@,
    {
        self
    }

    /// Enables the mosaic for this background.
    ///
    /// Affine register semantics are not wired up yet: this setter is a
    /// deliberate placeholder and returns the value unchanged.
    pub fn enable_mosaic(self, _enable: bool) -> (r: Self)
        ensures
            r@ == self@,
    {
        self
    }
}

/// The fixed physical address of the first background-control register;
/// the register for background `N` lies `2 * N` bytes above it.
pub const BGCNT_BASE_ADDR: u32 = 0x0400_0008;

/// Handle for background layer `N` of kind `Type`.
///
/// A handle exists only as part of the active mode's fixed layer set: a
/// layer the active mode does not support has no handle at all, and a mode
/// switch discards the whole set.
pub struct Bg<const N: usize, Type> {
    _p: PhantomData<Type>,
}

impl<const N: usize, Type> Bg<N, Type> {
    pub(crate) fn init() -> Self {
        Bg { _p: PhantomData }
    }
}

impl<const N: usize> Bg<N, Tiled> {
    /// Computes the store that applies `cnt` to this background's control
    /// register: the register's fixed physical address and the exact
    /// 16-bit value to write there.
    pub fn write_control(cnt: BackgroundControl<Tiled>) -> (r: (u32, u16))
        requires
            N < 4,
        ensures
            r.0 == BGCNT_BASE_ADDR + 2 * (N as u32),
            r.1 == cnt@,
    {
        (BGCNT_BASE_ADDR + 2 * (N as u32), cnt.to_bits())
    }
}

/// Access to various graphical effects.
pub struct Effects {
    pub window0: (),
    pub window1: (),
    pub obj_window: (),
    pub mosaic: (),
    pub blending: (),
}

impl Effects {
    pub(crate) fn new() -> Self {
        Effects {
            window0: (),
            window1: (),
            obj_window: (),
            mosaic: (),
            blending: (),
        }
    }
}

/// Different blending functions that can be applied.
pub enum BlendOp {
    Off,
    Alpha(u8, u8),
    White(u8),
    Black(u8),
}

/// Background layers for mode 0: four tiled layers and objects.
pub struct Mode0 {
    pub bg0: Bg<0, Tiled>,
    pub bg1: Bg<1, Tiled>,
    pub bg2: Bg<2, Tiled>,
    pub bg3: Bg<3, Tiled>,
    pub obj: (),
}

/// Background layers for mode 1: two tiled layers, one affine layer and
/// objects.
pub struct Mode1 {
    pub bg0: Bg<0, Tiled>,
    pub bg1: Bg<1, Affine>,
    pub bg2: Bg<2, Affine>,
    pub obj: (),
}

/// Background layers for mode 2: two affine layers and objects.
pub struct Mode2 {
    pub bg2: Bg<0, Affine>,
    pub bg3: Bg<1, Affine>,
    pub obj: (),
}

/// Background layers for mode 3: one full-color bitmap layer and objects.
pub struct Mode3 {
    pub bg2: Bg<2, Bitmap>,
    pub obj: (),
}

/// Background layers for mode 4.
pub struct Mode4 {
    pub bg2: (),
    pub obj: (),
}

/// Background layers for mode 5.
pub struct Mode5 {
    pub bg2: (),
    pub obj: (),
}

/// An operating mode of the display: a zero-footprint type that says
/// which numeric mode identifier control writes encode and which layer
/// handles exist while the mode is active. The initial, unconfigured
/// state is the unit type.
pub trait VideoMode: sealed::Sealed + Sized {
    /// The mode's numeric identifier, as the control register's
    /// mode-select field encodes it.
    spec fn spec_mode_bits() -> u16;

    /// The identifier always fits the three-bit mode-select field.
    proof fn mode_bits_in_range()
        ensures
            Self::spec_mode_bits() <= 7,
    ;

    /// The mode's numeric identifier.
    fn mode_bits() -> (r: u16)
        ensures
            r == Self::spec_mode_bits(),
    ;

    /// The fixed, exhaustive set of layer handles this mode exposes.
    fn layers() -> Self;
}

impl sealed::Sealed for () {

}

impl VideoMode for () {
    open spec fn spec_mode_bits() -> u16 {
        0
    }

    proof fn mode_bits_in_range() {
    }

    fn mode_bits() -> (r: u16) {
        0
    }

    fn layers() -> Self {
        ()
    }
}

impl sealed::Sealed for Mode0 {

}

impl VideoMode for Mode0 {
    open spec fn spec_mode_bits() -> u16 {
        0
    }

    proof fn mode_bits_in_range() {
    }

    fn mode_bits() -> (r: u16) {
        0
    }

    fn layers() -> Self {
        Mode0 { bg0: Bg::init(), bg1: Bg::init(), bg2: Bg::init(), bg3: Bg::init(), obj: () }
    }
}

impl sealed::Sealed for Mode3 {

}

impl VideoMode for Mode3 {
    open spec fn spec_mode_bits() -> u16 {
        3
    }

    proof fn mode_bits_in_range() {
    }

    fn mode_bits() -> (r: u16) {
        3
    }

    fn layers() -> Self {
        Mode3 { bg2: Bg::init(), obj: () }
    }
}

/// Access to the video hardware while mode `M` is active.
///
/// The handle owns the control-register view, the status-register view and
/// the active mode's layer set. It is never copied: two live handles would
/// mean two simultaneous configurations of one physical register. A mode
/// switch consumes it whole and returns the new mode's handle whole; there
/// is no partially switched state.
pub struct Display<M: VideoMode = ()> {
    pub control: Dispcnt<M>,
    pub status: Dispstat,
    pub layers: M,
}

impl<T: VideoMode> Display<T> {
    /// Switches the display to mode `M`, consuming this handle and its
    /// layer set.
    ///
    /// Returns the fresh mode-`M` handle with mode-`M`'s layer set, and
    /// the exact 16-bit value that the switch stores to the
    /// display-control register: the new mode's identifier, every other
    /// field cleared. The switch carries no other state.
    pub fn mode<M: VideoMode>(self) -> (r: (Display<M>, u16))
        ensures
            r.1 == M::spec_mode_bits(),
    {
        let bits = M::mode_bits();
        (Display::new(), bits)
    }

    pub(crate) fn new() -> Self {
        Display { control: Dispcnt(PhantomData), status: Dispstat, layers: T::layers() }
    }
}

/// Mode 3's bitmap is 240 pixels wide and 160 pixels high, one 16-bit
/// pixel each, at a fixed base address.
pub const MODE3_FRAME_BUFFER_ADDR: u32 = 0x0600_0000;

/// The fixed physical address of the mode-3 bitmap pixel at `(x, y)`:
/// two bytes per pixel, row-major with a stride of 240 pixels.
pub fn m3_pixel_address(x: usize, y: usize) -> (a: u32)
    requires
        x < 240,
        y < 160,
    ensures
        a == MODE3_FRAME_BUFFER_ADDR + 2 * (x + y * 240),
{
    MODE3_FRAME_BUFFER_ADDR + 2 * ((x as u32) + (y as u32) * 240)
}

} // verus!
