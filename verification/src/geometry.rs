//! Sizes, positions and the viewport that relates physical pixels to the
//! logical units of the UI.
//!
//! The engine never does arithmetic on fractional quantities. A pointer
//! coordinate or a scale factor is kept as the bit pattern of the IEEE 754
//! double-precision number the platform reported, and is handed back
//! unchanged; converting to logical units is the caller's division.

use vstd::prelude::*;

verus! {

/// A size in physical pixels.
#[derive(Clone, Copy, Debug, PartialEq, Eq, Structural)]
pub struct PhysicalSize {
    pub width: u32,
    pub height: u32,
}

impl PhysicalSize {
    /// A surface can be configured with this size: both sides are non-zero.
    pub open spec fn is_drawable(self) -> bool {
        self.width > 0 && self.height > 0
    }

    pub fn new(width: u32, height: u32) -> (size: Self)
        ensures
            size == (PhysicalSize { width, height }),
    {
        PhysicalSize { width, height }
    }

    /// Whether both sides are non-zero.
    pub fn drawable(&self) -> (yes: bool)
        ensures
            yes == self.is_drawable(),
    {
        self.width > 0 && self.height > 0
    }
}

/// A pointer position in physical pixels, each coordinate as the bit pattern
/// of a double-precision number.
#[derive(Clone, Copy, Debug, PartialEq, Eq, Structural)]
pub struct PointerPosition {
    pub x_bits: u64,
    pub y_bits: u64,
}

impl PointerPosition {
    pub fn new(x_bits: u64, y_bits: u64) -> (position: Self)
        ensures
            position == (PointerPosition { x_bits, y_bits }),
    {
        PointerPosition { x_bits, y_bits }
    }
}

/// Device pixels per logical unit, as the bit pattern of a double-precision
/// number.
#[derive(Clone, Copy, Debug, PartialEq, Eq, Structural)]
pub struct ScaleFactor {
    pub bits: u64,
}

impl ScaleFactor {
    pub fn from_bits(bits: u64) -> (scale: Self)
        ensures
            scale == (ScaleFactor { bits }),
    {
        ScaleFactor { bits }
    }
}

/// The physical size of the window together with the scale factor the
/// platform reported for it. Surface configuration reads the physical size;
/// layout and cursor math read the logical size, which is the physical size
/// divided by the scale factor.
#[derive(Clone, Copy, Debug, PartialEq, Eq, Structural)]
pub struct Viewport {
    pub physical: PhysicalSize,
    pub scale: ScaleFactor,
}

impl Viewport {
    pub fn with_physical_size(physical: PhysicalSize, scale: ScaleFactor) -> (viewport: Self)
        ensures
            viewport == (Viewport { physical, scale }),
    {
        Viewport { physical, scale }
    }

    pub fn physical_size(&self) -> (size: PhysicalSize)
        ensures
            size == self.physical,
    {
        self.physical
    }

    pub fn scale_factor(&self) -> (scale: ScaleFactor)
        ensures
            scale == self.scale,
    {
        self.scale
    }
}

} // verus!
