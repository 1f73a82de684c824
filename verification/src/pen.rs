//! Pen samples.

use crate::single::Single;
use vstd::prelude::*;

verus! {

/// A pen sample in wheel space.
#[derive(Clone, Copy, Debug, PartialEq, Eq, Structural)]
pub struct Pen {
    /// Horizontal coordinate, from -1 to 1.
    pub x: Single,
    /// Vertical coordinate, from -1 to 1.
    pub y: Single,
    /// Pressure of the tip.
    pub pressure: u32,
    /// Buttons held, one bit each.
    pub buttons: u8,
}

/// A pen sample as a source delivers it, before mapping.
#[derive(Clone, Copy, Debug, PartialEq, Eq, Structural)]
pub struct RawPen {
    /// Horizontal coordinate.
    pub x: Single,
    /// Vertical coordinate.
    pub y: Single,
    /// Pressure of the tip.
    pub pressure: u32,
    /// Buttons held, one bit each.
    pub buttons: u8,
}

impl Default for Pen {
    /// The pen at the centre, lifted.
    fn default() -> (r: Pen)
        ensures
            r == (Pen { x: Single::of(0), y: Single::of(0), pressure: 0, buttons: 0 }),
    {
        Pen { x: Single::from_bits(0), y: Single::from_bits(0), pressure: 0, buttons: 0 }
    }
}

impl Default for RawPen {
    /// The pen at the origin, lifted.
    fn default() -> (r: RawPen)
        ensures
            r == (RawPen { x: Single::of(0), y: Single::of(0), pressure: 0, buttons: 0 }),
    {
        RawPen { x: Single::from_bits(0), y: Single::from_bits(0), pressure: 0, buttons: 0 }
    }
}

} // verus!
