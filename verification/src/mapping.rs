//! The mapping from a source's coordinates into wheel space: its settings,
//! and the steps of it that need no arithmetic.
//!
//! A position goes through the mapping in four steps. It is scaled from the
//! input range to `0..=1`; [`Mapping::unit`] clamps it there; it is
//! inverted, if asked for, and scaled to the output range; and
//! [`Mapping::finish`] clamps it to `-1..=1` and turns it.

use crate::single::{lemma_negation, Single, MINUS_ONE_BITS, ONE_BITS};
use vstd::prelude::*;

verus! {

/// How far a mapping turns the pen's plane.
#[derive(Clone, Copy, Debug, PartialEq, Eq, Structural)]
pub enum MapOrientation {
    /// Not at all.
    A0,
    /// A quarter turn.
    A90,
    /// A half turn.
    A180,
    /// Three quarter turns.
    A270,
}

impl Default for MapOrientation {
    /// No turn.
    fn default() -> (r: MapOrientation)
        ensures
            r == MapOrientation::A0,
    {
        MapOrientation::A0
    }
}

impl MapOrientation {
    /// The turned position: `(x, y)`, `(-y, x)`, `(-x, -y)` or `(y, -x)`.
    pub open spec fn turned(self, x: Single, y: Single) -> (Single, Single) {
        match self {
            MapOrientation::A0 => (x, y),
            MapOrientation::A90 => (y.negated(), x),
            MapOrientation::A180 => (x.negated(), y.negated()),
            MapOrientation::A270 => (y, x.negated()),
        }
    }

    /// Turns a position by swapping and negating its coordinates.
    pub fn turn(&self, x: Single, y: Single) -> (r: (Single, Single))
        ensures
            r == self.turned(x, y),
    {
        match self {
            MapOrientation::A0 => (x, y),
            MapOrientation::A90 => (y.neg(), x),
            MapOrientation::A180 => (x.neg(), y.neg()),
            MapOrientation::A270 => (y, x.neg()),
        }
    }
}

/// The settings of a mapping.
#[derive(Clone, Copy, Debug, PartialEq, Eq, Structural)]
pub struct Mapping {
    /// Left edge of the input range.
    pub min_in_x: Single,
    /// Lower edge of the input range.
    pub min_in_y: Single,
    /// Right edge of the input range.
    pub max_in_x: Single,
    /// Upper edge of the input range.
    pub max_in_y: Single,
    /// Left edge of the output range.
    pub min_out_x: Single,
    /// Lower edge of the output range.
    pub min_out_y: Single,
    /// Right edge of the output range.
    pub max_out_x: Single,
    /// Upper edge of the output range.
    pub max_out_y: Single,
    /// The turn applied last.
    pub orientation: MapOrientation,
    /// Mirror the horizontal coordinate.
    pub invert_x: bool,
    /// Mirror the vertical coordinate.
    pub invert_y: bool,
}

/// The mapping that changes nothing: from `-1..=1` to `-1..=1` on both
/// axes, not turned, not mirrored.
pub open spec fn identity() -> Mapping {
    Mapping {
        min_in_x: Single::of(MINUS_ONE_BITS),
        min_in_y: Single::of(MINUS_ONE_BITS),
        max_in_x: Single::of(ONE_BITS),
        max_in_y: Single::of(ONE_BITS),
        min_out_x: Single::of(MINUS_ONE_BITS),
        min_out_y: Single::of(MINUS_ONE_BITS),
        max_out_x: Single::of(ONE_BITS),
        max_out_y: Single::of(ONE_BITS),
        orientation: MapOrientation::A0,
        invert_x: false,
        invert_y: false,
    }
}

impl Default for Mapping {
    /// The mapping that changes nothing.
    fn default() -> (r: Mapping)
        ensures
            r == identity(),
    {
        Mapping {
            min_in_x: Single::minus_one(),
            min_in_y: Single::minus_one(),
            max_in_x: Single::one(),
            max_in_y: Single::one(),
            min_out_x: Single::minus_one(),
            min_out_y: Single::minus_one(),
            max_out_x: Single::one(),
            max_out_y: Single::one(),
            orientation: MapOrientation::A0,
            invert_x: false,
            invert_y: false,
        }
    }
}

impl Mapping {
    /// A share of the input range, kept in `0..=1`.
    pub open spec fn unit_of(t: Single) -> Single {
        t.clamped(Single::of(0), Single::of(ONE_BITS))
    }

    /// A position in the output range, kept in `-1..=1` on both axes and
    /// then turned.
    pub open spec fn finished(&self, x: Single, y: Single) -> (Single, Single) {
        self.orientation.turned(
            x.clamped(Single::of(MINUS_ONE_BITS), Single::of(ONE_BITS)),
            y.clamped(Single::of(MINUS_ONE_BITS), Single::of(ONE_BITS)),
        )
    }

    /// Keeps a share of the input range in `0..=1`.
    pub fn unit(t: Single) -> (r: Single)
        ensures
            r == Mapping::unit_of(t),
    {
        t.clamp(Single::zero(), Single::one())
    }

    /// The last step of the mapping: keeps a position in `-1..=1` on both
    /// axes, then turns it as the orientation says.
    pub fn finish(&self, x: Single, y: Single) -> (r: (Single, Single))
        ensures
            r == self.finished(x, y),
    {
        let kept_x = x.clamp(Single::minus_one(), Single::one());
        let kept_y = y.clamp(Single::minus_one(), Single::one());
        self.orientation.turn(kept_x, kept_y)
    }
}

/// Whatever goes in, short of a NaN, a mapped position lies in wheel space:
/// both coordinates are within 1 of 0.
pub proof fn lemma_mapped_position_is_in_wheel_space(mapping: Mapping, x: Single, y: Single)
    requires
        !x.nan(),
        !y.nan(),
    ensures
        mapping.finished(x, y).0.within(Single::of(ONE_BITS)),
        mapping.finished(x, y).1.within(Single::of(ONE_BITS)),
{
}

/// The steps of the identity mapping that need no arithmetic leave every
/// position of wheel space, and every share of the input range, as it is.
pub proof fn lemma_identity_steps_change_nothing(x: Single, y: Single, t: Single)
    requires
        x.within(Single::of(ONE_BITS)),
        y.within(Single::of(ONE_BITS)),
        Single::of(0).at_most(t),
        t.at_most(Single::of(ONE_BITS)),
    ensures
        identity().finished(x, y) == (x, y),
        Mapping::unit_of(t) == t,
{
}

/// A half turn is two quarter turns, three quarter turns are three, and four
/// quarter turns bring every position back, bit for bit.
pub proof fn lemma_quarter_turns_compose(x: Single, y: Single)
    ensures
        ({
            let once = MapOrientation::A90.turned(x, y);
            let twice = MapOrientation::A90.turned(once.0, once.1);
            let thrice = MapOrientation::A90.turned(twice.0, twice.1);
            &&& twice == MapOrientation::A180.turned(x, y)
            &&& thrice == MapOrientation::A270.turned(x, y)
            &&& MapOrientation::A90.turned(thrice.0, thrice.1) == (x, y)
        }),
{
    lemma_negation(x);
    lemma_negation(y);
}

} // verus!
