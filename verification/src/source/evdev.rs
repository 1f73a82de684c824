//! Pen samples from the events of an evdev tablet.

use crate::event::{tablet_axis, tablet_axis_of, RawEvent, TabletAxis};
use crate::single::{Single, MINUS_ONE_BITS, ONE_BITS};
use vstd::prelude::*;

verus! {

/// The last values that a tablet reported, in the tablet's own units. An
/// axis that has not reported yet has no value.
#[derive(Clone, Copy, Debug, PartialEq, Eq, Structural)]
pub struct TabletPoint {
    /// Horizontal position.
    pub x: Option<i32>,
    /// Vertical position.
    pub y: Option<i32>,
    /// Pressure of the tip, never negative.
    pub pressure: u32,
}

/// The pressure that an event value stands for: negative values count as none.
pub open spec fn pressure_from(value: i32) -> u32 {
    if value > 0 {
        value as u32
    } else {
        0
    }
}

/// The point after one event: an event on the X, Y or pressure axis
/// replaces that value, and any other event changes nothing.
pub open spec fn absorb(point: TabletPoint, ev: RawEvent) -> TabletPoint {
    match tablet_axis_of(ev) {
        Some(TabletAxis::X) => TabletPoint { x: Some(ev.value), y: point.y, pressure: point.pressure },
        Some(TabletAxis::Y) => TabletPoint { x: point.x, y: Some(ev.value), pressure: point.pressure },
        Some(TabletAxis::Pressure) => TabletPoint {
            x: point.x,
            y: point.y,
            pressure: pressure_from(ev.value),
        },
        None => point,
    }
}

/// The point after a run of events, in order.
pub open spec fn absorb_all(point: TabletPoint, events: Seq<RawEvent>) -> TabletPoint
    decreases events.len(),
{
    if events.len() == 0 {
        point
    } else {
        absorb(absorb_all(point, events.drop_last()), events.last())
    }
}

/// Whether any event of the run is on one of the three axes.
pub open spec fn reports(events: Seq<RawEvent>) -> bool {
    exists|i: int| 0 <= i < events.len() && tablet_axis_of(#[trigger] events[i]) is Some
}

/// Which side of a tablet is the longer one, and so reaches past the wheel.
#[derive(Clone, Copy, Debug, PartialEq, Eq, Structural)]
pub enum Stretch {
    /// The tablet is wider than high: the horizontal coordinate is scaled
    /// up by the aspect ratio and cut off at the wheel's edge.
    Horizontal,
    /// The tablet is higher than wide: the vertical coordinate is scaled up
    /// by the inverse of the aspect ratio and cut off at the wheel's edge.
    Vertical,
    /// The tablet is square, or its aspect ratio is no number: nothing is
    /// scaled.
    Neither,
}

/// The stretch of a tablet whose width over its height is `aspect_ratio`.
pub open spec fn stretch_of(aspect_ratio: Single) -> Stretch {
    if Single::of(ONE_BITS).below(aspect_ratio) {
        Stretch::Horizontal
    } else if aspect_ratio.below(Single::of(ONE_BITS)) {
        Stretch::Vertical
    } else {
        Stretch::Neither
    }
}

/// Says which coordinate of a tablet is scaled up, going by its aspect
/// ratio. Never both.
pub fn stretch(aspect_ratio: Single) -> (r: Stretch)
    ensures
        r == stretch_of(aspect_ratio),
{
    if Single::one().lt(aspect_ratio) {
        Stretch::Horizontal
    } else if aspect_ratio.lt(Single::one()) {
        Stretch::Vertical
    } else {
        Stretch::Neither
    }
}

/// Cuts a scaled coordinate off at the wheel's edge: keeps it in `-1..=1`.
pub fn fit(v: Single) -> (r: Single)
    ensures
        r == v.clamped(Single::of(MINUS_ONE_BITS), Single::of(ONE_BITS)),
        !v.nan() ==> r.within(Single::of(ONE_BITS)),
{
    v.clamp(Single::minus_one(), Single::one())
}

/// A tablet read through evdev.
#[derive(Clone, Copy, Debug, PartialEq, Eq, Structural)]
pub struct EvdevSource {
    /// What the tablet reported last.
    pub current: TabletPoint,
}

impl EvdevSource {
    /// A tablet that has not reported anything yet.
    pub fn new() -> (r: EvdevSource)
        ensures
            r.current == (TabletPoint { x: None, y: None, pressure: 0 }),
    {
        EvdevSource { current: TabletPoint { x: None, y: None, pressure: 0 } }
    }

    /// Takes in the events that were read since the last call, in order. A
    /// sample comes out if any of them was on the X, Y or pressure axis: the
    /// point after all of them.
    pub fn get(&mut self, events: &[RawEvent]) -> (r: Option<TabletPoint>)
        ensures
            final(self).current == absorb_all(old(self).current, events@),
            r == if reports(events@) {
                Some(final(self).current)
            } else {
                None::<TabletPoint>
            },
    {
        let mut changed: bool = false;
        let mut i: usize = 0;
        while i < events.len()
            invariant
                i <= events@.len(),
                self.current == absorb_all(old(self).current, events@.take(i as int)),
                changed == reports(events@.take(i as int)),
            decreases events@.len() - i,
        {
            let ev: RawEvent = events[i];
            proof {
                let before = events@.take(i as int);
                let after = events@.take(i + 1);
                assert(after.drop_last() =~= before);
                assert(after.last() == ev);
                if reports(before) {
                    let k = choose|k: int| 0 <= k < before.len() && tablet_axis_of(#[trigger] before[k]) is Some;
                    assert(after[k] == before[k]);
                }
                if tablet_axis_of(ev) is Some {
                    assert(after[i as int] == ev);
                }
                if reports(after) {
                    let k = choose|k: int| 0 <= k < after.len() && tablet_axis_of(#[trigger] after[k]) is Some;
                    if k < i {
                        assert(before[k] == after[k]);
                    }
                }
            }
            match tablet_axis(ev) {
                Some(TabletAxis::X) => {
                    self.current.x = Some(ev.value);
                    changed = true;
                },
                Some(TabletAxis::Y) => {
                    self.current.y = Some(ev.value);
                    changed = true;
                },
                Some(TabletAxis::Pressure) => {
                    self.current.pressure = if ev.value > 0 {
                        ev.value as u32
                    } else {
                        0
                    };
                    changed = true;
                },
                None => {},
            }
            i = i + 1;
        }
        assert(events@.take(i as int) =~= events@);
        if changed {
            Some(self.current)
        } else {
            None
        }
    }
}

} // verus!
