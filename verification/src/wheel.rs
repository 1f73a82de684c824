//! The wheel: its contact with the pen, and what is kept of its motion.
//!
//! A tick of the wheel has two halves. [`Wheel::update`] looks at the pen and
//! decides what happens: free spin, drag or horn. The arithmetic of the
//! motion is done elsewhere, and [`Wheel::advance`] takes in what it gave:
//! it keeps the angle within half the wheel's range and lets a wheel that
//! hardly moves stand still.

use crate::config::Config;
use crate::device::uinput::UInputDevice;
use crate::device::Device;
use crate::pen::Pen;
use crate::single::{clamp_symmetric, clamped_symmetric, Single, SIGN_BIT};
use vstd::prelude::*;

verus! {

/// How the pen holds the wheel.
#[derive(Clone, Copy, Debug, PartialEq, Eq, Structural)]
pub enum Phase {
    /// The pen does not turn the wheel: inertia, friction and spring do.
    FreeSpin,
    /// The pen turns the wheel.
    Dragging,
    /// The pen presses the horn.
    Honking,
}

/// Which arithmetic a tick needs.
#[derive(Clone, Copy, Debug, PartialEq, Eq, Structural)]
pub struct Motion {
    /// The wheel spins freely: torque, friction and spring change its speed,
    /// and its speed changes its angle.
    pub free_spin: bool,
    /// The pen turns the wheel by its movement since the previous position.
    pub drag: bool,
    /// The pen's position becomes the previous position.
    pub latch: bool,
}

/// A position of the pen on the wheel.
#[derive(Clone, Copy, Debug, PartialEq, Eq, Structural)]
pub struct Position {
    /// Horizontal coordinate.
    pub x: Single,
    /// Vertical coordinate.
    pub y: Single,
}

/// What the arithmetic of one tick gave.
#[derive(Clone, Copy, Debug, PartialEq, Eq, Structural)]
pub struct Computed {
    /// Half the wheel's range, in radians.
    pub half_range: Single,
    /// In free spin, the torque that the controller's feedback exerts.
    pub feedback_torque: Single,
    /// In free spin, the speed after this tick's acceleration. In a drag,
    /// the change of the angle over the length of the tick.
    pub velocity: Single,
    /// In free spin, the angle moved on by the speed. In a drag, the angle
    /// moved on by the pen. Not yet clamped.
    pub angle: Single,
    /// The clamped angle as a share of half the range, scaled to the
    /// controller's resolution. Kept within the resolution when it is taken
    /// in.
    pub axis: i32,
}

/// The wheel.
#[derive(Clone, Copy, Debug, PartialEq, Eq, Structural)]
pub struct Wheel {
    /// Angle in radians, 0 at the centre.
    pub angle: Single,
    /// Angular speed in radians per second.
    pub velocity: Single,
    /// Torque from the controller's feedback.
    pub feedback_torque: Single,
    /// The horn is pressed.
    pub honking: bool,
    /// The pen holds the wheel's rim.
    pub dragging: bool,
    /// Where the pen was when it last held the rim.
    pub prev_pos: Position,
    /// The angle before the last motion.
    pub prev_angle: Single,
}

/// A wheel at rest at the centre, spinning freely.
pub open spec fn at_rest() -> Wheel {
    Wheel {
        angle: Single::of(0),
        velocity: Single::of(0),
        feedback_torque: Single::of(0),
        honking: false,
        dragging: false,
        prev_pos: Position { x: Single::of(0), y: Single::of(0) },
        prev_angle: Single::of(0),
    }
}

impl Default for Wheel {
    /// A wheel at rest at the centre, spinning freely.
    fn default() -> (r: Wheel)
        ensures
            r == at_rest(),
    {
        Wheel {
            angle: Single::zero(),
            velocity: Single::zero(),
            feedback_torque: Single::zero(),
            honking: false,
            dragging: false,
            prev_pos: Position { x: Single::zero(), y: Single::zero() },
            prev_angle: Single::zero(),
        }
    }
}

/// The pressure of a sample; no sample is a lifted pen.
pub open spec fn pressure_of(pen: Option<Pen>) -> u32 {
    match pen {
        Some(p) => p.pressure,
        None => 0,
    }
}

/// The position of a sample; no sample is a pen at the centre.
pub open spec fn position_of(pen: Option<Pen>) -> Position {
    match pen {
        Some(p) => Position { x: p.x, y: p.y },
        None => Position { x: Single::of(0), y: Single::of(0) },
    }
}

/// The controller after a horn command, if there is a controller and a
/// command.
pub open spec fn honked(device: Option<Device>, command: Option<bool>) -> Option<Device> {
    match (device, command) {
        (Some(d), Some(on)) => Some(d.with_horn(on)),
        _ => device,
    }
}

/// An axis value kept on the axis of a controller with the given
/// resolution: no further from 0 than the resolution.
pub open spec fn bounded(axis: i32, resolution: u32) -> i32 {
    if axis > resolution {
        resolution as i32
    } else if axis < -(resolution as int) {
        (-(resolution as int)) as i32
    } else {
        axis
    }
}

/// The controller after a tick's motion: whenever the wheel was moved,
/// freely or by the pen, the axis of a uinput wheel is set, to a value on
/// the axis. Any other controller drops the value.
pub open spec fn steered(device: Option<Device>, motion: Motion, axis: i32) -> Option<Device> {
    match device {
        Some(Device::UInput(d)) => if motion.free_spin || motion.drag {
            Some(
                Device::UInput(
                    UInputDevice { wheel_axis: Some(bounded(axis, d.resolution)), ..d },
                ),
            )
        } else {
            device
        },
        _ => device,
    }
}

/// The bits of pi.
pub const PI_BITS: u32 = 0x4049_0fdb;

/// What brings the difference of two polar angles onto the short way round,
/// from -pi, not included, to pi.
#[derive(Clone, Copy, Debug, PartialEq, Eq, Structural)]
pub enum Wrap {
    /// At or below -pi: a full turn is to be added.
    Up,
    /// Above pi: a full turn is to be taken off.
    Down,
    /// On the short way already, or no number.
    Stay,
}

/// What to do with a difference of two polar angles.
pub open spec fn wrap_of(delta: Single) -> Wrap {
    if delta.at_most(Single::of((PI_BITS + SIGN_BIT) as u32)) {
        Wrap::Up
    } else if Single::of(PI_BITS).below(delta) {
        Wrap::Down
    } else {
        Wrap::Stay
    }
}

/// Says what brings a difference of two polar angles onto the short way
/// round.
pub fn wrap(delta: Single) -> (r: Wrap)
    ensures
        r == wrap_of(delta),
{
    let pi = Single::from_bits(PI_BITS);
    if delta.le(pi.neg()) {
        Wrap::Up
    } else if pi.lt(delta) {
        Wrap::Down
    } else {
        Wrap::Stay
    }
}

fn bound(axis: i32, resolution: u32) -> (r: i32)
    ensures
        r == bounded(axis, resolution),
{
    let wide: i64 = axis as i64;
    let span: i64 = resolution as i64;
    if wide > span {
        resolution as i32
    } else if wide < -span {
        (-span) as i32
    } else {
        axis
    }
}

impl Wheel {
    /// Horn and drag never hold together.
    pub open spec fn exclusive(&self) -> bool {
        !(self.honking && self.dragging)
    }

    /// The phase that the flags stand for.
    pub open spec fn phase(&self) -> Phase {
        if self.honking {
            Phase::Honking
        } else if self.dragging {
            Phase::Dragging
        } else {
            Phase::FreeSpin
        }
    }

    /// The wheel after looking at the pen. `near_centre` says whether the
    /// pen is within the horn radius of the wheel's centre.
    ///
    /// An angle or a speed that is no finite number starts again at 0. A
    /// lifted pen frees the wheel. A pressed horn stays pressed whatever the
    /// pen does. A free wheel touched near its centre honks; touched
    /// elsewhere, or already dragged, it is dragged.
    pub open spec fn next(&self, pressure: u32, threshold: u32, near_centre: bool) -> Wheel {
        let sound = Wheel {
            angle: self.angle.settled(),
            velocity: self.velocity.settled(),
            ..*self
        };
        if pressure <= threshold {
            Wheel { honking: false, dragging: false, ..sound }
        } else if self.honking {
            sound
        } else if !self.dragging && near_centre {
            Wheel { honking: true, dragging: false, ..sound }
        } else {
            Wheel { honking: false, dragging: true, ..sound }
        }
    }

    /// The command that a tick sends to the horn button: released when a
    /// honking wheel is let go, pressed when the horn is first touched.
    pub open spec fn horn_command(&self, pressure: u32, threshold: u32, near_centre: bool) -> Option<
        bool,
    > {
        if pressure <= threshold {
            if self.honking {
                Some(false)
            } else {
                None
            }
        } else if !self.honking && !self.dragging && near_centre {
            Some(true)
        } else {
            None
        }
    }

    /// The arithmetic of a tick. The wheel spins freely unless it was
    /// dragged when the tick began. It is turned by the pen only if it was
    /// already dragged and still is; the tick that starts a drag only keeps
    /// the position.
    pub open spec fn motion(&self, pressure: u32, threshold: u32, near_centre: bool) -> Motion {
        let held = pressure > threshold && !self.honking && (self.dragging || !near_centre);
        Motion { free_spin: !self.dragging, drag: held && self.dragging, latch: held }
    }

    /// The wheel after a tick's motion.
    ///
    /// In free spin the speed is taken in, 0 taking the place of a speed
    /// under 0.00001, and the angle moves from the old angle to the new one.
    /// In a drag the angle moves from the old angle, clamped, to the new
    /// one, and the speed is the one computed from that move. On every path
    /// the angle is clamped to half the range.
    pub open spec fn advanced(&self, motion: Motion, computed: Computed, pen: Option<Pen>) -> Wheel {
        let half_range = computed.half_range;
        let moved = if motion.free_spin {
            Wheel {
                feedback_torque: computed.feedback_torque,
                velocity: computed.velocity.stilled(),
                prev_angle: self.angle,
                angle: clamped_symmetric(half_range, computed.angle),
                ..*self
            }
        } else if motion.drag {
            Wheel {
                prev_angle: clamped_symmetric(half_range, self.angle),
                angle: clamped_symmetric(half_range, computed.angle),
                velocity: computed.velocity,
                ..*self
            }
        } else {
            Wheel { angle: clamped_symmetric(half_range, self.angle), ..*self }
        };
        if motion.latch {
            Wheel { prev_pos: position_of(pen), ..moved }
        } else {
            moved
        }
    }

    /// The first half of a tick: looks at the pen and decides what happens.
    /// Sends the horn command, if there is one, to the controller, if there
    /// is one, and returns the arithmetic to do. `pen` is the sample in
    /// force, none counting as a lifted pen, and `centre_dist` its distance
    /// from the wheel's centre.
    pub fn update(
        &mut self,
        device: &mut Option<Device>,
        config: &Config,
        pen: Option<Pen>,
        centre_dist: Single,
    ) -> (motion: Motion)
        ensures
            *final(self) == old(self).next(
                pressure_of(pen),
                config.pressure_threshold,
                centre_dist.at_most(config.horn_radius),
            ),
            motion == old(self).motion(
                pressure_of(pen),
                config.pressure_threshold,
                centre_dist.at_most(config.horn_radius),
            ),
            *final(device) == honked(
                *old(device),
                old(self).horn_command(
                    pressure_of(pen),
                    config.pressure_threshold,
                    centre_dist.at_most(config.horn_radius),
                ),
            ),
    {
        let pressure: u32 = match pen {
            Some(p) => p.pressure,
            None => 0,
        };
        let near_centre: bool = centre_dist.le(config.horn_radius);
        let free_spin: bool = !self.dragging;
        self.angle = self.angle.settle();
        self.velocity = self.velocity.settle();
        if pressure <= config.pressure_threshold {
            if self.honking {
                match device {
                    Some(d) => d.set_horn(false),
                    None => {},
                }
            }
            self.honking = false;
            self.dragging = false;
            return Motion { free_spin, drag: false, latch: false };
        }
        if self.honking {
            return Motion { free_spin, drag: false, latch: false };
        }
        if !self.dragging && near_centre {
            self.honking = true;
            match device {
                Some(d) => d.set_horn(true),
                None => {},
            }
            return Motion { free_spin, drag: false, latch: false };
        }
        let drag: bool = self.dragging;
        self.dragging = true;
        Motion { free_spin, drag, latch: true }
    }

    /// The second half of a tick: takes in what the arithmetic gave for the
    /// motion that [`Wheel::update`] decided on. If the wheel was moved, the
    /// axis of a uinput wheel is set, no further from 0 than its resolution.
    pub fn advance(
        &mut self,
        device: &mut Option<Device>,
        motion: Motion,
        computed: Computed,
        pen: Option<Pen>,
    )
        ensures
            *final(self) == old(self).advanced(motion, computed, pen),
            *final(device) == steered(*old(device), motion, computed.axis),
    {
        let half_range = computed.half_range;
        if motion.free_spin {
            self.feedback_torque = computed.feedback_torque;
            self.velocity = computed.velocity.still();
            self.prev_angle = self.angle;
            self.angle = clamp_symmetric(half_range, computed.angle);
        } else if motion.drag {
            self.prev_angle = clamp_symmetric(half_range, self.angle);
            self.angle = clamp_symmetric(half_range, computed.angle);
            self.velocity = computed.velocity;
        } else {
            self.angle = clamp_symmetric(half_range, self.angle);
        }
        if motion.latch {
            self.prev_pos = match pen {
                Some(p) => Position { x: p.x, y: p.y },
                None => Position { x: Single::zero(), y: Single::zero() },
            };
        }
        if motion.free_spin || motion.drag {
            match device {
                Some(Device::UInput(d)) => {
                    let axis: i32 = bound(computed.axis, d.resolution);
                    d.set_wheel(axis);
                },
                _ => {},
            }
        }
    }
}

/// What one tick brings to the wheel.
#[derive(Clone, Copy, Debug, PartialEq, Eq, Structural)]
pub struct Tick {
    /// The sample in force.
    pub pen: Option<Pen>,
    /// Its distance from the wheel's centre.
    pub centre_dist: Single,
    /// What the arithmetic gave.
    pub computed: Computed,
}

/// The wheel after one tick: both halves, in order.
pub open spec fn ticked(wheel: Wheel, config: &Config, tick: Tick) -> Wheel {
    let pressure = pressure_of(tick.pen);
    let threshold = config.pressure_threshold;
    let near_centre = tick.centre_dist.at_most(config.horn_radius);
    wheel.next(pressure, threshold, near_centre).advanced(
        wheel.motion(pressure, threshold, near_centre),
        tick.computed,
        tick.pen,
    )
}

/// The wheel after a run of ticks, in order.
pub open spec fn run(wheel: Wheel, config: &Config, ticks: Seq<Tick>) -> Wheel
    decreases ticks.len(),
{
    if ticks.len() == 0 {
        wheel
    } else {
        ticked(run(wheel, config, ticks.drop_last()), config, ticks.last())
    }
}

/// After every tick the angle lies within half the range, whatever the
/// wheel was before, as long as half the range is a number and not
/// negative and the arithmetic gave a number for the angle.
pub proof fn lemma_angle_stays_in_range(wheel: Wheel, config: &Config, ticks: Seq<Tick>)
    requires
        ticks.len() > 0,
        !ticks.last().computed.half_range.nan(),
        ticks.last().computed.half_range.rank() >= 0,
        !ticks.last().computed.angle.nan(),
    ensures
        run(wheel, config, ticks).angle.within(ticks.last().computed.half_range),
{
}

/// What is sent to the axis of a uinput wheel lies on the axis: no further
/// from 0 than the resolution, whatever the arithmetic gave. A value that
/// lay on the axis is sent as it is.
pub proof fn lemma_axis_stays_on_the_axis(wheel: UInputDevice, motion: Motion, axis: i32)
    requires
        motion.free_spin || motion.drag,
    ensures
        steered(Some(Device::UInput(wheel)), motion, axis) is Some,
        steered(Some(Device::UInput(wheel)), motion, axis)->Some_0 is UInput,
        ({
            let sent = steered(Some(Device::UInput(wheel)), motion, axis)->Some_0->UInput_0;
            &&& sent.wheel_axis is Some
            &&& -wheel.resolution <= sent.wheel_axis->Some_0 <= wheel.resolution
            &&& -wheel.resolution <= axis <= wheel.resolution ==> sent.wheel_axis == Some(axis)
            &&& sent.resolution == wheel.resolution
            &&& sent.horn_key == wheel.horn_key
            &&& sent.ff == wheel.ff
        }),
{
}

/// A difference of two polar angles that needs no wrapping lies on the
/// short way round: above -pi and at most pi.
pub proof fn lemma_unwrapped_is_the_short_way(delta: Single)
    requires
        !delta.nan(),
        wrap_of(delta) == Wrap::Stay,
    ensures
        Single::of((PI_BITS + SIGN_BIT) as u32).below(delta),
        delta.at_most(Single::of(PI_BITS)),
        Single::of((PI_BITS + SIGN_BIT) as u32) == Single::of(PI_BITS).negated(),
{
}

/// A pressed horn stays pressed, and the wheel is not dragged, through any
/// ticks in which the pen stays down, wherever it moves.
pub proof fn lemma_horn_holds_while_pressed(wheel: Wheel, config: &Config, ticks: Seq<Tick>)
    requires
        wheel.honking,
        !wheel.dragging,
        forall|i: int|
            0 <= i < ticks.len() ==> pressure_of(#[trigger] ticks[i].pen)
                > config.pressure_threshold,
    ensures
        run(wheel, config, ticks).honking,
        !run(wheel, config, ticks).dragging,
    decreases ticks.len(),
{
    if ticks.len() > 0 {
        lemma_horn_holds_while_pressed(wheel, config, ticks.drop_last());
    }
}

/// The first tick that sees the pen lifted frees the wheel, whatever held
/// it, and releases the horn if it was pressed.
pub proof fn lemma_lift_frees(wheel: Wheel, config: &Config, tick: Tick)
    requires
        pressure_of(tick.pen) <= config.pressure_threshold,
    ensures
        ticked(wheel, config, tick).phase() == Phase::FreeSpin,
        wheel.honking ==> wheel.horn_command(
            pressure_of(tick.pen),
            config.pressure_threshold,
            tick.centre_dist.at_most(config.horn_radius),
        ) == Some(false),
{
}

/// The horn is pressed only by touching a free wheel within the horn radius
/// of its centre, and the pen does not turn the wheel in that tick.
pub proof fn lemma_horn_starts_from_free_spin(wheel: Wheel, config: &Config, tick: Tick)
    requires
        !wheel.honking,
        ticked(wheel, config, tick).honking,
    ensures
        wheel.phase() == Phase::FreeSpin,
        pressure_of(tick.pen) > config.pressure_threshold,
        tick.centre_dist.at_most(config.horn_radius),
        wheel.horn_command(pressure_of(tick.pen), config.pressure_threshold, true) == Some(true),
        !wheel.motion(pressure_of(tick.pen), config.pressure_threshold, true).drag,
{
}

/// Horn and drag never hold together, from a wheel of which that is true.
pub proof fn lemma_exclusive_always(wheel: Wheel, config: &Config, ticks: Seq<Tick>)
    requires
        wheel.exclusive(),
    ensures
        run(wheel, config, ticks).exclusive(),
    decreases ticks.len(),
{
    if ticks.len() > 0 {
        lemma_exclusive_always(wheel, config, ticks.drop_last());
    }
}

/// The speed of a dragged wheel is the one computed from the move of its
/// angle, kept bit for bit, and the free spin that follows starts from it:
/// the next tick begins with that speed unless it is no finite number.
pub proof fn lemma_drag_hands_its_speed_on(wheel: Wheel, config: &Config, drag: Tick, after: Tick)
    requires
        wheel.dragging,
        !wheel.honking,
        pressure_of(drag.pen) > config.pressure_threshold,
    ensures
        ({
            let dragged = ticked(wheel, config, drag);
            let pressure = pressure_of(after.pen);
            let near_centre = after.centre_dist.at_most(config.horn_radius);
            let begun = dragged.next(pressure, config.pressure_threshold, near_centre);
            &&& dragged.velocity == drag.computed.velocity
            &&& dragged.prev_angle == clamped_symmetric(
                drag.computed.half_range,
                wheel.angle.settled(),
            )
            &&& dragged.angle == clamped_symmetric(drag.computed.half_range, drag.computed.angle)
            &&& !drag.computed.velocity.nan() && !drag.computed.velocity.infinite()
                ==> begun.velocity == drag.computed.velocity
        }),
{
}

/// Free spin keeps what the arithmetic gave: the torque; the speed, unless
/// it is under 0.00001; the angle, if it lies within half the range; and
/// the angle it started from as the previous one.
pub proof fn lemma_free_spin_keeps_the_motion(wheel: Wheel, config: &Config, tick: Tick)
    requires
        !wheel.dragging,
    ensures
        ({
            let after = ticked(wheel, config, tick);
            let given = tick.computed;
            &&& after.prev_angle == wheel.angle.settled()
            &&& after.feedback_torque == given.feedback_torque
            &&& !given.velocity.absolute().below(Single::of(crate::single::STILL_BITS))
                ==> after.velocity == given.velocity
            &&& !given.half_range.nan() && given.half_range.rank() >= 0 && given.angle.within(
                given.half_range,
            ) ==> after.angle == given.angle
        }),
{
}

/// The tick that presses the horn does not let the pen turn the wheel. A
/// free wheel at rest, touched within the horn radius, honks, sends the
/// horn to the controller once, and keeps its angle, its speed of 0 and its
/// previous position, as long as the arithmetic of a wheel at rest gives
/// back the angle it was given.
pub proof fn lemma_horn_tick_leaves_the_wheel(
    wheel: Wheel,
    config: &Config,
    tick: Tick,
    device: Device,
)
    requires
        !wheel.honking,
        !wheel.dragging,
        pressure_of(tick.pen) > config.pressure_threshold,
        tick.centre_dist.at_most(config.horn_radius),
        wheel.velocity == Single::of(0),
        !tick.computed.half_range.nan(),
        tick.computed.half_range.rank() >= 0,
        wheel.angle.within(tick.computed.half_range),
        tick.computed.angle == wheel.angle,
        tick.computed.velocity == Single::of(0),
    ensures
        ({
            let after = ticked(wheel, config, tick);
            let pressure = pressure_of(tick.pen);
            let command = wheel.horn_command(pressure, config.pressure_threshold, true);
            &&& after.honking
            &&& !after.dragging
            &&& after.angle == wheel.angle
            &&& after.velocity == Single::of(0)
            &&& after.prev_pos == wheel.prev_pos
            &&& !wheel.motion(pressure, config.pressure_threshold, true).drag
            &&& command == Some(true)
            &&& honked(Some(device), command) == Some(device.with_horn(true))
        }),
{
}

/// A wheel in free spin whose speed has fallen under 0.00001 stands still:
/// its speed is exactly 0.
pub proof fn lemma_slow_wheel_stands_still(wheel: Wheel, config: &Config, tick: Tick)
    requires
        !wheel.dragging,
        tick.computed.velocity.absolute().below(Single::of(crate::single::STILL_BITS)),
    ensures
        ticked(wheel, config, tick).velocity == Single::of(0),
{
}

} // verus!
