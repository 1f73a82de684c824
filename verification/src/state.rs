//! The record that a tick reads and writes, and that the program around the
//! core guards with one lock.

use crate::config::{is_default, Config};
use crate::device::{Device, DeviceError};
use crate::pen::Pen;
use crate::source::Source;
use crate::single::Single;
use crate::wheel::{at_rest, Computed, Motion, Wheel};
use vstd::prelude::*;

verus! {

/// Why a tick ended early.
#[derive(Clone, Copy, Debug, PartialEq, Eq, Structural)]
pub enum Failure {
    /// The source could not be opened.
    SourceOpen,
    /// The configuration cannot become a controller.
    DeviceRejected(DeviceError),
    /// The controller could not be opened.
    DeviceOpen,
    /// The controller's events could not be written.
    Write,
}

/// What the program around the core has to do next.
#[derive(Clone, Copy, Debug, PartialEq, Eq, Structural)]
pub enum Action {
    /// Let go of the old source, then open the configured one.
    OpenSource,
    /// Let go of the old controller, then open the configured one.
    OpenDevice,
    /// Poll the source for a sample and map it into wheel space.
    Poll,
    /// Say how far this sample lies from the wheel's centre.
    Simulate(Option<Pen>),
    /// Do the arithmetic of this motion.
    Move(Motion),
    /// Write the controller's pending events.
    Flush,
    /// Read the controller's queue and take in each event.
    Drain,
    /// The tick is over, with the failure that ended it early, if any:
    /// sleep until the next deadline.
    Rest(Option<Failure>),
}

/// What the program around the core reports back.
#[derive(Clone, Copy, Debug, PartialEq, Eq, Structural)]
pub enum Event {
    /// A deadline was reached.
    Tick,
    /// The source was opened, or could not be.
    SourceOpened(bool),
    /// The controller was opened, or could not be.
    DeviceOpened(bool),
    /// The source was polled, with the mapped sample if one had arrived.
    Sampled(Option<Pen>),
    /// The distance of the sample in force from the wheel's centre.
    Touched(Single),
    /// The arithmetic of the motion is done, and gave this.
    Moved(Computed),
    /// The pending events were written, or could not be.
    Written(bool),
    /// The controller's queue was read to its end.
    Drained,
}

/// The state that the scheduler, the wheel, the source and the controller
/// share.
#[derive(Debug)]
pub struct State {
    /// The wheel.
    pub wheel: Wheel,
    /// The last sample that the source delivered, mapped.
    pub pen: Option<Pen>,
    /// A sample that takes the place of the source's while it is set.
    pub pen_override: Option<Pen>,
    /// The source, if one is open.
    pub source: Option<Source>,
    /// The controller, if one is open.
    pub device: Option<Device>,
    /// The settings.
    pub config: Config,
    /// The failure of the last tick that failed, until someone takes it.
    pub last_error: Option<Failure>,
    /// The source is to be replaced at the start of the next tick.
    pub reset_source: bool,
    /// The controller is to be replaced at the start of the next tick.
    pub reset_device: bool,
    /// What the scheduler waits for; between ticks, a deadline.
    pub awaiting: Action,
}

impl Default for State {
    /// Nothing open yet, both replacements requested, default settings.
    fn default() -> (r: State)
        ensures
            r.wheel == at_rest(),
            r.pen is None,
            r.pen_override is None,
            r.source is None,
            r.device is None,
            r.last_error is None,
            r.reset_source,
            r.reset_device,
            r.awaiting == Action::Rest(None),
            is_default(&r.config),
    {
        State {
            wheel: Wheel::default(),
            pen: None,
            pen_override: None,
            source: None,
            device: None,
            config: Config::default(),
            last_error: None,
            reset_source: true,
            reset_device: true,
            awaiting: Action::Rest(None),
        }
    }
}

} // verus!
