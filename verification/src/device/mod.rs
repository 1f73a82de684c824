//! Virtual controllers: the uinput wheel and the one that drops everything.

pub mod uinput;

use crate::config;
use crate::device::uinput::{batch, feedback_of, rejection, UInputDevice};
use crate::event::RawEvent;
use vstd::prelude::*;

verus! {

/// Why a controller cannot be made from a configuration.
#[derive(Clone, Copy, Debug, PartialEq, Eq, Structural)]
pub enum DeviceError {
    /// The resolution does not fit the axis.
    ResolutionTooHigh,
    /// The name is empty.
    EmptyName,
    /// The name has 80 bytes or more.
    NameTooLong,
}

impl DeviceError {
    /// The error in words.
    pub fn message(&self) -> (r: &'static str)
        ensures
            r@ == match *self {
                DeviceError::ResolutionTooHigh => "Device resolution too high!"@,
                DeviceError::EmptyName => "Empty device name is prohibited!"@,
                DeviceError::NameTooLong => "Device name can be up to 79 characters only!"@,
            },
    {
        match self {
            DeviceError::ResolutionTooHigh => "Device resolution too high!",
            DeviceError::EmptyName => "Empty device name is prohibited!",
            DeviceError::NameTooLong => "Device name can be up to 79 characters only!",
        }
    }
}

/// The controller that exists when none is wanted: it feels no force and
/// drops every command.
#[derive(Clone, Copy, Debug, PartialEq, Eq, Structural)]
pub struct DummyDevice;

impl DummyDevice {
    /// No force at all: this controller has no force feedback.
    pub fn get_feedback(&self) -> (force: Option<i16>)
        ensures
            force is None,
    {
        None
    }

    /// Drops the axis value.
    pub fn set_wheel(&mut self, value: i32)
        ensures
            *final(self) == *old(self),
    {
    }

    /// Drops the horn state.
    pub fn set_horn(&mut self, honking: bool)
        ensures
            *final(self) == *old(self),
    {
    }

    /// Never has anything to write.
    pub fn apply(&mut self) -> (events: Vec<RawEvent>)
        ensures
            events@.len() == 0,
            *final(self) == *old(self),
    {
        Vec::new()
    }
}

/// A virtual controller of either kind.
#[derive(Clone, Copy, Debug, PartialEq, Eq, Structural)]
pub enum Device {
    /// The controller that drops everything.
    Dummy(DummyDevice),
    /// A uinput wheel.
    UInput(UInputDevice),
}

impl Device {
    /// The force that the wheel feels, if the controller has force feedback.
    pub open spec fn feedback(&self) -> Option<i16> {
        match *self {
            Device::Dummy(_) => None,
            Device::UInput(d) => Some(feedback_of(d.ff)),
        }
    }

    /// The controller with an axis value set.
    pub open spec fn with_wheel(&self, value: i32) -> Device {
        match *self {
            Device::Dummy(_) => *self,
            Device::UInput(d) => Device::UInput(UInputDevice { wheel_axis: Some(value), ..d }),
        }
    }

    /// The controller with a horn state set.
    pub open spec fn with_horn(&self, honking: bool) -> Device {
        match *self {
            Device::Dummy(_) => *self,
            Device::UInput(d) => Device::UInput(UInputDevice { horn_key: Some(honking), ..d }),
        }
    }

    /// The events that wait to be written.
    pub open spec fn pending(&self) -> Seq<RawEvent> {
        match *self {
            Device::Dummy(_) => Seq::<RawEvent>::empty(),
            Device::UInput(d) => batch(d.wheel_axis, d.horn_key),
        }
    }

    /// The controller with nothing waiting any more.
    pub open spec fn flushed(&self) -> Device {
        match *self {
            Device::Dummy(_) => *self,
            Device::UInput(d) => Device::UInput(
                UInputDevice { wheel_axis: None, horn_key: None, ..d },
            ),
        }
    }

    /// The force that the wheel feels, if the controller has force feedback:
    /// that of the effect while it plays, else 0.
    pub fn get_feedback(&self) -> (force: Option<i16>)
        ensures
            force == self.feedback(),
    {
        match self {
            Device::Dummy(d) => d.get_feedback(),
            Device::UInput(d) => Some(d.get_feedback()),
        }
    }

    /// Sets the axis value that the next [`Device::apply`] writes.
    pub fn set_wheel(&mut self, value: i32)
        ensures
            *final(self) == old(self).with_wheel(value),
    {
        match self {
            Device::Dummy(d) => d.set_wheel(value),
            Device::UInput(d) => d.set_wheel(value),
        }
    }

    /// Sets the horn state that the next [`Device::apply`] writes.
    pub fn set_horn(&mut self, honking: bool)
        ensures
            *final(self) == old(self).with_horn(honking),
    {
        match self {
            Device::Dummy(d) => d.set_horn(honking),
            Device::UInput(d) => d.set_horn(honking),
        }
    }

    /// Takes the pending changes and returns the events to write for them;
    /// none means that nothing is to be written.
    pub fn apply(&mut self) -> (events: Vec<RawEvent>)
        ensures
            events@ == old(self).pending(),
            *final(self) == old(self).flushed(),
    {
        match self {
            Device::Dummy(d) => {
                let events = d.apply();
                assert(events@ =~= Seq::<RawEvent>::empty());
                events
            },
            Device::UInput(d) => d.apply(),
        }
    }
}

/// The controller that a configuration stands for, or the reason for which
/// it stands for none.
pub open spec fn device_of(config: &config::Config) -> Result<Device, DeviceError> {
    if config.device == config::Device::UInput {
        match rejection(config) {
            Some(e) => Err(e),
            None => Ok(
                Device::UInput(
                    UInputDevice {
                        resolution: config.device_resolution,
                        wheel_axis: None,
                        horn_key: None,
                        ff: None,
                    },
                ),
            ),
        }
    } else {
        Ok(Device::Dummy(DummyDevice))
    }
}

/// The controller that `config` asks for. A uinput wheel is made only from a
/// configuration that it accepts; the ViGEm bus stands in as a controller
/// that drops everything.
pub fn create_device(config: &config::Config) -> (r: Result<Device, DeviceError>)
    ensures
        r == device_of(config),
{
    match config.device {
        config::Device::Null => Ok(Device::Dummy(DummyDevice)),
        config::Device::UInput => match UInputDevice::new(config) {
            Ok(d) => Ok(Device::UInput(d)),
            Err(e) => Err(e),
        },
        config::Device::VigemBus => Ok(Device::Dummy(DummyDevice)),
    }
}

} // verus!
