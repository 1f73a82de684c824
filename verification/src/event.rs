//! Kernel input event records, without their time stamp, and the few that
//! the core builds or tells apart.

use input_linux::sys::{input_event, timeval};
use input_linux::{
    AbsoluteAxis, AbsoluteEvent, EventRef, EventTime, InputEvent, Key, KeyEvent, KeyState,
    SynchronizeEvent, SynchronizeKind,
};
use vstd::prelude::*;

verus! {

/// Event type of a synchronisation event.
pub const EV_SYN: u16 = 0x00;

/// Event type of a key or button event.
pub const EV_KEY: u16 = 0x01;

/// Event type of an absolute axis event.
pub const EV_ABS: u16 = 0x03;

/// Event type of a force-feedback event.
pub const EV_FF: u16 = 0x15;

/// Event type of a request that the kernel sends to a uinput device.
pub const EV_UINPUT: u16 = 0x0101;

/// Synchronisation code that closes a report.
pub const SYN_REPORT: u16 = 0;

/// Code of the horizontal absolute axis.
pub const ABS_X: u16 = 0x00;

/// Code of the vertical absolute axis.
pub const ABS_Y: u16 = 0x01;

/// Code of the pressure axis.
pub const ABS_PRESSURE: u16 = 0x18;

/// Number of absolute axis codes.
pub const ABS_CNT: u16 = 0x40;

/// Code of the right thumb button, which the wheel uses as its horn.
pub const BTN_THUMBR: u16 = 0x13e;

/// Code of the request to upload a force-feedback effect.
pub const UI_FF_UPLOAD: u16 = 1;

/// Code of the request to erase a force-feedback effect.
pub const UI_FF_ERASE: u16 = 2;

/// Effect type of a constant force.
pub const FF_CONSTANT: u16 = 0x52;

/// Code of a force-feedback gain event.
pub const FF_GAIN: u16 = 0x60;

/// One kernel input event: its type, its code and its value.
#[derive(Clone, Copy, Debug, PartialEq, Eq, Structural)]
pub struct RawEvent {
    /// The event type.
    pub kind: u16,
    /// The code, whose meaning depends on the type.
    pub code: u16,
    /// The value, whose meaning depends on type and code.
    pub value: i32,
}

/// The axes of a tablet that the core reads.
#[derive(Clone, Copy, Debug, PartialEq, Eq, Structural)]
pub enum TabletAxis {
    /// Horizontal position.
    X,
    /// Vertical position.
    Y,
    /// Pen pressure.
    Pressure,
}

/// The tablet axis that an event reports, if it is a well-formed absolute
/// axis event on one of the three axes that the core reads.
pub open spec fn tablet_axis_of(ev: RawEvent) -> Option<TabletAxis> {
    if ev.kind != EV_ABS {
        None
    } else if ev.code == ABS_X {
        Some(TabletAxis::X)
    } else if ev.code == ABS_Y {
        Some(TabletAxis::Y)
    } else if ev.code == ABS_PRESSURE {
        Some(TabletAxis::Pressure)
    } else {
        None
    }
}

/// Builds an absolute event on the X axis with `input_linux::AbsoluteEvent::new`
/// and reads back the record that `InputEvent::into_raw` gives. Trusted: the
/// record has the absolute event type, the X axis code and the given value.
#[verifier::external_body]
pub(crate) fn wheel_axis_event(value: i32) -> (ev: RawEvent)
    ensures
        ev == (RawEvent { kind: EV_ABS, code: ABS_X, value }),
{
    let time = EventTime::new(0, 0);
    let raw = InputEvent::from(AbsoluteEvent::new(time, AbsoluteAxis::X, value)).into_raw();
    RawEvent { kind: raw.type_, code: raw.code, value: raw.value }
}

/// Builds a key event on the right thumb button with
/// `input_linux::KeyEvent::new` and `KeyState::pressed`, and reads back the
/// record that `InputEvent::into_raw` gives. Trusted: the record has the key
/// event type, the button's code, and the value 1 when pressed and 0 when not.
#[verifier::external_body]
pub(crate) fn horn_key_event(pressed: bool) -> (ev: RawEvent)
    ensures
        ev == (RawEvent { kind: EV_KEY, code: BTN_THUMBR, value: if pressed { 1i32 } else { 0i32 } }),
{
    let time = EventTime::new(0, 0);
    let key = KeyEvent::new(time, Key::ButtonThumbr, KeyState::pressed(pressed));
    let raw = InputEvent::from(key).into_raw();
    RawEvent { kind: raw.type_, code: raw.code, value: raw.value }
}

/// Builds a report event with `input_linux::SynchronizeEvent::new` and reads
/// back the record that `InputEvent::into_raw` gives. Trusted: the record has
/// the synchronisation event type, the report code and the value 0.
#[verifier::external_body]
pub(crate) fn report_event() -> (ev: RawEvent)
    ensures
        ev == (RawEvent { kind: EV_SYN, code: SYN_REPORT, value: 0 }),
{
    let time = EventTime::new(0, 0);
    let sync = SynchronizeEvent::new(time, SynchronizeKind::Report, 0);
    let raw = InputEvent::from(sync).into_raw();
    RawEvent { kind: raw.type_, code: raw.code, value: raw.value }
}

/// Classifies a record with `input_linux::InputEvent::with_raw` and
/// `EventRef::new`. Trusted: the result is an axis exactly when the record has
/// the absolute event type and the code of the X, Y or pressure axis; a
/// record of an unknown type, or with a code past the last axis, is no axis.
#[verifier::external_body]
pub(crate) fn tablet_axis(ev: RawEvent) -> (axis: Option<TabletAxis>)
    ensures
        axis == tablet_axis_of(ev),
{
    let time = timeval { tv_sec: 0, tv_usec: 0 };
    let raw = input_event { time, type_: ev.kind, code: ev.code, value: ev.value };
    let Ok(event) = InputEvent::with_raw(raw) else { return None };
    match EventRef::new(&event) {
        Ok(EventRef::Absolute(abs)) => match abs.axis {
            AbsoluteAxis::X => Some(TabletAxis::X),
            AbsoluteAxis::Y => Some(TabletAxis::Y),
            AbsoluteAxis::Pressure => Some(TabletAxis::Pressure),
            _ => None,
        },
        _ => None,
    }
}

} // verus!
