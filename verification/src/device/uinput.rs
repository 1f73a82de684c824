//! The model of a uinput steering wheel: what it advertises, the axis and
//! button changes waiting to be written, and the force-feedback effect that
//! the kernel has uploaded.

use crate::config::Config;
use crate::device::DeviceError;
use crate::event::{
    horn_key_event, report_event, wheel_axis_event, RawEvent, ABS_X, BTN_THUMBR, EV_ABS, EV_FF,
    EV_KEY, EV_SYN, EV_UINPUT, FF_CONSTANT, SYN_REPORT, UI_FF_ERASE, UI_FF_UPLOAD,
};
use vstd::prelude::*;
use vstd::utf8::encode_utf8;

verus! {

/// The largest resolution that the axis of a uinput controller can carry.
pub const MAX_RESOLUTION: u32 = 65535;

/// The number of bytes that a controller's name must stay under.
pub const NAME_LIMIT: usize = 80;

/// How many force-feedback effects the controller offers to hold at once.
pub const EFFECT_SLOTS: u32 = 10;

/// Bus type of a USB device, which the controller presents itself as.
pub const BUS_USB: u16 = 0x03;

/// Code of the force-feedback event that reports whether an effect plays.
pub const FF_PLAY: u16 = 0;

/// The constant-force effect that the wheel follows.
#[derive(Clone, Copy, Debug, PartialEq, Eq, Structural)]
pub struct FFState {
    /// Identifier of the upload request that set this effect.
    pub request_id: u32,
    /// Whether the effect is currently putting out force.
    pub playing: bool,
    /// Signed magnitude of the force.
    pub force: i16,
}

/// The buttons that the controller advertises.
#[derive(Clone, Copy, Debug, PartialEq, Eq, Structural)]
pub enum Button {
    /// Right thumb button: the horn, the only button ever pressed.
    ThumbRight,
    /// Left thumb button, advertised only.
    ThumbLeft,
    /// North face button, advertised only.
    North,
    /// East face button, advertised only.
    East,
    /// South face button, advertised only.
    South,
    /// West face button, advertised only.
    West,
}

/// The kinds of force-feedback effect that the controller advertises.
#[derive(Clone, Copy, Debug, PartialEq, Eq, Structural)]
pub enum EffectKind {
    /// Constant force: the only kind that the wheel acts on.
    Constant,
    /// Advertised only.
    Autocenter,
    /// Advertised only.
    Periodic,
    /// Advertised only.
    Rumble,
    /// Advertised only.
    Damper,
    /// Advertised only.
    Inertia,
    /// Advertised only.
    Ramp,
    /// Advertised only.
    Sine,
    /// Advertised only.
    Square,
    /// Advertised only.
    Triangle,
    /// Advertised only.
    SawUp,
    /// Advertised only.
    SawDown,
}

/// The setup of the wheel's absolute axis.
#[derive(Clone, Copy, Debug, PartialEq, Eq, Structural)]
pub struct AxisSetup {
    /// Initial value.
    pub value: i32,
    /// Smallest value.
    pub minimum: i32,
    /// Largest value.
    pub maximum: i32,
    /// Noise filter.
    pub fuzz: i32,
    /// Dead zone.
    pub flat: i32,
    /// Resolution that the axis reports.
    pub resolution: i32,
}

/// Everything that a controller announces before it is created.
#[derive(Clone, Debug)]
pub struct Blueprint {
    /// Setup of the X axis, the wheel.
    pub axis: AxisSetup,
    /// The buttons, the horn first.
    pub buttons: Vec<Button>,
    /// The effect kinds, constant force first.
    pub effects: Vec<EffectKind>,
    /// How many effects may be uploaded at once.
    pub effect_slots: u32,
    /// The bus that the controller claims to sit on.
    pub bustype: u16,
    /// Vendor number.
    pub vendor: u16,
    /// Product number.
    pub product: u16,
    /// Version number.
    pub version: u16,
}

/// The reason for which a configuration cannot become a uinput controller,
/// if there is one. The resolution is looked at first, then the name.
pub open spec fn rejection(config: &Config) -> Option<DeviceError> {
    if config.device_resolution > MAX_RESOLUTION {
        Some(DeviceError::ResolutionTooHigh)
    } else if config.device_name@.len() == 0 {
        Some(DeviceError::EmptyName)
    } else if encode_utf8(config.device_name@).len() >= NAME_LIMIT {
        Some(DeviceError::NameTooLong)
    } else {
        None
    }
}

/// The axis of a wheel with the given resolution: symmetric about zero, at rest.
pub open spec fn axis_of(resolution: u32) -> AxisSetup
    recommends
        resolution <= MAX_RESOLUTION,
{
    AxisSetup {
        value: 0,
        minimum: -(resolution as int) as i32,
        maximum: resolution as i32,
        fuzz: 0,
        flat: 0,
        resolution: resolution as i32,
    }
}

/// The buttons of every controller, in the order in which they are announced.
pub open spec fn advertised_buttons() -> Seq<Button> {
    seq![
        Button::ThumbRight,
        Button::ThumbLeft,
        Button::North,
        Button::East,
        Button::South,
        Button::West,
    ]
}

/// The effect kinds of every controller, in the order in which they are announced.
pub open spec fn advertised_effects() -> Seq<EffectKind> {
    seq![
        EffectKind::Constant,
        EffectKind::Autocenter,
        EffectKind::Periodic,
        EffectKind::Rumble,
        EffectKind::Damper,
        EffectKind::Inertia,
        EffectKind::Ramp,
        EffectKind::Sine,
        EffectKind::Square,
        EffectKind::Triangle,
        EffectKind::SawUp,
        EffectKind::SawDown,
    ]
}

/// Holds a configuration against the limits of a uinput controller.
pub fn validate(config: &Config) -> (r: Result<(), DeviceError>)
    ensures
        r is Ok <==> rejection(config) is None,
        r is Err ==> rejection(config) == Some(r->Err_0),
{
    if config.device_resolution > MAX_RESOLUTION {
        return Err(DeviceError::ResolutionTooHigh);
    }
    let name: &str = config.device_name.as_str();
    if name.is_empty() {
        return Err(DeviceError::EmptyName);
    }
    if name.as_bytes().len() >= NAME_LIMIT {
        return Err(DeviceError::NameTooLong);
    }
    Ok(())
}

/// What a controller made from `config` announces: one axis that spans the
/// resolution on both sides of zero, six buttons, twelve effect kinds, and
/// the configured identity on the USB bus. Fails exactly when the
/// configuration is rejected.
pub fn advertise(config: &Config) -> (r: Result<Blueprint, DeviceError>)
    ensures
        r is Ok <==> rejection(config) is None,
        r is Err ==> rejection(config) == Some(r->Err_0),
        r is Ok ==> {
            &&& r->Ok_0.axis == axis_of(config.device_resolution)
            &&& r->Ok_0.buttons@ == advertised_buttons()
            &&& r->Ok_0.effects@ == advertised_effects()
            &&& r->Ok_0.effect_slots == EFFECT_SLOTS
            &&& r->Ok_0.bustype == BUS_USB
            &&& r->Ok_0.vendor == config.device_vendor
            &&& r->Ok_0.product == config.device_product
            &&& r->Ok_0.version == config.device_version
        },
{
    match validate(config) {
        Err(e) => Err(e),
        Ok(()) => {
            let span: i32 = config.device_resolution as i32;
            let axis = AxisSetup {
                value: 0,
                minimum: -span,
                maximum: span,
                fuzz: 0,
                flat: 0,
                resolution: span,
            };
            let buttons: Vec<Button> = vec![
                Button::ThumbRight,
                Button::ThumbLeft,
                Button::North,
                Button::East,
                Button::South,
                Button::West,
            ];
            let effects: Vec<EffectKind> = vec![
                EffectKind::Constant,
                EffectKind::Autocenter,
                EffectKind::Periodic,
                EffectKind::Rumble,
                EffectKind::Damper,
                EffectKind::Inertia,
                EffectKind::Ramp,
                EffectKind::Sine,
                EffectKind::Square,
                EffectKind::Triangle,
                EffectKind::SawUp,
                EffectKind::SawDown,
            ];
            assert(buttons@ =~= advertised_buttons());
            assert(effects@ =~= advertised_effects());
            Ok(
                Blueprint {
                    axis,
                    buttons,
                    effects,
                    effect_slots: EFFECT_SLOTS,
                    bustype: BUS_USB,
                    vendor: config.device_vendor,
                    product: config.device_product,
                    version: config.device_version,
                },
            )
        },
    }
}

/// What the kernel asks of the controller through one queued event.
#[derive(Clone, Copy, Debug, PartialEq, Eq, Structural)]
pub enum Request {
    /// An effect is being uploaded: open the upload with this request id,
    /// hand the effect to [`UInputDevice::handle_ff_upload`], close the upload.
    Upload(u32),
    /// An effect is being erased: open the erasure with this request id, hand
    /// the effect's id to [`UInputDevice::handle_ff_erase`], close the erasure.
    Erase(u32),
    /// A force-feedback event: taken in, nothing to answer.
    Status,
    /// Not part of the protocol: left alone, worth a line in the log.
    Unrecognised,
}

/// The request id that an event value carries: the same 32 bits, unsigned.
pub open spec fn request_id_of(value: i32) -> u32 {
    if value >= 0 {
        value as u32
    } else {
        (value + 0x1_0000_0000) as u32
    }
}

/// What an event asks for.
pub open spec fn request_of(ev: RawEvent) -> Request {
    if ev.kind == EV_UINPUT {
        if ev.code == UI_FF_UPLOAD {
            Request::Upload(request_id_of(ev.value))
        } else if ev.code == UI_FF_ERASE {
            Request::Erase(request_id_of(ev.value))
        } else {
            Request::Unrecognised
        }
    } else if ev.kind == EV_FF {
        Request::Status
    } else {
        Request::Unrecognised
    }
}

/// The level of a constant force, as the first 16 bits of its payload hold
/// it: the same bits, signed.
pub open spec fn level_of(payload: u16) -> i16 {
    if payload < 0x8000 {
        payload as i16
    } else {
        (payload - 0x1_0000) as i16
    }
}

/// The current effect after an upload. Only a constant force is taken in,
/// and only then is the payload read as a level: it replaces the request id
/// and the force of what was there and keeps whether that was playing. Any
/// other kind of effect changes nothing.
pub open spec fn uploaded(
    current: Option<FFState>,
    request_id: u32,
    kind: u16,
    payload: u16,
) -> Option<FFState> {
    if kind == FF_CONSTANT {
        Some(
            FFState {
                request_id,
                playing: match current {
                    Some(s) => s.playing,
                    None => false,
                },
                force: level_of(payload),
            },
        )
    } else {
        current
    }
}

/// The current effect after the erasure of the effect `effect_id`: gone if
/// it carried that id, untouched otherwise.
pub open spec fn erased(current: Option<FFState>, effect_id: u32) -> Option<FFState> {
    match current {
        Some(s) => if s.request_id == effect_id {
            None
        } else {
            current
        },
        None => None,
    }
}

/// The current effect after an event: a force-feedback event with the play
/// code starts or stops the current effect, and nothing else changes anything.
pub open spec fn after_event(current: Option<FFState>, ev: RawEvent) -> Option<FFState> {
    match current {
        Some(s) => if ev.kind == EV_FF && ev.code == FF_PLAY {
            Some(FFState { request_id: s.request_id, playing: ev.value != 0, force: s.force })
        } else {
            current
        },
        None => None,
    }
}

/// The force that the wheel feels: that of the current effect while it plays, else 0.
pub open spec fn feedback_of(current: Option<FFState>) -> i16 {
    match current {
        Some(s) => if s.playing {
            s.force
        } else {
            0
        },
        None => 0,
    }
}

/// The events that carry the pending changes: the axis if it was set, the
/// horn if it was set, and one closing report if there was either.
pub open spec fn batch(axis: Option<i32>, horn: Option<bool>) -> Seq<RawEvent> {
    let moved = match axis {
        Some(value) => seq![RawEvent { kind: EV_ABS, code: ABS_X, value }],
        None => Seq::<RawEvent>::empty(),
    };
    let pressed = match horn {
        Some(on) => seq![RawEvent { kind: EV_KEY, code: BTN_THUMBR, value: if on { 1i32 } else { 0i32 } }],
        None => Seq::<RawEvent>::empty(),
    };
    let changes = moved + pressed;
    if changes.len() == 0 {
        changes
    } else {
        changes.push(RawEvent { kind: EV_SYN, code: SYN_REPORT, value: 0 })
    }
}

/// A uinput wheel: its resolution, the changes that wait for the next
/// [`UInputDevice::apply`], and the constant-force effect it follows, at most
/// one at a time.
#[derive(Clone, Copy, Debug, PartialEq, Eq, Structural)]
pub struct UInputDevice {
    /// Half the span of the axis.
    pub resolution: u32,
    /// The axis value that waits to be written, if any.
    pub wheel_axis: Option<i32>,
    /// The horn state that waits to be written, if any.
    pub horn_key: Option<bool>,
    /// The effect that the wheel follows, if any.
    pub ff: Option<FFState>,
}

impl UInputDevice {
    /// A wheel as `config` describes it, with nothing pending and no effect.
    /// Fails exactly when the configuration is rejected.
    pub fn new(config: &Config) -> (r: Result<UInputDevice, DeviceError>)
        ensures
            r == match rejection(config) {
                Some(e) => Err::<UInputDevice, DeviceError>(e),
                None => Ok(
                    UInputDevice {
                        resolution: config.device_resolution,
                        wheel_axis: None,
                        horn_key: None,
                        ff: None,
                    },
                ),
            },
    {
        match validate(config) {
            Err(e) => Err(e),
            Ok(()) => Ok(
                UInputDevice {
                    resolution: config.device_resolution,
                    wheel_axis: None,
                    horn_key: None,
                    ff: None,
                },
            ),
        }
    }

    /// Takes in the effect of an upload that was opened with `request_id`.
    /// `kind` is the effect's type and `payload` the first 16 bits of what
    /// the effect carries. They are read as the level of a constant force
    /// only where `kind` says that the effect is one.
    pub fn handle_ff_upload(&mut self, request_id: u32, kind: u16, payload: u16)
        ensures
            *final(self) == (UInputDevice {
                ff: uploaded(old(self).ff, request_id, kind, payload),
                ..*old(self)
            }),
    {
        if kind == FF_CONSTANT {
            let playing: bool = match self.ff {
                Some(s) => s.playing,
                None => false,
            };
            let force: i16 = if payload < 0x8000 {
                payload as i16
            } else {
                ((payload as i32) - 0x1_0000) as i16
            };
            self.ff = Some(FFState { request_id, playing, force });
        }
    }

    /// Takes in the erasure of the effect `effect_id`: the current effect is
    /// dropped only if it is that effect.
    pub fn handle_ff_erase(&mut self, effect_id: u32)
        ensures
            *final(self) == (UInputDevice { ff: erased(old(self).ff, effect_id), ..*old(self) }),
    {
        match self.ff {
            Some(s) => {
                if s.request_id == effect_id {
                    self.ff = None;
                }
            },
            None => {},
        }
    }

    /// Takes in one event from the controller's queue and says what it asks
    /// for. Uploads and erasures change nothing yet.
    pub fn handle_event(&mut self, ev: RawEvent) -> (r: Request)
        ensures
            r == request_of(ev),
            *final(self) == (UInputDevice { ff: after_event(old(self).ff, ev), ..*old(self) }),
    {
        if ev.kind == EV_UINPUT {
            let id: u32 = if ev.value >= 0 {
                ev.value as u32
            } else {
                ((ev.value as i64) + 0x1_0000_0000i64) as u32
            };
            if ev.code == UI_FF_UPLOAD {
                Request::Upload(id)
            } else if ev.code == UI_FF_ERASE {
                Request::Erase(id)
            } else {
                Request::Unrecognised
            }
        } else if ev.kind == EV_FF {
            match self.ff {
                Some(s) => {
                    if ev.code == FF_PLAY {
                        self.ff = Some(
                            FFState {
                                request_id: s.request_id,
                                playing: ev.value != 0,
                                force: s.force,
                            },
                        );
                    }
                },
                None => {},
            }
            Request::Status
        } else {
            Request::Unrecognised
        }
    }

    /// The force of the current effect while it plays, else 0. The wheel
    /// feels it as this value over the largest 16-bit value.
    pub fn get_feedback(&self) -> (force: i16)
        ensures
            force == feedback_of(self.ff),
    {
        match self.ff {
            Some(s) => if s.playing {
                s.force
            } else {
                0
            },
            None => 0,
        }
    }

    /// Sets the axis value that the next [`UInputDevice::apply`] writes.
    pub fn set_wheel(&mut self, value: i32)
        ensures
            *final(self) == (UInputDevice { wheel_axis: Some(value), ..*old(self) }),
    {
        self.wheel_axis = Some(value);
    }

    /// Sets the horn state that the next [`UInputDevice::apply`] writes.
    pub fn set_horn(&mut self, honking: bool)
        ensures
            *final(self) == (UInputDevice { horn_key: Some(honking), ..*old(self) }),
    {
        self.horn_key = Some(honking);
    }

    /// Takes the pending changes and returns the events to write for them.
    /// With nothing pending there is nothing to write. What was taken is not
    /// sent again until it is set again.
    pub fn apply(&mut self) -> (events: Vec<RawEvent>)
        ensures
            events@ == batch(old(self).wheel_axis, old(self).horn_key),
            *final(self) == (UInputDevice { wheel_axis: None, horn_key: None, ..*old(self) }),
    {
        let mut events: Vec<RawEvent> = Vec::new();
        match self.wheel_axis {
            Some(value) => {
                events.push(wheel_axis_event(value));
            },
            None => {},
        }
        match self.horn_key {
            Some(on) => {
                events.push(horn_key_event(on));
            },
            None => {},
        }
        self.wheel_axis = None;
        self.horn_key = None;
        if events.len() > 0 {
            events.push(report_event());
        }
        assert(events@ =~= batch(old(self).wheel_axis, old(self).horn_key));
        events
    }
}

/// Erasing an effect other than the current one leaves the current one as
/// it is.
pub proof fn lemma_unrelated_erase_keeps_effect(effect: FFState, effect_id: u32)
    requires
        effect.request_id != effect_id,
    ensures
        erased(Some(effect), effect_id) == Some(effect),
{
}

/// The last upload wins: after two uploads of constant forces the current
/// effect carries the id and the force of the second.
pub proof fn lemma_last_upload_wins(
    current: Option<FFState>,
    first_id: u32,
    first_payload: u16,
    second_id: u32,
    second_payload: u16,
)
    ensures
        uploaded(
            uploaded(current, first_id, FF_CONSTANT, first_payload),
            second_id,
            FF_CONSTANT,
            second_payload,
        ) == uploaded(current, second_id, FF_CONSTANT, second_payload),
{
}

/// An event that is not part of the protocol changes nothing, and neither
/// does the request to upload or to erase before its effect is handed over.
pub proof fn lemma_only_play_events_change_effect(current: Option<FFState>, ev: RawEvent)
    requires
        request_of(ev) != Request::Status,
    ensures
        after_event(current, ev) == current,
{
}

/// An effect that does not play exerts no force, and one that plays exerts
/// its own.
pub proof fn lemma_force_only_while_playing(effect: FFState)
    ensures
        !effect.playing ==> feedback_of(Some(effect)) == 0,
        effect.playing ==> feedback_of(Some(effect)) == effect.force,
        feedback_of(None) == 0,
{
}

/// A batch is empty exactly when nothing is pending; otherwise it ends with
/// the one report it holds, after at most one axis and one key event.
pub proof fn lemma_batch_shape(axis: Option<i32>, horn: Option<bool>)
    ensures
        batch(axis, horn).len() == 0 <==> axis is None && horn is None,
        batch(axis, horn).len() == (if axis is Some { 1int } else { 0int }) + (if horn is Some {
            1int
        } else {
            0int
        }) + (if axis is Some || horn is Some { 1int } else { 0int }),
        batch(axis, horn).len() > 0 ==> batch(axis, horn).last() == (RawEvent {
            kind: EV_SYN,
            code: SYN_REPORT,
            value: 0,
        }),
        batch(None, None) =~= Seq::<RawEvent>::empty(),
{
}

} // verus!
