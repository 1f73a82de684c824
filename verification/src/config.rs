//! The settings: which backends to use, the tick rate, the wheel's physics,
//! the mapping of the pen and the identity of the virtual controller.

use crate::mapping::{identity, Mapping};
use crate::single::Single;
use vstd::prelude::*;

verus! {

/// Where pen samples come from.
#[derive(Clone, Copy, Debug, PartialEq, Eq, Structural)]
pub enum Source {
    /// No source: no sample ever arrives.
    Disabled,
    /// Datagrams over UDP.
    Net,
    /// Wacom Wintab. Stands in as a source that never yields a sample.
    Wintab,
    /// A Linux evdev tablet.
    Evdev,
}

/// Which virtual controller receives the wheel.
#[derive(Clone, Copy, Debug, PartialEq, Eq, Structural)]
pub enum Device {
    /// No controller: every command is dropped.
    Null,
    /// A Linux uinput controller with force feedback.
    UInput,
    /// A ViGEm bus controller. Stands in as a controller that drops every command.
    VigemBus,
}

impl Source {
    /// The name shown to a person choosing a source.
    pub fn label(&self) -> (r: &'static str)
        ensures
            r@ == match *self {
                Source::Disabled => "Disabled"@,
                Source::Net => "Network (over UDP)"@,
                Source::Wintab => "Wacom Wintab (Windows)"@,
                Source::Evdev => "Evdev (Linux)"@,
            },
    {
        match self {
            Source::Disabled => "Disabled",
            Source::Net => "Network (over UDP)",
            Source::Wintab => "Wacom Wintab (Windows)",
            Source::Evdev => "Evdev (Linux)",
        }
    }
}

impl Device {
    /// The name shown to a person choosing a controller.
    pub fn label(&self) -> (r: &'static str)
        ensures
            r@ == match *self {
                Device::Null => "Null"@,
                Device::UInput => "Linux uinput"@,
                Device::VigemBus => "ViGEm Bus"@,
            },
    {
        match self {
            Device::Null => "Null",
            Device::UInput => "Linux uinput",
            Device::VigemBus => "ViGEm Bus",
        }
    }
}

/// The settings.
#[derive(Clone, Debug)]
pub struct Config {
    /// How many ticks per second.
    pub update_frequency: u32,
    /// Angle, in degrees, that the wheel turns from lock to lock.
    pub range: Single,
    /// Distance from the centre within which a touch presses the horn.
    pub horn_radius: Single,
    /// Pressure up to which the pen counts as lifted.
    pub pressure_threshold: u32,
    /// Distance from the centre under which the pen turns the wheel less.
    pub base_radius: Single,
    /// Rotational inertia of the wheel, in kg m^2.
    pub inertia: Single,
    /// Rotational friction.
    pub friction: Single,
    /// Pull towards the centre.
    pub spring: Single,
    /// Largest feedback torque, in N m.
    pub max_torque: Single,
    /// How the pen's position becomes a position on the wheel.
    pub mapping: Mapping,
    /// Socket address on which a `Net` source listens.
    pub net_sock_addr: String,
    /// Half the span of the controller's absolute axis.
    pub device_resolution: u32,
    /// Name of the virtual controller.
    pub device_name: String,
    /// Vendor number of the virtual controller.
    pub device_vendor: u16,
    /// Product number of the virtual controller.
    pub device_product: u16,
    /// Version number of the virtual controller.
    pub device_version: u16,
    /// Name of the preferred tablet, if any.
    pub preferred_tablet: Option<String>,
    /// The pen source in use.
    pub source: Source,
    /// The virtual controller in use.
    pub device: Device,
}

/// The bits of 1800, the default range in degrees.
pub const DEFAULT_RANGE_BITS: u32 = 0x44e1_0000;

/// The bits of 0.3, the default horn radius.
pub const DEFAULT_HORN_RADIUS_BITS: u32 = 0x3e99_999a;

/// The bits of 0.6, the default base radius.
pub const DEFAULT_BASE_RADIUS_BITS: u32 = 0x3f19_999a;

/// The bits of 1, the default inertia.
pub const DEFAULT_INERTIA_BITS: u32 = 0x3f80_0000;

/// The bits of 25, the default friction.
pub const DEFAULT_FRICTION_BITS: u32 = 0x41c8_0000;

/// The bits of 0, the default spring.
pub const DEFAULT_SPRING_BITS: u32 = 0;

/// The bits of 300, the default largest torque.
pub const DEFAULT_MAX_TORQUE_BITS: u32 = 0x4396_0000;

/// The settings of a fresh installation.
pub open spec fn is_default(config: &Config) -> bool {
    &&& config.update_frequency == 125
    &&& config.range.bits == DEFAULT_RANGE_BITS
    &&& config.horn_radius.bits == DEFAULT_HORN_RADIUS_BITS
    &&& config.pressure_threshold == 10
    &&& config.base_radius.bits == DEFAULT_BASE_RADIUS_BITS
    &&& config.inertia.bits == DEFAULT_INERTIA_BITS
    &&& config.friction.bits == DEFAULT_FRICTION_BITS
    &&& config.spring.bits == DEFAULT_SPRING_BITS
    &&& config.max_torque.bits == DEFAULT_MAX_TORQUE_BITS
    &&& config.mapping == identity()
    &&& config.net_sock_addr@ == "127.0.0.1:16027"@
    &&& config.device_resolution == 32768
    &&& config.device_name@ == "G29 Driving Force Racing Wheel [PS3]"@
    &&& config.device_vendor == 0x46D
    &&& config.device_product == 0xC24F
    &&& config.device_version == 0x3
    &&& config.preferred_tablet is None
    &&& config.source == Source::Evdev
    &&& config.device == Device::UInput
}

impl Default for Config {
    fn default() -> (r: Config)
        ensures
            is_default(&r),
    {
        Config {
            update_frequency: 125,
            range: Single::from_bits(DEFAULT_RANGE_BITS),
            horn_radius: Single::from_bits(DEFAULT_HORN_RADIUS_BITS),
            pressure_threshold: 10,
            base_radius: Single::from_bits(DEFAULT_BASE_RADIUS_BITS),
            inertia: Single::from_bits(DEFAULT_INERTIA_BITS),
            friction: Single::from_bits(DEFAULT_FRICTION_BITS),
            spring: Single::from_bits(DEFAULT_SPRING_BITS),
            max_torque: Single::from_bits(DEFAULT_MAX_TORQUE_BITS),
            mapping: Mapping::default(),
            net_sock_addr: "127.0.0.1:16027".to_owned(),
            device_resolution: 32768,
            device_name: "G29 Driving Force Racing Wheel [PS3]".to_owned(),
            device_vendor: 0x46D,
            device_product: 0xC24F,
            device_version: 0x3,
            preferred_tablet: None,
            source: Source::Evdev,
            device: Device::UInput,
        }
    }
}

} // verus!
