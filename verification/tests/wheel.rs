use pen_steer::config::Config;
use pen_steer::device::uinput::UInputDevice;
use pen_steer::device::{Device, DummyDevice};
use pen_steer::event::FF_CONSTANT;
use pen_steer::event::{RawEvent, EV_FF};
use pen_steer::pen::Pen;
use pen_steer::single::{clamp_symmetric, Single};
use pen_steer::wheel::{wrap, Computed, Motion, Position, Wheel, Wrap, PI_BITS};
use std::f32::consts::PI;

fn s(v: f32) -> Single {
    Single::from_bits(v.to_bits())
}

fn f(v: Single) -> f32 {
    f32::from_bits(v.to_bits())
}

fn pen_at(x: f32, y: f32, pressure: u32) -> Option<Pen> {
    Some(Pen { x: s(x), y: s(y), pressure, buttons: 0 })
}

fn uinput() -> Option<Device> {
    Some(Device::UInput(UInputDevice::new(&Config::default()).unwrap()))
}

fn horn_of(device: &Option<Device>) -> Option<bool> {
    match device {
        Some(Device::UInput(d)) => d.horn_key,
        _ => None,
    }
}

fn axis_of(device: &Option<Device>) -> Option<i32> {
    match device {
        Some(Device::UInput(d)) => d.wheel_axis,
        _ => None,
    }
}

fn half_range(config: &Config) -> f32 {
    (f(config.range) * 0.5).to_radians()
}

fn angle_delta(a: f32, b: f32) -> f32 {
    let mut delta = b - a;
    loop {
        match wrap(s(delta)) {
            Wrap::Up => delta += 2.0 * PI,
            Wrap::Down => delta -= 2.0 * PI,
            Wrap::Stay => return delta,
        }
    }
}

fn axis_for(angle: Single, half_range: f32, device: &Option<Device>) -> i32 {
    let resolution = match device {
        Some(Device::UInput(d)) => d.resolution as f32,
        _ => 0.0,
    };
    ((f(angle) / half_range) * resolution).round_ties_even() as i32
}

/// One tick of the wheel, with the arithmetic between the two halves that
/// the library decides on.
fn tick(
    wheel: &mut Wheel,
    device: &mut Option<Device>,
    config: &Config,
    pen: Option<Pen>,
    dt: f32,
) -> Motion {
    let (x, y) = pen.map(|p| (f(p.x), f(p.y))).unwrap_or((0.0, 0.0));
    let centre_dist = (x * x + y * y).sqrt();
    let motion = wheel.update(device, config, pen, s(centre_dist));

    let half_range = half_range(config);
    let mut computed = Computed {
        half_range: s(half_range),
        feedback_torque: s(0.0),
        velocity: s(0.0),
        angle: s(0.0),
        axis: 0,
    };
    if motion.free_spin {
        let feedback = device
            .as_ref()
            .and_then(|d| d.get_feedback())
            .map(|force| f32::from(force) / f32::from(i16::MAX))
            .unwrap_or(0.0);
        let feedback_torque = feedback * f(config.max_torque);
        let friction_torque = f(config.friction) * f(wheel.velocity);
        let spring_torque = f(config.spring) * f(wheel.angle);
        let net_force = feedback_torque - friction_torque - spring_torque;
        let angular_acceleration = net_force / f(config.inertia);
        let velocity = s(f(wheel.velocity) + angular_acceleration * dt).still();
        let angle = s(f(wheel.angle) + f(velocity) * dt);
        computed.feedback_torque = s(feedback_torque);
        computed.velocity = velocity;
        computed.angle = angle;
        computed.axis = axis_for(clamp_symmetric(s(half_range), angle), half_range, device);
    } else if motion.drag {
        let prev_theta = f(wheel.prev_pos.x).atan2(f(wheel.prev_pos.y));
        let theta = x.atan2(y);
        let delta_t = angle_delta(prev_theta, theta);
        let factor = f(s(centre_dist).min(config.base_radius)) / f(config.base_radius);
        let prev_angle = clamp_symmetric(s(half_range), wheel.angle);
        let new_angle = s(f(prev_angle) + delta_t * factor);
        let angle = clamp_symmetric(s(half_range), new_angle);
        computed.angle = new_angle;
        computed.velocity = s((f(angle) - f(prev_angle)) / dt);
        computed.axis = axis_for(angle, half_range, device);
    }
    wheel.advance(device, motion, computed, pen);
    motion
}

#[test]
fn fresh_wheel_rests_at_the_centre() {
    let wheel = Wheel::default();
    assert_eq!(wheel.angle, s(0.0));
    assert_eq!(wheel.velocity, s(0.0));
    assert_eq!(wheel.feedback_torque, s(0.0));
    assert_eq!(wheel.prev_angle, s(0.0));
    assert_eq!(wheel.prev_pos, Position { x: s(0.0), y: s(0.0) });
    assert!(!wheel.honking);
    assert!(!wheel.dragging);
}

#[test]
fn touching_the_centre_honks_and_leaves_the_angle() {
    // Pen at the centre, pressed harder than the threshold of 10, with a
    // horn radius of 0.3.
    let config = Config::default();
    let mut device = uinput();
    let mut wheel = Wheel::default();
    wheel.angle = s(0.75);
    let motion = tick(&mut wheel, &mut device, &config, pen_at(0.0, 0.0, 11), 0.008);
    assert!(wheel.honking);
    assert!(!wheel.dragging);
    assert_eq!(motion, Motion { free_spin: true, drag: false, latch: false });
    assert_eq!(horn_of(&device), Some(true));
    assert_eq!(wheel.angle, s(0.75));
    assert_eq!(wheel.velocity, s(0.0));
}

#[test]
fn touch_at_the_horn_radius_honks() {
    let config = Config::default();
    let mut device = None;
    let mut wheel = Wheel::default();
    wheel.update(&mut device, &config, pen_at(0.3, 0.0, 100), s(0.3));
    assert!(wheel.honking);
    let mut other = Wheel::default();
    other.update(&mut device, &config, pen_at(0.3, 0.0, 100), s(0.30000004));
    assert!(!other.honking);
    assert!(other.dragging);
}

#[test]
fn distance_that_is_no_number_does_not_honk() {
    let config = Config::default();
    let mut device = None;
    let mut wheel = Wheel::default();
    wheel.update(&mut device, &config, pen_at(0.0, 0.0, 100), s(f32::NAN));
    assert!(!wheel.honking);
    assert!(wheel.dragging);
}

#[test]
fn horn_holds_while_the_pen_moves() {
    let config = Config::default();
    let mut device = uinput();
    let mut wheel = Wheel::default();
    tick(&mut wheel, &mut device, &config, pen_at(0.0, 0.1, 500), 0.008);
    device.as_mut().unwrap().apply();
    for (x, y) in [(0.9, 0.0), (0.0, 0.0), (-0.7, 0.7), (0.0, -1.0)] {
        let motion = tick(&mut wheel, &mut device, &config, pen_at(x, y, 500), 0.008);
        assert!(wheel.honking);
        assert!(!wheel.dragging);
        assert_eq!(motion, Motion { free_spin: true, drag: false, latch: false });
        assert_eq!(horn_of(&device), None);
        assert_eq!(wheel.angle, s(0.0));
    }
}

#[test]
fn lifting_the_pen_releases_the_horn() {
    let config = Config::default();
    let mut device = uinput();
    let mut wheel = Wheel::default();
    tick(&mut wheel, &mut device, &config, pen_at(0.0, 0.0, 500), 0.008);
    device.as_mut().unwrap().apply();
    let motion = tick(&mut wheel, &mut device, &config, pen_at(0.0, 0.0, 10), 0.008);
    assert!(!wheel.honking);
    assert!(!wheel.dragging);
    assert_eq!(motion, Motion { free_spin: true, drag: false, latch: false });
    assert_eq!(horn_of(&device), Some(false));
}

#[test]
fn pressure_at_the_threshold_counts_as_lifted() {
    let config = Config::default();
    let mut device = None;
    let mut wheel = Wheel::default();
    tick(&mut wheel, &mut device, &config, pen_at(0.8, 0.0, 10), 0.008);
    assert_eq!(wheel, Wheel::default());
    tick(&mut wheel, &mut device, &config, pen_at(0.8, 0.0, 11), 0.008);
    assert!(wheel.dragging);
}

#[test]
fn no_sample_counts_as_lifted() {
    let config = Config::default();
    let mut device = None;
    let mut wheel = Wheel::default();
    wheel.dragging = true;
    let motion = tick(&mut wheel, &mut device, &config, None, 0.008);
    assert_eq!(wheel, Wheel::default());
    assert_eq!(motion, Motion { free_spin: false, drag: false, latch: false });
}

#[test]
fn drag_starts_by_keeping_the_position() {
    let config = Config::default();
    let mut device = uinput();
    let mut wheel = Wheel::default();
    let first = tick(&mut wheel, &mut device, &config, pen_at(0.0, 0.8, 100), 0.008);
    assert!(wheel.dragging);
    assert_eq!(first, Motion { free_spin: true, drag: false, latch: true });
    assert_eq!(wheel.prev_pos, Position { x: s(0.0), y: s(0.8) });
    assert_eq!(wheel.angle, s(0.0));
    let second = tick(&mut wheel, &mut device, &config, pen_at(0.8, 0.0, 100), 0.008);
    assert_eq!(second, Motion { free_spin: false, drag: true, latch: true });
    assert_eq!(wheel.prev_pos, Position { x: s(0.8), y: s(0.0) });
    assert_eq!(horn_of(&device), None);
}

#[test]
fn quarter_turn_of_the_pen_turns_the_wheel_a_quarter() {
    let config = Config::default();
    let mut device = uinput();
    let mut wheel = Wheel::default();
    let dt = 0.008;
    tick(&mut wheel, &mut device, &config, pen_at(0.0, 0.8, 100), dt);
    tick(&mut wheel, &mut device, &config, pen_at(0.8, 0.0, 100), dt);
    // From twelve o'clock to three o'clock, beyond the base radius.
    let expected = (0.8f32).atan2(0.0) - (0.0f32).atan2(0.8);
    assert_eq!(f(wheel.angle), expected);
    assert_eq!(f(wheel.prev_angle), 0.0);
    assert_eq!(f(wheel.velocity), (expected - 0.0) / dt);
    let axis = ((expected / half_range(&config)) * 32768.0).round_ties_even() as i32;
    assert_eq!(axis_of(&device), Some(axis));
}

#[test]
fn dragging_through_the_centre_does_not_honk() {
    let config = Config::default();
    let mut device = uinput();
    let mut wheel = Wheel::default();
    tick(&mut wheel, &mut device, &config, pen_at(0.0, 0.8, 100), 0.008);
    let motion = tick(&mut wheel, &mut device, &config, pen_at(0.0, 0.1, 100), 0.008);
    assert!(wheel.dragging);
    assert!(!wheel.honking);
    assert_eq!(motion, Motion { free_spin: false, drag: true, latch: true });
    assert_eq!(horn_of(&device), None);
}

#[test]
fn drag_near_the_centre_is_damped() {
    let config = Config::default();
    let dt = 0.008;
    let raw = (0.3f32).atan2(0.0) - (0.0f32).atan2(0.3);

    // Within the base radius of 0.6 the wheel turns by less than the pen.
    let mut device = None;
    let mut near = Wheel::default();
    tick(&mut near, &mut device, &config, pen_at(0.0, 0.8, 100), dt);
    near.prev_pos = Position { x: s(0.0), y: s(0.3) };
    tick(&mut near, &mut device, &config, pen_at(0.3, 0.0, 100), dt);
    assert_eq!(f(near.angle), raw * (0.3 / 0.6));
    assert!(f(near.angle).abs() < raw.abs());

    // At the base radius and beyond it turns by as much as the pen.
    for radius in [0.6f32, 0.8, 1.0] {
        let mut far = Wheel::default();
        tick(&mut far, &mut device, &config, pen_at(0.0, radius, 100), dt);
        tick(&mut far, &mut device, &config, pen_at(radius, 0.0, 100), dt);
        assert_eq!(f(far.angle), raw);
    }
}

#[test]
fn drag_is_clamped_to_half_the_range() {
    let mut config = Config::default();
    config.range = s(90.0);
    let limit = half_range(&config);
    let mut device = uinput();
    let mut wheel = Wheel::default();
    let dt = 0.008;
    tick(&mut wheel, &mut device, &config, pen_at(0.0, 0.8, 100), dt);
    tick(&mut wheel, &mut device, &config, pen_at(0.8, 0.0, 100), dt);
    assert_eq!(f(wheel.angle), limit);
    assert_eq!(f(wheel.velocity), (limit - 0.0) / dt);
    assert_eq!(axis_of(&device), Some(32768));
    tick(&mut wheel, &mut device, &config, pen_at(0.0, -0.8, 100), dt);
    assert_eq!(f(wheel.angle), limit);
    assert_eq!(f(wheel.velocity), 0.0);
    tick(&mut wheel, &mut device, &config, pen_at(0.0, 0.8, 100), dt);
    tick(&mut wheel, &mut device, &config, pen_at(-0.8, 0.0, 100), dt);
    tick(&mut wheel, &mut device, &config, pen_at(0.0, -0.8, 100), dt);
    assert_eq!(f(wheel.angle), -limit);
    assert_eq!(axis_of(&device), Some(-32768));
}

#[test]
fn angle_stays_within_half_the_range_on_every_tick() {
    let mut config = Config::default();
    config.range = s(180.0);
    config.friction = s(0.5);
    config.spring = s(3.0);
    let limit = half_range(&config);
    let mut device = uinput();
    let mut wheel = Wheel::default();
    wheel.velocity = s(400.0);
    let pens = [
        None,
        None,
        pen_at(0.0, 0.9, 100),
        pen_at(0.9, 0.0, 100),
        pen_at(0.0, -0.9, 100),
        pen_at(-0.9, 0.0, 100),
        pen_at(0.0, 0.9, 100),
        None,
        None,
        pen_at(0.0, 0.0, 100),
        pen_at(0.5, 0.5, 100),
        None,
    ];
    for round in 0..40 {
        for pen in pens {
            tick(&mut wheel, &mut device, &config, pen, 0.008);
            assert!(f(wheel.angle).abs() <= limit, "round {round}: {}", f(wheel.angle));
        }
    }
}

#[test]
fn lifting_the_pen_ends_the_drag_and_hands_the_speed_on() {
    let config = Config::default();
    let mut device = uinput();
    let mut wheel = Wheel::default();
    let dt = 0.008;
    tick(&mut wheel, &mut device, &config, pen_at(0.0, 0.8, 100), dt);
    tick(&mut wheel, &mut device, &config, pen_at(0.1, 0.8, 100), dt);
    let speed = (f(wheel.angle) - f(wheel.prev_angle)) / dt;
    assert_eq!(f(wheel.velocity), speed);
    assert!(speed > 0.0);

    // The tick that sees the pen lifted frees the wheel and moves nothing.
    let lifted = tick(&mut wheel, &mut device, &config, None, dt);
    assert_eq!(lifted, Motion { free_spin: false, drag: false, latch: false });
    assert!(!wheel.dragging);
    assert_eq!(f(wheel.velocity), speed);

    // The free spin that follows starts from that speed.
    let angle = f(wheel.angle);
    let spun = tick(&mut wheel, &mut device, &config, None, dt);
    assert_eq!(spun, Motion { free_spin: true, drag: false, latch: false });
    let slowed = speed + (-25.0 * speed / 1.0) * dt;
    assert_eq!(f(wheel.velocity), slowed);
    assert_eq!(f(wheel.angle), angle + slowed * dt);
    assert_eq!(f(wheel.prev_angle), angle);
}

#[test]
fn friction_slows_the_wheel_to_a_stop() {
    // Inertia 1, friction 25, spring 0, no feedback.
    let config = Config::default();
    let mut device = None;
    let mut wheel = Wheel::default();
    wheel.velocity = s(10.0);
    let dt = 0.01;
    let mut previous = 10.0f32;
    let mut ticks = 0;
    while f(wheel.velocity) != 0.0 {
        tick(&mut wheel, &mut device, &config, None, dt);
        let velocity = f(wheel.velocity);
        assert!(velocity < previous, "{velocity} after {previous}");
        assert!(velocity == 0.0 || velocity >= 1e-5);
        if ticks == 0 {
            assert_eq!(velocity, 10.0 + (-25.0 * 10.0 / 1.0) * 0.01);
        }
        previous = velocity;
        ticks += 1;
        assert!(ticks < 1000);
    }
    assert_eq!(wheel.velocity, s(0.0));
    // 10 * 0.75^n falls under 0.00001 after 49 ticks.
    assert_eq!(ticks, 49);
    let angle = wheel.angle;
    tick(&mut wheel, &mut device, &config, None, dt);
    assert_eq!(wheel.velocity, s(0.0));
    assert_eq!(wheel.angle, angle);
}

#[test]
fn feedback_turns_the_free_wheel() {
    let config = Config::default();
    let mut device = uinput();
    if let Some(Device::UInput(d)) = &mut device {
        d.handle_ff_upload(1, FF_CONSTANT, i16::MAX as u16);
        d.handle_event(RawEvent { kind: EV_FF, code: 0, value: 1 });
    }
    let mut wheel = Wheel::default();
    let dt = 0.008;
    tick(&mut wheel, &mut device, &config, None, dt);
    assert_eq!(f(wheel.feedback_torque), 300.0);
    assert_eq!(f(wheel.velocity), 300.0 * dt);
    assert_eq!(f(wheel.angle), 300.0 * dt * dt);
    let axis = ((300.0 * dt * dt / half_range(&config)) * 32768.0).round_ties_even() as i32;
    assert_eq!(axis_of(&device), Some(axis));
}

#[test]
fn wheel_that_is_no_number_starts_again_at_zero() {
    let config = Config::default();
    let mut device = None;
    let mut wheel = Wheel::default();
    wheel.angle = s(f32::NAN);
    wheel.velocity = s(f32::INFINITY);
    tick(&mut wheel, &mut device, &config, None, 0.008);
    assert_eq!(wheel.angle, s(0.0));
    assert_eq!(wheel.velocity, s(0.0));
    wheel.dragging = true;
    wheel.angle = s(f32::NEG_INFINITY);
    wheel.velocity = s(-f32::NAN);
    wheel.update(&mut device, &config, None, s(0.0));
    assert_eq!(wheel.angle, s(0.0));
    assert_eq!(wheel.velocity, s(0.0));
}

#[test]
fn wheel_that_is_not_moved_leaves_the_axis() {
    let config = Config::default();
    let mut device = uinput();
    let mut wheel = Wheel::default();
    wheel.dragging = true;
    tick(&mut wheel, &mut device, &config, None, 0.008);
    assert_eq!(axis_of(&device), None);
    tick(&mut wheel, &mut device, &config, None, 0.008);
    assert_eq!(axis_of(&device), Some(0));
}

#[test]
fn wheel_works_without_a_controller() {
    let config = Config::default();
    let mut device = None;
    let mut wheel = Wheel::default();
    tick(&mut wheel, &mut device, &config, pen_at(0.0, 0.0, 100), 0.008);
    assert!(wheel.honking);
    assert_eq!(device, None);
    tick(&mut wheel, &mut device, &config, pen_at(0.0, 0.0, 0), 0.008);
    assert!(!wheel.honking);
    assert_eq!(device, None);
}

#[test]
fn dummy_controller_takes_commands_and_stays_the_same() {
    let config = Config::default();
    let mut device = Some(Device::Dummy(DummyDevice));
    let mut wheel = Wheel::default();
    tick(&mut wheel, &mut device, &config, pen_at(0.0, 0.0, 100), 0.008);
    assert!(wheel.honking);
    assert_eq!(device, Some(Device::Dummy(DummyDevice)));
}

#[test]
fn threshold_and_horn_radius_come_from_the_configuration() {
    let mut config = Config::default();
    config.pressure_threshold = 1000;
    config.horn_radius = s(0.05);
    let mut device = None;
    let mut wheel = Wheel::default();
    tick(&mut wheel, &mut device, &config, pen_at(0.0, 0.0, 1000), 0.008);
    assert!(!wheel.honking);
    tick(&mut wheel, &mut device, &config, pen_at(0.0, 0.04, 1001), 0.008);
    assert!(wheel.honking);
    let mut other = Wheel::default();
    tick(&mut other, &mut device, &config, pen_at(0.0, 0.06, 1001), 0.008);
    assert!(!other.honking);
    assert!(other.dragging);
}

#[test]
fn pi_is_pi() {
    assert_eq!(PI_BITS, PI.to_bits());
}

#[test]
fn polar_difference_is_wrapped_to_the_short_way() {
    for delta in [
        0.0f32,
        -0.0,
        1.0,
        -1.0,
        PI,
        -PI,
        3.1415925,
        -3.1415925,
        3.141593,
        -3.141593,
        2.0 * PI,
        -2.0 * PI,
        f32::INFINITY,
        f32::NEG_INFINITY,
        f32::NAN,
    ] {
        let expected = if delta <= -PI {
            Wrap::Up
        } else if delta > PI {
            Wrap::Down
        } else {
            Wrap::Stay
        };
        assert_eq!(wrap(s(delta)), expected, "{delta}");
    }
    assert_eq!(wrap(s(PI)), Wrap::Stay);
    assert_eq!(wrap(s(-PI)), Wrap::Up);
    assert_eq!(angle_delta(PI, 0.0), PI);
    assert_eq!(angle_delta(0.0, PI), PI);
    assert_eq!(angle_delta(-3.0, 3.0), 6.0 - 2.0 * PI);
    assert_eq!(angle_delta(3.0, -3.0), -6.0 + 2.0 * PI);
    assert_eq!(angle_delta(0.5, 0.25), -0.25);
}

#[test]
fn axis_is_kept_within_the_resolution() {
    let mut config = Config::default();
    config.device_resolution = 100;
    let spin = Motion { free_spin: true, drag: false, latch: false };
    let drag = Motion { free_spin: false, drag: true, latch: true };
    for (motion, axis, expected) in [
        (spin, 1_000_000, 100),
        (spin, -1_000_000, -100),
        (drag, i32::MAX, 100),
        (drag, i32::MIN, -100),
        (spin, 100, 100),
        (spin, -100, -100),
        (drag, 101, 100),
        (drag, -101, -100),
        (spin, 57, 57),
        (drag, -57, -57),
        (spin, 0, 0),
    ] {
        let mut device = Some(Device::UInput(UInputDevice::new(&config).unwrap()));
        let mut wheel = Wheel::default();
        let computed = Computed {
            half_range: s(1.0),
            feedback_torque: s(0.0),
            velocity: s(0.0),
            angle: s(0.0),
            axis,
        };
        wheel.advance(&mut device, motion, computed, None);
        assert_eq!(axis_of(&device), Some(expected));
    }
}

#[test]
fn axis_of_a_wheel_without_resolution_stays_at_zero() {
    let mut config = Config::default();
    config.device_resolution = 0;
    let mut device = Some(Device::UInput(UInputDevice::new(&config).unwrap()));
    let mut wheel = Wheel::default();
    let spin = Motion { free_spin: true, drag: false, latch: false };
    let computed = Computed {
        half_range: s(1.0),
        feedback_torque: s(0.0),
        velocity: s(0.0),
        angle: s(0.0),
        axis: 5,
    };
    wheel.advance(&mut device, spin, computed, None);
    assert_eq!(axis_of(&device), Some(0));
}
