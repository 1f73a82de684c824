//! The tick: what the scheduler does, step by step, with the shared state.
//!
//! The scheduler itself never waits, reads or writes. It says what has to
//! be done next, and is told how that went.

use crate::config;
use crate::device::{create_device, device_of, Device};
use crate::pen::Pen;
use crate::source::{create_source, source_of, Source};
use crate::state::{Action, Event, Failure, State};
use crate::timer::Timer;
use crate::single::Single;
use crate::wheel::{honked, pressure_of, steered, Computed, Motion};
use vstd::prelude::*;

verus! {

/// Whether a configured source has to be opened by the program, rather than
/// standing ready at once.
pub open spec fn source_needs_opening(kind: config::Source) -> bool {
    kind == config::Source::Net || kind == config::Source::Evdev
}

/// The sample in force: the override while there is one, else the last
/// sample of the source.
pub open spec fn pen_in_force(s: State) -> Option<Pen> {
    if s.pen_override is Some {
        s.pen_override
    } else {
        s.pen
    }
}

/// The tick ends early.
pub open spec fn failed(s: State, failure: Failure) -> State {
    State { last_error: Some(failure), awaiting: Action::Rest(Some(failure)), ..s }
}

/// The sample in force goes to the wheel.
pub open spec fn simulating(s: State) -> State {
    State { awaiting: Action::Simulate(pen_in_force(s)), ..s }
}

/// A source that can yield is polled; without one the last sample stays.
pub open spec fn polling(s: State) -> State {
    match s.source {
        Some(Source::Net(_)) => State { awaiting: Action::Poll, ..s },
        Some(Source::Evdev(_)) => State { awaiting: Action::Poll, ..s },
        _ => simulating(s),
    }
}

/// The controller is replaced: the old one goes, with the last sample and
/// the request. A configuration that cannot become a controller ends the
/// tick; a controller that needs no opening stands at once.
pub open spec fn resetting_device(s: State) -> State {
    let cleared = State { pen: None, reset_device: false, device: None, ..s };
    match device_of(&s.config) {
        Err(e) => failed(cleared, Failure::DeviceRejected(e)),
        Ok(Device::Dummy(d)) => polling(State { device: Some(Device::Dummy(d)), ..cleared }),
        Ok(Device::UInput(_)) => State { awaiting: Action::OpenDevice, ..cleared },
    }
}

/// After the source, the controller's turn.
pub open spec fn past_source(s: State) -> State {
    if s.reset_device {
        resetting_device(s)
    } else {
        polling(s)
    }
}

/// The source is replaced: the old one goes, with the last sample and the
/// request. A source that needs no opening stands at once.
pub open spec fn resetting_source(s: State) -> State {
    let cleared = State { pen: None, reset_source: false, source: None, ..s };
    if source_needs_opening(s.config.source) {
        State { awaiting: Action::OpenSource, ..cleared }
    } else {
        past_source(State { source: Some(source_of(s.config.source)), ..cleared })
    }
}

/// The wheel looks at the sample in force: it decides on its motion, and
/// the horn follows.
pub open spec fn touching(s: State, pen: Option<Pen>, centre_dist: Single) -> State {
    let pressure = pressure_of(pen);
    let threshold = s.config.pressure_threshold;
    let near_centre = centre_dist.at_most(s.config.horn_radius);
    State {
        wheel: s.wheel.next(pressure, threshold, near_centre),
        device: honked(s.device, s.wheel.horn_command(pressure, threshold, near_centre)),
        awaiting: Action::Move(s.wheel.motion(pressure, threshold, near_centre)),
        ..s
    }
}

/// The wheel takes in its motion, and the controller's axis follows. Only a
/// uinput wheel has anything to write and to read after that.
pub open spec fn moving(s: State, motion: Motion, computed: Computed) -> State {
    State {
        wheel: s.wheel.advanced(motion, computed, pen_in_force(s)),
        device: steered(s.device, motion, computed.axis),
        awaiting: match s.device {
            Some(Device::UInput(_)) => Action::Flush,
            _ => Action::Rest(None),
        },
        ..s
    }
}

/// The state after an event. An event that the scheduler does not wait for
/// changes nothing.
pub open spec fn step(s: State, event: Event) -> State {
    match s.awaiting {
        Action::Rest(_) => match event {
            Event::Tick => if s.reset_source {
                resetting_source(s)
            } else {
                past_source(s)
            },
            _ => s,
        },
        Action::OpenSource => match event {
            Event::SourceOpened(opened) => if opened {
                past_source(State { source: Some(source_of(s.config.source)), ..s })
            } else {
                failed(s, Failure::SourceOpen)
            },
            _ => s,
        },
        Action::OpenDevice => match event {
            Event::DeviceOpened(opened) => if opened {
                match device_of(&s.config) {
                    Ok(d) => polling(State { device: Some(d), ..s }),
                    Err(e) => failed(s, Failure::DeviceRejected(e)),
                }
            } else {
                failed(s, Failure::DeviceOpen)
            },
            _ => s,
        },
        Action::Poll => match event {
            Event::Sampled(sample) => simulating(
                if sample is Some {
                    State { pen: sample, ..s }
                } else {
                    s
                },
            ),
            _ => s,
        },
        Action::Simulate(pen) => match event {
            Event::Touched(centre_dist) => touching(s, pen, centre_dist),
            _ => s,
        },
        Action::Move(motion) => match event {
            Event::Moved(computed) => moving(s, motion, computed),
            _ => s,
        },
        Action::Flush => match event {
            Event::Written(written) => if written {
                State { awaiting: Action::Drain, ..s }
            } else {
                failed(s, Failure::Write)
            },
            _ => s,
        },
        Action::Drain => match event {
            Event::Drained => State { awaiting: Action::Rest(None), ..s },
            _ => s,
        },
    }
}

fn fail(state: &mut State, failure: Failure)
    ensures
        *final(state) == failed(*old(state), failure),
{
    state.last_error = Some(failure);
    state.awaiting = Action::Rest(Some(failure));
}

fn simulate(state: &mut State)
    ensures
        *final(state) == simulating(*old(state)),
{
    let pen: Option<Pen> = match state.pen_override {
        Some(p) => Some(p),
        None => state.pen,
    };
    state.awaiting = Action::Simulate(pen);
}

fn poll(state: &mut State)
    ensures
        *final(state) == polling(*old(state)),
{
    match state.source {
        Some(Source::Net(_)) => {
            state.awaiting = Action::Poll;
        },
        Some(Source::Evdev(_)) => {
            state.awaiting = Action::Poll;
        },
        _ => simulate(state),
    }
}

fn reset_device(state: &mut State)
    ensures
        *final(state) == resetting_device(*old(state)),
{
    state.pen = None;
    state.reset_device = false;
    state.device = None;
    match create_device(&state.config) {
        Err(e) => fail(state, Failure::DeviceRejected(e)),
        Ok(Device::Dummy(d)) => {
            state.device = Some(Device::Dummy(d));
            poll(state);
        },
        Ok(Device::UInput(_)) => {
            state.awaiting = Action::OpenDevice;
        },
    }
}

fn pass_source(state: &mut State)
    ensures
        *final(state) == past_source(*old(state)),
{
    if state.reset_device {
        reset_device(state);
    } else {
        poll(state);
    }
}

fn reset_source(state: &mut State)
    ensures
        *final(state) == resetting_source(*old(state)),
{
    state.pen = None;
    state.reset_source = false;
    state.source = None;
    match state.config.source {
        config::Source::Net => {
            state.awaiting = Action::OpenSource;
        },
        config::Source::Evdev => {
            state.awaiting = Action::OpenSource;
        },
        _ => {
            state.source = Some(create_source(&state.config));
            pass_source(state);
        },
    }
}

/// Takes in one event and says what to do next. A tick starts with
/// [`Event::Tick`] and is over when the answer is [`Action::Rest`]; in
/// between, each answer names the one thing to do, and the next event says
/// how it went.
pub fn update(state: &mut State, event: Event) -> (action: Action)
    ensures
        *final(state) == step(*old(state), event),
        action == final(state).awaiting,
{
    match (state.awaiting, event) {
        (Action::Rest(_), Event::Tick) => {
            if state.reset_source {
                reset_source(state);
            } else {
                pass_source(state);
            }
        },
        (Action::OpenSource, Event::SourceOpened(opened)) => {
            if opened {
                state.source = Some(create_source(&state.config));
                pass_source(state);
            } else {
                fail(state, Failure::SourceOpen);
            }
        },
        (Action::OpenDevice, Event::DeviceOpened(opened)) => {
            if opened {
                match create_device(&state.config) {
                    Ok(d) => {
                        state.device = Some(d);
                        poll(state);
                    },
                    Err(e) => fail(state, Failure::DeviceRejected(e)),
                }
            } else {
                fail(state, Failure::DeviceOpen);
            }
        },
        (Action::Poll, Event::Sampled(sample)) => {
            match sample {
                Some(p) => {
                    state.pen = Some(p);
                },
                None => {},
            }
            simulate(state);
        },
        (Action::Simulate(pen), Event::Touched(centre_dist)) => {
            let motion = state.wheel.update(&mut state.device, &state.config, pen, centre_dist);
            state.awaiting = Action::Move(motion);
        },
        (Action::Move(motion), Event::Moved(computed)) => {
            let pen: Option<Pen> = match state.pen_override {
                Some(p) => Some(p),
                None => state.pen,
            };
            state.wheel.advance(&mut state.device, motion, computed, pen);
            match state.device {
                Some(Device::UInput(_)) => {
                    state.awaiting = Action::Flush;
                },
                _ => {
                    state.awaiting = Action::Rest(None);
                },
            }
        },
        (Action::Flush, Event::Written(written)) => {
            if written {
                state.awaiting = Action::Drain;
            } else {
                fail(state, Failure::Write);
            }
        },
        (Action::Drain, Event::Drained) => {
            state.awaiting = Action::Rest(None);
        },
        _ => {},
    }
    state.awaiting
}

/// The state after a run of events, in order.
pub open spec fn run(s: State, events: Seq<Event>) -> State
    decreases events.len(),
{
    if events.len() == 0 {
        s
    } else {
        step(run(s, events.drop_last()), events.last())
    }
}

/// Whether an event is the answer that an action waits for.
pub open spec fn answers(action: Action, event: Event) -> bool {
    match action {
        Action::Rest(_) => event is Tick,
        Action::OpenSource => event is SourceOpened,
        Action::OpenDevice => event is DeviceOpened,
        Action::Poll => event is Sampled,
        Action::Simulate(_) => event is Touched,
        Action::Move(_) => event is Moved,
        Action::Flush => event is Written,
        Action::Drain => event is Drained,
    }
}

/// How far into a tick an action lies.
pub open spec fn progress(action: Action) -> nat {
    match action {
        Action::OpenSource => 1,
        Action::OpenDevice => 2,
        Action::Poll => 3,
        Action::Simulate(_) => 4,
        Action::Move(_) => 5,
        Action::Flush => 6,
        Action::Drain => 7,
        Action::Rest(_) => 8,
    }
}

/// An event out of turn changes nothing. The awaited answer always moves
/// the tick forward: no tick takes more than eight answers, whatever they
/// are, and the scheduler is never left without a next thing to do.
#[verifier::spinoff_prover]
pub proof fn lemma_tick_advances(s: State, event: Event)
    ensures
        !answers(s.awaiting, event) ==> step(s, event) == s,
        answers(s.awaiting, event) && !(s.awaiting is Rest) ==> progress(step(s, event).awaiting)
            > progress(s.awaiting),
        exists|e: Event| answers(s.awaiting, e),
{
    match s.awaiting {
        Action::OpenSource => {
            assert(answers(s.awaiting, Event::SourceOpened(true)));
        },
        Action::OpenDevice => {
            assert(answers(s.awaiting, Event::DeviceOpened(true)));
        },
        Action::Poll => {
            assert(answers(s.awaiting, Event::Sampled(None)));
        },
        Action::Simulate(_) => {
            assert(answers(s.awaiting, Event::Touched(Single::of(0))));
        },
        Action::Move(_) => {
            let nothing = Computed {
                half_range: Single::of(0),
                feedback_torque: Single::of(0),
                velocity: Single::of(0),
                angle: Single::of(0),
                axis: 0,
            };
            assert(answers(s.awaiting, Event::Moved(nothing)));
        },
        Action::Flush => {
            assert(answers(s.awaiting, Event::Written(true)));
        },
        Action::Drain => {
            assert(answers(s.awaiting, Event::Drained));
        },
        Action::Rest(_) => {
            assert(answers(s.awaiting, Event::Tick));
        },
    }
}

/// Only the pen's touch and the motion change the wheel, only a failure
/// changes the last error, and nothing changes the settings or the
/// override. A new rate of ticks, a replacement or a failure never sets the
/// wheel back.
#[verifier::spinoff_prover]
pub proof fn lemma_step_keeps(s: State, event: Event)
    ensures
        step(s, event).config == s.config,
        step(s, event).pen_override == s.pen_override,
        !(event is Touched) && !(event is Moved) ==> step(s, event).wheel == s.wheel,
        step(s, event).last_error != s.last_error ==> step(s, event).awaiting == Action::Rest(
            step(s, event).last_error,
        ) && step(s, event).last_error is Some,
{
}

/// A request to replace the source or the controller is taken at the start
/// of the next tick and then stands no longer, whether the replacement
/// succeeds or not. The controller's request outlasts a tick only when the
/// source failed before the controller's turn came.
#[verifier::spinoff_prover]
pub proof fn lemma_requests_are_taken(s: State, events: Seq<Event>)
    requires
        s.awaiting is Rest,
        events.len() > 0,
        events[0] == Event::Tick,
    ensures
        !run(s, events).reset_source,
        run(s, events).reset_device ==> run(s, events).awaiting == Action::OpenSource || run(
            s,
            events,
        ).awaiting == Action::Rest(Some(Failure::SourceOpen)),
    decreases events.len(),
{
    let before = events.drop_last();
    if before.len() > 0 {
        assert(before[0] == events[0]);
        lemma_requests_are_taken(s, before);
    } else {
        assert(events.last() == events[0]);
        assert(run(s, before) == s);
    }
}

/// Whether nothing stands where something is about to be opened.
pub open spec fn cleared_before_opening(s: State) -> bool {
    &&& s.awaiting == Action::OpenSource ==> s.source is None
    &&& s.awaiting == Action::OpenDevice ==> s.device is None
}

/// The old source is gone before a new one is opened, and so is the old
/// controller: at no time of a tick do two stand.
#[verifier::spinoff_prover]
pub proof fn lemma_old_goes_first(s: State, events: Seq<Event>)
    requires
        s.awaiting is Rest,
    ensures
        cleared_before_opening(run(s, events)),
    decreases events.len(),
{
    if events.len() > 0 {
        lemma_old_goes_first(s, events.drop_last());
    }
}

/// Once the controller's turn in a tick has come, a request for a
/// replacement waits for the next tick: nothing in between reads or clears
/// it, and nothing replaces the source or the controller.
#[verifier::spinoff_prover]
pub proof fn lemma_requests_wait_for_next_tick(s: State, event: Event)
    requires
        progress(s.awaiting) >= 3,
        !(s.awaiting is Rest),
    ensures
        step(s, event).reset_source == s.reset_source,
        step(s, event).reset_device == s.reset_device,
        step(s, event).source == s.source,
        step(s, event).device is Some == s.device is Some,
{
}

/// At the end of the wheel's part of every tick the angle lies within half
/// the range, as long as half the range is a number and not negative and
/// the arithmetic gave a number for the angle.
#[verifier::spinoff_prover]
pub proof fn lemma_tick_keeps_angle_in_range(s: State, centre_dist: Single, computed: Computed)
    requires
        s.awaiting is Simulate,
        !computed.half_range.nan(),
        computed.half_range.rank() >= 0,
        !computed.angle.nan(),
    ensures
        step(step(s, Event::Touched(centre_dist)), Event::Moved(computed)).wheel.angle.within(
            computed.half_range,
        ),
        step(s, Event::Touched(centre_dist)).awaiting is Move,
{
}

/// A source that cannot be opened stays absent, without a standing request,
/// and ends the tick before the controller or the wheel are touched.
#[verifier::spinoff_prover]
pub proof fn lemma_source_failure_leaves_none(s: State)
    requires
        s.awaiting is Rest,
        s.reset_source,
        source_needs_opening(s.config.source),
    ensures
        step(s, Event::Tick).awaiting == Action::OpenSource,
        step(s, Event::Tick).source is None,
        ({
            let t = step(step(s, Event::Tick), Event::SourceOpened(false));
            &&& t.source is None
            &&& t.pen is None
            &&& !t.reset_source
            &&& t.awaiting == Action::Rest(Some(Failure::SourceOpen))
            &&& t.last_error == Some(Failure::SourceOpen)
            &&& t.device == s.device
            &&& t.reset_device == s.reset_device
            &&& t.wheel == s.wheel
        }),
{
}

/// A controller that cannot be made or opened stays absent, without a
/// standing request, and ends the tick before the wheel is touched.
#[verifier::spinoff_prover]
pub proof fn lemma_device_failure_leaves_none(s: State)
    requires
        s.awaiting is Rest,
        !s.reset_source,
        s.reset_device,
        s.config.device == config::Device::UInput,
    ensures
        ({
            let t = step(s, Event::Tick);
            match crate::device::uinput::rejection(&s.config) {
                Some(e) => {
                    &&& t.device is None
                    &&& !t.reset_device
                    &&& t.awaiting == Action::Rest(Some(Failure::DeviceRejected(e)))
                    &&& t.last_error == Some(Failure::DeviceRejected(e))
                    &&& t.wheel == s.wheel
                },
                None => {
                    let u = step(t, Event::DeviceOpened(false));
                    &&& t.awaiting == Action::OpenDevice
                    &&& t.device is None
                    &&& u.device is None
                    &&& !u.reset_device
                    &&& u.awaiting == Action::Rest(Some(Failure::DeviceOpen))
                    &&& u.last_error == Some(Failure::DeviceOpen)
                    &&& u.wheel == s.wheel
                },
            }
        }),
{
}

/// A poll without a new sample leaves the last sample in place, and that
/// sample goes to the wheel again unless an override stands.
#[verifier::spinoff_prover]
pub proof fn lemma_last_sample_is_held(s: State)
    requires
        s.awaiting == Action::Poll,
    ensures
        step(s, Event::Sampled(None)).pen == s.pen,
        step(s, Event::Sampled(None)).awaiting == Action::Simulate(pen_in_force(s)),
        s.pen_override is None ==> step(s, Event::Sampled(None)).awaiting == Action::Simulate(
            s.pen,
        ),
        forall|p: Pen| #[trigger]
            step(s, Event::Sampled(Some(p))).pen == Some(p),
{
}

/// A write that fails ends the tick at once: the controller's queue is not
/// read, and the failure is kept.
#[verifier::spinoff_prover]
pub proof fn lemma_write_failure_ends_tick(s: State)
    requires
        s.awaiting == Action::Flush,
    ensures
        step(s, Event::Written(false)).awaiting == Action::Rest(Some(Failure::Write)),
        step(s, Event::Written(false)).last_error == Some(Failure::Write),
        step(s, Event::Written(true)).awaiting == Action::Drain,
{
}

/// The rate of the ticks and the deadlines that follow from it.
#[derive(Clone, Copy, Debug)]
pub struct Pace {
    /// Ticks per second.
    pub update_frequency: u32,
    /// The deadlines.
    pub timer: Timer,
}

impl Pace {
    /// A pace of `update_frequency` ticks a second, starting at `now`.
    /// `period` is the length of one tick at that rate, in nanoseconds.
    pub fn new(update_frequency: u32, period: u64, now: u64) -> (pace: Pace)
        requires
            now + period <= u64::MAX,
        ensures
            pace.update_frequency == update_frequency,
            pace.timer.interval() == period,
            pace.timer.deadline() == now + period,
    {
        Pace { update_frequency, timer: Timer::new(period, now) }
    }

    /// Follows a change of the configured rate: a new rate starts a new
    /// schedule at `now`, and the same rate leaves the schedule alone.
    /// `period` is the length of one tick at the rate given, in nanoseconds.
    pub fn retune(&mut self, update_frequency: u32, period: u64, now: u64) -> (changed: bool)
        requires
            now + period <= u64::MAX,
        ensures
            changed == (update_frequency != old(self).update_frequency),
            !changed ==> *final(self) == *old(self),
            changed ==> {
                &&& final(self).update_frequency == update_frequency
                &&& final(self).timer.interval() == period
                &&& final(self).timer.deadline() == now + period
            },
    {
        if update_frequency != self.update_frequency {
            self.update_frequency = update_frequency;
            self.timer = Timer::new(period, now);
            true
        } else {
            false
        }
    }
}

} // verus!
