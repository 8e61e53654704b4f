//! The control loop's state and its reaction to each event.
//!
//! One value of [`ControlState`] owns everything that the device remembers.
//! [`ControlState::handle_event`] changes it and returns what is to be done
//! to the outside world; nothing in here blocks, sends or moves anything.

use crate::event::{Action, Event};
use crate::message::{initiate_update, rpm_update, Message};
use crate::queue::{try_dequeue, EventQueue};
use crate::servo::{clamp_angle, pulse_width_us, Servo};
use crate::sessions::{sink_of, sinks_of, SessionRegistry, SinkHandle};
use crate::timing::{
    calculate_delay_based_on_rpm_and_target, phase_delay_nanos, TimingEstimator, TimingView,
};
use vstd::prelude::*;

verus! {

/// Nanoseconds that the loop sleeps when it finds the queue empty.
pub const IDLE_SLEEP_NANOS: u64 = 10_000_000;

/// Target angle before the first shot is armed.
pub const INITIAL_TARGET_ANGLE: i32 = 45;

/// The position that the trigger toggles to from `angle`: 90 degrees, and
/// from there -90.
pub open spec fn other_position(angle: int) -> int {
    if angle != 90 {
        90
    } else {
        -90
    }
}

/// Everything that the control loop remembers.
pub struct ControlView {
    /// The sink of each open session.
    pub sessions: Map<i32, SinkHandle>,
    /// Pulse history and speed estimate.
    pub timing: TimingView,
    /// Whether the next pulse fires a shot.
    pub shot_armed: bool,
    /// Target angle of the shot, in degrees; any number, taken modulo 360.
    pub shot_target_angle: int,
    /// Pulse width of the servo at -90 degrees.
    pub servo_min_us: int,
    /// Pulse width of the servo at 90 degrees.
    pub servo_max_us: int,
    /// The angle that the servo was last set to.
    pub servo_angle: int,
}

impl ControlView {
    /// The state at start-up around a servo with the given range: no
    /// sessions, no pulse seen, speed 0, disarmed, servo at angle 0.
    pub open spec fn initial(servo_min_us: int, servo_max_us: int) -> ControlView {
        ControlView {
            sessions: Map::empty(),
            timing: TimingView::initial(),
            shot_armed: false,
            shot_target_angle: 45,
            servo_min_us,
            servo_max_us,
            servo_angle: 0,
        }
    }

    /// What holds of every state that the loop can be in.
    pub open spec fn wf(self) -> bool {
        &&& self.sessions.dom().finite()
        &&& self.timing.wf()
        &&& 0 <= self.servo_min_us <= self.servo_max_us <= u32::MAX
        &&& -90 <= self.servo_angle <= 90
    }

    /// The state with the servo set to `angle`, clamped.
    pub open spec fn turned_to(self, angle: int) -> ControlView {
        ControlView { servo_angle: clamp_angle(angle), ..self }
    }

    /// The action that puts the servo at `angle`, clamped.
    pub open spec fn command(self, angle: int) -> Action {
        Action::CommandServo(
            pulse_width_us(self.servo_min_us, self.servo_max_us, clamp_angle(angle)) as u32,
        )
    }

    /// The state after `event`, and the actions that it calls for, in order.
    pub open spec fn step(self, event: Event) -> (ControlView, Seq<Action>) {
        match event {
            Event::TurnServo(Some(angle)) => (
                self.turned_to(angle as int),
                seq![self.command(angle as int)],
            ),
            Event::TurnServo(None) => {
                let angle = other_position(self.servo_angle);
                (self.turned_to(angle), seq![self.command(angle)])
            },
            Event::InitiateShot(target_angle) => (
                ControlView {
                    shot_target_angle: target_angle as int,
                    shot_armed: !self.shot_armed,
                    ..self
                },
                seq![Action::Notify(initiate_update(!self.shot_armed))],
            ),
            Event::HallSensorTrigger(now) => {
                let timing = self.timing.after_pulse(now as nat);
                let report = Action::Notify(rpm_update(timing.rpm as u128));
                if self.shot_armed {
                    let wait = phase_delay_nanos(
                        timing.rpm as int,
                        45,
                        self.shot_target_angle,
                        150_000_000_000,
                    );
                    let angle = other_position(self.servo_angle);
                    (
                        ControlView { timing, shot_armed: false, ..self.turned_to(angle) },
                        seq![
                            Action::Sleep(wait as u64),
                            self.command(angle),
                            Action::Notify(initiate_update(false)),
                            report,
                        ],
                    )
                } else {
                    (ControlView { timing, ..self }, seq![report])
                }
            },
            Event::Broadcast(text) => (self, seq![Action::Broadcast(text)]),
            Event::AddSession(id, sink) => (
                ControlView { sessions: self.sessions.insert(id, sink), ..self },
                match sink_of(self.sessions, id) {
                    Some(displaced) if displaced != sink => seq![Action::ReleaseSink(displaced)],
                    _ => Seq::empty(),
                },
            ),
            Event::RemoveSession(id) => (
                ControlView { sessions: self.sessions.remove(id), ..self },
                match sink_of(self.sessions, id) {
                    Some(dropped) => seq![Action::ReleaseSink(dropped)],
                    None => Seq::empty(),
                },
            ),
        }
    }

    /// The state after the sessions in `failed` were given up.
    pub open spec fn pruned(self, failed: Set<i32>) -> ControlView {
        ControlView { sessions: self.sessions.remove_keys(failed), ..self }
    }
}

/// Whether `event` is one of the two kinds that can change whether a shot
/// is armed: arming itself, and a pulse.
pub open spec fn arms_or_fires(event: Event) -> bool {
    event is InitiateShot || event is HallSensorTrigger
}

/// Every event keeps a well-formed state well-formed.
pub proof fn lemma_step_keeps_wf(state: ControlView, event: Event)
    requires
        state.wf(),
    ensures
        state.step(event).0.wf(),
{
}

/// Arming twice puts `shot_armed` back to what it was, and each of the two
/// events calls for exactly one notification, of the state it led to.
pub proof fn lemma_arming_twice_restores(state: ControlView, first_target: i32, second_target: i32)
    ensures
        ({
            let (armed, first) = state.step(Event::InitiateShot(first_target));
            let (restored, second) = armed.step(Event::InitiateShot(second_target));
            &&& restored.shot_armed == state.shot_armed
            &&& restored == (ControlView { shot_target_angle: second_target as int, ..state })
            &&& first == seq![Action::Notify(initiate_update(!state.shot_armed))]
            &&& second == seq![Action::Notify(initiate_update(state.shot_armed))]
        }),
{
}

/// An event that neither arms nor is a pulse leaves `shot_armed` and the
/// target angle alone, so that such events between two armings do not
/// change what [`lemma_arming_twice_restores`] says.
pub proof fn lemma_armed_kept_between(state: ControlView, event: Event)
    requires
        !arms_or_fires(event),
    ensures
        state.step(event).0.shot_armed == state.shot_armed,
        state.step(event).0.shot_target_angle == state.shot_target_angle,
{
}

/// The state of the control loop. Only the loop holds it.
pub struct ControlState {
    sessions: SessionRegistry,
    estimator: TimingEstimator,
    shot_armed: bool,
    shot_target_angle: i32,
    servo: Servo,
}

impl View for ControlState {
    type V = ControlView;

    closed spec fn view(&self) -> ControlView {
        ControlView {
            sessions: self.sessions@,
            timing: self.estimator@,
            shot_armed: self.shot_armed,
            shot_target_angle: self.shot_target_angle as int,
            servo_min_us: self.servo.min_us(),
            servo_max_us: self.servo.max_us(),
            servo_angle: self.servo.angle(),
        }
    }
}

impl ControlState {
    /// The state at start-up, around `servo`.
    pub fn new(servo: Servo) -> (state: ControlState)
        ensures
            state@ == (ControlView {
                servo_angle: servo.angle(),
                ..ControlView::initial(servo.min_us(), servo.max_us())
            }),
            state@.wf(),
    {
        proof {
            use_type_invariant(&servo);
        }
        ControlState {
            sessions: SessionRegistry::new(),
            estimator: TimingEstimator::new(),
            shot_armed: false,
            shot_target_angle: INITIAL_TARGET_ANGLE,
            servo,
        }
    }

    /// Takes in one event and returns the actions that it calls for, in the
    /// order in which they are to be carried out.
    pub fn handle_event(&mut self, event: Event) -> (actions: Vec<Action>)
        ensures
            final(self)@ == old(self)@.step(event).0,
            actions@ == old(self)@.step(event).1,
            final(self)@.wf(),
    {
        let mut actions: Vec<Action> = Vec::new();
        match event {
            Event::TurnServo(angle) => {
                let duty_us = match angle {
                    Some(angle) => self.servo.set_angle(angle),
                    None => turn_servo(&mut self.servo),
                };
                actions.push(Action::CommandServo(duty_us));
            },
            Event::InitiateShot(target_angle) => {
                self.shot_target_angle = target_angle;
                let notice = self.toggle_shot_initiated();
                actions.push(notice);
            },
            Event::HallSensorTrigger(now) => {
                self.estimator.record_pulse(now);
                let rpm = self.estimator.rpm();
                if self.shot_armed {
                    let wait = calculate_delay_based_on_rpm_and_target(rpm, self.shot_target_angle);
                    actions.push(Action::Sleep(wait));
                    let duty_us = turn_servo(&mut self.servo);
                    actions.push(Action::CommandServo(duty_us));
                    let notice = self.toggle_shot_initiated();
                    actions.push(notice);
                }
                actions.push(Action::Notify(Message::rpm(rpm)));
            },
            Event::Broadcast(text) => {
                actions.push(Action::Broadcast(text));
            },
            Event::AddSession(id, sink) => {
                match self.sessions.add(id, sink) {
                    Some(displaced) => {
                        if displaced != sink {
                            actions.push(Action::ReleaseSink(displaced));
                        }
                    },
                    None => {},
                }
            },
            Event::RemoveSession(id) => {
                match self.sessions.remove(id) {
                    Some(dropped) => actions.push(Action::ReleaseSink(dropped)),
                    None => {},
                }
            },
        }
        proof {
            use_type_invariant(&self.servo);
            use_type_invariant(&self.estimator);
            self.sessions.lemma_finite();
        }
        assert(actions@ =~= old(self)@.step(event).1);
        actions
    }

    /// One turn of the loop: takes the oldest event out of `queue` and
    /// handles it, or, where the queue is empty, asks for a short sleep.
    pub fn poll(&mut self, queue: &mut EventQueue) -> (actions: Vec<Action>)
        ensures
            old(queue)@.len() == 0 ==> final(self)@ == old(self)@ && final(queue)@ == old(queue)@
                && actions@ == seq![Action::Sleep(10_000_000)],
            old(queue)@.len() > 0 ==> final(self)@ == old(self)@.step(old(queue)@[0]).0
                && actions@ == old(self)@.step(old(queue)@[0]).1 && final(queue)@ == old(
                queue,
            )@.drop_first(),
            final(self)@.wf(),
    {
        proof {
            use_type_invariant(&self.servo);
            use_type_invariant(&self.estimator);
            self.sessions.lemma_finite();
        }
        match try_dequeue(queue) {
            Some(event) => self.handle_event(event),
            None => {
                let mut actions: Vec<Action> = Vec::new();
                actions.push(Action::Sleep(IDLE_SLEEP_NANOS));
                assert(actions@ =~= seq![Action::Sleep(10_000_000)]);
                actions
            },
        }
    }

    /// Ends a broadcast: gives up the sessions in `failed`, those whose sink
    /// did not take what was pushed to it, and returns the sinks to let go
    /// of.
    pub fn prune_sessions(&mut self, failed: &Vec<i32>) -> (dropped: Vec<SinkHandle>)
        ensures
            final(self)@ == old(self)@.pruned(failed@.to_set()),
            dropped@ == sinks_of(old(self)@.sessions, failed@),
            final(self)@.wf(),
    {
        let dropped = self.sessions.prune(failed);
        proof {
            use_type_invariant(&self.servo);
            use_type_invariant(&self.estimator);
            self.sessions.lemma_finite();
        }
        dropped
    }

    /// The registered sessions.
    pub fn sessions(&self) -> (sessions: &SessionRegistry)
        ensures
            sessions@ == self@.sessions,
    {
        &self.sessions
    }

    /// The speed estimate in revolutions per minute.
    pub fn current_rpm(&self) -> (rpm: u128)
        ensures
            rpm == self@.timing.rpm,
    {
        self.estimator.rpm()
    }

    /// Time of the newest pulse in milliseconds, if there was one.
    pub fn last_pulse_time(&self) -> (time: Option<u64>)
        ensures
            match time {
                Some(t) => self@.timing.last_pulse == Some(t as nat),
                None => self@.timing.last_pulse is None,
            },
    {
        self.estimator.last_pulse_time()
    }

    /// The intervals between the newest pulses in milliseconds, oldest first.
    pub fn pulse_intervals(&self) -> (intervals: Vec<u64>)
        ensures
            crate::timing::as_nats(intervals@) == self@.timing.intervals,
            intervals@.len() <= 5,
    {
        self.estimator.intervals()
    }

    /// Whether the next pulse fires a shot.
    pub fn shot_armed(&self) -> (armed: bool)
        ensures
            armed == self@.shot_armed,
    {
        self.shot_armed
    }

    /// Target angle of the shot in degrees.
    pub fn shot_target_angle(&self) -> (angle: i32)
        ensures
            angle == self@.shot_target_angle,
    {
        self.shot_target_angle
    }

    /// The angle that the servo was last set to.
    pub fn servo_angle(&self) -> (angle: i32)
        ensures
            angle == self@.servo_angle,
            -90 <= angle <= 90,
    {
        self.servo.get_angle()
    }

    /// Arms where disarmed and disarms where armed, and returns the
    /// notification of the new state.
    fn toggle_shot_initiated(&mut self) -> (notice: Action)
        ensures
            final(self)@ == (ControlView { shot_armed: !old(self)@.shot_armed, ..old(self)@ }),
            notice == Action::Notify(initiate_update(!old(self)@.shot_armed)),
    {
        self.shot_armed = !self.shot_armed;
        Action::Notify(Message::update_inidiated(self.shot_armed))
    }
}

/// Moves the servo to its other position and returns the pulse width that
/// puts it there.
fn turn_servo(servo: &mut Servo) -> (duty_us: u32)
    ensures
        final(servo).angle() == other_position(old(servo).angle()),
        final(servo).min_us() == old(servo).min_us(),
        final(servo).max_us() == old(servo).max_us(),
        duty_us == pulse_width_us(
            old(servo).min_us(),
            old(servo).max_us(),
            other_position(old(servo).angle()),
        ),
{
    if servo.get_angle() != 90 {
        servo.set_angle(90)
    } else {
        servo.set_angle(-90)
    }
}

} // verus!
