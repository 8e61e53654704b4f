//! Rotation speed from sensor pulses, and the wait that lines a release up
//! with a target angle.
//!
//! Time stamps are milliseconds on a clock that never runs backwards; waits
//! are whole nanoseconds.

use std::collections::VecDeque;
use vstd::prelude::*;

verus! {

/// Number of pulse intervals that the speed estimate averages over.
pub const WINDOW: usize = 5;

/// Milliseconds in a minute.
pub const MILLIS_PER_MINUTE: u128 = 60_000;

/// Angle, in degrees, at which the arm passes the sensor.
pub const MAGNET_POSITION_ANGLE: i32 = 45;

/// Time, in nanoseconds, between commanding the servo and the release: 150
/// seconds. A quarter turn at 600 rpm takes 25 milliseconds, so next to this
/// figure no turn is ever long enough to wait for (see
/// [`lemma_release_time_outlasts_every_turn`]).
pub const SERVO_PROJECTILE_RELEASE_TIME: u64 = 150_000_000_000;

/// Sum of the intervals.
pub open spec fn total(intervals: Seq<nat>) -> nat
    decreases intervals.len(),
{
    if intervals.len() == 0 {
        0
    } else {
        total(intervals.drop_last()) + intervals.last()
    }
}

/// Arithmetic mean of the intervals, rounded down.
pub open spec fn average(intervals: Seq<nat>) -> nat
    recommends
        intervals.len() > 0,
{
    (total(intervals) / intervals.len()) as nat
}

/// Revolutions per minute for a window of pulse intervals in milliseconds:
/// 60000 over their mean, and 0 while the window is empty.
pub open spec fn rpm_of(intervals: Seq<nat>) -> nat
    recommends
        forall|i: int| 0 <= i < intervals.len() ==> intervals[i] > 0,
{
    if intervals.len() == 0 {
        0
    } else {
        (60_000int / (average(intervals) as int)) as nat
    }
}

/// The window after `delta` came in: the newest five intervals, oldest first.
pub open spec fn slide(window: Seq<nat>, delta: nat) -> Seq<nat> {
    if window.len() < 5 {
        window.push(delta)
    } else {
        window.drop_first().push(delta)
    }
}

/// What the estimator knows.
pub struct TimingView {
    /// The newest intervals between pulses, oldest first.
    pub intervals: Seq<nat>,
    /// Time of the newest pulse, if there was one.
    pub last_pulse: Option<nat>,
    /// The speed estimate.
    pub rpm: nat,
}

impl TimingView {
    /// Before the first pulse.
    pub open spec fn initial() -> TimingView {
        TimingView { intervals: Seq::empty(), last_pulse: None, rpm: 0 }
    }

    /// At most five intervals, none of them zero, and the speed is the one
    /// they give.
    pub open spec fn wf(self) -> bool {
        &&& self.intervals.len() <= 5
        &&& forall|i: int| 0 <= i < self.intervals.len() ==> self.intervals[i] > 0
        &&& self.rpm == rpm_of(self.intervals)
    }

    /// The state after a pulse at `now`. A pulse later than the one before
    /// adds its interval to the window and renews the speed; the first pulse,
    /// and one that is not later than the one before, only moves the time.
    pub open spec fn after_pulse(self, now: nat) -> TimingView {
        match self.last_pulse {
            Some(last) if now > last => {
                let window = slide(self.intervals, (now - last) as nat);
                TimingView { intervals: window, last_pulse: Some(now), rpm: rpm_of(window) }
            },
            _ => TimingView { last_pulse: Some(now), ..self },
        }
    }

    /// The state after one pulse at each of `times`, in order.
    pub open spec fn after_pulses(self, times: Seq<nat>) -> TimingView
        decreases times.len(),
    {
        if times.len() == 0 {
            self
        } else {
            self.after_pulses(times.drop_last()).after_pulse(times.last())
        }
    }
}

/// Each time is `period` after the one before it.
pub open spec fn evenly_spaced(times: Seq<nat>, period: nat) -> bool {
    forall|i: int| 0 < i < times.len() ==> #[trigger] times[i] == times[i - 1] + period
}

/// Degrees of forward rotation from the sensor to the target, in `[0, 360)`.
pub open spec fn angle_delta(target_angle: int, sensor_phase_offset: int) -> int {
    (target_angle - sensor_phase_offset) % 360
}

/// Nanoseconds that the arm takes from the sensor to a point `delta` degrees
/// further on, rounded down: `delta / 360` of a turn that lasts `60 / rpm`
/// seconds.
pub open spec fn travel_nanos(rpm: int, delta: int) -> int
    recommends
        rpm > 0,
{
    (delta * 1_000_000_000) / (6 * rpm)
}

/// Nanoseconds to wait after a pulse so that a release commanded then, which
/// takes `release_latency_ns` to happen, meets the arm at `target_angle`.
/// Zero at rest, and zero where the arm gets there before the release can.
pub open spec fn phase_delay_nanos(
    rpm: int,
    sensor_phase_offset: int,
    target_angle: int,
    release_latency_ns: int,
) -> int {
    if rpm <= 0 {
        0
    } else {
        let raw = travel_nanos(rpm, angle_delta(target_angle, sensor_phase_offset))
            - release_latency_ns;
        if raw < 0 {
            0
        } else {
            raw
        }
    }
}

/// The intervals as numbers.
pub open spec fn as_nats(intervals: Seq<u64>) -> Seq<nat> {
    intervals.map_values(|d: u64| d as nat)
}

/// Speed estimator over the five newest pulse intervals.
pub struct TimingEstimator {
    intervals: VecDeque<u64>,
    last_pulse_time: Option<u64>,
    current_rpm: u128,
}

impl View for TimingEstimator {
    type V = TimingView;

    closed spec fn view(&self) -> TimingView {
        TimingView {
            intervals: as_nats(self.intervals@),
            last_pulse: match self.last_pulse_time {
                Some(t) => Some(t as nat),
                None => None,
            },
            rpm: self.current_rpm as nat,
        }
    }
}

impl TimingEstimator {
    /// Holds of every estimator: what it knows is well-formed.
    #[verifier::type_invariant]
    pub open spec fn wf(self) -> bool {
        self@.wf()
    }

    /// An estimator that has seen no pulse.
    pub fn new() -> (estimator: TimingEstimator)
        ensures
            estimator@ == TimingView::initial(),
            estimator@.wf(),
    {
        let estimator = TimingEstimator {
            intervals: VecDeque::with_capacity(WINDOW),
            last_pulse_time: None,
            current_rpm: 0,
        };
        assert(estimator@.intervals =~= Seq::<nat>::empty());
        estimator
    }

    /// An estimator that has seen no pulse and has set no room aside.
    fn vacant() -> (estimator: TimingEstimator)
        ensures
            estimator@ == TimingView::initial(),
    {
        let estimator = TimingEstimator {
            intervals: VecDeque::new(),
            last_pulse_time: None,
            current_rpm: 0,
        };
        assert(estimator@.intervals =~= Seq::<nat>::empty());
        estimator
    }

    /// Takes in a pulse seen at `now` milliseconds.
    pub fn record_pulse(&mut self, now: u64)
        ensures
            final(self)@ == old(self)@.after_pulse(now as nat),
            final(self)@.wf(),
    {
        proof {
            use_type_invariant(&*self);
        }
        let mut taken = TimingEstimator::vacant();
        std::mem::swap(self, &mut taken);
        let TimingEstimator { intervals: mut window, last_pulse_time, current_rpm: mut rpm } = taken;
        match last_pulse_time {
            Some(last) => {
                if now > last {
                    let delta: u64 = now - last;
                    let ghost before = window@;
                    if window.len() >= WINDOW {
                        window.pop_front();
                    }
                    window.push_back(delta);
                    assert(as_nats(window@) =~= slide(as_nats(before), delta as nat));
                    proof {
                        lemma_total_at_least_len(as_nats(window@));
                    }
                    let sum = window_total(&window);
                    let count: u128 = window.len() as u128;
                    assert(sum / count >= 1) by (nonlinear_arith)
                        requires
                            sum >= count > 0,
                    ;
                    let avg: u128 = sum / count;
                    rpm = MILLIS_PER_MINUTE / avg;
                }
            },
            None => {},
        }
        *self = TimingEstimator { intervals: window, last_pulse_time: Some(now), current_rpm: rpm };
    }

    /// The speed estimate in revolutions per minute; 0 until two pulses
    /// have come in.
    pub fn rpm(&self) -> (rpm: u128)
        ensures
            rpm == self@.rpm,
            self@.wf(),
    {
        proof {
            use_type_invariant(self);
        }
        self.current_rpm
    }

    /// Time of the newest pulse, if there was one.
    pub fn last_pulse_time(&self) -> (time: Option<u64>)
        ensures
            match time {
                Some(t) => self@.last_pulse == Some(t as nat),
                None => self@.last_pulse is None,
            },
    {
        self.last_pulse_time
    }

    /// The intervals in the window, oldest first.
    pub fn intervals(&self) -> (intervals: Vec<u64>)
        ensures
            as_nats(intervals@) == self@.intervals,
            intervals@.len() <= 5,
    {
        proof {
            use_type_invariant(self);
        }
        let mut out: Vec<u64> = Vec::new();
        let mut i: usize = 0;
        while i < self.intervals.len()
            invariant
                i <= self.intervals@.len(),
                out@ == self.intervals@.subrange(0, i as int),
            decreases self.intervals@.len() - i,
        {
            out.push(self.intervals[i]);
            assert(out@ =~= self.intervals@.subrange(0, i + 1));
            i += 1;
        }
        assert(out@ =~= self.intervals@);
        out
    }
}

/// Sum of the intervals of a window.
fn window_total(window: &VecDeque<u64>) -> (sum: u128)
    requires
        window@.len() <= 5,
    ensures
        sum == total(as_nats(window@)),
{
    let mut sum: u128 = 0;
    let mut i: usize = 0;
    while i < window.len()
        invariant
            i <= window@.len() <= 5,
            sum == total(as_nats(window@).subrange(0, i as int)),
            sum <= i * u64::MAX,
        decreases window@.len() - i,
    {
        proof {
            let next = as_nats(window@).subrange(0, i + 1);
            assert(next.drop_last() =~= as_nats(window@).subrange(0, i as int));
            assert(next.last() == window@[i as int] as nat);
        }
        sum = sum + window[i] as u128;
        i += 1;
    }
    assert(as_nats(window@).subrange(0, i as int) =~= as_nats(window@));
    sum
}

/// Degrees of forward rotation from the sensor to the target.
pub fn angle_delta_between(target_angle: i32, sensor_phase_offset: i32) -> (delta: u32)
    ensures
        delta == angle_delta(target_angle as int, sensor_phase_offset as int),
        delta < 360,
{
    let diff: i64 = target_angle as i64 - sensor_phase_offset as i64;
    // 360 * 11_930_465 lifts every difference of two angles above zero
    let lifted: u64 = (diff + 4_294_967_400) as u64;
    (lifted % 360) as u32
}

/// Nanoseconds to wait after a pulse before commanding a release that
/// takes `release_latency_ns` to happen, so that it meets the arm at
/// `target_angle`.
pub fn phase_delay(
    rpm: u128,
    sensor_phase_offset: i32,
    target_angle: i32,
    release_latency_ns: u64,
) -> (delay_ns: u64)
    ensures
        delay_ns == phase_delay_nanos(
            rpm as int,
            sensor_phase_offset as int,
            target_angle as int,
            release_latency_ns as int,
        ),
{
    if rpm == 0 {
        return 0;
    }
    let delta: u128 = angle_delta_between(target_angle, sensor_phase_offset) as u128;
    let numerator: u128 = delta * 1_000_000_000;
    let travel: u64 = if rpm > 60_000_000_000 {
        proof {
            vstd::arithmetic::div_mod::lemma_basic_div(numerator as int, 6 * rpm);
        }
        0
    } else {
        proof {
            vstd::arithmetic::div_mod::lemma_div_is_ordered_by_denominator(
                numerator as int,
                1,
                6 * rpm,
            );
        }
        (numerator / (6 * rpm)) as u64
    };
    if travel > release_latency_ns {
        travel - release_latency_ns
    } else {
        0
    }
}

/// The wait for this mechanism: sensor at [`MAGNET_POSITION_ANGLE`], release
/// after [`SERVO_PROJECTILE_RELEASE_TIME`].
pub fn calculate_delay_based_on_rpm_and_target(rpm: u128, target_angle: i32) -> (delay_ns: u64)
    ensures
        delay_ns == phase_delay_nanos(rpm as int, 45, target_angle as int, 150_000_000_000),
{
    phase_delay(rpm, MAGNET_POSITION_ANGLE, target_angle, SERVO_PROJECTILE_RELEASE_TIME)
}

/// The last `count` intervals of the window all equal `period`.
spec fn tail_is(window: Seq<nat>, count: int, period: nat) -> bool {
    &&& 0 <= count <= window.len()
    &&& forall|i: int| window.len() - count <= i < window.len() ==> window[i] == period
}

/// A window that holds `count` times the interval `period`.
pub open spec fn steady_window(count: nat, period: nat) -> Seq<nat> {
    Seq::new(count, |i: int| period)
}

/// The smaller of two numbers.
spec fn smaller(a: int, b: int) -> int {
    if a <= b {
        a
    } else {
        b
    }
}

/// A pulse keeps a well-formed state well-formed.
pub proof fn lemma_after_pulse_keeps_wf(state: TimingView, now: nat)
    requires
        state.wf(),
    ensures
        state.after_pulse(now).wf(),
{
}

/// The first pulse, and a pulse that is not later than the one before it,
/// change neither the window nor the speed.
pub proof fn lemma_degenerate_pulse_keeps_rpm(state: TimingView, now: nat)
    requires
        match state.last_pulse {
            Some(last) => now <= last,
            None => true,
        },
    ensures
        state.after_pulse(now).rpm == state.rpm,
        state.after_pulse(now).intervals == state.intervals,
        state.after_pulse(now).last_pulse == Some(now),
{
}

/// Pulses spaced `period` apart, the first of them `period` after the pulse
/// before, bring the speed to `60000 / period` with the fifth, whatever the
/// window held, and every further such pulse leaves it there.
pub proof fn lemma_rpm_settles(state: TimingView, times: Seq<nat>, period: nat)
    requires
        state.intervals.len() <= 5,
        period > 0,
        times.len() >= 5,
        state.last_pulse matches Some(last) && times[0] == last + period,
        evenly_spaced(times, period),
    ensures
        state.after_pulses(times).rpm == 60_000int / (period as int),
        state.after_pulses(times).intervals == steady_window(5, period),
{
    lemma_steady_run(state, times, period, 0);
    let after = state.after_pulses(times);
    assert(after.intervals =~= steady_window(5, period));
    lemma_rpm_of_steady(5, period);
}

/// From the start, pulses spaced `period` apart give the speed
/// `60000 / period` from the second pulse on: with the fifth, and with every
/// pulse after it.
pub proof fn lemma_rpm_settles_from_start(times: Seq<nat>, period: nat)
    requires
        period > 0,
        times.len() >= 2,
        evenly_spaced(times, period),
    ensures
        TimingView::initial().after_pulses(times).rpm == 60_000int / (period as int),
{
    let first = TimingView::initial().after_pulse(times[0]);
    let rest = times.drop_first();
    lemma_after_pulses_head(TimingView::initial(), times);
    assert(evenly_spaced(rest, period)) by {
        assert forall|i: int| 0 < i < rest.len() implies #[trigger] rest[i] == rest[i - 1]
            + period by {
            assert(times[i + 1] == times[i] + period);
        }
    }
    assert(rest[0] == times[1]);
    lemma_steady_run(first, rest, period, 0);
    let after = first.after_pulses(rest);
    let count = smaller(rest.len() as int, 5);
    assert(after.intervals =~= steady_window(count as nat, period));
    lemma_rpm_of_steady(count as nat, period);
}

/// The wait is never negative.
pub proof fn lemma_phase_delay_nonnegative(
    rpm: int,
    sensor_phase_offset: int,
    target_angle: int,
    release_latency_ns: int,
)
    ensures
        phase_delay_nanos(rpm, sensor_phase_offset, target_angle, release_latency_ns) >= 0,
{
}

/// A faster arm never lengthens the wait, and neither does a slower
/// release.
pub proof fn lemma_phase_delay_monotone(
    slow_rpm: int,
    fast_rpm: int,
    sensor_phase_offset: int,
    target_angle: int,
    short_latency_ns: int,
    long_latency_ns: int,
)
    requires
        0 < slow_rpm <= fast_rpm,
        short_latency_ns <= long_latency_ns,
    ensures
        phase_delay_nanos(fast_rpm, sensor_phase_offset, target_angle, long_latency_ns)
            <= phase_delay_nanos(slow_rpm, sensor_phase_offset, target_angle, short_latency_ns),
{
    let numerator = angle_delta(target_angle, sensor_phase_offset) * 1_000_000_000;
    vstd::arithmetic::div_mod::lemma_div_is_ordered_by_denominator(
        numerator,
        6 * slow_rpm,
        6 * fast_rpm,
    );
}

/// At rest there is nothing to wait for.
pub proof fn lemma_phase_delay_zero_at_rest(
    sensor_phase_offset: int,
    target_angle: int,
    release_latency_ns: int,
)
    ensures
        phase_delay_nanos(0, sensor_phase_offset, target_angle, release_latency_ns) == 0,
{
}

/// Whole turns added to the target do not change the way to it, which is
/// always in `[0, 360)`.
pub proof fn lemma_angle_delta_wraps(target_angle: int, sensor_phase_offset: int, turns: int)
    ensures
        angle_delta(target_angle + 360 * turns, sensor_phase_offset) == angle_delta(
            target_angle,
            sensor_phase_offset,
        ),
        0 <= angle_delta(target_angle, sensor_phase_offset) < 360,
{
    vstd::arithmetic::div_mod::lemma_mod_multiples_vanish(
        turns,
        target_angle - sensor_phase_offset,
        360,
    );
}

/// A target 10 degrees behind the sensor and one 350 degrees ahead of it are
/// the same 350 degrees of forward rotation away.
pub proof fn lemma_angle_delta_behind_sensor(sensor_phase_offset: int)
    ensures
        angle_delta(sensor_phase_offset - 10, sensor_phase_offset) == angle_delta(
            sensor_phase_offset + 350,
            sensor_phase_offset,
        ),
        angle_delta(sensor_phase_offset - 10, sensor_phase_offset) == 350,
{
}

/// With a release time of 150 seconds the wait is zero at every speed and
/// for every target: the slowest turn that can be measured, at 1 rpm, is
/// over after 60 seconds.
pub proof fn lemma_release_time_outlasts_every_turn(
    rpm: int,
    sensor_phase_offset: int,
    target_angle: int,
)
    ensures
        phase_delay_nanos(rpm, sensor_phase_offset, target_angle, 150_000_000_000) == 0,
{
    if rpm > 0 {
        let numerator = angle_delta(target_angle, sensor_phase_offset) * 1_000_000_000;
        vstd::arithmetic::div_mod::lemma_div_is_ordered_by_denominator(numerator, 6, 6 * rpm);
    }
}

/// Splits the first pulse off a run of pulses.
proof fn lemma_after_pulses_head(state: TimingView, times: Seq<nat>)
    requires
        times.len() >= 1,
    ensures
        state.after_pulses(times) == state.after_pulse(times[0]).after_pulses(
            times.drop_first(),
        ),
    decreases times.len(),
{
    let first = state.after_pulse(times[0]);
    if times.len() == 1 {
        assert(times.drop_last().len() == 0);
        assert(state.after_pulses(times.drop_last()) == state);
        assert(first.after_pulses(times.drop_first()) == first);
    } else {
        lemma_after_pulses_head(state, times.drop_last());
        assert(times.drop_last().drop_first() =~= times.drop_first().drop_last());
        assert(times.drop_last()[0] == times[0]);
        assert(times.drop_first().last() == times.last());
    }
}

/// A run of evenly spaced pulses that starts one period after the pulse
/// before: each of them pushes one more `period` into the window.
proof fn lemma_steady_run(state: TimingView, times: Seq<nat>, period: nat, steady: int)
    requires
        state.intervals.len() <= 5,
        tail_is(state.intervals, steady, period),
        period > 0,
        state.last_pulse is Some,
        times.len() > 0 ==> times[0] == state.last_pulse->0 + period,
        evenly_spaced(times, period),
    ensures
        ({
            let after = state.after_pulses(times);
            &&& after.last_pulse == Some(
                if times.len() == 0 {
                    state.last_pulse->0
                } else {
                    times.last()
                },
            )
            &&& after.intervals.len() == smaller((state.intervals.len() + times.len()) as int, 5)
            &&& tail_is(after.intervals, smaller(steady + times.len(), 5), period)
            &&& times.len() > 0 ==> after.rpm == rpm_of(after.intervals)
        }),
    decreases times.len(),
{
    if times.len() > 0 {
        let earlier = times.drop_last();
        assert(evenly_spaced(earlier, period)) by {
            assert forall|i: int| 0 < i < earlier.len() implies #[trigger] earlier[i]
                == earlier[i - 1] + period by {
                assert(times[i] == times[i - 1] + period);
            }
        }
        lemma_steady_run(state, earlier, period, steady);
        let before = state.after_pulses(earlier);
        if earlier.len() > 0 {
            assert(times[times.len() - 1] == times[times.len() - 2] + period);
            assert(earlier.last() == times[times.len() - 2]);
        }
        assert(times.last() == before.last_pulse->0 + period);
        let window = slide(before.intervals, period);
        assert(state.after_pulses(times).intervals == window);
    }
}

/// Sum of a window that holds `count` times the same interval.
proof fn lemma_total_of_steady(count: nat, period: nat)
    ensures
        total(steady_window(count, period)) == count * period,
    decreases count,
{
    if count > 0 {
        let window = steady_window(count, period);
        assert(window.drop_last() =~= steady_window((count - 1) as nat, period));
        lemma_total_of_steady((count - 1) as nat, period);
        assert(((count - 1) as nat) * period + period == count * period) by (nonlinear_arith)
            requires
                count > 0,
        ;
    } else {
        assert(count * period == 0) by (nonlinear_arith)
            requires
                count == 0,
        ;
    }
}

/// Speed for a window that holds `count` times the same interval.
proof fn lemma_rpm_of_steady(count: nat, period: nat)
    requires
        count > 0,
        period > 0,
    ensures
        rpm_of(steady_window(count, period)) == 60_000int / (period as int),
{
    lemma_total_of_steady(count, period);
    vstd::arithmetic::div_mod::lemma_div_by_multiple(period as int, count as int);
    assert(period * count == count * period) by (nonlinear_arith);
}

/// Intervals that are all positive add up to at least their number.
proof fn lemma_total_at_least_len(intervals: Seq<nat>)
    requires
        forall|i: int| 0 <= i < intervals.len() ==> intervals[i] > 0,
    ensures
        total(intervals) >= intervals.len(),
    decreases intervals.len(),
{
    if intervals.len() > 0 {
        lemma_total_at_least_len(intervals.drop_last());
    }
}

} // verus!
