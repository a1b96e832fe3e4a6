//! Temperature target engine: a static setpoint, a staged ramp profile and a
//! relay-feedback tuning run, together with the thermal-runaway detector.
//!
//! Time is counted in whole milliseconds and temperatures in whole degrees
//! Celsius, so every target is an exact integer function of the state.
use vstd::prelude::*;

verus! {

/// Degrees the measurement must trail the target by before the runaway
/// detector starts counting.
pub const RUNAWAY_TARGET_TEMP_THRESHOLD: u16 = 1;

/// Degrees the smoothed maximum must gain per interval while heating.
pub const RUNAWAY_TEMP_THRESHOLD: u16 = 2;

/// Width of the relay band used while tuning, in degrees.
pub const TUNE_PID_DELTA: u16 = 5;

/// Length of one runaway observation interval, in milliseconds.
pub const RUNAWAY_INTERVAL_MS: u64 = 5000;

/// A value whose content is kept out of sight.
#[derive(Clone)]
pub struct Hidden<T>(T);

impl<T> Hidden<T> {
    /// The value inside.
    pub closed spec fn content(self) -> T {
        self.0
    }

    /// Puts `value` out of sight.
    pub fn new(value: T) -> (r: Self)
        ensures
            r.content() == value,
    {
        Hidden(value)
    }

    /// Takes the value out again.
    pub fn into_inner(self) -> (r: T)
        ensures
            r == self.content(),
    {
        self.0
    }
}

/// Sub-states of the staged ramp profile, in the order they are visited.
#[derive(Clone, Copy, Debug, PartialEq, Eq, Structural)]
pub enum TemperatureProfileAState {
    FirstRamp,
    FirstRampSync,
    FirstRampExtra,
    PreHeat,
    PreHeatExtra,
    SecondRamp,
    SecondRampSync,
    SecondRampExtra,
    PeakRamp,
    PeakRampSync,
    PeakRampExtra,
    Cooldown,
}

impl Default for TemperatureProfileAState {
    fn default() -> (r: Self)
        ensures
            r == TemperatureProfileAState::FirstRamp,
    {
        TemperatureProfileAState::FirstRamp
    }
}

/// Sub-states of the relay-feedback tuning run. `n` counts the completed
/// cooling phases.
#[derive(Clone, Copy, Debug, PartialEq, Eq, Structural)]
pub enum TemperatureAutoCalibrateState {
    FirstRamp,
    PeakHeating { n: u8 },
    PeakCooling { n: u8 },
    Cooldown,
}

impl Default for TemperatureAutoCalibrateState {
    fn default() -> (r: Self)
        ensures
            r == TemperatureAutoCalibrateState::FirstRamp,
    {
        TemperatureAutoCalibrateState::FirstRamp
    }
}

/// The control strategy, each variant carrying its own sub-state.
#[allow(inconsistent_fields)]
#[derive(Clone, Copy, Debug, PartialEq, Eq, Structural)]
pub enum TemperatureProfileEnum {
    Static,
    ProfileA { state: TemperatureProfileAState },
    AutoCalibrate { state: TemperatureAutoCalibrateState },
}

impl TemperatureProfileEnum {
    /// The same strategy in its initial sub-state.
    pub open spec fn restarted(self) -> TemperatureProfileEnum {
        match self {
            TemperatureProfileEnum::Static => TemperatureProfileEnum::Static,
            TemperatureProfileEnum::ProfileA { .. } => TemperatureProfileEnum::ProfileA {
                state: TemperatureProfileAState::FirstRamp,
            },
            TemperatureProfileEnum::AutoCalibrate { .. } => TemperatureProfileEnum::AutoCalibrate {
                state: TemperatureAutoCalibrateState::FirstRamp,
            },
        }
    }

    /// A cooling phase can always be counted: its counter is below the
    /// largest `u8`.
    pub open spec fn counter_in_range(self) -> bool {
        match self {
            TemperatureProfileEnum::AutoCalibrate {
                state: TemperatureAutoCalibrateState::PeakCooling { n },
            } => n < u8::MAX,
            _ => true,
        }
    }

    /// Puts the strategy back into its initial sub-state.
    pub fn reset(&mut self)
        ensures
            *final(self) == old(self).restarted(),
            final(self).counter_in_range(),
    {
        match *self {
            TemperatureProfileEnum::Static => {},
            TemperatureProfileEnum::ProfileA { .. } => {
                *self = TemperatureProfileEnum::ProfileA {
                    state: TemperatureProfileAState::FirstRamp,
                };
            },
            TemperatureProfileEnum::AutoCalibrate { .. } => {
                *self = TemperatureProfileEnum::AutoCalibrate {
                    state: TemperatureAutoCalibrateState::FirstRamp,
                };
            },
        }
    }

    /// Tests `counter_in_range`.
    pub fn is_counter_in_range(&self) -> (r: bool)
        ensures
            r == self.counter_in_range(),
    {
        match *self {
            TemperatureProfileEnum::AutoCalibrate {
                state: TemperatureAutoCalibrateState::PeakCooling { n },
            } => n < u8::MAX,
            _ => true,
        }
    }
}

/// `base + offset`, held inside the range of `u16`.
pub open spec fn shifted(base: int, offset: int) -> int {
    if base + offset < 0 {
        0
    } else if base + offset > u16::MAX {
        u16::MAX as int
    } else {
        base + offset
    }
}

/// `value` with the lead offset and then the temperature offset applied,
/// each saturating.
pub open spec fn with_offsets(value: int, lead_offset: int, temp_offset: int) -> int {
    shifted(shifted(value, lead_offset), temp_offset)
}

/// Adds a signed offset to a temperature, saturating at both ends.
pub fn add_offset(base: u16, offset: i16) -> (r: u16)
    ensures
        r == shifted(base as int, offset as int),
{
    let sum: i32 = base as i32 + offset as i32;
    if sum < 0 {
        0
    } else if sum > 65535 {
        u16::MAX
    } else {
        sum as u16
    }
}

/// An extreme temperature of one relay phase and the time it was recorded.
#[derive(Clone, Copy, Debug, PartialEq, Eq, Structural)]
pub struct Extremum {
    pub temp: u16,
    pub at_ms: u64,
}

/// Progress report of the tuning run: the two latest extrema, from which the
/// oscillation's amplitude and period follow.
#[derive(Clone, Copy, Debug, PartialEq, Eq, Structural)]
pub struct TuneProgress {
    pub iteration: u8,
    pub older: Extremum,
    pub newer: Extremum,
    pub done: bool,
}

impl TuneProgress {
    /// Distance between the two extreme temperatures: twice the amplitude.
    pub open spec fn spec_temp_swing(self) -> int {
        if self.newer.temp >= self.older.temp {
            self.newer.temp - self.older.temp
        } else {
            self.older.temp - self.newer.temp
        }
    }

    /// Time from the older extremum to the newer one, 0 where the newer one
    /// carries the earlier time.
    pub open spec fn spec_time_span_ms(self) -> int {
        if self.newer.at_ms >= self.older.at_ms {
            self.newer.at_ms - self.older.at_ms
        } else {
            0
        }
    }

    /// Distance between the two extreme temperatures.
    pub fn temp_swing(&self) -> (r: u16)
        ensures
            r == self.spec_temp_swing(),
    {
        if self.newer.temp >= self.older.temp {
            self.newer.temp - self.older.temp
        } else {
            self.older.temp - self.newer.temp
        }
    }

    /// Time from the older extremum to the newer one.
    pub fn time_span_ms(&self) -> (r: u64)
        ensures
            r == self.spec_time_span_ms(),
    {
        if self.newer.at_ms >= self.older.at_ms {
            self.newer.at_ms - self.older.at_ms
        } else {
            0
        }
    }
}

/// The fault raised when heating fails to move the temperature.
#[derive(Clone, Copy, Debug, PartialEq, Eq, Structural)]
pub struct ThermalRunaway {
    /// Smoothed maximum at the end of the interval.
    pub reached: u16,
    /// Value the smoothed maximum had to reach.
    pub required: u32,
}

/// Everything the engine remembers.
#[derive(Clone, Copy, Debug, PartialEq, Eq, Structural)]
pub struct ProfileState {
    pub peak: u16,
    pub profile: TemperatureProfileEnum,
    pub elapsed_ms: u64,
    pub state_start_ms: u64,
    pub measured: u16,
    pub wait_time_ms: u64,
    pub extra_time_ms: u64,
    pub lead_offset: i16,
    pub temp_offset: i16,
    pub rolling_max: u16,
    pub last_target: u16,
    pub last_max: u16,
    pub last_check_ms: u64,
    pub phase_extreme: u16,
    pub older: Extremum,
    pub newer: Extremum,
}

/// Position of a ramp sub-state in the fixed order.
pub open spec fn ramp_rank(state: TemperatureProfileAState) -> nat {
    match state {
        TemperatureProfileAState::FirstRamp => 0,
        TemperatureProfileAState::FirstRampSync => 1,
        TemperatureProfileAState::FirstRampExtra => 2,
        TemperatureProfileAState::PreHeat => 3,
        TemperatureProfileAState::PreHeatExtra => 4,
        TemperatureProfileAState::SecondRamp => 5,
        TemperatureProfileAState::SecondRampSync => 6,
        TemperatureProfileAState::SecondRampExtra => 7,
        TemperatureProfileAState::PeakRamp => 8,
        TemperatureProfileAState::PeakRampSync => 9,
        TemperatureProfileAState::PeakRampExtra => 10,
        TemperatureProfileAState::Cooldown => 11,
    }
}

/// The sub-state that follows `state`; the last one follows itself.
pub open spec fn ramp_successor(state: TemperatureProfileAState) -> TemperatureProfileAState {
    match state {
        TemperatureProfileAState::FirstRamp => TemperatureProfileAState::FirstRampSync,
        TemperatureProfileAState::FirstRampSync => TemperatureProfileAState::FirstRampExtra,
        TemperatureProfileAState::FirstRampExtra => TemperatureProfileAState::PreHeat,
        TemperatureProfileAState::PreHeat => TemperatureProfileAState::PreHeatExtra,
        TemperatureProfileAState::PreHeatExtra => TemperatureProfileAState::SecondRamp,
        TemperatureProfileAState::SecondRamp => TemperatureProfileAState::SecondRampSync,
        TemperatureProfileAState::SecondRampSync => TemperatureProfileAState::SecondRampExtra,
        TemperatureProfileAState::SecondRampExtra => TemperatureProfileAState::PeakRamp,
        TemperatureProfileAState::PeakRamp => TemperatureProfileAState::PeakRampSync,
        TemperatureProfileAState::PeakRampSync => TemperatureProfileAState::PeakRampExtra,
        TemperatureProfileAState::PeakRampExtra => TemperatureProfileAState::Cooldown,
        TemperatureProfileAState::Cooldown => TemperatureProfileAState::Cooldown,
    }
}

impl ProfileState {
    /// Timestamps never lie in the future and the tuning counter has room.
    pub open spec fn wf(self) -> bool {
        &&& self.state_start_ms <= self.elapsed_ms
        &&& self.last_check_ms <= self.elapsed_ms
        &&& self.profile.counter_in_range()
    }

    /// The state a fresh engine starts in.
    pub open spec fn initial(
        peak: u16,
        profile: TemperatureProfileEnum,
        wait_time_ms: u64,
        extra_time_ms: u64,
        lead_offset: i16,
        temp_offset: i16,
    ) -> ProfileState {
        ProfileState {
            peak,
            profile,
            elapsed_ms: 0,
            state_start_ms: 0,
            measured: 0,
            wait_time_ms,
            extra_time_ms,
            lead_offset,
            temp_offset,
            rolling_max: 0,
            last_target: 0,
            last_max: 0,
            last_check_ms: 0,
            phase_extreme: 0,
            older: Extremum { temp: 0, at_ms: 0 },
            newer: Extremum { temp: 0, at_ms: 0 },
        }
    }

    /// The state after a restart: clocks, measurement and runaway bookkeeping
    /// cleared, the strategy in its initial sub-state, settings kept.
    pub open spec fn restarted(self) -> ProfileState {
        ProfileState {
            profile: self.profile.restarted(),
            elapsed_ms: 0,
            state_start_ms: 0,
            measured: 0,
            last_target: 0,
            last_check_ms: 0,
            last_max: 0,
            rolling_max: 0,
            ..self
        }
    }

    /// Milliseconds spent in the current sub-state.
    pub open spec fn in_state_ms(self) -> int {
        self.elapsed_ms - self.state_start_ms
    }

    /// Whether the ramp sub-state `state` is left at this call.
    pub open spec fn ramp_gate_open(self, state: TemperatureProfileAState) -> bool {
        match state {
            TemperatureProfileAState::FirstRamp => self.elapsed_ms >= 38_000,
            TemperatureProfileAState::FirstRampSync => self.in_state_ms() >= self.wait_time_ms
                || self.measured >= shifted(150, self.temp_offset as int),
            TemperatureProfileAState::FirstRampExtra => self.in_state_ms() >= self.extra_time_ms,
            TemperatureProfileAState::PreHeat => self.in_state_ms() >= 80_000,
            TemperatureProfileAState::PreHeatExtra => self.in_state_ms() >= self.extra_time_ms,
            TemperatureProfileAState::SecondRamp => self.in_state_ms() >= 13_000,
            TemperatureProfileAState::SecondRampSync => self.in_state_ms() >= self.wait_time_ms
                || self.measured >= shifted(220, self.temp_offset as int),
            TemperatureProfileAState::SecondRampExtra => self.in_state_ms() >= self.extra_time_ms,
            TemperatureProfileAState::PeakRamp => self.in_state_ms() >= 20_000,
            TemperatureProfileAState::PeakRampSync => self.in_state_ms() >= self.wait_time_ms
                || self.measured >= shifted(self.peak as int, self.temp_offset as int),
            TemperatureProfileAState::PeakRampExtra => self.in_state_ms() >= self.extra_time_ms,
            TemperatureProfileAState::Cooldown => false,
        }
    }

    /// Degrees to climb in the last ramp: from 220 up to the peak, 0 where
    /// the peak lies below.
    pub open spec fn peak_rise(self) -> int {
        if self.peak >= 220 {
            self.peak - 220
        } else {
            0
        }
    }

    /// Milliseconds of progress in a ramp of `duration_ms`, counted from
    /// `since_ms` and held at the ramp's end.
    pub open spec fn ramp_progress_ms(self, since_ms: int, duration_ms: int) -> int {
        if self.elapsed_ms - since_ms >= duration_ms {
            duration_ms
        } else {
            self.elapsed_ms - since_ms
        }
    }

    /// Target of the ramp sub-state `state` before the offsets are applied:
    /// 4 degrees per second for 38 s from the start of the run, 150 to 180
    /// over 80 s, 180 to 220 over 13 s, 220 to the peak over 20 s, and the
    /// plateaus between them.
    pub open spec fn ramp_base(self, state: TemperatureProfileAState) -> int {
        let since = self.state_start_ms as int;
        match state {
            TemperatureProfileAState::FirstRamp => self.ramp_progress_ms(0, 38_000) * 4 / 1000,
            TemperatureProfileAState::FirstRampSync => 150,
            TemperatureProfileAState::FirstRampExtra => 150,
            TemperatureProfileAState::PreHeat => 150 + self.ramp_progress_ms(since, 80_000) * 30
                / 80_000,
            TemperatureProfileAState::PreHeatExtra => 180,
            TemperatureProfileAState::SecondRamp => 180 + self.ramp_progress_ms(since, 13_000) * 40
                / 13_000,
            TemperatureProfileAState::SecondRampSync => 220,
            TemperatureProfileAState::SecondRampExtra => 220,
            TemperatureProfileAState::PeakRamp => 220 + self.peak_rise() * self.ramp_progress_ms(
                since,
                20_000,
            ) / 20_000,
            TemperatureProfileAState::PeakRampSync => self.peak as int,
            TemperatureProfileAState::PeakRampExtra => self.peak as int,
            TemperatureProfileAState::Cooldown => 0,
        }
    }

    /// Target of the ramp sub-state `state`: the base value with both offsets
    /// applied, and plain 0 while cooling down.
    pub open spec fn ramp_value(self, state: TemperatureProfileAState) -> int {
        if state == TemperatureProfileAState::Cooldown {
            0
        } else {
            with_offsets(self.ramp_base(state), self.lead_offset as int, self.temp_offset as int)
        }
    }

    /// The ramp sub-state after the transition that is due, if any.
    pub open spec fn ramp_next(self, state: TemperatureProfileAState) -> TemperatureProfileAState {
        if self.ramp_gate_open(state) {
            ramp_successor(state)
        } else {
            state
        }
    }

    /// The state after the transition that is due in sub-state `state`, if
    /// any: a sub-state that is entered starts at the present time.
    pub open spec fn ramp_entered(self, state: TemperatureProfileAState) -> ProfileState {
        if self.ramp_gate_open(state) {
            ProfileState {
                profile: TemperatureProfileEnum::ProfileA { state: ramp_successor(state) },
                state_start_ms: self.elapsed_ms,
                ..self
            }
        } else {
            self
        }
    }

    /// Target returned by the ramp profile in sub-state `state`: the
    /// transition that is due is made first, and the target is that of the
    /// sub-state the profile is in then.
    pub open spec fn ramp_target(self, state: TemperatureProfileAState) -> int {
        self.ramp_entered(state).ramp_value(self.ramp_next(state))
    }

    /// The state after asking the ramp profile for a target.
    pub open spec fn after_ramp(self, state: TemperatureProfileAState) -> ProfileState {
        ProfileState { last_target: self.ramp_target(state) as u16, ..self.ramp_entered(state) }
    }

    /// Lower edge of the relay band.
    pub open spec fn relay_low(self) -> int {
        if self.peak >= TUNE_PID_DELTA {
            self.peak - TUNE_PID_DELTA
        } else {
            0
        }
    }

    /// Whether the tuning sub-state `state` is left at this call.
    pub open spec fn tune_switches(self, state: TemperatureAutoCalibrateState) -> bool {
        match state {
            TemperatureAutoCalibrateState::FirstRamp => self.measured >= self.peak,
            TemperatureAutoCalibrateState::PeakHeating { .. } => self.measured >= self.peak,
            TemperatureAutoCalibrateState::PeakCooling { .. } => self.measured <= self.relay_low(),
            TemperatureAutoCalibrateState::Cooldown => false,
        }
    }

    /// Target returned in the tuning sub-state `state`.
    pub open spec fn tune_target(self, state: TemperatureAutoCalibrateState) -> int {
        match state {
            TemperatureAutoCalibrateState::FirstRamp => self.peak as int,
            TemperatureAutoCalibrateState::PeakHeating { .. } => self.peak as int,
            TemperatureAutoCalibrateState::PeakCooling { .. } => self.relay_low(),
            TemperatureAutoCalibrateState::Cooldown => 0,
        }
    }

    /// The tuning sub-state that follows `state` when it is left.
    pub open spec fn tune_successor(
        state: TemperatureAutoCalibrateState,
    ) -> TemperatureAutoCalibrateState {
        match state {
            TemperatureAutoCalibrateState::FirstRamp => TemperatureAutoCalibrateState::PeakCooling {
                n: 0,
            },
            TemperatureAutoCalibrateState::PeakHeating { n } => if n >= 12 {
                TemperatureAutoCalibrateState::Cooldown
            } else {
                TemperatureAutoCalibrateState::PeakCooling { n }
            },
            TemperatureAutoCalibrateState::PeakCooling { n } => {
                TemperatureAutoCalibrateState::PeakHeating { n: (n + 1) as u8 }
            },
            TemperatureAutoCalibrateState::Cooldown => TemperatureAutoCalibrateState::Cooldown,
        }
    }

    /// The extreme of the running phase after seeing the latest measurement:
    /// the lowest while heating, the highest while cooling.
    pub open spec fn tracked_extreme(self, state: TemperatureAutoCalibrateState) -> u16 {
        match state {
            TemperatureAutoCalibrateState::PeakHeating { .. } => if self.measured
                < self.phase_extreme {
                self.measured
            } else {
                self.phase_extreme
            },
            TemperatureAutoCalibrateState::PeakCooling { .. } => if self.measured
                > self.phase_extreme {
                self.measured
            } else {
                self.phase_extreme
            },
            _ => self.phase_extreme,
        }
    }

    /// The tracker's starting value for the phase that follows `state`: the
    /// lowest value before a cooling phase, which looks for a maximum, and the
    /// highest value before a heating phase, which looks for a minimum; leaving
    /// the first ramp starts from the highest value.
    pub open spec fn fresh_extreme(state: TemperatureAutoCalibrateState) -> u16 {
        match state {
            TemperatureAutoCalibrateState::PeakHeating { .. } => 0,
            _ => u16::MAX,
        }
    }

    /// The report sent when the tuning sub-state `state` is left, if any: none
    /// before four cooling phases are complete.
    pub open spec fn tune_report(self, state: TemperatureAutoCalibrateState) -> Option<
        TuneProgress,
    > {
        let latest = Extremum { temp: self.phase_extreme, at_ms: self.elapsed_ms };
        match state {
            TemperatureAutoCalibrateState::PeakHeating { n } => if self.tune_switches(state) && n
                >= 4 {
                Some(TuneProgress { iteration: n, older: self.newer, newer: latest, done: n >= 12 })
            } else {
                None
            },
            TemperatureAutoCalibrateState::PeakCooling { n } => if self.tune_switches(state) && n
                >= 4 {
                Some(TuneProgress { iteration: n, older: self.newer, newer: latest, done: false })
            } else {
                None
            },
            _ => None,
        }
    }

    /// The state after asking the tuning run for a target.
    pub open spec fn after_tune(self, state: TemperatureAutoCalibrateState) -> ProfileState {
        let target = self.tune_target(state) as u16;
        match state {
            TemperatureAutoCalibrateState::Cooldown => ProfileState { last_target: target, ..self },
            TemperatureAutoCalibrateState::FirstRamp => if self.tune_switches(state) {
                ProfileState {
                    profile: TemperatureProfileEnum::AutoCalibrate {
                        state: Self::tune_successor(state),
                    },
                    phase_extreme: Self::fresh_extreme(state),
                    last_target: target,
                    ..self
                }
            } else {
                ProfileState { last_target: target, ..self }
            },
            _ => if self.tune_switches(state) {
                ProfileState {
                    profile: TemperatureProfileEnum::AutoCalibrate {
                        state: Self::tune_successor(state),
                    },
                    older: self.newer,
                    newer: Extremum { temp: self.phase_extreme, at_ms: self.elapsed_ms },
                    phase_extreme: Self::fresh_extreme(state),
                    last_target: target,
                    ..self
                }
            } else {
                ProfileState {
                    phase_extreme: self.tracked_extreme(state),
                    last_target: target,
                    ..self
                }
            },
        }
    }

    /// Target returned by the active strategy.
    pub open spec fn target(self) -> int {
        match self.profile {
            TemperatureProfileEnum::Static => self.peak as int,
            TemperatureProfileEnum::ProfileA { state } => self.ramp_target(state),
            TemperatureProfileEnum::AutoCalibrate { state } => self.tune_target(state),
        }
    }

    /// The state after asking the active strategy for a target.
    pub open spec fn after_target(self) -> ProfileState {
        match self.profile {
            TemperatureProfileEnum::Static => ProfileState { last_target: self.peak, ..self },
            TemperatureProfileEnum::ProfileA { state } => self.after_ramp(state),
            TemperatureProfileEnum::AutoCalibrate { state } => self.after_tune(state),
        }
    }

    /// The report that goes with the target, if any.
    pub open spec fn report(self) -> Option<TuneProgress> {
        match self.profile {
            TemperatureProfileEnum::AutoCalibrate { state } => self.tune_report(state),
            _ => None,
        }
    }
}


impl ProfileState {
    /// The clock after `dt_ms` more milliseconds; it stops at the largest
    /// `u64`.
    pub open spec fn clock_after(self, dt_ms: u64) -> u64 {
        if self.elapsed_ms + dt_ms > u64::MAX {
            u64::MAX
        } else {
            (self.elapsed_ms + dt_ms) as u64
        }
    }

    /// The smoothed maximum after a measurement: nine parts of a reading that
    /// exceeds it and one part of the old value.
    pub open spec fn smoothed_max(self, temp: u16) -> u16 {
        if temp > self.rolling_max {
            ((temp * 9 + self.rolling_max) / 10) as u16
        } else {
            self.rolling_max
        }
    }

    /// The state once the clock is advanced and the measurement recorded.
    pub open spec fn measured_at(self, dt_ms: u64, temp: u16) -> ProfileState {
        ProfileState {
            elapsed_ms: self.clock_after(dt_ms),
            measured: temp,
            rolling_max: self.smoothed_max(temp),
            ..self
        }
    }

    /// The measurement lies more than the threshold below the last target.
    pub open spec fn trails_target(self) -> bool {
        self.measured + RUNAWAY_TARGET_TEMP_THRESHOLD < self.last_target
    }

    /// A whole observation interval has passed since the last check.
    pub open spec fn interval_over(self) -> bool {
        self.elapsed_ms - self.last_check_ms >= RUNAWAY_INTERVAL_MS
    }

    /// The smoothed maximum has not gained the required degrees over the
    /// previous interval's maximum.
    pub open spec fn stalled(self) -> bool {
        self.rolling_max < self.last_max + RUNAWAY_TEMP_THRESHOLD
    }

    /// Heating has failed to move the temperature for a whole interval.
    pub open spec fn runaway(self) -> bool {
        self.trails_target() && self.interval_over() && self.stalled()
    }

    /// The bookkeeping after a check that found no fault.
    pub open spec fn after_check(self) -> ProfileState {
        if !self.trails_target() {
            ProfileState { last_max: 0, rolling_max: self.last_target, ..self }
        } else if self.interval_over() && !self.stalled() {
            ProfileState { last_check_ms: self.elapsed_ms, last_max: self.rolling_max, ..self }
        } else {
            self
        }
    }

    /// The check runs while the heater drives and no tuning run is active.
    pub open spec fn watches_runaway(self, heating: bool) -> bool {
        heating && !(self.profile is AutoCalibrate)
    }

    /// The fault that an update raises, if any.
    pub open spec fn update_fault(self, dt_ms: u64, temp: u16, heating: bool) -> Option<
        ThermalRunaway,
    > {
        let m = self.measured_at(dt_ms, temp);
        if m.watches_runaway(heating) && m.runaway() {
            Some(
                ThermalRunaway {
                    reached: m.rolling_max,
                    required: (m.last_max + RUNAWAY_TEMP_THRESHOLD) as u32,
                },
            )
        } else {
            None
        }
    }

    /// The state after an update.
    pub open spec fn after_update(self, dt_ms: u64, temp: u16, heating: bool) -> ProfileState {
        let m = self.measured_at(dt_ms, temp);
        if m.watches_runaway(heating) && !m.runaway() {
            m.after_check()
        } else {
            m
        }
    }
}

/// The sub-state that follows `state`.
fn next_ramp_state(state: TemperatureProfileAState) -> (r: TemperatureProfileAState)
    ensures
        r == ramp_successor(state),
{
    match state {
        TemperatureProfileAState::FirstRamp => TemperatureProfileAState::FirstRampSync,
        TemperatureProfileAState::FirstRampSync => TemperatureProfileAState::FirstRampExtra,
        TemperatureProfileAState::FirstRampExtra => TemperatureProfileAState::PreHeat,
        TemperatureProfileAState::PreHeat => TemperatureProfileAState::PreHeatExtra,
        TemperatureProfileAState::PreHeatExtra => TemperatureProfileAState::SecondRamp,
        TemperatureProfileAState::SecondRamp => TemperatureProfileAState::SecondRampSync,
        TemperatureProfileAState::SecondRampSync => TemperatureProfileAState::SecondRampExtra,
        TemperatureProfileAState::SecondRampExtra => TemperatureProfileAState::PeakRamp,
        TemperatureProfileAState::PeakRamp => TemperatureProfileAState::PeakRampSync,
        TemperatureProfileAState::PeakRampSync => TemperatureProfileAState::PeakRampExtra,
        TemperatureProfileAState::PeakRampExtra => TemperatureProfileAState::Cooldown,
        TemperatureProfileAState::Cooldown => TemperatureProfileAState::Cooldown,
    }
}

/// The temperature target engine.
pub struct TemperatureProfile {
    state: ProfileState,
}

impl View for TemperatureProfile {
    type V = ProfileState;

    closed spec fn view(&self) -> ProfileState {
        self.state
    }
}

impl TemperatureProfile {
    #[verifier::type_invariant]
    spec fn well_formed(self) -> bool {
        self.state.wf()
    }

    /// A fresh engine with the given peak, strategy and settings.
    pub fn new(
        peak: u16,
        profile: TemperatureProfileEnum,
        temp_wait_time_ms: u64,
        temp_extra_time_ms: u64,
        temp_lead_offset: i16,
        temp_offset: i16,
    ) -> (r: Self)
        requires
            profile.counter_in_range(),
        ensures
            r@ == ProfileState::initial(
                peak,
                profile,
                temp_wait_time_ms,
                temp_extra_time_ms,
                temp_lead_offset,
                temp_offset,
            ),
            r@.wf(),
    {
        TemperatureProfile {
            state: ProfileState {
                peak,
                profile,
                elapsed_ms: 0,
                state_start_ms: 0,
                measured: 0,
                wait_time_ms: temp_wait_time_ms,
                extra_time_ms: temp_extra_time_ms,
                lead_offset: temp_lead_offset,
                temp_offset,
                rolling_max: 0,
                last_target: 0,
                last_max: 0,
                last_check_ms: 0,
                phase_extreme: 0,
                older: Extremum { temp: 0, at_ms: 0 },
                newer: Extremum { temp: 0, at_ms: 0 },
            },
        }
    }

    /// A copy of everything the engine remembers.
    pub fn snapshot(&self) -> (r: ProfileState)
        ensures
            r == self@,
            r.wf(),
    {
        proof {
            use_type_invariant(self);
        }
        self.state
    }

    /// Replaces the four timing settings and leaves the run untouched.
    pub fn set_settings(
        &mut self,
        temp_wait_time_ms: u64,
        temp_extra_time_ms: u64,
        temp_lead_offset: i16,
        temp_offset: i16,
    )
        ensures
            final(self)@ == (ProfileState {
                wait_time_ms: temp_wait_time_ms,
                extra_time_ms: temp_extra_time_ms,
                lead_offset: temp_lead_offset,
                temp_offset: temp_offset,
                ..old(self)@
            }),
    {
        proof {
            use_type_invariant(&*self);
        }
        let mut s: ProfileState = self.state;
        s.wait_time_ms = temp_wait_time_ms;
        s.extra_time_ms = temp_extra_time_ms;
        s.lead_offset = temp_lead_offset;
        s.temp_offset = temp_offset;
        self.state = s;
    }

    /// Replaces the strategy and leaves everything else untouched.
    pub fn set_profile(&mut self, profile: TemperatureProfileEnum)
        requires
            profile.counter_in_range(),
        ensures
            final(self)@ == (ProfileState { profile: profile, ..old(self)@ }),
    {
        proof {
            use_type_invariant(&*self);
        }
        let mut s: ProfileState = self.state;
        s.profile = profile;
        self.state = s;
    }

    /// Replaces the peak temperature and leaves everything else untouched.
    pub fn set_peak(&mut self, peak: u16)
        ensures
            final(self)@ == (ProfileState { peak: peak, ..old(self)@ }),
    {
        proof {
            use_type_invariant(&*self);
        }
        let mut s: ProfileState = self.state;
        s.peak = peak;
        self.state = s;
    }

    /// Restarts the run: the clock returns to 0 and the strategy to its
    /// initial sub-state, whatever went before.
    pub fn reset(&mut self)
        ensures
            final(self)@ == old(self)@.restarted(),
            final(self)@.elapsed_ms == 0,
            final(self)@.profile == old(self)@.profile.restarted(),
    {
        let mut s: ProfileState = self.state;
        s.elapsed_ms = 0;
        s.profile.reset();
        s.state_start_ms = 0;
        s.measured = 0;
        s.last_target = 0;
        s.last_check_ms = 0;
        s.last_max = 0;
        s.rolling_max = 0;
        self.state = s;
    }

    /// The target of the moment. Asking for it also moves the active strategy
    /// on to its next sub-state where that is due, and yields the tuning
    /// report that falls due with it.
    pub fn get_current_target(&mut self) -> (r: (u16, Option<TuneProgress>))
        ensures
            r.0 == old(self)@.target(),
            r.1 == old(self)@.report(),
            final(self)@ == old(self)@.after_target(),
            final(self)@.last_target == r.0,
            old(self)@.profile is Static ==> r.0 == old(self)@.peak,
    {
        proof {
            use_type_invariant(&*self);
        }
        let profile: TemperatureProfileEnum = self.state.profile;
        match profile {
            TemperatureProfileEnum::Static => {
                let target: u16 = self.get_current_target_static();
                let mut s: ProfileState = self.state;
                s.last_target = target;
                self.state = s;
                (target, None)
            },
            TemperatureProfileEnum::ProfileA { state } => {
                let target: u16 = self.get_current_target_prof_a(state);
                (target, None)
            },
            TemperatureProfileEnum::AutoCalibrate { state } => {
                self.get_current_autocalibrate(state)
            },
        }
    }

    fn get_current_target_static(&self) -> (r: u16)
        ensures
            r == self@.peak,
    {
        self.state.peak
    }

    /// Whether the ramp sub-state `state` is left at this call.
    fn ramp_gate(&self, state: TemperatureProfileAState) -> (r: bool)
        ensures
            r == self@.ramp_gate_open(state),
    {
        proof {
            use_type_invariant(self);
        }
        let s: ProfileState = self.state;
        let in_state: u64 = s.elapsed_ms - s.state_start_ms;
        match state {
            TemperatureProfileAState::FirstRamp => s.elapsed_ms >= 38_000,
            TemperatureProfileAState::FirstRampSync => in_state >= s.wait_time_ms || s.measured
                >= add_offset(150, s.temp_offset),
            TemperatureProfileAState::FirstRampExtra => in_state >= s.extra_time_ms,
            TemperatureProfileAState::PreHeat => in_state >= 80_000,
            TemperatureProfileAState::PreHeatExtra => in_state >= s.extra_time_ms,
            TemperatureProfileAState::SecondRamp => in_state >= 13_000,
            TemperatureProfileAState::SecondRampSync => in_state >= s.wait_time_ms || s.measured
                >= add_offset(220, s.temp_offset),
            TemperatureProfileAState::SecondRampExtra => in_state >= s.extra_time_ms,
            TemperatureProfileAState::PeakRamp => in_state >= 20_000,
            TemperatureProfileAState::PeakRampSync => in_state >= s.wait_time_ms || s.measured
                >= add_offset(s.peak, s.temp_offset),
            TemperatureProfileAState::PeakRampExtra => in_state >= s.extra_time_ms,
            TemperatureProfileAState::Cooldown => false,
        }
    }

    /// The target of the ramp sub-state `state` before the offsets.
    fn ramp_base_value(&self, state: TemperatureProfileAState) -> (r: u16)
        ensures
            r == self@.ramp_base(state),
    {
        proof {
            use_type_invariant(self);
        }
        let s: ProfileState = self.state;
        let in_state: u64 = s.elapsed_ms - s.state_start_ms;
        match state {
            TemperatureProfileAState::FirstRamp => {
                let progress: u64 = if s.elapsed_ms >= 38_000 {
                    38_000
                } else {
                    s.elapsed_ms
                };
                (progress * 4 / 1000) as u16
            },
            TemperatureProfileAState::FirstRampSync => 150,
            TemperatureProfileAState::FirstRampExtra => 150,
            TemperatureProfileAState::PreHeat => {
                let progress: u64 = if in_state >= 80_000 {
                    80_000
                } else {
                    in_state
                };
                (150 + progress * 30 / 80_000) as u16
            },
            TemperatureProfileAState::PreHeatExtra => 180,
            TemperatureProfileAState::SecondRamp => {
                let progress: u64 = if in_state >= 13_000 {
                    13_000
                } else {
                    in_state
                };
                (180 + progress * 40 / 13_000) as u16
            },
            TemperatureProfileAState::SecondRampSync => 220,
            TemperatureProfileAState::SecondRampExtra => 220,
            TemperatureProfileAState::PeakRamp => {
                let progress: u64 = if in_state >= 20_000 {
                    20_000
                } else {
                    in_state
                };
                let rise: u64 = if s.peak >= 220 {
                    (s.peak - 220) as u64
                } else {
                    0
                };
                assert(rise * progress <= rise * 20_000) by (nonlinear_arith)
                    requires
                        0 <= rise,
                        progress <= 20_000,
                ;
                (220 + rise * progress / 20_000) as u16
            },
            TemperatureProfileAState::PeakRampSync => s.peak,
            TemperatureProfileAState::PeakRampExtra => s.peak,
            TemperatureProfileAState::Cooldown => 0,
        }
    }

    /// One call of the ramp profile in sub-state `state`.
    fn get_current_target_prof_a(&mut self, state: TemperatureProfileAState) -> (r: u16)
        requires
            old(self)@.profile == (TemperatureProfileEnum::ProfileA { state }),
        ensures
            r == old(self)@.ramp_target(state),
            final(self)@ == old(self)@.after_ramp(state),
    {
        proof {
            use_type_invariant(&*self);
        }
        let mut now: TemperatureProfileAState = state;
        if self.ramp_gate(state) {
            now = next_ramp_state(state);
            let mut s: ProfileState = self.state;
            s.profile = TemperatureProfileEnum::ProfileA { state: now };
            s.state_start_ms = s.elapsed_ms;
            self.state = s;
        }
        let base: u16 = self.ramp_base_value(now);
        let mut s: ProfileState = self.state;
        let target: u16 = match now {
            TemperatureProfileAState::Cooldown => 0,
            _ => add_offset(add_offset(base, s.lead_offset), s.temp_offset),
        };
        s.last_target = target;
        self.state = s;
        target
    }

    /// One call of the tuning run in sub-state `state`.
    fn get_current_autocalibrate(&mut self, state: TemperatureAutoCalibrateState) -> (r: (
        u16,
        Option<TuneProgress>,
    ))
        requires
            old(self)@.profile == (TemperatureProfileEnum::AutoCalibrate { state }),
        ensures
            r.0 == old(self)@.tune_target(state),
            r.1 == old(self)@.tune_report(state),
            final(self)@ == old(self)@.after_tune(state),
    {
        proof {
            use_type_invariant(&*self);
        }
        let mut s: ProfileState = self.state;
        let low: u16 = if s.peak >= TUNE_PID_DELTA {
            s.peak - TUNE_PID_DELTA
        } else {
            0
        };
        let mut report: Option<TuneProgress> = None;
        let target: u16 = match state {
            TemperatureAutoCalibrateState::FirstRamp => {
                if s.measured >= s.peak {
                    s.phase_extreme = u16::MAX;
                    s.profile = TemperatureProfileEnum::AutoCalibrate {
                        state: TemperatureAutoCalibrateState::PeakCooling { n: 0 },
                    };
                }
                s.peak
            },
            TemperatureAutoCalibrateState::PeakHeating { n } => {
                if s.measured >= s.peak {
                    s.older = s.newer;
                    s.newer = Extremum { temp: s.phase_extreme, at_ms: s.elapsed_ms };
                    s.phase_extreme = 0;
                    let done: bool = n >= 12;
                    let next: TemperatureAutoCalibrateState = if done {
                        TemperatureAutoCalibrateState::Cooldown
                    } else {
                        TemperatureAutoCalibrateState::PeakCooling { n }
                    };
                    s.profile = TemperatureProfileEnum::AutoCalibrate { state: next };
                    if n >= 4 {
                        report = Some(
                            TuneProgress { iteration: n, older: s.older, newer: s.newer, done },
                        );
                    }
                } else if s.measured < s.phase_extreme {
                    s.phase_extreme = s.measured;
                }
                s.peak
            },
            TemperatureAutoCalibrateState::PeakCooling { n } => {
                if s.measured <= low {
                    s.older = s.newer;
                    s.newer = Extremum { temp: s.phase_extreme, at_ms: s.elapsed_ms };
                    s.phase_extreme = u16::MAX;
                    s.profile = TemperatureProfileEnum::AutoCalibrate {
                        state: TemperatureAutoCalibrateState::PeakHeating { n: n + 1 },
                    };
                    if n >= 4 {
                        report = Some(
                            TuneProgress {
                                iteration: n,
                                older: s.older,
                                newer: s.newer,
                                done: false,
                            },
                        );
                    }
                } else if s.measured > s.phase_extreme {
                    s.phase_extreme = s.measured;
                }
                low
            },
            TemperatureAutoCalibrateState::Cooldown => 0,
        };
        s.last_target = target;
        self.state = s;
        (target, report)
    }

    /// Advances the clock by `elapsed_ms`, records the measurement and feeds
    /// the smoothed maximum. While the heater drives and no tuning run is
    /// active it then runs the runaway check, and returns the fault when
    /// heating has not moved the temperature for a whole interval.
    pub fn update(&mut self, elapsed_ms: u64, curr_temp: u16, heating: bool) -> (r: Result<
        (),
        ThermalRunaway,
    >)
        ensures
            final(self)@ == old(self)@.after_update(elapsed_ms, curr_temp, heating),
            match r {
                Ok(_) => old(self)@.update_fault(elapsed_ms, curr_temp, heating).is_none(),
                Err(fault) => old(self)@.update_fault(elapsed_ms, curr_temp, heating) == Some(
                    fault,
                ),
            },
    {
        proof {
            use_type_invariant(&*self);
        }
        let mut s: ProfileState = self.state;
        s.elapsed_ms = s.elapsed_ms.saturating_add(elapsed_ms);
        s.measured = curr_temp;
        if s.measured > s.rolling_max {
            s.rolling_max = ((s.measured as u32 * 9 + s.rolling_max as u32) / 10) as u16;
        }
        self.state = s;
        let tuning: bool = match s.profile {
            TemperatureProfileEnum::AutoCalibrate { .. } => true,
            _ => false,
        };
        if heating && !tuning {
            self.check_thermal_runaway()
        } else {
            Ok(())
        }
    }

    /// The runaway check on the recorded measurement.
    fn check_thermal_runaway(&mut self) -> (r: Result<(), ThermalRunaway>)
        ensures
            old(self)@.runaway() ==> final(self)@ == old(self)@ && r == Err::<(), ThermalRunaway>(
                ThermalRunaway {
                    reached: old(self)@.rolling_max,
                    required: (old(self)@.last_max + RUNAWAY_TEMP_THRESHOLD) as u32,
                },
            ),
            !old(self)@.runaway() ==> final(self)@ == old(self)@.after_check() && r.is_ok(),
    {
        proof {
            use_type_invariant(&*self);
        }
        let mut s: ProfileState = self.state;
        if (s.measured as u32) + (RUNAWAY_TARGET_TEMP_THRESHOLD as u32) < s.last_target as u32 {
            if s.elapsed_ms - s.last_check_ms >= RUNAWAY_INTERVAL_MS {
                let required: u32 = s.last_max as u32 + RUNAWAY_TEMP_THRESHOLD as u32;
                if (s.rolling_max as u32) < required {
                    return Err(ThermalRunaway { reached: s.rolling_max, required });
                }
                s.last_check_ms = s.elapsed_ms;
                s.last_max = s.rolling_max;
            }
        } else {
            s.last_max = 0;
            s.rolling_max = s.last_target;
        }
        self.state = s;
        Ok(())
    }
}


/// Within one ramp sub-state the target never falls as time passes: with the
/// same peak, offsets and entry time, a later clock gives at least the
/// target that an earlier one gave.
pub proof fn lemma_ramp_target_monotonic(
    a: ProfileState,
    b: ProfileState,
    state: TemperatureProfileAState,
)
    requires
        a.wf(),
        b.wf(),
        a.peak == b.peak,
        a.lead_offset == b.lead_offset,
        a.temp_offset == b.temp_offset,
        a.state_start_ms == b.state_start_ms,
        a.elapsed_ms <= b.elapsed_ms,
    ensures
        a.ramp_value(state) <= b.ramp_value(state),
{
    let rise = a.peak_rise();
    let pa = a.ramp_progress_ms(a.state_start_ms as int, 20_000);
    let pb = b.ramp_progress_ms(b.state_start_ms as int, 20_000);
    assert(rise * pa <= rise * pb) by (nonlinear_arith)
        requires
            0 <= rise,
            pa <= pb,
    ;
    assert(a.ramp_base(state) <= b.ramp_base(state));
}

/// The same, of two calls: when asking for a target leaves the profile in
/// the sub-state it was in, a call at a later time in that sub-state returns
/// at least as much.
pub proof fn lemma_ramp_calls_monotonic(
    a: ProfileState,
    b: ProfileState,
    state: TemperatureProfileAState,
)
    requires
        a.wf(),
        b.wf(),
        a.peak == b.peak,
        a.lead_offset == b.lead_offset,
        a.temp_offset == b.temp_offset,
        a.state_start_ms == b.state_start_ms,
        a.elapsed_ms <= b.elapsed_ms,
        a.ramp_next(state) == state,
        b.ramp_next(state) == state,
    ensures
        a.ramp_target(state) <= b.ramp_target(state),
{
    if state != TemperatureProfileAState::Cooldown {
        lemma_ramp_target_monotonic(a, b, state);
    }
}

/// Asking the ramp profile for a target either keeps the sub-state or moves
/// it one place on in the fixed order; it never goes back and never skips,
/// and the last sub-state is never left. The target returned is that of the
/// sub-state the profile is in after the call.
pub proof fn lemma_ramp_order(s: ProfileState, state: TemperatureProfileAState)
    requires
        s.profile == (TemperatureProfileEnum::ProfileA { state }),
    ensures
        s.after_target().profile == (TemperatureProfileEnum::ProfileA { state: s.ramp_next(state) }),
        s.ramp_next(state) == state || s.ramp_next(state) == ramp_successor(state),
        state != TemperatureProfileAState::Cooldown ==> ramp_rank(ramp_successor(state))
            == ramp_rank(state) + 1,
        state == TemperatureProfileAState::Cooldown ==> s.after_target().profile == s.profile,
        s.target() == s.after_target().ramp_value(s.ramp_next(state)),
{
}

/// Only asking for a target moves the sub-state: an update leaves the
/// strategy and its sub-state as they were.
pub proof fn lemma_update_keeps_profile(s: ProfileState, dt_ms: u64, temp: u16, heating: bool)
    ensures
        s.after_update(dt_ms, temp, heating).profile == s.profile,
{
}

/// The clock never runs backwards within a run, and a valid state stays
/// valid through updates and target requests.
pub proof fn lemma_clock_monotonic(s: ProfileState, dt_ms: u64, temp: u16, heating: bool)
    requires
        s.wf(),
    ensures
        s.after_update(dt_ms, temp, heating).elapsed_ms >= s.elapsed_ms,
        s.after_target().elapsed_ms == s.elapsed_ms,
        s.after_update(dt_ms, temp, heating).wf(),
        s.after_target().wf(),
{
}

/// A restart clears the clock and puts the strategy into its initial
/// sub-state, whatever the state before.
pub proof fn lemma_restart(s: ProfileState)
    ensures
        s.restarted().elapsed_ms == 0,
        s.restarted().state_start_ms == 0,
        s.profile is Static ==> s.restarted().profile is Static,
        s.profile is ProfileA ==> s.restarted().profile == (TemperatureProfileEnum::ProfileA {
            state: TemperatureProfileAState::FirstRamp,
        }),
        s.profile is AutoCalibrate ==> s.restarted().profile
            == (TemperatureProfileEnum::AutoCalibrate {
            state: TemperatureAutoCalibrateState::FirstRamp,
        }),
        s.restarted().wf(),
        s.restarted().restarted() == s.restarted(),
{
}

/// The static strategy returns the peak at every time and for every
/// measurement.
pub proof fn lemma_static_target(s: ProfileState)
    requires
        s.profile is Static,
    ensures
        s.target() == s.peak,
        s.after_target().target() == s.peak,
{
}

/// No tuning report is issued before four cooling phases are complete, and
/// the run is only ever reported as done from the twelfth on.
pub proof fn lemma_report_needs_four_cycles(s: ProfileState)
    ensures
        s.report() matches Some(p) ==> {
            &&& p.iteration >= 4
            &&& (s.profile == (TemperatureProfileEnum::AutoCalibrate {
                state: TemperatureAutoCalibrateState::PeakHeating { n: p.iteration },
            }) || s.profile == (TemperatureProfileEnum::AutoCalibrate {
                state: TemperatureAutoCalibrateState::PeakCooling { n: p.iteration },
            }))
            &&& p.older == s.newer
            &&& p.newer == (Extremum { temp: s.phase_extreme, at_ms: s.elapsed_ms })
            &&& (p.done ==> p.iteration >= 12)
        },
{
}

/// While the heater drives outside a tuning run, a measurement that trails
/// the target for a whole interval without the smoothed maximum gaining the
/// required degrees raises the fault, and the interval's bookkeeping stays as
/// it was.
pub proof fn lemma_runaway_raised(s: ProfileState, dt_ms: u64, temp: u16)
    requires
        !(s.profile is AutoCalibrate),
        s.measured_at(dt_ms, temp).trails_target(),
        s.measured_at(dt_ms, temp).interval_over(),
        s.measured_at(dt_ms, temp).stalled(),
    ensures
        s.update_fault(dt_ms, temp, true).is_some(),
        s.after_update(dt_ms, temp, true) == s.measured_at(dt_ms, temp),
        s.after_update(dt_ms, temp, true).last_check_ms == s.last_check_ms,
        s.after_update(dt_ms, temp, true).last_max == s.last_max,
{
}

/// No fault is raised while the smoothed maximum keeps gaining the required
/// degrees, while the measurement keeps up with the target, while the heater
/// is off, or during a tuning run.
pub proof fn lemma_no_runaway(s: ProfileState, dt_ms: u64, temp: u16, heating: bool)
    requires
        !s.measured_at(dt_ms, temp).stalled() || !s.measured_at(dt_ms, temp).trails_target()
            || !heating || s.profile is AutoCalibrate,
    ensures
        s.update_fault(dt_ms, temp, heating).is_none(),
{
}

/// One thing that happens to the engine between two restarts.
pub enum EngineEvent {
    /// A measurement arrives after `dt_ms` more milliseconds.
    Update { dt_ms: u64, temp: u16, heating: bool },
    /// The target is asked for.
    Target,
}

impl ProfileState {
    /// The state after one event.
    pub open spec fn after_event(self, event: EngineEvent) -> ProfileState {
        match event {
            EngineEvent::Update { dt_ms, temp, heating } => self.after_update(dt_ms, temp, heating),
            EngineEvent::Target => self.after_target(),
        }
    }

    /// The state after a run of events, taken in order.
    pub open spec fn after_events(self, events: Seq<EngineEvent>) -> ProfileState
        decreases events.len(),
    {
        if events.len() == 0 {
            self
        } else {
            self.after_events(events.drop_last()).after_event(events.last())
        }
    }
}

/// Position of the strategy's sub-state in its fixed order: the rank of a ramp
/// sub-state; for a tuning run the number of relay phases behind it, with the
/// first ramp at 0 and the end of the run at 25; 0 for the static strategy.
pub open spec fn profile_rank(profile: TemperatureProfileEnum) -> int {
    match profile {
        TemperatureProfileEnum::Static => 0,
        TemperatureProfileEnum::ProfileA { state } => ramp_rank(state) as int,
        TemperatureProfileEnum::AutoCalibrate { state } => match state {
            TemperatureAutoCalibrateState::FirstRamp => 0,
            TemperatureAutoCalibrateState::PeakCooling { n } => 2 * n + 1,
            TemperatureAutoCalibrateState::PeakHeating { n } => 2 * n,
            TemperatureAutoCalibrateState::Cooldown => 25,
        },
    }
}

/// One event moves the sub-state at most one place on in its order, and a
/// ramp or a static strategy never back.
pub proof fn lemma_event_advances_by_one(s: ProfileState, event: EngineEvent)
    requires
        s.wf(),
    ensures
        s.after_event(event).wf(),
        s.profile is Static <==> s.after_event(event).profile is Static,
        s.profile is ProfileA <==> s.after_event(event).profile is ProfileA,
        s.profile is AutoCalibrate <==> s.after_event(event).profile is AutoCalibrate,
        profile_rank(s.after_event(event).profile) <= profile_rank(s.profile) + 1,
        !(s.profile is AutoCalibrate) ==> profile_rank(s.profile) <= profile_rank(
            s.after_event(event).profile,
        ),
        event is Update ==> s.after_event(event).profile == s.profile,
{
}

/// Between two restarts the ramp profile visits its sub-states in the fixed
/// order, each of them once: whatever happens, the sub-state never goes back
/// to an earlier one, and it moves on by no more places than events have
/// passed.
pub proof fn lemma_ramp_run_in_order(s: ProfileState, events: Seq<EngineEvent>)
    requires
        s.wf(),
        s.profile is ProfileA,
    ensures
        s.after_events(events).wf(),
        s.after_events(events).profile is ProfileA,
        profile_rank(s.profile) <= profile_rank(s.after_events(events).profile),
        profile_rank(s.after_events(events).profile) <= profile_rank(s.profile) + events.len(),
    decreases events.len(),
{
    if events.len() > 0 {
        lemma_ramp_run_in_order(s, events.drop_last());
        lemma_event_advances_by_one(s.after_events(events.drop_last()), events.last());
    }
}

/// A tuning run that starts from its first ramp issues no report before
/// eight relay phases lie behind it: the event that brings a report has at
/// least eight events before it, and the report counts at least four cooling
/// phases.
pub proof fn lemma_no_early_report(s: ProfileState, events: Seq<EngineEvent>)
    requires
        s.wf(),
        s.profile == (TemperatureProfileEnum::AutoCalibrate {
            state: TemperatureAutoCalibrateState::FirstRamp,
        }),
    ensures
        s.after_events(events).wf(),
        s.after_events(events).profile is AutoCalibrate,
        profile_rank(s.after_events(events).profile) <= events.len(),
        s.after_events(events).report() matches Some(p) ==> events.len() >= 8 && p.iteration >= 4,
    decreases events.len(),
{
    if events.len() > 0 {
        lemma_no_early_report(s, events.drop_last());
        lemma_event_advances_by_one(s.after_events(events.drop_last()), events.last());
    }
}

} // verus!
