//! The decisions of the periodic control loop: what a configuration message
//! changes, when a control step is due, what the actuator is set to, and
//! which failures end the run.
use crate::storage::StorageData;
use crate::temperature::{
    ProfileState,
    TemperatureProfile,
    TemperatureProfileEnum,
    ThermalRunaway,
    TuneProgress,
};
use vstd::prelude::*;

verus! {

/// Longest time the loop waits for a message before it runs a step, in
/// milliseconds.
pub const CONTROL_PERIOD_MS: u64 = 100;

/// Shortest time between two control steps, in milliseconds.
pub const MIN_STEP_MS: u64 = 10;

/// A configuration message to the control loop. Gains travel as the bits of
/// single-precision numbers, times as milliseconds.
#[derive(Clone, Copy, Debug, PartialEq, Eq, Structural)]
pub enum SyncHeatStateEnum {
    TargetTemp(u16, TemperatureProfileEnum),
    Pid { pid: bool, pid_p: u32, pid_i: u32, pid_d: u32 },
    TempSettings { wait_time_ms: u64, extra_time_ms: u64, temp_lead_offset: i16, temp_offset: i16 },
}

/// What a configuration message asks of the PID controller.
#[derive(Clone, Copy, Debug, PartialEq, Eq, Structural)]
pub enum ControllerCommand {
    /// Leave the controller alone.
    Keep,
    /// Clear integral and last error.
    Reset,
    /// Set the three gains, then clear integral and last error.
    SetGains { pid_p: u32, pid_i: u32, pid_d: u32 },
}

/// A failure that ends the run.
#[derive(Clone, Copy, Debug, PartialEq, Eq, Structural)]
pub enum HeaterFault {
    /// The sensor could not be read.
    SensorRead,
    /// Heating failed to move the temperature.
    ThermalRunaway(ThermalRunaway),
    /// The liveness token could not be handed to the watchdog.
    LivenessUndelivered,
    /// The run has ended before.
    Halted,
}

/// How the actuator value of a step comes about.
#[derive(Clone, Copy, Debug, PartialEq, Eq, Structural)]
pub enum Drive {
    /// On/off control has decided: write this value.
    Output(u16),
    /// The PID controller decides; `retarget` says that the target has
    /// changed, so the controller gets the new setpoint and a reset first.
    Pid { retarget: bool },
}

/// The outcome of the first half of a control step.
#[derive(Clone, Copy, Debug, PartialEq, Eq, Structural)]
pub struct StepPlan {
    pub target: u16,
    pub report: Option<TuneProgress>,
    pub drive: Drive,
}

/// What the display is told after a step.
#[derive(Clone, Copy, Debug, PartialEq, Eq, Structural)]
pub struct Telemetry {
    pub current_temp: u16,
    pub current_target: u16,
    pub output_enabled: bool,
}

/// What the control loop remembers.
pub struct HeaterState {
    pub engine: ProfileState,
    pub pid_use: bool,
    pub pid_p: u32,
    pub pid_i: u32,
    pub pid_d: u32,
    pub last_temp_target: u16,
    /// The actuator value in force.
    pub output: u16,
    /// The actuator's largest value.
    pub top: u16,
    pub halted: bool,
}

impl SyncHeatStateEnum {
    /// A strategy that comes with the message can count its phases.
    pub open spec fn wf(self) -> bool {
        match self {
            SyncHeatStateEnum::TargetTemp(_, profile) => profile.counter_in_range(),
            _ => true,
        }
    }

    /// What the message asks of the PID controller.
    pub open spec fn command(self) -> ControllerCommand {
        match self {
            SyncHeatStateEnum::TargetTemp(_, _) => ControllerCommand::Reset,
            SyncHeatStateEnum::Pid { pid, pid_p, pid_i, pid_d } => ControllerCommand::SetGains {
                pid_p,
                pid_i,
                pid_d,
            },
            SyncHeatStateEnum::TempSettings { .. } => ControllerCommand::Keep,
        }
    }

    /// Tests `wf`.
    pub fn is_wf(&self) -> (r: bool)
        ensures
            r == self.wf(),
    {
        match self {
            SyncHeatStateEnum::TargetTemp(_, profile) => profile.is_counter_in_range(),
            _ => true,
        }
    }
}

/// On/off control: full output while the measurement lies below the target,
/// none otherwise.
pub open spec fn on_off_output(measured: u16, target: u16, top: u16) -> u16 {
    if measured < target {
        top
    } else {
        0
    }
}

/// `raw`, held at or below `top`.
pub open spec fn clamped(raw: u16, top: u16) -> u16 {
    if raw > top {
        top
    } else {
        raw
    }
}

impl HeaterState {
    /// The actuator value lies in its range and is 0 once the run has ended.
    pub open spec fn wf(self) -> bool {
        &&& self.output <= self.top
        &&& self.halted ==> self.output == 0
        &&& self.engine.wf()
    }

    /// The state after a configuration message: a new target restarts the
    /// engine with the new peak and strategy, new gains are stored, new
    /// settings reach the engine without a restart.
    pub open spec fn after_message(self, msg: SyncHeatStateEnum) -> HeaterState {
        match msg {
            SyncHeatStateEnum::TargetTemp(temp, profile) => HeaterState {
                engine: (ProfileState { peak: temp, profile: profile, ..self.engine }).restarted(),
                ..self
            },
            SyncHeatStateEnum::Pid { pid, pid_p, pid_i, pid_d } => HeaterState {
                pid_use: pid,
                pid_p,
                pid_i,
                pid_d,
                ..self
            },
            SyncHeatStateEnum::TempSettings {
                wait_time_ms,
                extra_time_ms,
                temp_lead_offset,
                temp_offset,
            } => HeaterState {
                engine: ProfileState {
                    wait_time_ms,
                    extra_time_ms,
                    lead_offset: temp_lead_offset,
                    temp_offset,
                    ..self.engine
                },
                ..self
            },
        }
    }

    /// The state with the run ended and the actuator off.
    pub open spec fn stopped(self) -> HeaterState {
        HeaterState { output: 0, halted: true, ..self }
    }

    /// The engine once the step's measurement is recorded.
    pub open spec fn engine_measured(self, elapsed_ms: u64, temp: u16) -> ProfileState {
        self.engine.after_update(elapsed_ms, temp, self.output > 0)
    }

    /// What the first half of a control step returns.
    pub open spec fn step_result(self, elapsed_ms: u64, reading: Option<u16>) -> Result<
        StepPlan,
        HeaterFault,
    > {
        if self.halted {
            Err(HeaterFault::Halted)
        } else {
            match reading {
                None => Err(HeaterFault::SensorRead),
                Some(temp) => match self.engine.update_fault(elapsed_ms, temp, self.output > 0) {
                    Some(fault) => Err(HeaterFault::ThermalRunaway(fault)),
                    None => {
                        let e = self.engine_measured(elapsed_ms, temp);
                        let target = e.target() as u16;
                        Ok(
                            StepPlan {
                                target,
                                report: e.report(),
                                drive: if self.pid_use {
                                    Drive::Pid { retarget: target != self.last_temp_target }
                                } else {
                                    Drive::Output(on_off_output(temp, target, self.top))
                                },
                            },
                        )
                    },
                },
            }
        }
    }

    /// The state after the first half of a control step.
    pub open spec fn after_step(self, elapsed_ms: u64, reading: Option<u16>) -> HeaterState {
        if self.halted {
            self.stopped()
        } else {
            match reading {
                None => self.stopped(),
                Some(temp) => {
                    let e = self.engine_measured(elapsed_ms, temp);
                    if self.engine.update_fault(elapsed_ms, temp, self.output > 0).is_some() {
                        (HeaterState { engine: e, ..self }).stopped()
                    } else if self.pid_use {
                        HeaterState {
                            engine: e.after_target(),
                            last_temp_target: e.target() as u16,
                            ..self
                        }
                    } else {
                        HeaterState {
                            engine: e.after_target(),
                            output: on_off_output(temp, e.target() as u16, self.top),
                            ..self
                        }
                    }
                },
            }
        }
    }

    /// The state after the PID controller's value `raw` is taken over.
    pub open spec fn after_pid(self, raw: u16) -> HeaterState {
        if self.halted {
            self.stopped()
        } else {
            HeaterState { output: clamped(raw, self.top), ..self }
        }
    }

    /// The state after the attempt to hand the liveness token on.
    pub open spec fn after_liveness(self, delivered: bool) -> HeaterState {
        if !self.halted && delivered {
            self
        } else {
            self.stopped()
        }
    }

    /// What the attempt to hand the liveness token on returns.
    pub open spec fn liveness_outcome(self, delivered: bool) -> Result<(), HeaterFault> {
        if self.halted {
            Err(HeaterFault::Halted)
        } else if delivered {
            Ok(())
        } else {
            Err(HeaterFault::LivenessUndelivered)
        }
    }
}

/// The control loop's decisions and the state they rest on.
pub struct Heater {
    target_temp: TemperatureProfile,
    pid_use: bool,
    pid_p: u32,
    pid_i: u32,
    pid_d: u32,
    last_temp_target: u16,
    compare_a: u16,
    top: u16,
    halted: bool,
}

impl View for Heater {
    type V = HeaterState;

    closed spec fn view(&self) -> HeaterState {
        HeaterState {
            engine: self.target_temp@,
            pid_use: self.pid_use,
            pid_p: self.pid_p,
            pid_i: self.pid_i,
            pid_d: self.pid_d,
            last_temp_target: self.last_temp_target,
            output: self.compare_a,
            top: self.top,
            halted: self.halted,
        }
    }
}

/// Whether enough time has passed since the last control step for the next
/// one.
pub fn is_step_due(elapsed_ms: u64) -> (r: bool)
    ensures
        r == (elapsed_ms >= MIN_STEP_MS),
{
    elapsed_ms >= MIN_STEP_MS
}

impl Heater {
    /// A control loop with the stored gains and offsets, the given times and
    /// actuator range, a static target of 0 and the actuator off.
    pub fn new(startup_storage: &StorageData, wait_time_ms: u64, extra_time_ms: u64, top: u16) -> (r:
        Self)
        ensures
            r@ == (HeaterState {
                engine: ProfileState::initial(
                    0,
                    TemperatureProfileEnum::Static,
                    wait_time_ms,
                    extra_time_ms,
                    startup_storage.temp_lead_offset,
                    startup_storage.temp_offset,
                ),
                pid_use: startup_storage.pid,
                pid_p: startup_storage.pid_p,
                pid_i: startup_storage.pid_i,
                pid_d: startup_storage.pid_d,
                last_temp_target: 0,
                output: 0,
                top,
                halted: false,
            }),
            r@.wf(),
    {
        Heater {
            target_temp: TemperatureProfile::new(
                0,
                TemperatureProfileEnum::Static,
                wait_time_ms,
                extra_time_ms,
                startup_storage.temp_lead_offset,
                startup_storage.temp_offset,
            ),
            pid_use: startup_storage.pid,
            pid_p: startup_storage.pid_p,
            pid_i: startup_storage.pid_i,
            pid_d: startup_storage.pid_d,
            last_temp_target: 0,
            compare_a: 0,
            top,
            halted: false,
        }
    }

    /// The actuator value in force.
    pub fn output(&self) -> (r: u16)
        ensures
            r == self@.output,
    {
        self.compare_a
    }

    /// Whether the run has ended.
    pub fn is_halted(&self) -> (r: bool)
        ensures
            r == self@.halted,
    {
        self.halted
    }

    /// Whether the PID controller is in use.
    pub fn pid_enabled(&self) -> (r: bool)
        ensures
            r == self@.pid_use,
    {
        self.pid_use
    }

    /// A copy of what the target engine remembers.
    pub fn engine(&self) -> (r: ProfileState)
        ensures
            r == self@.engine,
    {
        self.target_temp.snapshot()
    }

    /// Applies a configuration message and says what the PID controller has
    /// to be told.
    pub fn on_message(&mut self, msg: SyncHeatStateEnum) -> (r: ControllerCommand)
        requires
            msg.wf(),
        ensures
            final(self)@ == old(self)@.after_message(msg),
            r == msg.command(),
    {
        match msg {
            SyncHeatStateEnum::TargetTemp(temp, prof) => {
                self.target_temp.set_profile(prof);
                self.target_temp.set_peak(temp);
                self.target_temp.reset();
                ControllerCommand::Reset
            },
            SyncHeatStateEnum::Pid { pid, pid_p, pid_i, pid_d } => {
                self.pid_use = pid;
                self.pid_p = pid_p;
                self.pid_i = pid_i;
                self.pid_d = pid_d;
                ControllerCommand::SetGains { pid_p, pid_i, pid_d }
            },
            SyncHeatStateEnum::TempSettings {
                wait_time_ms,
                extra_time_ms,
                temp_lead_offset,
                temp_offset,
            } => {
                self.target_temp.set_settings(
                    wait_time_ms,
                    extra_time_ms,
                    temp_lead_offset,
                    temp_offset,
                );
                ControllerCommand::Keep
            },
        }
    }

    /// The first half of a control step. It takes the time since the last
    /// step and the sensor reading, `None` where the sensor could not be
    /// read. It feeds the engine, asks it for the target and decides the
    /// actuator value, or leaves that to the PID controller. A failed reading
    /// and a thermal runaway end the run with the actuator off.
    pub fn begin_step(&mut self, elapsed_ms: u64, reading: Option<u16>) -> (r: Result<
        StepPlan,
        HeaterFault,
    >)
        ensures
            r == old(self)@.step_result(elapsed_ms, reading),
            final(self)@ == old(self)@.after_step(elapsed_ms, reading),
            r.is_err() ==> final(self)@.output == 0,
            r matches Ok(plan) ==> (plan.drive matches Drive::Output(v) ==> v == final(self)@.output
                && (v == 0 || v == final(self)@.top)),
    {
        if self.halted {
            self.compare_a = 0;
            return Err(HeaterFault::Halted);
        }
        let current_temp: u16 = match reading {
            Some(t) => t,
            None => {
                self.compare_a = 0;
                self.halted = true;
                return Err(HeaterFault::SensorRead);
            },
        };
        match self.target_temp.update(elapsed_ms, current_temp, self.compare_a > 0) {
            Ok(_) => {},
            Err(fault) => {
                self.compare_a = 0;
                self.halted = true;
                return Err(HeaterFault::ThermalRunaway(fault));
            },
        }
        let (target, report) = self.target_temp.get_current_target();
        let drive: Drive = if !self.pid_use {
            let value: u16 = if current_temp < target {
                self.top
            } else {
                0
            };
            self.compare_a = value;
            Drive::Output(value)
        } else {
            let retarget: bool = target != self.last_temp_target;
            self.last_temp_target = target;
            Drive::Pid { retarget }
        };
        Ok(StepPlan { target, report, drive })
    }

    /// The second half of a control step under PID control: takes the
    /// controller's value over, held inside the actuator's range, and
    /// returns what is to be written. Once the run has ended the actuator
    /// stays off.
    pub fn finish_pid_step(&mut self, raw: u16) -> (r: u16)
        ensures
            final(self)@ == old(self)@.after_pid(raw),
            r == final(self)@.output,
            r <= final(self)@.top,
    {
        self.compare_a = if self.halted {
            0
        } else if raw > self.top {
            self.top
        } else {
            raw
        };
        self.compare_a
    }

    /// What the display is told after a step.
    pub fn telemetry(&self, current_temp: u16, current_target: u16) -> (r: Telemetry)
        ensures
            r == (Telemetry { current_temp, current_target, output_enabled: self@.output > 0 }),
    {
        Telemetry { current_temp, current_target, output_enabled: self.compare_a > 0 }
    }

    /// Takes note of whether the liveness token could be handed to the
    /// watchdog. A token that could not ends the run with the actuator off.
    pub fn liveness_result(&mut self, delivered: bool) -> (r: Result<(), HeaterFault>)
        ensures
            r == old(self)@.liveness_outcome(delivered),
            final(self)@ == old(self)@.after_liveness(delivered),
    {
        if self.halted {
            self.compare_a = 0;
            Err(HeaterFault::Halted)
        } else if delivered {
            Ok(())
        } else {
            self.compare_a = 0;
            self.halted = true;
            Err(HeaterFault::LivenessUndelivered)
        }
    }
}

/// The actuator value never leaves its range: a state whose value lies in
/// the range keeps it there through every message, step and controller
/// value, and the engine stays valid.
pub proof fn lemma_output_in_range(
    h: HeaterState,
    msg: SyncHeatStateEnum,
    elapsed_ms: u64,
    reading: Option<u16>,
    raw: u16,
    delivered: bool,
)
    requires
        h.wf(),
        msg.wf(),
    ensures
        h.after_message(msg).wf(),
        h.after_step(elapsed_ms, reading).wf(),
        h.after_pid(raw).wf(),
        h.after_liveness(delivered).wf(),
{
    if let Some(temp) = reading {
        crate::temperature::lemma_clock_monotonic(h.engine, elapsed_ms, temp, h.output > 0);
        let e = h.engine_measured(elapsed_ms, temp);
        crate::temperature::lemma_clock_monotonic(e, 0, 0, false);
    }
}

/// Every failure ends the run with the actuator off, and is reported once:
/// whatever is asked afterwards is answered with `Halted`, and the actuator
/// stays off.
pub proof fn lemma_fault_is_final(
    h: HeaterState,
    elapsed_ms: u64,
    reading: Option<u16>,
    later_ms: u64,
    later_reading: Option<u16>,
    raw: u16,
    delivered: bool,
)
    requires
        h.step_result(elapsed_ms, reading).is_err(),
    ensures
        h.after_step(elapsed_ms, reading).halted,
        h.after_step(elapsed_ms, reading).output == 0,
        h.after_step(elapsed_ms, reading).step_result(later_ms, later_reading) == Err::<
            StepPlan,
            HeaterFault,
        >(HeaterFault::Halted),
        h.after_step(elapsed_ms, reading).after_step(later_ms, later_reading).output == 0,
        h.after_step(elapsed_ms, reading).after_pid(raw).output == 0,
        h.after_step(elapsed_ms, reading).liveness_outcome(delivered) == Err::<(), HeaterFault>(
            HeaterFault::Halted,
        ),
{
}


} // verus!
