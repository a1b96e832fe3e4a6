use heater_control::temperature::{
    add_offset, Extremum, Hidden, ProfileState, TemperatureAutoCalibrateState, TemperatureProfile,
    TemperatureProfileAState, TemperatureProfileEnum, ThermalRunaway, TuneProgress,
    RUNAWAY_INTERVAL_MS, RUNAWAY_TARGET_TEMP_THRESHOLD, RUNAWAY_TEMP_THRESHOLD, TUNE_PID_DELTA,
};

fn ramp(state: TemperatureProfileAState) -> TemperatureProfileEnum {
    TemperatureProfileEnum::ProfileA { state }
}

fn tune(state: TemperatureAutoCalibrateState) -> TemperatureProfileEnum {
    TemperatureProfileEnum::AutoCalibrate { state }
}

fn ramp_engine(peak: u16, state: TemperatureProfileAState) -> TemperatureProfile {
    TemperatureProfile::new(peak, ramp(state), 10_000, 0, 0, 0)
}

#[test]
fn constants_have_their_values() {
    assert_eq!(RUNAWAY_TARGET_TEMP_THRESHOLD, 1);
    assert_eq!(RUNAWAY_TEMP_THRESHOLD, 2);
    assert_eq!(TUNE_PID_DELTA, 5);
    assert_eq!(RUNAWAY_INTERVAL_MS, 5000);
}

#[test]
fn hidden_hands_its_content_back() {
    let h = Hidden::new(17u8);
    assert_eq!(h.clone().into_inner(), 17);
    assert_eq!(h.into_inner(), 17);
}

#[test]
fn peak_ramp_ends_at_the_peak_with_offsets() {
    let mut e =
        TemperatureProfile::new(260, ramp(TemperatureProfileAState::PeakRamp), 10_000, 0, 5, -2);
    assert_eq!(e.get_current_target().0, 223);
    assert_eq!(e.update(10_000, 0, false), Ok(()));
    assert_eq!(e.get_current_target().0, 243);
    assert_eq!(e.update(9_999, 0, false), Ok(()));
    assert_eq!(e.get_current_target().0, 262);
    assert_eq!(e.update(1, 0, false), Ok(()));
    assert_eq!(e.get_current_target().0, 263);
    assert_eq!(e.snapshot().profile, ramp(TemperatureProfileAState::PeakRampSync));
}

#[test]
fn defaults_are_the_first_ramp() {
    assert_eq!(TemperatureProfileAState::default(), TemperatureProfileAState::FirstRamp);
    assert_eq!(
        TemperatureAutoCalibrateState::default(),
        TemperatureAutoCalibrateState::FirstRamp
    );
}

#[test]
fn add_offset_saturates_at_both_ends() {
    assert_eq!(add_offset(150, 5), 155);
    assert_eq!(add_offset(150, -5), 145);
    assert_eq!(add_offset(3, -5), 0);
    assert_eq!(add_offset(0, i16::MIN), 0);
    assert_eq!(add_offset(65_530, 10), u16::MAX);
    assert_eq!(add_offset(u16::MAX, i16::MAX), u16::MAX);
    assert_eq!(add_offset(40_000, i16::MIN), 40_000 - 32_768);
}

#[test]
fn profile_enum_reset_returns_to_initial_sub_state() {
    let mut p = TemperatureProfileEnum::Static;
    p.reset();
    assert_eq!(p, TemperatureProfileEnum::Static);

    let mut p = ramp(TemperatureProfileAState::PeakRampExtra);
    p.reset();
    assert_eq!(p, ramp(TemperatureProfileAState::FirstRamp));

    let mut p = tune(TemperatureAutoCalibrateState::PeakCooling { n: 7 });
    p.reset();
    assert_eq!(p, tune(TemperatureAutoCalibrateState::FirstRamp));
}

#[test]
fn counter_range_is_tested() {
    assert!(TemperatureProfileEnum::Static.is_counter_in_range());
    assert!(tune(TemperatureAutoCalibrateState::PeakCooling { n: 254 }).is_counter_in_range());
    assert!(!tune(TemperatureAutoCalibrateState::PeakCooling { n: 255 }).is_counter_in_range());
    assert!(tune(TemperatureAutoCalibrateState::PeakHeating { n: 255 }).is_counter_in_range());
}

#[test]
fn new_engine_starts_cleared() {
    let e = TemperatureProfile::new(230, TemperatureProfileEnum::Static, 10_000, 2_000, 5, -3);
    let s: ProfileState = e.snapshot();
    assert_eq!(s.peak, 230);
    assert_eq!(s.profile, TemperatureProfileEnum::Static);
    assert_eq!(s.elapsed_ms, 0);
    assert_eq!(s.state_start_ms, 0);
    assert_eq!(s.measured, 0);
    assert_eq!(s.wait_time_ms, 10_000);
    assert_eq!(s.extra_time_ms, 2_000);
    assert_eq!(s.lead_offset, 5);
    assert_eq!(s.temp_offset, -3);
    assert_eq!(s.rolling_max, 0);
    assert_eq!(s.last_target, 0);
    assert_eq!(s.last_max, 0);
    assert_eq!(s.last_check_ms, 0);
}

#[test]
fn static_strategy_returns_peak_for_any_time_and_measurement() {
    let mut e = TemperatureProfile::new(200, TemperatureProfileEnum::Static, 10_000, 0, 0, 0);
    assert_eq!(e.get_current_target(), (200, None));
    let temps: [u16; 6] = [0, 25, 199, 200, 201, u16::MAX];
    let steps: [u64; 6] = [0, 1, 100, 38_000, 1_000_000, u64::MAX];
    for (dt, t) in steps.iter().zip(temps.iter()) {
        assert_eq!(e.update(*dt, *t, false), Ok(()));
        assert_eq!(e.get_current_target(), (200, None));
        assert_eq!(e.snapshot().last_target, 200);
    }
}

#[test]
fn static_strategy_ignores_the_offsets() {
    let mut e = TemperatureProfile::new(200, TemperatureProfileEnum::Static, 0, 0, 7, -9);
    assert_eq!(e.get_current_target().0, 200);
}

#[test]
fn ramp_starts_at_zero() {
    let mut e = ramp_engine(240, TemperatureProfileAState::FirstRamp);
    assert_eq!(e.get_current_target(), (0, None));
    assert_eq!(e.snapshot().profile, ramp(TemperatureProfileAState::FirstRamp));
}

#[test]
fn first_ramp_climbs_four_degrees_per_second() {
    let mut e = ramp_engine(240, TemperatureProfileAState::FirstRamp);
    assert_eq!(e.update(249, 0, false), Ok(()));
    assert_eq!(e.get_current_target().0, 0);
    assert_eq!(e.update(1, 0, false), Ok(()));
    assert_eq!(e.get_current_target().0, 1);
    assert_eq!(e.update(9_750, 0, false), Ok(()));
    assert_eq!(e.get_current_target().0, 40);
    assert_eq!(e.update(27_999, 0, false), Ok(()));
    assert_eq!(e.get_current_target().0, 151);
    assert_eq!(e.snapshot().profile, ramp(TemperatureProfileAState::FirstRamp));
}

#[test]
fn ramp_at_38_seconds_enters_sync_and_holds_150() {
    let mut e = ramp_engine(240, TemperatureProfileAState::FirstRamp);
    assert_eq!(e.update(37_999, 0, false), Ok(()));
    assert_eq!(e.get_current_target().0, 151);
    assert_eq!(e.update(1, 0, false), Ok(()));
    // The transition is made first: at 38 s the sync state holds 150.
    assert_eq!(e.get_current_target().0, 150);
    let s = e.snapshot();
    assert_eq!(s.profile, ramp(TemperatureProfileAState::FirstRampSync));
    assert_eq!(s.state_start_ms, 38_000);
    assert_eq!(e.get_current_target().0, 150);
    assert_eq!(e.snapshot().profile, ramp(TemperatureProfileAState::FirstRampSync));
}

#[test]
fn clock_stops_at_its_largest_value() {
    let mut e = ramp_engine(240, TemperatureProfileAState::FirstRamp);
    assert_eq!(e.update(u64::MAX, 0, false), Ok(()));
    assert_eq!(e.get_current_target().0, 150);
    assert_eq!(e.update(5, 0, false), Ok(()));
    assert_eq!(e.snapshot().elapsed_ms, u64::MAX);
    assert_eq!(e.snapshot().state_start_ms, u64::MAX);
}

#[test]
fn sync_state_ends_on_wait_time_or_on_temperature() {
    let mut e = ramp_engine(240, TemperatureProfileAState::FirstRampSync);
    assert_eq!(e.update(9_999, 149, false), Ok(()));
    assert_eq!(e.get_current_target().0, 150);
    assert_eq!(e.snapshot().profile, ramp(TemperatureProfileAState::FirstRampSync));
    assert_eq!(e.update(1, 149, false), Ok(()));
    assert_eq!(e.get_current_target().0, 150);
    assert_eq!(e.snapshot().profile, ramp(TemperatureProfileAState::FirstRampExtra));

    let mut e = ramp_engine(240, TemperatureProfileAState::FirstRampSync);
    assert_eq!(e.update(100, 150, false), Ok(()));
    assert_eq!(e.get_current_target().0, 150);
    assert_eq!(e.snapshot().profile, ramp(TemperatureProfileAState::FirstRampExtra));
    assert_eq!(e.snapshot().state_start_ms, 100);
}

#[test]
fn sync_gate_uses_the_temperature_offset() {
    let mut e =
        TemperatureProfile::new(240, ramp(TemperatureProfileAState::SecondRampSync), 10_000, 0, 0, 4);
    assert_eq!(e.update(100, 223, false), Ok(()));
    assert_eq!(e.get_current_target().0, 224);
    assert_eq!(e.snapshot().profile, ramp(TemperatureProfileAState::SecondRampSync));
    assert_eq!(e.update(100, 224, false), Ok(()));
    assert_eq!(e.get_current_target().0, 224);
    assert_eq!(e.snapshot().profile, ramp(TemperatureProfileAState::SecondRampExtra));
}

#[test]
fn extra_state_holds_for_the_extra_time() {
    let mut e =
        TemperatureProfile::new(240, ramp(TemperatureProfileAState::PreHeatExtra), 10_000, 3_000, 0, 0);
    assert_eq!(e.update(2_999, 0, false), Ok(()));
    assert_eq!(e.get_current_target().0, 180);
    assert_eq!(e.snapshot().profile, ramp(TemperatureProfileAState::PreHeatExtra));
    assert_eq!(e.update(1, 0, false), Ok(()));
    assert_eq!(e.get_current_target().0, 180);
    assert_eq!(e.snapshot().profile, ramp(TemperatureProfileAState::SecondRamp));
}

#[test]
fn pre_heat_ramps_from_150_to_180() {
    let mut e = ramp_engine(240, TemperatureProfileAState::PreHeat);
    assert_eq!(e.get_current_target().0, 150);
    assert_eq!(e.update(40_000, 0, false), Ok(()));
    assert_eq!(e.get_current_target().0, 165);
    assert_eq!(e.update(39_999, 0, false), Ok(()));
    assert_eq!(e.get_current_target().0, 179);
    assert_eq!(e.update(1, 0, false), Ok(()));
    assert_eq!(e.get_current_target().0, 180);
    assert_eq!(e.snapshot().profile, ramp(TemperatureProfileAState::PreHeatExtra));
}

#[test]
fn second_ramp_climbs_from_180_to_220() {
    let mut e = ramp_engine(240, TemperatureProfileAState::SecondRamp);
    assert_eq!(e.update(6_500, 0, false), Ok(()));
    assert_eq!(e.get_current_target().0, 200);
    assert_eq!(e.update(6_499, 0, false), Ok(()));
    assert_eq!(e.get_current_target().0, 219);
    assert_eq!(e.snapshot().profile, ramp(TemperatureProfileAState::SecondRamp));
}

#[test]
fn peak_ramp_midpoint_is_linear_interpolation() {
    for x in [0u16, 1, 2, 20, 41, 100] {
        let mut e = ramp_engine(220 + x, TemperatureProfileAState::PeakRamp);
        assert_eq!(e.update(10_000, 0, false), Ok(()));
        assert_eq!(e.get_current_target().0, 220 + x / 2);
        assert_eq!(e.snapshot().profile, ramp(TemperatureProfileAState::PeakRamp));
    }
}

#[test]
fn peak_ramp_below_220_stays_flat() {
    let mut e = ramp_engine(200, TemperatureProfileAState::PeakRamp);
    assert_eq!(e.update(10_000, 0, false), Ok(()));
    assert_eq!(e.get_current_target().0, 220);
}

#[test]
fn peak_states_hold_the_peak_with_offsets() {
    let mut e =
        TemperatureProfile::new(250, ramp(TemperatureProfileAState::PeakRampSync), 10_000, 0, 5, -2);
    assert_eq!(e.get_current_target().0, 253);
    let mut e =
        TemperatureProfile::new(250, ramp(TemperatureProfileAState::PeakRampExtra), 10_000, 500, 5, -2);
    assert_eq!(e.get_current_target().0, 253);
}

#[test]
fn offsets_apply_to_held_and_ramped_values() {
    let mut e =
        TemperatureProfile::new(250, ramp(TemperatureProfileAState::FirstRampExtra), 10_000, 500, 5, 3);
    assert_eq!(e.get_current_target().0, 158);
    let mut e =
        TemperatureProfile::new(250, ramp(TemperatureProfileAState::SecondRampExtra), 10_000, 500, 5, 3);
    assert_eq!(e.get_current_target().0, 228);
    let mut e =
        TemperatureProfile::new(250, ramp(TemperatureProfileAState::FirstRamp), 10_000, 500, -300, 3);
    assert_eq!(e.update(10_000, 0, false), Ok(()));
    assert_eq!(e.get_current_target().0, 3);
}

#[test]
fn cooldown_is_zero_and_terminal() {
    let mut e =
        TemperatureProfile::new(250, ramp(TemperatureProfileAState::Cooldown), 10_000, 0, 5, 3);
    for _ in 0..50 {
        assert_eq!(e.update(10_000, 300, false), Ok(()));
        assert_eq!(e.get_current_target(), (0, None));
        assert_eq!(e.snapshot().profile, ramp(TemperatureProfileAState::Cooldown));
    }
}

#[test]
fn ramp_visits_every_state_once_in_order_and_never_falls_within_a_state() {
    let mut e = TemperatureProfile::new(245, ramp(TemperatureProfileAState::FirstRamp), 10_000, 1_500, 0, 0);
    let mut visited = vec![TemperatureProfileAState::FirstRamp];
    let mut last_in_state: Option<u16> = None;
    for _ in 0..2_500 {
        assert_eq!(e.update(100, 0, false), Ok(()));
        let before = e.snapshot().profile;
        let (target, report) = e.get_current_target();
        assert_eq!(report, None);
        let after = e.snapshot().profile;
        if before != after {
            match after {
                TemperatureProfileEnum::ProfileA { state } => visited.push(state),
                _ => panic!("left the ramp profile"),
            }
            // The target belongs to the sub-state that was entered.
            last_in_state = None;
        }
        if let Some(prev) = last_in_state {
            assert!(target >= prev, "{} < {} in {:?}", target, prev, after);
        }
        last_in_state = Some(target);
    }
    assert_eq!(
        visited,
        vec![
            TemperatureProfileAState::FirstRamp,
            TemperatureProfileAState::FirstRampSync,
            TemperatureProfileAState::FirstRampExtra,
            TemperatureProfileAState::PreHeat,
            TemperatureProfileAState::PreHeatExtra,
            TemperatureProfileAState::SecondRamp,
            TemperatureProfileAState::SecondRampSync,
            TemperatureProfileAState::SecondRampExtra,
            TemperatureProfileAState::PeakRamp,
            TemperatureProfileAState::PeakRampSync,
            TemperatureProfileAState::PeakRampExtra,
            TemperatureProfileAState::Cooldown,
        ]
    );
}

#[test]
fn reset_clears_clock_and_sub_state() {
    let mut e = ramp_engine(240, TemperatureProfileAState::FirstRamp);
    assert_eq!(e.update(50_000, 120, false), Ok(()));
    e.get_current_target();
    e.get_current_target();
    assert_ne!(e.snapshot().profile, ramp(TemperatureProfileAState::FirstRamp));
    e.reset();
    let s = e.snapshot();
    assert_eq!(s.elapsed_ms, 0);
    assert_eq!(s.state_start_ms, 0);
    assert_eq!(s.profile, ramp(TemperatureProfileAState::FirstRamp));
    assert_eq!(s.measured, 0);
    assert_eq!(s.last_target, 0);
    assert_eq!(s.rolling_max, 0);
    assert_eq!(s.last_max, 0);
    assert_eq!(s.last_check_ms, 0);
    assert_eq!(s.peak, 240);
    assert_eq!(s.wait_time_ms, 10_000);
    assert_eq!(e.get_current_target().0, 0);

    let mut e = TemperatureProfile::new(
        200,
        tune(TemperatureAutoCalibrateState::PeakHeating { n: 9 }),
        0,
        0,
        0,
        0,
    );
    assert_eq!(e.update(1_000, 100, true), Ok(()));
    e.reset();
    assert_eq!(e.snapshot().profile, tune(TemperatureAutoCalibrateState::FirstRamp));
    assert_eq!(e.snapshot().elapsed_ms, 0);
}

#[test]
fn setters_change_only_their_fields() {
    let mut e = ramp_engine(240, TemperatureProfileAState::FirstRamp);
    assert_eq!(e.update(1_000, 30, false), Ok(()));
    let before = e.snapshot();
    e.set_peak(300);
    assert_eq!(e.snapshot(), ProfileState { peak: 300, ..before });
    e.set_profile(TemperatureProfileEnum::Static);
    assert_eq!(
        e.snapshot(),
        ProfileState { peak: 300, profile: TemperatureProfileEnum::Static, ..before }
    );
    e.set_settings(1, 2, 3, 4);
    assert_eq!(
        e.snapshot(),
        ProfileState {
            peak: 300,
            profile: TemperatureProfileEnum::Static,
            wait_time_ms: 1,
            extra_time_ms: 2,
            lead_offset: 3,
            temp_offset: 4,
            ..before
        }
    );
}

#[test]
fn smoothed_maximum_takes_nine_parts_of_a_higher_reading() {
    let mut e = TemperatureProfile::new(200, TemperatureProfileEnum::Static, 0, 0, 0, 0);
    assert_eq!(e.update(100, 100, false), Ok(()));
    assert_eq!(e.snapshot().rolling_max, 90);
    assert_eq!(e.update(100, 100, false), Ok(()));
    assert_eq!(e.snapshot().rolling_max, 99);
    assert_eq!(e.update(100, 50, false), Ok(()));
    assert_eq!(e.snapshot().rolling_max, 99);
    assert_eq!(e.update(100, u16::MAX, false), Ok(()));
    assert_eq!(e.snapshot().rolling_max, ((65_535u32 * 9 + 99) / 10) as u16);
    assert_eq!(e.snapshot().measured, u16::MAX);
    assert_eq!(e.snapshot().elapsed_ms, 400);
}

#[test]
fn flat_temperature_below_target_raises_runaway() {
    let mut e = TemperatureProfile::new(200, TemperatureProfileEnum::Static, 0, 0, 0, 0);
    assert_eq!(e.get_current_target().0, 200);
    let mut faults = 0;
    let mut first_fault_at = 0;
    let mut t = 0u64;
    // The first interval sees the maximum rise from 0; the second sees it flat.
    while faults == 0 && t < 20_000 {
        t += 100;
        match e.update(100, 50, true) {
            Ok(()) => {}
            Err(fault) => {
                faults += 1;
                first_fault_at = t;
                assert_eq!(fault, ThermalRunaway { reached: 49, required: 51 });
            }
        }
        e.get_current_target();
    }
    assert_eq!(faults, 1);
    assert_eq!(first_fault_at, 10_000);
}

#[test]
fn climbing_temperature_never_raises_runaway() {
    let mut e = TemperatureProfile::new(200, TemperatureProfileEnum::Static, 0, 0, 0, 0);
    assert_eq!(e.get_current_target().0, 200);
    let mut temp = 20u16;
    for step in 0..600u32 {
        if step % 10 == 0 && temp < 190 {
            temp += 1;
        }
        assert_eq!(e.update(100, temp, true), Ok(()));
        e.get_current_target();
    }
}

#[test]
fn runaway_check_needs_heating_and_no_tuning() {
    let mut e = TemperatureProfile::new(200, TemperatureProfileEnum::Static, 0, 0, 0, 0);
    e.get_current_target();
    for _ in 0..300 {
        assert_eq!(e.update(100, 50, false), Ok(()));
    }
    let mut e = TemperatureProfile::new(
        200,
        tune(TemperatureAutoCalibrateState::FirstRamp),
        0,
        0,
        0,
        0,
    );
    e.get_current_target();
    for _ in 0..300 {
        assert_eq!(e.update(100, 50, true), Ok(()));
        e.get_current_target();
    }
}

#[test]
fn reaching_the_target_restarts_the_runaway_bookkeeping() {
    let mut e = TemperatureProfile::new(200, TemperatureProfileEnum::Static, 0, 0, 0, 0);
    e.get_current_target();
    assert_eq!(e.update(6_000, 100, true), Ok(()));
    let s = e.snapshot();
    assert_eq!(s.last_check_ms, 6_000);
    assert_eq!(s.last_max, 90);
    assert_eq!(e.update(100, 199, true), Ok(()));
    let s = e.snapshot();
    assert_eq!(s.last_max, 0);
    assert_eq!(s.rolling_max, 200);
    assert_eq!(s.last_check_ms, 6_000);
}

/// Drives one tuning run with a triangle wave between `low` and `high` and
/// returns every report with the engine state at its arrival.
fn run_tuning(peak: u16, low: u16, high: u16, step_ms: u64) -> Vec<(TuneProgress, TemperatureProfileEnum)> {
    let mut e = TemperatureProfile::new(
        peak,
        tune(TemperatureAutoCalibrateState::FirstRamp),
        0,
        0,
        0,
        0,
    );
    let mut reports = Vec::new();
    let mut temp = low;
    let mut rising = true;
    for _ in 0..20_000 {
        if rising {
            temp += 1;
            if temp >= high {
                rising = false;
            }
        } else {
            temp -= 1;
            if temp <= low {
                rising = true;
            }
        }
        assert_eq!(e.update(step_ms, temp, true), Ok(()));
        let before = e.snapshot().profile;
        let (target, report) = e.get_current_target();
        match before {
            TemperatureProfileEnum::AutoCalibrate { state } => match state {
                TemperatureAutoCalibrateState::PeakCooling { .. } => assert_eq!(target, peak - 5),
                TemperatureAutoCalibrateState::Cooldown => assert_eq!(target, 0),
                _ => assert_eq!(target, peak),
            },
            _ => panic!("left the tuning run"),
        }
        if let Some(r) = report {
            reports.push((r, e.snapshot().profile));
        }
        if e.snapshot().profile == tune(TemperatureAutoCalibrateState::Cooldown) {
            break;
        }
    }
    assert_eq!(e.snapshot().profile, tune(TemperatureAutoCalibrateState::Cooldown));
    assert_eq!(e.get_current_target(), (0, None));
    reports
}

#[test]
fn tuning_reports_amplitude_and_period_of_the_oscillation() {
    // Triangle wave between 190 and 205 around a peak of 200, one degree
    // every 100 ms: extremes 205 and 190, half a period 1500 ms.
    let reports = run_tuning(200, 190, 205, 100);
    assert!(!reports.is_empty());
    // No report before four cooling phases are complete.
    assert_eq!(reports[0].0.iteration, 4);
    for (r, _) in reports.iter() {
        assert!(r.iteration >= 4);
        assert_eq!(r.temp_swing(), 15);
        assert_eq!(r.time_span_ms(), 1_500);
    }
    // Iterations 4 to 11 report twice, once per phase; 12 ends the run.
    let iterations: Vec<u8> = reports.iter().map(|(r, _)| r.iteration).collect();
    assert_eq!(iterations, vec![4, 4, 5, 5, 6, 6, 7, 7, 8, 8, 9, 9, 10, 10, 11, 11, 12]);
    let (last, state) = reports[reports.len() - 1];
    assert!(last.done);
    assert_eq!(state, tune(TemperatureAutoCalibrateState::Cooldown));
    for (r, _) in reports[..reports.len() - 1].iter() {
        assert!(!r.done);
    }
}

#[test]
fn tuning_gains_follow_the_closed_form() {
    let reports = run_tuning(200, 190, 205, 100);
    let r = reports[3].0;
    let amplitude = r.temp_swing() as f32 * 0.5;
    let period = r.time_span_ms() as f32 / 1000.0;
    let ku = 4.0 / (core::f32::consts::PI * amplitude);
    let kp = 0.6 * ku * 255.0;
    let ki = kp / (0.5 * period);
    let kd = kp * 0.125 * period;
    assert!((amplitude - 7.5).abs() < 1e-6);
    assert!((period - 1.5).abs() < 1e-6);
    assert!((kp - 25.974_65).abs() < 1e-3);
    assert!((ki - 34.632_87).abs() < 1e-3);
    assert!((kd - 4.870_247).abs() < 1e-3);
}

#[test]
fn tuning_first_ramp_switches_at_the_peak() {
    let mut e = TemperatureProfile::new(
        200,
        tune(TemperatureAutoCalibrateState::FirstRamp),
        0,
        0,
        0,
        0,
    );
    assert_eq!(e.update(100, 199, true), Ok(()));
    assert_eq!(e.get_current_target(), (200, None));
    assert_eq!(e.snapshot().profile, tune(TemperatureAutoCalibrateState::FirstRamp));
    assert_eq!(e.update(100, 200, true), Ok(()));
    assert_eq!(e.get_current_target(), (200, None));
    assert_eq!(
        e.snapshot().profile,
        tune(TemperatureAutoCalibrateState::PeakCooling { n: 0 })
    );
    assert_eq!(e.snapshot().phase_extreme, u16::MAX);
    assert_eq!(e.get_current_target(), (195, None));
}

#[test]
fn tuning_records_extrema_and_reports_from_the_fourth_cycle() {
    let mut e = TemperatureProfile::new(
        200,
        tune(TemperatureAutoCalibrateState::PeakHeating { n: 3 }),
        0,
        0,
        0,
        0,
    );
    assert_eq!(e.update(100, 193, true), Ok(()));
    assert_eq!(e.get_current_target(), (200, None));
    assert_eq!(e.snapshot().phase_extreme, 0);
    assert_eq!(e.update(100, 201, true), Ok(()));
    assert_eq!(e.get_current_target(), (200, None));
    let s = e.snapshot();
    assert_eq!(s.profile, tune(TemperatureAutoCalibrateState::PeakCooling { n: 3 }));
    assert_eq!(s.newer, Extremum { temp: 0, at_ms: 200 });
    assert_eq!(s.phase_extreme, 0);
    assert_eq!(e.update(100, 204, true), Ok(()));
    assert_eq!(e.get_current_target(), (195, None));
    assert_eq!(e.snapshot().phase_extreme, 204);
    assert_eq!(e.update(100, 195, true), Ok(()));
    assert_eq!(e.get_current_target(), (195, None));
    let s = e.snapshot();
    assert_eq!(s.profile, tune(TemperatureAutoCalibrateState::PeakHeating { n: 4 }));
    assert_eq!(s.older, Extremum { temp: 0, at_ms: 200 });
    assert_eq!(s.newer, Extremum { temp: 204, at_ms: 400 });
    assert_eq!(s.phase_extreme, u16::MAX);
    assert_eq!(e.update(100, 192, true), Ok(()));
    assert_eq!(e.get_current_target(), (200, None));
    assert_eq!(e.snapshot().phase_extreme, 192);
    assert_eq!(e.update(100, 200, true), Ok(()));
    let expected = TuneProgress {
        iteration: 4,
        older: Extremum { temp: 204, at_ms: 400 },
        newer: Extremum { temp: 192, at_ms: 600 },
        done: false,
    };
    assert_eq!(e.get_current_target(), (200, Some(expected)));
    assert_eq!(expected.temp_swing(), 12);
    assert_eq!(expected.time_span_ms(), 200);
}

#[test]
fn tuning_with_a_small_peak_keeps_the_band_at_zero() {
    let mut e = TemperatureProfile::new(
        3,
        tune(TemperatureAutoCalibrateState::PeakCooling { n: 0 }),
        0,
        0,
        0,
        0,
    );
    assert_eq!(e.update(100, 1, true), Ok(()));
    assert_eq!(e.get_current_target(), (0, None));
    assert_eq!(e.snapshot().profile, tune(TemperatureAutoCalibrateState::PeakCooling { n: 0 }));
    assert_eq!(e.update(100, 0, true), Ok(()));
    assert_eq!(e.get_current_target(), (0, None));
    assert_eq!(e.snapshot().profile, tune(TemperatureAutoCalibrateState::PeakHeating { n: 1 }));
}

#[test]
fn time_span_is_zero_for_extrema_out_of_order() {
    let p = TuneProgress {
        iteration: 5,
        older: Extremum { temp: 10, at_ms: 900 },
        newer: Extremum { temp: 30, at_ms: 100 },
        done: false,
    };
    assert_eq!(p.time_span_ms(), 0);
    assert_eq!(p.temp_swing(), 20);
}
