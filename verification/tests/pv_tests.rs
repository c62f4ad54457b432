use energy_sims::messages::{CommodityQuantity, ControlType, InstructionStatus};
use energy_sims::profile::{ProfileRow, MW_PER_MILLI, SIMULATED_START_MS};
use energy_sims::pv_simulator_pebc::{
    PebcInstruction, PowerEnvelope, PowerEnvelopeElement, PvSimulator,
};
use energy_sims::pv_simulator_simple;

const HOUR: i64 = 3_600_000;
/// A construction-time clock reading; the simulated timeline then starts
/// right here, so simulated time T0 + x maps onto SIMULATED_START_MS + x.
const T0: i64 = 1_000_000;

/// Thirty hours of profile from the simulated start, with recognizable
/// values: hour k holds 10 * k thousandths.
fn profile() -> Vec<ProfileRow> {
    (0..30)
        .map(|k: i64| ProfileRow {
            timestamp_ms: SIMULATED_START_MS + k * HOUR,
            value_milli: 10 * k,
        })
        .collect()
}

fn sim() -> PvSimulator {
    PvSimulator::new_at(profile(), T0)
}

#[test]
fn current_power_reads_the_profile() {
    let s = sim();
    // At T0 the simulated hour is the profile's first row: value 0.
    assert_eq!(s.get_current_power_at(T0), Some(0));
    // Five hours later the profile holds 50 thousandths: 100 W.
    assert_eq!(s.get_current_power_at(T0 + 5 * HOUR), Some(50 * MW_PER_MILLI));
    // Within the hour, the value of the hour's start governs.
    assert_eq!(
        s.get_current_power_at(T0 + 5 * HOUR + 59 * 60_000),
        Some(50 * MW_PER_MILLI)
    );
}

#[test]
fn current_power_outside_the_profile_is_a_lookup_miss() {
    let s = sim();
    assert_eq!(s.get_current_power_at(T0 + 31 * HOUR), None);
    assert_eq!(s.get_current_power_at(T0 - 2 * HOUR), None);
}

#[test]
fn constraints_clamp_current_power() {
    let mut s = sim();
    let now = T0 + 5 * HOUR;
    // Unconstrained: 100_000 mW. Cap it at 30_000 mW.
    s.add_constraint_at(now, now + HOUR, 0, 30_000, now);
    assert_eq!(s.get_current_power_at(now), Some(30_000));
    // A lower bound above the profile value raises the report.
    let mut s = sim();
    s.add_constraint_at(now, now + HOUR, 150_000, 2_000_000, now);
    assert_eq!(s.get_current_power_at(now), Some(150_000));
}

#[test]
fn constraint_interval_is_half_open() {
    let mut s = sim();
    let now = T0 + 5 * HOUR;
    s.add_constraint_at(now, now + HOUR, 0, 30_000, now);
    // The end instant itself is no longer constrained.
    assert_eq!(s.get_current_constraints(now + HOUR - 1), (0, 30_000));
    assert_eq!(
        s.get_current_constraints(now + HOUR),
        (-2_000_000, 2_000_000)
    );
}

#[test]
fn first_inserted_constraint_governs_overlap() {
    let mut s = sim();
    let now = T0 + 5 * HOUR;
    s.add_constraint_at(now, now + 2 * HOUR, 0, 40_000, now);
    s.add_constraint_at(now, now + 2 * HOUR, 0, 80_000, now);
    // Both cover `now`; the earlier-inserted bounds win.
    assert_eq!(s.get_current_constraints(now), (0, 40_000));
    assert_eq!(s.get_current_power_at(now), Some(40_000));
}

#[test]
fn registration_prunes_expired_constraints() {
    let mut s = sim();
    let now = T0 + 5 * HOUR;
    s.add_constraint_at(now - 3 * HOUR, now - 2 * HOUR, 0, 10_000, now - 3 * HOUR);
    assert_eq!(s.constraints.len(), 1);
    // Registering at `now` drops the long-ended interval.
    s.add_constraint_at(now, now + HOUR, 0, 20_000, now);
    assert_eq!(s.constraints.len(), 1);
    assert_eq!(s.constraints[0].upper_limit_mw, 20_000);
    // A constraint that already ended is dropped at once; one ending
    // exactly now counts as ended.
    s.add_constraint_at(now - HOUR, now, 0, 5_000, now);
    assert_eq!(s.constraints.len(), 1);
    assert_eq!(s.constraints[0].upper_limit_mw, 20_000);
}

#[test]
fn forecast_has_24_hours_from_the_next_full_hour() {
    let s = sim();
    let now = T0 + 2 * HOUR + 17 * 60_000;
    let f = s.get_24h_forecast_at(now).expect("profile covers the day");
    assert_eq!(f.len(), 24);
    for (k, value) in f.iter().enumerate() {
        // Hour 2 is current; the forecast starts at hour 3.
        let hour_index = 3 + k as i64;
        assert_eq!(*value, 10 * hour_index * MW_PER_MILLI);
    }
}

#[test]
fn forecast_from_an_hour_boundary_starts_one_hour_later() {
    let s = sim();
    // At exactly the start of hour 2, the next full hour is hour 3.
    let f = s
        .get_24h_forecast_at(T0 + 2 * HOUR)
        .expect("profile covers the day");
    assert_eq!(f[0], 10 * 3 * MW_PER_MILLI);
}

#[test]
fn instants_before_the_simulated_epoch_are_a_miss() {
    let s = sim();
    // So far back that even the simulated instant is negative.
    assert_eq!(s.get_current_power_at(-2 * SIMULATED_START_MS), None);
}

#[test]
fn forecast_ignores_constraints() {
    let mut s = sim();
    let now = T0 + 2 * HOUR;
    let unconstrained = s.get_24h_forecast_at(now).expect("profile covers the day");
    s.add_constraint_at(now, now + 48 * HOUR, 0, 0, now);
    let constrained = s.get_24h_forecast_at(now).expect("profile covers the day");
    assert_eq!(unconstrained, constrained);
    // While the measurement is fully curtailed.
    assert_eq!(s.get_current_power_at(now), Some(0));
}

#[test]
fn forecast_missing_an_hour_is_a_miss() {
    let s = sim();
    // Hour 29 is the last row; a forecast from hour 6 onward needs hour 30.
    assert_eq!(s.get_24h_forecast_at(T0 + 6 * HOUR), None);
    assert!(s.get_24h_forecast_at(T0 + 5 * HOUR).is_some());
}

#[test]
fn instruction_registers_constraints_per_matching_envelope() {
    let mut s = sim();
    let now = T0 + 5 * HOUR;
    let instr = PebcInstruction {
        instruction_id: "envelope-1".to_string(),
        execution_time_ms: now,
        power_envelopes: vec![
            PowerEnvelope {
                commodity_quantity: CommodityQuantity::ElectricPowerL1,
                elements: vec![
                    PowerEnvelopeElement {
                        duration_ms: HOUR,
                        lower_limit_mw: 0,
                        upper_limit_mw: 60_000,
                    },
                    PowerEnvelopeElement {
                        duration_ms: 2 * HOUR,
                        lower_limit_mw: 0,
                        upper_limit_mw: 90_000,
                    },
                ],
            },
            PowerEnvelope {
                commodity_quantity: CommodityQuantity::Other,
                elements: vec![PowerEnvelopeElement {
                    duration_ms: HOUR,
                    lower_limit_mw: 0,
                    upper_limit_mw: 1,
                }],
            },
        ],
    };
    let status = s.handle_instruction_at(&instr, now);
    assert_eq!(status.instruction_id, "envelope-1");
    assert_eq!(status.status_type, InstructionStatus::Succeeded);
    assert_eq!(status.timestamp_ms, now);
    // The unrelated commodity was skipped, both matching elements landed,
    // both starting at the execution time.
    assert_eq!(s.constraints.len(), 2);
    assert_eq!(s.constraints[0].start_time_ms, now);
    assert_eq!(s.constraints[0].end_time_ms, now + HOUR);
    assert_eq!(s.constraints[0].upper_limit_mw, 60_000);
    assert_eq!(s.constraints[1].end_time_ms, now + 2 * HOUR);
    // First match still governs: 60_000 caps the 100_000 profile value.
    assert_eq!(s.get_current_power_at(now), Some(60_000));
}

#[test]
fn control_type_negotiation() {
    assert!(energy_sims::pv_simulator_pebc::accepts_control_type(
        &ControlType::PowerEnvelopeBasedControl
    ));
    assert!(!energy_sims::pv_simulator_pebc::accepts_control_type(
        &ControlType::NotControlable
    ));
    assert!(pv_simulator_simple::accepts_control_type(
        &ControlType::NotControlable
    ));
    assert!(pv_simulator_simple::accepts_control_type(
        &ControlType::NoSelection
    ));
    assert!(!pv_simulator_simple::accepts_control_type(
        &ControlType::PowerEnvelopeBasedControl
    ));
}

#[test]
fn simple_simulator_reports_production_as_negative() {
    let s = pv_simulator_simple::PvSimulator::new_at(profile(), T0);
    let now = T0 + 5 * HOUR;
    assert_eq!(s.get_current_power_at(now), Some(100_000));
    assert_eq!(s.reported_measurement_at(now), Some(-100_000));
    let f = s.get_24h_forecast_at(now).expect("profile covers the day");
    let r = s
        .reported_24h_forecast_at(now)
        .expect("profile covers the day");
    assert_eq!(f.len(), 24);
    assert_eq!(r.len(), 24);
    for k in 0..24 {
        assert_eq!(r[k], -f[k]);
    }
}

#[test]
fn clock_anchored_construction_reads_the_profile_now() {
    // A simulator anchored to the real clock maps the present moment onto
    // the start of the simulated timeline, whose hour the profile holds.
    let s = PvSimulator::new(profile());
    assert_eq!(s.get_current_power(), Some(0));
    let f = s.get_24h_forecast().expect("profile covers the day");
    assert_eq!(f.len(), 24);
    let mut s = s;
    // The interval lies in the simulated future, so pruning against the
    // real clock keeps it.
    s.add_constraint(SIMULATED_START_MS, SIMULATED_START_MS + HOUR, 0, 1);
    assert_eq!(s.constraints.len(), 1);
    // An interval that ended long ago in real time is dropped at once.
    s.add_constraint(0, 1, 0, 1);
    assert_eq!(s.constraints.len(), 1);
}
