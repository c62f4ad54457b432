use energy_sims::battery_simulator::{
    FrbcInstruction, Inbound, Outbound, Simulator, CAPACITY_MJ, INITIAL_FILL_MJ, LEAKAGE_MW,
};
use energy_sims::messages::InstructionStatus;

const IDLE: u128 = 11;
const CHARGE: u128 = 22;
const DISCHARGE: u128 = 33;
const ACTUATOR: u128 = 99;
const T0: i64 = 1_700_000_000_000;

fn fresh() -> Simulator {
    Simulator::new_with_ids(IDLE, CHARGE, DISCHARGE, ACTUATOR, T0)
}

fn instruction(target: Option<u128>, factor_milli: u32) -> Inbound {
    Inbound::FrbcInstruction(FrbcInstruction {
        instruction_id: "instr-1".to_string(),
        operation_mode: target,
        operation_mode_factor_milli: factor_milli,
    })
}

#[test]
fn fresh_battery_state() {
    let s = fresh();
    assert_eq!(s.fill_level_mj, INITIAL_FILL_MJ);
    assert_eq!(s.active_operation_mode, IDLE);
    assert_eq!(s.operation_mode_factor, 500);
    assert_eq!(s.last_updated_ms, T0);
    assert_eq!(s.operation_modes.len(), 3);
}

#[test]
fn idle_tick_holds_fill_for_any_elapsed_time() {
    let mut s = fresh();
    let st = s.update_at(T0 + 86_400_000);
    assert_eq!(st.present_fill_level_mj, INITIAL_FILL_MJ);
    let st = s.update_at(T0 + 86_400_000 + 3_600_000_000);
    assert_eq!(st.present_fill_level_mj, INITIAL_FILL_MJ);
}

#[test]
fn charge_at_full_factor_moves_by_nominal_rate() {
    let mut s = fresh();
    let out = s.process_message_at(&instruction(Some(CHARGE), 1000), T0);
    assert_eq!(out.len(), 3);
    // One hour at 5_000_000 mJ/s.
    let st = s.update_at(T0 + 3_600_000);
    assert_eq!(st.present_fill_level_mj, INITIAL_FILL_MJ + 5_000_000 * 3600);
}

#[test]
fn charge_at_zero_factor_moves_by_derated_rate() {
    let mut s = fresh();
    s.process_message_at(&instruction(Some(CHARGE), 0), T0);
    let st = s.update_at(T0 + 3_600_000);
    assert_eq!(st.present_fill_level_mj, INITIAL_FILL_MJ + 2_500_000 * 3600);
}

#[test]
fn fill_level_clamps_at_capacity() {
    let mut s = fresh();
    s.process_message_at(&instruction(Some(CHARGE), 1000), T0);
    // Ten hours would overshoot a half-full 20 kWh battery by far.
    let st = s.update_at(T0 + 10 * 3_600_000);
    assert_eq!(st.present_fill_level_mj, CAPACITY_MJ);
}

#[test]
fn fill_level_clamps_at_zero() {
    let mut s = fresh();
    s.process_message_at(&instruction(Some(DISCHARGE), 1000), T0);
    let st = s.update_at(T0 + 10 * 3_600_000);
    assert_eq!(st.present_fill_level_mj, 0);
}

#[test]
fn extreme_clock_readings_clamp_instead_of_overflowing() {
    let mut s = fresh();
    s.process_message_at(&instruction(Some(CHARGE), 1000), T0);
    let st = s.update_at(i64::MAX);
    assert_eq!(st.present_fill_level_mj, CAPACITY_MJ);
    let mut s = fresh();
    s.process_message_at(&instruction(Some(DISCHARGE), 1000), i64::MIN);
    let st = s.update_at(i64::MAX);
    assert_eq!(st.present_fill_level_mj, 0);
}

#[test]
fn sub_second_and_backward_clock_readings_change_nothing() {
    let mut s = fresh();
    s.process_message_at(&instruction(Some(CHARGE), 1000), T0);
    let st = s.update_at(T0 + 999);
    assert_eq!(st.present_fill_level_mj, INITIAL_FILL_MJ);
    let st = s.update_at(T0 - 5_000);
    assert_eq!(st.present_fill_level_mj, INITIAL_FILL_MJ);
    assert_eq!(s.last_updated_ms, T0 + 999);
}

#[test]
fn unknown_mode_is_rejected_and_state_unchanged() {
    let mut s = fresh();
    let out = s.process_message_at(&instruction(Some(777), 800), T0 + 500);
    assert_eq!(out.len(), 1);
    match &out[0] {
        Outbound::InstructionStatus(u) => {
            assert_eq!(u.instruction_id, "instr-1");
            assert_eq!(u.status_type, InstructionStatus::Rejected);
            assert_eq!(u.timestamp_ms, T0 + 500);
        }
        _ => panic!("expected an instruction status"),
    }
    assert_eq!(s.active_operation_mode, IDLE);
    assert_eq!(s.operation_mode_factor, 500);
    assert_eq!(s.fill_level_mj, INITIAL_FILL_MJ);
}

#[test]
fn unparsable_mode_reference_is_rejected() {
    let mut s = fresh();
    let out = s.process_message_at(&instruction(None, 800), T0);
    assert_eq!(out.len(), 1);
    match &out[0] {
        Outbound::InstructionStatus(u) => assert_eq!(u.status_type, InstructionStatus::Rejected),
        _ => panic!("expected an instruction status"),
    }
    assert_eq!(s.active_operation_mode, IDLE);
}

#[test]
fn accepted_instruction_produces_three_messages_in_order() {
    let mut s = fresh();
    let out = s.process_message_at(&instruction(Some(DISCHARGE), 250), T0 + 1000);
    assert_eq!(out.len(), 3);
    match &out[0] {
        Outbound::InstructionStatus(u) => {
            assert_eq!(u.instruction_id, "instr-1");
            assert_eq!(u.status_type, InstructionStatus::Succeeded);
            assert_eq!(u.timestamp_ms, T0 + 1000);
        }
        _ => panic!("message one must be the acceptance"),
    }
    match &out[1] {
        Outbound::ActuatorStatus(a) => {
            assert_eq!(a.actuator_id, ACTUATOR);
            assert_eq!(a.active_operation_mode_id, DISCHARGE);
            assert_eq!(a.previous_operation_mode_id, IDLE);
            assert_eq!(a.operation_mode_factor_milli, 250);
        }
        _ => panic!("message two must be the actuator report"),
    }
    match &out[2] {
        Outbound::StorageStatus(st) => assert_eq!(st.present_fill_level_mj, INITIAL_FILL_MJ),
        _ => panic!("message three must be the storage status"),
    }
    assert_eq!(s.active_operation_mode, DISCHARGE);
    assert_eq!(s.operation_mode_factor, 250);
}

#[test]
fn oversized_factor_saturates_at_one() {
    let mut s = fresh();
    s.process_message_at(&instruction(Some(CHARGE), 4321), T0);
    assert_eq!(s.operation_mode_factor, 1000);
}

#[test]
fn non_instruction_messages_are_ignored() {
    let mut s = fresh();
    let out = s.process_message_at(&Inbound::Other, T0 + 60_000);
    assert!(out.is_empty());
    assert_eq!(s.active_operation_mode, IDLE);
    assert_eq!(s.last_updated_ms, T0 + 60_000);
}

#[test]
fn system_description_lists_catalog_and_transitions() {
    let s = fresh();
    let d = s.system_description();
    assert_eq!(d.actuator_id, ACTUATOR);
    assert_eq!(d.operation_modes.len(), 3);
    assert_eq!(d.operation_modes[0].id, IDLE);
    assert_eq!(d.operation_modes[1].id, CHARGE);
    assert_eq!(d.operation_modes[2].id, DISCHARGE);
    assert_eq!(d.fill_level_lo_mj, 0);
    assert_eq!(d.fill_level_hi_mj, CAPACITY_MJ);
    let t: Vec<(u128, u128)> = d.transitions.iter().map(|t| (t.from, t.to)).collect();
    assert_eq!(
        t,
        vec![(IDLE, CHARGE), (CHARGE, IDLE), (IDLE, DISCHARGE), (DISCHARGE, IDLE)]
    );
}

#[test]
fn mode_envelopes_match_the_device() {
    let s = fresh();
    let charge = &s.operation_modes[1];
    assert_eq!(charge.fill_rate.start, 5_000_000);
    assert_eq!(charge.fill_rate.end, 2_500_000);
    assert_eq!(charge.power.start, 5_000_000);
    assert_eq!(charge.power.end, 2_500_000);
    let discharge = &s.operation_modes[2];
    assert_eq!(discharge.fill_rate.start, -5_000_000);
    assert_eq!(discharge.power.end, -2_500_000);
    let idle = &s.operation_modes[0];
    assert_eq!(idle.fill_rate.start, 0);
    assert_eq!(idle.fill_rate.end, 0);
}

#[test]
fn leakage_behaviour_reports_the_constant_loss() {
    let s = fresh();
    let l = s.leakage_behaviour();
    assert_eq!(l.leakage_rate_mw, LEAKAGE_MW);
    assert_eq!(l.fill_level_lo_mj, 0);
    assert_eq!(l.fill_level_hi_mj, CAPACITY_MJ);
}

#[test]
fn usage_forecast_is_24_hours_of_nothing() {
    let s = fresh();
    let f = s.forecast();
    assert_eq!(f.elements.len(), 24);
    for e in &f.elements {
        assert_eq!(e.duration_ms, 3_600_000);
        assert_eq!(e.usage_rate_expected_milli, 0);
    }
}

#[test]
fn construction_with_fresh_identities_succeeds() {
    let s = Simulator::new().expect("random identities must not collide");
    assert_eq!(s.fill_level_mj, INITIAL_FILL_MJ);
    assert_eq!(s.operation_mode_factor, 500);
    assert_eq!(s.active_operation_mode, s.operation_modes[0].id);
    assert_ne!(s.operation_modes[0].id, s.operation_modes[1].id);
    assert_ne!(s.operation_modes[1].id, s.operation_modes[2].id);
}

#[test]
fn clock_driven_update_keeps_idle_fill() {
    let mut s = Simulator::new().expect("random identities must not collide");
    let st = s.update();
    assert_eq!(st.present_fill_level_mj, INITIAL_FILL_MJ);
}
