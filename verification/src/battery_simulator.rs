//! A battery that participates in a device-control session as a storage
//! resource. It owns a catalog of exactly three operation modes (idle,
//! charge, discharge), a fill level advanced by numeric integration of the
//! active mode's fill rate, and answers mode-switch instructions after
//! validating them against the catalog.
//!
//! The battery has a capacity of 20 kWh and charges or discharges at up to
//! 5 kW, so energy is held in millijoules (at most 72_000_000_000) and
//! rates in millijoules per second, which equals milliwatts.

use vstd::prelude::*;

use crate::clock::{fresh_id, now_millis};
use crate::clamp_int;
use crate::messages::{InstructionStatus, InstructionStatusUpdate};

verus! {

/// The battery's usable capacity, in millijoules (20 kWh).
pub const CAPACITY_MJ: i64 = 72_000_000_000;

/// The fill level a freshly constructed battery reports: half full.
pub const INITIAL_FILL_MJ: i64 = 36_000_000_000;

/// Nominal charge or discharge rate, in millijoules per second (5 kW).
pub const RATE_FULL_MJS: i64 = 5_000_000;

/// Derated charge or discharge rate, in millijoules per second (2.5 kW).
pub const RATE_HALF_MJS: i64 = 2_500_000;

/// Nominal discharge rate, signed as a fill-level change (-5 kW).
pub const RATE_FULL_NEG_MJS: i64 = -5_000_000;

/// Derated discharge rate, signed as a fill-level change (-2.5 kW).
pub const RATE_HALF_NEG_MJS: i64 = -2_500_000;

/// Constant self-discharge of the storage, in milliwatts (0.5 W),
/// independent of the fill level.
pub const LEAKAGE_MW: i64 = 500;

/// Operation-mode factors are fractions held in thousandths; this is the
/// value standing for one.
pub const FACTOR_SCALE: u32 = 1000;

/// A numeric envelope: the value at the start of a mode's range and the
/// value at its end.
#[derive(Clone, Copy, Debug)]
pub struct RateRange {
    pub start: i64,
    pub end: i64,
}

/// Which of the three catalog modes a mode definition is.
#[derive(Clone, Copy, PartialEq, Eq, Structural, Debug)]
pub enum ModeKind {
    Idle,
    Charge,
    Discharge,
}

/// One operation mode of the battery: an identity, the fill-rate envelope
/// that drives integration (millijoules per second), the fill levels the
/// mode applies to, and the electrical power envelope (milliwatts).
#[derive(Clone, Copy, Debug)]
pub struct OperationModeDef {
    pub id: u128,
    pub kind: ModeKind,
    pub fill_rate: RateRange,
    pub fill_level_lo_mj: i64,
    pub fill_level_hi_mj: i64,
    pub power: RateRange,
}

/// The idle mode: no fill-level change, no power.
pub open spec fn idle_def(id: u128) -> OperationModeDef {
    OperationModeDef {
        id: id,
        kind: ModeKind::Idle,
        fill_rate: RateRange { start: 0, end: 0 },
        fill_level_lo_mj: 0,
        fill_level_hi_mj: CAPACITY_MJ,
        power: RateRange { start: 0, end: 0 },
    }
}

/// The charge mode: the range runs from the nominal rate down to half of it.
pub open spec fn charge_def(id: u128) -> OperationModeDef {
    OperationModeDef {
        id: id,
        kind: ModeKind::Charge,
        fill_rate: RateRange { start: RATE_FULL_MJS, end: RATE_HALF_MJS },
        fill_level_lo_mj: 0,
        fill_level_hi_mj: CAPACITY_MJ,
        power: RateRange { start: RATE_FULL_MJS, end: RATE_HALF_MJS },
    }
}

/// The discharge mode: the mirror image of the charge mode.
pub open spec fn discharge_def(id: u128) -> OperationModeDef {
    OperationModeDef {
        id: id,
        kind: ModeKind::Discharge,
        fill_rate: RateRange { start: RATE_FULL_NEG_MJS, end: RATE_HALF_NEG_MJS },
        fill_level_lo_mj: 0,
        fill_level_hi_mj: CAPACITY_MJ,
        power: RateRange { start: RATE_FULL_NEG_MJS, end: RATE_HALF_NEG_MJS },
    }
}

/// The catalog a battery carries for the whole session: idle, charge,
/// discharge, in that order.
pub open spec fn catalog(idle_id: u128, charge_id: u128, discharge_id: u128) -> Seq<
    OperationModeDef,
> {
    seq![idle_def(idle_id), charge_def(charge_id), discharge_def(discharge_id)]
}

/// Whether `id` names a mode of the three-entry catalog `ms`.
pub open spec fn has_mode(ms: Seq<OperationModeDef>, id: u128) -> bool
    recommends
        ms.len() == 3,
{
    ms[0].id == id || ms[1].id == id || ms[2].id == id
}

/// The catalog entry named by `id` (the first one, were ids ever shared).
pub open spec fn mode_by_id(ms: Seq<OperationModeDef>, id: u128) -> OperationModeDef
    recommends
        ms.len() == 3,
{
    if ms[0].id == id {
        ms[0]
    } else if ms[1].id == id {
        ms[1]
    } else {
        ms[2]
    }
}

/// Linear interpolation inside an envelope: a factor of one (1000
/// thousandths) selects the start-of-range value, a factor of zero the
/// end-of-range value.
pub open spec fn interp_rate(r: RateRange, factor: int) -> int {
    r.end + (r.start - r.end) * factor / 1000
}

/// Whole seconds elapsed between two readings of the clock. A reading that
/// stepped backwards counts as no elapsed time.
pub open spec fn elapsed_s(last_ms: int, now_ms: int) -> int {
    if now_ms >= last_ms {
        (now_ms - last_ms) / 1000
    } else {
        0
    }
}

/// The fill level after integrating `rate` for `secs` seconds, clamped
/// into the storage's physical bounds.
pub open spec fn next_fill(fill: int, rate: int, secs: int) -> int {
    clamp_int(fill + rate * secs, 0, CAPACITY_MJ as int)
}

/// The battery's reported status: its current fill level.
#[derive(Clone, Copy, PartialEq, Eq, Structural, Debug)]
pub struct StorageStatus {
    pub present_fill_level_mj: i64,
}

/// The constant self-discharge behaviour of the storage, applying over the
/// whole fill-level range.
#[derive(Clone, Copy, PartialEq, Eq, Structural, Debug)]
pub struct LeakageBehaviour {
    pub fill_level_lo_mj: i64,
    pub fill_level_hi_mj: i64,
    pub leakage_rate_mw: i64,
}

/// One hour of forecast usage. The battery has no independent load, so the
/// expected rate is always zero.
#[derive(Clone, Copy, PartialEq, Eq, Structural, Debug)]
pub struct UsageForecastElement {
    pub duration_ms: i64,
    pub usage_rate_expected_milli: i64,
}

/// A forecast of the storage's own usage over the next 24 hours.
pub struct UsageForecast {
    pub elements: Vec<UsageForecastElement>,
}

/// A legal transition between two catalog modes.
#[derive(Clone, Copy, PartialEq, Eq, Structural, Debug)]
pub struct Transition {
    pub from: u128,
    pub to: u128,
}

/// The static capability document sent once at session start: the catalog,
/// the fill-level range, and the legal transitions between modes.
pub struct SystemDescription {
    pub actuator_id: u128,
    pub operation_modes: Vec<OperationModeDef>,
    pub transitions: Vec<Transition>,
    pub fill_level_lo_mj: i64,
    pub fill_level_hi_mj: i64,
}

/// The legal transitions: idle to and from charge, idle to and from
/// discharge. Charge and discharge are never adjacent.
pub open spec fn transitions_of(ms: Seq<OperationModeDef>) -> Seq<Transition>
    recommends
        ms.len() == 3,
{
    seq![
        Transition { from: ms[0].id, to: ms[1].id },
        Transition { from: ms[1].id, to: ms[0].id },
        Transition { from: ms[0].id, to: ms[2].id },
        Transition { from: ms[2].id, to: ms[0].id },
    ]
}

/// A mode-switch instruction, as the session loop hands it in: the
/// instruction's identifier (echoed back verbatim in the answer), the
/// target mode if its identifier could name a mode at all, and the new
/// operation-mode factor in thousandths.
pub struct FrbcInstruction {
    pub instruction_id: String,
    pub operation_mode: Option<u128>,
    pub operation_mode_factor_milli: u32,
}

/// An inbound message as the battery sees it: either a mode-switch
/// instruction, or anything else, which is ignored.
pub enum Inbound {
    FrbcInstruction(FrbcInstruction),
    Other,
}

/// The report of a completed mode switch.
pub struct ActuatorStatus {
    pub actuator_id: u128,
    pub active_operation_mode_id: u128,
    pub previous_operation_mode_id: u128,
    pub operation_mode_factor_milli: u32,
    pub transition_timestamp_ms: i64,
}

/// An outbound message produced while answering an instruction.
pub enum Outbound {
    InstructionStatus(InstructionStatusUpdate),
    ActuatorStatus(ActuatorStatus),
    StorageStatus(StorageStatus),
}

/// The battery simulator: the mode catalog, the integrated state, and the
/// identity of its single actuator.
pub struct Simulator {
    pub operation_modes: Vec<OperationModeDef>,
    pub fill_level_mj: i64,
    pub active_operation_mode: u128,
    pub operation_mode_factor: u32,
    pub last_updated_ms: i64,
    pub actuator_id: u128,
}

/// The state a freshly constructed battery is in: the catalog under the
/// given identifiers, half full, idle, factor one half, stamped with the
/// construction-time clock reading.
pub open spec fn is_fresh_simulator(
    s: Simulator,
    idle_id: u128,
    charge_id: u128,
    discharge_id: u128,
    actuator_id: u128,
    now_ms: i64,
) -> bool {
    &&& s.operation_modes@ == catalog(idle_id, charge_id, discharge_id)
    &&& s.fill_level_mj == INITIAL_FILL_MJ
    &&& s.active_operation_mode == idle_id
    &&& s.operation_mode_factor == 500
    &&& s.last_updated_ms == now_ms
    &&& s.actuator_id == actuator_id
}

impl Simulator {
    /// The structural invariant: the catalog is exactly idle, charge,
    /// discharge under three distinct identifiers, the active mode is in
    /// the catalog, the factor is a fraction, and the fill level is within
    /// the storage's bounds.
    pub open spec fn wf(&self) -> bool {
        &&& self.operation_modes@ == catalog(
            self.operation_modes@[0].id,
            self.operation_modes@[1].id,
            self.operation_modes@[2].id,
        )
        &&& self.operation_modes@[0].id != self.operation_modes@[1].id
        &&& self.operation_modes@[0].id != self.operation_modes@[2].id
        &&& self.operation_modes@[1].id != self.operation_modes@[2].id
        &&& has_mode(self.operation_modes@, self.active_operation_mode)
        &&& 0 <= self.fill_level_mj <= CAPACITY_MJ
        &&& self.operation_mode_factor <= FACTOR_SCALE
    }

    /// The fill rate currently driving integration.
    pub open spec fn current_rate(&self) -> int {
        interp_rate(
            mode_by_id(self.operation_modes@, self.active_operation_mode).fill_rate,
            self.operation_mode_factor as int,
        )
    }
}

/// Whether an instruction names a mode of the catalog: its target
/// identifier parsed at all and is one of the three catalog identities.
pub open spec fn targets_known_mode(ms: Seq<OperationModeDef>, instr: FrbcInstruction) -> bool {
    instr.operation_mode matches Some(id) && has_mode(ms, id)
}

/// The state after an accepted instruction switched mode and factor. A
/// factor above one saturates at one, keeping the factor a fraction.
pub open spec fn switched(s: Simulator, id: u128, factor_milli: u32) -> Simulator {
    Simulator {
        operation_modes: s.operation_modes,
        fill_level_mj: s.fill_level_mj,
        active_operation_mode: id,
        operation_mode_factor: if factor_milli > FACTOR_SCALE {
            FACTOR_SCALE
        } else {
            factor_milli
        },
        last_updated_ms: s.last_updated_ms,
        actuator_id: s.actuator_id,
    }
}

/// Whether `m` is the instruction-status answer with the given verdict.
pub open spec fn is_instruction_status(
    m: Outbound,
    instruction_id: Seq<char>,
    verdict: InstructionStatus,
    now_ms: i64,
) -> bool {
    m matches Outbound::InstructionStatus(u) && u.instruction_id@ == instruction_id
        && u.status_type == verdict && u.timestamp_ms == now_ms
}

/// Whether `m` reports the mode switch from `previous` to `active`.
pub open spec fn is_actuator_report(
    m: Outbound,
    actuator_id: u128,
    active: u128,
    previous: u128,
    factor_milli: u32,
    now_ms: i64,
) -> bool {
    m matches Outbound::ActuatorStatus(a) && a.actuator_id == actuator_id
        && a.active_operation_mode_id == active && a.previous_operation_mode_id == previous
        && a.operation_mode_factor_milli == factor_milli && a.transition_timestamp_ms == now_ms
}

/// Whether `m` reports the given fill level.
pub open spec fn is_storage_report(m: Outbound, fill_mj: i64) -> bool {
    m matches Outbound::StorageStatus(st) && st.present_fill_level_mj == fill_mj
}

/// What processing one inbound message does, relating the state before,
/// the state after, and the produced answers, for the clock reading
/// `now_ms`. Processing always re-integrates the fill level first; a
/// message that is no instruction changes nothing else and produces no
/// answer; an instruction against an unknown mode changes nothing else and
/// produces exactly one rejection; an accepted instruction switches mode
/// and factor and produces exactly three answers in fixed order:
/// acceptance, actuator report, storage report.
pub open spec fn process_post(
    pre: Simulator,
    post: Simulator,
    msg: Inbound,
    now_ms: i64,
    out: Seq<Outbound>,
) -> bool {
    let mid = ticked(pre, now_ms);
    match msg {
        Inbound::Other => post == mid && out.len() == 0,
        Inbound::FrbcInstruction(instr) => {
            if targets_known_mode(pre.operation_modes@, instr) {
                &&& post == switched(
                    mid,
                    instr.operation_mode->0,
                    instr.operation_mode_factor_milli,
                )
                &&& out.len() == 3
                &&& is_instruction_status(
                    out[0],
                    instr.instruction_id@,
                    InstructionStatus::Succeeded,
                    now_ms,
                )
                &&& is_actuator_report(
                    out[1],
                    pre.actuator_id,
                    instr.operation_mode->0,
                    pre.active_operation_mode,
                    post.operation_mode_factor,
                    now_ms,
                )
                &&& is_storage_report(out[2], mid.fill_level_mj)
            } else {
                &&& post == mid
                &&& out.len() == 1
                &&& is_instruction_status(
                    out[0],
                    instr.instruction_id@,
                    InstructionStatus::Rejected,
                    now_ms,
                )
            }
        },
    }
}

/// The state after re-integrating the fill level at clock reading
/// `now_ms`: the fill level advances by the active rate times the elapsed
/// whole seconds and is clamped, and the last-updated stamp never moves
/// backwards. Mode, factor and catalog are untouched.
pub open spec fn ticked(s: Simulator, now_ms: i64) -> Simulator {
    Simulator {
        operation_modes: s.operation_modes,
        fill_level_mj: next_fill(
            s.fill_level_mj as int,
            s.current_rate(),
            elapsed_s(s.last_updated_ms as int, now_ms as int),
        ) as i64,
        active_operation_mode: s.active_operation_mode,
        operation_mode_factor: s.operation_mode_factor,
        last_updated_ms: if now_ms >= s.last_updated_ms {
            now_ms
        } else {
            s.last_updated_ms
        },
        actuator_id: s.actuator_id,
    }
}

/// Computes the interpolated fill rate of a catalog mode. Only the three
/// catalog shapes occur, so the division in `interp_rate` is always exact.
fn rate_of(m: &OperationModeDef, factor: u32) -> (r: i64)
    requires
        factor <= FACTOR_SCALE,
        m == idle_def(m.id) || m == charge_def(m.id) || m == discharge_def(m.id),
    ensures
        r == interp_rate(m.fill_rate, factor as int),
        -RATE_FULL_MJS <= r <= RATE_FULL_MJS,
{
    let f = factor as i64;
    match m.kind {
        ModeKind::Idle => {
            proof {
                vstd::arithmetic::div_mod::lemma_div_multiples_vanish(0, 1000);
                assert((0 - 0) * (f as int) == 1000 * 0);
            }
            0
        },
        ModeKind::Charge => {
            proof {
                vstd::arithmetic::div_mod::lemma_div_multiples_vanish(2_500 * f as int, 1000);
                assert((RATE_FULL_MJS - RATE_HALF_MJS) * (f as int) == 1000 * (2_500 * f as int));
            }
            RATE_HALF_MJS + 2_500 * f
        },
        ModeKind::Discharge => {
            proof {
                vstd::arithmetic::div_mod::lemma_div_multiples_vanish(-2_500 * f as int, 1000);
                assert((RATE_FULL_NEG_MJS - RATE_HALF_NEG_MJS) * (f as int) == 1000 * (-2_500 * f
                    as int));
            }
            RATE_HALF_NEG_MJS - 2_500 * f
        },
    }
}

impl Simulator {
    /// The catalog entry of the active operation mode.
    fn active_mode_def(&self) -> (m: OperationModeDef)
        requires
            self.wf(),
        ensures
            m == mode_by_id(self.operation_modes@, self.active_operation_mode),
    {
        if self.operation_modes[0].id == self.active_operation_mode {
            self.operation_modes[0]
        } else if self.operation_modes[1].id == self.active_operation_mode {
            self.operation_modes[1]
        } else {
            self.operation_modes[2]
        }
    }

    /// Re-integrates the fill level up to the clock reading `now_ms` and
    /// reports the new fill level. The fill level stays clamped to the
    /// storage's bounds for every elapsed time and every mode and factor.
    pub fn update_at(&mut self, now_ms: i64) -> (status: StorageStatus)
        requires
            old(self).wf(),
        ensures
            final(self).wf(),
            *final(self) == ticked(*old(self), now_ms),
            status.present_fill_level_mj == final(self).fill_level_mj,
    {
        let m = self.active_mode_def();
        let rate = rate_of(&m, self.operation_mode_factor);
        let e_ms: i128 = (now_ms as i128) - (self.last_updated_ms as i128);
        let secs: i128 = if e_ms >= 0 {
            e_ms / 1000
        } else {
            0
        };
        proof {
            if e_ms >= 0 {
                vstd::arithmetic::div_mod::lemma_div_pos_is_pos(e_ms as int, 1000);
                vstd::arithmetic::div_mod::lemma_div_nonincreasing(e_ms as int, 1000);
            }
            assert(secs == elapsed_s(self.last_updated_ms as int, now_ms as int));
            assert(0 <= secs <= 0x2_0000_0000_0000_0000);
            assert((rate as int) * (secs as int) <= 5_000_000 * 0x2_0000_0000_0000_0000 && (rate
                as int) * (secs as int) >= (-5_000_000) * 0x2_0000_0000_0000_0000)
                by (nonlinear_arith)
                requires
                    -5_000_000 <= rate as int <= 5_000_000,
                    0 <= secs <= 0x2_0000_0000_0000_0000,
            ;
        }
        let raw: i128 = (self.fill_level_mj as i128) + (rate as i128) * secs;
        let new_fill: i64 = if raw < 0 {
            0
        } else if raw > (CAPACITY_MJ as i128) {
            CAPACITY_MJ
        } else {
            raw as i64
        };
        self.fill_level_mj = new_fill;
        if now_ms >= self.last_updated_ms {
            self.last_updated_ms = now_ms;
        }
        StorageStatus { present_fill_level_mj: new_fill }
    }

    /// Reads the wall clock and re-integrates the fill level up to it.
    /// Whatever instant the clock returned, the state is the tick at that
    /// instant; mode, factor and catalog are untouched.
    pub fn update(&mut self) -> (status: StorageStatus)
        requires
            old(self).wf(),
        ensures
            final(self).wf(),
            exists|now_ms: i64| *final(self) == ticked(*old(self), now_ms),
            status.present_fill_level_mj == final(self).fill_level_mj,
    {
        let now_ms = now_millis();
        let status = self.update_at(now_ms);
        status
    }

    /// Whether `id` names a mode of the catalog.
    fn knows_mode(&self, id: u128) -> (r: bool)
        requires
            self.wf(),
        ensures
            r == has_mode(self.operation_modes@, id),
    {
        self.operation_modes[0].id == id || self.operation_modes[1].id == id
            || self.operation_modes[2].id == id
    }

    /// Processes one inbound message at clock reading `now_ms`. The fill
    /// level is re-integrated first, so the status is current before the
    /// message takes effect. A message that is no mode-switch instruction
    /// is ignored. An instruction against a mode the catalog does not hold
    /// is answered with a single rejection and switches nothing. An
    /// accepted instruction switches mode and factor atomically and is
    /// answered with exactly three messages, in order: the acceptance, the
    /// actuator report of the transition, and the fresh storage status.
    pub fn process_message_at(&mut self, msg: &Inbound, now_ms: i64) -> (out: Vec<Outbound>)
        requires
            old(self).wf(),
        ensures
            final(self).wf(),
            process_post(*old(self), *final(self), *msg, now_ms, out@),
    {
        let storage_status = self.update_at(now_ms);
        match msg {
            Inbound::FrbcInstruction(instruction) => {
                let known = match instruction.operation_mode {
                    Some(id) => self.knows_mode(id),
                    None => false,
                };
                if known {
                    let target = instruction.operation_mode.unwrap();
                    let previous = self.active_operation_mode;
                    self.active_operation_mode = target;
                    self.operation_mode_factor = if instruction.operation_mode_factor_milli
                        > FACTOR_SCALE {
                        FACTOR_SCALE
                    } else {
                        instruction.operation_mode_factor_milli
                    };
                    let mut out: Vec<Outbound> = Vec::new();
                    out.push(
                        Outbound::InstructionStatus(
                            InstructionStatusUpdate {
                                instruction_id: instruction.instruction_id.clone(),
                                status_type: InstructionStatus::Succeeded,
                                timestamp_ms: now_ms,
                            },
                        ),
                    );
                    out.push(
                        Outbound::ActuatorStatus(
                            ActuatorStatus {
                                actuator_id: self.actuator_id,
                                active_operation_mode_id: target,
                                previous_operation_mode_id: previous,
                                operation_mode_factor_milli: self.operation_mode_factor,
                                transition_timestamp_ms: now_ms,
                            },
                        ),
                    );
                    out.push(Outbound::StorageStatus(storage_status));
                    out
                } else {
                    let mut out: Vec<Outbound> = Vec::new();
                    out.push(
                        Outbound::InstructionStatus(
                            InstructionStatusUpdate {
                                instruction_id: instruction.instruction_id.clone(),
                                status_type: InstructionStatus::Rejected,
                                timestamp_ms: now_ms,
                            },
                        ),
                    );
                    out
                }
            },
            Inbound::Other => Vec::new(),
        }
    }

    /// Reads the wall clock and processes one inbound message at it.
    /// Whatever instant the clock returned, state and answers relate to
    /// the state before as `process_post` states for that instant.
    pub fn process_message(&mut self, msg: &Inbound) -> (out: Vec<Outbound>)
        requires
            old(self).wf(),
        ensures
            final(self).wf(),
            exists|now_ms: i64| process_post(*old(self), *final(self), *msg, now_ms, out@),
    {
        let now_ms = now_millis();
        let out = self.process_message_at(msg, now_ms);
        proof {
            assert(process_post(*old(self), *self, *msg, now_ms, out@));
        }
        out
    }

    /// The static capability document: the catalog as it stands, the full
    /// fill-level range, and the four legal transitions (idle to and from
    /// charge, idle to and from discharge).
    pub fn system_description(&self) -> (d: SystemDescription)
        requires
            self.wf(),
        ensures
            d.actuator_id == self.actuator_id,
            d.operation_modes@ == self.operation_modes@,
            d.transitions@ == transitions_of(self.operation_modes@),
            d.fill_level_lo_mj == 0,
            d.fill_level_hi_mj == CAPACITY_MJ,
    {
        let mut operation_modes: Vec<OperationModeDef> = Vec::new();
        operation_modes.push(self.operation_modes[0]);
        operation_modes.push(self.operation_modes[1]);
        operation_modes.push(self.operation_modes[2]);
        let mut transitions: Vec<Transition> = Vec::new();
        transitions.push(
            Transition { from: self.operation_modes[0].id, to: self.operation_modes[1].id },
        );
        transitions.push(
            Transition { from: self.operation_modes[1].id, to: self.operation_modes[0].id },
        );
        transitions.push(
            Transition { from: self.operation_modes[0].id, to: self.operation_modes[2].id },
        );
        transitions.push(
            Transition { from: self.operation_modes[2].id, to: self.operation_modes[0].id },
        );
        proof {
            assert(operation_modes@ =~= self.operation_modes@);
            assert(transitions@ =~= transitions_of(self.operation_modes@));
        }
        SystemDescription {
            actuator_id: self.actuator_id,
            operation_modes,
            transitions,
            fill_level_lo_mj: 0,
            fill_level_hi_mj: CAPACITY_MJ,
        }
    }

    /// The constant self-discharge document: half a watt of loss over the
    /// whole fill-level range, independent of the fill level.
    pub fn leakage_behaviour(&self) -> (l: LeakageBehaviour)
        ensures
            l == (LeakageBehaviour {
                fill_level_lo_mj: 0,
                fill_level_hi_mj: CAPACITY_MJ,
                leakage_rate_mw: LEAKAGE_MW,
            }),
    {
        LeakageBehaviour {
            fill_level_lo_mj: 0,
            fill_level_hi_mj: CAPACITY_MJ,
            leakage_rate_mw: LEAKAGE_MW,
        }
    }

    /// The usage forecast: 24 one-hour elements of zero expected usage,
    /// since the storage drives no independent load.
    pub fn forecast(&self) -> (f: UsageForecast)
        ensures
            f.elements@.len() == 24,
            forall|i: int|
                0 <= i < 24 ==> f.elements@[i] == (UsageForecastElement {
                    duration_ms: crate::HOUR_MS,
                    usage_rate_expected_milli: 0,
                }),
    {
        let mut elements: Vec<UsageForecastElement> = Vec::new();
        let mut i: usize = 0;
        while i < 24
            invariant
                i <= 24,
                elements@.len() == i,
                forall|k: int|
                    0 <= k < i ==> elements@[k] == (UsageForecastElement {
                        duration_ms: crate::HOUR_MS,
                        usage_rate_expected_milli: 0,
                    }),
            decreases 24 - i,
        {
            elements.push(
                UsageForecastElement { duration_ms: crate::HOUR_MS, usage_rate_expected_milli: 0 },
            );
            i += 1;
        }
        UsageForecast { elements }
    }

    /// Builds a battery from the given mode and actuator identities, with
    /// the clock reading `now_ms` as its construction instant.
    pub fn new_with_ids(
        idle_id: u128,
        charge_id: u128,
        discharge_id: u128,
        actuator_id: u128,
        now_ms: i64,
    ) -> (s: Simulator)
        requires
            idle_id != charge_id,
            idle_id != discharge_id,
            charge_id != discharge_id,
        ensures
            s.wf(),
            is_fresh_simulator(s, idle_id, charge_id, discharge_id, actuator_id, now_ms),
    {
        let mut modes: Vec<OperationModeDef> = Vec::new();
        modes.push(
            OperationModeDef {
                id: idle_id,
                kind: ModeKind::Idle,
                fill_rate: RateRange { start: 0, end: 0 },
                fill_level_lo_mj: 0,
                fill_level_hi_mj: CAPACITY_MJ,
                power: RateRange { start: 0, end: 0 },
            },
        );
        modes.push(
            OperationModeDef {
                id: charge_id,
                kind: ModeKind::Charge,
                fill_rate: RateRange { start: RATE_FULL_MJS, end: RATE_HALF_MJS },
                fill_level_lo_mj: 0,
                fill_level_hi_mj: CAPACITY_MJ,
                power: RateRange { start: RATE_FULL_MJS, end: RATE_HALF_MJS },
            },
        );
        modes.push(
            OperationModeDef {
                id: discharge_id,
                kind: ModeKind::Discharge,
                fill_rate: RateRange { start: RATE_FULL_NEG_MJS, end: RATE_HALF_NEG_MJS },
                fill_level_lo_mj: 0,
                fill_level_hi_mj: CAPACITY_MJ,
                power: RateRange { start: RATE_FULL_NEG_MJS, end: RATE_HALF_NEG_MJS },
            },
        );
        assert(modes@ =~= catalog(idle_id, charge_id, discharge_id));
        Simulator {
            operation_modes: modes,
            fill_level_mj: INITIAL_FILL_MJ,
            active_operation_mode: idle_id,
            operation_mode_factor: 500,
            last_updated_ms: now_ms,
            actuator_id: actuator_id,
        }
    }

    /// Draws fresh random identities for the three modes and the actuator
    /// and builds a battery stamped with the current clock reading. The
    /// draws are random: should the three mode identities collide, no
    /// catalog can be formed and no battery is handed back.
    pub fn new() -> (r: Option<Simulator>)
        ensures
            r matches Some(s) ==> s.wf() && is_fresh_simulator(
                s,
                s.operation_modes@[0].id,
                s.operation_modes@[1].id,
                s.operation_modes@[2].id,
                s.actuator_id,
                s.last_updated_ms,
            ),
    {
        let idle_id = fresh_id();
        let charge_id = fresh_id();
        let discharge_id = fresh_id();
        let actuator_id = fresh_id();
        if idle_id != charge_id && idle_id != discharge_id && charge_id != discharge_id {
            let now_ms = now_millis();
            let s = Self::new_with_ids(idle_id, charge_id, discharge_id, actuator_id, now_ms);
            proof {
                assert(is_fresh_simulator(s, idle_id, charge_id, discharge_id, actuator_id, now_ms));
            }
            Some(s)
        } else {
            None
        }
    }
}

/// The fill level is clamped into the storage's bounds after any tick, for
/// any elapsed time and any mode and factor the invariant allows, however
/// far the raw integration would overshoot.
pub proof fn lemma_tick_keeps_fill_clamped(s: Simulator, now_ms: i64)
    requires
        s.wf(),
    ensures
        0 <= ticked(s, now_ms).fill_level_mj <= CAPACITY_MJ,
        ticked(s, now_ms).wf(),
{
}

/// A factor of one selects the start-of-range rate: in charge mode at
/// factor one, a tick whose raw integration stays within bounds moves the
/// fill level by exactly the nominal rate times the elapsed whole seconds.
pub proof fn lemma_full_factor_selects_start_rate(s: Simulator, now_ms: i64)
    requires
        s.wf(),
        s.active_operation_mode == s.operation_modes@[1].id,
        s.operation_mode_factor == FACTOR_SCALE,
        now_ms >= s.last_updated_ms,
        s.fill_level_mj + RATE_FULL_MJS * elapsed_s(s.last_updated_ms as int, now_ms as int)
            <= CAPACITY_MJ,
    ensures
        ticked(s, now_ms).fill_level_mj == s.fill_level_mj + RATE_FULL_MJS * elapsed_s(
            s.last_updated_ms as int,
            now_ms as int,
        ),
{
    let e = elapsed_s(s.last_updated_ms as int, now_ms as int);
    vstd::arithmetic::div_mod::lemma_div_pos_is_pos(now_ms - s.last_updated_ms, 1000);
    vstd::arithmetic::div_mod::lemma_div_multiples_vanish(RATE_HALF_MJS as int, 1000);
    assert(s.current_rate() == RATE_FULL_MJS as int);
    assert(RATE_FULL_MJS * e >= 0) by (nonlinear_arith)
        requires
            e >= 0,
    ;
}

/// Two consecutive ticks: the fill-level change of the second tick is
/// bounded by the active rate times the elapsed whole seconds between the
/// two readings, and equals it exactly while the integration stays within
/// the storage's bounds.
pub proof fn lemma_consecutive_ticks(s: Simulator, t1_ms: i64, t2_ms: i64)
    requires
        s.wf(),
        s.last_updated_ms <= t1_ms <= t2_ms,
    ensures
        ({
            let s1 = ticked(s, t1_ms);
            let s2 = ticked(s1, t2_ms);
            let r = s.current_rate();
            let e = elapsed_s(t1_ms as int, t2_ms as int);
            &&& s1.current_rate() == r
            &&& r >= 0 ==> s1.fill_level_mj <= s2.fill_level_mj <= s1.fill_level_mj + r * e
            &&& r <= 0 ==> s1.fill_level_mj + r * e <= s2.fill_level_mj <= s1.fill_level_mj
            &&& (0 <= s1.fill_level_mj + r * e <= CAPACITY_MJ) ==> s2.fill_level_mj
                == s1.fill_level_mj + r * e
        }),
{
    let s1 = ticked(s, t1_ms);
    let r = s.current_rate();
    let e = elapsed_s(t1_ms as int, t2_ms as int);
    vstd::arithmetic::div_mod::lemma_div_pos_is_pos(t2_ms - t1_ms, 1000);
    assert(e >= 0);
    let s2 = ticked(s1, t2_ms);
    assert(s1.last_updated_ms == t1_ms);
    assert(s1.current_rate() == r);
    assert(0 <= s1.fill_level_mj <= CAPACITY_MJ);
    assert(s2.fill_level_mj == clamp_int(s1.fill_level_mj + r * e, 0, CAPACITY_MJ as int));
    if r >= 0 {
        assert(r * e >= 0) by (nonlinear_arith)
            requires
                r >= 0,
                e >= 0,
        ;
    }
    if r <= 0 {
        assert(r * e <= 0) by (nonlinear_arith)
            requires
                r <= 0,
                e >= 0,
        ;
    }
}

/// A freshly constructed battery idles, so consecutive ticks leave the
/// initial fill level in place no matter how much time elapsed.
pub proof fn lemma_fresh_battery_ticks_hold_fill(s: Simulator, t1_ms: i64, t2_ms: i64)
    requires
        s.wf(),
        is_fresh_simulator(
            s,
            s.operation_modes@[0].id,
            s.operation_modes@[1].id,
            s.operation_modes@[2].id,
            s.actuator_id,
            s.last_updated_ms,
        ),
    ensures
        ticked(ticked(s, t1_ms), t2_ms).fill_level_mj == INITIAL_FILL_MJ,
{
    assert(s.current_rate() == 0);
}

/// An instruction against a mode the catalog does not hold is answered
/// with exactly one rejection, and leaves fill level, active mode and
/// factor exactly where the preceding tick left them.
pub proof fn lemma_unknown_mode_is_rejected(
    pre: Simulator,
    post: Simulator,
    instr: FrbcInstruction,
    now_ms: i64,
    out: Seq<Outbound>,
)
    requires
        process_post(pre, post, Inbound::FrbcInstruction(instr), now_ms, out),
        !targets_known_mode(pre.operation_modes@, instr),
    ensures
        post.active_operation_mode == pre.active_operation_mode,
        post.operation_mode_factor == pre.operation_mode_factor,
        post.fill_level_mj == ticked(pre, now_ms).fill_level_mj,
        out.len() == 1,
        is_instruction_status(out[0], instr.instruction_id@, InstructionStatus::Rejected, now_ms),
{
}

/// An accepted instruction is answered with exactly three messages in
/// fixed order: the acceptance, the actuator report, the storage status.
pub proof fn lemma_accepted_instruction_answers(
    pre: Simulator,
    post: Simulator,
    instr: FrbcInstruction,
    now_ms: i64,
    out: Seq<Outbound>,
)
    requires
        process_post(pre, post, Inbound::FrbcInstruction(instr), now_ms, out),
        targets_known_mode(pre.operation_modes@, instr),
    ensures
        out.len() == 3,
        is_instruction_status(out[0], instr.instruction_id@, InstructionStatus::Succeeded, now_ms),
        is_actuator_report(
            out[1],
            pre.actuator_id,
            instr.operation_mode->0,
            pre.active_operation_mode,
            post.operation_mode_factor,
            now_ms,
        ),
        is_storage_report(out[2], post.fill_level_mj),
        post.active_operation_mode == instr.operation_mode->0,
{
}

} // verus!
