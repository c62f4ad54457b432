//! A photovoltaic installation controlled through power envelopes. It owns
//! the fixed generation profile and a list of time-bounded power
//! constraints derived from received instructions; current power is the
//! profile value clamped into the first applicable constraint, while
//! forecasts always describe the unconstrained generation capability.

use vstd::prelude::*;

use crate::clock::now_millis;
use crate::messages::{CommodityQuantity, ControlType, InstructionStatus, InstructionStatusUpdate};
use crate::profile::{
    current_unconstrained_power_mw, forecast_24h_mw, forecast_answer_at, forecast_power_mw, profile_wf,
    unconstrained_power_mw, SIMULATED_START_MS,
};

pub use crate::profile::ProfileRow;

verus! {

/// The lower bound applying while no constraint does: minus the peak rated
/// power (a normalized limit of minus one).
pub const UNCONSTRAINED_LOWER_MW: i64 = -2_000_000;

/// The upper bound applying while no constraint does: the peak rated power
/// (a normalized limit of one).
pub const UNCONSTRAINED_UPPER_MW: i64 = 2_000_000;

/// A power constraint derived from one envelope element: bounds on the
/// reported power over the half-open interval from `start_time_ms`
/// inclusive to `end_time_ms` exclusive.
#[derive(Clone, Copy, PartialEq, Eq, Structural, Debug)]
pub struct PvConstraint {
    pub lower_limit_mw: i64,
    pub upper_limit_mw: i64,
    pub start_time_ms: i64,
    pub end_time_ms: i64,
}

/// Whether a constraint's interval contains the instant `now_ms`.
pub open spec fn constraint_active(c: PvConstraint, now_ms: i64) -> bool {
    c.start_time_ms <= now_ms < c.end_time_ms
}

/// Whether a constraint's interval has not ended by the instant `now_ms`.
pub open spec fn constraint_live(now_ms: i64) -> spec_fn(PvConstraint) -> bool {
    |c: PvConstraint| c.end_time_ms > now_ms
}

/// The constraint list with every interval that has ended by `now_ms`
/// removed, keeping insertion order.
pub open spec fn pruned(cs: Seq<PvConstraint>, now_ms: i64) -> Seq<PvConstraint> {
    cs.filter(constraint_live(now_ms))
}

/// The bounds governing the instant `now_ms`: those of the first interval
/// in insertion order that contains it; the unconstrained bounds when none
/// does. Overlapping constraints are not reconciled.
pub open spec fn first_bounds(cs: Seq<PvConstraint>, now_ms: i64) -> (i64, i64)
    decreases cs.len(),
{
    if cs.len() == 0 {
        (UNCONSTRAINED_LOWER_MW, UNCONSTRAINED_UPPER_MW)
    } else if constraint_active(cs[0], now_ms) {
        (cs[0].lower_limit_mw, cs[0].upper_limit_mw)
    } else {
        first_bounds(cs.drop_first(), now_ms)
    }
}

/// A power value clamped into bounds: raised to the lower bound first,
/// then capped at the upper bound.
pub open spec fn clamped_power(v_mw: int, lo_mw: i64, hi_mw: i64) -> int {
    let raised = if v_mw >= lo_mw as int {
        v_mw
    } else {
        lo_mw as int
    };
    if raised <= hi_mw as int {
        raised
    } else {
        hi_mw as int
    }
}

/// One element of a power envelope: how long the bounds hold, counted from
/// the instruction's execution time.
#[derive(Clone, Copy, PartialEq, Eq, Structural, Debug)]
pub struct PowerEnvelopeElement {
    pub duration_ms: i64,
    pub lower_limit_mw: i64,
    pub upper_limit_mw: i64,
}

/// A power envelope: elements bounding one commodity quantity. Envelopes
/// for a quantity the device does not track are skipped.
pub struct PowerEnvelope {
    pub commodity_quantity: CommodityQuantity,
    pub elements: Vec<PowerEnvelopeElement>,
}

/// A power-envelope instruction, as the session loop hands it in.
pub struct PebcInstruction {
    pub instruction_id: String,
    pub execution_time_ms: i64,
    pub power_envelopes: Vec<PowerEnvelope>,
}

/// The constraint one envelope element induces: the instruction's
/// execution time plus the element's duration.
pub open spec fn element_constraint(base_ms: i64, e: PowerEnvelopeElement) -> PvConstraint {
    PvConstraint {
        lower_limit_mw: e.lower_limit_mw,
        upper_limit_mw: e.upper_limit_mw,
        start_time_ms: base_ms,
        end_time_ms: (base_ms + e.duration_ms) as i64,
    }
}

/// The constraints one envelope induces: one per element for the tracked
/// commodity quantity, none for any other.
pub open spec fn envelope_constraints(base_ms: i64, env: PowerEnvelope) -> Seq<PvConstraint> {
    if env.commodity_quantity is ElectricPowerL1 {
        env.elements@.map_values(|e: PowerEnvelopeElement| element_constraint(base_ms, e))
    } else {
        Seq::empty()
    }
}

/// The constraints a whole instruction induces, in envelope and element
/// order.
pub open spec fn instruction_constraints(base_ms: i64, envs: Seq<PowerEnvelope>) -> Seq<
    PvConstraint,
>
    decreases envs.len(),
{
    if envs.len() == 0 {
        Seq::empty()
    } else {
        instruction_constraints(base_ms, envs.drop_last()) + envelope_constraints(
            base_ms,
            envs.last(),
        )
    }
}

/// What machine limits force of an instruction before its intervals can be
/// laid out on the timeline: durations are no less than zero and no
/// interval end leaves the representable instants.
pub open spec fn element_fits(base_ms: i64, e: PowerEnvelopeElement) -> bool {
    0 <= e.duration_ms && base_ms + e.duration_ms <= i64::MAX
}

pub open spec fn envelope_fits(base_ms: i64, env: PowerEnvelope) -> bool {
    forall|j: int|
        0 <= j < env.elements@.len() ==> element_fits(base_ms, #[trigger] env.elements@[j])
}

pub open spec fn instruction_fits(instr: PebcInstruction) -> bool {
    forall|i: int|
        0 <= i < instr.power_envelopes@.len() ==> envelope_fits(
            instr.execution_time_ms,
            #[trigger] instr.power_envelopes@[i],
        )
}

/// The photovoltaic simulator under power-envelope control: the immutable
/// generation profile, the fixed offset between wall-clock and simulated
/// time, and the received constraints in insertion order.
pub struct PvSimulator {
    pub profile: Vec<ProfileRow>,
    pub time_delta_ms: i64,
    pub constraints: Vec<PvConstraint>,
}

/// The power reported for the clock reading `now_ms`: the profile value of
/// the simulated hour scaled to milliwatts, clamped into the bounds
/// governing `now_ms`; nothing when the profile misses the hour.
pub open spec fn current_power_spec(s: PvSimulator, now_ms: i64) -> Option<int> {
    match unconstrained_power_mw(s.profile@, s.time_delta_ms, now_ms) {
        Some(p) => Some(
            clamped_power(
                p,
                first_bounds(s.constraints@, now_ms).0,
                first_bounds(s.constraints@, now_ms).1,
            ),
        ),
        None => None,
    }
}

impl PvSimulator {
    /// The structural invariant: the profile is usable.
    pub open spec fn wf(&self) -> bool {
        profile_wf(self.profile@)
    }

    /// Builds a simulator over the given profile, anchored so that the
    /// clock reading `now_ms` corresponds to the start of the simulated
    /// timeline. A reading before the epoch counts as the epoch.
    pub fn new_at(profile: Vec<ProfileRow>, now_ms: i64) -> (s: PvSimulator)
        requires
            profile_wf(profile@),
        ensures
            s.wf(),
            s.profile@ == profile@,
            s.constraints@ == Seq::<PvConstraint>::empty(),
            s.time_delta_ms as int == SIMULATED_START_MS - (if now_ms >= 0 {
                now_ms as int
            } else {
                0
            }),
    {
        let now_c: i64 = if now_ms >= 0 {
            now_ms
        } else {
            0
        };
        PvSimulator {
            profile,
            time_delta_ms: SIMULATED_START_MS - now_c,
            constraints: Vec::new(),
        }
    }

    /// Reads the wall clock and builds a simulator anchored to it: the
    /// simulated timeline starts now, whatever instant the clock returned.
    pub fn new(profile: Vec<ProfileRow>) -> (s: PvSimulator)
        requires
            profile_wf(profile@),
        ensures
            s.wf(),
            s.profile@ == profile@,
            s.constraints@ == Seq::<PvConstraint>::empty(),
            s.time_delta_ms <= SIMULATED_START_MS,
    {
        let now_ms = now_millis();
        Self::new_at(profile, now_ms)
    }

    /// The bounds governing the instant `now_ms`: first match in insertion
    /// order, unconstrained when no interval contains the instant.
    pub fn get_current_constraints(&self, now_ms: i64) -> (bounds: (i64, i64))
        ensures
            bounds == first_bounds(self.constraints@, now_ms),
    {
        let n = self.constraints.len();
        let mut i: usize = 0;
        proof {
            assert(self.constraints@.skip(0) =~= self.constraints@);
        }
        while i < n
            invariant
                i <= n,
                n == self.constraints@.len(),
                first_bounds(self.constraints@, now_ms) == first_bounds(
                    self.constraints@.skip(i as int),
                    now_ms,
                ),
            decreases n - i,
        {
            let c = self.constraints[i];
            proof {
                assert(self.constraints@.skip(i as int)[0] == self.constraints@[i as int]);
            }
            if c.start_time_ms <= now_ms && now_ms < c.end_time_ms {
                return (c.lower_limit_mw, c.upper_limit_mw);
            }
            proof {
                assert(self.constraints@.skip(i as int).drop_first() =~= self.constraints@.skip(
                    i as int + 1,
                ));
            }
            i += 1;
        }
        (UNCONSTRAINED_LOWER_MW, UNCONSTRAINED_UPPER_MW)
    }

    /// The power reported for the clock reading `now_ms`, in milliwatts.
    /// Nothing comes back exactly when the profile holds no row for the
    /// simulated hour, which no profile covering the session may do.
    pub fn get_current_power_at(&self, now_ms: i64) -> (r: Option<i64>)
        requires
            self.wf(),
        ensures
            match r {
                Some(p) => current_power_spec(*self, now_ms) == Some(p as int),
                None => current_power_spec(*self, now_ms) is None,
            },
    {
        let bounds = self.get_current_constraints(now_ms);
        match current_unconstrained_power_mw(&self.profile, self.time_delta_ms, now_ms) {
            Some(p) => {
                let raised = if p >= bounds.0 {
                    p
                } else {
                    bounds.0
                };
                let capped = if raised <= bounds.1 {
                    raised
                } else {
                    bounds.1
                };
                Some(capped)
            },
            None => None,
        }
    }

    /// Reads the wall clock and reports the power for it.
    pub fn get_current_power(&self) -> (r: Option<i64>)
        requires
            self.wf(),
        ensures
            exists|now_ms: i64|
                match r {
                    Some(p) => #[trigger] current_power_spec(*self, now_ms) == Some(p as int),
                    None => current_power_spec(*self, now_ms) is None,
                },
    {
        let now_ms = now_millis();
        self.get_current_power_at(now_ms)
    }

    /// The 24-hour forecast for the clock reading `now_ms`: exactly 24
    /// values in increasing-hour order, starting at the next full simulated
    /// hour, each the unconstrained profile value scaled to milliwatts.
    /// Constraints never touch a forecast. Nothing comes back exactly when
    /// the profile misses one of the 24 hours.
    pub fn get_24h_forecast_at(&self, now_ms: i64) -> (r: Option<Vec<i64>>)
        requires
            self.wf(),
        ensures
            match r {
                Some(v) => v@.len() == 24 && forall|k: int|
                    0 <= k < 24 ==> forecast_power_mw(self.profile@, self.time_delta_ms, now_ms, k)
                        == Some(#[trigger] v@[k] as int),
                None => exists|k: int|
                    0 <= k < 24 && #[trigger] forecast_power_mw(
                        self.profile@,
                        self.time_delta_ms,
                        now_ms,
                        k,
                    ) is None,
            },
    {
        forecast_24h_mw(&self.profile, self.time_delta_ms, now_ms)
    }

    /// Reads the wall clock and builds the 24-hour forecast for it:
    /// whatever instant the clock returned, the forecast holds that
    /// instant's 24 hourly values.
    pub fn get_24h_forecast(&self) -> (r: Option<Vec<i64>>)
        requires
            self.wf(),
        ensures
            r matches Some(v) ==> v@.len() == 24,
            exists|now_ms: i64|
                #[trigger] forecast_answer_at(self.profile@, self.time_delta_ms, now_ms, r),
    {
        let now_ms = now_millis();
        let r = self.get_24h_forecast_at(now_ms);
        proof {
            assert(forecast_answer_at(self.profile@, self.time_delta_ms, now_ms, r));
        }
        r
    }

    /// Registers one constraint and prunes the list: the new constraint is
    /// appended, then every interval that has ended by `now_ms` is removed,
    /// the new one included were it already expired. Expired constraints
    /// never accumulate.
    pub fn add_constraint_at(
        &mut self,
        start_time_ms: i64,
        end_time_ms: i64,
        lower_limit_mw: i64,
        upper_limit_mw: i64,
        now_ms: i64,
    )
        requires
            old(self).wf(),
        ensures
            final(self).wf(),
            final(self).profile@ == old(self).profile@,
            final(self).time_delta_ms == old(self).time_delta_ms,
            final(self).constraints@ == pruned(
                old(self).constraints@.push(
                    PvConstraint { lower_limit_mw, upper_limit_mw, start_time_ms, end_time_ms },
                ),
                now_ms,
            ),
    {
        let c = PvConstraint { lower_limit_mw, upper_limit_mw, start_time_ms, end_time_ms };
        self.constraints.push(c);
        let n = self.constraints.len();
        let mut kept: Vec<PvConstraint> = Vec::new();
        let mut i: usize = 0;
        proof {
            reveal(Seq::filter);
            assert(self.constraints@.take(0) =~= Seq::<PvConstraint>::empty());
            assert(kept@ =~= pruned(self.constraints@.take(0), now_ms));
        }
        while i < n
            invariant
                i <= n,
                n == self.constraints@.len(),
                kept@ == pruned(self.constraints@.take(i as int), now_ms),
            decreases n - i,
        {
            let keep_it = self.constraints[i].end_time_ms > now_ms;
            proof {
                reveal(Seq::filter);
                let s_next = self.constraints@.take(i as int + 1);
                assert(s_next.drop_last() =~= self.constraints@.take(i as int));
                assert(s_next.last() == self.constraints@[i as int]);
                assert(constraint_live(now_ms)(s_next.last()) == keep_it);
                assert(pruned(s_next, now_ms) == if keep_it {
                    pruned(self.constraints@.take(i as int), now_ms).push(s_next.last())
                } else {
                    pruned(self.constraints@.take(i as int), now_ms)
                });
            }
            if keep_it {
                let c2 = self.constraints[i];
                kept.push(c2);
            }
            i += 1;
        }
        proof {
            assert(self.constraints@.take(n as int) =~= self.constraints@);
        }
        self.constraints = kept;
    }

    /// Reads the wall clock, registers one constraint and prunes the list
    /// against that reading.
    pub fn add_constraint(
        &mut self,
        start_time_ms: i64,
        end_time_ms: i64,
        lower_limit_mw: i64,
        upper_limit_mw: i64,
    )
        requires
            old(self).wf(),
        ensures
            final(self).wf(),
            final(self).profile@ == old(self).profile@,
            final(self).time_delta_ms == old(self).time_delta_ms,
            exists|now_ms: i64|
                final(self).constraints@ == #[trigger] pruned(
                    old(self).constraints@.push(
                        PvConstraint { lower_limit_mw, upper_limit_mw, start_time_ms, end_time_ms },
                    ),
                    now_ms,
                ),
    {
        let now_ms = now_millis();
        self.add_constraint_at(start_time_ms, end_time_ms, lower_limit_mw, upper_limit_mw, now_ms);
    }
}

/// The constraint list after registering `added` one by one, each
/// registration pruning the list: registering nothing changes nothing,
/// registering anything leaves the pruned concatenation.
pub open spec fn constraints_after(
    cs: Seq<PvConstraint>,
    added: Seq<PvConstraint>,
    now_ms: i64,
) -> Seq<PvConstraint> {
    if added.len() == 0 {
        cs
    } else {
        pruned(cs + added, now_ms)
    }
}

/// Pruning keeps a list whose intervals are all still live.
proof fn lemma_prune_all_live(s: Seq<PvConstraint>, now_ms: i64)
    requires
        forall|i: int| 0 <= i < s.len() ==> (#[trigger] s[i]).end_time_ms > now_ms,
    ensures
        pruned(s, now_ms) == s,
    decreases s.len(),
{
    reveal(Seq::filter);
    if s.len() > 0 {
        lemma_prune_all_live(s.drop_last(), now_ms);
        assert(s.drop_last().push(s.last()) =~= s);
    }
}

/// After pruning, no interval that has ended by `now_ms` remains: every
/// remaining end lies strictly after the pruning instant.
pub proof fn lemma_pruned_holds_no_expired(s: Seq<PvConstraint>, now_ms: i64)
    ensures
        forall|i: int|
            0 <= i < pruned(s, now_ms).len() ==> (#[trigger] pruned(s, now_ms)[i]).end_time_ms
                > now_ms,
{
    assert forall|i: int| 0 <= i < pruned(s, now_ms).len() implies (#[trigger] pruned(s, now_ms)[i]).end_time_ms
        > now_ms by {
        s.lemma_filter_pred(constraint_live(now_ms), i);
    }
}

/// Pruning an already pruned list as part of appending one constraint is
/// the same as appending first and pruning once.
proof fn lemma_prune_push(s: Seq<PvConstraint>, c: PvConstraint, now_ms: i64)
    ensures
        pruned(pruned(s, now_ms).push(c), now_ms) == pruned(s.push(c), now_ms),
{
    reveal(Seq::filter);
    let p = pruned(s, now_ms);
    lemma_pruned_holds_no_expired(s, now_ms);
    lemma_prune_all_live(p, now_ms);
    assert(p.push(c).drop_last() =~= p);
    assert(s.push(c).drop_last() =~= s);
}

/// Registering one more constraint into a fold of registrations extends
/// the fold.
proof fn lemma_constraints_after_step(
    cs: Seq<PvConstraint>,
    added: Seq<PvConstraint>,
    c: PvConstraint,
    now_ms: i64,
)
    ensures
        pruned(constraints_after(cs, added, now_ms).push(c), now_ms) == constraints_after(
            cs,
            added.push(c),
            now_ms,
        ),
{
    if added.len() == 0 {
        assert(cs.push(c) =~= cs + added.push(c));
    } else {
        lemma_prune_push(cs + added, c, now_ms);
        assert((cs + added).push(c) =~= cs + added.push(c));
    }
}

impl PvSimulator {
    /// Processes one power-envelope instruction at clock reading `now_ms`:
    /// for every element of every envelope bounding the tracked commodity
    /// quantity, registers the constraint over the interval starting at the
    /// instruction's execution time and lasting the element's duration,
    /// pruning the list at each registration; envelopes for other
    /// quantities are skipped. Answers with exactly one acceptance status
    /// echoing the instruction's identifier.
    pub fn handle_instruction_at(&mut self, instr: &PebcInstruction, now_ms: i64) -> (status:
        InstructionStatusUpdate)
        requires
            old(self).wf(),
            instruction_fits(*instr),
        ensures
            final(self).wf(),
            final(self).profile@ == old(self).profile@,
            final(self).time_delta_ms == old(self).time_delta_ms,
            final(self).constraints@ == constraints_after(
                old(self).constraints@,
                instruction_constraints(instr.execution_time_ms, instr.power_envelopes@),
                now_ms,
            ),
            status.instruction_id@ == instr.instruction_id@,
            status.status_type == InstructionStatus::Succeeded,
            status.timestamp_ms == now_ms,
    {
        let base = instr.execution_time_ms;
        let ghost envs = instr.power_envelopes@;
        let n_env = instr.power_envelopes.len();
        let mut i: usize = 0;
        proof {
            assert(envs.take(0) =~= Seq::<PowerEnvelope>::empty());
        }
        while i < n_env
            invariant
                i <= n_env,
                n_env == envs.len(),
                envs == instr.power_envelopes@,
                base == instr.execution_time_ms,
                instruction_fits(*instr),
                self.wf(),
                self.profile@ == old(self).profile@,
                self.time_delta_ms == old(self).time_delta_ms,
                self.constraints@ == constraints_after(
                    old(self).constraints@,
                    instruction_constraints(base, envs.take(i as int)),
                    now_ms,
                ),
            decreases n_env - i,
        {
            let ghost added_before = instruction_constraints(base, envs.take(i as int));
            if matches!(instr.power_envelopes[i].commodity_quantity,
                CommodityQuantity::ElectricPowerL1) {
                let ghost elems = envs[i as int].elements@;
                let ghost mk = |e: PowerEnvelopeElement| element_constraint(base, e);
                let n_elem = instr.power_envelopes[i].elements.len();
                let mut j: usize = 0;
                proof {
                    assert(elems.take(0).map_values(mk) =~= Seq::<PvConstraint>::empty());
                    assert(added_before + elems.take(0).map_values(mk) =~= added_before);
                }
                while j < n_elem
                    invariant
                        j <= n_elem,
                        i < n_env,
                        n_env == envs.len(),
                        envs == instr.power_envelopes@,
                        n_elem == elems.len(),
                        elems == envs[i as int].elements@,
                        mk == (|e: PowerEnvelopeElement| element_constraint(base, e)),
                        base == instr.execution_time_ms,
                        instruction_fits(*instr),
                        self.wf(),
                        self.profile@ == old(self).profile@,
                        self.time_delta_ms == old(self).time_delta_ms,
                        self.constraints@ == constraints_after(
                            old(self).constraints@,
                            added_before + elems.take(j as int).map_values(mk),
                            now_ms,
                        ),
                    decreases n_elem - j,
                {
                    let e = instr.power_envelopes[i].elements[j];
                    proof {
                        assert(envelope_fits(base, instr.power_envelopes@[i as int]));
                        assert(instr.power_envelopes@[i as int].elements@[j as int] == e);
                        assert(element_fits(base, e));
                    }
                    let end_time_ms = base + e.duration_ms;
                    proof {
                        lemma_constraints_after_step(
                            old(self).constraints@,
                            added_before + elems.take(j as int).map_values(mk),
                            element_constraint(base, e),
                            now_ms,
                        );
                        assert((added_before + elems.take(j as int).map_values(mk)).push(
                            element_constraint(base, e),
                        ) =~= added_before + elems.take(j as int + 1).map_values(mk));
                    }
                    self.add_constraint_at(
                        base,
                        end_time_ms,
                        e.lower_limit_mw,
                        e.upper_limit_mw,
                        now_ms,
                    );
                    j += 1;
                }
                proof {
                    assert(elems.take(n_elem as int) =~= elems);
                    assert(envs.take(i as int + 1).drop_last() =~= envs.take(i as int));
                    assert(envs.take(i as int + 1).last() == envs[i as int]);
                    assert(envelope_constraints(base, envs[i as int]) == elems.map_values(mk));
                    assert(instruction_constraints(base, envs.take(i as int + 1)) == added_before
                        + elems.map_values(mk));
                }
            } else {
                proof {
                    assert(envs.take(i as int + 1).drop_last() =~= envs.take(i as int));
                    assert(envs.take(i as int + 1).last() == envs[i as int]);
                    assert(envelope_constraints(base, envs[i as int]) =~= Seq::<
                        PvConstraint,
                    >::empty());
                    assert(added_before + envelope_constraints(base, envs[i as int])
                        =~= added_before);
                    assert(instruction_constraints(base, envs.take(i as int + 1)) == added_before);
                }
            }
            i += 1;
        }
        proof {
            assert(envs.take(n_env as int) =~= envs);
        }
        InstructionStatusUpdate {
            instruction_id: instr.instruction_id.clone(),
            status_type: InstructionStatus::Succeeded,
            timestamp_ms: now_ms,
        }
    }

    /// Reads the wall clock and processes one power-envelope instruction
    /// at it.
    pub fn handle_instruction(&mut self, instr: &PebcInstruction) -> (status:
        InstructionStatusUpdate)
        requires
            old(self).wf(),
            instruction_fits(*instr),
        ensures
            final(self).wf(),
            final(self).profile@ == old(self).profile@,
            final(self).time_delta_ms == old(self).time_delta_ms,
            exists|now_ms: i64|
                final(self).constraints@ == #[trigger] constraints_after(
                    old(self).constraints@,
                    instruction_constraints(instr.execution_time_ms, instr.power_envelopes@),
                    now_ms,
                ) && status.timestamp_ms == now_ms,
            status.instruction_id@ == instr.instruction_id@,
            status.status_type == InstructionStatus::Succeeded,
    {
        let now_ms = now_millis();
        self.handle_instruction_at(instr, now_ms)
    }
}

/// After a registration, no interval that has ended by the registration
/// instant remains in the list.
pub proof fn lemma_registration_leaves_no_expired(
    cs: Seq<PvConstraint>,
    c: PvConstraint,
    now_ms: i64,
)
    ensures
        forall|i: int|
            0 <= i < pruned(cs.push(c), now_ms).len() ==> (#[trigger] pruned(
                cs.push(c),
                now_ms,
            )[i]).end_time_ms > now_ms,
{
    lemma_pruned_holds_no_expired(cs.push(c), now_ms);
}

/// First match governs: when an interval contains the instant and no
/// earlier interval in insertion order does, its bounds are the ones that
/// apply, whatever overlapping intervals follow it.
pub proof fn lemma_first_match_governs(cs: Seq<PvConstraint>, now_ms: i64, i: int)
    requires
        0 <= i < cs.len(),
        constraint_active(cs[i], now_ms),
        forall|k: int| 0 <= k < i ==> !constraint_active(#[trigger] cs[k], now_ms),
    ensures
        first_bounds(cs, now_ms) == (cs[i].lower_limit_mw, cs[i].upper_limit_mw),
    decreases i,
{
    if i > 0 {
        assert(!constraint_active(cs[0], now_ms));
        assert(forall|k: int|
            0 <= k < i - 1 ==> !constraint_active(#[trigger] cs.drop_first()[k], now_ms));
        lemma_first_match_governs(cs.drop_first(), now_ms, i - 1);
    }
}

/// The reported power always lies within the governing bounds, as long as
/// those bounds are a real interval.
pub proof fn lemma_power_within_bounds(s: PvSimulator, now_ms: i64)
    requires
        current_power_spec(s, now_ms) is Some,
        first_bounds(s.constraints@, now_ms).0 <= first_bounds(s.constraints@, now_ms).1,
    ensures
        first_bounds(s.constraints@, now_ms).0 <= current_power_spec(s, now_ms)->0 <= first_bounds(
            s.constraints@,
            now_ms,
        ).1,
{
}

/// Whether the negotiated control type is the one this simulator supports.
/// A session negotiating anything else fails fast at startup.
pub fn accepts_control_type(ct: &ControlType) -> (r: bool)
    ensures
        r == (ct is PowerEnvelopeBasedControl),
{
    matches!(ct, ControlType::PowerEnvelopeBasedControl)
}

} // verus!
