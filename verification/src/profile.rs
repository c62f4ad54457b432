//! The generation profile the photovoltaic simulators share: an immutable
//! table from hour-aligned instants of a simulated timeline to normalized
//! generation values, plus the time arithmetic that maps a wall-clock
//! reading onto that timeline.
//!
//! The simulated timeline is anchored to a fixed calendar instant; the
//! offset between it and the wall clock is computed once at construction
//! and held for a simulator's lifetime, so simulated time advances in
//! lockstep with the wall clock.

use vstd::arithmetic::div_mod::{
    lemma_div_pos_is_pos, lemma_fundamental_div_mod, lemma_fundamental_div_mod_converse_div,
    lemma_fundamental_div_mod_converse_mod, lemma_mod_bound,
};
use vstd::prelude::*;

use crate::HOUR_MS;

verus! {

/// The instant the simulated timeline starts at, in milliseconds of the
/// Unix epoch: noon of the first day of 2030.
pub const SIMULATED_START_MS: i64 = 1_893_499_200_000;

/// The peak rated power of a photovoltaic installation, in milliwatts
/// (2 kW). A profile value of one thousand thousandths stands for this.
pub const PEAK_POWER_MW: i64 = 2_000_000;

/// Milliwatts per thousandth of profile value: `PEAK_POWER_MW` split over
/// one thousand thousandths.
pub const MW_PER_MILLI: i64 = 2_000;

/// `HOUR_MS` times two to the sixty-sixth: shifting an instant by this
/// keeps its position within the hour while making it positive, which lets
/// the hour floor be computed with non-negative division.
pub const HOUR_SHIFT_MS: i128 = 3_600_000 * 0x4_0000_0000_0000_0000;

/// A bound on every simulated instant handled here: the sum of two signed
/// 64-bit instants always stays within it.
pub const SIM_TIME_BOUND_MS: i128 = 0x2_0000_0000_0000_0000;

/// One row of a generation profile: an hour-aligned instant of the
/// simulated timeline, and the normalized generation value for that hour
/// in thousandths.
#[derive(Clone, Copy, PartialEq, Eq, Structural, Debug)]
pub struct ProfileRow {
    pub timestamp_ms: i64,
    pub value_milli: i64,
}

/// What makes a profile usable: instants no earlier than the epoch and
/// values that are normalized fractions.
pub open spec fn profile_wf(rows: Seq<ProfileRow>) -> bool {
    forall|i: int|
        0 <= i < rows.len() ==> 0 <= #[trigger] rows[i].timestamp_ms && 0 <= rows[i].value_milli
            <= 1000
}

/// The value of the first row holding the given instant, if any row does.
pub open spec fn profile_lookup(rows: Seq<ProfileRow>, ts_ms: int) -> Option<int>
    decreases rows.len(),
{
    if rows.len() == 0 {
        None
    } else if rows[0].timestamp_ms == ts_ms {
        Some(rows[0].value_milli as int)
    } else {
        profile_lookup(rows.drop_first(), ts_ms)
    }
}

/// The start of the hour containing an instant.
pub open spec fn hour_floor(t_ms: int) -> int {
    (t_ms / (HOUR_MS as int)) * (HOUR_MS as int)
}

/// The simulated instant for the clock reading `now_ms` under the fixed
/// offset `delta_ms`, rounded down to the start of its hour.
pub open spec fn simulated_hour(now_ms: i64, delta_ms: i64) -> int {
    hour_floor(now_ms + delta_ms)
}

/// The profile value governing the clock reading `now_ms`: the value
/// stored for the start of the simulated hour.
pub open spec fn profile_value_at(rows: Seq<ProfileRow>, delta_ms: i64, now_ms: i64) -> Option<
    int,
> {
    profile_lookup(rows, simulated_hour(now_ms, delta_ms))
}

/// The unconstrained power for the clock reading `now_ms`, in milliwatts:
/// the governing profile value scaled by the peak rated power.
pub open spec fn unconstrained_power_mw(rows: Seq<ProfileRow>, delta_ms: i64, now_ms: i64) -> Option<
    int,
> {
    match profile_value_at(rows, delta_ms, now_ms) {
        Some(v) => Some(v * (MW_PER_MILLI as int)),
        None => None,
    }
}

/// The forecast power for the `k`-th forecast hour after the clock reading
/// `now_ms` (the first forecast hour is the next full simulated hour), in
/// milliwatts, never passed through any constraint.
pub open spec fn forecast_power_mw(
    rows: Seq<ProfileRow>,
    delta_ms: i64,
    now_ms: i64,
    k: int,
) -> Option<int> {
    match profile_lookup(rows, simulated_hour(now_ms, delta_ms) + (k + 1) * (HOUR_MS as int)) {
        Some(v) => Some(v * (MW_PER_MILLI as int)),
        None => None,
    }
}

/// Whether `r` is the 24-hour forecast answer for the clock reading
/// `now_ms`: 24 hourly values when the profile covers the forecast day,
/// nothing when it misses one of the 24 hours.
pub open spec fn forecast_answer_at(
    rows: Seq<ProfileRow>,
    delta_ms: i64,
    now_ms: i64,
    r: Option<Vec<i64>>,
) -> bool {
    match r {
        Some(v) => v@.len() == 24 && forall|k: int|
            0 <= k < 24 ==> forecast_power_mw(rows, delta_ms, now_ms, k) == Some(
                #[trigger] v@[k] as int,
            ),
        None => exists|k: int|
            0 <= k < 24 && #[trigger] forecast_power_mw(rows, delta_ms, now_ms, k) is None,
    }
}

/// A profile holding no row for an instant answers no lookup for it.
pub proof fn lemma_lookup_absent(rows: Seq<ProfileRow>, ts_ms: int)
    requires
        forall|i: int| 0 <= i < rows.len() ==> #[trigger] rows[i].timestamp_ms != ts_ms,
    ensures
        profile_lookup(rows, ts_ms) is None,
    decreases rows.len(),
{
    if rows.len() > 0 {
        assert(forall|i: int|
            0 <= i < rows.drop_first().len() ==> #[trigger] rows.drop_first()[i].timestamp_ms
                != ts_ms);
        lemma_lookup_absent(rows.drop_first(), ts_ms);
    }
}

/// A successful lookup in a usable profile hands back a normalized value.
pub proof fn lemma_lookup_in_range(rows: Seq<ProfileRow>, ts_ms: int)
    requires
        profile_wf(rows),
        profile_lookup(rows, ts_ms) is Some,
    ensures
        0 <= profile_lookup(rows, ts_ms)->0 <= 1000,
    decreases rows.len(),
{
    if rows.len() > 0 && rows[0].timestamp_ms != ts_ms {
        assert(profile_wf(rows.drop_first()));
        lemma_lookup_in_range(rows.drop_first(), ts_ms);
    }
}

/// The hour floor brackets its instant: it is hour-aligned, no later than
/// the instant, and the next full hour lies strictly after the instant. So
/// a forecast whose first hour is the floor plus one hour starts at the
/// next full simulated hour, and its hours ascend strictly, one hour apart.
pub proof fn lemma_hour_floor_brackets(t_ms: int)
    ensures
        hour_floor(t_ms) <= t_ms < hour_floor(t_ms) + HOUR_MS,
        hour_floor(t_ms) % (HOUR_MS as int) == 0,
{
    let hi = HOUR_MS as int;
    let q = t_ms / hi;
    lemma_fundamental_div_mod(t_ms, hi);
    lemma_mod_bound(t_ms, hi);
    assert(q * hi == hi * q) by (nonlinear_arith);
    lemma_fundamental_div_mod_converse_mod(q * hi, hi, q, 0);
}

/// A forecast value from a usable profile is a scaled normalized value:
/// never negative, never above the peak rated power.
pub proof fn lemma_forecast_value_in_range(
    rows: Seq<ProfileRow>,
    delta_ms: i64,
    now_ms: i64,
    k: int,
)
    requires
        profile_wf(rows),
        forecast_power_mw(rows, delta_ms, now_ms, k) is Some,
    ensures
        0 <= forecast_power_mw(rows, delta_ms, now_ms, k)->0 <= PEAK_POWER_MW,
{
    lemma_lookup_in_range(rows, simulated_hour(now_ms, delta_ms) + (k + 1) * (HOUR_MS as int));
}

/// Computes the hour floor of a possibly negative instant. Shifting by a
/// whole number of hours keeps the position within the hour, so the floor
/// is computed on a shifted, non-negative instant.
pub fn hour_floor_exec(t_ms: i128) -> (h: i128)
    requires
        -SIM_TIME_BOUND_MS <= t_ms <= SIM_TIME_BOUND_MS,
    ensures
        h as int == hour_floor(t_ms as int),
        h <= t_ms < h + HOUR_MS as i128,
{
    let shifted: i128 = t_ms + HOUR_SHIFT_MS;
    let q: i128 = shifted / (HOUR_MS as i128);
    let h: i128 = q * (HOUR_MS as i128) - HOUR_SHIFT_MS;
    proof {
        let hi = HOUR_MS as int;
        let ki = 0x4_0000_0000_0000_0000int;
        assert(HOUR_SHIFT_MS as int == hi * ki);
        lemma_div_pos_is_pos(shifted as int, hi);
        lemma_fundamental_div_mod(shifted as int, hi);
        lemma_mod_bound(shifted as int, hi);
        let rem = (shifted as int) % hi;
        assert(t_ms as int == (q - ki) * hi + rem) by (nonlinear_arith)
            requires
                shifted as int == hi * (q as int) + rem,
                shifted as int == t_ms as int + hi * ki,
        ;
        lemma_fundamental_div_mod_converse_div(t_ms as int, hi, q as int - ki, rem);
        assert(h as int == (q as int - ki) * hi) by (nonlinear_arith)
            requires
                h as int == (q as int) * hi - hi * ki,
        ;
    }
    h
}

/// Looks a value up by the exact instant, scanning in row order and
/// answering from the first row that holds the instant.
pub fn lookup_value(rows: &Vec<ProfileRow>, ts_ms: i64) -> (r: Option<i64>)
    ensures
        match r {
            Some(v) => profile_lookup(rows@, ts_ms as int) == Some(v as int),
            None => profile_lookup(rows@, ts_ms as int) is None,
        },
{
    let n = rows.len();
    let mut i: usize = 0;
    proof {
        assert(rows@.skip(0) =~= rows@);
    }
    while i < n
        invariant
            i <= n,
            n == rows@.len(),
            profile_lookup(rows@, ts_ms as int) == profile_lookup(
                rows@.skip(i as int),
                ts_ms as int,
            ),
        decreases n - i,
    {
        if rows[i].timestamp_ms == ts_ms {
            proof {
                assert(rows@.skip(i as int)[0] == rows@[i as int]);
            }
            return Some(rows[i].value_milli);
        }
        proof {
            assert(rows@.skip(i as int)[0] == rows@[i as int]);
            assert(rows@.skip(i as int).drop_first() =~= rows@.skip(i as int + 1));
        }
        i += 1;
    }
    proof {
        assert(rows@.skip(n as int).len() == 0);
    }
    None
}

/// The simulated hour-aligned instant for the clock reading `now_ms`, when
/// a 64-bit instant can hold it. A usable profile holds no instant outside
/// that range, so when it cannot be held, no lookup could answer anyway.
fn simulated_hour_ts(delta_ms: i64, now_ms: i64) -> (r: Option<i64>)
    ensures
        match r {
            Some(h) => h as int == simulated_hour(now_ms, delta_ms),
            None => simulated_hour(now_ms, delta_ms) < 0 || simulated_hour(now_ms, delta_ms)
                > i64::MAX as int,
        },
{
    let sim: i128 = now_ms as i128 + delta_ms as i128;
    let h = hour_floor_exec(sim);
    if h < 0 || h > i64::MAX as i128 {
        None
    } else {
        Some(h as i64)
    }
}

/// Looks up the profile value governing the clock reading `now_ms` and
/// scales it to milliwatts. Answers nothing exactly when the profile holds
/// no row for the simulated hour.
pub fn current_unconstrained_power_mw(rows: &Vec<ProfileRow>, delta_ms: i64, now_ms: i64) -> (r:
    Option<i64>)
    requires
        profile_wf(rows@),
    ensures
        match r {
            Some(p) => unconstrained_power_mw(rows@, delta_ms, now_ms) == Some(p as int) && 0 <= p
                <= PEAK_POWER_MW,
            None => unconstrained_power_mw(rows@, delta_ms, now_ms) is None,
        },
{
    match simulated_hour_ts(delta_ms, now_ms) {
        Some(h) => {
            match lookup_value(rows, h) {
                Some(v) => {
                    proof {
                        lemma_lookup_in_range(rows@, h as int);
                    }
                    Some(v * MW_PER_MILLI)
                },
                None => None,
            }
        },
        None => {
            proof {
                let target = simulated_hour(now_ms, delta_ms);
                assert(forall|i: int|
                    0 <= i < rows@.len() ==> #[trigger] rows@[i].timestamp_ms != target);
                lemma_lookup_absent(rows@, target);
            }
            None
        },
    }
}

/// Builds the 24-hour forecast for the clock reading `now_ms`: one value
/// per simulated hour, in increasing-hour order, starting at the next full
/// simulated hour, each the raw profile value scaled to milliwatts and
/// never passed through any constraint. Answers nothing exactly when the
/// profile misses one of the 24 hours.
pub fn forecast_24h_mw(rows: &Vec<ProfileRow>, delta_ms: i64, now_ms: i64) -> (r: Option<Vec<i64>>)
    requires
        profile_wf(rows@),
    ensures
        match r {
            Some(v) => v@.len() == 24 && forall|k: int|
                0 <= k < 24 ==> forecast_power_mw(rows@, delta_ms, now_ms, k) == Some(
                    #[trigger] v@[k] as int,
                ),
            None => exists|k: int|
                0 <= k < 24 && #[trigger] forecast_power_mw(rows@, delta_ms, now_ms, k) is None,
        },
{
    let sim: i128 = now_ms as i128 + delta_ms as i128;
    let base: i128 = hour_floor_exec(sim);
    let mut values: Vec<i64> = Vec::new();
    let mut k: usize = 0;
    while k < 24
        invariant
            k <= 24,
            values@.len() == k,
            profile_wf(rows@),
            base as int == simulated_hour(now_ms, delta_ms),
            -SIM_TIME_BOUND_MS <= base <= SIM_TIME_BOUND_MS,
            forall|j: int|
                0 <= j < k ==> forecast_power_mw(rows@, delta_ms, now_ms, j) == Some(
                    #[trigger] values@[j] as int,
                ),
        decreases 24 - k,
    {
        proof {
            assert(0 <= ((k as int) + 1) * (HOUR_MS as int) <= 24 * 3_600_000) by (nonlinear_arith)
                requires
                    0 <= k < 24,
            ;
        }
        let target: i128 = base + ((k as i128) + 1) * (HOUR_MS as i128);
        let looked: Option<i64> = if target < 0 || target > i64::MAX as i128 {
            proof {
                assert(forall|i: int|
                    0 <= i < rows@.len() ==> #[trigger] rows@[i].timestamp_ms != target as int);
                lemma_lookup_absent(rows@, target as int);
            }
            None
        } else {
            lookup_value(rows, target as i64)
        };
        match looked {
            Some(v) => {
                proof {
                    lemma_lookup_in_range(rows@, target as int);
                }
                values.push(v * MW_PER_MILLI);
            },
            None => {
                proof {
                    assert(forecast_power_mw(rows@, delta_ms, now_ms, k as int) is None);
                }
                return None;
            },
        }
        k += 1;
    }
    Some(values)
}

} // verus!
