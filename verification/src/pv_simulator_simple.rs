//! A photovoltaic installation that is not controllable. It owns only the
//! generation profile: inbound messages are ignored, and it reports
//! measurements and forecasts from the profile alone.
//!
//! By protocol convention, produced power is reported as negative, so the
//! reported values are the sign-flipped profile values; the stored profile
//! itself keeps production positive.

use vstd::prelude::*;

use crate::clock::now_millis;
use crate::messages::ControlType;
use crate::profile::{
    current_unconstrained_power_mw, forecast_24h_mw, forecast_answer_at, forecast_power_mw, profile_wf,
    unconstrained_power_mw, PEAK_POWER_MW, SIMULATED_START_MS,
};

pub use crate::profile::ProfileRow;

verus! {

/// The uncontrolled photovoltaic simulator: the immutable generation
/// profile and the fixed offset between wall-clock and simulated time.
pub struct PvSimulator {
    pub profile: Vec<ProfileRow>,
    pub time_delta_ms: i64,
}

impl PvSimulator {
    /// The structural invariant: the profile is usable.
    pub open spec fn wf(&self) -> bool {
        profile_wf(self.profile@)
    }

    /// Builds a simulator over the given profile, anchored so that the
    /// clock reading `now_ms` corresponds to the start of the simulated
    /// timeline. A reading before the epoch counts as the epoch.
    pub fn new_at(profile: Vec<ProfileRow>, now_ms: i64) -> (s: PvSimulator)
        requires
            profile_wf(profile@),
        ensures
            s.wf(),
            s.profile@ == profile@,
            s.time_delta_ms as int == SIMULATED_START_MS - (if now_ms >= 0 {
                now_ms as int
            } else {
                0
            }),
    {
        let now_c: i64 = if now_ms >= 0 {
            now_ms
        } else {
            0
        };
        PvSimulator { profile, time_delta_ms: SIMULATED_START_MS - now_c }
    }

    /// Reads the wall clock and builds a simulator anchored to it.
    pub fn new(profile: Vec<ProfileRow>) -> (s: PvSimulator)
        requires
            profile_wf(profile@),
        ensures
            s.wf(),
            s.profile@ == profile@,
            s.time_delta_ms <= SIMULATED_START_MS,
    {
        let now_ms = now_millis();
        Self::new_at(profile, now_ms)
    }

    /// The generated power for the clock reading `now_ms`, in milliwatts:
    /// the profile value of the simulated hour scaled by the peak rated
    /// power, positive as stored. Nothing comes back exactly when the
    /// profile holds no row for the simulated hour.
    pub fn get_current_power_at(&self, now_ms: i64) -> (r: Option<i64>)
        requires
            self.wf(),
        ensures
            match r {
                Some(p) => unconstrained_power_mw(self.profile@, self.time_delta_ms, now_ms)
                    == Some(p as int) && 0 <= p <= PEAK_POWER_MW,
                None => unconstrained_power_mw(self.profile@, self.time_delta_ms, now_ms) is None,
            },
    {
        current_unconstrained_power_mw(&self.profile, self.time_delta_ms, now_ms)
    }

    /// Reads the wall clock and reports the generated power for it.
    pub fn get_current_power(&self) -> (r: Option<i64>)
        requires
            self.wf(),
        ensures
            r matches Some(p) ==> 0 <= p <= PEAK_POWER_MW,
            exists|now_ms: i64|
                match r {
                    Some(p) => #[trigger] unconstrained_power_mw(
                        self.profile@,
                        self.time_delta_ms,
                        now_ms,
                    ) == Some(p as int),
                    None => unconstrained_power_mw(self.profile@, self.time_delta_ms, now_ms)
                        is None,
                },
    {
        let now_ms = now_millis();
        self.get_current_power_at(now_ms)
    }

    /// The measurement value this device reports for the clock reading
    /// `now_ms`: the generated power, sign-flipped, because production is
    /// negative on the wire.
    pub fn reported_measurement_at(&self, now_ms: i64) -> (r: Option<i64>)
        requires
            self.wf(),
        ensures
            match r {
                Some(p) => unconstrained_power_mw(self.profile@, self.time_delta_ms, now_ms)
                    == Some(-p as int) && -PEAK_POWER_MW <= p <= 0,
                None => unconstrained_power_mw(self.profile@, self.time_delta_ms, now_ms) is None,
            },
    {
        match self.get_current_power_at(now_ms) {
            Some(p) => Some(-p),
            None => None,
        }
    }

    /// The 24-hour forecast for the clock reading `now_ms`: exactly 24
    /// values in increasing-hour order, starting at the next full simulated
    /// hour, each the profile value scaled to milliwatts, positive as
    /// stored. Nothing comes back exactly when the profile misses one of
    /// the 24 hours.
    pub fn get_24h_forecast_at(&self, now_ms: i64) -> (r: Option<Vec<i64>>)
        requires
            self.wf(),
        ensures
            match r {
                Some(v) => v@.len() == 24 && forall|k: int|
                    0 <= k < 24 ==> forecast_power_mw(self.profile@, self.time_delta_ms, now_ms, k)
                        == Some(#[trigger] v@[k] as int),
                None => exists|k: int|
                    0 <= k < 24 && #[trigger] forecast_power_mw(
                        self.profile@,
                        self.time_delta_ms,
                        now_ms,
                        k,
                    ) is None,
            },
    {
        forecast_24h_mw(&self.profile, self.time_delta_ms, now_ms)
    }

    /// Reads the wall clock and builds the 24-hour forecast for it:
    /// whatever instant the clock returned, the forecast holds that
    /// instant's 24 hourly values.
    pub fn get_24h_forecast(&self) -> (r: Option<Vec<i64>>)
        requires
            self.wf(),
        ensures
            r matches Some(v) ==> v@.len() == 24,
            exists|now_ms: i64|
                #[trigger] forecast_answer_at(self.profile@, self.time_delta_ms, now_ms, r),
    {
        let now_ms = now_millis();
        let r = self.get_24h_forecast_at(now_ms);
        proof {
            assert(forecast_answer_at(self.profile@, self.time_delta_ms, now_ms, r));
        }
        r
    }

    /// The forecast values this device reports for the clock reading
    /// `now_ms`: the 24 forecast values, each sign-flipped, because
    /// production is negative on the wire.
    pub fn reported_24h_forecast_at(&self, now_ms: i64) -> (r: Option<Vec<i64>>)
        requires
            self.wf(),
        ensures
            match r {
                Some(v) => v@.len() == 24 && forall|k: int|
                    0 <= k < 24 ==> forecast_power_mw(self.profile@, self.time_delta_ms, now_ms, k)
                        == Some(-(#[trigger] v@[k] as int)),
                None => exists|k: int|
                    0 <= k < 24 && #[trigger] forecast_power_mw(
                        self.profile@,
                        self.time_delta_ms,
                        now_ms,
                        k,
                    ) is None,
            },
    {
        match self.get_24h_forecast_at(now_ms) {
            Some(values) => {
                let mut flipped: Vec<i64> = Vec::new();
                let mut k: usize = 0;
                while k < 24
                    invariant
                        k <= 24,
                        flipped@.len() == k,
                        values@.len() == 24,
                        self.wf(),
                        forall|j: int|
                            0 <= j < 24 ==> forecast_power_mw(
                                self.profile@,
                                self.time_delta_ms,
                                now_ms,
                                j,
                            ) == Some(#[trigger] values@[j] as int),
                        forall|j: int| 0 <= j < k ==> #[trigger] flipped@[j] as int == -(values@[j] as int),
                    decreases 24 - k,
                {
                    proof {
                        crate::profile::lemma_forecast_value_in_range(
                            self.profile@,
                            self.time_delta_ms,
                            now_ms,
                            k as int,
                        );
                    }
                    let v = values[k];
                    flipped.push(-v);
                    k += 1;
                }
                Some(flipped)
            },
            None => None,
        }
    }
}

/// Whether the negotiated control type is one this simulator supports: it
/// accepts no control, so only the uncontrollable type or no selection at
/// all will do. A session negotiating anything else fails fast at startup.
pub fn accepts_control_type(ct: &ControlType) -> (r: bool)
    ensures
        r == (ct is NoSelection || ct is NotControlable),
{
    matches!(ct, ControlType::NoSelection | ControlType::NotControlable)
}

} // verus!
