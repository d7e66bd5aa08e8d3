//! The charging session engine.
//!
//! One [`ChargingSession`] owns the progress state of a single charging
//! transaction.  The host advances it once per poll with the elapsed
//! time since the previous poll; the session accumulates energy,
//! derives cost, simulates the battery level, and completes itself as
//! soon as its [`ChargingTarget`] is reached.
//!
//! Fixed-point units, chosen so that every step is exact:
//! - power: watts,
//! - elapsed time: thousandths of an hour (millihours),
//! - energy: milliwatt-hours (1 W for 1 millihour is 1 mWh),
//! - cost: millionths of a currency unit (1 mWh at 1 unit/kWh),
//! - battery level: millionths of a percent.
//!
//! The battery gains two millionths of a percent per milliwatt-hour,
//! i.e. two percent per kWh, clamped at one hundred percent.  This
//! 2x coupling between energy and battery percentage is a simplified,
//! non-physical simulation rule kept deliberately.

use vstd::prelude::*;

use crate::config::ChargingConfig;
use crate::error::{AppError, AppResult};

verus! {

/// A full battery, in millionths of a percent (100%).
pub const BATTERY_FULL: u64 = 100_000_000;

/// Battery level in millionths of a percent (0 to [`BATTERY_FULL`]).
#[derive(Clone, Copy, Debug, PartialEq, Eq, Structural)]
pub struct BatteryLevel(pub u64);

/// Charging power in watts.
#[derive(Clone, Copy, Debug, PartialEq, Eq, Structural)]
pub struct Power(pub u64);

/// Accumulated energy in milliwatt-hours.
#[derive(Clone, Copy, Debug, PartialEq, Eq, Structural)]
pub struct Energy(pub u64);

/// Accumulated cost in millionths of a currency unit.
#[derive(Clone, Copy, Debug, PartialEq, Eq, Structural)]
pub struct Cost(pub u64);

/// Lifecycle of one session.  `Paused` and `Error` are reserved: no
/// transition currently produces them.
#[derive(Clone, Debug)]
pub enum ChargingStatus {
    Idle,
    Connecting,
    Charging,
    Paused,
    Complete,
    Error(String),
}

/// The condition that ends the charging state, evaluated against the
/// session after every mutation.
#[derive(Clone, Copy, Debug, PartialEq, Eq, Structural)]
pub enum ChargingTarget {
    /// Reached when accumulated energy (mWh) meets the bound.
    Energy(u64),
    /// Reached when accumulated cost (millionths of a unit) meets the bound.
    Cost(u64),
    /// Reached when the given duration (milliseconds) has elapsed since
    /// the session started.
    Time(u64),
    /// Reached when the battery level (millionths of a percent) meets
    /// the bound.
    BatteryLevel(u64),
}

/// One charging transaction: created on "start charging", dropped when
/// the kiosk returns to standby.
#[derive(Clone, Debug)]
pub struct ChargingSession {
    /// Opaque unique identifier (hyphenated UUID string).
    pub id: String,
    pub status: ChargingStatus,
    /// Wall-clock start, in milliseconds since the epoch.
    pub started_at: u64,
    pub battery_level: BatteryLevel,
    pub power: Power,
    pub energy: Energy,
    pub cost: Cost,
    pub target: ChargingTarget,
}

/// Relies on `uuid::Uuid::new_v4` and its `Display` impl: a fresh
/// random UUID rendered as the 36-character hyphenated string.  The
/// value is random; only its length is promised.
#[verifier::external_body]
fn fresh_session_id() -> (r: String)
    ensures
        r@.len() == 36,
{
    uuid::Uuid::new_v4().to_string()
}

/// Relies on `chrono::Utc::now` and `DateTime::timestamp_millis`: the
/// current wall-clock time in milliseconds.  Nothing is promised of
/// the value.
#[verifier::external_body]
fn current_time_millis() -> (r: u64) {
    chrono::Utc::now().timestamp_millis() as u64
}

/// The target evaluator: decides, from the session's current attributes
/// and its target alone, whether the charge target has been met at time
/// `now_ms`.  Reaching the bound exactly counts as reached.
pub open spec fn target_reached(s: ChargingSession, now_ms: u64) -> bool {
    match s.target {
        ChargingTarget::Energy(t) => s.energy.0 >= t,
        ChargingTarget::Cost(t) => s.cost.0 >= t,
        ChargingTarget::Time(t) => now_ms - s.started_at >= t,
        ChargingTarget::BatteryLevel(t) => s.battery_level.0 >= t,
    }
}

/// The session after one charging step of `delta_time` millihours at
/// `price_per_kwh`, before the target check: energy grows by
/// power x time, cost is re-derived from the new energy, and the
/// battery gains twice the energy delta, clamped at full.
pub open spec fn charged_session(
    s: ChargingSession,
    delta_time: u64,
    price_per_kwh: u64,
) -> ChargingSession {
    let energy_delta = s.power.0 * delta_time;
    let new_energy = s.energy.0 + energy_delta;
    let new_cost = new_energy * price_per_kwh;
    let new_battery = if s.battery_level.0 + 2 * energy_delta >= BATTERY_FULL {
        BATTERY_FULL as int
    } else {
        s.battery_level.0 + 2 * energy_delta
    };
    ChargingSession {
        battery_level: BatteryLevel(new_battery as u64),
        energy: Energy(new_energy as u64),
        cost: Cost(new_cost as u64),
        ..s
    }
}

/// The full effect of one `update` call observed at time `now_ms`:
/// a no-op unless the session is charging; otherwise one charging step
/// followed by the target check, which completes the session.
pub open spec fn spec_update(
    s: ChargingSession,
    delta_time: u64,
    price_per_kwh: u64,
    now_ms: u64,
) -> ChargingSession {
    if s.status is Charging {
        let c = charged_session(s, delta_time, price_per_kwh);
        if target_reached(c, now_ms) {
            ChargingSession { status: ChargingStatus::Complete, ..c }
        } else {
            c
        }
    } else {
        s
    }
}

impl ChargingSession {
    /// The session's internal invariant: the simulated battery level
    /// never exceeds a full battery.
    pub open spec fn wf(self) -> bool {
        self.battery_level.0 <= BATTERY_FULL
    }

    /// A fresh session in `Idle` with all progress at zero.
    pub fn new(target: ChargingTarget) -> (s: ChargingSession)
        ensures
            s.status is Idle,
            s.battery_level.0 == 0,
            s.power.0 == 0,
            s.energy.0 == 0,
            s.cost.0 == 0,
            s.target == target,
            s.id@.len() == 36,
            s.wf(),
    {
        ChargingSession {
            id: fresh_session_id(),
            status: ChargingStatus::Idle,
            started_at: current_time_millis(),
            battery_level: BatteryLevel(0),
            power: Power(0),
            energy: Energy(0),
            cost: Cost(0),
            target,
        }
    }

    /// Begins charging at the given power.  Fails, changing nothing,
    /// unless the session is idle: a second call without a return to
    /// idle always fails.
    pub fn start_charging(&mut self, power: Power) -> (r: AppResult<()>)
        ensures
            old(self).status is Idle <==> r is Ok,
            r is Ok ==> final(self).status is Charging
                && final(self).power == power
                && final(self).id == old(self).id
                && final(self).battery_level == old(self).battery_level
                && final(self).energy == old(self).energy
                && final(self).cost == old(self).cost
                && final(self).target == old(self).target,
            !(old(self).status is Idle) ==> (r matches Err(AppError::ChargingError(_))
                && *final(self) == *old(self)),
            old(self).wf() ==> final(self).wf(),
    {
        if !matches!(self.status, ChargingStatus::Idle) {
            return Err(AppError::ChargingError("charger is already in use".to_owned()));
        }
        self.status = ChargingStatus::Charging;
        self.power = power;
        self.started_at = current_time_millis();
        Ok(())
    }

    /// The target evaluator, executable form: true exactly when the
    /// charge target is met at time `now_ms`.
    pub fn is_target_reached_at(&self, now_ms: u64) -> (b: bool)
        ensures
            b == target_reached(*self, now_ms),
    {
        match self.target {
            ChargingTarget::Energy(t) => self.energy.0 >= t,
            ChargingTarget::Cost(t) => self.cost.0 >= t,
            ChargingTarget::Time(t) => (now_ms as i128) - (self.started_at as i128) >= (t as i128),
            ChargingTarget::BatteryLevel(t) => self.battery_level.0 >= t,
        }
    }

    /// Advances the session by `delta_time` millihours, evaluating the
    /// target against the supplied clock value.  The whole effect is
    /// pinned by [`spec_update`].
    pub fn update_at(&mut self, delta_time: u64, config: &ChargingConfig, now_ms: u64)
        requires
            old(self).wf(),
            old(self).status is Charging ==> {
                &&& old(self).energy.0 + old(self).power.0 * delta_time <= u64::MAX
                &&& (old(self).energy.0 + old(self).power.0 * delta_time) * config.price_per_kwh
                    <= u64::MAX
            },
        ensures
            *final(self) == spec_update(*old(self), delta_time, config.price_per_kwh, now_ms),
            final(self).wf(),
    {
        if matches!(self.status, ChargingStatus::Charging) {
            let energy_delta = self.power.0 * delta_time;
            self.energy = Energy(self.energy.0 + energy_delta);
            self.cost = Cost(self.energy.0 * config.price_per_kwh);
            let new_battery = if energy_delta >= BATTERY_FULL / 2 {
                BATTERY_FULL
            } else {
                let gain = 2 * energy_delta;
                if self.battery_level.0 >= BATTERY_FULL - gain {
                    BATTERY_FULL
                } else {
                    self.battery_level.0 + gain
                }
            };
            self.battery_level = BatteryLevel(new_battery);
            if self.is_target_reached_at(now_ms) {
                self.status = ChargingStatus::Complete;
            }
        }
    }

    /// Advances the session by `delta_time` millihours, sampling the
    /// wall clock for the target check.  Whatever time the clock
    /// returns, the result is one [`spec_update`] step; for every
    /// target kind but `Time` the clock value is irrelevant and the
    /// result is pinned exactly.
    pub fn update(&mut self, delta_time: u64, config: &ChargingConfig)
        requires
            old(self).wf(),
            old(self).status is Charging ==> {
                &&& old(self).energy.0 + old(self).power.0 * delta_time <= u64::MAX
                &&& (old(self).energy.0 + old(self).power.0 * delta_time) * config.price_per_kwh
                    <= u64::MAX
            },
        ensures
            final(self).wf(),
            exists|now_ms: u64|
                *final(self) == spec_update(
                    *old(self),
                    delta_time,
                    config.price_per_kwh,
                    now_ms,
                ),
            !(old(self).status is Charging) ==> *final(self) == *old(self),
            old(self).status is Charging ==> ({
                let c = charged_session(*old(self), delta_time, config.price_per_kwh);
                &&& final(self).energy == c.energy
                &&& final(self).cost == c.cost
                &&& final(self).battery_level == c.battery_level
                &&& final(self).id == old(self).id
                &&& final(self).power == old(self).power
                &&& final(self).target == old(self).target
                &&& final(self).started_at == old(self).started_at
                &&& (final(self).status is Charging || final(self).status is Complete)
            }),
            old(self).status is Charging && !(old(self).target is Time) ==> *final(self)
                == spec_update(*old(self), delta_time, config.price_per_kwh, 0),
    {
        let now_ms = current_time_millis();
        self.update_at(delta_time, config, now_ms);
        proof {
            assert(*self == spec_update(*old(self), delta_time, config.price_per_kwh, now_ms));
        }
    }
}

/// Law: for any non-negative elapsed time, a charging session gains
/// exactly power x time of energy in one update, whatever the clock
/// returned.
pub proof fn lemma_update_energy_exact(
    s: ChargingSession,
    delta_time: u64,
    price_per_kwh: u64,
    now_ms: u64,
)
    requires
        s.status is Charging,
        s.energy.0 + s.power.0 * delta_time <= u64::MAX,
    ensures
        spec_update(s, delta_time, price_per_kwh, now_ms).energy.0 == s.energy.0 + s.power.0
            * delta_time,
{
}

/// Law: after every update, cost equals energy x price: the derived
/// invariant never drifts, whatever the clock returned.
pub proof fn lemma_cost_derived(
    s: ChargingSession,
    delta_time: u64,
    price_per_kwh: u64,
    now_ms: u64,
)
    requires
        !(s.status is Charging) ==> s.cost.0 == s.energy.0 * price_per_kwh,
        s.status is Charging ==> {
            &&& s.energy.0 + s.power.0 * delta_time <= u64::MAX
            &&& (s.energy.0 + s.power.0 * delta_time) * price_per_kwh <= u64::MAX
        },
    ensures
        spec_update(s, delta_time, price_per_kwh, now_ms).cost.0 == spec_update(
            s,
            delta_time,
            price_per_kwh,
            now_ms,
        ).energy.0 * price_per_kwh,
{
}

/// Law: the battery level stays within zero and a full battery across
/// any update (it is a `u64`, so the lower bound is inherent).
pub proof fn lemma_battery_bounded(
    s: ChargingSession,
    delta_time: u64,
    price_per_kwh: u64,
    now_ms: u64,
)
    requires
        s.wf(),
    ensures
        spec_update(s, delta_time, price_per_kwh, now_ms).wf(),
{
}

/// The session after a whole sequence of updates, each step giving its
/// elapsed time, price and observed clock.
pub open spec fn spec_update_seq(s: ChargingSession, steps: Seq<(u64, u64, u64)>) -> ChargingSession
    decreases steps.len(),
{
    if steps.len() == 0 {
        s
    } else {
        spec_update_seq(spec_update(s, steps[0].0, steps[0].1, steps[0].2), steps.drop_first())
    }
}

/// Law: the battery level stays within zero and a full battery across
/// any sequence of updates.
pub proof fn lemma_battery_bounded_seq(s: ChargingSession, steps: Seq<(u64, u64, u64)>)
    requires
        s.wf(),
    ensures
        spec_update_seq(s, steps).wf(),
    decreases steps.len(),
{
    if steps.len() > 0 {
        lemma_battery_bounded(s, steps[0].0, steps[0].1, steps[0].2);
        lemma_battery_bounded_seq(
            spec_update(s, steps[0].0, steps[0].1, steps[0].2),
            steps.drop_first(),
        );
    }
}

/// Law: once a session is complete, further updates change nothing:
/// energy, cost and battery level are left exactly as they were.
pub proof fn lemma_complete_is_final(
    s: ChargingSession,
    delta_time: u64,
    price_per_kwh: u64,
    now_ms: u64,
)
    requires
        s.status is Complete,
    ensures
        spec_update(s, delta_time, price_per_kwh, now_ms) == s,
{
}

} // verus!
