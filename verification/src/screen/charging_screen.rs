//! The charging screen's own progress simulation.
//!
//! This screen-level heuristic is deliberately independent of the
//! charging session engine: the total simulated duration is six seconds
//! per kilowatt for a fixed charge, or three seconds per percent for a
//! percentage target, and progress is elapsed time over that total,
//! clamped to [0, 1].  The two progress models compute different
//! numbers for the same nominal inputs; they are kept as two separately
//! specified paths on purpose.

use vstd::prelude::*;

use crate::layout::AppBar;
use crate::screen::payment_screen::PaymentMethod;
use crate::screen::select_amount_screen::ChargeType;

verus! {

/// Total simulated charge duration in milliseconds: 6 s per kilowatt,
/// or 3 s per percent.
pub open spec fn total_charge_time_ms(charge_type: ChargeType) -> int {
    match charge_type {
        ChargeType::SpecificWatts(watts) => watts * 6000,
        ChargeType::Percent(percent) => percent * 3000,
    }
}

/// Power shown while simulating: the requested amount for a fixed
/// charge, a constant 50 kW for a percentage target.
pub open spec fn simulated_power_kw(charge_type: ChargeType) -> u64 {
    match charge_type {
        ChargeType::SpecificWatts(watts) => watts,
        ChargeType::Percent(_) => 50u64,
    }
}

/// Progress in thousandths: elapsed over total, clamped to [0, 1].
/// A zero total counts as already complete.
pub open spec fn spec_progress_permille(elapsed_ms: u64, total_ms: int) -> int {
    if total_ms <= 0 || elapsed_ms >= total_ms {
        1000
    } else {
        1000 * elapsed_ms / total_ms
    }
}

/// Remaining simulated time in milliseconds, saturating at `u64::MAX`.
pub open spec fn spec_remaining_ms(elapsed_ms: u64, total_ms: int) -> int {
    if total_ms <= elapsed_ms {
        0
    } else if total_ms - elapsed_ms > u64::MAX {
        u64::MAX as int
    } else {
        total_ms - elapsed_ms
    }
}

/// State of the charging screen.
#[derive(Clone, Debug)]
pub struct ChargingScreen {
    pub charge_type: ChargeType,
    /// The amount chosen earlier (kilowatts or percent).
    pub charge_amount: u64,
    pub payment_method: PaymentMethod,
    /// Simulated progress in thousandths (0 to 1000).
    pub current_progress: u32,
    /// Simulated charging power in kilowatts.
    pub charging_power: u64,
    /// Simulated remaining time in milliseconds.
    pub estimated_time_ms: u64,
    /// Sticky completion flag: set once progress reaches one, never
    /// cleared by further updates.
    pub is_charging_complete: bool,
    pub app_bar: AppBar,
}

impl ChargingScreen {
    /// A fresh charging screen at zero progress.
    pub fn new(charge_type: ChargeType, charge_amount: u64, payment_method: PaymentMethod) -> (s:
        ChargingScreen)
        ensures
            s.charge_type == charge_type,
            s.charge_amount == charge_amount,
            s.payment_method == payment_method,
            s.current_progress == 0,
            s.charging_power == 0,
            s.estimated_time_ms == 0,
            !s.is_charging_complete,
            s.app_bar.spec_title() == "Charging in Progress"@,
            s.app_bar.spec_show_back_button(),
            !s.app_bar.spec_back_clicked(),
    {
        ChargingScreen {
            charge_type,
            charge_amount,
            payment_method,
            current_progress: 0,
            charging_power: 0,
            estimated_time_ms: 0,
            is_charging_complete: false,
            app_bar: AppBar::new("Charging in Progress").with_back_button(),
        }
    }

    /// Advances the simulation to `elapsed_ms` milliseconds since the
    /// charging screen appeared.
    pub fn update_charging(&mut self, elapsed_ms: u64)
        ensures
            final(self).charge_type == old(self).charge_type,
            final(self).charge_amount == old(self).charge_amount,
            final(self).payment_method == old(self).payment_method,
            final(self).app_bar == old(self).app_bar,
            final(self).charging_power == simulated_power_kw(old(self).charge_type),
            final(self).current_progress == spec_progress_permille(
                elapsed_ms,
                total_charge_time_ms(old(self).charge_type),
            ),
            final(self).estimated_time_ms == spec_remaining_ms(
                elapsed_ms,
                total_charge_time_ms(old(self).charge_type),
            ),
            final(self).is_charging_complete == (old(self).is_charging_complete || elapsed_ms
                >= total_charge_time_ms(old(self).charge_type)),
    {
        let (total, power): (u128, u64) = match self.charge_type {
            ChargeType::SpecificWatts(watts) => ((watts as u128) * 6000, watts),
            ChargeType::Percent(percent) => ((percent as u128) * 3000, 50),
        };
        self.charging_power = power;
        if (elapsed_ms as u128) >= total {
            self.current_progress = 1000;
            self.estimated_time_ms = 0;
            self.is_charging_complete = true;
        } else {
            let q = (elapsed_ms as u128) * 1000 / total;
            proof {
                vstd::arithmetic::div_mod::lemma_multiply_divide_lt(
                    1000 * elapsed_ms,
                    total as int,
                    1000,
                );
            }
            self.current_progress = q as u32;
            let remaining = total - (elapsed_ms as u128);
            self.estimated_time_ms = if remaining > u64::MAX as u128 {
                u64::MAX
            } else {
                remaining as u64
            };
        }
    }

    /// True once the simulation has reached its total duration.
    pub fn is_charging_complete(&self) -> (b: bool)
        ensures
            b == self.is_charging_complete,
    {
        self.is_charging_complete
    }

    pub fn is_back_clicked(&self) -> (b: bool)
        ensures
            b == self.app_bar.spec_back_clicked(),
    {
        self.app_bar.is_back_clicked()
    }

    pub fn reset_back_clicked(&mut self)
        ensures
            !final(self).app_bar.spec_back_clicked(),
            final(self).charge_type == old(self).charge_type,
            final(self).charge_amount == old(self).charge_amount,
            final(self).payment_method == old(self).payment_method,
            final(self).current_progress == old(self).current_progress,
            final(self).charging_power == old(self).charging_power,
            final(self).estimated_time_ms == old(self).estimated_time_ms,
            final(self).is_charging_complete == old(self).is_charging_complete,
            final(self).app_bar.spec_title() == old(self).app_bar.spec_title(),
            final(self).app_bar.spec_show_back_button() == old(
                self,
            ).app_bar.spec_show_back_button(),
    {
        self.app_bar.reset_back_clicked();
    }
}

} // verus!
