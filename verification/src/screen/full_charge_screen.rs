//! The full-charge screen: a fixed five-minute simulation from empty to
//! full at a constant 50 kW, using the same clamped-progress model as
//! the charging screen.

use vstd::prelude::*;

use crate::layout::AppBar;
use crate::screen::charging_screen::{spec_progress_permille, spec_remaining_ms};

verus! {

/// Total duration of the full-charge simulation, in milliseconds.
pub const FULL_CHARGE_TIME_MS: u64 = 300_000;

/// State of the full-charge screen.
#[derive(Clone, Debug)]
pub struct FullChargeScreen {
    /// Simulated battery progress in thousandths (0 to 1000).
    pub battery_level: u32,
    /// Simulated charging power in kilowatts.
    pub charging_power: u64,
    /// Simulated remaining time in milliseconds.
    pub estimated_time_ms: u64,
    pub app_bar: AppBar,
}

impl FullChargeScreen {
    /// A fresh full-charge screen at zero progress.
    pub fn new() -> (s: FullChargeScreen)
        ensures
            s.battery_level == 0,
            s.charging_power == 0,
            s.estimated_time_ms == 0,
            s.app_bar.spec_title() == "Full Charge in Progress"@,
            s.app_bar.spec_show_back_button(),
            !s.app_bar.spec_back_clicked(),
    {
        FullChargeScreen {
            battery_level: 0,
            charging_power: 0,
            estimated_time_ms: 0,
            app_bar: AppBar::new("Full Charge in Progress").with_back_button(),
        }
    }

    /// Advances the simulation to `elapsed_ms` milliseconds since the
    /// full-charge screen appeared.
    pub fn update_charging(&mut self, elapsed_ms: u64)
        ensures
            final(self).app_bar == old(self).app_bar,
            final(self).charging_power == 50,
            final(self).battery_level == spec_progress_permille(
                elapsed_ms,
                FULL_CHARGE_TIME_MS as int,
            ),
            final(self).estimated_time_ms == spec_remaining_ms(
                elapsed_ms,
                FULL_CHARGE_TIME_MS as int,
            ),
    {
        self.charging_power = 50;
        if elapsed_ms >= FULL_CHARGE_TIME_MS {
            self.battery_level = 1000;
            self.estimated_time_ms = 0;
        } else {
            let q = (elapsed_ms as u128) * 1000 / (FULL_CHARGE_TIME_MS as u128);
            proof {
                vstd::arithmetic::div_mod::lemma_multiply_divide_lt(
                    1000 * elapsed_ms,
                    FULL_CHARGE_TIME_MS as int,
                    1000,
                );
            }
            self.battery_level = q as u32;
            self.estimated_time_ms = FULL_CHARGE_TIME_MS - elapsed_ms;
        }
    }

    /// True once the simulated battery is full.
    pub fn is_charging_complete(&self) -> (b: bool)
        ensures
            b == (self.battery_level >= 1000),
    {
        self.battery_level >= 1000
    }

    pub fn is_back_clicked(&self) -> (b: bool)
        ensures
            b == self.app_bar.spec_back_clicked(),
    {
        self.app_bar.is_back_clicked()
    }

    pub fn reset_back_clicked(&mut self)
        ensures
            !final(self).app_bar.spec_back_clicked(),
            final(self).battery_level == old(self).battery_level,
            final(self).charging_power == old(self).charging_power,
            final(self).estimated_time_ms == old(self).estimated_time_ms,
            final(self).app_bar.spec_title() == old(self).app_bar.spec_title(),
            final(self).app_bar.spec_show_back_button() == old(
                self,
            ).app_bar.spec_show_back_button(),
    {
        self.app_bar.reset_back_clicked();
    }
}

} // verus!
