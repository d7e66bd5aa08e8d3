//! The completion screen: shows the finished transaction's summary and
//! waits for the user to return the kiosk to standby.

use vstd::prelude::*;

use crate::layout::AppBar;
use crate::screen::payment_screen::PaymentMethod;
use crate::screen::select_amount_screen::ChargeType;

verus! {

/// State of the completion screen.
#[derive(Clone, Debug)]
pub struct CompleteScreen {
    pub charge_type: ChargeType,
    /// The amount chosen earlier (kilowatts or percent).
    pub charge_amount: u64,
    pub payment_method: PaymentMethod,
    /// Total quoted cost in tenths of a currency unit.
    pub total_cost: u64,
    /// Duration of the finished charge in milliseconds.
    pub charging_duration_ms: u64,
    pub return_home_clicked: bool,
    pub app_bar: AppBar,
}

impl CompleteScreen {
    /// A fresh completion screen for the given transaction summary.
    pub fn new(
        charge_type: ChargeType,
        charge_amount: u64,
        payment_method: PaymentMethod,
        total_cost: u64,
        charging_duration_ms: u64,
    ) -> (s: CompleteScreen)
        ensures
            s.charge_type == charge_type,
            s.charge_amount == charge_amount,
            s.payment_method == payment_method,
            s.total_cost == total_cost,
            s.charging_duration_ms == charging_duration_ms,
            !s.return_home_clicked,
            s.app_bar.spec_title() == "Charging Complete"@,
            !s.app_bar.spec_show_back_button(),
    {
        CompleteScreen {
            charge_type,
            charge_amount,
            payment_method,
            total_cost,
            charging_duration_ms,
            return_home_clicked: false,
            app_bar: AppBar::new("Charging Complete"),
        }
    }

    pub fn is_return_home_clicked(&self) -> (b: bool)
        ensures
            b == self.return_home_clicked,
    {
        self.return_home_clicked
    }

    pub fn reset_return_home_clicked(&mut self)
        ensures
            *final(self) == (CompleteScreen { return_home_clicked: false, ..*old(self) }),
    {
        self.return_home_clicked = false;
    }

    /// Records a press of the return-home button.
    pub fn press_return_home(&mut self)
        ensures
            *final(self) == (CompleteScreen { return_home_clicked: true, ..*old(self) }),
    {
        self.return_home_clicked = true;
    }
}

} // verus!
