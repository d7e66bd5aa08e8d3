//! The payment-method screen, and the kiosk's quoted-cost formula.
//!
//! The quoted cost is expressed in tenths of a currency unit so the
//! formula stays exact: a fixed charge of `w` kilowatts is quoted at
//! `0.2 x w` units, i.e. `2 x w` tenths, and a charge to `p` percent at
//! `0.1 x p` units, i.e. `p` tenths.

use vstd::prelude::*;

use crate::layout::AppBar;
use crate::screen::select_amount_screen::ChargeType;

verus! {

/// How the session is paid for.  Selected exactly once before charging
/// begins.
#[derive(Clone, Copy, Debug, PartialEq, Eq, Structural)]
pub enum PaymentMethod {
    CreditCard,
    MobileApp,
    RFID,
    Membership,
}

/// The quoted cost of a charge selection, in tenths of a currency unit,
/// saturating at `u64::MAX` tenths.
pub open spec fn quoted_cost(charge_type: ChargeType) -> u64 {
    match charge_type {
        ChargeType::SpecificWatts(watts) => if watts > u64::MAX / 2 {
            u64::MAX
        } else {
            (2 * watts) as u64
        },
        ChargeType::Percent(percent) => percent,
    }
}

/// Computes [`quoted_cost`].
pub fn compute_quoted_cost(charge_type: ChargeType) -> (r: u64)
    ensures
        r == quoted_cost(charge_type),
{
    match charge_type {
        ChargeType::SpecificWatts(watts) => {
            if watts > u64::MAX / 2 {
                u64::MAX
            } else {
                2 * watts
            }
        },
        ChargeType::Percent(percent) => percent,
    }
}

/// State of the payment-method screen.
#[derive(Clone, Debug)]
pub struct PaymentScreen {
    pub charge_type: ChargeType,
    /// The amount chosen on the previous screen (kilowatts or percent).
    pub charge_amount: u64,
    pub selected_payment: Option<PaymentMethod>,
    pub proceed_clicked: bool,
    pub app_bar: AppBar,
}

impl PaymentScreen {
    /// A fresh payment screen with nothing selected yet.
    pub fn new(charge_type: ChargeType, charge_amount: u64) -> (s: PaymentScreen)
        ensures
            s.charge_type == charge_type,
            s.charge_amount == charge_amount,
            s.selected_payment is None,
            !s.proceed_clicked,
            s.app_bar.spec_title() == "Select Payment Method"@,
            s.app_bar.spec_show_back_button(),
            !s.app_bar.spec_back_clicked(),
    {
        PaymentScreen {
            charge_type,
            charge_amount,
            selected_payment: None,
            proceed_clicked: false,
            app_bar: AppBar::new("Select Payment Method").with_back_button(),
        }
    }

    pub fn get_selected_payment(&self) -> (m: Option<PaymentMethod>)
        ensures
            m == self.selected_payment,
    {
        self.selected_payment
    }

    /// Records the user's payment choice.
    pub fn select_payment(&mut self, method: PaymentMethod)
        ensures
            *final(self) == (PaymentScreen { selected_payment: Some(method), ..*old(self) }),
    {
        self.selected_payment = Some(method);
    }

    pub fn is_proceed_clicked(&self) -> (b: bool)
        ensures
            b == self.proceed_clicked,
    {
        self.proceed_clicked
    }

    pub fn reset_proceed_clicked(&mut self)
        ensures
            *final(self) == (PaymentScreen { proceed_clicked: false, ..*old(self) }),
    {
        self.proceed_clicked = false;
    }

    /// Records a press of the proceed button.
    pub fn press_proceed(&mut self)
        ensures
            *final(self) == (PaymentScreen { proceed_clicked: true, ..*old(self) }),
    {
        self.proceed_clicked = true;
    }

    pub fn is_back_clicked(&self) -> (b: bool)
        ensures
            b == self.app_bar.spec_back_clicked(),
    {
        self.app_bar.is_back_clicked()
    }

    pub fn reset_back_clicked(&mut self)
        ensures
            !final(self).app_bar.spec_back_clicked(),
            final(self).charge_type == old(self).charge_type,
            final(self).charge_amount == old(self).charge_amount,
            final(self).selected_payment == old(self).selected_payment,
            final(self).proceed_clicked == old(self).proceed_clicked,
            final(self).app_bar.spec_title() == old(self).app_bar.spec_title(),
            final(self).app_bar.spec_show_back_button() == old(
                self,
            ).app_bar.spec_show_back_button(),
    {
        self.app_bar.reset_back_clicked();
    }

    /// The cost quoted on this screen for the pending selection, in
    /// tenths of a currency unit.
    pub fn calculate_cost(&self) -> (r: u64)
        ensures
            r == quoted_cost(self.charge_type),
    {
        compute_quoted_cost(self.charge_type)
    }
}

} // verus!
