//! The standby screen: the idle kiosk offering the three ways to start
//! a charge.  It only records which choice was pressed; the rendering
//! layer draws the buttons and calls the `press_*` methods.

use vstd::prelude::*;

verus! {

/// Intent flags of the standby screen.
#[derive(Clone, Copy, Debug)]
pub struct StandbyScreen {
    pub full_charge_clicked: bool,
    pub specific_watts_clicked: bool,
    pub percent_clicked: bool,
}

impl StandbyScreen {
    /// A standby screen with no pending choice.
    pub fn new() -> (s: StandbyScreen)
        ensures
            !s.full_charge_clicked,
            !s.specific_watts_clicked,
            !s.percent_clicked,
    {
        StandbyScreen {
            full_charge_clicked: false,
            specific_watts_clicked: false,
            percent_clicked: false,
        }
    }

    pub fn is_full_charge_clicked(&self) -> (b: bool)
        ensures
            b == self.full_charge_clicked,
    {
        self.full_charge_clicked
    }

    pub fn reset_full_charge_clicked(&mut self)
        ensures
            *final(self) == (StandbyScreen { full_charge_clicked: false, ..*old(self) }),
    {
        self.full_charge_clicked = false;
    }

    /// Records a press of the full-charge button.
    pub fn press_full_charge(&mut self)
        ensures
            *final(self) == (StandbyScreen { full_charge_clicked: true, ..*old(self) }),
    {
        self.full_charge_clicked = true;
    }

    pub fn is_specific_watts_clicked(&self) -> (b: bool)
        ensures
            b == self.specific_watts_clicked,
    {
        self.specific_watts_clicked
    }

    pub fn reset_specific_watts_clicked(&mut self)
        ensures
            *final(self) == (StandbyScreen { specific_watts_clicked: false, ..*old(self) }),
    {
        self.specific_watts_clicked = false;
    }

    /// Records a press of the charge-by-amount button.
    pub fn press_specific_watts(&mut self)
        ensures
            *final(self) == (StandbyScreen { specific_watts_clicked: true, ..*old(self) }),
    {
        self.specific_watts_clicked = true;
    }

    pub fn is_percent_clicked(&self) -> (b: bool)
        ensures
            b == self.percent_clicked,
    {
        self.percent_clicked
    }

    pub fn reset_percent_clicked(&mut self)
        ensures
            *final(self) == (StandbyScreen { percent_clicked: false, ..*old(self) }),
    {
        self.percent_clicked = false;
    }

    /// Records a press of the charge-to-percent button.
    pub fn press_percent(&mut self)
        ensures
            *final(self) == (StandbyScreen { percent_clicked: true, ..*old(self) }),
    {
        self.percent_clicked = true;
    }
}

} // verus!
