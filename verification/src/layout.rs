//! Chrome shared by the kiosk screens.
//!
//! [`AppBar`] is the top bar's state: a title, whether a back button is
//! offered, and whether it has been clicked since the last reset.  The
//! rendering layer draws it and records clicks; screens poll and reset
//! the click flag.

use vstd::prelude::*;

verus! {

/// State of the top application bar.
#[derive(Clone, Debug)]
pub struct AppBar {
    title: String,
    show_back_button: bool,
    back_clicked: bool,
}

impl AppBar {
    /// The bar's title text.
    pub closed spec fn spec_title(self) -> Seq<char> {
        self.title@
    }

    /// Whether a back button is offered.
    pub closed spec fn spec_show_back_button(self) -> bool {
        self.show_back_button
    }

    /// Whether the back button has been clicked since the last reset.
    pub closed spec fn spec_back_clicked(self) -> bool {
        self.back_clicked
    }

    /// A bar with the given title, no back button, and no pending click.
    pub fn new(title: &str) -> (a: AppBar)
        ensures
            a.spec_title() == title@,
            !a.spec_show_back_button(),
            !a.spec_back_clicked(),
    {
        AppBar { title: title.to_owned(), show_back_button: false, back_clicked: false }
    }

    /// The same bar, now offering a back button.
    pub fn with_back_button(self) -> (a: AppBar)
        ensures
            a.spec_title() == self.spec_title(),
            a.spec_show_back_button(),
            a.spec_back_clicked() == self.spec_back_clicked(),
    {
        AppBar { show_back_button: true, ..self }
    }

    /// True while a back click is pending.
    pub fn is_back_clicked(&self) -> (b: bool)
        ensures
            b == self.spec_back_clicked(),
    {
        self.back_clicked
    }

    /// Clears the pending back click.
    pub fn reset_back_clicked(&mut self)
        ensures
            !final(self).spec_back_clicked(),
            final(self).spec_title() == old(self).spec_title(),
            final(self).spec_show_back_button() == old(self).spec_show_back_button(),
    {
        self.back_clicked = false;
    }

    /// Records a back click; the rendering layer calls this when the
    /// back button is pressed.
    pub fn record_back_click(&mut self)
        ensures
            final(self).spec_back_clicked(),
            final(self).spec_title() == old(self).spec_title(),
            final(self).spec_show_back_button() == old(self).spec_show_back_button(),
    {
        self.back_clicked = true;
    }

    /// The title text, for the rendering layer.
    pub fn title(&self) -> (t: &String)
        ensures
            t@ == self.spec_title(),
    {
        &self.title
    }

    /// Whether a back button should be drawn.
    pub fn has_back_button(&self) -> (b: bool)
        ensures
            b == self.spec_show_back_button(),
    {
        self.show_back_button
    }
}

} // verus!
