//! The splash screen's animation timing.
//!
//! Animation progress is expressed in thousandths (0 to 1000): the logo
//! scales in over the first half second, a text fades in from one
//! second over 0.8 s, the whole screen fades out from three seconds
//! over one second, and the splash is finished after four seconds.

use vstd::prelude::*;

verus! {

/// Logo scale in thousandths at `elapsed_ms` since the splash started.
pub open spec fn spec_logo_scale(elapsed_ms: u64) -> int {
    if elapsed_ms < 500 {
        2 * elapsed_ms
    } else {
        1000
    }
}

/// Text alpha in thousandths: zero until one second, then fading in
/// over 0.8 s.
pub open spec fn spec_text_alpha(elapsed_ms: u64, previous: u32) -> int {
    if elapsed_ms > 1000 {
        if elapsed_ms - 1000 >= 800 {
            1000
        } else {
            (elapsed_ms - 1000) * 5 / 4
        }
    } else {
        previous as int
    }
}

/// Fade-out progress in thousandths: zero until three seconds, then
/// fading over one second.
pub open spec fn spec_fade_progress(elapsed_ms: u64, previous: u32) -> int {
    if elapsed_ms > 3000 {
        if elapsed_ms - 3000 >= 1000 {
            1000
        } else {
            elapsed_ms - 3000
        }
    } else {
        previous as int
    }
}

/// Animation state of the splash screen.
#[derive(Clone, Copy, Debug)]
pub struct SplashScreen {
    /// The elapsed time handed to the latest animation update, ms.
    pub elapsed_ms: u64,
    /// Fade-out progress in thousandths.
    pub fade_progress: u32,
    /// Logo scale in thousandths.
    pub logo_scale: u32,
    /// Text alpha in thousandths.
    pub text_alpha: u32,
    /// Whether the text has started fading in.
    pub show_text: bool,
}

impl SplashScreen {
    /// A splash screen at the very start of its animation.
    pub fn new() -> (s: SplashScreen)
        ensures
            s.elapsed_ms == 0,
            s.fade_progress == 0,
            s.logo_scale == 0,
            s.text_alpha == 0,
            !s.show_text,
    {
        SplashScreen {
            elapsed_ms: 0,
            fade_progress: 0,
            logo_scale: 0,
            text_alpha: 0,
            show_text: false,
        }
    }

    /// Advances the animation to `elapsed_ms` milliseconds since the
    /// splash screen appeared.
    pub fn update_animation(&mut self, elapsed_ms: u64)
        ensures
            final(self).elapsed_ms == elapsed_ms,
            final(self).logo_scale == spec_logo_scale(elapsed_ms),
            final(self).text_alpha == spec_text_alpha(elapsed_ms, old(self).text_alpha),
            final(self).show_text == (elapsed_ms > 1000 || old(self).show_text),
            final(self).fade_progress == spec_fade_progress(elapsed_ms, old(self).fade_progress),
    {
        self.elapsed_ms = elapsed_ms;

        if elapsed_ms < 500 {
            self.logo_scale = (2 * elapsed_ms) as u32;
        } else {
            self.logo_scale = 1000;
        }

        if elapsed_ms > 1000 {
            self.show_text = true;
            let since_text: u64 = elapsed_ms - 1000;
            self.text_alpha = if since_text >= 800 {
                1000
            } else {
                (since_text * 5 / 4) as u32
            };
        }

        if elapsed_ms > 3000 {
            let since_fade: u64 = elapsed_ms - 3000;
            self.fade_progress = if since_fade >= 1000 {
                1000
            } else {
                since_fade as u32
            };
        }
    }

    /// True once more than four seconds have elapsed at the latest
    /// animation update.
    pub fn is_finished(&self) -> (b: bool)
        ensures
            b == (self.elapsed_ms > 4000),
    {
        self.elapsed_ms > 4000
    }
}

} // verus!
