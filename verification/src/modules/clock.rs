//! Digital clock: configuration and when the shown time changes. The
//! current local time is formatted by the application runtime.

use vstd::prelude::*;

verus! {

/// Configuration for the digital clock module.
#[derive(Debug, Clone, PartialEq, Eq)]
pub struct ClockConfig {
    /// `strftime`-compatible format string.
    pub format: String,
    /// Show a second time zone below the primary clock.
    pub secondary_timezone: Option<String>,
}

/// Default clock format: hours and minutes.
pub fn default_format() -> (r: String)
    ensures
        r@ == "%H:%M"@,
{
    "%H:%M".to_owned()
}

impl Default for ClockConfig {
    fn default() -> (r: Self)
        ensures
            r.format@ == "%H:%M"@,
            r.secondary_timezone is None,
    {
        ClockConfig { format: default_format(), secondary_timezone: None }
    }
}

/// Runtime state for the clock module.
#[derive(Debug)]
pub struct ClockModule {
    pub config: ClockConfig,
    /// Formatted time string of the last update tick.
    pub cached_text: String,
    /// A fixed reference time in the configured format, for width estimates.
    pub width_sample: String,
}

impl ClockModule {
    /// A clock showing nothing yet; `width_sample` is a reference time in
    /// the configured format.
    pub fn new(config: ClockConfig, width_sample: String) -> (r: Self)
        ensures
            r.config == config,
            r.cached_text@.len() == 0,
            r.width_sample == width_sample,
    {
        ClockModule { config, cached_text: String::new(), width_sample }
    }

    /// Stable module identifier.
    pub fn id(&self) -> (r: &'static str)
        ensures
            r@ == "clock"@,
    {
        "clock"
    }

    /// Take the current time, formatted: true (and a redraw) when the text
    /// differs from the one shown.
    pub fn update(&mut self, now_text: String) -> (r: bool)
        ensures
            r == (now_text@ != old(self).cached_text@),
            final(self).cached_text@ == now_text@,
            final(self).config == old(self).config,
            final(self).width_sample == old(self).width_sample,
    {
        if now_text != self.cached_text {
            self.cached_text = now_text;
            true
        } else {
            false
        }
    }
}

} // verus!
