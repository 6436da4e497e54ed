//! Weather module: polling schedule and WMO weather-code icons. The HTTP
//! fetch runs in the application runtime.

use vstd::prelude::*;

verus! {

/// Temperature unit requested from the weather service.
#[derive(Debug, Clone, Copy, Default, PartialEq, Eq, Structural)]
pub enum TemperatureUnit {
    #[default]
    Celsius,
    Fahrenheit,
}

/// Configuration for the weather module.
#[derive(Debug, Clone, PartialEq, Eq)]
pub struct WeatherConfig {
    /// `"lat,lon"` of the place to report on.
    pub location: Option<String>,
    pub unit: TemperatureUnit,
    /// Minutes between fetches.
    pub refresh_minutes: u64,
}

/// Minutes between fetches when none is configured.
pub fn default_refresh_minutes() -> (r: u64)
    ensures
        r == 30,
{
    30
}

impl Default for WeatherConfig {
    fn default() -> (r: Self)
        ensures
            r.location is None,
            r.unit == TemperatureUnit::Celsius,
            r.refresh_minutes == 30,
    {
        WeatherConfig { location: None, unit: TemperatureUnit::Celsius, refresh_minutes: default_refresh_minutes() }
    }
}

/// Runtime state for the weather module.
#[derive(Debug)]
pub struct WeatherModule {
    pub config: WeatherConfig,
    /// Latest display text derived from the most recent successful fetch.
    pub display_text: String,
    /// Clock reading (milliseconds) when the most recent fetch was started.
    pub last_fetch_ms: Option<u64>,
    /// Whether a background fetch task is currently running.
    pub fetch_in_flight: bool,
}

/// Milliseconds elapsed from `since` to `now`, zero if the clock reads earlier.
pub open spec fn elapsed_ms(since: u64, now: u64) -> int {
    if now >= since { now - since } else { 0 }
}

impl WeatherModule {
    /// A weather module that has not fetched yet and shows a dash.
    pub fn new(config: WeatherConfig) -> (r: Self)
        ensures
            r.config == config,
            r.display_text@ == "—"@,
            r.last_fetch_ms is None,
            !r.fetch_in_flight,
    {
        WeatherModule { config, display_text: "—".to_owned(), last_fetch_ms: None, fetch_in_flight: false }
    }

    /// A fetch is due when none was made yet or `refresh_minutes` have passed.
    pub fn poll_due(&self, now_ms: u64) -> (r: bool)
        ensures
            r == match self.last_fetch_ms {
                None => true,
                Some(t) => elapsed_ms(t, now_ms) >= self.config.refresh_minutes * 60000,
            },
    {
        match self.last_fetch_ms {
            None => true,
            Some(t) => {
                let elapsed = if now_ms >= t { now_ms - t } else { 0 };
                elapsed / 60000 >= self.config.refresh_minutes
            },
        }
    }

    /// Stable module identifier.
    pub fn id(&self) -> (r: &'static str)
        ensures
            r@ == "weather"@,
    {
        "weather"
    }

    /// One update tick. A finished fetch (`result`, the text to show) is
    /// taken first: it ends the fetch and restarts the interval; new text
    /// replaces the shown one and asks for a redraw, and nothing else
    /// happens in that tick. Otherwise a fetch is started when one is due,
    /// none is running and a location is configured.
    pub fn tick(&mut self, result: Option<String>, now_ms: u64) -> (r: WeatherTick)
        ensures
            final(self).config == old(self).config,
            replaces_text(*old(self), result) ==> {
                &&& final(self).display_text == result->0
                &&& !final(self).fetch_in_flight
                &&& final(self).last_fetch_ms == Some(now_ms)
                &&& r == (WeatherTick { changed: true, fetch: false })
            },
            !replaces_text(*old(self), result) ==> ({
                let m = after_fetch(*old(self), result, now_ms);
                let fetch = poll_due_spec(m, now_ms) && !m.fetch_in_flight && m.config.location is Some;
                &&& final(self).display_text == old(self).display_text
                &&& r == (WeatherTick { changed: false, fetch })
                &&& final(self).fetch_in_flight == (m.fetch_in_flight || fetch)
                &&& final(self).last_fetch_ms == (if fetch {
                    Some(now_ms)
                } else {
                    m.last_fetch_ms
                })
            }),
    {
        match result {
            Some(text) => {
                self.fetch_in_flight = false;
                self.last_fetch_ms = Some(now_ms);
                if text != self.display_text {
                    self.display_text = text;
                    return WeatherTick { changed: true, fetch: false };
                }
            },
            None => {},
        }
        if self.poll_due(now_ms) && !self.fetch_in_flight {
            if self.config.location.is_none() {
                return WeatherTick { changed: false, fetch: false };
            }
            self.last_fetch_ms = Some(now_ms);
            self.fetch_in_flight = true;
            return WeatherTick { changed: false, fetch: true };
        }
        WeatherTick { changed: false, fetch: false }
    }
}

/// What one update tick of the weather module decided.
#[derive(Debug, Clone, Copy, PartialEq, Eq, Structural)]
pub struct WeatherTick {
    /// The shown text changed and the module must be redrawn.
    pub changed: bool,
    /// The runtime must start a fetch now.
    pub fetch: bool,
}

/// Is a fetch due at `now`?
pub open spec fn poll_due_spec(m: WeatherModule, now: u64) -> bool {
    match m.last_fetch_ms {
        None => true,
        Some(t) => elapsed_ms(t, now) >= m.config.refresh_minutes * 60000,
    }
}

/// The module once a finished fetch has been taken.
pub open spec fn after_fetch(m: WeatherModule, result: Option<String>, now: u64) -> WeatherModule {
    match result {
        Some(_) => WeatherModule { fetch_in_flight: false, last_fetch_ms: Some(now), ..m },
        None => m,
    }
}

/// A finished fetch whose text differs from the text shown.
pub open spec fn replaces_text(m: WeatherModule, result: Option<String>) -> bool {
    match result {
        Some(text) => text@ != m.display_text@,
        None => false,
    }
}

/// Icon for a WMO weather interpretation code.
pub open spec fn wmo_icon_spec(code: i64) -> &'static str {
    if code == 0 {
        "☀"
    } else if 1 <= code <= 3 {
        "⛅"
    } else if code == 45 || code == 48 {
        "🌫"
    } else if 51 <= code <= 67 {
        "🌧"
    } else if 71 <= code <= 77 {
        "❄"
    } else if 80 <= code <= 82 {
        "🌧"
    } else if code == 85 || code == 86 {
        "❄"
    } else if 95 <= code <= 99 {
        "⛈"
    } else {
        "☁"
    }
}

/// Icon for a WMO weather interpretation code: clear, partly cloudy, fog,
/// drizzle/rain, snow, showers, snow showers, thunderstorm, else cloud.
pub fn wmo_icon(code: i64) -> (r: &'static str)
    ensures
        r == wmo_icon_spec(code),
{
    if code == 0 {
        "☀"
    } else if 1 <= code && code <= 3 {
        "⛅"
    } else if code == 45 || code == 48 {
        "🌫"
    } else if 51 <= code && code <= 67 {
        "🌧"
    } else if 71 <= code && code <= 77 {
        "❄"
    } else if 80 <= code && code <= 82 {
        "🌧"
    } else if code == 85 || code == 86 {
        "❄"
    } else if 95 <= code && code <= 99 {
        "⛈"
    } else {
        "☁"
    }
}

} // verus!
