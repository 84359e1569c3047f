//! The three periods that drive the reminder, and how they are resolved
//! from optional settings.

use vstd::prelude::*;

verus! {

/// Seconds between two reminders when nothing else is configured.
pub const DEFAULT_INTERVAL_SECS: u64 = 1200;

/// Seconds one reminder lasts when nothing else is configured.
pub const DEFAULT_DURATION_SECS: u64 = 60;

/// Milliseconds between two colour switches when nothing else is configured.
pub const DEFAULT_FLASH_INTERVAL_MS: u64 = 1000;

/// The shortest flash interval the scheduler works with, in milliseconds.
pub const MIN_FLASH_INTERVAL_MS: u64 = 1;

/// The periods in milliseconds, as unbounded integers. `flash` is at least
/// `MIN_FLASH_INTERVAL_MS` for every view of a `ReminderTiming`.
pub struct Periods {
    pub interval: int,
    pub duration: int,
    pub flash: int,
}

/// The resolved periods: `interval` and `duration` in seconds,
/// `flash_interval` in milliseconds. Every value is accepted, zero included.
#[derive(Clone, Copy, Debug, PartialEq, Eq, Structural)]
pub struct ReminderTiming {
    pub interval: u64,
    pub duration: u64,
    pub flash_interval: u64,
}

impl View for ReminderTiming {
    type V = Periods;

    open spec fn view(&self) -> Periods {
        Periods {
            interval: self.interval * 1000,
            duration: self.duration * 1000,
            flash: if self.flash_interval < MIN_FLASH_INTERVAL_MS {
                MIN_FLASH_INTERVAL_MS as int
            } else {
                self.flash_interval as int
            },
        }
    }
}

impl Periods {
    /// What holds of the view of every `ReminderTiming`: no period is
    /// negative, and the flash interval is at least one millisecond.
    pub open spec fn valid(self) -> bool {
        self.interval >= 0 && self.duration >= 0 && self.flash >= MIN_FLASH_INTERVAL_MS
    }
}

/// The periods of every timing are valid, whatever its fields hold.
pub proof fn lemma_view_valid(timing: ReminderTiming)
    ensures
        timing@.valid(),
{
}

impl ReminderTiming {
    /// Time between the end of one reminder and the start of the next, in
    /// milliseconds.
    pub fn interval_ms(&self) -> (ms: u128)
        ensures
            ms == self@.interval,
    {
        (self.interval as u128) * 1000
    }

    /// Length of one reminder in milliseconds.
    pub fn duration_ms(&self) -> (ms: u128)
        ensures
            ms == self@.duration,
    {
        (self.duration as u128) * 1000
    }

    /// Time between two colour switches in milliseconds, raised to
    /// `MIN_FLASH_INTERVAL_MS` where the configured value is below it.
    pub fn flash_ms(&self) -> (ms: u128)
        ensures
            ms == self@.flash,
            ms >= MIN_FLASH_INTERVAL_MS,
    {
        if self.flash_interval < MIN_FLASH_INTERVAL_MS {
            MIN_FLASH_INTERVAL_MS as u128
        } else {
            self.flash_interval as u128
        }
    }
}

/// Optional settings, as a settings file or a command line supplies them.
#[derive(Clone, Copy, Debug, PartialEq, Eq)]
pub struct Config {
    pub interval: Option<u64>,
    pub duration: Option<u64>,
    pub flash_interval: Option<u64>,
}

/// `over` where it is set, else `base`.
pub open spec fn prefer(over: Option<u64>, base: Option<u64>) -> Option<u64> {
    if over is Some {
        over
    } else {
        base
    }
}

/// The value of a setting, or `fallback` where it is absent.
pub open spec fn value_or(setting: Option<u64>, fallback: u64) -> u64 {
    match setting {
        Some(v) => v,
        None => fallback,
    }
}

impl Default for Config {
    fn default() -> (c: Config)
        ensures
            c.interval == Some(DEFAULT_INTERVAL_SECS),
            c.duration == Some(DEFAULT_DURATION_SECS),
            c.flash_interval == Some(DEFAULT_FLASH_INTERVAL_MS),
    {
        Config {
            interval: Some(DEFAULT_INTERVAL_SECS),
            duration: Some(DEFAULT_DURATION_SECS),
            flash_interval: Some(DEFAULT_FLASH_INTERVAL_MS),
        }
    }
}

impl Config {
    /// These settings with each field replaced by the override that is set
    /// for it; a field without an override keeps its value.
    pub fn overridden_by(
        self,
        interval: Option<u64>,
        duration: Option<u64>,
        flash_interval: Option<u64>,
    ) -> (c: Config)
        ensures
            c.interval == prefer(interval, self.interval),
            c.duration == prefer(duration, self.duration),
            c.flash_interval == prefer(flash_interval, self.flash_interval),
    {
        Config {
            interval: if interval.is_some() {
                interval
            } else {
                self.interval
            },
            duration: if duration.is_some() {
                duration
            } else {
                self.duration
            },
            flash_interval: if flash_interval.is_some() {
                flash_interval
            } else {
                self.flash_interval
            },
        }
    }

    /// The periods these settings stand for: each field's value, or its
    /// default where the field is absent.
    pub fn resolve(&self) -> (t: ReminderTiming)
        ensures
            t.interval == value_or(self.interval, DEFAULT_INTERVAL_SECS),
            t.duration == value_or(self.duration, DEFAULT_DURATION_SECS),
            t.flash_interval == value_or(self.flash_interval, DEFAULT_FLASH_INTERVAL_MS),
    {
        ReminderTiming {
            interval: match self.interval {
                Some(v) => v,
                None => DEFAULT_INTERVAL_SECS,
            },
            duration: match self.duration {
                Some(v) => v,
                None => DEFAULT_DURATION_SECS,
            },
            flash_interval: match self.flash_interval {
                Some(v) => v,
                None => DEFAULT_FLASH_INTERVAL_MS,
            },
        }
    }
}

} // verus!
