//! Application settings.
use vstd::prelude::*;

use crate::text::{parse_u64, parse_u64_spec, trim_spec, trimmed};

verus! {

/// Minutes between price refreshes unless configured otherwise.
pub const DEFAULT_REFRESH_MINUTES: u64 = 60;

/// Seconds between wake-ups of the background scheduler.
pub const SCHEDULER_TICK_SECONDS: u64 = 60;

/// Telegram bot credentials and whether notifications are sent.
#[derive(Debug, Clone)]
pub struct TelegramConfig {
    pub enabled: bool,
    pub bot_token: String,
    pub chat_id: String,
}

impl Default for TelegramConfig {
    fn default() -> (r: TelegramConfig)
        ensures
            !r.enabled,
            r.bot_token@.len() == 0,
            r.chat_id@.len() == 0,
    {
        TelegramConfig { enabled: false, bot_token: String::new(), chat_id: String::new() }
    }
}

/// User settings.
#[derive(Debug, Clone)]
pub struct AppSettings {
    pub start_on_boot: bool,
    pub start_minimized: bool,
    pub refresh_interval_minutes: u64,
    pub telegram: TelegramConfig,
}

impl Default for AppSettings {
    fn default() -> (r: AppSettings)
        ensures
            !r.start_on_boot,
            !r.start_minimized,
            r.refresh_interval_minutes == DEFAULT_REFRESH_MINUTES,
            !r.telegram.enabled,
            r.telegram.bot_token@.len() == 0,
            r.telegram.chat_id@.len() == 0,
    {
        AppSettings {
            start_on_boot: false,
            start_minimized: false,
            refresh_interval_minutes: DEFAULT_REFRESH_MINUTES,
            telegram: TelegramConfig::default(),
        }
    }
}

impl AppSettings {
    /// Brings the saved start-on-boot flag in line with what the system
    /// actually has registered. Returns whether the flag changed (and so
    /// needs saving).
    pub fn reconcile_start_on_boot(&mut self, actually_enabled: bool) -> (changed: bool)
        ensures
            final(self).start_on_boot == actually_enabled,
            changed == (old(self).start_on_boot != actually_enabled),
            final(self).start_minimized == old(self).start_minimized,
            final(self).refresh_interval_minutes == old(self).refresh_interval_minutes,
            final(self).telegram == old(self).telegram,
    {
        if self.start_on_boot != actually_enabled {
            self.start_on_boot = actually_enabled;
            true
        } else {
            false
        }
    }

    /// Takes a typed refresh interval: a whole number of minutes (at least
    /// one) once trimmed; anything else leaves the setting alone. Returns
    /// whether the setting was taken.
    pub fn set_refresh_interval_text(&mut self, text: &str) -> (changed: bool)
        ensures
            changed == parse_u64_spec(trim_spec(text@)) is Some,
            changed ==> final(self).refresh_interval_minutes == (if parse_u64_spec(trim_spec(text@)).unwrap() == 0 {
                1
            } else {
                parse_u64_spec(trim_spec(text@)).unwrap()
            }),
            !changed ==> final(self).refresh_interval_minutes == old(self).refresh_interval_minutes,
            final(self).start_on_boot == old(self).start_on_boot,
            final(self).start_minimized == old(self).start_minimized,
            final(self).telegram == old(self).telegram,
    {
        let t = trimmed(text);
        match parse_u64(t.as_str()) {
            Some(v) => {
                self.refresh_interval_minutes = if v == 0 { 1 } else { v };
                true
            },
            None => false,
        }
    }
}

} // verus!
