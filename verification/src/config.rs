//! The intervals and limits that the firmware may tune.

use vstd::prelude::*;

verus! {

/// How long to wait, how often to retry.
#[derive(Clone, Copy, PartialEq, Eq, Structural, Debug)]
pub struct Config {
    /// Seconds without a request after which the screen is redrawn in full.
    pub idle_timeout_secs: u64,
    /// Seconds between two syncs while on external power.
    pub sync_interval_secs: u64,
    /// How many times a sync tries to join the wireless network.
    pub join_attempts: u32,
    /// Seconds between two attempts to join.
    pub join_retry_secs: u64,
    /// Milliseconds a button has to stay down to count as pressed.
    pub debounce_millis: u64,
    /// Seconds the battery pass leaves the panel to finish its redraw.
    pub settle_secs: u64,
    /// Minutes between two wake-ups on battery. With 0 or 1 the badge wakes at
    /// the start of every minute.
    pub alarm_interval_minutes: u8,
}

/// The values the badge ships with.
pub open spec fn default_config() -> Config {
    Config {
        idle_timeout_secs: 60,
        sync_interval_secs: 3600,
        join_attempts: 30,
        join_retry_secs: 1,
        debounce_millis: 50,
        settle_secs: 3,
        alarm_interval_minutes: 1,
    }
}

impl Default for Config {
    fn default() -> (config: Config)
        ensures
            config == default_config(),
    {
        Config {
            idle_timeout_secs: 60,
            sync_interval_secs: 3600,
            join_attempts: 30,
            join_retry_secs: 1,
            debounce_millis: 50,
            settle_secs: 3,
            alarm_interval_minutes: 1,
        }
    }
}

} // verus!
