//! The configuration of the watcher.
use crate::devices::PollingRate;
use vstd::prelude::*;

verus! {

/// Which devices the watcher manages.
#[derive(Clone, Copy, Debug, PartialEq, Eq, Structural)]
pub enum PowerPolicy {
    /// The first supported device.
    FirstDevice,
    /// Every supported device, those that charge at the idle rate.
    ActiveNonCharging,
}

impl Default for PowerPolicy {
    fn default() -> (policy: PowerPolicy)
        ensures
            policy == PowerPolicy::FirstDevice,
    {
        PowerPolicy::FirstDevice
    }
}

/// The rate for the time while a program runs, and the one to go back to.
#[derive(Clone, Debug)]
pub struct AppRule {
    pub exe: String,
    pub rate: PollingRate,
    pub restore: Option<PollingRate>,
}

/// The configuration of the watcher.
#[derive(Clone, Debug)]
pub struct PollMonitorConfig {
    pub default_rate: PollingRate,
    pub restore_rate: Option<PollingRate>,
    pub scan_interval_ms: u64,
    pub pending_retry_interval_ms: u64,
    pub active_device_poll_interval_ms: u64,
    pub background_device_poll_interval_ms: u64,
    pub power_policy: PowerPolicy,
    pub battery_trend_window_ms: u64,
    pub battery_trend_min_delta: u8,
    pub assume_wired_is_charging: bool,
    pub assume_wireless_is_discharging: bool,
    pub allow_unknown_power_active: bool,
    pub rules: Vec<AppRule>,
}

impl Default for PollMonitorConfig {
    /// The configuration where nothing is configured.
    fn default() -> (config: PollMonitorConfig)
        ensures
            config.default_rate == PollingRate::Hz8000,
            config.restore_rate == Some(PollingRate::Hz8000),
            config.scan_interval_ms == 1_000,
            config.pending_retry_interval_ms == 1_000,
            config.active_device_poll_interval_ms == 5_000,
            config.background_device_poll_interval_ms == 600_000,
            config.power_policy == PowerPolicy::FirstDevice,
            config.battery_trend_window_ms == 600_000,
            config.battery_trend_min_delta == 1,
            !config.assume_wired_is_charging,
            !config.assume_wireless_is_discharging,
            config.allow_unknown_power_active,
            config.rules@.len() == 0,
    {
        PollMonitorConfig {
            default_rate: PollingRate::Hz8000,
            restore_rate: Some(PollingRate::Hz8000),
            scan_interval_ms: 1_000,
            pending_retry_interval_ms: 1_000,
            active_device_poll_interval_ms: 5_000,
            background_device_poll_interval_ms: 600_000,
            power_policy: PowerPolicy::FirstDevice,
            battery_trend_window_ms: 600_000,
            battery_trend_min_delta: 1,
            assume_wired_is_charging: false,
            assume_wireless_is_discharging: false,
            allow_unknown_power_active: true,
            rules: Vec::new(),
        }
    }
}

/// The path of the configuration where none is given, by which of the two files
/// are there: `orpheus.toml`, unless only a file under the former name is there.
pub fn default_config_path(local_present: bool, former_present: bool) -> (path: String)
    ensures
        path@ == if local_present || !former_present {
            "orpheus.toml"@
        } else {
            "poll-monitor.toml"@
        },
{
    if local_present || !former_present {
        "orpheus.toml".to_owned()
    } else {
        "poll-monitor.toml".to_owned()
    }
}

/// A configuration to start from.
pub const EXAMPLE_CONFIG: &'static str = "# poll-monitor config
default_rate = 1000
restore_rate = 1000
scan_interval_ms = 1000
power_policy = \"active-non-charging\"
battery_trend_window_ms = 600000
battery_trend_min_delta = 1
assume_wired_is_charging = true
assume_wireless_is_discharging = false
allow_unknown_power_active = true

[[rules]]
exe = \"problem-game.exe\"
rate = 4000
restore = 1000
";

} // verus!
