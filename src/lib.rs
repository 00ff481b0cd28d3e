//! Setting a laptop's battery charge-limit threshold and persisting it as a
//! boot-time systemd unit.
//!
//! The library holds the logic of the privilege-boundary workflow: the
//! battery level model, the text of the sysfs threshold node, the unit file,
//! the decisions of the privileged run and the interpretation of its result by
//! the unprivileged caller. Reading and writing files and starting processes
//! is left to the program around it.
pub mod decimal;

pub mod battery_level;
pub mod failure;
pub mod protocol;
pub mod service;

use vstd::prelude::*;

verus! {

/// Where the unit file that re-applies the threshold at boot is installed.
pub const SERVICE_FILE: &'static str = "/etc/systemd/system/battery_limiter.service";

/// The name under which the service manager knows the unit.
pub const SERVICE_NAME: &'static str = "battery_limiter.service";

/// The sysfs node holding the charge-control end threshold.
pub const THRESHOLD_FILE: &'static str = "/sys/class/power_supply/BAT0/charge_control_end_threshold";

} // verus!
