//! Standard complication IDs used across faces.

use vstd::prelude::*;

verus! {

pub const TIME: &'static str = "time";

pub const DATE: &'static str = "date";

pub const NETWORK: &'static str = "network";

pub const DISK_IO: &'static str = "disk_io";

pub const CPU_TEMP: &'static str = "cpu_temp";

pub const IP_ADDRESS: &'static str = "ip_address";

pub const HOSTNAME: &'static str = "hostname";

} // verus!
