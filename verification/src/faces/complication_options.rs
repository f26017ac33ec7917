//! Standard complication option IDs.

use vstd::prelude::*;

verus! {

pub const TIME_FORMAT: &'static str = "format";

pub const DATE_FORMAT: &'static str = "format";

pub const IP_TYPE: &'static str = "ip_type";

pub const INTERFACE: &'static str = "interface";

} // verus!
