//! Date format option values.

use vstd::prelude::*;

verus! {

/// 2024-01-15
pub const ISO: &'static str = "iso";

/// 01/15/2024
pub const US: &'static str = "us";

/// 15/01/2024
pub const EU: &'static str = "eu";

/// Jan 15
pub const SHORT: &'static str = "short";

/// January 15, 2024
pub const LONG: &'static str = "long";

/// Mon, Jan 15
pub const WEEKDAY: &'static str = "weekday";

} // verus!
