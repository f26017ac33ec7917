//! Time format option values.

use vstd::prelude::*;

verus! {

pub const DIGITAL_24H: &'static str = "digital-24h";

pub const DIGITAL_12H: &'static str = "digital-12h";

pub const ANALOGUE: &'static str = "analogue";

} // verus!
