//! Memory usage from `/proc/meminfo`.

use vstd::prelude::*;
use crate::scan::lines;
use super::procfs::{meminfo_entry, meminfo_value};

verus! {

/// Memory usage sensor: knows the total memory and reads what is used.
pub struct MemorySensor {
    name: String,
    total_kb: u64,
}

impl MemorySensor {
    /// Creates the sensor from the contents of `/proc/meminfo` (a total of
    /// zero when it has no `MemTotal:` value).
    pub fn new(meminfo: &str) -> (m: MemorySensor)
        ensures
            m.total_kb() == match meminfo_entry(lines(meminfo@), "MemTotal:"@) {
                Some(v) => v,
                None => 0,
            },
            m.spec_name() == "memory"@,
    {
        let total_kb = match meminfo_value(meminfo, "MemTotal:") {
            Some(v) => v,
            None => 0,
        };
        MemorySensor { name: "memory".to_owned(), total_kb }
    }

    /// The total memory in kB.
    #[verifier::when_used_as_spec(spec_total_kb)]
    pub fn total_kb(&self) -> (t: u64)
        ensures
            t == self.spec_total_kb(),
    {
        self.total_kb
    }

    /// The total memory in kB.
    pub closed spec fn spec_total_kb(&self) -> u64 {
        self.total_kb
    }

    /// The sensor's name.
    pub fn name(&self) -> (n: &str)
        ensures
            n@ == self.spec_name(),
    {
        self.name.as_str()
    }

    /// The sensor's name.
    pub closed spec fn spec_name(&self) -> Seq<char> {
        self.name@
    }

    /// The memory in use (total minus available, in kB, at least zero),
    /// from a fresh reading of `/proc/meminfo`; `None` when the reading has
    /// no `MemAvailable:` value or the total is unknown.
    pub fn used_kb(&self, meminfo: &str) -> (u: Option<u64>)
        ensures
            u == match meminfo_entry(lines(meminfo@), "MemAvailable:"@) {
                Some(a) => if self.spec_total_kb() > 0 {
                    Some(
                        (if self.spec_total_kb() >= a {
                            self.spec_total_kb() - a
                        } else {
                            0
                        }) as u64,
                    )
                } else {
                    None
                },
                None => None,
            },
    {
        match meminfo_value(meminfo, "MemAvailable:") {
            Some(available) => {
                if self.total_kb > 0 {
                    Some(self.total_kb.saturating_sub(available))
                } else {
                    None
                }
            },
            None => None,
        }
    }
}

} // verus!
