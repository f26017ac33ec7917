//! System information: host name, clock and uptime as the faces show them.

use vstd::prelude::*;
use crate::scan::{chars_of, is_whitespace, is_ws, string_of};
use crate::text::{decimal, decimal_pad2, push_char, push_decimal, push_decimal_pad2, push_str};

verus! {

/// `s` without leading white space.
pub open spec fn trim_start(s: Seq<char>) -> Seq<char>
    decreases s.len(),
{
    if s.len() > 0 && is_ws(s[0]) {
        trim_start(s.drop_first())
    } else {
        s
    }
}

/// `s` without trailing white space.
pub open spec fn trim_end(s: Seq<char>) -> Seq<char>
    decreases s.len(),
{
    if s.len() > 0 && is_ws(s.last()) {
        trim_end(s.drop_last())
    } else {
        s
    }
}

/// `s` without leading and trailing white space (what `str::trim` gives).
pub open spec fn trim(s: Seq<char>) -> Seq<char> {
    trim_end(trim_start(s))
}

/// The clock text "HH:MM".
pub open spec fn clock_text(hours: nat, minutes: nat) -> Seq<char> {
    decimal_pad2(hours) + seq![':'] + decimal_pad2(minutes)
}

/// The uptime text: "Xd Yh Zm", "Yh Zm" below a day, "Zm" below an hour.
pub open spec fn uptime_text(secs: nat) -> Seq<char> {
    let days = secs / 86400;
    let hours = (secs % 86400) / 3600;
    let minutes = (secs % 3600) / 60;
    if days > 0 {
        decimal(days) + "d "@ + decimal(hours) + "h "@ + decimal(minutes) + "m"@
    } else if hours > 0 {
        decimal(hours) + "h "@ + decimal(minutes) + "m"@
    } else {
        decimal(minutes) + "m"@
    }
}

/// The host name shown: the first file content that could be read,
/// trimmed, or "unknown" when neither could.
pub open spec fn hostname_text(etc: Option<Seq<char>>, kernel: Option<Seq<char>>) -> Seq<char> {
    match etc {
        Some(c) => trim(c),
        None => match kernel {
            Some(c) => trim(c),
            None => "unknown"@,
        },
    }
}

proof fn lemma_trim_start_skip(s: Seq<char>, i: int)
    requires
        0 <= i <= s.len(),
        forall|j: int| 0 <= j < i ==> is_ws(#[trigger] s[j]),
    ensures
        trim_start(s) == trim_start(s.skip(i)),
    decreases i,
{
    if i > 0 {
        assert(s.skip(1) =~= s.drop_first());
        lemma_trim_start_skip(s.drop_first(), i - 1);
        assert(s.drop_first().skip(i - 1) =~= s.skip(i));
    } else {
        assert(s.skip(0) =~= s);
    }
}

proof fn lemma_trim_end_take(s: Seq<char>, k: int)
    requires
        0 <= k <= s.len(),
        forall|j: int| k <= j < s.len() ==> is_ws(#[trigger] s[j]),
    ensures
        trim_end(s) == trim_end(s.take(k)),
    decreases s.len() - k,
{
    if k < s.len() {
        assert(s.drop_last() =~= s.take(s.len() - 1));
        lemma_trim_end_take(s.drop_last(), k);
        assert(s.drop_last().take(k) =~= s.take(k));
    } else {
        assert(s.take(k) =~= s);
    }
}

/// Removes leading and trailing white space.
pub fn trim_str(s: &str) -> (t: String)
    ensures
        t@ == trim(s@),
{
    let cs = chars_of(s);
    let n = cs.len();
    let mut a: usize = 0;
    while a < n && is_whitespace(cs[a])
        invariant
            n == cs@.len(),
            cs@ == s@,
            a <= n,
            forall|j: int| 0 <= j < a ==> is_ws(#[trigger] cs@[j]),
        decreases n - a,
    {
        a = a + 1;
    }
    proof {
        lemma_trim_start_skip(s@, a as int);
    }
    let ghost u = s@.skip(a as int);
    let mut b: usize = n;
    while b > a && is_whitespace(cs[b - 1])
        invariant
            n == cs@.len(),
            cs@ == s@,
            a <= b <= n,
            u == s@.skip(a as int),
            forall|j: int| b <= j < n ==> is_ws(#[trigger] cs@[j]),
        decreases b - a,
    {
        b = b - 1;
    }
    proof {
        assert forall|j: int| b - a <= j < u.len() implies is_ws(#[trigger] u[j]) by {
            assert(u[j] == cs@[a + j]);
        }
        lemma_trim_end_take(u, b - a);
        if a < n {
            assert(!is_ws(u[0]));
            assert(trim_start(u) == u);
        } else {
            assert(u.len() == 0);
        }
        assert(u.take(b - a) =~= cs@.subrange(a as int, b as int));
        if b > a {
            assert(!is_ws(u.take(b - a).last()));
        }
    }
    string_of(&cs.as_slice()[a..b])
}

/// System information provider.
pub struct SystemInfo;

impl SystemInfo {
    /// Creates a new system info provider.
    pub fn new() -> SystemInfo {
        SystemInfo
    }

    /// The host name from the contents of `/etc/hostname` and
    /// `/proc/sys/kernel/hostname`, each `None` when it could not be read.
    pub fn hostname(&self, etc: Option<&str>, kernel: Option<&str>) -> (h: String)
        ensures
            h@ == hostname_text(
                match etc {
                    Some(c) => Some(c@),
                    None => None,
                },
                match kernel {
                    Some(c) => Some(c@),
                    None => None,
                },
            ),
    {
        match etc {
            Some(c) => trim_str(c),
            None => match kernel {
                Some(c) => trim_str(c),
                None => "unknown".to_owned(),
            },
        }
    }

    /// The clock text "HH:MM" of a time of day.
    pub fn time(&self, hours: u8, minutes: u8) -> (s: String)
        ensures
            s@ == clock_text(hours as nat, minutes as nat),
    {
        let mut s = String::new();
        push_decimal_pad2(&mut s, hours as u64);
        push_char(&mut s, ':');
        push_decimal_pad2(&mut s, minutes as u64);
        assert(s@ =~= clock_text(hours as nat, minutes as nat));
        s
    }

    /// The time components (hour, minute, day, month, year, weekday,
    /// seconds) used when the local time cannot be had: the UTC time of
    /// day, with the fixed fallback date fields 1 January 1970 and
    /// weekday 0 (Sunday).
    pub fn utc_components(&self, secs: u64) -> (t: (u8, u8, u8, u8, u16, u8, u64))
        ensures
            t == (((secs % 86400) / 3600) as u8, ((secs % 3600) / 60) as u8, 1u8, 1u8, 1970u16,
                0u8, secs),
    {
        let hours = ((secs % 86400) / 3600) as u8;
        let minutes = ((secs % 3600) / 60) as u8;
        (hours, minutes, 1, 1, 1970, 0, secs)
    }

    /// The uptime text of a number of seconds since boot.
    pub fn uptime(&self, uptime_secs: u64) -> (s: String)
        ensures
            s@ == uptime_text(uptime_secs as nat),
    {
        let days = uptime_secs / 86400;
        let hours = (uptime_secs % 86400) / 3600;
        let minutes = (uptime_secs % 3600) / 60;
        let mut s = String::new();
        if days > 0 {
            push_decimal(&mut s, days);
            push_str(&mut s, "d ");
            push_decimal(&mut s, hours);
            push_str(&mut s, "h ");
        } else if hours > 0 {
            push_decimal(&mut s, hours);
            push_str(&mut s, "h ");
        }
        push_decimal(&mut s, minutes);
        push_str(&mut s, "m");
        assert(s@ =~= uptime_text(uptime_secs as nat));
        s
    }
}

} // verus!
