//! Display preferences for the system data shown by the faces.

use vstd::prelude::*;
use crate::text::{
    decimal, decimal_pad2, lemma_lowercase_fixed, lowercase, push_char, push_decimal,
    push_decimal_pad2, push_str, str_eq, to_lowercase,
};

verus! {

/// Number of history samples kept for graphs.
pub const HISTORY_SIZE: usize = 60;

/// Which IP address the faces display.
#[derive(Debug, Clone, Copy, PartialEq, Eq, Structural)]
pub enum IpDisplayPreference {
    /// IPv6 Global Unicast Address (2000::/3).
    Ipv6Gua,
    /// IPv6 Link-Local Address (fe80::/10).
    Ipv6Lla,
    /// IPv6 Unique Local Address (fc00::/7).
    Ipv6Ula,
    /// IPv4 address.
    Ipv4,
}

/// The name under which a preference is stored and shown.
pub open spec fn ip_pref_name(p: IpDisplayPreference) -> Seq<char> {
    match p {
        IpDisplayPreference::Ipv6Gua => "ipv6-gua"@,
        IpDisplayPreference::Ipv6Lla => "ipv6-lla"@,
        IpDisplayPreference::Ipv6Ula => "ipv6-ula"@,
        IpDisplayPreference::Ipv4 => "ipv4"@,
    }
}

/// The human-readable name of a preference.
pub open spec fn ip_pref_display(p: IpDisplayPreference) -> Seq<char> {
    match p {
        IpDisplayPreference::Ipv6Gua => "IPv6 GUA"@,
        IpDisplayPreference::Ipv6Lla => "IPv6 LLA"@,
        IpDisplayPreference::Ipv6Ula => "IPv6 ULA"@,
        IpDisplayPreference::Ipv4 => "IPv4"@,
    }
}

/// The preference a lowercase name selects (with its aliases).
pub open spec fn ip_pref_named(s: Seq<char>) -> Option<IpDisplayPreference> {
    if s == "ipv6-gua"@ || s == "ipv6_gua"@ || s == "ipv6gua"@ || s == "gua"@ {
        Some(IpDisplayPreference::Ipv6Gua)
    } else if s == "ipv6-lla"@ || s == "ipv6_lla"@ || s == "ipv6lla"@ || s == "lla"@ {
        Some(IpDisplayPreference::Ipv6Lla)
    } else if s == "ipv6-ula"@ || s == "ipv6_ula"@ || s == "ipv6ula"@ || s == "ula"@ {
        Some(IpDisplayPreference::Ipv6Ula)
    } else if s == "ipv4"@ || s == "v4"@ {
        Some(IpDisplayPreference::Ipv4)
    } else {
        None
    }
}

impl Default for IpDisplayPreference {
    fn default() -> (p: IpDisplayPreference)
        ensures
            p == IpDisplayPreference::Ipv6Gua,
    {
        IpDisplayPreference::Ipv6Gua
    }
}

impl IpDisplayPreference {
    /// All preferences, in display order.
    pub fn all() -> (v: Vec<IpDisplayPreference>)
        ensures
            v@ == seq![
                IpDisplayPreference::Ipv6Gua,
                IpDisplayPreference::Ipv6Lla,
                IpDisplayPreference::Ipv6Ula,
                IpDisplayPreference::Ipv4,
            ],
    {
        let v = vec![
            IpDisplayPreference::Ipv6Gua,
            IpDisplayPreference::Ipv6Lla,
            IpDisplayPreference::Ipv6Ula,
            IpDisplayPreference::Ipv4,
        ];
        assert(v@ =~= seq![
            IpDisplayPreference::Ipv6Gua,
            IpDisplayPreference::Ipv6Lla,
            IpDisplayPreference::Ipv6Ula,
            IpDisplayPreference::Ipv4,
        ]);
        v
    }

    /// The display name of this preference.
    pub fn display_name(&self) -> (s: &'static str)
        ensures
            s@ == ip_pref_display(*self),
    {
        match self {
            IpDisplayPreference::Ipv6Gua => "IPv6 GUA",
            IpDisplayPreference::Ipv6Lla => "IPv6 LLA",
            IpDisplayPreference::Ipv6Ula => "IPv6 ULA",
            IpDisplayPreference::Ipv4 => "IPv4",
        }
    }

    /// The name under which this preference is stored.
    pub fn as_str(&self) -> (s: &'static str)
        ensures
            s@ == ip_pref_name(*self),
    {
        match self {
            IpDisplayPreference::Ipv6Gua => "ipv6-gua",
            IpDisplayPreference::Ipv6Lla => "ipv6-lla",
            IpDisplayPreference::Ipv6Ula => "ipv6-ula",
            IpDisplayPreference::Ipv4 => "ipv4",
        }
    }

    /// The stored name as an owned string.
    pub fn to_string(&self) -> (s: String)
        ensures
            s@ == ip_pref_name(*self),
    {
        self.as_str().to_owned()
    }

    /// The preference of an already lowercased name.
    pub fn from_lowercase_name(s: &str) -> (p: Option<IpDisplayPreference>)
        ensures
            p == ip_pref_named(s@),
    {
        if str_eq(s, "ipv6-gua") || str_eq(s, "ipv6_gua") || str_eq(s, "ipv6gua") || str_eq(
            s,
            "gua",
        ) {
            Some(IpDisplayPreference::Ipv6Gua)
        } else if str_eq(s, "ipv6-lla") || str_eq(s, "ipv6_lla") || str_eq(s, "ipv6lla") || str_eq(
            s,
            "lla",
        ) {
            Some(IpDisplayPreference::Ipv6Lla)
        } else if str_eq(s, "ipv6-ula") || str_eq(s, "ipv6_ula") || str_eq(s, "ipv6ula") || str_eq(
            s,
            "ula",
        ) {
            Some(IpDisplayPreference::Ipv6Ula)
        } else if str_eq(s, "ipv4") || str_eq(s, "v4") {
            Some(IpDisplayPreference::Ipv4)
        } else {
            None
        }
    }

    /// Parses a preference name, ignoring case; the error names the text.
    pub fn parse(s: &str) -> (r: Result<IpDisplayPreference, String>)
        ensures
            match ip_pref_named(lowercase(s@)) {
                Some(p) => r == Ok::<IpDisplayPreference, String>(p),
                None => r matches Err(e) && e@ == "Unknown IP display preference: "@ + s@,
            },
    {
        let lower = to_lowercase(s);
        match IpDisplayPreference::from_lowercase_name(lower.as_str()) {
            Some(p) => Ok(p),
            None => {
                let mut e = String::new();
                push_str(&mut e, "Unknown IP display preference: ");
                push_str(&mut e, s);
                Err(e)
            },
        }
    }
}

/// Each preference is parsed back from the name it is stored under.
pub proof fn law_ip_pref_name_round_trip(v: IpDisplayPreference)
    ensures
        ip_pref_named(lowercase(ip_pref_name(v))) == Some(v),
{
    match v {
        IpDisplayPreference::Ipv6Gua => {
            reveal_strlit("ipv6-gua");
            lemma_lowercase_fixed("ipv6-gua"@);
        },
        IpDisplayPreference::Ipv6Lla => {
            reveal_strlit("gua");
            reveal_strlit("ipv6-gua");
            reveal_strlit("ipv6-lla");
            reveal_strlit("ipv6_gua");
            reveal_strlit("ipv6gua");
            lemma_lowercase_fixed("ipv6-lla"@);
            assert("ipv6-lla"@ != "ipv6-gua"@) by {
                assert("ipv6-lla"@[5] != "ipv6-gua"@[5]);
            }
            assert("ipv6-lla"@ != "ipv6_gua"@) by {
                assert("ipv6-lla"@[4] != "ipv6_gua"@[4]);
            }
            assert("ipv6-lla"@ != "ipv6gua"@) by {
                assert("ipv6-lla"@.len() != "ipv6gua"@.len());
            }
            assert("ipv6-lla"@ != "gua"@) by {
                assert("ipv6-lla"@.len() != "gua"@.len());
            }
        },
        IpDisplayPreference::Ipv6Ula => {
            reveal_strlit("gua");
            reveal_strlit("ipv6-gua");
            reveal_strlit("ipv6-lla");
            reveal_strlit("ipv6-ula");
            reveal_strlit("ipv6_gua");
            reveal_strlit("ipv6_lla");
            reveal_strlit("ipv6gua");
            reveal_strlit("ipv6lla");
            reveal_strlit("lla");
            lemma_lowercase_fixed("ipv6-ula"@);
            assert("ipv6-ula"@ != "ipv6-gua"@) by {
                assert("ipv6-ula"@[5] != "ipv6-gua"@[5]);
            }
            assert("ipv6-ula"@ != "ipv6_gua"@) by {
                assert("ipv6-ula"@[4] != "ipv6_gua"@[4]);
            }
            assert("ipv6-ula"@ != "ipv6gua"@) by {
                assert("ipv6-ula"@.len() != "ipv6gua"@.len());
            }
            assert("ipv6-ula"@ != "gua"@) by {
                assert("ipv6-ula"@.len() != "gua"@.len());
            }
            assert("ipv6-ula"@ != "ipv6-lla"@) by {
                assert("ipv6-ula"@[5] != "ipv6-lla"@[5]);
            }
            assert("ipv6-ula"@ != "ipv6_lla"@) by {
                assert("ipv6-ula"@[4] != "ipv6_lla"@[4]);
            }
            assert("ipv6-ula"@ != "ipv6lla"@) by {
                assert("ipv6-ula"@.len() != "ipv6lla"@.len());
            }
            assert("ipv6-ula"@ != "lla"@) by {
                assert("ipv6-ula"@.len() != "lla"@.len());
            }
        },
        IpDisplayPreference::Ipv4 => {
            reveal_strlit("gua");
            reveal_strlit("ipv4");
            reveal_strlit("ipv6-gua");
            reveal_strlit("ipv6-lla");
            reveal_strlit("ipv6-ula");
            reveal_strlit("ipv6_gua");
            reveal_strlit("ipv6_lla");
            reveal_strlit("ipv6_ula");
            reveal_strlit("ipv6gua");
            reveal_strlit("ipv6lla");
            reveal_strlit("ipv6ula");
            reveal_strlit("lla");
            reveal_strlit("ula");
            lemma_lowercase_fixed("ipv4"@);
            assert("ipv4"@ != "ipv6-gua"@) by {
                assert("ipv4"@.len() != "ipv6-gua"@.len());
            }
            assert("ipv4"@ != "ipv6_gua"@) by {
                assert("ipv4"@.len() != "ipv6_gua"@.len());
            }
            assert("ipv4"@ != "ipv6gua"@) by {
                assert("ipv4"@.len() != "ipv6gua"@.len());
            }
            assert("ipv4"@ != "gua"@) by {
                assert("ipv4"@.len() != "gua"@.len());
            }
            assert("ipv4"@ != "ipv6-lla"@) by {
                assert("ipv4"@.len() != "ipv6-lla"@.len());
            }
            assert("ipv4"@ != "ipv6_lla"@) by {
                assert("ipv4"@.len() != "ipv6_lla"@.len());
            }
            assert("ipv4"@ != "ipv6lla"@) by {
                assert("ipv4"@.len() != "ipv6lla"@.len());
            }
            assert("ipv4"@ != "lla"@) by {
                assert("ipv4"@.len() != "lla"@.len());
            }
            assert("ipv4"@ != "ipv6-ula"@) by {
                assert("ipv4"@.len() != "ipv6-ula"@.len());
            }
            assert("ipv4"@ != "ipv6_ula"@) by {
                assert("ipv4"@.len() != "ipv6_ula"@.len());
            }
            assert("ipv4"@ != "ipv6ula"@) by {
                assert("ipv4"@.len() != "ipv6ula"@.len());
            }
            assert("ipv4"@ != "ula"@) by {
                assert("ipv4"@.len() != "ula"@.len());
            }
        },
    }
}

impl core::str::FromStr for IpDisplayPreference {
    type Err = String;

    fn from_str(s: &str) -> (r: Result<IpDisplayPreference, String>)
        ensures
            match ip_pref_named(lowercase(s@)) {
                Some(p) => r == Ok::<IpDisplayPreference, String>(p),
                None => r matches Err(e) && e@ == "Unknown IP display preference: "@ + s@,
            },
    {
        IpDisplayPreference::parse(s)
    }
}

/// English month names, January first.
pub open spec fn month_name(month: nat) -> Seq<char> {
    if month == 1 {
        "January"@
    } else if month == 2 {
        "February"@
    } else if month == 3 {
        "March"@
    } else if month == 4 {
        "April"@
    } else if month == 5 {
        "May"@
    } else if month == 6 {
        "June"@
    } else if month == 7 {
        "July"@
    } else if month == 8 {
        "August"@
    } else if month == 9 {
        "September"@
    } else if month == 10 {
        "October"@
    } else if month == 11 {
        "November"@
    } else {
        "December"@
    }
}

/// The first three letters of a month's name.
pub open spec fn month_abbr(month: nat) -> Seq<char> {
    month_name(month).take(3)
}

/// Abbreviated weekday names, Sunday first.
pub open spec fn weekday_abbr(d: nat) -> Seq<char> {
    if d == 0 {
        "Sun"@
    } else if d == 1 {
        "Mon"@
    } else if d == 2 {
        "Tue"@
    } else if d == 3 {
        "Wed"@
    } else if d == 4 {
        "Thu"@
    } else if d == 5 {
        "Fri"@
    } else {
        "Sat"@
    }
}

/// The clock text in a time format: "h:MM AM" / "h:MM PM" for 12-hour
/// digital time, "HH:MM" otherwise.
pub open spec fn time_text(hour: nat, minute: nat, format: Seq<char>) -> Seq<char> {
    if format == "digital-12h"@ {
        let h = if hour % 12 == 0 {
            12
        } else {
            hour % 12
        };
        decimal(h) + seq![':'] + decimal_pad2(minute) + (if hour < 12 {
            " AM"@
        } else {
            " PM"@
        })
    } else {
        decimal_pad2(hour) + seq![':'] + decimal_pad2(minute)
    }
}

/// The date text in a date format (see `date_formats`), `None` for an
/// unknown format.
pub open spec fn date_text(
    day: nat,
    month: nat,
    year: nat,
    weekday: nat,
    format: Seq<char>,
) -> Option<Seq<char>> {
    if format == "iso"@ {
        Some(decimal(year) + seq!['-'] + decimal_pad2(month) + seq!['-'] + decimal_pad2(day))
    } else if format == "us"@ {
        Some(decimal_pad2(month) + seq!['/'] + decimal_pad2(day) + seq!['/'] + decimal(year))
    } else if format == "eu"@ {
        Some(decimal_pad2(day) + seq!['/'] + decimal_pad2(month) + seq!['/'] + decimal(year))
    } else if format == "short"@ {
        Some(month_abbr(month) + seq![' '] + decimal(day))
    } else if format == "long"@ {
        Some(month_name(month) + seq![' '] + decimal(day) + ", "@ + decimal(year))
    } else if format == "weekday"@ {
        Some(weekday_abbr(weekday) + ", "@ + month_abbr(month) + seq![' '] + decimal(day))
    } else {
        None
    }
}

/// The name of a month (1-12).
fn month_name_str(month: u8) -> (s: &'static str)
    requires
        1 <= month <= 12,
    ensures
        s@ == month_name(month as nat),
{
    if month == 1 {
        "January"
    } else if month == 2 {
        "February"
    } else if month == 3 {
        "March"
    } else if month == 4 {
        "April"
    } else if month == 5 {
        "May"
    } else if month == 6 {
        "June"
    } else if month == 7 {
        "July"
    } else if month == 8 {
        "August"
    } else if month == 9 {
        "September"
    } else if month == 10 {
        "October"
    } else if month == 11 {
        "November"
    } else {
        "December"
    }
}

/// The abbreviation of a month (1-12).
fn month_abbr_str(month: u8) -> (s: &'static str)
    requires
        1 <= month <= 12,
    ensures
        s@ == month_abbr(month as nat),
{
    let r = if month == 1 {
        "Jan"
    } else if month == 2 {
        "Feb"
    } else if month == 3 {
        "Mar"
    } else if month == 4 {
        "Apr"
    } else if month == 5 {
        "May"
    } else if month == 6 {
        "Jun"
    } else if month == 7 {
        "Jul"
    } else if month == 8 {
        "Aug"
    } else if month == 9 {
        "Sep"
    } else if month == 10 {
        "Oct"
    } else if month == 11 {
        "Nov"
    } else {
        "Dec"
    };
    proof {
        reveal_strlit("January");
        reveal_strlit("February");
        reveal_strlit("March");
        reveal_strlit("April");
        reveal_strlit("May");
        reveal_strlit("June");
        reveal_strlit("July");
        reveal_strlit("August");
        reveal_strlit("September");
        reveal_strlit("October");
        reveal_strlit("November");
        reveal_strlit("December");
        reveal_strlit("Jan");
        reveal_strlit("Feb");
        reveal_strlit("Mar");
        reveal_strlit("Apr");
        reveal_strlit("Jun");
        reveal_strlit("Jul");
        reveal_strlit("Aug");
        reveal_strlit("Sep");
        reveal_strlit("Oct");
        reveal_strlit("Nov");
        reveal_strlit("Dec");
        assert(r@ =~= month_abbr(month as nat));
    }
    r
}

/// The abbreviation of a weekday (0 = Sunday).
fn weekday_abbr_str(d: u8) -> (s: &'static str)
    requires
        d <= 6,
    ensures
        s@ == weekday_abbr(d as nat),
{
    if d == 0 {
        "Sun"
    } else if d == 1 {
        "Mon"
    } else if d == 2 {
        "Tue"
    } else if d == 3 {
        "Wed"
    } else if d == 4 {
        "Thu"
    } else if d == 5 {
        "Fri"
    } else {
        "Sat"
    }
}

/// Formats a time of day in a time format (see `time_formats`).
pub fn format_time(hour: u8, minute: u8, format: &str) -> (s: String)
    ensures
        s@ == time_text(hour as nat, minute as nat, format@),
{
    let mut s = String::new();
    if str_eq(format, "digital-12h") {
        let h: u8 = if hour % 12 == 0 {
            12
        } else {
            hour % 12
        };
        push_decimal(&mut s, h as u64);
        push_char(&mut s, ':');
        push_decimal_pad2(&mut s, minute as u64);
        if hour < 12 {
            push_str(&mut s, " AM");
        } else {
            push_str(&mut s, " PM");
        }
    } else {
        push_decimal_pad2(&mut s, hour as u64);
        push_char(&mut s, ':');
        push_decimal_pad2(&mut s, minute as u64);
    }
    assert(s@ =~= time_text(hour as nat, minute as nat, format@));
    s
}

/// Formats a date in a date format (see `date_formats`); `None` for an
/// unknown format.
pub fn format_date(day: u8, month: u8, year: u16, weekday: u8, format: &str) -> (r: Option<String>)
    requires
        1 <= month <= 12,
        weekday <= 6,
    ensures
        match r {
            Some(s) => date_text(
                day as nat,
                month as nat,
                year as nat,
                weekday as nat,
                format@,
            ) == Some(s@),
            None => date_text(day as nat, month as nat, year as nat, weekday as nat, format@) is None,
        },
{
    let mut s = String::new();
    let ghost (d, mo, y, w) = (day as nat, month as nat, year as nat, weekday as nat);
    if str_eq(format, "iso") {
        push_decimal(&mut s, year as u64);
        push_char(&mut s, '-');
        push_decimal_pad2(&mut s, month as u64);
        push_char(&mut s, '-');
        push_decimal_pad2(&mut s, day as u64);
        assert(s@ =~= decimal(y) + seq!['-'] + decimal_pad2(mo) + seq!['-'] + decimal_pad2(d));
    } else if str_eq(format, "us") {
        push_decimal_pad2(&mut s, month as u64);
        push_char(&mut s, '/');
        push_decimal_pad2(&mut s, day as u64);
        push_char(&mut s, '/');
        push_decimal(&mut s, year as u64);
        assert(s@ =~= decimal_pad2(mo) + seq!['/'] + decimal_pad2(d) + seq!['/'] + decimal(y));
    } else if str_eq(format, "eu") {
        push_decimal_pad2(&mut s, day as u64);
        push_char(&mut s, '/');
        push_decimal_pad2(&mut s, month as u64);
        push_char(&mut s, '/');
        push_decimal(&mut s, year as u64);
        assert(s@ =~= decimal_pad2(d) + seq!['/'] + decimal_pad2(mo) + seq!['/'] + decimal(y));
    } else if str_eq(format, "short") {
        push_str(&mut s, month_abbr_str(month));
        push_char(&mut s, ' ');
        push_decimal(&mut s, day as u64);
        assert(s@ =~= month_abbr(mo) + seq![' '] + decimal(d));
    } else if str_eq(format, "long") {
        push_str(&mut s, month_name_str(month));
        push_char(&mut s, ' ');
        push_decimal(&mut s, day as u64);
        push_str(&mut s, ", ");
        push_decimal(&mut s, year as u64);
        assert(s@ =~= month_name(mo) + seq![' '] + decimal(d) + ", "@ + decimal(y));
    } else if str_eq(format, "weekday") {
        push_str(&mut s, weekday_abbr_str(weekday));
        push_str(&mut s, ", ");
        push_str(&mut s, month_abbr_str(month));
        push_char(&mut s, ' ');
        push_decimal(&mut s, day as u64);
        assert(s@ =~= weekday_abbr(w) + ", "@ + month_abbr(mo) + seq![' '] + decimal(d));
    } else {
        return None;
    }
    Some(s)
}

/// The English weekday names in `tm_wday` order: 0 is Sunday.
pub open spec fn weekday_names() -> Seq<Seq<char>> {
    seq!["Sunday"@, "Monday"@, "Tuesday"@, "Wednesday"@, "Thursday"@, "Friday"@, "Saturday"@]
}

/// The abbreviation shown for weekday `d` (0 = Sunday, as `tm_wday`
/// counts) is the first three letters of that day's English name.
pub proof fn law_weekday_abbr(d: nat)
    requires
        d < 7,
    ensures
        weekday_abbr(d) == weekday_names()[d as int].take(3),
{
    reveal_strlit("Sun");
    reveal_strlit("Mon");
    reveal_strlit("Tue");
    reveal_strlit("Wed");
    reveal_strlit("Thu");
    reveal_strlit("Fri");
    reveal_strlit("Sat");
    reveal_strlit("Sunday");
    reveal_strlit("Monday");
    reveal_strlit("Tuesday");
    reveal_strlit("Wednesday");
    reveal_strlit("Thursday");
    reveal_strlit("Friday");
    reveal_strlit("Saturday");
    assert(weekday_abbr(d) =~= weekday_names()[d as int].take(3));
}

} // verus!
