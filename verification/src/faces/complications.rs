//! Standard complications shared by the faces, with their IDs.

use vstd::prelude::*;
use super::{
    Complication, ComplicationChoice, ComplicationOption, ComplicationView, OptionView,
};
use super::{complication_names, complication_options, date_formats, time_formats};

verus! {

pub const TIME: &'static str = "time";

pub const DATE: &'static str = "date";

pub const NETWORK: &'static str = "network";

pub const DISK_IO: &'static str = "disk_io";

pub const CPU_TEMP: &'static str = "cpu_temp";

pub const IP_ADDRESS: &'static str = "ip_address";

/// The choices of the date format option.
pub open spec fn date_format_choices() -> Seq<(Seq<char>, Seq<char>)> {
    seq![
        ("iso"@, "ISO (2024-01-15)"@),
        ("us"@, "US (01/15/2024)"@),
        ("eu"@, "EU (15/01/2024)"@),
        ("short"@, "Short (Jan 15)"@),
        ("long"@, "Long (January 15, 2024)"@),
        ("weekday"@, "Weekday (Mon, Jan 15)"@),
    ]
}

/// The choices of the time format option.
pub open spec fn time_format_choices() -> Seq<(Seq<char>, Seq<char>)> {
    seq![
        ("digital-24h"@, "Digital (24h)"@),
        ("digital-12h"@, "Digital (12h)"@),
        ("analogue"@, "Analogue"@),
    ]
}

/// The choices of the IP type option.
pub open spec fn ip_type_choices() -> Seq<(Seq<char>, Seq<char>)> {
    seq![
        ("ipv6-gua"@, "IPv6 GUA"@),
        ("ipv6-lla"@, "IPv6 LLA"@),
        ("ipv6-ula"@, "IPv6 ULA"@),
        ("ipv4"@, "IPv4"@),
    ]
}

/// The time complication.
pub open spec fn time_view(default_enabled: bool) -> ComplicationView {
    ComplicationView {
        id: "time"@,
        name: "Time"@,
        description: "Display the current time"@,
        default_enabled,
        options: seq![
            OptionView {
                id: "format"@,
                name: "Format"@,
                description: "Time display format"@,
                choices: Some(time_format_choices()),
                default_value: "digital-24h"@,
            },
        ],
    }
}

/// The date complication with the given default format.
pub open spec fn date_view(default_enabled: bool, default_format: Seq<char>) -> ComplicationView {
    ComplicationView {
        id: "date"@,
        name: "Date"@,
        description: "Display the current date"@,
        default_enabled,
        options: seq![
            OptionView {
                id: "format"@,
                name: "Format"@,
                description: "Date display format"@,
                choices: Some(date_format_choices()),
                default_value: default_format,
            },
        ],
    }
}

/// The IP address complication.
pub open spec fn ip_address_view(default_enabled: bool) -> ComplicationView {
    ComplicationView {
        id: "ip_address"@,
        name: "IP Address"@,
        description: "Display the network IP address"@,
        default_enabled,
        options: seq![
            OptionView {
                id: "ip_type"@,
                name: "IP Type"@,
                description: "Which IP address to display"@,
                choices: Some(ip_type_choices()),
                default_value: "ipv6-gua"@,
            },
        ],
    }
}

/// The network throughput complication.
pub open spec fn network_view(default_enabled: bool) -> ComplicationView {
    ComplicationView {
        id: "network"@,
        name: "Network"@,
        description: "Display network throughput"@,
        default_enabled,
        options: seq![
            OptionView {
                id: "interface"@,
                name: "Interface"@,
                description: "Network interface to monitor"@,
                choices: Some(seq![("auto"@, "Auto-detect"@)]),
                default_value: "auto"@,
            },
        ],
    }
}

/// The disk I/O complication.
pub open spec fn disk_io_view(default_enabled: bool) -> ComplicationView {
    ComplicationView {
        id: "disk_io"@,
        name: "Disk I/O"@,
        description: "Display disk read/write activity"@,
        default_enabled,
        options: Seq::empty(),
    }
}

/// The CPU temperature complication.
pub open spec fn cpu_temp_view(default_enabled: bool) -> ComplicationView {
    ComplicationView {
        id: "cpu_temp"@,
        name: "CPU Temperature"@,
        description: "Display the CPU temperature"@,
        default_enabled,
        options: Seq::empty(),
    }
}

/// The time complication, with its format option (24h digital by default).
pub fn time(default_enabled: bool) -> (c: Complication)
    ensures
        c@ == time_view(default_enabled),
{
    let choices = vec![
        ComplicationChoice::new(time_formats::DIGITAL_24H, "Digital (24h)"),
        ComplicationChoice::new(time_formats::DIGITAL_12H, "Digital (12h)"),
        ComplicationChoice::new(time_formats::ANALOGUE, "Analogue"),
    ];
    assert(choices@.map_values(|c: ComplicationChoice| c@) =~= time_format_choices());
    let options = vec![
        ComplicationOption::choice(
            complication_options::TIME_FORMAT,
            "Format",
            "Time display format",
            choices,
            time_formats::DIGITAL_24H,
        ),
    ];
    let c = Complication::with_options(
        complication_names::TIME,
        "Time",
        "Display the current time",
        default_enabled,
        options,
    );
    assert(c@.options =~= time_view(default_enabled).options);
    c
}

/// The date complication, with its format option.
pub fn date(default_enabled: bool, default_format: &str) -> (c: Complication)
    ensures
        c@ == date_view(default_enabled, default_format@),
{
    let choices = vec![
        ComplicationChoice::new(date_formats::ISO, "ISO (2024-01-15)"),
        ComplicationChoice::new(date_formats::US, "US (01/15/2024)"),
        ComplicationChoice::new(date_formats::EU, "EU (15/01/2024)"),
        ComplicationChoice::new(date_formats::SHORT, "Short (Jan 15)"),
        ComplicationChoice::new(date_formats::LONG, "Long (January 15, 2024)"),
        ComplicationChoice::new(date_formats::WEEKDAY, "Weekday (Mon, Jan 15)"),
    ];
    assert(choices@.map_values(|c: ComplicationChoice| c@) =~= date_format_choices());
    let options = vec![
        ComplicationOption::choice(
            complication_options::DATE_FORMAT,
            "Format",
            "Date display format",
            choices,
            default_format,
        ),
    ];
    let c = Complication::with_options(
        complication_names::DATE,
        "Date",
        "Display the current date",
        default_enabled,
        options,
    );
    assert(c@.options =~= date_view(default_enabled, default_format@).options);
    c
}

/// The IP address complication, with its IP type option.
pub fn ip_address(default_enabled: bool) -> (c: Complication)
    ensures
        c@ == ip_address_view(default_enabled),
{
    let choices = vec![
        ComplicationChoice::new("ipv6-gua", "IPv6 GUA"),
        ComplicationChoice::new("ipv6-lla", "IPv6 LLA"),
        ComplicationChoice::new("ipv6-ula", "IPv6 ULA"),
        ComplicationChoice::new("ipv4", "IPv4"),
    ];
    assert(choices@.map_values(|c: ComplicationChoice| c@) =~= ip_type_choices());
    let options = vec![
        ComplicationOption::choice(
            complication_options::IP_TYPE,
            "IP Type",
            "Which IP address to display",
            choices,
            "ipv6-gua",
        ),
    ];
    let c = Complication::with_options(
        complication_names::IP_ADDRESS,
        "IP Address",
        "Display the network IP address",
        default_enabled,
        options,
    );
    assert(c@.options =~= ip_address_view(default_enabled).options);
    c
}

/// The network complication, with its interface option (auto-detected by
/// default; the available interfaces are listed when it is shown).
pub fn network(default_enabled: bool) -> (c: Complication)
    ensures
        c@ == network_view(default_enabled),
{
    let choices = vec![ComplicationChoice::new("auto", "Auto-detect")];
    assert(choices@.map_values(|c: ComplicationChoice| c@) =~= seq![("auto"@, "Auto-detect"@)]);
    let options = vec![
        ComplicationOption::choice(
            complication_options::INTERFACE,
            "Interface",
            "Network interface to monitor",
            choices,
            "auto",
        ),
    ];
    let c = Complication::with_options(
        complication_names::NETWORK,
        "Network",
        "Display network throughput",
        default_enabled,
        options,
    );
    assert(c@.options =~= network_view(default_enabled).options);
    c
}

/// The disk I/O complication.
pub fn disk_io(default_enabled: bool) -> (c: Complication)
    ensures
        c@ == disk_io_view(default_enabled),
{
    Complication::new(
        complication_names::DISK_IO,
        "Disk I/O",
        "Display disk read/write activity",
        default_enabled,
    )
}

/// The CPU temperature complication.
pub fn cpu_temp(default_enabled: bool) -> (c: Complication)
    ensures
        c@ == cpu_temp_view(default_enabled),
{
    Complication::new(
        complication_names::CPU_TEMP,
        "CPU Temperature",
        "Display the CPU temperature",
        default_enabled,
    )
}

} // verus!
