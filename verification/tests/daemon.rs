use ht32_panel::listing::complication_listing;
use ht32_panel::config::{default_state_dir, Config};
use ht32_panel::faces::complications;
use ht32_panel::faces::enabled::EnabledComplications;
use ht32_panel::faces::kinds::{
    available_faces, create_face, face_complications, ClockFace, FaceKind, ProfessionalFace,
};
use ht32_panel::faces::{available_themes, ip_label, Theme};
use ht32_panel::framebuffer::{render_with_orientation, Framebuffer};
use ht32_panel::lcd::LcdPanel;
use ht32_panel::orientation::Orientation;
use ht32_panel::scan::{parse_u64_chars, split_lines, split_words};
use ht32_panel::screen::get_screen_png;
use ht32_panel::sensors::data::IpDisplayPreference;
use ht32_panel::sensors::memory::MemorySensor;
use ht32_panel::sensors::procfs::{
    cpu_times, default_route_interface, diskstats_sectors, is_listed_interface, meminfo_value,
};
use ht32_panel::sensors::system::{trim_str, SystemInfo};
use ht32_panel::state::{
    check_led_args, interface_choice, AppState, DisplaySettings, LedSetting, StateError,
};

use ht32_panel::sensors::data::{format_date, format_time};
use ht32_panel::sensors::network::{pick_display_address, primary_disk, AddressPick};
use ht32_panel::bus::BusType;
use ht32_panel::lcd::pick_hid_interface;
use ht32_panel::web::{clamp_led_form, complication_items};

fn chars(s: &str) -> Vec<char> {
    s.chars().collect()
}

#[test]
fn enabled_complications_set_and_get() {
    let mut e = EnabledComplications::new();
    assert!(e.is_enabled("arcs", "time", true));
    assert!(!e.is_enabled("arcs", "time", false));
    e.set_enabled("arcs", "time", false);
    assert!(!e.is_enabled("arcs", "time", true));
    e.set_enabled("arcs", "time", true);
    assert!(e.is_enabled("arcs", "time", false));
    assert!(e.get_config("ascii", "time").is_none());
    e.set_option("arcs", "time", "format", "digital-12h".to_string());
    assert_eq!(e.get_option("arcs", "time", "format").map(|s| s.as_str()), Some("digital-12h"));
    e.set_option("arcs", "time", "format", "analogue".to_string());
    assert_eq!(e.get_option("arcs", "time", "format").map(|s| s.as_str()), Some("analogue"));
    assert!(e.get_option("arcs", "time", "other").is_none());
    // setting an option keeps the enabled flag
    assert!(e.is_enabled("arcs", "time", false));
    // an option set on a new complication leaves it disabled
    e.set_option("arcs", "date", "format", "us".to_string());
    assert!(!e.is_enabled("arcs", "date", true));
}

#[test]
fn enabled_complications_lists_each_enabled_once() {
    let mut e = EnabledComplications::new();
    e.set_enabled("digits", "time", true);
    e.set_enabled("digits", "date", true);
    e.set_enabled("digits", "time", true);
    e.set_enabled("digits", "network", false);
    let mut ids = e.get_enabled("digits");
    ids.sort();
    assert_eq!(ids, vec!["date".to_string(), "time".to_string()]);
    assert!(e.get_enabled("arcs").is_empty());
}

#[test]
fn init_from_defaults_fills_once() {
    let mut e = EnabledComplications::new();
    e.init_from_defaults(&FaceKind::Arcs);
    assert!(e.is_enabled("arcs", "time", false));
    assert!(!e.is_enabled("arcs", "cpu_temp", true));
    assert_eq!(e.get_option("arcs", "date", "format").map(|s| s.as_str()), Some("iso"));
    assert_eq!(e.get_option("arcs", "ip_address", "ip_type").map(|s| s.as_str()), Some("ipv6-gua"));
    e.set_enabled("arcs", "time", false);
    e.init_from_defaults(&FaceKind::Arcs);
    assert!(!e.is_enabled("arcs", "time", true));
    let copy = e.copied();
    assert!(!copy.is_enabled("arcs", "time", true));
    assert_eq!(copy.get_enabled("arcs").len(), e.get_enabled("arcs").len());
}

#[test]
fn faces_by_name() {
    assert_eq!(create_face("ARCS"), Some(FaceKind::Arcs));
    assert_eq!(create_face("professional"), Some(FaceKind::Professional));
    assert_eq!(create_face("clock"), None);
    assert_eq!(available_faces(), vec!["arcs", "ascii", "digits", "professional"]);
    for name in available_faces() {
        assert_eq!(create_face(name).unwrap().name(), name);
    }
    let comps = face_complications("arcs");
    let ids: Vec<&str> = comps.iter().map(|c| c.id.as_str()).collect();
    assert_eq!(ids, vec!["time", "date", "ip_address", "network", "disk_io", "cpu_temp"]);
    assert!(!comps[5].default_enabled);
    assert!(ProfessionalFace::new().available_complications()[5].default_enabled);
    assert!(face_complications("nothing").is_empty());
    let clock = ClockFace::new().available_complications();
    assert_eq!(clock[0].options[0].default_value, "short");
    assert_eq!(clock[1].id, "hostname");
}

#[test]
fn complication_constructors() {
    let t = complications::time(true);
    assert_eq!(t.id, complications::TIME);
    assert_eq!(t.options[0].default_value, "digital-24h");
    let d = complications::date(false, "us");
    assert!(!d.default_enabled);
    assert_eq!(d.options[0].default_value, "us");
}

#[test]
fn themes() {
    assert_eq!(Theme::from_preset("HACKER").primary, 0x00FF00);
    assert_eq!(Theme::from_preset("whatever"), Theme::default());
    assert_eq!(Theme::default().background, 0x2E3440);
    assert_eq!(available_themes().len(), 6);
}

#[test]
fn ip_display_preference_names() {
    assert_eq!("GUA".parse::<IpDisplayPreference>().unwrap(), IpDisplayPreference::Ipv6Gua);
    assert_eq!("v4".parse::<IpDisplayPreference>().unwrap(), IpDisplayPreference::Ipv4);
    assert_eq!(
        "mac".parse::<IpDisplayPreference>(),
        Err("Unknown IP display preference: mac".to_string())
    );
    for p in IpDisplayPreference::all() {
        assert_eq!(p.to_string().parse::<IpDisplayPreference>().unwrap(), p);
    }
    assert_eq!(IpDisplayPreference::Ipv6Ula.display_name(), "IPv6 ULA");
    assert_eq!(IpDisplayPreference::default(), IpDisplayPreference::Ipv6Gua);
}

#[test]
fn scanning_words_lines_numbers() {
    let w = split_words(&chars("  cpu  1 2\t3\n"));
    assert_eq!(w, vec![chars("cpu"), chars("1"), chars("2"), chars("3")]);
    let l = split_lines(&chars("a\r\nb\n\nc\r"));
    assert_eq!(l, vec![chars("a"), chars("b"), chars(""), chars("c\r")]);
    assert!(split_lines(&chars("")).is_empty());
    assert_eq!(parse_u64_chars(&chars("+42")), Some(42));
    assert_eq!(parse_u64_chars(&chars("18446744073709551615")), Some(u64::MAX));
    assert_eq!(parse_u64_chars(&chars("18446744073709551616")), None);
    assert_eq!(parse_u64_chars(&chars("-1")), None);
    assert_eq!(parse_u64_chars(&chars("+")), None);
    assert_eq!(parse_u64_chars(&chars("12a")), None);
}

#[test]
fn proc_meminfo() {
    let content = "MemTotal:       16000000 kB\nMemFree:  1000 kB\nMemAvailable:   8000000 kB\n";
    assert_eq!(meminfo_value(content, "MemTotal:"), Some(16000000));
    assert_eq!(meminfo_value(content, "MemAvailable:"), Some(8000000));
    assert_eq!(meminfo_value(content, "Swap:"), None);
    let m = MemorySensor::new(content);
    assert_eq!(m.total_kb(), 16000000);
    assert_eq!(m.name(), "memory");
    assert_eq!(m.used_kb(content), Some(8000000));
    assert_eq!(m.used_kb("MemAvailable: 20000000 kB"), Some(0));
    assert_eq!(MemorySensor::new("").used_kb(content), None);
}

#[test]
fn proc_stat_and_diskstats_and_route() {
    let stat = "cpu  10 20 30 400 x 50\ncpu0 1 2 3 4\n";
    assert_eq!(cpu_times(stat), Some((400, 510)));
    assert_eq!(cpu_times("cpu 1 2 3\n"), None);
    assert_eq!(cpu_times(""), None);
    let disk = "   8       0 sda 100 0 2000 10 50 0 3000 20 0 30 30\n 259 0 nvme0n1 1 2 3 4 5 6 7 8 9 10\n";
    assert_eq!(diskstats_sectors(disk, "sda"), Some((2000, 3000)));
    assert_eq!(diskstats_sectors(disk, "nvme0n1"), Some((3, 7)));
    assert_eq!(diskstats_sectors(disk, "vda"), None);
    let route = "Iface\tDestination\tGateway\nwlan0\t0010A8C0\t00000000\neth0\t00000000\t0101A8C0\n";
    assert_eq!(default_route_interface(route), Some("eth0".to_string()));
    assert_eq!(default_route_interface("Iface\tDestination\n"), None);
    assert!(is_listed_interface("eth0"));
    assert!(!is_listed_interface("lo"));
    assert!(!is_listed_interface("veth12"));
    assert!(!is_listed_interface("docker0"));
}

#[test]
fn system_info_texts() {
    let s = SystemInfo::new();
    assert_eq!(s.time(9, 5), "09:05");
    assert_eq!(s.time(23, 59), "23:59");
    assert_eq!(s.uptime(59), "0m");
    assert_eq!(s.uptime(3 * 3600 + 120), "3h 2m");
    assert_eq!(s.uptime(2 * 86400 + 3600 + 60), "2d 1h 1m");
    assert_eq!(s.hostname(Some("  box\n"), Some("other")), "box");
    assert_eq!(s.hostname(None, Some("k\n")), "k");
    assert_eq!(s.hostname(None, None), "unknown");
    assert_eq!(trim_str(" \t "), "");
    assert_eq!(s.utc_components(3600 * 25 + 61), (1, 1, 1, 1, 1970, 0, 3600 * 25 + 61));
}

#[test]
fn config_defaults() {
    assert_eq!(default_state_dir(Some("/run/x"), Some("/x"), Some("/h")), "/run/x");
    assert_eq!(default_state_dir(None, Some("/x"), Some("/h")), "/x/ht32-panel");
    assert_eq!(default_state_dir(None, None, Some("/h")), "/h/.local/state/ht32-panel");
    assert_eq!(default_state_dir(None, None, None), "/var/lib/ht32-panel");
    let c = Config::with_state_dir("/s".to_string());
    assert_eq!(c.state_dir, "/s");
    assert_eq!(c.lcd.device, "auto");
}

#[test]
fn app_state_from_settings() {
    let mut settings = DisplaySettings::default();
    settings.face = "nope".to_string();
    settings.orientation = "PORTRAIT".to_string();
    settings.ip_display = "bogus".to_string();
    let state = AppState::new(settings);
    assert_eq!(state.face(), FaceKind::Professional);
    assert_eq!(state.orientation(), Orientation::Portrait);
    assert_eq!(state.ip_display(), IpDisplayPreference::Ipv6Gua);
    assert_eq!(state.led_settings(), (2, 3, 3));
    assert_eq!(state.refresh_interval_ms(), 2000);
    assert!(state.needs_redraw());
    assert_eq!(state.enabled_complications().len(), 6);
    let saved = state.display_settings();
    assert_eq!(saved.face, "professional");
    assert_eq!(saved.orientation, "portrait");
    let again = AppState::new(saved);
    assert_eq!(again.face(), FaceKind::Professional);
    assert_eq!(again.orientation(), Orientation::Portrait);
}

#[test]
fn app_state_requests() {
    let mut state = AppState::new(DisplaySettings::default());
    assert_eq!(state.set_refresh_interval_ms(100), 1500);
    assert_eq!(state.set_refresh_interval_ms(20000), 10000);
    assert_eq!(state.set_refresh_interval_ms(3000), 3000);
    assert_eq!(state.set_orientation(Orientation::PortraitUpsideDown), (170, 320));
    assert_eq!(state.set_face("mystery"), Err(StateError::UnknownFace("mystery".to_string())));
    assert!(state.set_face("Digits").is_ok());
    assert_eq!(state.face_name(), "digits");
    assert!(state.set_complication_enabled("cpu_temp", false).is_ok());
    assert!(!state.enabled_complications().contains(&"cpu_temp".to_string()));
    assert_eq!(
        state.set_complication_enabled("weather", true),
        Err(StateError::UnknownComplication { id: "weather".to_string(), face: "digits".to_string() })
    );
    assert_eq!(state.set_theme("hacker").unwrap().primary, 0x00FF00);
    assert_eq!(state.theme_name(), "hacker");
    assert_eq!(state.set_theme("Hacker"), Err(StateError::UnknownTheme("Hacker".to_string())));
    state.set_led(1, 5, 4);
    assert_eq!(state.led_settings(), (1, 5, 4));
    state.led_off();
    assert_eq!(state.led_settings(), (4, 5, 4));
    state.set_network_interface(Some("eth1".to_string()));
    assert_eq!(state.network_interface(), Some("eth1".to_string()));
    assert!(state.needs_led_update());
    state.led_update_done();
    assert!(!state.needs_led_update());
}

#[test]
fn bus_request_checks() {
    assert_eq!(check_led_args(1, 5, 3), Ok(()));
    assert_eq!(check_led_args(0, 5, 3), Err(StateError::LedOutOfRange(LedSetting::Theme)));
    assert_eq!(check_led_args(2, 6, 9), Err(StateError::LedOutOfRange(LedSetting::Intensity)));
    assert_eq!(check_led_args(2, 3, 9), Err(StateError::LedOutOfRange(LedSetting::Speed)));
    let available = vec!["eth0".to_string(), "wlan0".to_string()];
    assert_eq!(interface_choice("", &available), Ok(None));
    assert_eq!(interface_choice("AuTo", &available), Ok(None));
    assert_eq!(interface_choice("wlan0", &available), Ok(Some("wlan0".to_string())));
    assert_eq!(
        interface_choice("eth9", &available),
        Err(StateError::UnknownInterface("eth9".to_string()))
    );
}

#[test]
fn render_orientations() {
    // a 2x1 canvas: red then blue
    let px = [255u8, 0, 0, 255, 0, 0, 255, 255];
    let mut fb = Framebuffer::with_dimensions(3, 1);
    render_with_orientation(&px, 2, 1, &mut fb, Orientation::Landscape);
    assert_eq!(fb.data(), &[0xF800, 0x001F, 0][..]);
    let mut fb = Framebuffer::with_dimensions(3, 1);
    render_with_orientation(&px, 2, 1, &mut fb, Orientation::LandscapeUpsideDown);
    assert_eq!(fb.data(), &[0, 0x001F, 0xF800][..]);
    // portrait: a 1x2 canvas turned clockwise into the 320-wide buffer
    let mut fb = Framebuffer::new();
    render_with_orientation(&px, 1, 2, &mut fb, Orientation::Portrait);
    assert_eq!(fb.get_pixel(1, 0), Some(0xF800));
    assert_eq!(fb.get_pixel(0, 0), Some(0x001F));
    let mut fb = Framebuffer::new();
    render_with_orientation(&px, 1, 2, &mut fb, Orientation::PortraitUpsideDown);
    assert_eq!(fb.get_pixel(0, 0), Some(0xF800));
    assert_eq!(fb.get_pixel(1, 0), Some(0x001F));
}

#[test]
fn screen_png() {
    let rgba = [255u8, 0, 0, 255];
    let png = get_screen_png(1, 1, &rgba).unwrap();
    assert_eq!(&png[..8], &[137, 80, 78, 71, 13, 10, 26, 10]);
    assert!(get_screen_png(0, 1, &[]).is_err());
    assert!(get_screen_png(2, 1, &rgba).is_err());
    let canvas = vec![0x40u8; 320 * 170 * 4];
    let png = get_screen_png(320, 170, &canvas).unwrap();
    assert_eq!(&png[..8], &[137, 80, 78, 71, 13, 10, 26, 10]);
    assert_eq!(&png[png.len() - 8..png.len() - 4], b"IEND");
}

#[test]
fn lcd_panel_packets() {
    let mut panel = LcdPanel::new();
    panel.set_orientation(Orientation::LandscapeUpsideDown);
    let mut fb = Framebuffer::new();
    fb.set_pixel(0, 0, 0xABCD);
    let packets = panel.redraw(&fb);
    assert_eq!(packets.len(), 27);
    // rotated: the first pixel is sent last
    let last = &packets[26];
    assert_eq!(last[9 + 2 * 1151], 0xAB);
    assert_eq!(last[10 + 2 * 1151], 0xCD);
    let hb = LcdPanel::heartbeat(3600 * 13 + 60 * 7 + 5);
    assert_eq!(&hb[4..7], &[13, 7, 5]);
}

#[test]
fn time_and_date_formats() {
    assert_eq!(format_time(18, 5, "digital-24h"), "18:05");
    assert_eq!(format_time(18, 5, "digital-12h"), "6:05 PM");
    assert_eq!(format_time(0, 30, "digital-12h"), "12:30 AM");
    assert_eq!(format_time(12, 0, "digital-12h"), "12:00 PM");
    assert_eq!(format_time(7, 9, "analogue"), "07:09");
    assert_eq!(format_date(15, 1, 2024, 1, "iso"), Some("2024-01-15".to_string()));
    assert_eq!(format_date(15, 1, 2024, 1, "us"), Some("01/15/2024".to_string()));
    assert_eq!(format_date(15, 1, 2024, 1, "eu"), Some("15/01/2024".to_string()));
    assert_eq!(format_date(15, 1, 2024, 1, "short"), Some("Jan 15".to_string()));
    assert_eq!(format_date(15, 1, 2024, 1, "long"), Some("January 15, 2024".to_string()));
    assert_eq!(format_date(15, 1, 2024, 1, "weekday"), Some("Mon, Jan 15".to_string()));
    assert_eq!(format_date(3, 12, 2025, 3, "short"), Some("Dec 3".to_string()));
    assert_eq!(format_date(15, 1, 2024, 1, "julian"), None);
}

#[test]
fn address_and_disk_choices() {
    let lla = [0xfe, 0x80, 0, 0, 0, 0, 0, 0, 1, 2, 3, 4, 5, 6, 7, 8];
    let ula = [0xfd, 0x12, 0, 0, 0, 0, 0, 0, 0, 0, 0, 0, 0, 0, 0, 1];
    let gua = [0x20, 0x01, 0x0d, 0xb8, 0, 0, 0, 0, 0, 0, 0, 0, 0, 0, 0, 1];
    let v6 = [lla, ula, gua];
    assert_eq!(pick_display_address(IpDisplayPreference::Ipv6Gua, 0, &v6), Some(AddressPick::V6(2)));
    assert_eq!(pick_display_address(IpDisplayPreference::Ipv6Lla, 0, &v6), Some(AddressPick::V6(0)));
    assert_eq!(pick_display_address(IpDisplayPreference::Ipv6Ula, 0, &v6), Some(AddressPick::V6(1)));
    assert_eq!(pick_display_address(IpDisplayPreference::Ipv6Gua, 2, &[lla]), None);
    assert_eq!(pick_display_address(IpDisplayPreference::Ipv4, 2, &v6), Some(AddressPick::V4(0)));
    assert_eq!(pick_display_address(IpDisplayPreference::Ipv4, 0, &v6), None);
    assert_eq!(primary_disk(&[false, true, true, false, false]), "sda");
    assert_eq!(primary_disk(&[true, false, false, false, false]), "nvme0n1");
    assert_eq!(primary_disk(&[false, false, false, false, true]), "mmcblk0");
    assert_eq!(primary_disk(&[false; 5]), "sda");
}

#[test]
fn bus_attempt_order() {
    assert_eq!(BusType::default(), BusType::Auto);
    assert_eq!(BusType::Auto.attempts(), vec![BusType::Session, BusType::System]);
    assert_eq!(BusType::System.attempts(), vec![BusType::System]);
}

#[test]
fn hid_interface_choice() {
    assert_eq!(pick_hid_interface(&[]), None);
    assert_eq!(pick_hid_interface(&[2, 1, 0, 0]), Some(2));
    assert_eq!(pick_hid_interface(&[3, 1]), Some(0));
}

#[test]
fn web_complication_controls() {
    let mut state = AppState::new(DisplaySettings::default());
    state.set_complication_option("time", "format", "digital-12h".to_string());
    assert_eq!(
        state.get_complication_option("time", "format").map(|s| s.as_str()),
        Some("digital-12h")
    );
    state.set_complication_enabled("network", false).unwrap();
    let items = complication_items(&state, &vec!["eth0".to_string(), "wlan0".to_string()]);
    assert_eq!(items.len(), 6);
    assert_eq!(items[0].id, "time");
    assert!(items[0].enabled);
    assert_eq!(items[0].options[0].current_value, "digital-12h");
    assert_eq!(items[1].options[0].current_value, "iso");
    assert_eq!(items[3].id, "network");
    assert!(!items[3].enabled);
    assert_eq!(
        items[3].options[0].choices,
        vec![
            ("auto".to_string(), "Auto-detect".to_string()),
            ("eth0".to_string(), "eth0".to_string()),
            ("wlan0".to_string(), "wlan0".to_string()),
        ]
    );
    assert!(items[4].options.is_empty());
    assert_eq!(clamp_led_form(0, 9, 3), (1, 5, 3));
}

#[test]
fn settings_entries_round_trip() {
    let mut e = EnabledComplications::new();
    e.set_enabled("ascii", "date", false);
    e.set_option("ascii", "date", "format", "eu".to_string());
    let again = EnabledComplications::from_entries(e.entries().clone());
    assert!(!again.is_enabled("ascii", "date", true));
    assert_eq!(again.get_option("ascii", "date", "format").map(|s| s.as_str()), Some("eu"));
}

#[test]
fn digits_ip_label() {
    assert_eq!(ip_label("192.168.1.10", 100), "192.168.1.10");
    let v6 = "2001:db8:85a3:0:0:8a2e:370:7334";
    assert_eq!(ip_label(v6, 100), "2001:db8:85a3:0:0...");
    assert_eq!(ip_label("2001:db8:85a3:0:0:8a2e:370:73", 200), "2001:db8:85a3:0:0:8a2e:370:73");
    let long = "fd12:3456:789a:1:abcd:ef01:2345:6789";
    assert_eq!(ip_label(long, 320), "fd12:3456:789a:1:abcd:ef01:...");
    assert_eq!(ip_label("", 320), "");
}

#[test]
fn complication_listing_lines_from_descriptions() {
    let descriptions = vec![
        r#"{"id":"network","name":"Network","description":"Show traffic","enabled":true,"options":[{"id":"interface","name":"Interface","type":"choice","current_value":"eth0"}]}"#.to_string(),
        "not json".to_string(),
        r#"{"id":"cpu_temp","name":"CPU","enabled":false,"options":[{"id":"limit","name":"Limit","type":"range","current_value":"80","max":95,"step":5}]}"#.to_string(),
    ];
    let lines = complication_listing("ascii", &descriptions);
    assert_eq!(
        lines,
        vec![
            "Complications for 'ascii' face:",
            "  [x] network - Network",
            "      Show traffic",
            "      - interface: Interface (current: eth0)",
            "  [ ] cpu_temp - CPU",
            "      ",
            "      - limit: Limit (current: 80, range: 0-95, step: 5)",
        ]
    );
    assert_eq!(
        complication_listing("clock", &vec![]),
        vec!["Complications for 'clock' face:", "  (none available)"]
    );
    assert_eq!(
        complication_listing("clock", &vec!["[1,2]".to_string()]),
        vec!["Complications for 'clock' face:", "  [ ]  - ", "      "]
    );
}
