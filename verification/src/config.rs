//! Daemon configuration: its structure and default values.
//!
//! Reading and writing the TOML file is the program's part; the library
//! holds the values and the rules that choose the defaults.

use vstd::prelude::*;
use crate::text::push_str;

verus! {

/// Web server configuration.
#[derive(Debug, Clone)]
pub struct WebConfig {
    /// Whether to enable the web server.
    pub enable: bool,
    /// Server listen address (e.g., "0.0.0.0:8686").
    pub listen: String,
}

/// D-Bus bus type.
#[derive(Debug, Clone, Copy, PartialEq, Eq, Structural)]
pub enum DbusBusType {
    /// Try the session bus first, fall back to the system bus.
    Auto,
    /// Use the session bus (for user services).
    Session,
    /// Use the system bus (for system services).
    System,
}

/// D-Bus configuration.
#[derive(Debug, Clone)]
pub struct DbusConfig {
    /// Which D-Bus bus to use.
    pub bus: DbusBusType,
}

/// LCD device configuration.
#[derive(Debug, Clone)]
pub struct LcdConfig {
    /// Device path or "auto" for auto-detection.
    pub device: String,
}

/// LED device configuration.
#[derive(Debug, Clone)]
pub struct LedConfig {
    /// Serial port path.
    pub device: String,
    /// Current theme (1-5).
    pub theme: u8,
    /// Intensity (1-5).
    pub intensity: u8,
    /// Speed (1-5).
    pub speed: u8,
}

/// Canvas configuration.
#[derive(Debug, Clone)]
pub struct CanvasConfig {
    /// Canvas width.
    pub width: u32,
    /// Canvas height.
    pub height: u32,
}

/// Display configuration.
#[derive(Debug, Clone)]
pub struct DisplayConfig {
    /// Network interface to monitor (e.g., "eth0", "wlan0").
    pub network_interface: Option<String>,
}

/// Main configuration structure.
#[derive(Debug, Clone)]
pub struct Config {
    /// Web server configuration.
    pub web: WebConfig,
    /// D-Bus configuration.
    pub dbus: DbusConfig,
    /// Path to theme configuration.
    pub theme: String,
    /// State directory for persisting runtime state.
    pub state_dir: String,
    /// Render loop poll interval in milliseconds.
    pub poll: u64,
    /// Display refresh rate in milliseconds.
    pub refresh: u64,
    /// Heartbeat interval in milliseconds.
    pub heartbeat: u64,
    /// LCD configuration.
    pub lcd: LcdConfig,
    /// LED configuration.
    pub led: LedConfig,
    /// Canvas configuration.
    pub canvas: CanvasConfig,
    /// Display configuration.
    pub display: DisplayConfig,
}

/// Default listen address.
pub fn default_listen() -> (s: String)
    ensures
        s@ == "[::1]:8686"@,
{
    "[::1]:8686".to_owned()
}

/// Default theme configuration path.
pub fn default_theme() -> (s: String)
    ensures
        s@ == "themes/default.toml"@,
{
    "themes/default.toml".to_owned()
}

/// Default render poll interval (ms).
pub fn default_poll() -> (v: u64)
    ensures
        v == 500,
{
    500
}

/// Default refresh interval (ms).
pub fn default_refresh() -> (v: u64)
    ensures
        v == 1600,
{
    1600
}

/// Default heartbeat interval (ms).
pub fn default_heartbeat() -> (v: u64)
    ensures
        v == 60000,
{
    60000
}

/// Default LCD device selection.
pub fn default_lcd_device() -> (s: String)
    ensures
        s@ == "auto"@,
{
    "auto".to_owned()
}

/// Default LED serial port.
pub fn default_led_device() -> (s: String)
    ensures
        s@ == "/dev/ttyUSB0"@,
{
    "/dev/ttyUSB0".to_owned()
}

/// Default LED theme (2 = breathing).
pub fn default_led_theme() -> (v: u8)
    ensures
        v == 2,
{
    2
}

/// Default LED intensity and speed.
pub fn default_led_value() -> (v: u8)
    ensures
        v == 3,
{
    3
}

/// Default canvas width.
pub fn default_width() -> (v: u32)
    ensures
        v == 320,
{
    320
}

/// Default canvas height.
pub fn default_height() -> (v: u32)
    ensures
        v == 170,
{
    170
}

/// The state directory the daemon uses by default, from the environment
/// variables `STATE_DIRECTORY`, `XDG_STATE_HOME` and `HOME` (each `None`
/// when unset), tried in that order.
pub open spec fn state_dir_choice(
    state_directory: Option<Seq<char>>,
    xdg_state_home: Option<Seq<char>>,
    home: Option<Seq<char>>,
) -> Seq<char> {
    match state_directory {
        Some(d) => d,
        None => match xdg_state_home {
            Some(x) => x + "/ht32-panel"@,
            None => match home {
                Some(h) => h + "/.local/state/ht32-panel"@,
                None => "/var/lib/ht32-panel"@,
            },
        },
    }
}

/// View of an optional string.
pub open spec fn opt_view(o: Option<&str>) -> Option<Seq<char>> {
    match o {
        Some(s) => Some(s@),
        None => None,
    }
}

/// Chooses the default state directory from the values of
/// `STATE_DIRECTORY`, `XDG_STATE_HOME` and `HOME`.
pub fn default_state_dir(
    state_directory: Option<&str>,
    xdg_state_home: Option<&str>,
    home: Option<&str>,
) -> (s: String)
    ensures
        s@ == state_dir_choice(opt_view(state_directory), opt_view(xdg_state_home), opt_view(home)),
{
    if let Some(d) = state_directory {
        d.to_owned()
    } else if let Some(x) = xdg_state_home {
        let mut s = x.to_owned();
        push_str(&mut s, "/ht32-panel");
        s
    } else if let Some(h) = home {
        let mut s = h.to_owned();
        push_str(&mut s, "/.local/state/ht32-panel");
        s
    } else {
        "/var/lib/ht32-panel".to_owned()
    }
}

impl Default for WebConfig {
    fn default() -> (c: WebConfig)
        ensures
            !c.enable,
            c.listen@ == "[::1]:8686"@,
    {
        WebConfig { enable: false, listen: default_listen() }
    }
}

impl Default for DbusBusType {
    fn default() -> (b: DbusBusType)
        ensures
            b == DbusBusType::Auto,
    {
        DbusBusType::Auto
    }
}

impl Default for DbusConfig {
    fn default() -> (c: DbusConfig)
        ensures
            c.bus == DbusBusType::Auto,
    {
        DbusConfig { bus: DbusBusType::Auto }
    }
}

impl Default for LcdConfig {
    /// Auto-detection of the device.
    fn default() -> (c: LcdConfig)
        ensures
            c.device@ == "auto"@,
    {
        LcdConfig { device: default_lcd_device() }
    }
}

impl Default for LedConfig {
    fn default() -> (c: LedConfig)
        ensures
            c.device@ == "/dev/ttyUSB0"@,
            c.theme == 2,
            c.intensity == 3,
            c.speed == 3,
    {
        LedConfig {
            device: default_led_device(),
            theme: default_led_theme(),
            intensity: default_led_value(),
            speed: default_led_value(),
        }
    }
}

impl Default for CanvasConfig {
    fn default() -> (c: CanvasConfig)
        ensures
            c.width == 320,
            c.height == 170,
    {
        CanvasConfig { width: default_width(), height: default_height() }
    }
}

impl Default for DisplayConfig {
    fn default() -> (c: DisplayConfig)
        ensures
            c.network_interface is None,
    {
        DisplayConfig { network_interface: None }
    }
}

impl Config {
    /// The default configuration, with the given state directory (which
    /// `default_state_dir` chooses from the environment).
    pub fn with_state_dir(state_dir: String) -> (c: Config)
        ensures
            !c.web.enable,
            c.web.listen@ == "[::1]:8686"@,
            c.dbus.bus == DbusBusType::Auto,
            c.theme@ == "themes/default.toml"@,
            c.state_dir@ == state_dir@,
            c.poll == 500,
            c.refresh == 1600,
            c.heartbeat == 60000,
            c.lcd.device@ == "auto"@,
            c.led.device@ == "/dev/ttyUSB0"@,
            c.led.theme == 2,
            c.led.intensity == 3,
            c.led.speed == 3,
            c.canvas.width == 320,
            c.canvas.height == 170,
            c.display.network_interface is None,
    {
        Config {
            web: WebConfig::default(),
            dbus: DbusConfig::default(),
            theme: default_theme(),
            state_dir,
            poll: default_poll(),
            refresh: default_refresh(),
            heartbeat: default_heartbeat(),
            lcd: LcdConfig::default(),
            led: LedConfig::default(),
            canvas: CanvasConfig::default(),
            display: DisplayConfig::default(),
        }
    }
}

} // verus!
