//! The daemon's display state: the settings that are persisted between
//! runs and the rules by which requests change them.
//!
//! The program holds this state behind its locks together with the
//! devices; it performs what the state decides (resizing the canvas,
//! sending LED packets, saving the settings file).

use vstd::prelude::*;
use crate::faces::enabled::{
    default_configs, face_configs, option_of, with_defaults, with_enabled, with_option,
    ConfigView, EnabledComplications,
};
use crate::faces::kinds::{
    complication_views, create_face, face_name, face_named, kind_complications,
    law_face_name_round_trip, FaceKind,
};
use crate::faces::{available_themes, preset_theme, theme_names, Complication, Theme};
use crate::orientation::{
    law_orientation_name_round_trip, orientation_name, orientation_named, spec_is_portrait,
    Orientation,
};
use crate::sensors::data::{
    ip_pref_name, ip_pref_named, law_ip_pref_name_round_trip, IpDisplayPreference,
};
use crate::text::{str_eq, lowercase};
use crate::{LCD_HEIGHT, LCD_WIDTH};

verus! {

/// Display settings persisted to the state directory.
pub struct DisplaySettings {
    /// Current face name.
    pub face: String,
    /// Display orientation.
    pub orientation: String,
    /// Color theme preset name.
    pub theme: String,
    /// LED theme (1=rainbow, 2=breathing, 3=colors, 4=off, 5=auto).
    pub led_theme: u8,
    /// LED intensity (1-5).
    pub led_intensity: u8,
    /// LED speed (1-5).
    pub led_speed: u8,
    /// Refresh interval in milliseconds (1500-10000).
    pub refresh_interval_ms: u32,
    /// Network interface to monitor (None = auto-detect).
    pub network_interface: Option<String>,
    /// IP address display preference.
    pub ip_display: String,
    /// Enabled complications per face.
    pub complications: EnabledComplications,
}

/// Default IP display preference name.
pub fn default_ip_display() -> (s: String)
    ensures
        s@ == "ipv6-gua"@,
{
    "ipv6-gua".to_owned()
}

/// Default face name.
pub fn default_face() -> (s: String)
    ensures
        s@ == "professional"@,
{
    "professional".to_owned()
}

/// Default theme name.
pub fn default_theme() -> (s: String)
    ensures
        s@ == "default"@,
{
    "default".to_owned()
}

/// Default LED theme (breathing).
pub fn default_led_theme() -> (v: u8)
    ensures
        v == 2,
{
    2
}

/// Default LED intensity and speed.
pub fn default_led_value() -> (v: u8)
    ensures
        v == 3,
{
    3
}

/// Default refresh interval in milliseconds.
pub fn default_refresh_interval() -> (v: u32)
    ensures
        v == 2000,
{
    2000
}

impl Default for DisplaySettings {
    fn default() -> (s: DisplaySettings)
        ensures
            s.face@ == "professional"@,
            s.orientation@ == "landscape"@,
            s.theme@ == "default"@,
            s.led_theme == 2,
            s.led_intensity == 3,
            s.led_speed == 3,
            s.refresh_interval_ms == 2000,
            s.network_interface is None,
            s.ip_display@ == "ipv6-gua"@,
            s.complications@ == Map::<Seq<char>, Map<Seq<char>, ConfigView>>::empty(),
    {
        DisplaySettings {
            face: default_face(),
            orientation: "landscape".to_owned(),
            theme: default_theme(),
            led_theme: default_led_theme(),
            led_intensity: default_led_value(),
            led_speed: default_led_value(),
            refresh_interval_ms: default_refresh_interval(),
            network_interface: None,
            ip_display: default_ip_display(),
            complications: EnabledComplications::new(),
        }
    }
}

/// Which LED setting a request gave out of range.
#[derive(Debug, Clone, Copy, PartialEq, Eq, Structural)]
pub enum LedSetting {
    Theme,
    Intensity,
    Speed,
}

/// Requests that the display state refuses.
#[derive(Debug, PartialEq, Eq)]
pub enum StateError {
    /// No face has this name.
    UnknownFace(String),
    /// No theme preset has this name.
    UnknownTheme(String),
    /// The current face offers no complication with this id.
    UnknownComplication { id: String, face: String },
    /// No network interface has this name.
    UnknownInterface(String),
    /// An LED setting outside 1-5.
    LedOutOfRange(LedSetting),
}

/// Abstract value of the display state.
pub struct StateView {
    pub orientation: Orientation,
    pub face: FaceKind,
    pub theme: Seq<char>,
    pub led: (u8, u8, u8),
    pub refresh_interval_ms: u32,
    pub network_interface: Option<Seq<char>>,
    pub ip_display: IpDisplayPreference,
    pub complications: Map<Seq<char>, Map<Seq<char>, ConfigView>>,
    pub needs_redraw: bool,
    pub needs_led_update: bool,
}

/// The view of an optional string.
pub open spec fn opt_view(o: Option<String>) -> Option<Seq<char>> {
    match o {
        Some(s) => Some(s@),
        None => None,
    }
}

/// A refresh interval clamped to 1500-10000 ms.
pub open spec fn clamp_refresh(ms: u32) -> u32 {
    if ms < 1500 {
        1500
    } else if ms > 10000 {
        10000
    } else {
        ms
    }
}

/// Whether the face offers a complication with this id.
pub open spec fn offers(face: FaceKind, id: Seq<char>) -> bool {
    exists|i: int| 0 <= i < kind_complications(face).len() && kind_complications(face)[i].id == id
}

/// The display state of the daemon.
pub struct AppState {
    orientation: Orientation,
    face: FaceKind,
    theme_name: String,
    led_theme: u8,
    led_intensity: u8,
    led_speed: u8,
    refresh_interval_ms: u32,
    network_interface: Option<String>,
    ip_display: IpDisplayPreference,
    complications: EnabledComplications,
    needs_redraw: bool,
    needs_led_update: bool,
}

impl View for AppState {
    type V = StateView;

    closed spec fn view(&self) -> StateView {
        StateView {
            orientation: self.orientation,
            face: self.face,
            theme: self.theme_name@,
            led: (self.led_theme, self.led_intensity, self.led_speed),
            refresh_interval_ms: self.refresh_interval_ms,
            network_interface: opt_view(self.network_interface),
            ip_display: self.ip_display,
            complications: self.complications@,
            needs_redraw: self.needs_redraw,
            needs_led_update: self.needs_led_update,
        }
    }
}

impl AppState {
    /// The state that persisted settings describe: unknown orientation,
    /// face and IP preference names fall back to landscape, the
    /// professional face and IPv6 GUA; the face's complications are
    /// initialised from its defaults when it has no settings.
    pub fn new(settings: DisplaySettings) -> (s: AppState)
        ensures
            s@.orientation == match orientation_named(lowercase(settings.orientation@)) {
                Some(o) => o,
                None => Orientation::Landscape,
            },
            s@.face == match face_named(lowercase(settings.face@)) {
                Some(k) => k,
                None => FaceKind::Professional,
            },
            s@.theme == settings.theme@,
            s@.led == (settings.led_theme, settings.led_intensity, settings.led_speed),
            s@.refresh_interval_ms == settings.refresh_interval_ms,
            s@.network_interface == opt_view(settings.network_interface),
            s@.ip_display == match ip_pref_named(lowercase(settings.ip_display@)) {
                Some(p) => p,
                None => IpDisplayPreference::Ipv6Gua,
            },
            s@.complications == with_defaults(
                settings.complications@,
                face_name(s@.face),
                default_configs(kind_complications(s@.face)),
            ),
            s@.needs_redraw,
            s@.needs_led_update,
    {
        let orientation = match Orientation::parse(settings.orientation.as_str()) {
            Ok(o) => o,
            Err(_) => Orientation::Landscape,
        };
        let face = match create_face(settings.face.as_str()) {
            Some(k) => k,
            None => FaceKind::Professional,
        };
        let ip_display = match IpDisplayPreference::parse(settings.ip_display.as_str()) {
            Ok(p) => p,
            Err(_) => IpDisplayPreference::Ipv6Gua,
        };
        let mut complications = settings.complications;
        complications.init_from_defaults(&face);
        AppState {
            orientation,
            face,
            theme_name: settings.theme,
            led_theme: settings.led_theme,
            led_intensity: settings.led_intensity,
            led_speed: settings.led_speed,
            refresh_interval_ms: settings.refresh_interval_ms,
            network_interface: settings.network_interface,
            ip_display,
            complications,
            needs_redraw: true,
            needs_led_update: true,
        }
    }

    /// The settings to persist.
    pub fn display_settings(&self) -> (d: DisplaySettings)
        ensures
            d.face@ == face_name(self@.face),
            d.orientation@ == orientation_name(self@.orientation),
            d.theme@ == self@.theme,
            (d.led_theme, d.led_intensity, d.led_speed) == self@.led,
            d.refresh_interval_ms == self@.refresh_interval_ms,
            opt_view(d.network_interface) == self@.network_interface,
            d.ip_display@ == ip_pref_name(self@.ip_display),
            d.complications@ == self@.complications,
    {
        DisplaySettings {
            face: self.face.name().to_owned(),
            orientation: self.orientation.as_str().to_owned(),
            theme: self.theme_name.clone(),
            led_theme: self.led_theme,
            led_intensity: self.led_intensity,
            led_speed: self.led_speed,
            refresh_interval_ms: self.refresh_interval_ms,
            network_interface: match &self.network_interface {
                Some(s) => Some(s.clone()),
                None => None,
            },
            ip_display: self.ip_display.to_string(),
            complications: self.complications.copied(),
        }
    }

    /// The current orientation.
    pub fn orientation(&self) -> (o: Orientation)
        ensures
            o == self@.orientation,
    {
        self.orientation
    }

    /// Sets the orientation; returns the canvas size (width, height) it
    /// asks for. A redraw is requested.
    pub fn set_orientation(&mut self, orientation: Orientation) -> (d: (u16, u16))
        ensures
            final(self)@ == (StateView { orientation, needs_redraw: true, ..old(self)@ }),
            d == (if spec_is_portrait(orientation) {
                (LCD_HEIGHT, LCD_WIDTH)
            } else {
                (LCD_WIDTH, LCD_HEIGHT)
            }),
    {
        self.orientation = orientation;
        self.needs_redraw = true;
        orientation.dimensions()
    }

    /// The refresh interval in milliseconds.
    pub fn refresh_interval_ms(&self) -> (ms: u32)
        ensures
            ms == self@.refresh_interval_ms,
    {
        self.refresh_interval_ms
    }

    /// Sets the refresh interval, clamped to 1500-10000 ms; returns the
    /// interval set.
    pub fn set_refresh_interval_ms(&mut self, ms: u32) -> (set: u32)
        ensures
            set == clamp_refresh(ms),
            final(self)@ == (StateView { refresh_interval_ms: clamp_refresh(ms), ..old(self)@ }),
    {
        let clamped = if ms < 1500 {
            1500
        } else if ms > 10000 {
            10000
        } else {
            ms
        };
        self.refresh_interval_ms = clamped;
        clamped
    }

    /// The LED settings (theme, intensity, speed).
    pub fn led_settings(&self) -> (l: (u8, u8, u8))
        ensures
            l == self@.led,
    {
        (self.led_theme, self.led_intensity, self.led_speed)
    }

    /// Records LED settings that were applied to the device.
    pub fn set_led(&mut self, theme: u8, intensity: u8, speed: u8)
        ensures
            final(self)@ == (StateView { led: (theme, intensity, speed), ..old(self)@ }),
    {
        self.led_theme = theme;
        self.led_intensity = intensity;
        self.led_speed = speed;
    }

    /// Records that the LEDs were turned off (theme 4).
    pub fn led_off(&mut self)
        ensures
            final(self)@ == (StateView {
                led: (4u8, old(self)@.led.1, old(self)@.led.2),
                ..old(self)@
            }),
    {
        self.led_theme = 4;
    }

    /// Whether the LED settings still have to be sent to the device.
    pub fn needs_led_update(&self) -> (b: bool)
        ensures
            b == self@.needs_led_update,
    {
        self.needs_led_update
    }

    /// Records that the LED settings were sent.
    pub fn led_update_done(&mut self)
        ensures
            final(self)@ == (StateView { needs_led_update: false, ..old(self)@ }),
    {
        self.needs_led_update = false;
    }

    /// Whether a redraw was requested.
    pub fn needs_redraw(&self) -> (b: bool)
        ensures
            b == self@.needs_redraw,
    {
        self.needs_redraw
    }

    /// Requests a full redraw on the next frame.
    pub fn force_redraw(&mut self)
        ensures
            final(self)@ == (StateView { needs_redraw: true, ..old(self)@ }),
    {
        self.needs_redraw = true;
    }

    /// The current face.
    pub fn face(&self) -> (k: FaceKind)
        ensures
            k == self@.face,
    {
        self.face
    }

    /// The name of the current face.
    pub fn face_name(&self) -> (n: &'static str)
        ensures
            n@ == face_name(self@.face),
    {
        self.face.name()
    }

    /// Selects a face by name (ignoring case), initialising its
    /// complications from their defaults when it has no settings.
    pub fn set_face(&mut self, name: &str) -> (r: Result<(), StateError>)
        ensures
            match face_named(lowercase(name@)) {
                Some(k) => r is Ok && final(self)@ == (StateView {
                    face: k,
                    complications: with_defaults(
                        old(self)@.complications,
                        face_name(k),
                        default_configs(kind_complications(k)),
                    ),
                    ..old(self)@
                }),
                None => r matches Err(StateError::UnknownFace(n)) && n@ == name@ && final(self)@
                    == old(self)@,
            },
    {
        match create_face(name) {
            Some(k) => {
                self.complications.init_from_defaults(&k);
                self.face = k;
                Ok(())
            },
            None => Err(StateError::UnknownFace(name.to_owned())),
        }
    }

    /// The complications the current face offers.
    pub fn available_complications(&self) -> (v: Vec<Complication>)
        ensures
            complication_views(v@) == kind_complications(self@.face),
    {
        self.face.available_complications()
    }

    /// The ids of the complications enabled on the current face.
    pub fn enabled_complications(&self) -> (ids: Vec<String>)
        ensures
            forall|i: int|
                0 <= i < ids@.len() ==> face_configs(self@.complications, face_name(self@.face)).contains_key(
                    #[trigger] ids@[i]@,
                ) && face_configs(self@.complications, face_name(self@.face))[ids@[i]@].enabled,
            forall|k: Seq<char>|
                face_configs(self@.complications, face_name(self@.face)).contains_key(k)
                    && #[trigger] face_configs(self@.complications, face_name(self@.face))[k].enabled
                    ==> exists|i: int| 0 <= i < ids@.len() && ids@[i]@ == k,
            forall|i: int, j: int| 0 <= i < j < ids@.len() ==> ids@[i]@ != ids@[j]@,
    {
        self.complications.get_enabled(self.face.name())
    }

    /// The settings of the complications per face.
    pub fn complications(&self) -> (c: &EnabledComplications)
        ensures
            c@ == self@.complications,
    {
        &self.complications
    }

    /// Enables or disables a complication of the current face; refused
    /// for an id the face does not offer. A redraw is requested.
    pub fn set_complication_enabled(&mut self, complication_id: &str, enabled: bool) -> (r: Result<
        (),
        StateError,
    >)
        ensures
            offers(old(self)@.face, complication_id@) ==> r is Ok && final(self)@ == (StateView {
                complications: with_enabled(
                    old(self)@.complications,
                    face_name(old(self)@.face),
                    complication_id@,
                    enabled,
                ),
                needs_redraw: true,
                ..old(self)@
            }),
            !offers(old(self)@.face, complication_id@) ==> (r matches Err(
                StateError::UnknownComplication { id, face },
            ) && id@ == complication_id@ && face@ == face_name(old(self)@.face)) && final(self)@
                == old(self)@,
    {
        let available = self.face.available_complications();
        let ghost views = complication_views(available@);
        let mut found = false;
        let mut i: usize = 0;
        while i < available.len()
            invariant
                views == complication_views(available@),
                views == kind_complications(self@.face),
                i <= available@.len(),
                found == exists|j: int| 0 <= j < i && views[j].id == complication_id@,
            decreases available@.len() - i,
        {
            assert(views[i as int].id == available@[i as int].id@);
            if str_eq(available[i].id.as_str(), complication_id) {
                found = true;
            }
            i = i + 1;
        }
        if !found {
            return Err(
                StateError::UnknownComplication {
                    id: complication_id.to_owned(),
                    face: self.face.name().to_owned(),
                },
            );
        }
        self.complications.set_enabled(self.face.name(), complication_id, enabled);
        self.needs_redraw = true;
        Ok(())
    }

    /// The value set for an option of a complication of the current face.
    pub fn get_complication_option(&self, complication_id: &str, option_id: &str) -> (r: Option<
        &String,
    >)
        ensures
            match r {
                Some(v) => option_of(
                    self@.complications,
                    face_name(self@.face),
                    complication_id@,
                    option_id@,
                ) == Some(v@),
                None => option_of(
                    self@.complications,
                    face_name(self@.face),
                    complication_id@,
                    option_id@,
                ) is None,
            },
    {
        self.complications.get_option(self.face.name(), complication_id, option_id)
    }

    /// Sets an option of a complication of the current face. A redraw is
    /// requested.
    pub fn set_complication_option(&mut self, complication_id: &str, option_id: &str, value: String)
        ensures
            final(self)@ == (StateView {
                complications: with_option(
                    old(self)@.complications,
                    face_name(old(self)@.face),
                    complication_id@,
                    option_id@,
                    value@,
                ),
                needs_redraw: true,
                ..old(self)@
            }),
    {
        self.complications.set_option(self.face.name(), complication_id, option_id, value);
        self.needs_redraw = true;
    }

    /// The current theme name.
    pub fn theme_name(&self) -> (n: &str)
        ensures
            n@ == self@.theme,
    {
        self.theme_name.as_str()
    }

    /// Selects a theme preset by its exact name; returns the theme, whose
    /// background the canvas takes. A redraw is requested.
    pub fn set_theme(&mut self, name: &str) -> (r: Result<Theme, StateError>)
        ensures
            theme_names().contains(name@) ==> r == Ok::<Theme, StateError>(
                preset_theme(lowercase(name@)),
            ) && final(self)@ == (StateView { theme: name@, needs_redraw: true, ..old(self)@ }),
            !theme_names().contains(name@) ==> (r matches Err(StateError::UnknownTheme(n)) && n@
                == name@) && final(self)@ == old(self)@,
    {
        let names = available_themes();
        let mut found = false;
        let mut i: usize = 0;
        while i < names.len()
            invariant
                names@.len() == theme_names().len(),
                forall|j: int| 0 <= j < names@.len() ==> (#[trigger] names@[j])@ == theme_names()[j],
                i <= names@.len(),
                found == exists|j: int| 0 <= j < i && theme_names()[j] == name@,
            decreases names@.len() - i,
        {
            if str_eq(names[i], name) {
                found = true;
            }
            i = i + 1;
        }
        if !found {
            return Err(StateError::UnknownTheme(name.to_owned()));
        }
        self.theme_name = name.to_owned();
        self.needs_redraw = true;
        Ok(Theme::from_preset(name))
    }

    /// The IP display preference.
    pub fn ip_display(&self) -> (p: IpDisplayPreference)
        ensures
            p == self@.ip_display,
    {
        self.ip_display
    }

    /// Sets the IP display preference.
    pub fn set_ip_display(&mut self, preference: IpDisplayPreference)
        ensures
            final(self)@ == (StateView { ip_display: preference, ..old(self)@ }),
    {
        self.ip_display = preference;
    }

    /// The configured network interface (`None` for auto-detection).
    pub fn network_interface(&self) -> (n: Option<String>)
        ensures
            opt_view(n) == self@.network_interface,
    {
        match &self.network_interface {
            Some(s) => Some(s.clone()),
            None => None,
        }
    }

    /// Sets the network interface to monitor (`None` for auto-detection).
    pub fn set_network_interface(&mut self, interface: Option<String>)
        ensures
            final(self)@ == (StateView { network_interface: opt_view(interface), ..old(self)@ }),
    {
        self.network_interface = interface;
    }
}

/// Checks LED settings requested over the bus: theme, intensity and
/// speed must each be 1-5 (the first one out of range is reported).
pub fn check_led_args(theme: u8, intensity: u8, speed: u8) -> (r: Result<(), StateError>)
    ensures
        !(1 <= theme <= 5) ==> r == Err::<(), StateError>(StateError::LedOutOfRange(LedSetting::Theme)),
        1 <= theme <= 5 && !(1 <= intensity <= 5) ==> r == Err::<(), StateError>(
            StateError::LedOutOfRange(LedSetting::Intensity),
        ),
        1 <= theme <= 5 && 1 <= intensity <= 5 && !(1 <= speed <= 5) ==> r == Err::<
            (),
            StateError,
        >(StateError::LedOutOfRange(LedSetting::Speed)),
        1 <= theme <= 5 && 1 <= intensity <= 5 && 1 <= speed <= 5 ==> r is Ok,
{
    if !(1 <= theme && theme <= 5) {
        return Err(StateError::LedOutOfRange(LedSetting::Theme));
    }
    if !(1 <= intensity && intensity <= 5) {
        return Err(StateError::LedOutOfRange(LedSetting::Intensity));
    }
    if !(1 <= speed && speed <= 5) {
        return Err(StateError::LedOutOfRange(LedSetting::Speed));
    }
    Ok(())
}

/// Whether `s` is "auto" up to ASCII case.
pub open spec fn is_auto(s: Seq<char>) -> bool {
    &&& s.len() == 4
    &&& (s[0] == 'a' || s[0] == 'A')
    &&& (s[1] == 'u' || s[1] == 'U')
    &&& (s[2] == 't' || s[2] == 'T')
    &&& (s[3] == 'o' || s[3] == 'O')
}

/// Whether `list` holds `s`.
pub open spec fn lists(list: Seq<String>, s: Seq<char>) -> bool {
    exists|i: int| 0 <= i < list.len() && list[i]@ == s
}

/// The interface choice that a request names: none (auto-detection) for
/// an empty request or "auto" in any ASCII case, else the request itself,
/// which must be among the available interfaces.
pub fn interface_choice(requested: &str, available: &Vec<String>) -> (r: Result<
    Option<String>,
    StateError,
>)
    ensures
        requested@.len() == 0 || is_auto(requested@) ==> r matches Ok(None),
        !(requested@.len() == 0 || is_auto(requested@)) && lists(available@, requested@) ==> (r matches Ok(
            Some(s),
        ) && s@ == requested@),
        !(requested@.len() == 0 || is_auto(requested@)) && !lists(available@, requested@) ==> (r matches Err(
            StateError::UnknownInterface(s),
        ) && s@ == requested@),
{
    let n = requested.unicode_len();
    if n == 0 {
        return Ok(None);
    }
    if n == 4 {
        let a = requested.get_char(0);
        let u = requested.get_char(1);
        let t = requested.get_char(2);
        let o = requested.get_char(3);
        if (a == 'a' || a == 'A') && (u == 'u' || u == 'U') && (t == 't' || t == 'T') && (o == 'o'
            || o == 'O') {
            return Ok(None);
        }
    }
    assert(!(requested@.len() == 0 || is_auto(requested@)));
    let mut i: usize = 0;
    while i < available.len()
        invariant
            !(requested@.len() == 0 || is_auto(requested@)),
            i <= available@.len(),
            forall|j: int| 0 <= j < i ==> available@[j]@ != requested@,
        decreases available@.len() - i,
    {
        if str_eq(available[i].as_str(), requested) {
            return Ok(Some(requested.to_owned()));
        }
        i = i + 1;
    }
    Err(StateError::UnknownInterface(requested.to_owned()))
}

/// The refresh interval that is set always lies in 1500-10000 ms, and an
/// interval in that range is kept as it is.
pub proof fn law_refresh_interval_clamped(ms: u32)
    ensures
        1500 <= clamp_refresh(ms) <= 10000,
        1500 <= ms <= 10000 ==> clamp_refresh(ms) == ms,
        clamp_refresh(clamp_refresh(ms)) == clamp_refresh(ms),
{
}

/// Saved display settings load back into the same state: the saved
/// orientation, face and IP preference names select what was saved, and
/// the complications of the current face (which it has once it was
/// selected) are kept as they are.
pub proof fn law_settings_round_trip(s: StateView)
    requires
        s.complications.contains_key(face_name(s.face)),
    ensures
        orientation_named(lowercase(orientation_name(s.orientation))) == Some(s.orientation),
        face_named(lowercase(face_name(s.face))) == Some(s.face),
        ip_pref_named(lowercase(ip_pref_name(s.ip_display))) == Some(s.ip_display),
        with_defaults(s.complications, face_name(s.face), default_configs(kind_complications(s.face)))
            == s.complications,
{
    law_orientation_name_round_trip(s.orientation);
    law_face_name_round_trip(s.face);
    law_ip_pref_name_round_trip(s.ip_display);
}

} // verus!
