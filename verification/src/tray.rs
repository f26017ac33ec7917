//! The system tray applet's menu: its choices, which one is selected, and
//! what choosing one asks of the daemon.

use vstd::prelude::*;
use crate::text::str_eq;

verus! {

/// The LED theme choices: (label, theme byte).
pub open spec fn led_theme_options() -> Seq<(Seq<char>, u8)> {
    seq![
        ("Rainbow"@, 1u8),
        ("Breathing"@, 2u8),
        ("Colors"@, 3u8),
        ("Off"@, 4u8),
        ("Auto"@, 5u8),
    ]
}

/// The orientation choices: (label, orientation name).
pub open spec fn orientation_options() -> Seq<(Seq<char>, Seq<char>)> {
    seq![
        ("Landscape"@, "landscape"@),
        ("Portrait"@, "portrait"@),
        ("Landscape (Upside Down)"@, "landscape-upside-down"@),
        ("Portrait (Upside Down)"@, "portrait-upside-down"@),
    ]
}

/// The LED theme choices, in menu order.
pub fn led_themes() -> (v: Vec<(&'static str, u8)>)
    ensures
        v@.len() == led_theme_options().len(),
        forall|i: int|
            0 <= i < v@.len() ==> (#[trigger] v@[i]).0@ == led_theme_options()[i].0 && v@[i].1
                == led_theme_options()[i].1,
{
    vec![("Rainbow", 1), ("Breathing", 2), ("Colors", 3), ("Off", 4), ("Auto", 5)]
}

/// The orientation choices, in menu order.
pub fn orientations() -> (v: Vec<(&'static str, &'static str)>)
    ensures
        v@.len() == orientation_options().len(),
        forall|i: int|
            0 <= i < v@.len() ==> (#[trigger] v@[i]).0@ == orientation_options()[i].0 && v@[i].1@
                == orientation_options()[i].1,
{
    vec![
        ("Landscape", "landscape"),
        ("Portrait", "portrait"),
        ("Landscape (Upside Down)", "landscape-upside-down"),
        ("Portrait (Upside Down)", "portrait-upside-down"),
    ]
}

/// Commands that tray choices send to the daemon.
#[derive(Debug, Clone)]
pub enum TrayCommand {
    SetLedTheme(u8),
    SetOrientation(String),
    QuitDaemon,
}

/// What the tray shows of the daemon.
pub struct TrayState {
    pub connected: bool,
    pub led_theme: u8,
    pub led_intensity: u8,
    pub led_speed: u8,
    pub orientation: String,
}

impl Default for TrayState {
    fn default() -> (s: TrayState)
        ensures
            !s.connected,
            s.led_theme == 2,
            s.led_intensity == 3,
            s.led_speed == 3,
            s.orientation@ == "landscape"@,
    {
        TrayState {
            connected: false,
            led_theme: 2,
            led_intensity: 3,
            led_speed: 3,
            orientation: "landscape".to_owned(),
        }
    }
}

/// The tray icon: lit when the panel is connected.
pub fn icon_name(connected: bool) -> (n: &'static str)
    ensures
        n@ == (if connected {
            "display-brightness-symbolic"@
        } else {
            "display-brightness-off-symbolic"@
        }),
{
    if connected {
        "display-brightness-symbolic"
    } else {
        "display-brightness-off-symbolic"
    }
}

/// The selected LED theme choice: the first with the current theme byte,
/// else the first choice.
pub fn led_theme_selected(theme: u8) -> (i: usize)
    ensures
        i < led_theme_options().len(),
        (exists|j: int| 0 <= j < led_theme_options().len() && led_theme_options()[j].1 == theme)
            ==> led_theme_options()[i as int].1 == theme && forall|j: int|
            0 <= j < i ==> led_theme_options()[j].1 != theme,
        !(exists|j: int| 0 <= j < led_theme_options().len() && led_theme_options()[j].1 == theme)
            ==> i == 0,
{
    let themes = led_themes();
    let mut i: usize = 0;
    while i < themes.len()
        invariant
            themes@.len() == led_theme_options().len(),
            forall|k: int|
                0 <= k < themes@.len() ==> (#[trigger] themes@[k]).1 == led_theme_options()[k].1,
            i <= themes@.len(),
            forall|j: int| 0 <= j < i ==> led_theme_options()[j].1 != theme,
        decreases themes@.len() - i,
    {
        if themes[i].1 == theme {
            return i;
        }
        i = i + 1;
    }
    0
}

/// The selected orientation choice: the first with the current
/// orientation name, else the first choice.
pub fn orientation_selected(orientation: &str) -> (i: usize)
    ensures
        i < orientation_options().len(),
        (exists|j: int|
            0 <= j < orientation_options().len() && orientation_options()[j].1 == orientation@)
            ==> orientation_options()[i as int].1 == orientation@ && forall|j: int|
            0 <= j < i ==> orientation_options()[j].1 != orientation@,
        !(exists|j: int|
            0 <= j < orientation_options().len() && orientation_options()[j].1 == orientation@)
            ==> i == 0,
{
    let choices = orientations();
    let mut i: usize = 0;
    while i < choices.len()
        invariant
            choices@.len() == orientation_options().len(),
            forall|k: int|
                0 <= k < choices@.len() ==> (#[trigger] choices@[k]).1@
                    == orientation_options()[k].1,
            i <= choices@.len(),
            forall|j: int| 0 <= j < i ==> orientation_options()[j].1 != orientation@,
        decreases choices@.len() - i,
    {
        if str_eq(choices[i].1, orientation) {
            return i;
        }
        i = i + 1;
    }
    0
}

impl TrayState {
    /// Choosing LED theme choice `index`: the theme is shown at once and
    /// asked of the daemon; an index beyond the choices does nothing.
    pub fn select_led_theme(&mut self, index: usize) -> (c: Option<TrayCommand>)
        ensures
            index < led_theme_options().len() ==> (c matches Some(TrayCommand::SetLedTheme(t))
                && t == led_theme_options()[index as int].1) && final(self).led_theme
                == led_theme_options()[index as int].1
                && final(self).connected == old(self).connected && final(self).led_intensity
                == old(self).led_intensity && final(self).led_speed == old(self).led_speed
                && final(self).orientation@ == old(self).orientation@,
            index >= led_theme_options().len() ==> c is None && final(self).connected == old(
                self,
            ).connected && final(self).led_theme == old(self).led_theme && final(self).led_intensity
                == old(self).led_intensity && final(self).led_speed == old(self).led_speed
                && final(self).orientation@ == old(self).orientation@,
    {
        let themes = led_themes();
        if index < themes.len() {
            let theme = themes[index].1;
            self.led_theme = theme;
            Some(TrayCommand::SetLedTheme(theme))
        } else {
            None
        }
    }

    /// Choosing orientation choice `index`: the orientation is shown at
    /// once and asked of the daemon; an index beyond the choices does
    /// nothing.
    pub fn select_orientation(&mut self, index: usize) -> (c: Option<TrayCommand>)
        ensures
            index < orientation_options().len() ==> (c matches Some(TrayCommand::SetOrientation(o))
                && o@ == orientation_options()[index as int].1) && final(self).orientation@
                == orientation_options()[index as int].1 && final(self).connected == old(
                self,
            ).connected && final(self).led_theme == old(self).led_theme && final(self).led_intensity
                == old(self).led_intensity && final(self).led_speed == old(self).led_speed,
            index >= orientation_options().len() ==> c is None && final(self).connected == old(
                self,
            ).connected && final(self).led_theme == old(self).led_theme && final(self).led_intensity
                == old(self).led_intensity && final(self).led_speed == old(self).led_speed
                && final(self).orientation@ == old(self).orientation@,
    {
        let choices = orientations();
        if index < choices.len() {
            let name = choices[index].1;
            self.orientation = name.to_owned();
            Some(TrayCommand::SetOrientation(name.to_owned()))
        } else {
            None
        }
    }
}

impl TrayState {
    /// The LED settings sent to the daemon for a theme choice: the theme
    /// with the intensity and speed shown now.
    pub fn led_request(&self, theme: u8) -> (r: (u8, u8, u8))
        ensures
            r == (theme, self.led_intensity, self.led_speed),
    {
        (theme, self.led_intensity, self.led_speed)
    }

    /// The daemon's answer to a command: on success the shown state takes
    /// the chosen theme or orientation. Returns whether the connection is
    /// kept: a failed theme or orientation request drops it (so that it is
    /// made again), a quit request keeps it either way.
    pub fn command_answered(&mut self, command: &TrayCommand, ok: bool) -> (keep: bool)
        ensures
            keep == (ok || command is QuitDaemon),
            final(self).connected == old(self).connected,
            final(self).led_intensity == old(self).led_intensity,
            final(self).led_speed == old(self).led_speed,
            final(self).led_theme == (match command {
                TrayCommand::SetLedTheme(t) => if ok { *t } else { old(self).led_theme },
                _ => old(self).led_theme,
            }),
            final(self).orientation@ == (match command {
                TrayCommand::SetOrientation(o) => if ok { o@ } else { old(self).orientation@ },
                _ => old(self).orientation@,
            }),
    {
        match command {
            TrayCommand::SetLedTheme(t) => {
                if ok {
                    self.led_theme = *t;
                }
                ok
            },
            TrayCommand::SetOrientation(o) => {
                if ok {
                    self.orientation = o.clone();
                }
                ok
            },
            TrayCommand::QuitDaemon => true,
        }
    }
}

} // verus!
