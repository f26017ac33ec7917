//! Faces: pre-configured layouts of system information, their colour
//! themes and their complications (optional display elements that users
//! enable or disable per face, each with configurable options).

pub mod complication_names;
pub mod complication_options;
pub mod complications;
pub mod date_formats;
pub mod enabled;
pub mod kinds;
pub mod time_formats;


use vstd::prelude::*;
use crate::text::{str_eq, to_lowercase, lowercase, is_ascii_text, law_ascii_lowercase_idempotent, push_str};
use vstd::utf8::{decode_utf8, encode_utf8_decode_utf8, is_char_boundary};
use vstd::string::StringSliceAdditionalSpecFns;

verus! {

/// Color theme for face rendering (colours are RGB888).
#[derive(Debug, Clone, Copy, PartialEq, Eq, Structural)]
pub struct Theme {
    /// Primary color (highlights, interface names).
    pub primary: u32,
    /// Secondary color (accents).
    pub secondary: u32,
    /// Main text color.
    pub text: u32,
    /// Background color.
    pub background: u32,
}

/// The theme a lowercase preset name selects; unknown names select nord.
pub open spec fn preset_theme(s: Seq<char>) -> Theme {
    if s == "hacker"@ {
        Theme { primary: 0x00FF00, secondary: 0x00DD00, text: 0x00FF00, background: 0x000000 }
    } else if s == "ember"@ || s == "fire"@ {
        Theme { primary: 0xFF6B35, secondary: 0xFF4444, text: 0xFFEEDD, background: 0x1A0A00 }
    } else if s == "solarized-light"@ || s == "solarized_light"@ {
        Theme { primary: 0x268BD2, secondary: 0x859900, text: 0x073642, background: 0xFDF6E3 }
    } else if s == "solarized-dark"@ || s == "solarized_dark"@ {
        Theme { primary: 0x268BD2, secondary: 0x2AA198, text: 0xEEE8D5, background: 0x002B36 }
    } else if s == "tokyonight"@ || s == "tokyo-night"@ || s == "tokyo_night"@ {
        Theme { primary: 0x7AA2F7, secondary: 0xBB9AF7, text: 0xE0E0FF, background: 0x1A1B26 }
    } else {
        nord_theme()
    }
}

/// The nord theme (also the fallback for unknown names).
pub open spec fn nord_theme() -> Theme {
    Theme { primary: 0x88C0D0, secondary: 0x81A1C1, text: 0xECEFF4, background: 0x2E3440 }
}

/// Names of the theme presets, in the order they are listed.
pub open spec fn theme_names() -> Seq<Seq<char>> {
    seq![
        "ember"@,
        "hacker"@,
        "nord"@,
        "solarized-dark"@,
        "solarized-light"@,
        "tokyonight"@,
    ]
}

impl Theme {
    /// The theme of an already lowercased preset name.
    pub fn from_lowercase_name(name: &str) -> (t: Theme)
        ensures
            t == preset_theme(name@),
    {
        if str_eq(name, "hacker") {
            Theme { primary: 0x00FF00, secondary: 0x00DD00, text: 0x00FF00, background: 0x000000 }
        } else if str_eq(name, "ember") || str_eq(name, "fire") {
            Theme { primary: 0xFF6B35, secondary: 0xFF4444, text: 0xFFEEDD, background: 0x1A0A00 }
        } else if str_eq(name, "solarized-light") || str_eq(name, "solarized_light") {
            Theme { primary: 0x268BD2, secondary: 0x859900, text: 0x073642, background: 0xFDF6E3 }
        } else if str_eq(name, "solarized-dark") || str_eq(name, "solarized_dark") {
            Theme { primary: 0x268BD2, secondary: 0x2AA198, text: 0xEEE8D5, background: 0x002B36 }
        } else if str_eq(name, "tokyonight") || str_eq(name, "tokyo-night") || str_eq(
            name,
            "tokyo_night",
        ) {
            Theme { primary: 0x7AA2F7, secondary: 0xBB9AF7, text: 0xE0E0FF, background: 0x1A1B26 }
        } else {
            Theme { primary: 0x88C0D0, secondary: 0x81A1C1, text: 0xECEFF4, background: 0x2E3440 }
        }
    }

    /// Creates a theme from a preset name, ignoring case; unknown names
    /// fall back to nord.
    pub fn from_preset(name: &str) -> (t: Theme)
        ensures
            t == preset_theme(lowercase(name@)),
    {
        let lower = to_lowercase(name);
        Theme::from_lowercase_name(lower.as_str())
    }
}

/// A preset name selects the same theme as its lower case: for ASCII
/// names, `from_preset(name)` and `from_preset(&name.to_lowercase())`
/// agree.
pub proof fn law_preset_ignores_case(name: Seq<char>)
    requires
        is_ascii_text(name),
    ensures
        preset_theme(lowercase(lowercase(name))) == preset_theme(lowercase(name)),
{
    law_ascii_lowercase_idempotent(name);
}

/// The longest IP address label, in bytes, that the digits face shows on
/// a canvas `width` pixels wide.
pub open spec fn ip_label_limit(width: u32) -> int {
    if width < 150 {
        20
    } else {
        30
    }
}

/// The IP address label of the digits face: the address itself, or, where
/// it is longer (in bytes) than the limit for the canvas width, its first
/// limit - 3 bytes followed by "...".
pub fn ip_label(ip: &str, width: u32) -> (s: String)
    requires
        ip.spec_bytes().len() > ip_label_limit(width) ==> is_char_boundary(
            ip.spec_bytes(),
            ip_label_limit(width) - 3,
        ),
    ensures
        s@ == (if ip.spec_bytes().len() > ip_label_limit(width) {
            decode_utf8(ip.spec_bytes().subrange(0, ip_label_limit(width) - 3)) + "..."@
        } else {
            ip@
        }),
{
    let max: usize = if width < 150 {
        20
    } else {
        30
    };
    let bytes = ip.as_bytes();
    if bytes.len() > max {
        let (prefix, _rest) = ip.split_at(max - 3);
        proof {
            encode_utf8_decode_utf8(prefix@);
        }
        let mut s = prefix.to_owned();
        push_str(&mut s, "...");
        s
    } else {
        ip.to_owned()
    }
}

impl Default for Theme {
    /// The "default" preset, which is no preset name: nord.
    fn default() -> (t: Theme)
        ensures
            t == nord_theme(),
    {
        let t = Theme::from_lowercase_name("default");
        proof {
            reveal_strlit("default");
            reveal_strlit("hacker");
            reveal_strlit("ember");
            reveal_strlit("fire");
            reveal_strlit("solarized-light");
            reveal_strlit("solarized_light");
            reveal_strlit("solarized-dark");
            reveal_strlit("solarized_dark");
            reveal_strlit("tokyonight");
            reveal_strlit("tokyo-night");
            reveal_strlit("tokyo_night");
            assert("default"@.len() == 7);
            assert("default"@[0] == 'd');
            assert("hacker"@[0] == 'h');
            assert("ember"@[0] == 'e');
            assert("fire"@[0] == 'f');
            assert("solarized-light"@[0] == 's');
            assert("solarized_light"@[0] == 's');
            assert("solarized-dark"@[0] == 's');
            assert("solarized_dark"@[0] == 's');
            assert("tokyonight"@[0] == 't');
            assert("tokyo-night"@[0] == 't');
            assert("tokyo_night"@[0] == 't');
        }
        t
    }
}

/// Returns the names of the available theme presets.
pub fn available_themes() -> (names: Vec<&'static str>)
    ensures
        names@.len() == theme_names().len(),
        forall|i: int| 0 <= i < names@.len() ==> (#[trigger] names@[i])@ == theme_names()[i],
{
    let v = vec!["ember", "hacker", "nord", "solarized-dark", "solarized-light", "tokyonight"];
    v
}

/// A choice value for a complication option.
#[derive(Debug, Clone)]
pub struct ComplicationChoice {
    /// The stored value.
    pub value: String,
    /// Human-readable label.
    pub label: String,
}

impl View for ComplicationChoice {
    /// (value, label).
    type V = (Seq<char>, Seq<char>);

    open spec fn view(&self) -> (Seq<char>, Seq<char>) {
        (self.value@, self.label@)
    }
}

impl ComplicationChoice {
    /// Creates a new choice.
    pub fn new(value: &str, label: &str) -> (c: ComplicationChoice)
        ensures
            c@ == (value@, label@),
    {
        ComplicationChoice { value: value.to_owned(), label: label.to_owned() }
    }
}

/// Type of complication option value.
#[derive(Debug, Clone)]
pub enum ComplicationOptionType {
    /// A choice from a list of values.
    Choice(Vec<ComplicationChoice>),
    /// A boolean toggle.
    Boolean,
}

/// Abstract value of an option type: the list of (value, label) choices,
/// or `None` for a boolean toggle.
pub open spec fn option_type_view(t: ComplicationOptionType) -> Option<Seq<(Seq<char>, Seq<char>)>> {
    match t {
        ComplicationOptionType::Choice(v) => Some(v@.map_values(|c: ComplicationChoice| c@)),
        ComplicationOptionType::Boolean => None,
    }
}

/// Abstract value of a complication option.
pub struct OptionView {
    pub id: Seq<char>,
    pub name: Seq<char>,
    pub description: Seq<char>,
    pub choices: Option<Seq<(Seq<char>, Seq<char>)>>,
    pub default_value: Seq<char>,
}

/// An option that can be configured for a complication.
#[derive(Debug, Clone)]
pub struct ComplicationOption {
    /// Unique identifier for this option.
    pub id: String,
    /// Human-readable name.
    pub name: String,
    /// Description of what this option controls.
    pub description: String,
    /// The type of this option (choice or boolean).
    pub option_type: ComplicationOptionType,
    /// Default value for this option.
    pub default_value: String,
}

impl View for ComplicationOption {
    type V = OptionView;

    open spec fn view(&self) -> OptionView {
        OptionView {
            id: self.id@,
            name: self.name@,
            description: self.description@,
            choices: option_type_view(self.option_type),
            default_value: self.default_value@,
        }
    }
}

impl ComplicationOption {
    /// Creates a new choice-based option.
    pub fn choice(
        id: &str,
        name: &str,
        description: &str,
        choices: Vec<ComplicationChoice>,
        default: &str,
    ) -> (o: ComplicationOption)
        ensures
            o@ == (OptionView {
                id: id@,
                name: name@,
                description: description@,
                choices: Some(choices@.map_values(|c: ComplicationChoice| c@)),
                default_value: default@,
            }),
    {
        ComplicationOption {
            id: id.to_owned(),
            name: name.to_owned(),
            description: description.to_owned(),
            option_type: ComplicationOptionType::Choice(choices),
            default_value: default.to_owned(),
        }
    }
}

/// Abstract value of a complication.
pub struct ComplicationView {
    pub id: Seq<char>,
    pub name: Seq<char>,
    pub description: Seq<char>,
    pub default_enabled: bool,
    pub options: Seq<OptionView>,
}

/// A complication is an optional display element that can be enabled or
/// disabled.
#[derive(Debug, Clone)]
pub struct Complication {
    /// Unique identifier for this complication.
    pub id: String,
    /// Human-readable name.
    pub name: String,
    /// Description of what this complication shows.
    pub description: String,
    /// Whether this complication is enabled by default.
    pub default_enabled: bool,
    /// Configuration options for this complication.
    pub options: Vec<ComplicationOption>,
}

impl View for Complication {
    type V = ComplicationView;

    open spec fn view(&self) -> ComplicationView {
        ComplicationView {
            id: self.id@,
            name: self.name@,
            description: self.description@,
            default_enabled: self.default_enabled,
            options: self.options@.map_values(|o: ComplicationOption| o@),
        }
    }
}

impl Complication {
    /// Creates a new complication without options.
    pub fn new(id: &str, name: &str, description: &str, default_enabled: bool) -> (c: Complication)
        ensures
            c@ == (ComplicationView {
                id: id@,
                name: name@,
                description: description@,
                default_enabled,
                options: Seq::empty(),
            }),
    {
        let c = Complication {
            id: id.to_owned(),
            name: name.to_owned(),
            description: description.to_owned(),
            default_enabled,
            options: Vec::new(),
        };
        assert(c@.options =~= Seq::empty());
        c
    }

    /// Creates a new complication with options.
    pub fn with_options(
        id: &str,
        name: &str,
        description: &str,
        default_enabled: bool,
        options: Vec<ComplicationOption>,
    ) -> (c: Complication)
        ensures
            c@ == (ComplicationView {
                id: id@,
                name: name@,
                description: description@,
                default_enabled,
                options: options@.map_values(|o: ComplicationOption| o@),
            }),
    {
        Complication {
            id: id.to_owned(),
            name: name.to_owned(),
            description: description.to_owned(),
            default_enabled,
            options,
        }
    }
}

/// The brightness of an RGB888 colour: the sum of its three components.
pub open spec fn brightness(c: u32) -> nat {
    ((c / 0x10000) % 0x100 + (c / 0x100) % 0x100 + c % 0x100) as nat
}

/// The preset names with a light background.
pub open spec fn light_preset(s: Seq<char>) -> bool {
    s == "solarized-light"@ || s == "solarized_light"@
}

/// Every preset but solarized light puts bright text on a darker
/// background; solarized light puts dark text on a brighter background.
pub proof fn law_preset_contrast(s: Seq<char>)
    ensures
        light_preset(s) ==> brightness(preset_theme(s).background) > brightness(
            preset_theme(s).text,
        ),
        !light_preset(s) ==> brightness(preset_theme(s).background) < brightness(
            preset_theme(s).text,
        ),
{
    if light_preset(s) {
        reveal_strlit("hacker");
        reveal_strlit("ember");
        reveal_strlit("fire");
        reveal_strlit("solarized-light");
        reveal_strlit("solarized_light");
        assert("hacker"@[0] == 'h');
        assert("ember"@[0] == 'e');
        assert("fire"@[0] == 'f');
        assert("solarized-light"@[0] == 's');
        assert("solarized_light"@[0] == 's');
    }
}

/// The colours of each preset (RGB888: primary, secondary, text,
/// background), as the preset palettes define them.
pub proof fn law_preset_colours()
    ensures
        preset_theme("hacker"@) == (Theme {
            primary: 0x00FF00,
            secondary: 0x00DD00,
            text: 0x00FF00,
            background: 0x000000,
        }),
        preset_theme("ember"@) == (Theme {
            primary: 0xFF6B35,
            secondary: 0xFF4444,
            text: 0xFFEEDD,
            background: 0x1A0A00,
        }),
        preset_theme("fire"@) == preset_theme("ember"@),
        preset_theme("solarized-light"@) == (Theme {
            primary: 0x268BD2,
            secondary: 0x859900,
            text: 0x073642,
            background: 0xFDF6E3,
        }),
        preset_theme("solarized_light"@) == preset_theme("solarized-light"@),
        preset_theme("solarized-dark"@) == (Theme {
            primary: 0x268BD2,
            secondary: 0x2AA198,
            text: 0xEEE8D5,
            background: 0x002B36,
        }),
        preset_theme("solarized_dark"@) == preset_theme("solarized-dark"@),
        preset_theme("nord"@) == (Theme {
            primary: 0x88C0D0,
            secondary: 0x81A1C1,
            text: 0xECEFF4,
            background: 0x2E3440,
        }),
        preset_theme("tokyonight"@) == (Theme {
            primary: 0x7AA2F7,
            secondary: 0xBB9AF7,
            text: 0xE0E0FF,
            background: 0x1A1B26,
        }),
        preset_theme("tokyo-night"@) == preset_theme("tokyonight"@),
        preset_theme("tokyo_night"@) == preset_theme("tokyonight"@),
{
    reveal_strlit("hacker");
    reveal_strlit("ember");
    reveal_strlit("fire");
    reveal_strlit("solarized-light");
    reveal_strlit("solarized_light");
    reveal_strlit("solarized-dark");
    reveal_strlit("solarized_dark");
    reveal_strlit("nord");
    reveal_strlit("tokyonight");
    reveal_strlit("tokyo-night");
    reveal_strlit("tokyo_night");
    assert("hacker"@[0] == 'h');
    assert("ember"@[0] == 'e');
    assert("fire"@[0] == 'f');
    assert("nord"@[0] == 'n');
    assert("tokyonight"@[0] == 't');
    assert("tokyo-night"@[0] == 't');
    assert("tokyo_night"@[0] == 't');
    assert("solarized-light"@[10] == 'l');
    assert("solarized_light"@[10] == 'l');
    assert("solarized-dark"@[10] == 'd');
    assert("solarized_dark"@[10] == 'd');
    assert("solarized-light"@[9] == '-');
    assert("solarized_light"@[9] == '_');
    assert("solarized-dark"@[9] == '-');
    assert("solarized_dark"@[9] == '_');
    assert("tokyo-night"@[5] == '-');
    assert("tokyo_night"@[5] == '_');
    assert("tokyonight"@.len() == 10);
    assert("tokyo-night"@.len() == 11);
}

} // verus!
