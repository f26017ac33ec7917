//! LED strip protocol: 5-byte packets sent over a serial line.

use vstd::prelude::*;
use crate::error::Error;
use crate::text::{str_eq, to_lowercase, lowercase, lemma_lowercase_fixed};

verus! {

/// LED signature byte.
pub const SIGNATURE_BYTE: u8 = 0xFA;

/// LED baud rate.
pub const BAUD_RATE: u32 = 10000;

/// LED theme options.
#[derive(Debug, Clone, Copy, PartialEq, Eq, Structural)]
pub enum LedTheme {
    /// Rainbow cycling effect.
    Rainbow,
    /// Breathing/pulsing effect.
    Breathing,
    /// Solid colors cycling.
    Colors,
    /// LEDs off.
    Off,
    /// Automatic mode.
    Auto,
}

/// Wire byte of a theme.
pub open spec fn theme_byte(t: LedTheme) -> u8 {
    match t {
        LedTheme::Rainbow => 0x01,
        LedTheme::Breathing => 0x02,
        LedTheme::Colors => 0x03,
        LedTheme::Off => 0x04,
        LedTheme::Auto => 0x05,
    }
}

/// The theme a wire byte denotes, if any.
pub open spec fn theme_of_byte(b: u8) -> Option<LedTheme> {
    if b == 0x01 {
        Some(LedTheme::Rainbow)
    } else if b == 0x02 {
        Some(LedTheme::Breathing)
    } else if b == 0x03 {
        Some(LedTheme::Colors)
    } else if b == 0x04 {
        Some(LedTheme::Off)
    } else if b == 0x05 {
        Some(LedTheme::Auto)
    } else {
        None
    }
}

/// The theme a lowercase name denotes, if any.
pub open spec fn theme_named(s: Seq<char>) -> Option<LedTheme> {
    if s == "rainbow"@ {
        Some(LedTheme::Rainbow)
    } else if s == "breathing"@ {
        Some(LedTheme::Breathing)
    } else if s == "colors"@ {
        Some(LedTheme::Colors)
    } else if s == "off"@ {
        Some(LedTheme::Off)
    } else if s == "auto"@ {
        Some(LedTheme::Auto)
    } else {
        None
    }
}

/// The name of a theme as it is displayed and parsed.
pub open spec fn theme_name(t: LedTheme) -> Seq<char> {
    match t {
        LedTheme::Rainbow => "rainbow"@,
        LedTheme::Breathing => "breathing"@,
        LedTheme::Colors => "colors"@,
        LedTheme::Off => "off"@,
        LedTheme::Auto => "auto"@,
    }
}

impl Default for LedTheme {
    fn default() -> (t: LedTheme)
        ensures
            t == LedTheme::Breathing,
    {
        LedTheme::Breathing
    }
}

impl LedTheme {
    /// The byte that identifies the theme on the wire.
    pub fn byte(&self) -> (b: u8)
        ensures
            b == theme_byte(*self),
    {
        match self {
            LedTheme::Rainbow => 0x01,
            LedTheme::Breathing => 0x02,
            LedTheme::Colors => 0x03,
            LedTheme::Off => 0x04,
            LedTheme::Auto => 0x05,
        }
    }

    /// Converts a byte value to a theme.
    pub fn from_byte(value: u8) -> (r: Result<LedTheme, Error>)
        ensures
            match theme_of_byte(value) {
                Some(t) => r == Ok::<LedTheme, Error>(t),
                None => r == Err::<LedTheme, Error>(Error::InvalidTheme(value)),
            },
    {
        match value {
            0x01 => Ok(LedTheme::Rainbow),
            0x02 => Ok(LedTheme::Breathing),
            0x03 => Ok(LedTheme::Colors),
            0x04 => Ok(LedTheme::Off),
            0x05 => Ok(LedTheme::Auto),
            _ => Err(Error::InvalidTheme(value)),
        }
    }

    /// Parses an already lowercased theme name.
    pub fn from_lowercase_name(name: &str) -> (t: Option<LedTheme>)
        ensures
            t == theme_named(name@),
    {
        if str_eq(name, "rainbow") {
            Some(LedTheme::Rainbow)
        } else if str_eq(name, "breathing") {
            Some(LedTheme::Breathing)
        } else if str_eq(name, "colors") {
            Some(LedTheme::Colors)
        } else if str_eq(name, "off") {
            Some(LedTheme::Off)
        } else if str_eq(name, "auto") {
            Some(LedTheme::Auto)
        } else {
            None
        }
    }

    /// Parses a theme name, ignoring case.
    pub fn parse(s: &str) -> (r: Result<LedTheme, Error>)
        ensures
            match theme_named(lowercase(s@)) {
                Some(t) => r == Ok::<LedTheme, Error>(t),
                None => r == Err::<LedTheme, Error>(Error::InvalidTheme(0)),
            },
    {
        let lower = to_lowercase(s);
        match LedTheme::from_lowercase_name(lower.as_str()) {
            Some(t) => Ok(t),
            None => Err(Error::InvalidTheme(0)),
        }
    }

    /// The name of the theme as it is displayed and parsed.
    pub fn as_str(&self) -> (s: &'static str)
        ensures
            s@ == theme_name(*self),
    {
        match self {
            LedTheme::Rainbow => "rainbow",
            LedTheme::Breathing => "breathing",
            LedTheme::Colors => "colors",
            LedTheme::Off => "off",
            LedTheme::Auto => "auto",
        }
    }
}

impl core::str::FromStr for LedTheme {
    type Err = Error;

    fn from_str(s: &str) -> (r: Result<LedTheme, Error>)
        ensures
            match theme_named(lowercase(s@)) {
                Some(t) => r == Ok::<LedTheme, Error>(t),
                None => r == Err::<LedTheme, Error>(Error::InvalidTheme(0)),
            },
    {
        LedTheme::parse(s)
    }
}

/// Sum of the packet bytes modulo 256.
pub open spec fn checksum_of(p: Seq<u8>) -> u8 {
    ((p[0] + p[1] + p[2] + p[3]) % 256) as u8
}

/// The 5-byte packet: signature, theme, inverted intensity, inverted
/// speed, checksum of the first four.
pub open spec fn led_packet(theme_b: u8, fixed_intensity: u8, fixed_speed: u8) -> Seq<u8> {
    let base = seq![SIGNATURE_BYTE, theme_b, fixed_intensity, fixed_speed];
    base.push(checksum_of(base))
}

/// LED strip device controller: the serial port it is reached at.
pub struct LedDevice {
    port_path: String,
}

impl View for LedDevice {
    /// The port path.
    type V = Seq<char>;

    closed spec fn view(&self) -> Seq<char> {
        self.port_path@
    }
}

impl LedDevice {
    /// Creates a new LED device controller for a serial port path.
    pub fn new(port_path: &str) -> (d: LedDevice)
        ensures
            d@ == port_path@,
    {
        LedDevice { port_path: port_path.to_owned() }
    }

    /// Returns the port path.
    pub fn port_path(&self) -> (p: &str)
        ensures
            p@ == self@,
    {
        self.port_path.as_str()
    }

    /// Inverts an intensity or speed value (the device counts 5 as
    /// slowest): `6 - value` for values 1 to 5.
    pub fn fix_value(value: u8) -> (r: Result<u8, Error>)
        ensures
            1 <= value <= 5 ==> r == Ok::<u8, Error>((6 - value) as u8),
            !(1 <= value <= 5) ==> r == Err::<u8, Error>(Error::InvalidLedValue(value)),
    {
        if !(1 <= value && value <= 5) {
            return Err(Error::InvalidLedValue(value));
        }
        Ok(6 - value)
    }

    /// Checksum of the first four packet bytes: their sum, wrapping.
    pub fn checksum(packet: &[u8; 4]) -> (c: u8)
        ensures
            c == checksum_of(packet@),
    {
        let mut acc: u8 = 0;
        let mut i: usize = 0;
        while i < 4
            invariant
                i <= 4,
                acc as int == (if i == 0 {
                    0
                } else if i == 1 {
                    packet@[0] as int
                } else if i == 2 {
                    (packet@[0] + packet@[1]) % 256
                } else if i == 3 {
                    (packet@[0] + packet@[1] + packet@[2]) % 256
                } else {
                    (packet@[0] + packet@[1] + packet@[2] + packet@[3]) % 256
                }),
            decreases 4 - i,
        {
            acc = acc.wrapping_add(packet[i]);
            i = i + 1;
        }
        acc
    }

    /// Builds a 5-byte LED packet.
    pub fn build_packet(theme: LedTheme, intensity: u8, speed: u8) -> (r: Result<[u8; 5], Error>)
        ensures
            !(1 <= intensity <= 5) ==> r == Err::<[u8; 5], Error>(
                Error::InvalidLedValue(intensity),
            ),
            1 <= intensity <= 5 && !(1 <= speed <= 5) ==> r == Err::<[u8; 5], Error>(
                Error::InvalidLedValue(speed),
            ),
            1 <= intensity <= 5 && 1 <= speed <= 5 ==> (r matches Ok(p) && p@ == led_packet(
                theme_byte(theme),
                (6 - intensity) as u8,
                (6 - speed) as u8,
            )),
    {
        let fixed_intensity = LedDevice::fix_value(intensity)?;
        let fixed_speed = LedDevice::fix_value(speed)?;
        let base = [SIGNATURE_BYTE, theme.byte(), fixed_intensity, fixed_speed];
        let checksum = LedDevice::checksum(&base);
        let p = [base[0], base[1], base[2], base[3], checksum];
        assert(p@ =~= led_packet(theme_byte(theme), fixed_intensity, fixed_speed));
        Ok(p)
    }

    /// The packet that turns the LEDs off: theme Off with the fixed
    /// values 5 and 5 as sent, and its checksum.
    pub fn off_packet() -> (p: [u8; 5])
        ensures
            p@ == led_packet(theme_byte(LedTheme::Off), 0x05, 0x05),
    {
        let base = [SIGNATURE_BYTE, LedTheme::Off.byte(), 0x05, 0x05];
        let checksum = LedDevice::checksum(&base);
        let p = [base[0], base[1], base[2], base[3], checksum];
        assert(p@ =~= led_packet(theme_byte(LedTheme::Off), 0x05, 0x05));
        p
    }
}

/// Each LED theme is parsed back from the name it is displayed under.
pub proof fn law_theme_name_round_trip(v: LedTheme)
    ensures
        theme_named(lowercase(theme_name(v))) == Some(v),
{
    match v {
        LedTheme::Rainbow => {
            reveal_strlit("rainbow");
            lemma_lowercase_fixed("rainbow"@);
        },
        LedTheme::Breathing => {
            reveal_strlit("breathing");
            reveal_strlit("rainbow");
            lemma_lowercase_fixed("breathing"@);
            assert("breathing"@ != "rainbow"@) by {
                assert("breathing"@.len() != "rainbow"@.len());
            }
        },
        LedTheme::Colors => {
            reveal_strlit("breathing");
            reveal_strlit("colors");
            reveal_strlit("rainbow");
            lemma_lowercase_fixed("colors"@);
            assert("colors"@ != "rainbow"@) by {
                assert("colors"@.len() != "rainbow"@.len());
            }
            assert("colors"@ != "breathing"@) by {
                assert("colors"@.len() != "breathing"@.len());
            }
        },
        LedTheme::Off => {
            reveal_strlit("breathing");
            reveal_strlit("colors");
            reveal_strlit("off");
            reveal_strlit("rainbow");
            lemma_lowercase_fixed("off"@);
            assert("off"@ != "rainbow"@) by {
                assert("off"@.len() != "rainbow"@.len());
            }
            assert("off"@ != "breathing"@) by {
                assert("off"@.len() != "breathing"@.len());
            }
            assert("off"@ != "colors"@) by {
                assert("off"@.len() != "colors"@.len());
            }
        },
        LedTheme::Auto => {
            reveal_strlit("auto");
            reveal_strlit("breathing");
            reveal_strlit("colors");
            reveal_strlit("off");
            reveal_strlit("rainbow");
            lemma_lowercase_fixed("auto"@);
            assert("auto"@ != "rainbow"@) by {
                assert("auto"@.len() != "rainbow"@.len());
            }
            assert("auto"@ != "breathing"@) by {
                assert("auto"@.len() != "breathing"@.len());
            }
            assert("auto"@ != "colors"@) by {
                assert("auto"@.len() != "colors"@.len());
            }
            assert("auto"@ != "off"@) by {
                assert("auto"@.len() != "off"@.len());
            }
        },
    }
}

/// Each theme is read back from its wire byte.
pub proof fn law_theme_byte_round_trip(t: LedTheme)
    ensures
        theme_of_byte(theme_byte(t)) == Some(t),
{
}

/// Inverting an intensity or speed keeps it within 1-5, and inverting
/// twice gives it back.
pub proof fn law_fix_value_inverts(value: u8)
    requires
        1 <= value <= 5,
    ensures
        1 <= 6 - value <= 5,
        6 - (6 - value) == value,
{
}

/// Every LED packet starts with the signature and ends with the checksum
/// of its first four bytes.
pub proof fn law_packet_checksum(theme_b: u8, fixed_intensity: u8, fixed_speed: u8)
    ensures
        led_packet(theme_b, fixed_intensity, fixed_speed).len() == 5,
        led_packet(theme_b, fixed_intensity, fixed_speed)[0] == SIGNATURE_BYTE,
        led_packet(theme_b, fixed_intensity, fixed_speed)[4] == checksum_of(
            led_packet(theme_b, fixed_intensity, fixed_speed).take(4),
        ),
{
    let p = led_packet(theme_b, fixed_intensity, fixed_speed);
    assert(p.take(4) =~= seq![SIGNATURE_BYTE, theme_b, fixed_intensity, fixed_speed]);
}

/// The theme names in the order of their wire bytes 1 to 5.
pub open spec fn led_theme_order() -> Seq<Seq<char>> {
    seq!["rainbow"@, "breathing"@, "colors"@, "off"@, "auto"@]
}

/// A theme's wire byte is its position (from 1) in the order rainbow,
/// breathing, colors, off, auto; the bytes 1 to 5, and no others, denote
/// a theme, and a byte denotes exactly the theme whose byte it is.
pub proof fn law_theme_bytes(t: LedTheme, b: u8)
    ensures
        1 <= theme_byte(t) <= 5,
        led_theme_order()[theme_byte(t) - 1] == theme_name(t),
        theme_of_byte(b) is Some <==> 1 <= b <= 5,
        theme_of_byte(b) == Some(t) <==> theme_byte(t) == b,
{
}

} // verus!
