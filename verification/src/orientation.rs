//! Display orientation support.
//!
//! The hardware only supports two orientations (landscape 0x01 and portrait
//! 0x02). Upside-down variants are achieved through software rotation of
//! the framebuffer.

use vstd::prelude::*;
use crate::error::Error;
use crate::text::{
    str_eq, to_lowercase, lowercase, lemma_lowercase_fixed, ascii_uppercase, is_ascii_text,
    law_lowercase_of_uppercase,
};
use crate::{LCD_HEIGHT, LCD_WIDTH};

verus! {

/// Display orientation.
#[derive(Debug, Clone, Copy, PartialEq, Eq, Structural)]
pub enum Orientation {
    /// Landscape mode (320x170), hardware native.
    Landscape,
    /// Portrait mode (170x320), hardware native.
    Portrait,
    /// Landscape upside-down (320x170), software rotated 180 degrees.
    LandscapeUpsideDown,
    /// Portrait upside-down (170x320), software rotated 180 degrees.
    PortraitUpsideDown,
}

impl Default for Orientation {
    fn default() -> (o: Orientation)
        ensures
            o == Orientation::Landscape,
    {
        Orientation::Landscape
    }
}

/// Whether an orientation is one of the two portrait ones.
pub open spec fn spec_is_portrait(o: Orientation) -> bool {
    o == Orientation::Portrait || o == Orientation::PortraitUpsideDown
}

/// Whether an orientation is rendered by rotating in software.
pub open spec fn spec_needs_rotation(o: Orientation) -> bool {
    o == Orientation::LandscapeUpsideDown || o == Orientation::PortraitUpsideDown
}

/// The orientation that a lowercase name denotes, if any.
pub open spec fn orientation_named(s: Seq<char>) -> Option<Orientation> {
    if s == "landscape"@ {
        Some(Orientation::Landscape)
    } else if s == "portrait"@ {
        Some(Orientation::Portrait)
    } else if s == "landscape-upside-down"@ || s == "landscape_upside_down"@ {
        Some(Orientation::LandscapeUpsideDown)
    } else if s == "portrait-upside-down"@ || s == "portrait_upside_down"@ {
        Some(Orientation::PortraitUpsideDown)
    } else {
        None
    }
}

/// The buffer after rotating the `n`-pixel image at its start by 180
/// degrees: the first `n` entries in reverse order, the rest unchanged.
pub open spec fn rotated_image(b: Seq<u16>, n: int) -> Seq<u16> {
    Seq::new(b.len(), |i: int| if i < n { b[n - 1 - i] } else { b[i] })
}

/// The name that `Display` prints for an orientation.
pub open spec fn orientation_name(o: Orientation) -> Seq<char> {
    match o {
        Orientation::Landscape => "landscape"@,
        Orientation::Portrait => "portrait"@,
        Orientation::LandscapeUpsideDown => "landscape-upside-down"@,
        Orientation::PortraitUpsideDown => "portrait-upside-down"@,
    }
}

impl Orientation {
    /// Returns the hardware orientation byte.
    pub fn hardware_byte(&self) -> (b: u8)
        ensures
            b == (if spec_is_portrait(*self) { 0x02u8 } else { 0x01u8 }),
    {
        match self {
            Orientation::Landscape | Orientation::LandscapeUpsideDown => 0x01,
            Orientation::Portrait | Orientation::PortraitUpsideDown => 0x02,
        }
    }

    /// Returns true if this orientation requires software rotation.
    pub fn needs_rotation(&self) -> (r: bool)
        ensures
            r == spec_needs_rotation(*self),
    {
        match self {
            Orientation::LandscapeUpsideDown | Orientation::PortraitUpsideDown => true,
            _ => false,
        }
    }

    /// Returns true if this is a portrait orientation.
    pub fn is_portrait(&self) -> (r: bool)
        ensures
            r == spec_is_portrait(*self),
    {
        match self {
            Orientation::Portrait | Orientation::PortraitUpsideDown => true,
            _ => false,
        }
    }

    /// Returns the display dimensions (width, height) for this orientation.
    pub fn dimensions(&self) -> (d: (u16, u16))
        ensures
            d == (if spec_is_portrait(*self) { (LCD_HEIGHT, LCD_WIDTH) } else { (
                LCD_WIDTH,
                LCD_HEIGHT,
            ) }),
    {
        if self.is_portrait() {
            (LCD_HEIGHT, LCD_WIDTH)
        } else {
            (LCD_WIDTH, LCD_HEIGHT)
        }
    }

    /// Rotates a `width` x `height` image, stored row by row at the start
    /// of `buffer`, by 180 degrees in place.
    pub fn rotate_180(buffer: &mut [u16], width: u16, height: u16)
        requires
            width as int * height as int <= old(buffer)@.len() || width as int * height as int
                == 1,
        ensures
            final(buffer)@ == rotated_image(
                old(buffer)@,
                if width as int * height as int <= old(buffer)@.len() {
                    width as int * height as int
                } else {
                    old(buffer)@.len() as int
                },
            ),
    {
        let len = buffer.len();
        let wh: usize = (width as usize) * (height as usize);
        let n: usize = if wh <= len { wh } else { len };
        let ghost orig = buffer@;
        let mut i: usize = 0;
        while i < n / 2
            invariant
                n <= buffer@.len(),
                buffer@.len() == orig.len(),
                i <= n / 2,
                forall|k: int| 0 <= k < i ==> buffer@[k] == orig[n - 1 - k],
                forall|k: int| 0 <= k < i ==> buffer@[n - 1 - k] == orig[k],
                forall|k: int| i <= k < n - i ==> buffer@[k] == orig[k],
                forall|k: int| n <= k < buffer@.len() ==> buffer@[k] == orig[k],
            decreases n / 2 - i,
        {
            let j = n - 1 - i;
            let a = buffer[i];
            let b = buffer[j];
            buffer[i] = b;
            buffer[j] = a;
            i = i + 1;
        }
        assert(buffer@ =~= rotated_image(orig, n as int));
    }

    /// Parses an orientation from an already lowercased name.
    pub fn from_lowercase_name(name: &str) -> (o: Option<Orientation>)
        ensures
            o == orientation_named(name@),
    {
        if str_eq(name, "landscape") {
            Some(Orientation::Landscape)
        } else if str_eq(name, "portrait") {
            Some(Orientation::Portrait)
        } else if str_eq(name, "landscape-upside-down") || str_eq(name, "landscape_upside_down") {
            Some(Orientation::LandscapeUpsideDown)
        } else if str_eq(name, "portrait-upside-down") || str_eq(name, "portrait_upside_down") {
            Some(Orientation::PortraitUpsideDown)
        } else {
            None
        }
    }

    /// Parses an orientation name, ignoring case.
    pub fn parse(s: &str) -> (r: Result<Orientation, Error>)
        ensures
            match orientation_named(lowercase(s@)) {
                Some(o) => r == Ok::<Orientation, Error>(o),
                None => r matches Err(Error::InvalidOrientation(t)) && t@ == s@,
            },
    {
        let lower = to_lowercase(s);
        match Orientation::from_lowercase_name(lower.as_str()) {
            Some(o) => Ok(o),
            None => Err(Error::InvalidOrientation(s.to_owned())),
        }
    }

    /// The name of the orientation as it is displayed and parsed.
    pub fn as_str(&self) -> (s: &'static str)
        ensures
            s@ == orientation_name(*self),
    {
        match self {
            Orientation::Landscape => "landscape",
            Orientation::Portrait => "portrait",
            Orientation::LandscapeUpsideDown => "landscape-upside-down",
            Orientation::PortraitUpsideDown => "portrait-upside-down",
        }
    }
}

impl core::str::FromStr for Orientation {
    type Err = Error;

    fn from_str(s: &str) -> (r: Result<Orientation, Error>)
        ensures
            match orientation_named(lowercase(s@)) {
                Some(o) => r == Ok::<Orientation, Error>(o),
                None => r matches Err(Error::InvalidOrientation(t)) && t@ == s@,
            },
    {
        Orientation::parse(s)
    }
}

/// Each orientation is parsed back from the name it is displayed under.
pub proof fn law_orientation_name_round_trip(v: Orientation)
    ensures
        orientation_named(lowercase(orientation_name(v))) == Some(v),
{
    match v {
        Orientation::Landscape => {
            reveal_strlit("landscape");
            lemma_lowercase_fixed("landscape"@);
        },
        Orientation::Portrait => {
            reveal_strlit("landscape");
            reveal_strlit("portrait");
            lemma_lowercase_fixed("portrait"@);
            assert("portrait"@ != "landscape"@) by {
                assert("portrait"@.len() != "landscape"@.len());
            }
        },
        Orientation::LandscapeUpsideDown => {
            reveal_strlit("landscape");
            reveal_strlit("landscape-upside-down");
            reveal_strlit("portrait");
            lemma_lowercase_fixed("landscape-upside-down"@);
            assert("landscape-upside-down"@ != "landscape"@) by {
                assert("landscape-upside-down"@.len() != "landscape"@.len());
            }
            assert("landscape-upside-down"@ != "portrait"@) by {
                assert("landscape-upside-down"@.len() != "portrait"@.len());
            }
        },
        Orientation::PortraitUpsideDown => {
            reveal_strlit("landscape");
            reveal_strlit("landscape-upside-down");
            reveal_strlit("landscape_upside_down");
            reveal_strlit("portrait");
            reveal_strlit("portrait-upside-down");
            lemma_lowercase_fixed("portrait-upside-down"@);
            assert("portrait-upside-down"@ != "landscape"@) by {
                assert("portrait-upside-down"@.len() != "landscape"@.len());
            }
            assert("portrait-upside-down"@ != "portrait"@) by {
                assert("portrait-upside-down"@.len() != "portrait"@.len());
            }
            assert("portrait-upside-down"@ != "landscape-upside-down"@) by {
                assert("portrait-upside-down"@.len() != "landscape-upside-down"@.len());
            }
            assert("portrait-upside-down"@ != "landscape_upside_down"@) by {
                assert("portrait-upside-down"@.len() != "landscape_upside_down"@.len());
            }
        },
    }
}

/// Rotating an image by 180 degrees twice gives the buffer back.
pub proof fn law_rotate_180_twice(b: Seq<u16>, n: int)
    requires
        0 <= n <= b.len(),
    ensures
        rotated_image(rotated_image(b, n), n) == b,
{
    assert(rotated_image(rotated_image(b, n), n) =~= b);
}

/// Each orientation is also parsed back from its displayed name in upper
/// case.
pub proof fn law_orientation_upper_case_round_trip(v: Orientation)
    ensures
        orientation_named(lowercase(ascii_uppercase(orientation_name(v)))) == Some(v),
{
    law_orientation_name_round_trip(v);
    match v {
        Orientation::Landscape => reveal_strlit("landscape"),
        Orientation::Portrait => reveal_strlit("portrait"),
        Orientation::LandscapeUpsideDown => reveal_strlit("landscape-upside-down"),
        Orientation::PortraitUpsideDown => reveal_strlit("portrait-upside-down"),
    }
    assert(is_ascii_text(orientation_name(v)));
    law_lowercase_of_uppercase(orientation_name(v));
}

} // verus!
