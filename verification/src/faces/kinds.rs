//! The display faces: their names and the complications each offers.
//! (How a face draws itself is left to the rendering layer.)

use vstd::prelude::*;
use crate::text::{str_eq, to_lowercase, lowercase, lemma_lowercase_fixed};
use super::{Complication, ComplicationView};
use super::complications::{
    cpu_temp, cpu_temp_view, date, date_view, disk_io, disk_io_view, ip_address, ip_address_view,
    network, network_view, time, time_view,
};
use super::date_formats;

verus! {

/// The complications of a face whose CPU temperature is shown by default
/// when `cpu_temp_on`: time, ISO date, IP address, network, disk I/O and
/// CPU temperature.
pub open spec fn standard_complications(cpu_temp_on: bool) -> Seq<ComplicationView> {
    seq![
        time_view(true),
        date_view(true, "iso"@),
        ip_address_view(true),
        network_view(true),
        disk_io_view(true),
        cpu_temp_view(cpu_temp_on),
    ]
}

/// The complications of the analogue clock face.
pub open spec fn clock_complications() -> Seq<ComplicationView> {
    seq![
        date_view(false, "short"@),
        ComplicationView {
            id: "hostname"@,
            name: "Hostname"@,
            description: "Display the system hostname"@,
            default_enabled: false,
            options: Seq::empty(),
        },
    ]
}

/// Views of a list of complications.
pub open spec fn complication_views(v: Seq<Complication>) -> Seq<ComplicationView> {
    v.map_values(|c: Complication| c@)
}

/// The standard complication list.
fn standard_list(cpu_temp_on: bool) -> (v: Vec<Complication>)
    ensures
        complication_views(v@) == standard_complications(cpu_temp_on),
{
    let v = vec![
        time(true),
        date(true, date_formats::ISO),
        ip_address(true),
        network(true),
        disk_io(true),
        cpu_temp(cpu_temp_on),
    ];
    assert(complication_views(v@) =~= standard_complications(cpu_temp_on));
    v
}

/// A face using circular arc gauges for all metrics.
pub struct ArcsFace;

impl ArcsFace {
    /// Creates a new arcs face.
    pub fn new() -> ArcsFace {
        ArcsFace
    }

    /// The name of the face.
    pub fn name(&self) -> (n: &'static str)
        ensures
            n@ == "arcs"@,
    {
        "arcs"
    }

    /// The complications the face offers (CPU temperature off by default).
    pub fn available_complications(&self) -> (v: Vec<Complication>)
        ensures
            complication_views(v@) == standard_complications(false),
    {
        standard_list(false)
    }
}

/// A text-only ASCII face.
pub struct AsciiFace;

impl AsciiFace {
    /// Creates a new ASCII face.
    pub fn new() -> AsciiFace {
        AsciiFace
    }

    /// The name of the face.
    pub fn name(&self) -> (n: &'static str)
        ensures
            n@ == "ascii"@,
    {
        "ascii"
    }

    /// The complications the face offers.
    pub fn available_complications(&self) -> (v: Vec<Complication>)
        ensures
            complication_views(v@) == standard_complications(true),
    {
        standard_list(true)
    }
}

/// A face showing large digit readouts.
pub struct DigitsFace;

impl DigitsFace {
    /// Creates a new digits face.
    pub fn new() -> DigitsFace {
        DigitsFace
    }

    /// The name of the face.
    pub fn name(&self) -> (n: &'static str)
        ensures
            n@ == "digits"@,
    {
        "digits"
    }

    /// The complications the face offers.
    pub fn available_complications(&self) -> (v: Vec<Complication>)
        ensures
            complication_views(v@) == standard_complications(true),
    {
        standard_list(true)
    }
}

/// A professional face with progress bars and graphs.
pub struct ProfessionalFace;

impl ProfessionalFace {
    /// Creates a new professional face.
    pub fn new() -> ProfessionalFace {
        ProfessionalFace
    }

    /// The name of the face.
    pub fn name(&self) -> (n: &'static str)
        ensures
            n@ == "professional"@,
    {
        "professional"
    }

    /// The complications the face offers.
    pub fn available_complications(&self) -> (v: Vec<Complication>)
        ensures
            complication_views(v@) == standard_complications(true),
    {
        standard_list(true)
    }
}

/// An analogue clock face.
pub struct ClockFace;

impl ClockFace {
    /// Creates a new clock face.
    pub fn new() -> ClockFace {
        ClockFace
    }

    /// The name of the face.
    pub fn name(&self) -> (n: &'static str)
        ensures
            n@ == "clock"@,
    {
        "clock"
    }

    /// The complications the face offers: the date (short format) and the
    /// hostname, both off by default.
    pub fn available_complications(&self) -> (v: Vec<Complication>)
        ensures
            complication_views(v@) == clock_complications(),
    {
        let v = vec![
            date(false, date_formats::SHORT),
            Complication::new("hostname", "Hostname", "Display the system hostname", false),
        ];
        assert(complication_views(v@) =~= clock_complications());
        v
    }
}

/// A detailed face with every metric.
pub struct DetailedFace;

impl DetailedFace {
    /// Creates a new detailed face.
    pub fn new() -> DetailedFace {
        DetailedFace
    }

    /// The name of the face.
    pub fn name(&self) -> (n: &'static str)
        ensures
            n@ == "detailed"@,
    {
        "detailed"
    }
}

/// A minimal face with the essentials only.
pub struct MinimalFace;

impl MinimalFace {
    /// Creates a new minimal face.
    pub fn new() -> MinimalFace {
        MinimalFace
    }

    /// The name of the face.
    pub fn name(&self) -> (n: &'static str)
        ensures
            n@ == "minimal"@,
    {
        "minimal"
    }
}

/// The faces that can be selected by name.
#[derive(Debug, Clone, Copy, PartialEq, Eq, Structural)]
pub enum FaceKind {
    Arcs,
    Ascii,
    Digits,
    Professional,
}

/// The name of a face.
pub open spec fn face_name(k: FaceKind) -> Seq<char> {
    match k {
        FaceKind::Arcs => "arcs"@,
        FaceKind::Ascii => "ascii"@,
        FaceKind::Digits => "digits"@,
        FaceKind::Professional => "professional"@,
    }
}

/// The complications a face offers.
pub open spec fn kind_complications(k: FaceKind) -> Seq<ComplicationView> {
    match k {
        FaceKind::Arcs => standard_complications(false),
        _ => standard_complications(true),
    }
}

/// The face a lowercase name selects.
pub open spec fn face_named(s: Seq<char>) -> Option<FaceKind> {
    if s == "arcs"@ {
        Some(FaceKind::Arcs)
    } else if s == "ascii"@ {
        Some(FaceKind::Ascii)
    } else if s == "digits"@ {
        Some(FaceKind::Digits)
    } else if s == "professional"@ {
        Some(FaceKind::Professional)
    } else {
        None
    }
}

impl FaceKind {
    /// The name of the face.
    pub fn name(&self) -> (n: &'static str)
        ensures
            n@ == face_name(*self),
    {
        match self {
            FaceKind::Arcs => ArcsFace::new().name(),
            FaceKind::Ascii => AsciiFace::new().name(),
            FaceKind::Digits => DigitsFace::new().name(),
            FaceKind::Professional => ProfessionalFace::new().name(),
        }
    }

    /// The complications the face offers.
    pub fn available_complications(&self) -> (v: Vec<Complication>)
        ensures
            complication_views(v@) == kind_complications(*self),
    {
        match self {
            FaceKind::Arcs => ArcsFace::new().available_complications(),
            FaceKind::Ascii => AsciiFace::new().available_complications(),
            FaceKind::Digits => DigitsFace::new().available_complications(),
            FaceKind::Professional => ProfessionalFace::new().available_complications(),
        }
    }
}

/// The face of an already lowercased name.
fn face_of_lowercase(name: &str) -> (r: Option<FaceKind>)
    ensures
        r == face_named(name@),
{
    if str_eq(name, "arcs") {
        Some(FaceKind::Arcs)
    } else if str_eq(name, "ascii") {
        Some(FaceKind::Ascii)
    } else if str_eq(name, "digits") {
        Some(FaceKind::Digits)
    } else if str_eq(name, "professional") {
        Some(FaceKind::Professional)
    } else {
        None
    }
}

/// Creates a face by name, ignoring case.
pub fn create_face(name: &str) -> (r: Option<FaceKind>)
    ensures
        r == face_named(lowercase(name@)),
{
    let lower = to_lowercase(name);
    face_of_lowercase(lower.as_str())
}

/// The names of the faces that can be selected, in display order.
pub fn available_faces() -> (names: Vec<&'static str>)
    ensures
        names@.len() == 4,
        names@[0]@ == "arcs"@,
        names@[1]@ == "ascii"@,
        names@[2]@ == "digits"@,
        names@[3]@ == "professional"@,
{
    vec!["arcs", "ascii", "digits", "professional"]
}

/// The complications of the face with a given name (ignoring case); none
/// for an unknown name.
pub fn face_complications(name: &str) -> (v: Vec<Complication>)
    ensures
        complication_views(v@) == match face_named(lowercase(name@)) {
            Some(k) => kind_complications(k),
            None => Seq::<ComplicationView>::empty(),
        },
{
    match create_face(name) {
        Some(k) => k.available_complications(),
        None => {
            let v: Vec<Complication> = Vec::new();
            assert(complication_views(v@) =~= Seq::<ComplicationView>::empty());
            v
        },
    }
}

/// Each face is created again from its name.
pub proof fn law_face_name_round_trip(v: FaceKind)
    ensures
        face_named(lowercase(face_name(v))) == Some(v),
{
    match v {
        FaceKind::Arcs => {
            reveal_strlit("arcs");
            lemma_lowercase_fixed("arcs"@);
        },
        FaceKind::Ascii => {
            reveal_strlit("arcs");
            reveal_strlit("ascii");
            lemma_lowercase_fixed("ascii"@);
            assert("ascii"@ != "arcs"@) by {
                assert("ascii"@.len() != "arcs"@.len());
            }
        },
        FaceKind::Digits => {
            reveal_strlit("arcs");
            reveal_strlit("ascii");
            reveal_strlit("digits");
            lemma_lowercase_fixed("digits"@);
            assert("digits"@ != "arcs"@) by {
                assert("digits"@.len() != "arcs"@.len());
            }
            assert("digits"@ != "ascii"@) by {
                assert("digits"@.len() != "ascii"@.len());
            }
        },
        FaceKind::Professional => {
            reveal_strlit("arcs");
            reveal_strlit("ascii");
            reveal_strlit("digits");
            reveal_strlit("professional");
            lemma_lowercase_fixed("professional"@);
            assert("professional"@ != "arcs"@) by {
                assert("professional"@.len() != "arcs"@.len());
            }
            assert("professional"@ != "ascii"@) by {
                assert("professional"@.len() != "ascii"@.len());
            }
            assert("professional"@ != "digits"@) by {
                assert("professional"@.len() != "digits"@.len());
            }
        },
    }
}

} // verus!
