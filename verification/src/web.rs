//! What the web interface shows and accepts: the complication controls of
//! the current face and the LED form values. (The page markup and the
//! HTTP server belong to the program.)

use vstd::prelude::*;
use crate::faces::enabled::{enabled_in, option_of, ConfigView};
use crate::faces::kinds::{complication_views, face_name, kind_complications};
use crate::faces::{
    Complication, ComplicationChoice, ComplicationOption, ComplicationOptionType,
    ComplicationView, OptionView,
};
use crate::state::AppState;
use crate::text::str_eq;

verus! {

/// An option control: its id and name, its current value and the choices
/// offered, as (value, label) pairs.
pub struct ComplicationOptionItem {
    pub id: String,
    pub name: String,
    pub current_value: String,
    pub choices: Vec<(String, String)>,
}

/// A complication control of the current face.
pub struct ComplicationItem {
    pub id: String,
    pub name: String,
    pub description: String,
    pub enabled: bool,
    pub options: Vec<ComplicationOptionItem>,
}

/// Abstract value of an option control.
pub struct OptionItemView {
    pub id: Seq<char>,
    pub name: Seq<char>,
    pub current_value: Seq<char>,
    pub choices: Seq<(Seq<char>, Seq<char>)>,
}

/// Abstract value of a complication control.
pub struct ItemView {
    pub id: Seq<char>,
    pub name: Seq<char>,
    pub description: Seq<char>,
    pub enabled: bool,
    pub options: Seq<OptionItemView>,
}

/// Views of (value, label) pairs.
pub open spec fn pair_views(v: Seq<(String, String)>) -> Seq<(Seq<char>, Seq<char>)> {
    v.map_values(|p: (String, String)| (p.0@, p.1@))
}

impl View for ComplicationOptionItem {
    type V = OptionItemView;

    open spec fn view(&self) -> OptionItemView {
        OptionItemView {
            id: self.id@,
            name: self.name@,
            current_value: self.current_value@,
            choices: pair_views(self.choices@),
        }
    }
}

impl View for ComplicationItem {
    type V = ItemView;

    open spec fn view(&self) -> ItemView {
        ItemView {
            id: self.id@,
            name: self.name@,
            description: self.description@,
            enabled: self.enabled,
            options: self.options@.map_values(|o: ComplicationOptionItem| o@),
        }
    }
}

/// The choices of the network interface option: auto-detection, then each
/// available interface under its own name.
pub open spec fn interface_choices(ifaces: Seq<String>) -> Seq<(Seq<char>, Seq<char>)> {
    seq![("auto"@, "Auto-detect"@)] + ifaces.map_values(|s: String| (s@, s@))
}

/// The choices of a yes/no option.
pub open spec fn boolean_choices() -> Seq<(Seq<char>, Seq<char>)> {
    seq![("true"@, "Yes"@), ("false"@, "No"@)]
}

/// The control of option `o` of complication `c` on `face`: the value set
/// for it or its default, and its choices (the interfaces for the network
/// interface option).
pub open spec fn option_item(
    m: Map<Seq<char>, Map<Seq<char>, ConfigView>>,
    face: Seq<char>,
    c: ComplicationView,
    o: OptionView,
    ifaces: Seq<String>,
) -> OptionItemView {
    OptionItemView {
        id: o.id,
        name: o.name,
        current_value: match option_of(m, face, c.id, o.id) {
            Some(v) => v,
            None => o.default_value,
        },
        choices: match o.choices {
            Some(ch) => if c.id == "network"@ && o.id == "interface"@ {
                interface_choices(ifaces)
            } else {
                ch
            },
            None => boolean_choices(),
        },
    }
}

/// The control of complication `c` on `face`.
pub open spec fn complication_item(
    m: Map<Seq<char>, Map<Seq<char>, ConfigView>>,
    face: Seq<char>,
    c: ComplicationView,
    ifaces: Seq<String>,
) -> ItemView {
    ItemView {
        id: c.id,
        name: c.name,
        description: c.description,
        enabled: enabled_in(m, face, c.id, false),
        options: Seq::new(c.options.len(), |j: int| option_item(m, face, c, c.options[j], ifaces)),
    }
}

/// A copy of a list of (value, label) choices.
fn copy_choices(v: &Vec<ComplicationChoice>) -> (r: Vec<(String, String)>)
    ensures
        pair_views(r@) == v@.map_values(|c: ComplicationChoice| c@),
{
    let mut r: Vec<(String, String)> = Vec::new();
    let mut i: usize = 0;
    while i < v.len()
        invariant
            i <= v@.len(),
            pair_views(r@) == v@.take(i as int).map_values(|c: ComplicationChoice| c@),
        decreases v@.len() - i,
    {
        let ghost r0 = r@;
        let e = (v[i].value.clone(), v[i].label.clone());
        r.push(e);
        proof {
            assert(r@ =~= r0.push(e));
            assert(pair_views(r@) =~= pair_views(r0).push((e.0@, e.1@)));
            assert(v@.take(i + 1) =~= v@.take(i as int).push(v@[i as int]));
            assert(v@.take(i + 1).map_values(|c: ComplicationChoice| c@) =~= v@.take(
                i as int,
            ).map_values(|c: ComplicationChoice| c@).push(v@[i as int]@));
        }
        i = i + 1;
    }
    assert(v@.take(v@.len() as int) =~= v@);
    r
}

/// The choices of the network interface option.
fn interface_choice_list(ifaces: &Vec<String>) -> (r: Vec<(String, String)>)
    ensures
        pair_views(r@) == interface_choices(ifaces@),
{
    let mut r: Vec<(String, String)> = vec![("auto".to_owned(), "Auto-detect".to_owned())];
    let mut i: usize = 0;
    while i < ifaces.len()
        invariant
            i <= ifaces@.len(),
            pair_views(r@) == seq![("auto"@, "Auto-detect"@)] + ifaces@.take(i as int).map_values(
                |s: String| (s@, s@),
            ),
        decreases ifaces@.len() - i,
    {
        let ghost r0 = r@;
        let e = (ifaces[i].clone(), ifaces[i].clone());
        r.push(e);
        proof {
            assert(r@ =~= r0.push(e));
            assert(pair_views(r@) =~= pair_views(r0).push((e.0@, e.1@)));
            assert(ifaces@.take(i + 1) =~= ifaces@.take(i as int).push(ifaces@[i as int]));
            assert(ifaces@.take(i + 1).map_values(|s: String| (s@, s@)) =~= ifaces@.take(
                i as int,
            ).map_values(|s: String| (s@, s@)).push((ifaces@[i as int]@, ifaces@[i as int]@)));
            assert(seq![("auto"@, "Auto-detect"@)] + ifaces@.take(i + 1).map_values(
                |s: String| (s@, s@),
            ) =~= (seq![("auto"@, "Auto-detect"@)] + ifaces@.take(i as int).map_values(
                |s: String| (s@, s@),
            )).push((ifaces@[i as int]@, ifaces@[i as int]@)));
        }
        i = i + 1;
    }
    assert(ifaces@.take(ifaces@.len() as int) =~= ifaces@);
    r
}

/// The control of one option.
fn option_control(
    state: &AppState,
    c: &Complication,
    o: &ComplicationOption,
    ifaces: &Vec<String>,
) -> (r: ComplicationOptionItem)
    ensures
        r@ == option_item(state@.complications, face_name(state@.face), c@, o@, ifaces@),
{
    let face = state.face_name();
    let current_value = match state.complications().get_option(face, c.id.as_str(), o.id.as_str()) {
        Some(v) => v.clone(),
        None => o.default_value.clone(),
    };
    let choices = match &o.option_type {
        ComplicationOptionType::Choice(ch) => {
            if str_eq(c.id.as_str(), "network") && str_eq(o.id.as_str(), "interface") {
                interface_choice_list(ifaces)
            } else {
                copy_choices(ch)
            }
        },
        ComplicationOptionType::Boolean => {
            let r = vec![("true".to_owned(), "Yes".to_owned()), ("false".to_owned(), "No".to_owned())];
            assert(pair_views(r@) =~= boolean_choices());
            r
        },
    };
    ComplicationOptionItem { id: o.id.clone(), name: o.name.clone(), current_value, choices }
}

/// The complication controls of the current face, in the face's order,
/// given the available network interfaces.
pub fn complication_items(state: &AppState, interfaces: &Vec<String>) -> (items: Vec<
    ComplicationItem,
>)
    ensures
        items@.len() == kind_complications(state@.face).len(),
        forall|i: int|
            0 <= i < items@.len() ==> (#[trigger] items@[i])@ == complication_item(
                state@.complications,
                face_name(state@.face),
                kind_complications(state@.face)[i],
                interfaces@,
            ),
{
    let available = state.available_complications();
    let ghost views = complication_views(available@);
    let ghost m = state@.complications;
    let ghost f = face_name(state@.face);
    let face = state.face_name();
    let mut items: Vec<ComplicationItem> = Vec::new();
    let mut i: usize = 0;
    while i < available.len()
        invariant
            views == complication_views(available@),
            views == kind_complications(state@.face),
            m == state@.complications,
            f == face_name(state@.face),
            face@ == f,
            i <= available@.len(),
            items@.len() == i,
            forall|k: int|
                0 <= k < i ==> (#[trigger] items@[k])@ == complication_item(
                    m,
                    f,
                    views[k],
                    interfaces@,
                ),
        decreases available@.len() - i,
    {
        let c = &available[i];
        assert(views[i as int] == c@);
        let mut options: Vec<ComplicationOptionItem> = Vec::new();
        let mut j: usize = 0;
        while j < c.options.len()
            invariant
                c@ == views[i as int],
                m == state@.complications,
                f == face_name(state@.face),
                j <= c.options@.len(),
                options@.len() == j,
                forall|k: int|
                    0 <= k < j ==> (#[trigger] options@[k])@ == option_item(
                        m,
                        f,
                        c@,
                        c@.options[k],
                        interfaces@,
                    ),
            decreases c.options@.len() - j,
        {
            assert(c@.options[j as int] == c.options@[j as int]@);
            options.push(option_control(state, c, &c.options[j], interfaces));
            j = j + 1;
        }
        let item = ComplicationItem {
            id: c.id.clone(),
            name: c.name.clone(),
            description: c.description.clone(),
            enabled: state.complications().is_enabled(face, c.id.as_str(), false),
            options,
        };
        assert(item@.options =~= Seq::new(
            c@.options.len(),
            |j: int| option_item(m, f, c@, c@.options[j], interfaces@),
        ));
        items.push(item);
        i = i + 1;
    }
    items
}

/// The LED form values, each clamped to 1-5.
pub fn clamp_led_form(theme: u8, intensity: u8, speed: u8) -> (r: (u8, u8, u8))
    ensures
        r.0 == (if theme < 1 { 1 } else if theme > 5 { 5 } else { theme }),
        r.1 == (if intensity < 1 { 1 } else if intensity > 5 { 5 } else { intensity }),
        r.2 == (if speed < 1 { 1 } else if speed > 5 { 5 } else { speed }),
{
    let t = if theme < 1 { 1 } else if theme > 5 { 5 } else { theme };
    let i = if intensity < 1 { 1 } else if intensity > 5 { 5 } else { intensity };
    let s = if speed < 1 { 1 } else if speed > 5 { 5 } else { speed };
    (t, i, s)
}

} // verus!
