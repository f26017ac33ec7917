//! The control tool's complication listing: the daemon describes each
//! complication of the current face as a JSON object, and the listing
//! turns those descriptions into the lines that are printed.

use vstd::prelude::*;
use serde_json::Value;
use crate::text::{push_str, str_eq};

verus! {

/// An option as a complication description gives it: each field absent
/// where the description lacks it or holds another kind of value.
pub struct ListedOption {
    pub id: Option<String>,
    pub name: Option<String>,
    pub current_value: Option<String>,
    /// The option's type ("choice" or "range").
    pub kind: Option<String>,
    /// The bounds and step of a range option, as JSON number text.
    pub min: Option<String>,
    pub max: Option<String>,
    pub step: Option<String>,
}

/// A complication as its description gives it; `options` is absent where
/// the description holds no array of options.
pub struct ListedComplication {
    pub id: Option<String>,
    pub name: Option<String>,
    pub description: Option<String>,
    pub enabled: Option<bool>,
    pub options: Option<Vec<ListedOption>>,
}

/// Abstract value of a listed option.
pub struct ListedOptionView {
    pub id: Option<Seq<char>>,
    pub name: Option<Seq<char>>,
    pub current_value: Option<Seq<char>>,
    pub kind: Option<Seq<char>>,
    pub min: Option<Seq<char>>,
    pub max: Option<Seq<char>>,
    pub step: Option<Seq<char>>,
}

/// Abstract value of a listed complication.
pub struct ListedComplicationView {
    pub id: Option<Seq<char>>,
    pub name: Option<Seq<char>>,
    pub description: Option<Seq<char>>,
    pub enabled: Option<bool>,
    pub options: Option<Seq<ListedOptionView>>,
}

/// The characters of an optional text.
pub open spec fn opt_text(t: Option<String>) -> Option<Seq<char>> {
    match t {
        Some(s) => Some(s@),
        None => None,
    }
}

impl View for ListedOption {
    type V = ListedOptionView;

    open spec fn view(&self) -> ListedOptionView {
        ListedOptionView {
            id: opt_text(self.id),
            name: opt_text(self.name),
            current_value: opt_text(self.current_value),
            kind: opt_text(self.kind),
            min: opt_text(self.min),
            max: opt_text(self.max),
            step: opt_text(self.step),
        }
    }
}

impl View for ListedComplication {
    type V = ListedComplicationView;

    open spec fn view(&self) -> ListedComplicationView {
        ListedComplicationView {
            id: opt_text(self.id),
            name: opt_text(self.name),
            description: opt_text(self.description),
            enabled: self.enabled,
            options: match self.options {
                Some(v) => Some(v@.map_values(|o: ListedOption| o@)),
                None => None,
            },
        }
    }
}

/// The abstract value of an optional listed complication.
pub open spec fn listed_view(c: Option<ListedComplication>) -> Option<ListedComplicationView> {
    match c {
        Some(c) => Some(c@),
        None => None,
    }
}

/// What `serde_json` reads from a complication description: `None` for
/// text that is not JSON, else the fields "id", "name", "description"
/// (strings), "enabled" (a boolean) and "options" (an array whose
/// elements give "id", "name", "current_value" and "type" as strings and
/// "min", "max" and "step" as numbers).
pub uninterp spec fn json_listed_complication(text: Seq<char>) -> Option<ListedComplicationView>;

/// Reads a complication description with `serde_json::from_str` into a
/// JSON value and picks its fields (`as_str`, `as_bool`, `as_array`, and
/// for numbers `as_number` and the number's `Display` text).
///
/// Trusted: the result is the value of `json_listed_complication` on the
/// text; nothing more is claimed of the JSON reading.
#[verifier::external_body]
fn read_listed_complication(text: &str) -> (r: Option<ListedComplication>)
    ensures
        listed_view(r) == json_listed_complication(text@),
{
    let v: Value = serde_json::from_str(text).ok()?;
    let t = |o: &Value, k| o[k].as_str().map(String::from);
    Some(ListedComplication {
        id: t(&v, "id"), name: t(&v, "name"), description: t(&v, "description"),
        enabled: v["enabled"].as_bool(),
        options: v["options"].as_array().map(|a| a.iter().map(|o| {
            let [min, max, step] =
                ["min", "max", "step"].map(|k| o[k].as_number().map(ToString::to_string));
            ListedOption { id: t(o, "id"), name: t(o, "name"), current_value: t(o, "current_value"),
                kind: t(o, "type"), min, max, step }
        }).collect()),
    })
}

/// An optional text, or `d` where it is absent.
pub open spec fn text_or(t: Option<Seq<char>>, d: Seq<char>) -> Seq<char> {
    match t {
        Some(s) => s,
        None => d,
    }
}

/// The header line of the listing.
pub open spec fn listing_header(face: Seq<char>) -> Seq<char> {
    "Complications for '"@ + face + "' face:"@
}

/// The line of an option: its id, name and current value, and for a
/// range option its bounds and step (0, 100 and 1 where absent).
pub open spec fn option_line(o: ListedOptionView) -> Seq<char> {
    let base = "      - "@ + text_or(o.id, Seq::empty()) + ": "@ + text_or(o.name, Seq::empty())
        + " (current: "@ + text_or(o.current_value, Seq::empty());
    if o.kind == Some("range"@) {
        base + ", range: "@ + text_or(o.min, "0"@) + "-"@ + text_or(o.max, "100"@) + ", step: "@
            + text_or(o.step, "1"@) + ")"@
    } else {
        base + ")"@
    }
}

/// The status line of a complication: `[x]` where it is enabled, else
/// `[ ]`, then its id and name.
pub open spec fn status_line(c: ListedComplicationView) -> Seq<char> {
    (if c.enabled == Some(true) {
        "  [x] "@
    } else {
        "  [ ] "@
    }) + text_or(c.id, Seq::empty()) + " - "@ + text_or(c.name, Seq::empty())
}

/// The lines of a complication: its status line, its description, and a
/// line per option.
pub open spec fn entry_lines(c: ListedComplicationView) -> Seq<Seq<char>> {
    seq![status_line(c), "      "@ + text_or(c.description, Seq::empty())] + match c.options {
        Some(opts) => opts.map_values(|o: ListedOptionView| option_line(o)),
        None => Seq::empty(),
    }
}

/// The lines of the described complications, in order; a description
/// that could not be read gives none.
pub open spec fn listing_body(entries: Seq<Option<ListedComplicationView>>) -> Seq<Seq<char>>
    decreases entries.len(),
{
    if entries.len() == 0 {
        Seq::empty()
    } else {
        listing_body(entries.drop_last()) + match entries.last() {
            Some(c) => entry_lines(c),
            None => Seq::empty(),
        }
    }
}

/// The whole listing: the header, then "  (none available)" where there
/// are no descriptions, else the lines of each.
pub open spec fn listing_lines(face: Seq<char>, entries: Seq<Option<ListedComplicationView>>) -> Seq<
    Seq<char>,
> {
    seq![listing_header(face)] + if entries.len() == 0 {
        seq!["  (none available)"@]
    } else {
        listing_body(entries)
    }
}

/// Appends an optional text, or `d` where it is absent.
fn push_text_or(s: &mut String, t: &Option<String>, d: &str)
    ensures
        final(s)@ == old(s)@ + text_or(opt_text(*t), d@),
{
    match t {
        Some(v) => push_str(s, v.as_str()),
        None => push_str(s, d),
    }
}

/// Appends an optional text, nothing where it is absent.
fn push_text(s: &mut String, t: &Option<String>)
    ensures
        final(s)@ == old(s)@ + text_or(opt_text(*t), Seq::empty()),
{
    match t {
        Some(v) => push_str(s, v.as_str()),
        None => {
            assert(s@ + Seq::<char>::empty() =~= s@);
        },
    }
}

/// The line of one option.
fn option_text(o: &ListedOption) -> (l: String)
    ensures
        l@ == option_line(o@),
{
    let mut s = String::new();
    push_str(&mut s, "      - ");
    push_text(&mut s, &o.id);
    push_str(&mut s, ": ");
    push_text(&mut s, &o.name);
    push_str(&mut s, " (current: ");
    push_text(&mut s, &o.current_value);
    let range = match &o.kind {
        Some(k) => str_eq(k.as_str(), "range"),
        None => false,
    };
    if range {
        push_str(&mut s, ", range: ");
        push_text_or(&mut s, &o.min, "0");
        push_str(&mut s, "-");
        push_text_or(&mut s, &o.max, "100");
        push_str(&mut s, ", step: ");
        push_text_or(&mut s, &o.step, "1");
        push_str(&mut s, ")");
    } else {
        push_str(&mut s, ")");
    }
    assert(s@ =~= option_line(o@));
    s
}

/// Appends the lines of one complication.
fn push_entry_lines(lines: &mut Vec<String>, c: &ListedComplication)
    ensures
        final(lines)@.map_values(|l: String| l@) == old(lines)@.map_values(|l: String| l@)
            + entry_lines(c@),
{
    let ghost start = lines@.map_values(|l: String| l@);
    let mut status = String::new();
    let on = match c.enabled {
        Some(e) => e,
        None => false,
    };
    if on {
        push_str(&mut status, "  [x] ");
    } else {
        push_str(&mut status, "  [ ] ");
    }
    push_text(&mut status, &c.id);
    push_str(&mut status, " - ");
    push_text(&mut status, &c.name);
    assert(status@ =~= status_line(c@));
    lines.push(status);
    let mut desc = String::new();
    push_str(&mut desc, "      ");
    push_text(&mut desc, &c.description);
    lines.push(desc);
    let ghost head = seq![status_line(c@), "      "@ + text_or(c@.description, Seq::empty())];
    assert(lines@.map_values(|l: String| l@) =~= start + head);
    match &c.options {
        Some(opts) => {
            let ghost ov = opts@.map_values(|o: ListedOption| o@);
            let mut i: usize = 0;
            while i < opts.len()
                invariant
                    i <= opts@.len(),
                    ov == opts@.map_values(|o: ListedOption| o@),
                    lines@.map_values(|l: String| l@) == start + head + ov.take(i as int).map_values(
                        |o: ListedOptionView| option_line(o),
                    ),
                decreases opts@.len() - i,
            {
                let ghost prev = lines@.map_values(|l: String| l@);
                let l = option_text(&opts[i]);
                assert(l@ == option_line(ov[i as int]));
                lines.push(l);
                assert(lines@.map_values(|l: String| l@) =~= prev.push(option_line(ov[i as int])));
                assert(ov.take(i + 1) =~= ov.take(i as int).push(ov[i as int]));
                assert(ov.take(i + 1).map_values(|o: ListedOptionView| option_line(o))
                    =~= ov.take(i as int).map_values(|o: ListedOptionView| option_line(o)).push(
                    option_line(ov[i as int]),
                ));
                assert(lines@.map_values(|l: String| l@) =~= start + head + ov.take(
                    (i + 1) as int,
                ).map_values(|o: ListedOptionView| option_line(o)));
                i = i + 1;
            }
            assert(ov.take(opts@.len() as int) =~= ov);
            assert(entry_lines(c@) =~= head + ov.map_values(|o: ListedOptionView| option_line(o)));
        },
        None => {
            assert(entry_lines(c@) =~= head);
            assert(start + head =~= start + entry_lines(c@));
        },
    }
}

/// The listing of the complications of `face` from their read
/// descriptions (`None` for one that could not be read).
pub fn complication_listing_lines(face: &str, entries: &Vec<Option<ListedComplication>>) -> (lines:
    Vec<String>)
    ensures
        lines@.map_values(|l: String| l@) == listing_lines(
            face@,
            entries@.map_values(|e: Option<ListedComplication>| listed_view(e)),
        ),
{
    let ghost ev = entries@.map_values(|e: Option<ListedComplication>| listed_view(e));
    let mut lines: Vec<String> = Vec::new();
    let mut header = String::new();
    push_str(&mut header, "Complications for '");
    push_str(&mut header, face);
    push_str(&mut header, "' face:");
    lines.push(header);
    if entries.len() == 0 {
        lines.push("  (none available)".to_owned());
        assert(lines@.map_values(|l: String| l@) =~= listing_lines(face@, ev));
        return lines;
    }
    assert(lines@.map_values(|l: String| l@) =~= seq![listing_header(face@)] + listing_body(
        ev.take(0),
    ));
    let mut i: usize = 0;
    while i < entries.len()
        invariant
            i <= entries@.len(),
            ev == entries@.map_values(|e: Option<ListedComplication>| listed_view(e)),
            lines@.map_values(|l: String| l@) == seq![listing_header(face@)] + listing_body(
                ev.take(i as int),
            ),
        decreases entries@.len() - i,
    {
        let ghost before = lines@.map_values(|l: String| l@);
        match &entries[i] {
            Some(c) => push_entry_lines(&mut lines, c),
            None => {},
        }
        assert(ev.take(i + 1).drop_last() =~= ev.take(i as int));
        assert(lines@.map_values(|l: String| l@) =~= seq![listing_header(face@)] + listing_body(
            ev.take((i + 1) as int),
        ));
        i = i + 1;
    }
    assert(ev.take(entries@.len() as int) =~= ev);
    assert(lines@.map_values(|l: String| l@) =~= listing_lines(face@, ev));
    lines
}

/// The listing of the complications of `face` from the daemon's
/// descriptions, each read as JSON.
pub fn complication_listing(face: &str, descriptions: &Vec<String>) -> (lines: Vec<String>)
    ensures
        lines@.map_values(|l: String| l@) == listing_lines(
            face@,
            descriptions@.map_values(|d: String| json_listed_complication(d@)),
        ),
{
    let mut entries: Vec<Option<ListedComplication>> = Vec::new();
    let mut i: usize = 0;
    while i < descriptions.len()
        invariant
            i <= descriptions@.len(),
            entries@.map_values(|e: Option<ListedComplication>| listed_view(e))
                == descriptions@.take(i as int).map_values(
                |d: String| json_listed_complication(d@),
            ),
        decreases descriptions@.len() - i,
    {
        let ghost prev = entries@.map_values(|e: Option<ListedComplication>| listed_view(e));
        let e = read_listed_complication(descriptions[i].as_str());
        assert(listed_view(e) == json_listed_complication(descriptions@[i as int]@));
        entries.push(e);
        assert(entries@.map_values(|e: Option<ListedComplication>| listed_view(e)) =~= prev.push(
            json_listed_complication(descriptions@[i as int]@),
        ));
        assert(descriptions@.take((i + 1) as int) =~= descriptions@.take(i as int).push(
            descriptions@[i as int],
        ));
        assert(entries@.map_values(|e: Option<ListedComplication>| listed_view(e))
            =~= descriptions@.take((i + 1) as int).map_values(
            |d: String| json_listed_complication(d@),
        ));
        i = i + 1;
    }
    assert(descriptions@.take(descriptions@.len() as int) =~= descriptions@);
    complication_listing_lines(face, &entries)
}

} // verus!
