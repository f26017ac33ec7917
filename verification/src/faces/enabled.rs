//! Per-face complication settings: which complications are enabled and
//! the values of their options.
//!
//! Each table is a list of (key, value) entries in which a later entry
//! for a key replaces earlier ones, so appending an entry is inserting it
//! into the table.

use vstd::prelude::*;
use crate::text::str_eq;
use super::{Complication, ComplicationOption, ComplicationView, OptionView};
use super::kinds::{complication_views, face_name, kind_complications, FaceKind};

verus! {

/// The value of the last entry with key `k`, if any.
pub open spec fn lookup<V>(s: Seq<(String, V)>, k: Seq<char>) -> Option<V>
    decreases s.len(),
{
    if s.len() == 0 {
        None
    } else if s.last().0@ == k {
        Some(s.last().1)
    } else {
        lookup(s.drop_last(), k)
    }
}

/// Entry `i` is the last one with key `k`.
pub open spec fn is_last_key<V>(s: Seq<(String, V)>, i: int, k: Seq<char>) -> bool {
    &&& 0 <= i < s.len()
    &&& s[i].0@ == k
    &&& forall|j: int| i < j < s.len() ==> s[j].0@ != k
}

/// The table that a list of string entries denotes.
pub open spec fn string_table(s: Seq<(String, String)>) -> Map<Seq<char>, Seq<char>> {
    Map::new(|k: Seq<char>| lookup(s, k) is Some, |k: Seq<char>| lookup(s, k).unwrap()@)
}

proof fn lemma_lookup_last<V>(s: Seq<(String, V)>, i: int, k: Seq<char>)
    requires
        is_last_key(s, i, k),
    ensures
        lookup(s, k) == Some(s[i].1),
    decreases s.len(),
{
    if i < s.len() - 1 {
        lemma_lookup_last(s.drop_last(), i, k);
    }
}

proof fn lemma_lookup_none<V>(s: Seq<(String, V)>, k: Seq<char>)
    requires
        forall|j: int| 0 <= j < s.len() ==> s[j].0@ != k,
    ensures
        lookup(s, k) is None,
    decreases s.len(),
{
    if s.len() > 0 {
        lemma_lookup_none(s.drop_last(), k);
    }
}

proof fn lemma_lookup_update<V>(s: Seq<(String, V)>, i: int, k: Seq<char>, e: (String, V), k2: Seq<
    char,
>)
    requires
        is_last_key(s, i, k),
        e.0@ == k,
    ensures
        lookup(s.update(i, e), k2) == (if k2 == k {
            Some(e.1)
        } else {
            lookup(s, k2)
        }),
    decreases s.len(),
{
    let t = s.update(i, e);
    if i == s.len() - 1 {
        assert(t.drop_last() =~= s.drop_last());
    } else {
        assert(t.drop_last() =~= s.drop_last().update(i, e));
        lemma_lookup_update(s.drop_last(), i, k, e, k2);
    }
}

/// Position of the last entry with key `k`.
fn find_last<V>(v: &Vec<(String, V)>, k: &str) -> (r: Option<usize>)
    ensures
        match r {
            Some(i) => is_last_key(v@, i as int, k@),
            None => forall|j: int| 0 <= j < v@.len() ==> v@[j].0@ != k@,
        },
{
    let mut i = v.len();
    while i > 0
        invariant
            i <= v@.len(),
            forall|j: int| i <= j < v@.len() ==> v@[j].0@ != k@,
        decreases i,
    {
        i = i - 1;
        if str_eq(v[i].0.as_str(), k) {
            return Some(i);
        }
    }
    None
}

/// Abstract value of a complication configuration.
pub struct ConfigView {
    pub enabled: bool,
    pub options: Map<Seq<char>, Seq<char>>,
}

/// Configuration for a single complication instance.
#[derive(Debug, Clone)]
pub struct ComplicationConfig {
    /// Whether this complication is enabled.
    pub enabled: bool,
    /// Option values for this complication (a later entry for an option
    /// replaces earlier ones).
    pub options: Vec<(String, String)>,
}

impl View for ComplicationConfig {
    type V = ConfigView;

    open spec fn view(&self) -> ConfigView {
        ConfigView { enabled: self.enabled, options: string_table(self.options@) }
    }
}

impl Default for ComplicationConfig {
    fn default() -> (c: ComplicationConfig)
        ensures
            !c.enabled,
            c@.options == Map::<Seq<char>, Seq<char>>::empty(),
    {
        let c = ComplicationConfig { enabled: false, options: Vec::new() };
        assert(c@.options =~= Map::<Seq<char>, Seq<char>>::empty());
        c
    }
}

/// The table of complication configurations of one face.
pub open spec fn config_table(s: Seq<(String, ComplicationConfig)>) -> Map<Seq<char>, ConfigView> {
    Map::new(|k: Seq<char>| lookup(s, k) is Some, |k: Seq<char>| lookup(s, k).unwrap()@)
}

/// The option defaults of a complication, later options replacing earlier
/// ones with the same id.
pub open spec fn option_defaults(opts: Seq<OptionView>) -> Map<Seq<char>, Seq<char>>
    decreases opts.len(),
{
    if opts.len() == 0 {
        Map::empty()
    } else {
        option_defaults(opts.drop_last()).insert(opts.last().id, opts.last().default_value)
    }
}

/// The configurations that a face's complication list starts with: each
/// enabled as by default, with its options at their defaults; later
/// complications replace earlier ones with the same id.
pub open spec fn default_configs(comps: Seq<ComplicationView>) -> Map<Seq<char>, ConfigView>
    decreases comps.len(),
{
    if comps.len() == 0 {
        Map::empty()
    } else {
        default_configs(comps.drop_last()).insert(
            comps.last().id,
            ConfigView {
                enabled: comps.last().default_enabled,
                options: option_defaults(comps.last().options),
            },
        )
    }
}

/// The configurations of `face` in a settings table, empty when the face
/// has none.
pub open spec fn face_configs(
    m: Map<Seq<char>, Map<Seq<char>, ConfigView>>,
    face: Seq<char>,
) -> Map<Seq<char>, ConfigView> {
    if m.contains_key(face) {
        m[face]
    } else {
        Map::empty()
    }
}

/// The per-face table that a list of face entries denotes.
pub open spec fn faces_table(s: Seq<(String, Vec<(String, ComplicationConfig)>)>) -> Map<
    Seq<char>,
    Map<Seq<char>, ConfigView>,
> {
    Map::new(|f: Seq<char>| lookup(s, f) is Some, |f: Seq<char>| config_table(lookup(s, f).unwrap()@))
}

/// The configuration of `id` in a face's table, or the default one
/// (disabled, no options) when it has none.
pub open spec fn config_or_default(m: Map<Seq<char>, ConfigView>, id: Seq<char>) -> ConfigView {
    if m.contains_key(id) {
        m[id]
    } else {
        ConfigView { enabled: false, options: Map::empty() }
    }
}

/// Set of enabled complications with their configurations, per face.
#[derive(Debug, Clone)]
pub struct EnabledComplications {
    /// Per face name, the configurations by complication id (later entries
    /// replace earlier ones).
    face_complications: Vec<(String, Vec<(String, ComplicationConfig)>)>,
}

impl View for EnabledComplications {
    /// Face name -> complication id -> configuration.
    type V = Map<Seq<char>, Map<Seq<char>, ConfigView>>;

    closed spec fn view(&self) -> Map<Seq<char>, Map<Seq<char>, ConfigView>> {
        faces_table(self.face_complications@)
    }
}

proof fn lemma_lookup_push<V>(s: Seq<(String, V)>, e: (String, V), k: Seq<char>)
    ensures
        lookup(s.push(e), k) == (if k == e.0@ {
            Some(e.1)
        } else {
            lookup(s, k)
        }),
{
    assert(s.push(e).drop_last() =~= s);
}

proof fn lemma_lookup_some<V>(s: Seq<(String, V)>, k: Seq<char>)
    requires
        lookup(s, k) is Some,
    ensures
        exists|j: int| is_last_key(s, j, k) && s[j].1 == lookup(s, k).unwrap(),
    decreases s.len(),
{
    if s.last().0@ == k {
        assert(is_last_key(s, s.len() - 1, k));
    } else {
        lemma_lookup_some(s.drop_last(), k);
        let j = choose|j: int| is_last_key(s.drop_last(), j, k) && s.drop_last()[j].1 == lookup(
            s.drop_last(),
            k,
        ).unwrap();
        assert(s.drop_last()[j] == s[j]);
        assert forall|x: int| j < x < s.len() implies s[x].0@ != k by {
            if x < s.len() - 1 {
                assert(s.drop_last()[x] == s[x]);
            }
        }
        assert(is_last_key(s, j, k));
    }
}

proof fn lemma_string_table_push(s: Seq<(String, String)>, e: (String, String))
    ensures
        string_table(s.push(e)) == string_table(s).insert(e.0@, e.1@),
{
    assert forall|k: Seq<char>| #![auto] lookup(s.push(e), k) == (if k == e.0@ {
        Some(e.1)
    } else {
        lookup(s, k)
    }) by {
        lemma_lookup_push(s, e, k);
    }
    assert(string_table(s.push(e)) =~= string_table(s).insert(e.0@, e.1@));
}

proof fn lemma_string_table_update(s: Seq<(String, String)>, i: int, e: (String, String))
    requires
        is_last_key(s, i, e.0@),
    ensures
        string_table(s.update(i, e)) == string_table(s).insert(e.0@, e.1@),
{
    assert forall|k: Seq<char>| #![auto] lookup(s.update(i, e), k) == (if k == e.0@ {
        Some(e.1)
    } else {
        lookup(s, k)
    }) by {
        lemma_lookup_update(s, i, e.0@, e, k);
    }
    assert(string_table(s.update(i, e)) =~= string_table(s).insert(e.0@, e.1@));
}

proof fn lemma_config_table_push(s: Seq<(String, ComplicationConfig)>, e: (String, ComplicationConfig))
    ensures
        config_table(s.push(e)) == config_table(s).insert(e.0@, e.1@),
{
    assert forall|k: Seq<char>| #![auto] lookup(s.push(e), k) == (if k == e.0@ {
        Some(e.1)
    } else {
        lookup(s, k)
    }) by {
        lemma_lookup_push(s, e, k);
    }
    assert(config_table(s.push(e)) =~= config_table(s).insert(e.0@, e.1@));
}

proof fn lemma_config_table_update(
    s: Seq<(String, ComplicationConfig)>,
    i: int,
    e: (String, ComplicationConfig),
)
    requires
        is_last_key(s, i, e.0@),
    ensures
        config_table(s.update(i, e)) == config_table(s).insert(e.0@, e.1@),
{
    assert forall|k: Seq<char>| #![auto] lookup(s.update(i, e), k) == (if k == e.0@ {
        Some(e.1)
    } else {
        lookup(s, k)
    }) by {
        lemma_lookup_update(s, i, e.0@, e, k);
    }
    assert(config_table(s.update(i, e)) =~= config_table(s).insert(e.0@, e.1@));
}

/// A fresh configuration with no options.
fn plain_config(enabled: bool) -> (c: ComplicationConfig)
    ensures
        c@ == (ConfigView { enabled, options: Map::empty() }),
{
    let c = ComplicationConfig { enabled, options: Vec::new() };
    assert(c@.options =~= Map::<Seq<char>, Seq<char>>::empty());
    c
}

proof fn lemma_faces_push(
    s: Seq<(String, Vec<(String, ComplicationConfig)>)>,
    e: (String, Vec<(String, ComplicationConfig)>),
)
    ensures
        faces_table(s.push(e)) == faces_table(s).insert(e.0@, config_table(e.1@)),
{
    assert forall|k: Seq<char>| #![auto] lookup(s.push(e), k) == (if k == e.0@ {
        Some(e.1)
    } else {
        lookup(s, k)
    }) by {
        lemma_lookup_push(s, e, k);
    }
    assert(faces_table(s.push(e)) =~= faces_table(s).insert(e.0@, config_table(e.1@)));
}

proof fn lemma_faces_update(
    s: Seq<(String, Vec<(String, ComplicationConfig)>)>,
    i: int,
    e: (String, Vec<(String, ComplicationConfig)>),
)
    requires
        is_last_key(s, i, e.0@),
    ensures
        faces_table(s.update(i, e)) == faces_table(s).insert(e.0@, config_table(e.1@)),
{
    assert forall|k: Seq<char>| #![auto] lookup(s.update(i, e), k) == (if k == e.0@ {
        Some(e.1)
    } else {
        lookup(s, k)
    }) by {
        lemma_lookup_update(s, i, e.0@, e, k);
    }
    assert(faces_table(s.update(i, e)) =~= faces_table(s).insert(e.0@, config_table(e.1@)));
}

/// Makes sure that `v` has an entry for `id`, appending a disabled one with
/// no options when it has none; returns the position of the last entry
/// for `id`.
fn ensure_config(v: &mut Vec<(String, ComplicationConfig)>, id: &str) -> (j: usize)
    ensures
        is_last_key(final(v)@, j as int, id@),
        final(v)@[j as int].1@ == config_or_default(config_table(old(v)@), id@),
        config_table(final(v)@) == config_table(old(v)@).insert(
            id@,
            config_or_default(config_table(old(v)@), id@),
        ),
{
    match find_last(v, id) {
        Some(j) => {
            proof {
                lemma_lookup_last(v@, j as int, id@);
                assert(config_table(v@).insert(id@, v@[j as int].1@) =~= config_table(v@));
            }
            j
        },
        None => {
            proof {
                lemma_lookup_none(v@, id@);
            }
            let ghost s0 = v@;
            let e = (id.to_owned(), plain_config(false));
            let ghost eg = e;
            v.push(e);
            proof {
                lemma_config_table_push(s0, eg);
            }
            v.len() - 1
        },
    }
}

/// Sets option `k` of a list of option entries to `value`, in place when
/// the option is present.
fn set_string(v: &mut Vec<(String, String)>, k: &str, value: String)
    ensures
        string_table(final(v)@) == string_table(old(v)@).insert(k@, value@),
{
    let ghost s0 = v@;
    match find_last(v, k) {
        Some(j) => {
            let (name, _) = v.remove(j);
            let e = (name, value);
            let ghost eg = e;
            v.insert(j, e);
            proof {
                assert(v@ =~= s0.update(j as int, eg));
                lemma_string_table_update(s0, j as int, eg);
            }
        },
        None => {
            let e = (k.to_owned(), value);
            let ghost eg = e;
            v.push(e);
            proof {
                lemma_string_table_push(s0, eg);
            }
        },
    }
}

/// The configuration entries of a complication list, each enabled as by
/// default and with its options at their defaults.
fn default_options(opts: &Vec<ComplicationOption>) -> (v: Vec<(String, String)>)
    ensures
        string_table(v@) == option_defaults(opts@.map_values(|o: ComplicationOption| o@)),
{
    let mut v: Vec<(String, String)> = Vec::new();
    let mut i: usize = 0;
    proof {
        assert(string_table(v@) =~= Map::<Seq<char>, Seq<char>>::empty());
        assert(opts@.map_values(|o: ComplicationOption| o@).take(0) =~= Seq::<OptionView>::empty());
    }
    while i < opts.len()
        invariant
            i <= opts@.len(),
            string_table(v@) == option_defaults(
                opts@.map_values(|o: ComplicationOption| o@).take(i as int),
            ),
        decreases opts@.len() - i,
    {
        let ghost s0 = v@;
        let e = (opts[i].id.clone(), opts[i].default_value.clone());
        let ghost eg = e;
        v.push(e);
        proof {
            lemma_string_table_push(s0, eg);
            let ov = opts@.map_values(|o: ComplicationOption| o@);
            assert(ov.take(i + 1).drop_last() =~= ov.take(i as int));
        }
        i = i + 1;
    }
    proof {
        let ov = opts@.map_values(|o: ComplicationOption| o@);
        assert(ov.take(i as int) =~= ov);
    }
    v
}

/// The configuration entries of a face's complications at their defaults.
fn default_entries(comps: &Vec<Complication>) -> (v: Vec<(String, ComplicationConfig)>)
    ensures
        config_table(v@) == default_configs(comps@.map_values(|c: Complication| c@)),
{
    let mut v: Vec<(String, ComplicationConfig)> = Vec::new();
    let mut i: usize = 0;
    proof {
        assert(config_table(v@) =~= Map::<Seq<char>, ConfigView>::empty());
        assert(comps@.map_values(|c: Complication| c@).take(0) =~= Seq::<ComplicationView>::empty());
    }
    while i < comps.len()
        invariant
            i <= comps@.len(),
            config_table(v@) == default_configs(
                comps@.map_values(|c: Complication| c@).take(i as int),
            ),
        decreases comps@.len() - i,
    {
        let ghost s0 = v@;
        let options = default_options(&comps[i].options);
        let e = (comps[i].id.clone(), ComplicationConfig { enabled: comps[i].default_enabled, options });
        let ghost eg = e;
        v.push(e);
        proof {
            lemma_config_table_push(s0, eg);
            let cv = comps@.map_values(|c: Complication| c@);
            assert(cv.take(i + 1).drop_last() =~= cv.take(i as int));
        }
        i = i + 1;
    }
    proof {
        let cv = comps@.map_values(|c: Complication| c@);
        assert(cv.take(i as int) =~= cv);
    }
    v
}

/// The value of option `opt` of complication `id` on `face`, if set.
pub open spec fn option_of(
    m: Map<Seq<char>, Map<Seq<char>, ConfigView>>,
    face: Seq<char>,
    id: Seq<char>,
    opt: Seq<char>,
) -> Option<Seq<char>> {
    let c = face_configs(m, face);
    if c.contains_key(id) && c[id].options.contains_key(opt) {
        Some(c[id].options[opt])
    } else {
        None
    }
}

/// Whether complication `id` is enabled on `face`, `default` when the face
/// has no setting for it.
pub open spec fn enabled_in(
    m: Map<Seq<char>, Map<Seq<char>, ConfigView>>,
    face: Seq<char>,
    id: Seq<char>,
    default: bool,
) -> bool {
    if face_configs(m, face).contains_key(id) {
        face_configs(m, face)[id].enabled
    } else {
        default
    }
}

/// The settings with complication `id` of `face` enabled or disabled, its
/// options kept.
pub open spec fn with_enabled(
    m: Map<Seq<char>, Map<Seq<char>, ConfigView>>,
    face: Seq<char>,
    id: Seq<char>,
    enabled: bool,
) -> Map<Seq<char>, Map<Seq<char>, ConfigView>> {
    let c = config_or_default(face_configs(m, face), id);
    m.insert(face, face_configs(m, face).insert(id, ConfigView { enabled, options: c.options }))
}

/// The settings with option `opt` of complication `id` of `face` set to
/// `value`, everything else kept.
pub open spec fn with_option(
    m: Map<Seq<char>, Map<Seq<char>, ConfigView>>,
    face: Seq<char>,
    id: Seq<char>,
    opt: Seq<char>,
    value: Seq<char>,
) -> Map<Seq<char>, Map<Seq<char>, ConfigView>> {
    let c = config_or_default(face_configs(m, face), id);
    m.insert(
        face,
        face_configs(m, face).insert(
            id,
            ConfigView { enabled: c.enabled, options: c.options.insert(opt, value) },
        ),
    )
}

/// Enabling or disabling a complication is what `is_enabled` then reports,
/// whatever its default.
pub proof fn law_set_enabled_then_is_enabled(
    m: Map<Seq<char>, Map<Seq<char>, ConfigView>>,
    face: Seq<char>,
    id: Seq<char>,
    enabled: bool,
    default: bool,
)
    ensures
        enabled_in(with_enabled(m, face, id, enabled), face, id, default) == enabled,
{
}

/// Enabling or disabling a complication leaves every other complication,
/// on every face, as it was, and keeps the complication's options.
pub proof fn law_set_enabled_keeps_others(
    m: Map<Seq<char>, Map<Seq<char>, ConfigView>>,
    face: Seq<char>,
    id: Seq<char>,
    enabled: bool,
    face2: Seq<char>,
    id2: Seq<char>,
    opt: Seq<char>,
    default: bool,
)
    ensures
        face2 != face || id2 != id ==> enabled_in(with_enabled(m, face, id, enabled), face2, id2, default)
            == enabled_in(m, face2, id2, default),
        option_of(with_enabled(m, face, id, enabled), face2, id2, opt) == option_of(m, face2, id2, opt),
{
}

/// An option that was set is what `get_option` then gives back, and
/// setting it changes no other option and no enabled flag.
pub proof fn law_set_option_then_get_option(
    m: Map<Seq<char>, Map<Seq<char>, ConfigView>>,
    face: Seq<char>,
    id: Seq<char>,
    opt: Seq<char>,
    value: Seq<char>,
    face2: Seq<char>,
    id2: Seq<char>,
    opt2: Seq<char>,
    default: bool,
)
    ensures
        option_of(with_option(m, face, id, opt, value), face, id, opt) == Some(value),
        face2 != face || id2 != id || opt2 != opt ==> option_of(
            with_option(m, face, id, opt, value),
            face2,
            id2,
            opt2,
        ) == option_of(m, face2, id2, opt2),
        enabled_in(with_option(m, face, id, opt, value), face2, id2, default) == enabled_in(
            m,
            face2,
            id2,
            default,
        ) || (face2 == face && id2 == id && !face_configs(m, face).contains_key(id)),
{
}

/// The settings with `configs` installed for `face`, unless the face
/// already has settings.
pub open spec fn with_defaults(
    m: Map<Seq<char>, Map<Seq<char>, ConfigView>>,
    face: Seq<char>,
    configs: Map<Seq<char>, ConfigView>,
) -> Map<Seq<char>, Map<Seq<char>, ConfigView>> {
    if m.contains_key(face) {
        m
    } else {
        m.insert(face, configs)
    }
}

/// Initialising a face from its defaults a second time changes nothing,
/// the face has settings afterwards, and a face initialised from its defaults reports each complication as
/// enabled exactly when the complication is enabled by default (the last
/// of equal ids deciding).
pub proof fn law_init_from_defaults(
    m: Map<Seq<char>, Map<Seq<char>, ConfigView>>,
    face: Seq<char>,
    comps: Seq<ComplicationView>,
    id: Seq<char>,
    default: bool,
)
    ensures
        with_defaults(with_defaults(m, face, default_configs(comps)), face, default_configs(comps))
            == with_defaults(m, face, default_configs(comps)),
        with_defaults(m, face, default_configs(comps)).contains_key(face),
        !m.contains_key(face) ==> enabled_in(
            with_defaults(m, face, default_configs(comps)),
            face,
            id,
            default,
        ) == (if default_configs(comps).contains_key(id) {
            default_configs(comps)[id].enabled
        } else {
            default
        }),
{
}

/// In the defaults of a complication list, each complication is enabled as
/// its last entry says and carries its options' defaults.
pub proof fn law_default_configs(comps: Seq<ComplicationView>, i: int)
    requires
        0 <= i < comps.len(),
        forall|j: int| i < j < comps.len() ==> comps[j].id != comps[i].id,
    ensures
        default_configs(comps).contains_key(comps[i].id),
        default_configs(comps)[comps[i].id] == (ConfigView {
            enabled: comps[i].default_enabled,
            options: option_defaults(comps[i].options),
        }),
    decreases comps.len(),
{
    if i < comps.len() - 1 {
        law_default_configs(comps.drop_last(), i);
    }
}

/// The option defaults of an option list hold exactly the list's option
/// ids, each with the default of its last entry.
pub proof fn law_option_defaults(opts: Seq<OptionView>, id: Seq<char>, i: int)
    ensures
        option_defaults(opts).contains_key(id) <==> exists|j: int|
            0 <= j < opts.len() && #[trigger] opts[j].id == id,
        0 <= i < opts.len() && (forall|j: int| i < j < opts.len() ==> opts[j].id != opts[i].id)
            ==> option_defaults(opts).contains_key(opts[i].id) && option_defaults(opts)[opts[i].id]
            == opts[i].default_value,
    decreases opts.len(),
{
    if opts.len() > 0 {
        let p = opts.drop_last();
        law_option_defaults(p, id, i);
        if option_defaults(p).contains_key(id) {
            let j = choose|j: int| 0 <= j < p.len() && #[trigger] p[j].id == id;
            assert(opts[j].id == id);
        }
        if exists|j: int| 0 <= j < opts.len() && #[trigger] opts[j].id == id {
            let j = choose|j: int| 0 <= j < opts.len() && #[trigger] opts[j].id == id;
            if j < opts.len() - 1 {
                assert(p[j].id == id);
            }
        }
    }
}

/// The defaults of a complication list hold exactly the list's ids.
pub proof fn law_default_configs_ids(comps: Seq<ComplicationView>, id: Seq<char>)
    ensures
        default_configs(comps).contains_key(id) <==> exists|j: int|
            0 <= j < comps.len() && #[trigger] comps[j].id == id,
    decreases comps.len(),
{
    if comps.len() > 0 {
        let p = comps.drop_last();
        law_default_configs_ids(p, id);
        if default_configs(p).contains_key(id) {
            let j = choose|j: int| 0 <= j < p.len() && #[trigger] p[j].id == id;
            assert(comps[j].id == id);
        }
        if exists|j: int| 0 <= j < comps.len() && #[trigger] comps[j].id == id {
            let j = choose|j: int| 0 <= j < comps.len() && #[trigger] comps[j].id == id;
            if j < comps.len() - 1 {
                assert(p[j].id == id);
            }
        }
    }
}

/// Initialising a face that has no settings from its complication list
/// gives it a setting for exactly the listed ids (each as its last entry
/// says: enabled by default or not, with exactly its options' ids at
/// their defaults, by `law_default_configs` and `law_option_defaults`),
/// and leaves every other face as it was.
pub proof fn law_init_from_defaults_table(
    m: Map<Seq<char>, Map<Seq<char>, ConfigView>>,
    face: Seq<char>,
    comps: Seq<ComplicationView>,
    id: Seq<char>,
    other: Seq<char>,
)
    ensures
        !m.contains_key(face) ==> (with_defaults(m, face, default_configs(comps))[face]
            .contains_key(id) <==> exists|j: int|
            0 <= j < comps.len() && #[trigger] comps[j].id == id),
        other != face ==> with_defaults(m, face, default_configs(comps)).contains_key(other)
            == m.contains_key(other),
        other != face && m.contains_key(other) ==> with_defaults(
            m,
            face,
            default_configs(comps),
        )[other] == m[other],
{
    law_default_configs_ids(comps, id);
}

/// A copy of a list of option entries.
fn copy_options(v: &Vec<(String, String)>) -> (c: Vec<(String, String)>)
    ensures
        c@ == v@,
{
    let mut c: Vec<(String, String)> = Vec::new();
    let mut i: usize = 0;
    while i < v.len()
        invariant
            i <= v@.len(),
            c@ == v@.take(i as int),
        decreases v@.len() - i,
    {
        c.push((v[i].0.clone(), v[i].1.clone()));
        i = i + 1;
        assert(c@ =~= v@.take(i as int));
    }
    assert(v@.take(v@.len() as int) =~= v@);
    c
}

/// A copy of a list of configuration entries.
fn copy_entries(v: &Vec<(String, ComplicationConfig)>) -> (c: Vec<(String, ComplicationConfig)>)
    ensures
        c@.len() == v@.len(),
        forall|i: int| 0 <= i < v@.len() ==> (#[trigger] c@[i]).0 == v@[i].0 && c@[i].1@ == v@[i].1@,
        config_table(c@) == config_table(v@),
{
    let mut c: Vec<(String, ComplicationConfig)> = Vec::new();
    let mut i: usize = 0;
    while i < v.len()
        invariant
            i <= v@.len(),
            c@.len() == i,
            forall|j: int| 0 <= j < i ==> (#[trigger] c@[j]).0 == v@[j].0 && c@[j].1@ == v@[j].1@,
        decreases v@.len() - i,
    {
        let cfg = ComplicationConfig { enabled: v[i].1.enabled, options: copy_options(&v[i].1.options) };
        c.push((v[i].0.clone(), cfg));
        i = i + 1;
    }
    proof {
        lemma_same_keys_same_lookup(c@, v@);
        assert(config_table(c@) =~= config_table(v@));
    }
    c
}

proof fn lemma_same_keys_same_lookup(
    a: Seq<(String, ComplicationConfig)>,
    b: Seq<(String, ComplicationConfig)>,
)
    requires
        a.len() == b.len(),
        forall|i: int| 0 <= i < a.len() ==> (#[trigger] a[i]).0 == b[i].0 && a[i].1@ == b[i].1@,
    ensures
        forall|k: Seq<char>|
            #![auto]
            (lookup(a, k) is Some <==> lookup(b, k) is Some) && (lookup(a, k) is Some ==> lookup(
                a,
                k,
            ).unwrap()@ == lookup(b, k).unwrap()@),
    decreases a.len(),
{
    if a.len() > 0 {
        assert forall|i: int| 0 <= i < a.len() - 1 implies (#[trigger] a.drop_last()[i]).0
            == b.drop_last()[i].0 && a.drop_last()[i].1@ == b.drop_last()[i].1@ by {
            assert(a.drop_last()[i] == a[i]);
            assert(b.drop_last()[i] == b[i]);
        }
        lemma_same_keys_same_lookup(a.drop_last(), b.drop_last());
        assert(a.last() == a[a.len() - 1]);
        assert(b.last() == b[b.len() - 1]);
        assert forall|k: Seq<char>|
            #![auto]
            (lookup(a, k) is Some <==> lookup(b, k) is Some) && (lookup(a, k) is Some ==> lookup(
                a,
                k,
            ).unwrap()@ == lookup(b, k).unwrap()@) by {
            assert(lookup(a, k) == (if a.last().0@ == k {
                Some(a.last().1)
            } else {
                lookup(a.drop_last(), k)
            }));
            assert(lookup(b, k) == (if b.last().0@ == k {
                Some(b.last().1)
            } else {
                lookup(b.drop_last(), k)
            }));
        }
    }
}

impl EnabledComplications {
    /// Creates a new empty set.
    pub fn new() -> (s: Self)
        ensures
            s@ == Map::<Seq<char>, Map<Seq<char>, ConfigView>>::empty(),
    {
        let s = EnabledComplications { face_complications: Vec::new() };
        assert(s@ =~= Map::<Seq<char>, Map<Seq<char>, ConfigView>>::empty());
        s
    }

    /// Position of the entry of `face`, which is appended (with no
    /// configurations) when the face has none.
    fn ensure_face(&mut self, face: &str) -> (i: usize)
        ensures
            is_last_key(final(self).face_complications@, i as int, face@),
            config_table(final(self).face_complications@[i as int].1@) == face_configs(
                old(self)@,
                face@,
            ),
            final(self)@ == old(self)@.insert(face@, face_configs(old(self)@, face@)),
    {
        match find_last(&self.face_complications, face) {
            Some(i) => {
                proof {
                    lemma_lookup_last(self.face_complications@, i as int, face@);
                    assert(self@.insert(face@, face_configs(self@, face@)) =~= self@);
                }
                i
            },
            None => {
                proof {
                    lemma_lookup_none(self.face_complications@, face@);
                }
                let ghost s0 = self.face_complications@;
                let e = (face.to_owned(), Vec::new());
                let ghost eg = e;
                self.face_complications.push(e);
                proof {
                    lemma_faces_push(s0, eg);
                    assert(config_table(eg.1@) =~= Map::<Seq<char>, ConfigView>::empty());
                }
                self.face_complications.len() - 1
            },
        }
    }

    /// Gets the full configuration for a complication.
    pub fn get_config(&self, face: &str, complication_id: &str) -> (r: Option<&ComplicationConfig>)
        ensures
            match r {
                Some(c) => face_configs(self@, face@).contains_key(complication_id@) && c@
                    == face_configs(self@, face@)[complication_id@],
                None => !face_configs(self@, face@).contains_key(complication_id@),
            },
    {
        match find_last(&self.face_complications, face) {
            None => {
                proof {
                    lemma_lookup_none(self.face_complications@, face@);
                }
                None
            },
            Some(i) => {
                proof {
                    lemma_lookup_last(self.face_complications@, i as int, face@);
                }
                let entries = &self.face_complications[i].1;
                match find_last(entries, complication_id) {
                    None => {
                        proof {
                            lemma_lookup_none(entries@, complication_id@);
                        }
                        None
                    },
                    Some(j) => {
                        proof {
                            lemma_lookup_last(entries@, j as int, complication_id@);
                        }
                        Some(&entries[j].1)
                    },
                }
            },
        }
    }

    /// Checks if a complication is enabled for a face; when the face has no
    /// setting for it, returns `default`.
    pub fn is_enabled(&self, face: &str, complication_id: &str, default: bool) -> (b: bool)
        ensures
            b == enabled_in(self@, face@, complication_id@, default),
    {
        match self.get_config(face, complication_id) {
            Some(c) => c.enabled,
            None => default,
        }
    }

    /// Gets an option value for a complication.
    pub fn get_option(&self, face: &str, complication_id: &str, option_id: &str) -> (r: Option<
        &String,
    >)
        ensures
            match r {
                Some(v) => option_of(self@, face@, complication_id@, option_id@) == Some(v@),
                None => option_of(self@, face@, complication_id@, option_id@) is None,
            },
    {
        match self.get_config(face, complication_id) {
            None => None,
            Some(c) => match find_last(&c.options, option_id) {
                None => {
                    proof {
                        lemma_lookup_none(c.options@, option_id@);
                    }
                    None
                },
                Some(k) => {
                    proof {
                        lemma_lookup_last(c.options@, k as int, option_id@);
                    }
                    Some(&c.options[k].1)
                },
            },
        }
    }

    /// Sets whether a complication is enabled for a face, keeping its
    /// options (a new configuration has none).
    pub fn set_enabled(&mut self, face: &str, complication_id: &str, enabled: bool)
        ensures
            final(self)@ == with_enabled(old(self)@, face@, complication_id@, enabled),
    {
        let ghost m0 = self@;
        let i = self.ensure_face(face);
        let ghost s1 = self.face_complications@;
        let (fname, mut entries) = self.face_complications.remove(i);
        let ghost e1 = entries@;
        let j = ensure_config(&mut entries, complication_id);
        let ghost e2 = entries@;
        let (cname, mut cfg) = entries.remove(j);
        cfg.enabled = enabled;
        let c = (cname, cfg);
        let ghost cg = c;
        entries.insert(j, c);
        proof {
            assert(entries@ =~= e2.update(j as int, cg));
            lemma_config_table_update(e2, j as int, cg);
        }
        let f = (fname, entries);
        let ghost fg = f;
        self.face_complications.insert(i, f);
        proof {
            assert(self.face_complications@ =~= s1.update(i as int, fg));
            lemma_faces_update(s1, i as int, fg);
            let fc0 = face_configs(m0, face@);
            let cod = config_or_default(fc0, complication_id@);
            assert(fc0.insert(complication_id@, cod).insert(
                complication_id@,
                ConfigView { enabled, options: cod.options },
            ) =~= fc0.insert(complication_id@, ConfigView { enabled, options: cod.options }));
            assert(self@ =~= m0.insert(
                face@,
                face_configs(m0, face@).insert(
                    complication_id@,
                    ConfigView {
                        enabled,
                        options: config_or_default(face_configs(m0, face@), complication_id@).options,
                    },
                ),
            ));
        }
    }

    /// Sets an option value for a complication (a new configuration starts
    /// disabled).
    pub fn set_option(&mut self, face: &str, complication_id: &str, option_id: &str, value: String)
        ensures
            final(self)@ == with_option(old(self)@, face@, complication_id@, option_id@, value@),
    {
        let ghost m0 = self@;
        let ghost vg = value@;
        let i = self.ensure_face(face);
        let ghost s1 = self.face_complications@;
        let (fname, mut entries) = self.face_complications.remove(i);
        let j = ensure_config(&mut entries, complication_id);
        let ghost e2 = entries@;
        let (cname, mut cfg) = entries.remove(j);
        set_string(&mut cfg.options, option_id, value);
        let c = (cname, cfg);
        let ghost cg = c;
        entries.insert(j, c);
        proof {
            assert(entries@ =~= e2.update(j as int, cg));
            lemma_config_table_update(e2, j as int, cg);
        }
        let f = (fname, entries);
        let ghost fg = f;
        self.face_complications.insert(i, f);
        proof {
            assert(self.face_complications@ =~= s1.update(i as int, fg));
            lemma_faces_update(s1, i as int, fg);
            let fc0 = face_configs(m0, face@);
            let cod = config_or_default(fc0, complication_id@);
            let nc = ConfigView { enabled: cod.enabled, options: cod.options.insert(option_id@, vg) };
            assert(fc0.insert(complication_id@, cod).insert(complication_id@, nc) =~= fc0.insert(
                complication_id@,
                nc,
            ));
            assert(self@ =~= m0.insert(
                face@,
                face_configs(m0, face@).insert(
                    complication_id@,
                    ConfigView { enabled: cod.enabled, options: cod.options.insert(option_id@, vg) },
                ),
            ));
        }
    }

    /// Gets the IDs of the enabled complications of a face, each once.
    pub fn get_enabled(&self, face: &str) -> (ids: Vec<String>)
        ensures
            forall|i: int|
                0 <= i < ids@.len() ==> face_configs(self@, face@).contains_key(#[trigger] ids@[i]@)
                    && face_configs(self@, face@)[ids@[i]@].enabled,
            forall|k: Seq<char>|
                face_configs(self@, face@).contains_key(k) && #[trigger] face_configs(
                    self@,
                    face@,
                )[k].enabled ==> exists|i: int| 0 <= i < ids@.len() && ids@[i]@ == k,
            forall|i: int, j: int| 0 <= i < j < ids@.len() ==> ids@[i]@ != ids@[j]@,
    {
        let mut ids: Vec<String> = Vec::new();
        match find_last(&self.face_complications, face) {
            None => {
                proof {
                    lemma_lookup_none(self.face_complications@, face@);
                }
                ids
            },
            Some(fi) => {
                proof {
                    lemma_lookup_last(self.face_complications@, fi as int, face@);
                }
                let entries = &self.face_complications[fi].1;
                let ghost mut pos: Seq<int> = Seq::empty();
                let mut j: usize = 0;
                while j < entries.len()
                    invariant
                        j <= entries@.len(),
                        pos.len() == ids@.len(),
                        forall|a: int|
                            0 <= a < pos.len() ==> 0 <= #[trigger] pos[a] < j && is_last_key(
                                entries@,
                                pos[a],
                                ids@[a]@,
                            ) && entries@[pos[a]].1.enabled,
                        forall|a: int, b: int| 0 <= a < b < pos.len() ==> pos[a] < pos[b],
                        forall|m: int|
                            0 <= m < j && is_last_key(entries@, m, entries@[m].0@)
                                && #[trigger] entries@[m].1.enabled ==> exists|a: int|
                                0 <= a < ids@.len() && ids@[a]@ == entries@[m].0@,
                    decreases entries@.len() - j,
                {
                    let ghost ids_before = ids@;
                    let ghost mut pushed = false;
                    if entries[j].1.enabled {
                        match find_last(entries, entries[j].0.as_str()) {
                            Some(last) => {
                                proof {
                                    if is_last_key(entries@, j as int, entries@[j as int].0@) {
                                        if last > j {
                                            assert(entries@[last as int].0@ == entries@[j as int].0@);
                                        }
                                        if last < j {
                                            assert(entries@[j as int].0@ != entries@[j as int].0@);
                                        }
                                    }
                                }
                                if last == j {
                                    proof {
                                        pushed = true;
                                    }
                                    let ghost ids0 = ids@;
                                    ids.push(entries[j].0.clone());
                                    proof {
                                        pos = pos.push(j as int);
                                        assert(ids@[ids0.len() as int]@ == entries@[j as int].0@);
                                        assert forall|a: int|
                                            0 <= a < pos.len() implies 0 <= #[trigger] pos[a] <= j
                                            && is_last_key(entries@, pos[a], ids@[a]@)
                                            && entries@[pos[a]].1.enabled by {
                                            if a < pos.len() - 1 {
                                                assert(ids@[a] == ids0[a]);
                                            }
                                        }
                                    }
                                }
                            },
                            None => {},
                        }
                    }
                    proof {
                        assert forall|m: int|
                            0 <= m <= j && is_last_key(entries@, m, entries@[m].0@)
                                && #[trigger] entries@[m].1.enabled implies exists|a: int|
                            0 <= a < ids@.len() && ids@[a]@ == entries@[m].0@ by {
                            if m == j {
                                assert(pushed);
                                assert(ids@[ids@.len() - 1]@ == entries@[m].0@);
                            } else {
                                let a = choose|a: int|
                                    0 <= a < ids_before.len() && ids_before[a]@ == entries@[m].0@;
                                assert(ids@[a] == ids_before[a]);
                            }
                        }
                    }
                    j = j + 1;
                }
                proof {
                    let t = face_configs(self@, face@);
                    assert(t == config_table(entries@));
                    assert forall|i: int| 0 <= i < ids@.len() implies t.contains_key(
                        #[trigger] ids@[i]@,
                    ) && t[ids@[i]@].enabled by {
                        lemma_lookup_last(entries@, pos[i], ids@[i]@);
                    }
                    assert forall|k: Seq<char>|
                        t.contains_key(k) && #[trigger] t[k].enabled implies exists|i: int|
                        0 <= i < ids@.len() && ids@[i]@ == k by {
                        lemma_lookup_some(entries@, k);
                        let m = choose|m: int|
                            is_last_key(entries@, m, k) && entries@[m].1 == lookup(
                                entries@,
                                k,
                            ).unwrap();
                        assert(entries@[m].1.enabled);
                    }
                    assert forall|a: int, b: int| 0 <= a < b < ids@.len() implies ids@[a]@
                        != ids@[b]@ by {
                        assert(pos[a] < pos[b]);
                    }
                }
                ids
            },
        }
    }

    /// Adds the default configurations of a face's complications under
    /// `face`, unless the face already has settings.
    fn init_face(&mut self, face: &str, available: &Vec<Complication>)
        ensures
            final(self)@ == with_defaults(
                old(self)@,
                face@,
                default_configs(available@.map_values(|c: Complication| c@)),
            ),
    {
        match find_last(&self.face_complications, face) {
            Some(i) => {
                proof {
                    lemma_lookup_last(self.face_complications@, i as int, face@);
                }
            },
            None => {
                proof {
                    lemma_lookup_none(self.face_complications@, face@);
                }
                let ghost s0 = self.face_complications@;
                let e = (face.to_owned(), default_entries(available));
                let ghost eg = e;
                self.face_complications.push(e);
                proof {
                    lemma_faces_push(s0, eg);
                }
            },
        }
    }

    /// Initializes the complications of a face from its defaults, unless
    /// the face already has settings.
    pub fn init_from_defaults(&mut self, face: &FaceKind)
        ensures
            final(self)@ == with_defaults(
                old(self)@,
                face_name(*face),
                default_configs(kind_complications(*face)),
            ),
    {
        let available = face.available_complications();
        proof {
            assert(available@.map_values(|c: Complication| c@) == complication_views(available@));
        }
        self.init_face(face.name(), &available);
    }

    /// The settings as (face, [(complication id, configuration)]) entries,
    /// a later entry for a name replacing earlier ones.
    pub fn entries(&self) -> (e: &Vec<(String, Vec<(String, ComplicationConfig)>)>)
        ensures
            faces_table(e@) == self@,
    {
        &self.face_complications
    }

    /// Settings from (face, [(complication id, configuration)]) entries, a
    /// later entry for a name replacing earlier ones.
    pub fn from_entries(entries: Vec<(String, Vec<(String, ComplicationConfig)>)>) -> (c:
        EnabledComplications)
        ensures
            c@ == faces_table(entries@),
    {
        EnabledComplications { face_complications: entries }
    }

    /// A copy of the settings.
    pub fn copied(&self) -> (c: EnabledComplications)
        ensures
            c@ == self@,
    {
        let mut fc: Vec<(String, Vec<(String, ComplicationConfig)>)> = Vec::new();
        let mut i: usize = 0;
        let ghost src = self.face_complications@;
        while i < self.face_complications.len()
            invariant
                src == self.face_complications@,
                i <= src.len(),
                fc@.len() == i,
                forall|j: int|
                    0 <= j < i ==> (#[trigger] fc@[j]).0 == src[j].0 && config_table(fc@[j].1@)
                        == config_table(src[j].1@),
            decreases src.len() - i,
        {
            let e = copy_entries(&self.face_complications[i].1);
            fc.push((self.face_complications[i].0.clone(), e));
            i = i + 1;
        }
        let c = EnabledComplications { face_complications: fc };
        proof {
            lemma_same_faces_same_lookup(fc@, src);
            assert(c@ =~= self@);
        }
        c
    }
}

proof fn lemma_same_faces_same_lookup(
    a: Seq<(String, Vec<(String, ComplicationConfig)>)>,
    b: Seq<(String, Vec<(String, ComplicationConfig)>)>,
)
    requires
        a.len() == b.len(),
        forall|i: int|
            0 <= i < a.len() ==> (#[trigger] a[i]).0 == b[i].0 && config_table(a[i].1@)
                == config_table(b[i].1@),
    ensures
        forall|k: Seq<char>|
            #![auto]
            (lookup(a, k) is Some <==> lookup(b, k) is Some) && (lookup(a, k) is Some
                ==> config_table(lookup(a, k).unwrap()@) == config_table(lookup(b, k).unwrap()@)),
    decreases a.len(),
{
    if a.len() > 0 {
        assert forall|i: int| 0 <= i < a.len() - 1 implies (#[trigger] a.drop_last()[i]).0
            == b.drop_last()[i].0 && config_table(a.drop_last()[i].1@) == config_table(
            b.drop_last()[i].1@,
        ) by {
            assert(a.drop_last()[i] == a[i]);
            assert(b.drop_last()[i] == b[i]);
        }
        lemma_same_faces_same_lookup(a.drop_last(), b.drop_last());
        assert(a.last() == a[a.len() - 1]);
        assert(b.last() == b[b.len() - 1]);
        assert forall|k: Seq<char>|
            #![auto]
            (lookup(a, k) is Some <==> lookup(b, k) is Some) && (lookup(a, k) is Some
                ==> config_table(lookup(a, k).unwrap()@) == config_table(lookup(b, k).unwrap()@)) by {
            assert(lookup(a, k) == (if a.last().0@ == k {
                Some(a.last().1)
            } else {
                lookup(a.drop_last(), k)
            }));
            assert(lookup(b, k) == (if b.last().0@ == k {
                Some(b.last().1)
            } else {
                lookup(b.drop_last(), k)
            }));
        }
    }
}

} // verus!
