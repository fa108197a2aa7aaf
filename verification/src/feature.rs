//! Features: visibility and default-state gates over flags.
//!
//! A feature names either one flag, a group of flags, or a named
//! command group — exactly one of the three — and carries a
//! `default` (initial on/off) and a `visible` (whether the control
//! appears at all).  When the command list is compiled, each command
//! is matched against the feature list in a fixed resolution order:
//! exact flag name first, then flag-set equality (order
//! independent), then group-label equality; within each pass the
//! first feature in list order wins.

use vstd::prelude::*;

use crate::input::str_eq;

verus! {

/// A visibility/default gate over one flag, a set of flags, or a
/// named group of commands.
#[derive(Debug)]
pub struct Feature {
    pub flag: Option<String>,
    pub flags: Option<Vec<String>>,
    pub group: Option<String>,
    pub default: bool,
    pub visible: bool,
}

/// The mathematical value of a [`Feature`]: the same record over
/// character sequences.
pub struct FeatureV {
    pub flag: Option<Seq<char>>,
    pub flags: Option<Seq<Seq<char>>>,
    pub group: Option<Seq<char>>,
    pub default: bool,
    pub visible: bool,
}

/// The character sequences of a list of strings, in order.
pub open spec fn name_views(l: Seq<String>) -> Seq<Seq<char>> {
    l.map_values(|s: String| s@)
}

impl View for Feature {
    type V = FeatureV;

    open spec fn view(&self) -> FeatureV {
        FeatureV {
            flag: match self.flag {
                Some(s) => Some(s@),
                None => None,
            },
            flags: match self.flags {
                Some(l) => Some(name_views(l@)),
                None => None,
            },
            group: match self.group {
                Some(s) => Some(s@),
                None => None,
            },
            default: self.default,
            visible: self.visible,
        }
    }
}

/// The mathematical values of a feature list, in order.
pub open spec fn feature_views(fs: Seq<Feature>) -> Seq<FeatureV> {
    fs.map_values(|f: Feature| f@)
}

impl FeatureV {
    /// A feature references exactly one of a flag, a flag set, or a
    /// group.
    pub open spec fn wf(self) -> bool {
        match (self.flag, self.flags, self.group) {
            (Some(_), None, None) => true,
            (None, Some(_), None) => true,
            (None, None, Some(_)) => true,
            _ => false,
        }
    }
}

/// A feature entry as configuration delivers it, before the
/// exactly-one-reference rule is enforced.
pub struct FeatureConfig {
    pub flag: Option<String>,
    pub flags: Option<Vec<String>>,
    pub group: Option<String>,
    pub default: bool,
    pub visible: bool,
}

impl Feature {
    /// Validates a configured feature: exactly one of `flag`,
    /// `flags`, `group` must be present, anything else is a
    /// configuration error.
    pub fn try_from(cfg: FeatureConfig) -> (r: Result<Feature, String>)
        ensures
            match r {
                Ok(f) => f@.wf() && f.flag == cfg.flag && f.flags == cfg.flags && f.group
                    == cfg.group && f.default == cfg.default && f.visible == cfg.visible,
                Err(e) => e@ == "Invalid feature config"@ && !(Feature {
                    flag: cfg.flag,
                    flags: cfg.flags,
                    group: cfg.group,
                    default: cfg.default,
                    visible: cfg.visible,
                })@.wf(),
            },
    {
        let ok = match (&cfg.flag, &cfg.flags, &cfg.group) {
            (Some(_), None, None) => true,
            (None, Some(_), None) => true,
            (None, None, Some(_)) => true,
            _ => false,
        };
        if ok {
            Ok(Feature {
                flag: cfg.flag,
                flags: cfg.flags,
                group: cfg.group,
                default: cfg.default,
                visible: cfg.visible,
            })
        } else {
            Err(String::from_str("Invalid feature config"))
        }
    }
}

/// The set of names a name list holds, order and repetition
/// forgotten.
pub open spec fn spec_names(l: Seq<Seq<char>>) -> Set<Seq<char>> {
    Set::new(|e: Seq<char>| exists|i: int| 0 <= i < l.len() && l[i] == e)
}

/// Whether `list` holds the name `x`.
fn name_in(list: &Vec<String>, x: &String) -> (r: bool)
    ensures
        r == spec_names(name_views(list@)).contains(x@),
{
    let mut i: usize = 0;
    while i < list.len()
        invariant
            i <= list@.len(),
            forall|j: int| 0 <= j < i ==> list@[j]@ != x@,
        decreases list@.len() - i,
    {
        if str_eq(list[i].as_str(), x.as_str()) {
            proof {
                assert(name_views(list@)[i as int] == x@);
                assert(spec_names(name_views(list@)).contains(x@));
            }
            return true;
        }
        i = i + 1;
    }
    proof {
        assert forall|j: int| 0 <= j < name_views(list@).len() implies name_views(list@)[j]
            != x@ by {
            assert(name_views(list@)[j] == list@[j]@);
        }
        assert(!spec_names(name_views(list@)).contains(x@));
    }
    false
}

/// Whether two name lists hold the same set of names.
fn names_set_eq(a: &Vec<String>, b: &Vec<String>) -> (r: bool)
    ensures
        r == (spec_names(name_views(a@)) == spec_names(name_views(b@))),
{
    let ghost av = name_views(a@);
    let ghost bv = name_views(b@);
    let mut i: usize = 0;
    while i < a.len()
        invariant
            i <= a@.len(),
            av == name_views(a@),
            bv == name_views(b@),
            forall|j: int| 0 <= j < i ==> spec_names(bv).contains(#[trigger] av[j]),
        decreases a@.len() - i,
    {
        proof {
            assert(av[i as int] == a@[i as int]@);
        }
        if !name_in(b, &a[i]) {
            proof {
                assert(spec_names(av).contains(av[i as int]));
                assert(!spec_names(bv).contains(av[i as int]));
            }
            return false;
        }
        i = i + 1;
    }
    let mut k: usize = 0;
    while k < b.len()
        invariant
            k <= b@.len(),
            av == name_views(a@),
            bv == name_views(b@),
            forall|j: int| 0 <= j < av.len() ==> spec_names(bv).contains(#[trigger] av[j]),
            forall|j: int| 0 <= j < k ==> spec_names(av).contains(#[trigger] bv[j]),
        decreases b@.len() - k,
    {
        proof {
            assert(bv[k as int] == b@[k as int]@);
        }
        if !name_in(a, &b[k]) {
            proof {
                assert(spec_names(bv).contains(bv[k as int]));
                assert(!spec_names(av).contains(bv[k as int]));
            }
            return false;
        }
        k = k + 1;
    }
    proof {
        assert(spec_names(av) =~= spec_names(bv)) by {
            assert forall|e: Seq<char>| spec_names(av).contains(e) implies spec_names(
                bv,
            ).contains(e) by {
                let i = choose|i: int| 0 <= i < av.len() && av[i] == e;
                assert(spec_names(bv).contains(av[i]));
            }
            assert forall|e: Seq<char>| spec_names(bv).contains(e) implies spec_names(
                av,
            ).contains(e) by {
                let i = choose|i: int| 0 <= i < bv.len() && bv[i] == e;
                assert(spec_names(av).contains(bv[i]));
            }
        }
    }
    true
}

/// Whether a feature gates exactly the single flag `name`.
pub open spec fn is_single_match(f: FeatureV, name: Seq<char>) -> bool {
    f.flag matches Some(s) && s == name
}

/// Whether a feature gates exactly the flag set `names`.
pub open spec fn is_set_match(f: FeatureV, names: Set<Seq<char>>) -> bool {
    f.flags matches Some(l) && spec_names(l) == names
}

/// Whether a feature gates the command group labelled `label`.
pub open spec fn is_group_match(f: FeatureV, label: Seq<char>) -> bool {
    f.group matches Some(s) && s == label
}

/// The first feature from position `i` on gating exactly the single
/// flag `name`.
pub open spec fn spec_first_single(fs: Seq<FeatureV>, name: Seq<char>, i: int) -> Option<int>
    decreases fs.len() - i,
{
    if i < 0 || i >= fs.len() {
        None
    } else if is_single_match(fs[i], name) {
        Some(i)
    } else {
        spec_first_single(fs, name, i + 1)
    }
}

/// The first feature from position `i` on gating exactly the flag
/// set `names`.
pub open spec fn spec_first_set(fs: Seq<FeatureV>, names: Set<Seq<char>>, i: int) -> Option<int>
    decreases fs.len() - i,
{
    if i < 0 || i >= fs.len() {
        None
    } else if is_set_match(fs[i], names) {
        Some(i)
    } else {
        spec_first_set(fs, names, i + 1)
    }
}

/// The first feature from position `i` on gating the group `label`.
pub open spec fn spec_first_group(fs: Seq<FeatureV>, label: Seq<char>, i: int) -> Option<int>
    decreases fs.len() - i,
{
    if i < 0 || i >= fs.len() {
        None
    } else if is_group_match(fs[i], label) {
        Some(i)
    } else {
        spec_first_group(fs, label, i + 1)
    }
}

/// The feature matching a command whose flag names are `flags`:
/// when the command names a single flag, a feature naming exactly
/// that flag wins over every flag-set feature; only then is
/// order-independent set equality tried.
pub open spec fn spec_resolve_flags(fs: Seq<FeatureV>, flags: Seq<Seq<char>>) -> Option<int> {
    if flags.len() == 1 && spec_first_single(fs, flags[0], 0) is Some {
        spec_first_single(fs, flags[0], 0)
    } else {
        spec_first_set(fs, spec_names(flags), 0)
    }
}

/// Finds the first feature gating exactly the single flag `name`.
pub fn match_single(fs: &Vec<Feature>, name: &String) -> (r: Option<usize>)
    ensures
        match r {
            Some(i) => spec_first_single(feature_views(fs@), name@, 0) == Some(i as int),
            None => spec_first_single(feature_views(fs@), name@, 0) is None,
        },
{
    let ghost fv = feature_views(fs@);
    let mut i: usize = 0;
    while i < fs.len()
        invariant
            i <= fs@.len(),
            fv == feature_views(fs@),
            spec_first_single(fv, name@, 0) == spec_first_single(fv, name@, i as int),
        decreases fs@.len() - i,
    {
        proof {
            assert(fv[i as int] == fs@[i as int]@);
        }
        let hit = match &fs[i].flag {
            Some(s) => str_eq(s.as_str(), name.as_str()),
            None => false,
        };
        if hit {
            return Some(i);
        }
        i = i + 1;
    }
    None
}

/// Finds the first feature gating exactly the flag set of `flags`.
pub fn match_set(fs: &Vec<Feature>, flags: &Vec<String>) -> (r: Option<usize>)
    ensures
        match r {
            Some(i) => spec_first_set(feature_views(fs@), spec_names(name_views(flags@)), 0)
                == Some(i as int),
            None => spec_first_set(feature_views(fs@), spec_names(name_views(flags@)), 0) is None,
        },
{
    let ghost fv = feature_views(fs@);
    let ghost names = spec_names(name_views(flags@));
    let mut i: usize = 0;
    while i < fs.len()
        invariant
            i <= fs@.len(),
            fv == feature_views(fs@),
            names == spec_names(name_views(flags@)),
            spec_first_set(fv, names, 0) == spec_first_set(fv, names, i as int),
        decreases fs@.len() - i,
    {
        proof {
            assert(fv[i as int] == fs@[i as int]@);
        }
        let hit = match &fs[i].flags {
            Some(l) => names_set_eq(l, flags),
            None => false,
        };
        if hit {
            return Some(i);
        }
        i = i + 1;
    }
    None
}

/// Finds the first feature gating the command group `label`.
pub fn match_group(fs: &Vec<Feature>, label: &String) -> (r: Option<usize>)
    ensures
        match r {
            Some(i) => spec_first_group(feature_views(fs@), label@, 0) == Some(i as int),
            None => spec_first_group(feature_views(fs@), label@, 0) is None,
        },
{
    let ghost fv = feature_views(fs@);
    let mut i: usize = 0;
    while i < fs.len()
        invariant
            i <= fs@.len(),
            fv == feature_views(fs@),
            spec_first_group(fv, label@, 0) == spec_first_group(fv, label@, i as int),
        decreases fs@.len() - i,
    {
        proof {
            assert(fv[i as int] == fs@[i as int]@);
        }
        let hit = match &fs[i].group {
            Some(s) => str_eq(s.as_str(), label.as_str()),
            None => false,
        };
        if hit {
            return Some(i);
        }
        i = i + 1;
    }
    None
}

/// Resolves the feature for a command whose flag names are `flags`,
/// in the fixed order: exact single-flag match first, then
/// order-independent flag-set equality.
pub fn resolve_flags(fs: &Vec<Feature>, flags: &Vec<String>) -> (r: Option<usize>)
    ensures
        match r {
            Some(i) => spec_resolve_flags(feature_views(fs@), name_views(flags@)) == Some(
                i as int,
            ),
            None => spec_resolve_flags(feature_views(fs@), name_views(flags@)) is None,
        },
{
    if flags.len() == 1 {
        proof {
            assert(name_views(flags@)[0] == flags@[0]@);
        }
        match match_single(fs, &flags[0]) {
            Some(i) => {
                return Some(i);
            },
            None => {},
        }
    }
    match_set(fs, flags)
}

/// A feature naming a single flag wins over a feature naming a flag
/// group, even when both could match the same command's flag set
/// and whatever their order in the feature list.
pub proof fn lemma_single_beats_set(fs: Seq<FeatureV>, flags: Seq<Seq<char>>, i: int)
    requires
        flags.len() == 1,
        spec_first_single(fs, flags[0], 0) == Some(i),
    ensures
        spec_resolve_flags(fs, flags) == Some(i),
{
}

/// The number of features in the built-in default set.
pub const DEFAULT_FEATURE_COUNT: usize = 26;

/// Whether the default feature at `j` names a single flag (as
/// opposed to a flag set).
pub open spec fn default_feature_is_single(j: int) -> bool {
    j == 0 || j == 2 || j == 3 || j == 4 || j == 5 || j == 6 || j == 7 || j == 8 || j == 9 || j == 11 || j == 12 || j == 15 || j == 16 || j == 17 || j == 18 || j == 20 || j == 21 || j == 22 || j == 23 || j == 25
}

/// The single flag the default feature at `j` names.
pub open spec fn default_feature_flag(j: int) -> Seq<char> {
    if j == 0 {
        "show_all_map_layers"@
    } else if j == 2 {
        "show_map"@
    } else if j == 3 {
        "show_chr"@
    } else if j == 4 {
        "display_stable_pos"@
    } else if j == 5 {
        "hitbox_high"@
    } else if j == 6 {
        "hitbox_low"@
    } else if j == 7 {
        "hitbox_f"@
    } else if j == 8 {
        "hitbox_character"@
    } else if j == 9 {
        "hitbox_event"@
    } else if j == 11 {
        "no_damage"@
    } else if j == 12 {
        "no_stamina_consume"@
    } else if j == 15 {
        "deathcam"@
    } else if j == 16 {
        "no_dead"@
    } else if j == 17 {
        "one_shot"@
    } else if j == 18 {
        "runearc"@
    } else if j == 20 {
        "no_update_ai"@
    } else if j == 21 {
        "no_trigger_event"@
    } else if j == 22 {
        "gravity"@
    } else if j == 23 {
        "torrent_gravity"@
    } else if j == 25 {
        "action_freeze"@
    } else {
        Seq::empty()
    }
}

/// The flag list the default feature at `j` names.
pub open spec fn default_feature_flags(j: int) -> Seq<Seq<char>> {
    if j == 1 {
        seq!["show_all_graces"@, "show_all_map_layers"@]
    } else if j == 10 {
        seq!["weapon_hitbox1"@, "weapon_hitbox2"@, "weapon_hitbox3"@]
    } else if j == 13 {
        seq!["no_fp_consume"@, "no_ashes_of_war_fp_consume"@]
    } else if j == 14 {
        seq!["no_goods_consume"@, "no_arrows_consume"@]
    } else if j == 19 {
        seq!["field_area_direction"@, "field_area_altimeter"@, "field_area_compass"@]
    } else if j == 24 {
        seq!["collision"@, "torrent_collision"@]
    } else {
        Seq::empty()
    }
}

/// Whether the default feature at `j` is visible.
pub open spec fn default_feature_visible(j: int) -> bool {
    j == 3 || j == 5 || j == 6 || j == 7 || j == 8 || j == 9 || j == 10 || j == 18
}

/// Whether `f` is the default feature at `j`: never a group
/// reference, default off, visibility and flag reference as the
/// built-in table has them.
pub open spec fn is_default_feature(f: FeatureV, j: int) -> bool {
    f.group is None && f.default == false && f.visible == default_feature_visible(j) && (
    if default_feature_is_single(j) {
        f.flags is None && (f.flag matches Some(s) && s == default_feature_flag(j))
    } else {
        f.flag is None && (f.flags matches Some(l) && l == default_feature_flags(j))
    })
}

/// A default-set feature over one flag.
fn feat_single(name: &str, visible: bool) -> (f: Feature)
    ensures
        f.group is None,
        f.flags is None,
        f.flag matches Some(s) && s@ == name@,
        f.default == false,
        f.visible == visible,
        f@.wf(),
{
    Feature {
        flag: Some(String::from_str(name)),
        flags: None,
        group: None,
        default: false,
        visible,
    }
}

/// A default-set feature over two flags.
fn feat_pair(a: &str, b: &str, visible: bool) -> (f: Feature)
    ensures
        f.group is None,
        f.flag is None,
        f.flags matches Some(l) && l@.map_values(|s: String| s@) =~= seq![a@, b@],
        f.default == false,
        f.visible == visible,
        f@.wf(),
{
    let mut l: Vec<String> = Vec::new();
    l.push(String::from_str(a));
    l.push(String::from_str(b));
    Feature { flag: None, flags: Some(l), group: None, default: false, visible }
}

/// A default-set feature over three flags.
fn feat_triple(a: &str, b: &str, c: &str, visible: bool) -> (f: Feature)
    ensures
        f.group is None,
        f.flag is None,
        f.flags matches Some(l) && l@.map_values(|s: String| s@) =~= seq![a@, b@, c@],
        f.default == false,
        f.visible == visible,
        f@.wf(),
{
    let mut l: Vec<String> = Vec::new();
    l.push(String::from_str(a));
    l.push(String::from_str(b));
    l.push(String::from_str(c));
    Feature { flag: None, flags: Some(l), group: None, default: false, visible }
}

impl Feature {
    /// The built-in feature set: the gates applied when the
    /// configuration supplies none of its own.
    #[verifier::rlimit(100)]
    pub fn default_set() -> (r: Vec<Feature>)
        ensures
            r@.len() == DEFAULT_FEATURE_COUNT,
            forall|j: int|
                0 <= j < DEFAULT_FEATURE_COUNT ==> is_default_feature((#[trigger] r@[j])@, j),
    {
        let mut r: Vec<Feature> = Vec::new();
        r.push(feat_single("show_all_map_layers", false));
        r.push(feat_pair("show_all_graces", "show_all_map_layers", false));
        r.push(feat_single("show_map", false));
        r.push(feat_single("show_chr", true));
        r.push(feat_single("display_stable_pos", false));
        r.push(feat_single("hitbox_high", true));
        r.push(feat_single("hitbox_low", true));
        r.push(feat_single("hitbox_f", true));
        r.push(feat_single("hitbox_character", true));
        r.push(feat_single("hitbox_event", true));
        r.push(feat_triple("weapon_hitbox1", "weapon_hitbox2", "weapon_hitbox3", true));
        r.push(feat_single("no_damage", false));
        r.push(feat_single("no_stamina_consume", false));
        r.push(feat_pair("no_fp_consume", "no_ashes_of_war_fp_consume", false));
        r.push(feat_pair("no_goods_consume", "no_arrows_consume", false));
        r.push(feat_single("deathcam", false));
        r.push(feat_single("no_dead", false));
        r.push(feat_single("one_shot", false));
        r.push(feat_single("runearc", true));
        r.push(feat_triple("field_area_direction", "field_area_altimeter", "field_area_compass", false));
        r.push(feat_single("no_update_ai", false));
        r.push(feat_single("no_trigger_event", false));
        r.push(feat_single("gravity", false));
        r.push(feat_single("torrent_gravity", false));
        r.push(feat_pair("collision", "torrent_collision", false));
        r.push(feat_single("action_freeze", false));
        r
    }
}

} // verus!
