//! The command compiler: from the declarative command list to the
//! widget tree.
//!
//! Compilation walks the command list depth first.  For each
//! command it resolves the matching feature (exact flag name, then
//! flag-set equality, then group label); a matching invisible
//! feature suppresses the command into the inert widget, which
//! still occupies the command's position in the tree.  A live
//! command is bound to its catalogue cells and its hotkey.  An
//! unknown flag or special-flag name is a hard configuration error
//! naming the offender.  Compilation is a pure function of the
//! command list, the feature list, the catalogue and the memory
//! layout: its result is pinned, value for value, by
//! [`spec_compile_list`].

use vstd::prelude::*;

use crate::command::CfgCommand;
use crate::command::CommandV;
use crate::command::PlaceholderOption;
use crate::command::lemma_command_views_index;
use crate::command::lemma_command_views_len;
use crate::command::command_views;
use crate::feature::Feature;
use crate::feature::FeatureV;
use crate::feature::feature_views;
use crate::feature::name_views;
use crate::feature::spec_first_group;
use crate::feature::spec_resolve_flags;
use crate::feature::match_group;
use crate::feature::resolve_flags;
use crate::input::Key;
use crate::input::str_eq;
use crate::memory::Catalogue;
use crate::memory::FlagDefV;
use crate::memory::FlagSpec;
use crate::memory::MemoryLayout;
use crate::memory::MultiFlagSpec;
use crate::memory::def_views;
use crate::memory::spec_flag_err;
use crate::memory::spec_multi_flag_err;
use crate::memory::spec_resolve;
use crate::memory::spec_show_map_cells;
use crate::widget::NoneWidget;
use crate::widget::Widget;
use crate::widget::WidgetV;
use crate::widget::lemma_widget_views_len;
use crate::widget::widget_view;
use crate::widget::widget_views;

verus! {

broadcast use {vstd::std_specs::vec::axiom_vec_decreases_to_view, vstd::std_specs::vec::axiom_vec_index_decreases};

/// Whether a resolved feature suppresses its command: one matched,
/// and it is invisible.
pub open spec fn feat_suppressed(m: Option<int>, fs: Seq<FeatureV>) -> bool {
    match m {
        Some(i) => 0 <= i < fs.len() && !fs[i].visible,
        None => false,
    }
}

/// The initial on/off state a resolved feature gives its command:
/// the feature's `default`, or off when none matched.
pub open spec fn feat_default(m: Option<int>, fs: Seq<FeatureV>) -> bool {
    match m {
        Some(i) => 0 <= i < fs.len() && fs[i].default,
        None => false,
    }
}

/// The diagnostic for an unknown special-flag name.
pub open spec fn spec_special_err(name: Seq<char>) -> Seq<char> {
    "Invalid flag "@ + name
}

/// The cells of a flag-name list, resolved left to right: the first
/// unknown name is the error.
pub open spec fn spec_resolve_cells(defs: Seq<FlagDefV>, names: Seq<Seq<char>>) -> Result<
    Seq<int>,
    Seq<char>,
>
    decreases names.len(),
{
    if names.len() == 0 {
        Ok(Seq::empty())
    } else {
        match spec_resolve(defs, names[0]) {
            None => Err(spec_flag_err(names[0])),
            Some(d) => match spec_resolve_cells(defs, names.skip(1)) {
                Ok(rest) => Ok(seq![d.cell] + rest),
                Err(e) => Err(e),
            },
        }
    }
}

/// The widget a single command compiles to, or the configuration
/// error that stops compilation.
pub open spec fn spec_into_widget(
    c: CommandV,
    fs: Seq<FeatureV>,
    defs: Seq<FlagDefV>,
    layout: MemoryLayout,
) -> Result<WidgetV, Seq<char>>
    decreases c,
{
    match c {
        CommandV::Flag { flag, hotkey } => {
            let m = spec_resolve_flags(fs, seq![flag]);
            if feat_suppressed(m, fs) {
                Ok(WidgetV::Inert)
            } else {
                match spec_resolve(defs, flag) {
                    Some(d) => Ok(
                        WidgetV::Flag {
                            label: d.label,
                            cell: d.cell,
                            hotkey,
                            default: feat_default(m, fs),
                        },
                    ),
                    None => Err(spec_flag_err(flag)),
                }
            }
        },
        CommandV::MultiFlag { flag, hotkey } => {
            let m = spec_resolve_flags(fs, seq![flag]);
            if feat_suppressed(m, fs) {
                Ok(WidgetV::Inert)
            } else if flag == "show_map"@ {
                Ok(
                    WidgetV::MultiFlag {
                        label: "Show/hide map"@,
                        cells: spec_show_map_cells(layout),
                        hotkey,
                        default: feat_default(m, fs),
                    },
                )
            } else {
                Err(spec_multi_flag_err(flag))
            }
        },
        CommandV::SpecialFlag { flag, hotkey } => {
            if flag == "deathcam"@ {
                let m = spec_resolve_flags(fs, seq![flag]);
                if feat_suppressed(m, fs) {
                    Ok(WidgetV::Inert)
                } else {
                    Ok(WidgetV::Deathcam { hotkey, default: feat_default(m, fs) })
                }
            } else if flag == "action_freeze"@ {
                let m = spec_resolve_flags(fs, seq![flag]);
                if feat_suppressed(m, fs) {
                    Ok(WidgetV::Inert)
                } else {
                    Ok(WidgetV::ActionFreeze { hotkey, default: feat_default(m, fs) })
                }
            } else {
                Err(spec_special_err(flag))
            }
        },
        CommandV::MultiFlagUser { flags, hotkey, label } => {
            let m = spec_resolve_flags(fs, flags);
            if feat_suppressed(m, fs) {
                Ok(WidgetV::Inert)
            } else {
                match spec_resolve_cells(defs, flags) {
                    Ok(cells) => Ok(
                        WidgetV::MultiFlag {
                            label,
                            cells,
                            hotkey,
                            default: feat_default(m, fs),
                        },
                    ),
                    Err(e) => Err(e),
                }
            }
        },
        CommandV::Label { label } => Ok(WidgetV::Label { label }),
        CommandV::SavefileManager { hotkey_load } => Ok(WidgetV::SavefileManager { hotkey_load }),
        CommandV::ItemSpawner { hotkey_load } => Ok(WidgetV::ItemSpawner { hotkey_load }),
        CommandV::Position { position, save } => Ok(WidgetV::Position { hotkey: position, save }),
        CommandV::NudgePosition { nudge_bits, nudge_up, nudge_down } => Ok(
            WidgetV::NudgePosition { nudge_bits, nudge_up, nudge_down },
        ),
        CommandV::CycleSpeed { cycle_speed_bits, hotkey } => Ok(
            WidgetV::CycleSpeed { values_bits: cycle_speed_bits, hotkey },
        ),
        CommandV::CycleColor { cycle_color, hotkey } => Ok(
            WidgetV::CycleColor { values: cycle_color, hotkey },
        ),
        CommandV::CharacterStats { hotkey_open } => Ok(WidgetV::CharacterStats { hotkey_open }),
        CommandV::Runes { amount, hotkey } => Ok(WidgetV::Runes { amount, hotkey }),
        CommandV::Target { hotkey } => Ok(WidgetV::Target { hotkey }),
        CommandV::Warp => Ok(WidgetV::Warp),
        CommandV::Group { label, commands } => {
            let m = spec_first_group(fs, label, 0);
            if feat_suppressed(m, fs) {
                Ok(WidgetV::Inert)
            } else {
                match spec_compile_list(commands, fs, defs, layout) {
                    Ok(children) => Ok(WidgetV::Group { label, children }),
                    Err(e) => Err(e),
                }
            }
        },
        CommandV::Quitout { hotkey } => Ok(WidgetV::Quitout { hotkey }),
    }
}

/// The widget tree a command list compiles to, first error first.
pub open spec fn spec_compile_list(
    cmds: Seq<CommandV>,
    fs: Seq<FeatureV>,
    defs: Seq<FlagDefV>,
    layout: MemoryLayout,
) -> Result<Seq<WidgetV>, Seq<char>>
    decreases cmds,
{
    if cmds.len() == 0 {
        Ok(Seq::empty())
    } else {
        match spec_into_widget(cmds[0], fs, defs, layout) {
            Err(e) => Err(e),
            Ok(w) => match spec_compile_list(cmds.skip(1), fs, defs, layout) {
                Ok(rest) => Ok(seq![w] + rest),
                Err(e) => Err(e),
            },
        }
    }
}

/// Whether an executable compile result is, value for value, a
/// mathematical one.
pub open spec fn widget_result_matches(
    r: Result<Widget, String>,
    s: Result<WidgetV, Seq<char>>,
) -> bool {
    match (r, s) {
        (Ok(w), Ok(wv)) => w@ == wv,
        (Err(e), Err(ev)) => e@ == ev,
        _ => false,
    }
}

/// Whether an executable list-compile result is, value for value, a
/// mathematical one.
pub open spec fn widgets_result_matches(
    r: Result<Vec<Widget>, String>,
    s: Result<Seq<WidgetV>, Seq<char>>,
) -> bool {
    match (r, s) {
        (Ok(ws), Ok(wsv)) => widget_views(ws@) == wsv,
        (Err(e), Err(ev)) => e@ == ev,
        _ => false,
    }
}

/// Clones an optional configured hotkey into an optional hotkey.
fn clone_pkey(p: &PlaceholderOption<Key>) -> (r: Option<Key>)
    ensures
        crate::input::okey_view(r) == crate::command::pkey_view(*p),
{
    match p {
        PlaceholderOption::Data(k) => Some(k.clone()),
        PlaceholderOption::Placeholder(_) => None,
    }
}

/// Copies a list of raw bit patterns.
fn clone_u32s(v: &Vec<u32>) -> (r: Vec<u32>)
    ensures
        r@ == v@,
{
    let mut r: Vec<u32> = Vec::new();
    let mut i: usize = 0;
    while i < v.len()
        invariant
            i <= v@.len(),
            r@ =~= v@.take(i as int),
        decreases v@.len() - i,
    {
        r.push(v[i]);
        proof {
            assert(r@ =~= v@.take(i as int + 1));
        }
        i = i + 1;
    }
    proof {
        assert(v@.take(v@.len() as int) =~= v@);
    }
    r
}

/// Copies a list of carried integers.
fn clone_i32s(v: &Vec<i32>) -> (r: Vec<i32>)
    ensures
        r@ == v@,
{
    let mut r: Vec<i32> = Vec::new();
    let mut i: usize = 0;
    while i < v.len()
        invariant
            i <= v@.len(),
            r@ =~= v@.take(i as int),
        decreases v@.len() - i,
    {
        r.push(v[i]);
        proof {
            assert(r@ =~= v@.take(i as int + 1));
        }
        i = i + 1;
    }
    proof {
        assert(v@.take(v@.len() as int) =~= v@);
    }
    r
}

/// Resolves a flag-name list against the catalogue from position
/// `i` on, left to right; the first unknown name is the error.
fn resolve_cells(cat: &Catalogue, flags: &Vec<String>, i: usize) -> (r: Result<Vec<usize>, String>)
    requires
        i <= flags@.len(),
    ensures
        match (r, spec_resolve_cells(def_views(cat.defs@), name_views(flags@).skip(i as int))) {
            (Ok(v), Ok(s)) => v@.map_values(|c: usize| c as int) == s,
            (Err(e), Err(es)) => e@ == es,
            _ => false,
        },
    decreases flags@.len() - i,
{
    let ghost nv = name_views(flags@);
    if i == flags.len() {
        proof {
            assert(nv.skip(i as int) =~= Seq::<Seq<char>>::empty());
        }
        let r: Vec<usize> = Vec::new();
        proof {
            assert(r@.map_values(|c: usize| c as int) =~= Seq::<int>::empty());
        }
        Ok(r)
    } else {
        proof {
            assert(nv.skip(i as int)[0] == nv[i as int]);
            assert(nv[i as int] == flags@[i as int]@);
            assert(nv.skip(i as int).skip(1) =~= nv.skip(i as int + 1));
        }
        match FlagSpec::try_from(&flags[i], cat) {
            Err(e) => Err(e),
            Ok(f) => {
                match resolve_cells(cat, flags, i + 1) {
                    Err(e) => Err(e),
                    Ok(mut rest) => {
                        rest.insert(0, f.cell);
                        proof {
                            assert(rest@.map_values(|c: usize| c as int) =~= seq![f.cell as int]
                                + rest@.skip(1).map_values(|c: usize| c as int));
                        }
                        Ok(rest)
                    },
                }
            },
        }
    }
}

impl CfgCommand {
    /// Compiles one command into its widget: an inert widget when a
    /// matching feature is invisible, a live widget bound to its
    /// cells and hotkey otherwise, or the configuration error that
    /// names the unknown flag.
    pub fn into_widget(
        &self,
        features: &Vec<Feature>,
        cat: &Catalogue,
        layout: &MemoryLayout,
    ) -> (r: Result<Widget, String>)
        requires
            layout.wf(),
            layout.geom_len == 13 || layout.geom_len >= 16,
        ensures
            widget_result_matches(
                r,
                spec_into_widget(self@, feature_views(features@), def_views(cat.defs@), *layout),
            ),
        decreases *self,
    {
        match self {
            CfgCommand::Flag { flag, hotkey } => {
                let mut names: Vec<String> = Vec::new();
                names.push(flag.clone());
                proof {
                    assert(name_views(names@) =~= seq![flag@]);
                }
                let m = resolve_flags(features, &names);
                if suppressed(m, features) {
                    Ok(Widget::Inert(NoneWidget {}))
                } else {
                    match FlagSpec::try_from(flag, cat) {
                        Ok(f) => Ok(
                            Widget::Flag {
                                label: f.label,
                                cell: f.cell,
                                hotkey: crate::input::clone_okey(hotkey),
                                default: matched_default(m, features),
                            },
                        ),
                        Err(e) => Err(e),
                    }
                }
            },
            CfgCommand::MultiFlag { flag, hotkey } => {
                let mut names: Vec<String> = Vec::new();
                names.push(flag.clone());
                proof {
                    assert(name_views(names@) =~= seq![flag@]);
                }
                let m = resolve_flags(features, &names);
                if suppressed(m, features) {
                    Ok(Widget::Inert(NoneWidget {}))
                } else {
                    match MultiFlagSpec::try_from(flag, layout) {
                        Ok(mf) => Ok(
                            Widget::MultiFlag {
                                label: mf.label,
                                cells: mf.cells,
                                hotkey: crate::input::clone_okey(hotkey),
                                default: matched_default(m, features),
                            },
                        ),
                        Err(e) => Err(e),
                    }
                }
            },
            CfgCommand::SpecialFlag { flag, hotkey } => {
                if str_eq(flag.as_str(), "deathcam") {
                    let mut names: Vec<String> = Vec::new();
                    names.push(flag.clone());
                    proof {
                        assert(name_views(names@) =~= seq![flag@]);
                    }
                    let m = resolve_flags(features, &names);
                    if suppressed(m, features) {
                        Ok(Widget::Inert(NoneWidget {}))
                    } else {
                        Ok(
                            Widget::Deathcam {
                                hotkey: crate::input::clone_okey(hotkey),
                                default: matched_default(m, features),
                            },
                        )
                    }
                } else if str_eq(flag.as_str(), "action_freeze") {
                    let mut names: Vec<String> = Vec::new();
                    names.push(flag.clone());
                    proof {
                        assert(name_views(names@) =~= seq![flag@]);
                    }
                    let m = resolve_flags(features, &names);
                    if suppressed(m, features) {
                        Ok(Widget::Inert(NoneWidget {}))
                    } else {
                        Ok(
                            Widget::ActionFreeze {
                                hotkey: crate::input::clone_okey(hotkey),
                                default: matched_default(m, features),
                            },
                        )
                    }
                } else {
                    let e = String::from_str("Invalid flag ");
                    let e = e.concat(flag.as_str());
                    Err(e)
                }
            },
            CfgCommand::MultiFlagUser { flags, hotkey, label } => {
                let m = resolve_flags(features, flags);
                if suppressed(m, features) {
                    Ok(Widget::Inert(NoneWidget {}))
                } else {
                    proof {
                        assert(name_views(flags@).skip(0) =~= name_views(flags@));
                    }
                    match resolve_cells(cat, flags, 0) {
                        Ok(cells) => Ok(
                            Widget::MultiFlag {
                                label: label.clone(),
                                cells,
                                hotkey: crate::input::clone_okey(hotkey),
                                default: matched_default(m, features),
                            },
                        ),
                        Err(e) => Err(e),
                    }
                }
            },
            CfgCommand::Label { label } => Ok(Widget::Label { label: label.clone() }),
            CfgCommand::SavefileManager { hotkey_load } => Ok(
                Widget::SavefileManager { hotkey_load: clone_pkey(hotkey_load) },
            ),
            CfgCommand::ItemSpawner { hotkey_load } => Ok(
                Widget::ItemSpawner { hotkey_load: clone_pkey(hotkey_load) },
            ),
            CfgCommand::Position { position, save } => Ok(
                Widget::Position {
                    hotkey: clone_pkey(position),
                    save: crate::input::clone_okey(save),
                },
            ),
            CfgCommand::NudgePosition { nudge_bits, nudge_up, nudge_down } => Ok(
                Widget::NudgePosition {
                    nudge_bits: *nudge_bits,
                    nudge_up: crate::input::clone_okey(nudge_up),
                    nudge_down: crate::input::clone_okey(nudge_down),
                },
            ),
            CfgCommand::CycleSpeed { cycle_speed_bits, hotkey } => Ok(
                Widget::CycleSpeed {
                    values_bits: clone_u32s(cycle_speed_bits),
                    hotkey: crate::input::clone_okey(hotkey),
                },
            ),
            CfgCommand::CycleColor { cycle_color, hotkey } => Ok(
                Widget::CycleColor {
                    values: clone_i32s(cycle_color),
                    hotkey: crate::input::clone_okey(hotkey),
                },
            ),
            CfgCommand::CharacterStats { hotkey_open } => Ok(
                Widget::CharacterStats { hotkey_open: clone_pkey(hotkey_open) },
            ),
            CfgCommand::Runes { amount, hotkey } => Ok(
                Widget::Runes { amount: *amount, hotkey: crate::input::clone_okey(hotkey) },
            ),
            CfgCommand::Target { hotkey } => Ok(Widget::Target { hotkey: clone_pkey(hotkey) }),
            CfgCommand::Warp { warp: _ } => Ok(Widget::Warp),
            CfgCommand::Group { label, commands } => {
                let m = match_group(features, label);
                if suppressed(m, features) {
                    Ok(Widget::Inert(NoneWidget {}))
                } else {
                    let ghost cv = command_views(commands@);
                    let ghost fv = feature_views(features@);
                    let ghost dv = def_views(cat.defs@);
                    let mut out: Vec<Widget> = Vec::new();
                    let mut i: usize = 0;
                    proof {
                        lemma_command_views_len(commands@);
                        assert(cv.skip(0) =~= cv);
                        assert(widget_views(out@) =~= Seq::<WidgetV>::empty());
                    }
                    #[verifier::loop_isolation(false)]
                    while i < commands.len()
                        invariant
                            i <= commands@.len(),
                            spec_compile_list(cv, fv, dv, *layout) == match spec_compile_list(
                                cv.skip(i as int),
                                fv,
                                dv,
                                *layout,
                            ) {
                                Ok(rest) => Ok::<Seq<WidgetV>, Seq<char>>(
                                    widget_views(out@) + rest,
                                ),
                                Err(e) => Err::<Seq<WidgetV>, Seq<char>>(e),
                            },
                        decreases commands@.len() - i,
                    {
                        proof {
                            lemma_command_views_index(commands@, i as int);
                            assert(cv.skip(i as int)[0] == cv[i as int]);
                            assert(cv.skip(i as int).skip(1) =~= cv.skip(i as int + 1));
                        }
                        match commands[i].into_widget(features, cat, layout) {
                            Ok(w) => {
                                proof {
                                    lemma_widget_views_push(out@, w);
                                }
                                let ghost pre_views = widget_views(out@);
                                out.push(w);
                                proof {
                                    assert(widget_views(out@) =~= pre_views + seq![w@]);
                                    match spec_compile_list(cv.skip(i as int + 1), fv, dv, *layout) {
                                        Ok(rest) => lemma_concat_assoc(pre_views, seq![w@], rest),
                                        Err(_) => {},
                                    }
                                }
                            },
                            Err(e) => {
                                return Err(e);
                            },
                        }
                        i = i + 1;
                    }
                    proof {
                        assert(cv.skip(commands@.len() as int) =~= Seq::<CommandV>::empty());
                        assert(widget_views(out@) + Seq::<WidgetV>::empty() =~= widget_views(
                            out@,
                        ));
                    }
                    Ok(Widget::Group { label: label.clone(), children: out })
                }
            },
            CfgCommand::Quitout { hotkey } => Ok(Widget::Quitout { hotkey: clone_pkey(hotkey) }),
        }
    }
}

/// Concatenation of widget-value lists is associative.
proof fn lemma_concat_assoc(a: Seq<WidgetV>, b: Seq<WidgetV>, c: Seq<WidgetV>)
    ensures
        (a + b) + c == a + (b + c),
{
    assert((a + b) + c =~= a + (b + c));
}

/// A widget list's values, extended by one more widget's value.
pub proof fn lemma_widget_views_push(s: Seq<Widget>, w: Widget)
    ensures
        widget_views(s.push(w)) =~= widget_views(s).push(w@),
    decreases s.len(),
{
    lemma_widget_views_len(s);
    if s.len() == 0 {
        assert(s.push(w)[0] == w);
        assert(s.push(w).skip(1) =~= Seq::<Widget>::empty());
        assert(widget_views(Seq::<Widget>::empty()) == Seq::<WidgetV>::empty());
        assert(widget_views(s.push(w)) == seq![widget_view(w)] + widget_views(
            s.push(w).skip(1),
        ));
        assert(widget_views(s.push(w)) =~= seq![w@]);
        assert(widget_views(s).push(w@) =~= seq![w@]);
    } else {
        assert(s.push(w)[0] == s[0]);
        assert(s.push(w).skip(1) =~= s.skip(1).push(w));
        lemma_widget_views_push(s.skip(1), w);
        assert(widget_views(s.push(w)) == seq![widget_view(s[0])] + widget_views(
            s.skip(1).push(w),
        ));
        assert(widget_views(s.skip(1).push(w)) == widget_views(s.skip(1)).push(w@));
        assert(seq![widget_view(s[0])] + widget_views(s.skip(1)).push(w@) =~= (seq![
            widget_view(s[0]),
        ] + widget_views(s.skip(1))).push(w@));
    }
}

/// Whether a resolved feature suppresses its command.
fn suppressed(m: Option<usize>, features: &Vec<Feature>) -> (r: bool)
    ensures
        r == feat_suppressed(
            match m {
                Some(i) => Some(i as int),
                None => None,
            },
            feature_views(features@),
        ),
{
    match m {
        Some(i) => {
            if i < features.len() {
                proof {
                    assert(feature_views(features@)[i as int] == features@[i as int]@);
                }
                !features[i].visible
            } else {
                false
            }
        },
        None => false,
    }
}

/// The initial on/off state a resolved feature gives its command.
fn matched_default(m: Option<usize>, features: &Vec<Feature>) -> (r: bool)
    ensures
        r == feat_default(
            match m {
                Some(i) => Some(i as int),
                None => None,
            },
            feature_views(features@),
        ),
{
    match m {
        Some(i) => {
            if i < features.len() {
                proof {
                    assert(feature_views(features@)[i as int] == features@[i as int]@);
                }
                features[i].default
            } else {
                false
            }
        },
        None => false,
    }
}

/// Compiles a whole command list into its widget tree, or the first
/// configuration error.
pub fn compile_commands(
    commands: &Vec<CfgCommand>,
    features: &Vec<Feature>,
    cat: &Catalogue,
    layout: &MemoryLayout,
) -> (r: Result<Vec<Widget>, String>)
    requires
        layout.wf(),
        layout.geom_len == 13 || layout.geom_len >= 16,
    ensures
        widgets_result_matches(
            r,
            spec_compile_list(
                command_views(commands@),
                feature_views(features@),
                def_views(cat.defs@),
                *layout,
            ),
        ),
{
    let ghost cv = command_views(commands@);
    let ghost fv = feature_views(features@);
    let ghost dv = def_views(cat.defs@);
    let mut out: Vec<Widget> = Vec::new();
    let mut i: usize = 0;
    proof {
        lemma_command_views_len(commands@);
        assert(cv.skip(0) =~= cv);
        assert(widget_views(out@) =~= Seq::<WidgetV>::empty());
    }
    while i < commands.len()
        invariant
            i <= commands@.len(),
            commands@.len() == cv.len(),
            cv == command_views(commands@),
            fv == feature_views(features@),
            dv == def_views(cat.defs@),
            layout.wf(),
            layout.geom_len == 13 || layout.geom_len >= 16,
            spec_compile_list(cv, fv, dv, *layout) == match spec_compile_list(
                cv.skip(i as int),
                fv,
                dv,
                *layout,
            ) {
                Ok(rest) => Ok::<Seq<WidgetV>, Seq<char>>(widget_views(out@) + rest),
                Err(e) => Err::<Seq<WidgetV>, Seq<char>>(e),
            },
        decreases commands@.len() - i,
    {
        proof {
            lemma_command_views_index(commands@, i as int);
            assert(cv.skip(i as int)[0] == cv[i as int]);
            assert(cv.skip(i as int).skip(1) =~= cv.skip(i as int + 1));
        }
        match commands[i].into_widget(features, cat, layout) {
            Ok(w) => {
                proof {
                    lemma_widget_views_push(out@, w);
                }
                let ghost pre_views = widget_views(out@);
                out.push(w);
                proof {
                    assert(widget_views(out@) =~= pre_views + seq![w@]);
                    match spec_compile_list(cv.skip(i as int + 1), fv, dv, *layout) {
                        Ok(rest) => lemma_concat_assoc(pre_views, seq![w@], rest),
                        Err(_) => {},
                    }
                }
            },
            Err(e) => {
                return Err(e);
            },
        }
        i = i + 1;
    }
    proof {
        assert(cv.skip(commands@.len() as int) =~= Seq::<CommandV>::empty());
        assert(widget_views(out@) + Seq::<WidgetV>::empty() =~= widget_views(out@));
    }
    Ok(out)
}

/// Compilation is deterministic: two compilations of identical
/// command, feature, catalogue and layout inputs yield identical
/// widget trees (or the identical error), because each is pinned to
/// the same mathematical function of those inputs.
pub proof fn lemma_compile_deterministic(
    r1: Result<Seq<WidgetV>, Seq<char>>,
    r2: Result<Seq<WidgetV>, Seq<char>>,
    cmds: Seq<CommandV>,
    fs: Seq<FeatureV>,
    defs: Seq<FlagDefV>,
    layout: MemoryLayout,
)
    requires
        r1 == spec_compile_list(cmds, fs, defs, layout),
        r2 == spec_compile_list(cmds, fs, defs, layout),
    ensures
        r1 == r2,
{
}

/// Whether a command's resolved feature exists and is invisible.
pub open spec fn command_suppressed(c: CommandV, fs: Seq<FeatureV>) -> bool {
    match c {
        CommandV::Flag { flag, .. } => feat_suppressed(spec_resolve_flags(fs, seq![flag]), fs),
        CommandV::MultiFlag { flag, .. } => feat_suppressed(
            spec_resolve_flags(fs, seq![flag]),
            fs,
        ),
        CommandV::SpecialFlag { flag, .. } => (flag == "deathcam"@ || flag == "action_freeze"@)
            && feat_suppressed(spec_resolve_flags(fs, seq![flag]), fs),
        CommandV::MultiFlagUser { flags, .. } => feat_suppressed(
            spec_resolve_flags(fs, flags),
            fs,
        ),
        CommandV::Group { label, .. } => feat_suppressed(spec_first_group(fs, label, 0), fs),
        _ => false,
    }
}

/// A compiled tree has exactly one widget per command, in order.
pub proof fn lemma_compile_preserves_positions(
    cmds: Seq<CommandV>,
    fs: Seq<FeatureV>,
    defs: Seq<FlagDefV>,
    layout: MemoryLayout,
    ws: Seq<WidgetV>,
)
    requires
        spec_compile_list(cmds, fs, defs, layout) == Ok::<Seq<WidgetV>, Seq<char>>(ws),
    ensures
        ws.len() == cmds.len(),
    decreases cmds.len(),
{
    if cmds.len() > 0 {
        match spec_into_widget(cmds[0], fs, defs, layout) {
            Ok(w) => {
                match spec_compile_list(cmds.skip(1), fs, defs, layout) {
                    Ok(rest) => {
                        lemma_compile_preserves_positions(cmds.skip(1), fs, defs, layout, rest);
                    },
                    Err(_) => {},
                }
            },
            Err(_) => {},
        }
    }
}

/// A command suppressed by an invisible feature compiles to the
/// inert widget, and the inert widget stands at the command's own
/// position in the tree: ordering is preserved.
pub proof fn lemma_suppressed_is_inert(
    cmds: Seq<CommandV>,
    fs: Seq<FeatureV>,
    defs: Seq<FlagDefV>,
    layout: MemoryLayout,
    ws: Seq<WidgetV>,
    i: int,
)
    requires
        spec_compile_list(cmds, fs, defs, layout) == Ok::<Seq<WidgetV>, Seq<char>>(ws),
        0 <= i < cmds.len(),
        command_suppressed(cmds[i], fs),
    ensures
        ws.len() == cmds.len(),
        ws[i] == WidgetV::Inert,
    decreases cmds.len(),
{
    lemma_compile_preserves_positions(cmds, fs, defs, layout, ws);
    match spec_into_widget(cmds[0], fs, defs, layout) {
        Ok(w) => {
            match spec_compile_list(cmds.skip(1), fs, defs, layout) {
                Ok(rest) => {
                    if i == 0 {
                        assert(w == WidgetV::Inert);
                    } else {
                        lemma_suppressed_is_inert(cmds.skip(1), fs, defs, layout, rest, i - 1);
                    }
                },
                Err(_) => {},
            }
        },
        Err(_) => {},
    }
}

/// For a command naming the single flag `flag`, a feature naming
/// exactly that flag decides visibility and default, whatever
/// flag-set features also stand in the list and wherever they
/// stand: the single-flag pass runs first.
pub proof fn lemma_flag_feature_precedence(
    flag: Seq<char>,
    hotkey: Option<Seq<crate::input::KeyCode>>,
    fs: Seq<FeatureV>,
    defs: Seq<FlagDefV>,
    layout: MemoryLayout,
    i: int,
)
    requires
        crate::feature::spec_first_single(fs, flag, 0) == Some(i),
        0 <= i < fs.len(),
    ensures
        !fs[i].visible ==> spec_into_widget(
            CommandV::Flag { flag, hotkey },
            fs,
            defs,
            layout,
        ) == Ok::<WidgetV, Seq<char>>(WidgetV::Inert),
        fs[i].visible ==> (spec_resolve(defs, flag) matches Some(d) ==> spec_into_widget(
            CommandV::Flag { flag, hotkey },
            fs,
            defs,
            layout,
        ) == Ok::<WidgetV, Seq<char>>(
            WidgetV::Flag {
                label: d.label,
                cell: d.cell,
                hotkey,
                default: fs[i].default,
            },
        )),
{
    crate::feature::lemma_single_beats_set(fs, seq![flag], i);
    assert(seq![flag][0] == flag);
}

} // verus!
