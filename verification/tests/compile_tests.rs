//! Tests of the command compiler: feature resolution, suppression,
//! ordering, determinism, and the end-to-end behavior of compiled
//! widgets against a fake memory image.

use practice_tool::feature::FeatureConfig;
use practice_tool::input::KeyCode;
use practice_tool::memory::FlagDef;
use practice_tool::{
    Catalogue, CfgCommand, Feature, FlagSpec, Key, KeyboardFrame, MemoryHandle, MemoryLayout,
    MultiFlagSpec, NoneWidget, Widget, compile_commands,
};

fn key(code: KeyCode) -> Key {
    Key { codes: vec![code] }
}

fn feature_single(name: &str, default: bool, visible: bool) -> Feature {
    Feature {
        flag: Some(name.to_string()),
        flags: None,
        group: None,
        default,
        visible,
    }
}

fn feature_set(names: &[&str], default: bool, visible: bool) -> Feature {
    Feature {
        flag: None,
        flags: Some(names.iter().map(|s| s.to_string()).collect()),
        group: None,
        default,
        visible,
    }
}

fn tiny_catalogue() -> (Catalogue, MemoryLayout) {
    let defs = vec![
        FlagDef { name: "a".to_string(), label: "Flag A".to_string(), cell: 0 },
        FlagDef { name: "b".to_string(), label: "Flag B".to_string(), cell: 1 },
    ];
    (Catalogue { defs }, MemoryLayout { flag_cells: 2, geom_len: 13 })
}

fn pressed(code: KeyCode) -> KeyboardFrame {
    KeyboardFrame { held: vec![code], fresh: vec![code] }
}

#[test]
fn suppressed_flag_compiles_to_inert_and_is_noop() {
    // A visible=false feature matching the command's flag name
    // yields the inert widget, and its hotkey cannot touch memory.
    let cat = Catalogue::standard();
    let layout = Catalogue::standard_layout(16);
    let commands = vec![CfgCommand::Flag {
        flag: "no_damage".to_string(),
        hotkey: Some(key(KeyCode::F1)),
    }];
    let features = vec![feature_single("no_damage", false, false)];
    let widgets = compile_commands(&commands, &features, &cat, &layout).unwrap();
    assert_eq!(widgets.len(), 1);
    assert!(matches!(widgets[0], Widget::Inert(_)));

    let mut handle = MemoryHandle::new_all_off(&layout);
    let before = handle.cells.clone();
    widgets[0].interact(&mut handle, &pressed(KeyCode::F1));
    assert_eq!(handle.cells, before);
}

#[test]
fn multi_flag_toggles_cells_together() {
    // With no matching feature the user multi-flag is live, and its
    // hotkey flips every bound cell to one synchronized value.
    let (cat, layout) = tiny_catalogue();
    let commands = vec![CfgCommand::MultiFlagUser {
        flags: vec!["a".to_string(), "b".to_string()],
        hotkey: Some(key(KeyCode::F2)),
        label: "AB".to_string(),
    }];
    let widgets = compile_commands(&commands, &vec![], &cat, &layout).unwrap();
    assert_eq!(widgets.len(), 1);
    assert!(matches!(widgets[0], Widget::MultiFlag { .. }));

    let mut handle = MemoryHandle::new_all_off(&layout);
    widgets[0].interact(&mut handle, &pressed(KeyCode::F2));
    assert_eq!(handle.cells[0], Some(true));
    assert_eq!(handle.cells[1], Some(true));
    widgets[0].interact(&mut handle, &pressed(KeyCode::F2));
    assert_eq!(handle.cells[0], Some(false));
    assert_eq!(handle.cells[1], Some(false));

    // Desynchronized cells end up synchronized: the first available
    // cell decides.
    handle.cells[0] = Some(true);
    handle.cells[1] = Some(false);
    widgets[0].interact(&mut handle, &pressed(KeyCode::F2));
    assert_eq!(handle.cells[0], Some(false));
    assert_eq!(handle.cells[1], Some(false));
}

#[test]
fn flag_toggle_without_feature() {
    let (cat, layout) = tiny_catalogue();
    let commands = vec![CfgCommand::Flag { flag: "a".to_string(), hotkey: Some(key(KeyCode::F3)) }];
    let widgets = compile_commands(&commands, &vec![], &cat, &layout).unwrap();
    let mut handle = MemoryHandle::new_all_off(&layout);
    widgets[0].interact(&mut handle, &pressed(KeyCode::F3));
    assert_eq!(handle.cells[0], Some(true));
    assert_eq!(handle.cells[1], Some(false));
    // A different key does nothing.
    widgets[0].interact(&mut handle, &pressed(KeyCode::F4));
    assert_eq!(handle.cells[0], Some(true));
    // An unavailable cell is tolerated, not an error.
    handle.cells[0] = None;
    widgets[0].interact(&mut handle, &pressed(KeyCode::F3));
    assert_eq!(handle.cells[0], None);
}

#[test]
fn single_flag_feature_wins_over_flag_set_feature() {
    // Both features could match the command's flag set {a}; the one
    // naming the single flag decides, although it stands later in
    // the list.
    let (cat, layout) = tiny_catalogue();
    let features = vec![
        feature_set(&["a"], false, true),
        feature_single("a", false, false),
    ];
    let commands = vec![CfgCommand::Flag { flag: "a".to_string(), hotkey: None }];
    let widgets = compile_commands(&commands, &features, &cat, &layout).unwrap();
    assert!(matches!(widgets[0], Widget::Inert(_)));
}

#[test]
fn flag_set_matching_is_order_independent() {
    let (cat, layout) = tiny_catalogue();
    let features = vec![feature_set(&["b", "a"], false, false)];
    let commands = vec![CfgCommand::MultiFlagUser {
        flags: vec!["a".to_string(), "b".to_string()],
        hotkey: None,
        label: "AB".to_string(),
    }];
    let widgets = compile_commands(&commands, &features, &cat, &layout).unwrap();
    assert!(matches!(widgets[0], Widget::Inert(_)));
}

#[test]
fn suppressed_command_keeps_its_position() {
    let (cat, layout) = tiny_catalogue();
    let features = vec![feature_single("a", false, false)];
    let commands = vec![
        CfgCommand::Label { label: "first".to_string() },
        CfgCommand::Flag { flag: "a".to_string(), hotkey: None },
        CfgCommand::Label { label: "last".to_string() },
    ];
    let widgets = compile_commands(&commands, &features, &cat, &layout).unwrap();
    assert_eq!(widgets.len(), 3);
    assert!(matches!(widgets[0], Widget::Label { .. }));
    assert!(matches!(widgets[1], Widget::Inert(_)));
    assert!(matches!(widgets[2], Widget::Label { .. }));
}

#[test]
fn group_compiles_recursively_and_can_be_suppressed() {
    let (cat, layout) = tiny_catalogue();
    let commands = vec![CfgCommand::Group {
        label: "tools".to_string(),
        commands: vec![CfgCommand::Flag { flag: "a".to_string(), hotkey: Some(key(KeyCode::F5)) }],
    }];
    let widgets = compile_commands(&commands, &vec![], &cat, &layout).unwrap();
    match &widgets[0] {
        Widget::Group { children, .. } => {
            assert_eq!(children.len(), 1);
            assert!(matches!(children[0], Widget::Flag { .. }));
        },
        _ => panic!("expected a group"),
    }
    // Interacting with the group reaches the nested flag.
    let mut handle = MemoryHandle::new_all_off(&layout);
    widgets[0].interact(&mut handle, &pressed(KeyCode::F5));
    assert_eq!(handle.cells[0], Some(true));

    // A feature naming the group's label suppresses the whole group.
    let features = vec![Feature {
        flag: None,
        flags: None,
        group: Some("tools".to_string()),
        default: false,
        visible: false,
    }];
    let widgets = compile_commands(&commands, &features, &cat, &layout).unwrap();
    assert!(matches!(widgets[0], Widget::Inert(_)));
}

#[test]
fn unknown_flag_is_a_hard_error_naming_the_offender() {
    let (cat, layout) = tiny_catalogue();
    let commands = vec![CfgCommand::Flag { flag: "nonsense".to_string(), hotkey: None }];
    let err = compile_commands(&commands, &vec![], &cat, &layout).unwrap_err();
    assert_eq!(err, "\"nonsense\" is not a valid flag specifier");
}

#[test]
fn unknown_special_flag_is_a_hard_error() {
    let (cat, layout) = tiny_catalogue();
    let commands = vec![CfgCommand::SpecialFlag { flag: "bogus".to_string(), hotkey: None }];
    let err = compile_commands(&commands, &vec![], &cat, &layout).unwrap_err();
    assert_eq!(err, "Invalid flag bogus");

    let commands = vec![CfgCommand::SpecialFlag { flag: "deathcam".to_string(), hotkey: None }];
    let widgets = compile_commands(&commands, &vec![], &cat, &layout).unwrap();
    assert!(matches!(widgets[0], Widget::Deathcam { .. }));
    let commands =
        vec![CfgCommand::SpecialFlag { flag: "action_freeze".to_string(), hotkey: None }];
    let widgets = compile_commands(&commands, &vec![], &cat, &layout).unwrap();
    assert!(matches!(widgets[0], Widget::ActionFreeze { .. }));
}

#[test]
fn compilation_is_deterministic() {
    // Identical inputs, compiled twice: structurally identical
    // trees, indistinguishable in every observable way.
    let cat = Catalogue::standard();
    let layout = Catalogue::standard_layout(16);
    let features = Feature::default_set();
    let commands = || {
        vec![
            CfgCommand::Flag { flag: "one_shot".to_string(), hotkey: Some(key(KeyCode::F1)) },
            CfgCommand::MultiFlag { flag: "show_map".to_string(), hotkey: Some(key(KeyCode::F2)) },
            CfgCommand::Label { label: "hello".to_string() },
            CfgCommand::Group {
                label: "g".to_string(),
                commands: vec![CfgCommand::Flag { flag: "gravity".to_string(), hotkey: None }],
            },
        ]
    };
    let w1 = compile_commands(&commands(), &features, &cat, &layout).unwrap();
    let w2 = compile_commands(&commands(), &features, &cat, &layout).unwrap();
    assert_eq!(w1.len(), w2.len());
    let mut h1 = MemoryHandle::new_all_off(&layout);
    let mut h2 = MemoryHandle::new_all_off(&layout);
    for code in [KeyCode::F1, KeyCode::F2] {
        for w in &w1 {
            w.interact(&mut h1, &pressed(code));
        }
        for w in &w2 {
            w.interact(&mut h2, &pressed(code));
        }
        assert_eq!(h1.cells, h2.cells);
    }
}

#[test]
fn standard_catalogue_resolution() {
    let cat = Catalogue::standard();
    let spec = FlagSpec::try_from(&"one_shot".to_string(), &cat).unwrap();
    assert_eq!(spec.label, "One shot");
    assert_eq!(spec.cell, 0);
    let spec = FlagSpec::try_from(&"show_all_graces".to_string(), &cat).unwrap();
    assert_eq!(spec.label, "Show all graces");
    assert_eq!(spec.cell, 32);
    let err = FlagSpec::try_from(&"show_map".to_string(), &cat).unwrap_err();
    assert_eq!(err, "\"show_map\" is not a valid flag specifier");
}

#[test]
fn show_map_cells_depend_on_host_build() {
    // Sixteen geometry cells: all sixteen are used.
    let layout = Catalogue::standard_layout(16);
    let mf = MultiFlagSpec::try_from(&"show_map".to_string(), &layout).unwrap();
    assert_eq!(mf.label, "Show/hide map");
    let expect: Vec<usize> = (0..16).map(|i| 33 + i).collect();
    assert_eq!(mf.cells, expect);

    // Thirteen geometry cells: the last three fall back to the
    // thirteenth.
    let layout = Catalogue::standard_layout(13);
    let mf = MultiFlagSpec::try_from(&"show_map".to_string(), &layout).unwrap();
    let mut expect: Vec<usize> = (0..13).map(|i| 33 + i).collect();
    expect.extend([33 + 12, 33 + 12, 33 + 12]);
    assert_eq!(mf.cells, expect);

    let err = MultiFlagSpec::try_from(&"bogus".to_string(), &layout).unwrap_err();
    assert_eq!(err, "\"bogus\" is not a valid multiflag specifier");
}

#[test]
fn feature_config_requires_exactly_one_reference() {
    let bad = FeatureConfig {
        flag: Some("a".to_string()),
        flags: Some(vec!["b".to_string()]),
        group: None,
        default: false,
        visible: true,
    };
    assert_eq!(Feature::try_from(bad).unwrap_err(), "Invalid feature config");
    let none = FeatureConfig { flag: None, flags: None, group: None, default: false, visible: true };
    assert_eq!(Feature::try_from(none).unwrap_err(), "Invalid feature config");
    let good = FeatureConfig {
        flag: Some("a".to_string()),
        flags: None,
        group: None,
        default: true,
        visible: false,
    };
    let f = Feature::try_from(good).unwrap();
    assert_eq!(f.flag.as_deref(), Some("a"));
    assert!(f.default);
    assert!(!f.visible);
}

#[test]
fn default_feature_set_contents() {
    let fs = Feature::default_set();
    assert_eq!(fs.len(), 26);
    assert_eq!(fs[0].flag.as_deref(), Some("show_all_map_layers"));
    assert!(!fs[0].visible);
    assert_eq!(
        fs[1].flags.as_ref().unwrap(),
        &vec!["show_all_graces".to_string(), "show_all_map_layers".to_string()]
    );
    assert_eq!(fs[3].flag.as_deref(), Some("show_chr"));
    assert!(fs[3].visible);
    assert_eq!(fs[25].flag.as_deref(), Some("action_freeze"));
    for f in &fs {
        assert!(!f.default);
        assert!(f.group.is_none());
    }
}

#[test]
fn none_widget_does_nothing() {
    let layout = MemoryLayout { flag_cells: 1, geom_len: 0 };
    let mut handle = MemoryHandle::new_all_off(&layout);
    let mut w = NoneWidget {};
    w.render();
    w.interact(&mut handle);
    w.action();
    assert!(w.log().is_none());
    assert_eq!(handle.cells, vec![Some(false)]);
}
