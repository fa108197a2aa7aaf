//! Tests of hotkey and controller-combination parsing and polling.

use practice_tool::{ControllerCombination, Key, KeyCode, KeyboardFrame, PadState};
use practice_tool::input::{PAD_A, PAD_L3, PAD_R3};

#[test]
fn key_parsing_accepts_configured_forms() {
    let k = Key::try_from(&"F2".to_string()).unwrap();
    assert_eq!(k.codes, vec![KeyCode::F2]);
    let k = Key::try_from(&"rshift+f2".to_string()).unwrap();
    assert_eq!(k.codes, vec![KeyCode::RShift, KeyCode::F2]);
    let k = Key::try_from(&"Ctrl+Alt+A".to_string()).unwrap();
    assert_eq!(k.codes, vec![KeyCode::Ctrl, KeyCode::Alt, KeyCode::Printable('a')]);
    let k = Key::try_from(&"f10".to_string()).unwrap();
    assert_eq!(k.codes, vec![KeyCode::F10]);
    let k = Key::try_from(&"7".to_string()).unwrap();
    assert_eq!(k.codes, vec![KeyCode::Printable('7')]);
    let k = Key::try_from(&"l3+r3".to_string()).unwrap();
    assert_eq!(k.codes, vec![KeyCode::L3, KeyCode::R3]);
}

#[test]
fn key_parsing_rejects_malformed_strings() {
    assert!(Key::try_from(&"".to_string()).is_none());
    assert!(Key::try_from(&"foo".to_string()).is_none());
    assert!(Key::try_from(&"ctrl+".to_string()).is_none());
    assert!(Key::try_from(&"+f2".to_string()).is_none());
    assert!(Key::try_from(&"f13".to_string()).is_none());
    assert!(Key::try_from(&"ab".to_string()).is_none());
}

#[test]
fn key_press_needs_all_held_and_last_fresh() {
    let k = Key::try_from(&"rshift+f2".to_string()).unwrap();
    let held_both_fresh_f2 = KeyboardFrame {
        held: vec![KeyCode::RShift, KeyCode::F2],
        fresh: vec![KeyCode::F2],
    };
    assert!(k.is_pressed(&held_both_fresh_f2));
    // The modifier alone being fresh does not fire the hotkey.
    let fresh_shift_only = KeyboardFrame {
        held: vec![KeyCode::RShift, KeyCode::F2],
        fresh: vec![KeyCode::RShift],
    };
    assert!(!k.is_pressed(&fresh_shift_only));
    // A missing component does not fire it either.
    let missing_modifier = KeyboardFrame { held: vec![KeyCode::F2], fresh: vec![KeyCode::F2] };
    assert!(!k.is_pressed(&missing_modifier));
}

#[test]
fn key_codes_are_appended_in_order() {
    let k = Key::try_from(&"l3+r3".to_string()).unwrap();
    let mut queue = vec![KeyCode::F1];
    k.keys(&mut queue);
    assert_eq!(queue, vec![KeyCode::F1, KeyCode::L3, KeyCode::R3]);
}

#[test]
fn controller_combination_parsing_and_polling() {
    let c = ControllerCombination::try_from(&"l3+r3".to_string()).unwrap();
    assert_eq!(c.mask, PAD_L3 | PAD_R3);
    assert!(ControllerCombination::try_from(&"l3+pause".to_string()).is_none());

    let mut pad = PadState::neutral();
    assert!(!c.is_pressed(&pad));
    pad.buttons = PAD_L3 | PAD_R3 | PAD_A;
    assert!(c.is_pressed(&pad));
    pad.buttons = PAD_L3;
    assert!(!c.is_pressed(&pad));
}
