//! Tests of the radial-menu state machine: normalization, the
//! debounce window, and the input gate's exclusivity protocol.

use practice_tool::input::{PAD_A, PAD_B, PAD_L3, PAD_R3};
use practice_tool::{
    ControllerCombination, InputGate, Key, KeyCode, PadState, RadialMenu, RadialState,
    isqrt64, normalize_stick, radial_frame_begin, radial_frame_end,
};

#[test]
fn integer_square_root() {
    assert_eq!(isqrt64(0), 0);
    assert_eq!(isqrt64(1), 1);
    assert_eq!(isqrt64(3), 1);
    assert_eq!(isqrt64(4), 2);
    assert_eq!(isqrt64(99), 9);
    assert_eq!(isqrt64(100), 10);
    assert_eq!(isqrt64(2147483648), 46340);
}

#[test]
fn normalization_is_exact_on_clean_vectors() {
    // A 3-4-5 triangle normalizes without any rounding.
    assert_eq!(normalize_stick(30000, 40000), (6000, 8000));
    assert_eq!(normalize_stick(-30000, 40000), (-6000, 8000));
    assert_eq!(normalize_stick(20000, 0), (10000, 0));
    assert_eq!(normalize_stick(0, -20000), (0, -10000));
}

#[test]
fn normalization_preserves_direction_and_magnitude() {
    let cases: [(i32, i32); 6] = [
        (20000, 0),
        (0, 20000),
        (-20000, 0),
        (30000, -30000),
        (12000, 5000),
        (-11111, 22222),
    ];
    for (x, y) in cases {
        let (nx, ny) = normalize_stick(x, y);
        // Signs are preserved.
        assert_eq!(nx >= 0, x >= 0);
        assert_eq!(ny >= 0, y >= 0);
        // Magnitude is unit within a few parts in ten thousand.
        let mag2 = (nx as i64) * (nx as i64) + (ny as i64) * (ny as i64);
        assert!(mag2 > 9997 * 9997, "magnitude too small for ({x},{y}): {mag2}");
        assert!(mag2 < 10001 * 10001, "magnitude too large for ({x},{y}): {mag2}");
        // Direction is preserved: the cross product against the
        // input is bounded by the input's coordinate sum.
        let cross = (nx as i64) * (y as i64) - (ny as i64) * (x as i64);
        let bound = (x as i64).abs() + (y as i64).abs();
        assert!(cross.abs() <= bound, "direction moved for ({x},{y}): {cross}");
    }
}

fn combo() -> Option<ControllerCombination> {
    Some(ControllerCombination { mask: PAD_L3 | PAD_R3 })
}

fn pad_with(buttons: u16, lx: i16, ly: i16) -> PadState {
    PadState { buttons, left_x: lx, left_y: ly, right_x: 0, right_y: 0 }
}

#[test]
fn deflection_inside_debounce_window_is_ignored() {
    let mut state = RadialState::new();
    let mut gate = InputGate::new();
    // Opening the menu with the stick already deflected: the
    // deflection must not rotate the selection.
    radial_frame_begin(&mut state, &mut gate, &combo(), pad_with(PAD_L3 | PAD_R3, 20000, 0), 1000);
    assert!(gate.is_open());
    assert_eq!((state.stick_x, state.stick_y), (0, 0));
    // Still within the 150 ms window: ignored.
    radial_frame_begin(&mut state, &mut gate, &combo(), pad_with(0, 20000, 0), 1100);
    assert_eq!((state.stick_x, state.stick_y), (0, 0));
    // After the window the deflection counts.
    radial_frame_begin(&mut state, &mut gate, &combo(), pad_with(0, 20000, 0), 1200);
    assert_eq!((state.stick_x, state.stick_y), (10000, 0));
}

#[test]
fn deflection_below_deadzone_is_ignored() {
    let mut state = RadialState::new();
    let mut gate = InputGate::new();
    radial_frame_begin(&mut state, &mut gate, &combo(), pad_with(PAD_L3 | PAD_R3, 0, 0), 0);
    radial_frame_begin(&mut state, &mut gate, &combo(), pad_with(0, 9000, 0), 200);
    assert_eq!((state.stick_x, state.stick_y), (0, 0));
    radial_frame_begin(&mut state, &mut gate, &combo(), pad_with(0, 0, 20000), 400);
    // The vertical axis is inverted: stick up points the menu up.
    assert_eq!((state.stick_x, state.stick_y), (0, -10000));
}

fn menu_entries() -> Vec<RadialMenu> {
    vec![
        RadialMenu { key: Key { codes: vec![KeyCode::F6] }, label: "first".to_string() },
        RadialMenu {
            key: Key { codes: vec![KeyCode::L3, KeyCode::R3] },
            label: "second".to_string(),
        },
    ]
}

#[test]
fn confirm_release_with_selection_enqueues_and_closes() {
    let mut state = RadialState::new();
    let mut gate = InputGate::new();
    let entries = menu_entries();
    let mut queue: Vec<KeyCode> = Vec::new();
    // Open the menu while confirm is held.
    radial_frame_begin(&mut state, &mut gate, &combo(), pad_with(PAD_L3 | PAD_R3 | PAD_A, 0, 0), 0);
    assert!(gate.is_open());
    // Confirm released with the second entry hovered: its key
    // sequence is enqueued, once, and the input gate closes.
    radial_frame_begin(&mut state, &mut gate, &combo(), pad_with(0, 0, 0), 300);
    assert!(state.released_confirm);
    radial_frame_end(&state, &mut gate, &entries, Some(1), &mut queue);
    assert!(!gate.is_open());
    assert_eq!(queue, vec![KeyCode::L3, KeyCode::R3]);
}

#[test]
fn confirm_release_without_selection_just_closes() {
    let mut state = RadialState::new();
    let mut gate = InputGate::new();
    let entries = menu_entries();
    let mut queue: Vec<KeyCode> = Vec::new();
    radial_frame_begin(&mut state, &mut gate, &combo(), pad_with(PAD_L3 | PAD_R3 | PAD_A, 0, 0), 0);
    radial_frame_begin(&mut state, &mut gate, &combo(), pad_with(0, 0, 0), 300);
    radial_frame_end(&state, &mut gate, &entries, None, &mut queue);
    assert!(!gate.is_open());
    assert!(queue.is_empty());
}

#[test]
fn cancel_release_closes_and_enqueues_nothing() {
    let mut state = RadialState::new();
    let mut gate = InputGate::new();
    let entries = menu_entries();
    let mut queue: Vec<KeyCode> = Vec::new();
    radial_frame_begin(&mut state, &mut gate, &combo(), pad_with(PAD_L3 | PAD_R3 | PAD_B, 0, 0), 0);
    assert!(gate.is_open());
    radial_frame_begin(&mut state, &mut gate, &combo(), pad_with(0, 0, 0), 300);
    assert!(state.released_cancel);
    radial_frame_end(&state, &mut gate, &entries, Some(0), &mut queue);
    assert!(!gate.is_open());
    assert!(queue.is_empty());
}

#[test]
fn closed_gate_means_no_selection_at_all() {
    let mut state = RadialState::new();
    let mut gate = InputGate::new();
    let entries = menu_entries();
    let mut queue: Vec<KeyCode> = Vec::new();
    // Confirm pressed and released with the input gate closed: nothing.
    radial_frame_begin(&mut state, &mut gate, &combo(), pad_with(PAD_A, 0, 0), 0);
    radial_frame_begin(&mut state, &mut gate, &combo(), pad_with(0, 0, 0), 100);
    assert!(state.released_confirm);
    radial_frame_end(&state, &mut gate, &entries, Some(0), &mut queue);
    assert!(!gate.is_open());
    assert!(queue.is_empty());
}

#[test]
fn no_combination_disables_the_menu() {
    let mut state = RadialState::new();
    let mut gate = InputGate::new();
    radial_frame_begin(&mut state, &mut gate, &None, pad_with(PAD_L3 | PAD_R3, 20000, 0), 0);
    assert!(!gate.is_open());
    assert_eq!((state.stick_x, state.stick_y), (0, 0));
}
