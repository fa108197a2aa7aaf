//! Tests of the per-frame dispatch: the interface state machine,
//! the synthetic key queues, the log buffer, the intercepted poll,
//! the binary patches, the indicator text, and attach-time
//! activation.

use practice_tool::{
    BytePatch, Catalogue, Config, FontChoice, GesturePoll, GestureWait, InputGate, KeyCode,
    KeyboardFrame, LevelFilterSerde, LogLevel, MemoryHandle, MemoryLayout, PadState,
    RenderDispatch, ToolState, UiState, activation_requires_gesture, font_choice,
    frame_count_text, igt_text, map_id_text, version_label,
};
use practice_tool::gate::gated_poll;
use practice_tool::indicator::{Indicator, IndicatorConfig, IndicatorType};
use practice_tool::patch::{apply_event_patches, apply_font_patch, apply_no_logo, apply_patch};

#[test]
fn ui_state_transitions() {
    // display toggles the panel open and closed.
    assert_eq!(UiState::Closed.next(true, false, false), UiState::MenuOpen);
    assert_eq!(UiState::MenuOpen.next(true, false, false), UiState::Closed);
    // hide wins over display and hides from anywhere...
    assert_eq!(UiState::Closed.next(true, true, false), UiState::Hidden);
    assert_eq!(UiState::MenuOpen.next(false, true, false), UiState::Hidden);
    // ...except that hidden always comes back to closed.
    assert_eq!(UiState::Hidden.next(false, true, false), UiState::Closed);
    assert_eq!(UiState::Hidden.next(true, false, false), UiState::Closed);
    // Nothing moves while the interface wants the keyboard, or
    // without a key.
    assert_eq!(UiState::Closed.next(true, false, true), UiState::Closed);
    assert_eq!(UiState::MenuOpen.next(false, false, false), UiState::MenuOpen);
}

#[test]
fn key_queues_inject_one_press_release_pair() {
    let mut state = tool_state_with_default_config();
    state.press_queue = vec![KeyCode::L3, KeyCode::R3];
    // First frame: both presses go out, releases are queued.
    let events = state.before_render();
    assert_eq!(events, vec![(KeyCode::L3, true), (KeyCode::R3, true)]);
    assert_eq!(state.release_queue, vec![KeyCode::L3, KeyCode::R3]);
    assert!(state.press_queue.is_empty());
    // Second frame: exactly the matching releases, nothing more.
    let events = state.before_render();
    assert_eq!(events, vec![(KeyCode::L3, false), (KeyCode::R3, false)]);
    assert!(state.release_queue.is_empty());
    let events = state.before_render();
    assert!(events.is_empty());
}

fn tool_state_with_default_config() -> ToolState {
    let cat = Catalogue::standard();
    let layout = Catalogue::standard_layout(16);
    ToolState::new(
        Ok(Config::default()),
        &"er_invasion_tool.toml".to_string(),
        &cat,
        &layout,
    )
}

#[test]
fn tool_state_starts_closed_and_counts_frames() {
    let mut state = tool_state_with_default_config();
    assert_eq!(state.ui_state, UiState::Closed);
    assert_eq!(state.framecount, 0);
    assert!(state.config_err.is_none());
    let kb = KeyboardFrame { held: vec![], fresh: vec![] };
    let (dispatch, cursor) = state.frame_step(&kb, false, 0, vec![]);
    assert_eq!(dispatch, RenderDispatch::Closed);
    assert!(!cursor);
    assert_eq!(state.framecount, 1);
    // The display hotkey (F2 by default) opens the panel and shows
    // the cursor.
    let kb = KeyboardFrame { held: vec![KeyCode::F2], fresh: vec![KeyCode::F2] };
    let (dispatch, cursor) = state.frame_step(&kb, false, 16, vec![]);
    assert_eq!(dispatch, RenderDispatch::Visible);
    assert!(cursor);
    // The hide hotkey (rshift+f2 by default) hides everything.
    let kb = KeyboardFrame {
        held: vec![KeyCode::RShift, KeyCode::F2],
        fresh: vec![KeyCode::F2],
    };
    let (dispatch, _) = state.frame_step(&kb, false, 32, vec![]);
    assert_eq!(dispatch, RenderDispatch::Hidden);
}

#[test]
fn failed_configuration_falls_back_with_a_diagnostic() {
    let cat = Catalogue::standard();
    let layout = Catalogue::standard_layout(16);
    let state = ToolState::new(
        Err("TOML config error at commands: data did not match any variant".to_string()),
        &"er_invasion_tool.toml".to_string(),
        &cat,
        &layout,
    );
    assert!(state.widgets.is_empty());
    assert_eq!(
        state.config_err.as_deref(),
        Some(
            "Configuration error, please review your er_invasion_tool.toml file.\n\nTOML \
             config error at commands: data did not match any variant"
        )
    );
}

#[test]
fn log_buffer_drops_old_entries_and_shows_the_last_three() {
    let mut state = tool_state_with_default_config();
    let kb = KeyboardFrame { held: vec![], fresh: vec![] };
    state.frame_step(&kb, false, 1000, vec!["one".to_string(), "two".to_string()]);
    assert_eq!(state.logs.entries.len(), 2);
    // Within the five-second window everything stays.
    state.frame_step(&kb, false, 3000, vec!["three".to_string(), "four".to_string()]);
    assert_eq!(state.logs.entries.len(), 4);
    let recent = state.logs.recent();
    assert_eq!(recent, vec!["two".to_string(), "three".to_string(), "four".to_string()]);
    // Five seconds later the first batch is gone.
    state.frame_step(&kb, false, 6100, vec![]);
    assert_eq!(state.logs.entries.len(), 2);
    assert_eq!(state.logs.recent(), vec!["three".to_string(), "four".to_string()]);
}

#[test]
fn font_choice_by_display_width() {
    assert_eq!(font_choice(1000), FontChoice::Small);
    assert_eq!(font_choice(1200), FontChoice::Small);
    assert_eq!(font_choice(1201), FontChoice::Normal);
    assert_eq!(font_choice(2000), FontChoice::Normal);
    assert_eq!(font_choice(2001), FontChoice::Big);
}

#[test]
fn intercepted_poll_is_transparent_until_gated() {
    let raw = PadState { buttons: 0x1040, left_x: 123, left_y: -456, right_x: 7, right_y: 8 };
    let mut gate = InputGate::new();
    assert_eq!(gated_poll(raw, &gate), raw);
    gate.raise();
    assert_eq!(gated_poll(raw, &gate), PadState::neutral());
    gate.lower();
    assert_eq!(gated_poll(raw, &gate), raw);
}

#[test]
fn best_effort_patches_apply_only_on_their_pattern() {
    // The intro-screen patch: its two-byte pattern becomes no-ops.
    let mut image = vec![0x00, 0x74, 0x53, 0xff];
    assert!(apply_no_logo(&mut image, 1));
    assert_eq!(image, vec![0x00, 0x90, 0x90, 0xff]);
    // A changed host build: the pattern is absent and nothing moves.
    let mut image = vec![0x00, 0x75, 0x53, 0xff];
    assert!(!apply_no_logo(&mut image, 1));
    assert_eq!(image, vec![0x00, 0x75, 0x53, 0xff]);
    // Out of range: nothing moves either.
    let mut image = vec![0x74];
    assert!(!apply_no_logo(&mut image, 0));
    assert_eq!(image, vec![0x74]);

    // The two event patches are independent: one site patched, the
    // other mismatched.
    let mut image = vec![0x32, 0xc0, 0x00, 0x32, 0xc1];
    let (first, second) = apply_event_patches(&mut image, 0, 3);
    assert!(first);
    assert!(!second);
    assert_eq!(image, vec![0xb0, 0x01, 0x00, 0x32, 0xc1]);

    // The font patch turns the function head into a return.
    let mut image = vec![0x48, 0x8b];
    assert!(apply_font_patch(&mut image, 0));
    assert_eq!(image, vec![0xc3, 0x8b]);

    // A custom patch through the general entry point.
    let patch = BytePatch { offset: 2, expected: vec![0xaa], replacement: vec![0xbb] };
    let mut image = vec![0x00, 0x11, 0xaa];
    assert!(apply_patch(&mut image, &patch));
    assert_eq!(image, vec![0x00, 0x11, 0xbb]);
}

#[test]
fn indicator_text_formats() {
    // 1 hour, 2 minutes, 3 seconds, 45 centiseconds.
    assert_eq!(igt_text(3723450), "IGT 01:02:03.45");
    assert_eq!(igt_text(0), "IGT 00:00:00.00");
    assert_eq!(igt_text(59999), "IGT 00:00:59.99");
    assert_eq!(map_id_text(0x0a0b0c0d), "m0a_0b_0c_0d");
    assert_eq!(map_id_text(0xffeedd00), "mff_ee_dd_00");
    assert_eq!(version_label(2, 10, 1), "Game Ver 2.10.1");
    assert_eq!(version_label(1, 2, 3), "Game Ver 1.02.3");
    assert_eq!(frame_count_text(0), "Frame count 0");
    assert_eq!(frame_count_text(12345), "Frame count 12345");
}

#[test]
fn activation_gesture_needed_only_under_the_input_library_name() {
    assert!(activation_requires_gesture(&"dinput8.dll".to_string()));
    assert!(activation_requires_gesture(&"DINPUT8.DLL".to_string()));
    assert!(activation_requires_gesture(&"DInput8.dll".to_string()));
    assert!(!activation_requires_gesture(&"practice_tool.dll".to_string()));
    assert!(!activation_requires_gesture(&"dinput8.dl".to_string()));
}

#[test]
fn activation_gesture_must_be_held_within_the_window() {
    let mut wait = GestureWait::new(0);
    assert_eq!(wait.step(100, false), GesturePoll::Pending);
    assert_eq!(wait.step(500, true), GesturePoll::Pending);
    assert_eq!(wait.step(2400, true), GesturePoll::Pending);
    assert_eq!(wait.step(2500, true), GesturePoll::Activated);

    // Letting go restarts the hold.
    let mut wait = GestureWait::new(0);
    assert_eq!(wait.step(500, true), GesturePoll::Pending);
    assert_eq!(wait.step(1000, false), GesturePoll::Pending);
    assert_eq!(wait.step(1100, true), GesturePoll::Pending);
    assert_eq!(wait.step(3000, true), GesturePoll::Pending);
    assert_eq!(wait.step(3100, true), GesturePoll::Activated);

    // The watch ends after ten seconds, whatever the key does.
    let mut wait = GestureWait::new(0);
    assert_eq!(wait.step(10000, true), GesturePoll::TimedOut);
}

#[test]
fn host_ready_reads_the_timer_bits() {
    assert!(practice_tool::host_ready(1.0f32.to_bits()));
    assert!(practice_tool::host_ready(0.0625f32.to_bits()));
    assert!(practice_tool::host_ready(f32::INFINITY.to_bits()));
    assert!(!practice_tool::host_ready(0.0f32.to_bits()));
    assert!(!practice_tool::host_ready((-0.0f32).to_bits()));
    assert!(!practice_tool::host_ready((-1.0f32).to_bits()));
    assert!(!practice_tool::host_ready(f32::NAN.to_bits()));
}

#[test]
fn log_level_parsing() {
    assert_eq!(LevelFilterSerde::try_from(&"DEBUG".to_string()).unwrap().inner(), LogLevel::Debug);
    assert_eq!(LevelFilterSerde::try_from(&"trace".to_string()).unwrap().inner(), LogLevel::Trace);
    assert_eq!(LevelFilterSerde::try_from(&"Off".to_string()).unwrap().inner(), LogLevel::Off);
    assert_eq!(LevelFilterSerde::try_from(&"3".to_string()).unwrap().inner(), LogLevel::Info);
    assert_eq!(
        LevelFilterSerde::try_from(&"verbose".to_string()).unwrap_err(),
        "Couldn't parse log level filter: verbose"
    );
}

#[test]
fn indicator_parsing_and_default_set() {
    let ind = Indicator::try_from(&IndicatorConfig {
        indicator: "igt".to_string(),
        default: true,
        visible: false,
    })
    .unwrap();
    assert_eq!(ind.indicator, IndicatorType::Igt);
    let err = Indicator::try_from(&IndicatorConfig {
        indicator: "bogus".to_string(),
        default: false,
        visible: false,
    })
    .unwrap_err();
    assert_eq!(err, "Unrecognized indicator: bogus");

    let set = Indicator::default_set();
    assert_eq!(set.len(), 8);
    assert_eq!(set[0].indicator, IndicatorType::GameVersion);
    assert!(set[0].default);
    assert_eq!(set[6].indicator, IndicatorType::FrameCount);
    assert!(set[6].visible);
    let active = Indicator::active(&set);
    assert_eq!(active.len(), 2);
    assert_eq!(active[0].indicator, IndicatorType::GameVersion);
    assert_eq!(active[1].indicator, IndicatorType::Igt);
}

#[test]
fn memory_handle_tolerates_unavailable_cells() {
    let layout = MemoryLayout { flag_cells: 2, geom_len: 0 };
    let mut handle = MemoryHandle::new_all_off(&layout);
    assert_eq!(handle.read(0), Some(false));
    assert_eq!(handle.read(5), None);
    assert!(handle.write(1, true));
    assert_eq!(handle.read(1), Some(true));
    handle.cells[0] = None;
    assert!(!handle.write(0, true));
    assert_eq!(handle.read(0), None);
    assert!(!handle.write(9, true));
}

#[test]
fn default_settings_mirror_the_built_ins() {
    let s = practice_tool::Settings::default();
    assert_eq!(s.display.codes, vec![KeyCode::F2]);
    assert_eq!(s.hide.unwrap().codes, vec![KeyCode::RShift, KeyCode::F2]);
    assert_eq!(s.log_level.inner(), LogLevel::Debug);
    assert_eq!(s.radial_menu_open.unwrap().mask, 0x00c0);
    assert_eq!(s.indicators.len(), 8);
    let menu = practice_tool::RadialMenu::default();
    assert_eq!(menu.key.codes, vec![KeyCode::L3, KeyCode::R3]);
    assert_eq!(menu.label, "Radial Menu");
    let c = Config::default();
    assert!(c.commands.is_empty());
    assert!(c.radial_menu.is_empty());
    assert_eq!(c.features.len(), 26);
}
