//! An in-process overlay control panel for a running game.
//!
//! The crate compiles a declarative command list into a tree of
//! hotkey-bound widgets that read and mutate live fields of the host
//! process, drives a modal radial-menu state machine from analog-stick
//! input, and keeps the host's own controller polling transparent
//! through a shared input gate.

pub mod fmt;
pub mod frame;
pub mod gate;
pub mod patch;
pub mod radial;
pub mod settings;
pub mod widget;
pub mod input;
pub mod activation;
pub mod command;
pub mod compile;
pub mod feature;
pub mod indicator;
pub mod memory;

pub use frame::{ToolState, UiState, RenderDispatch, LogBuffer, LogEntry, FontChoice, font_choice, drain_key_queues, LOG_RETENTION_MS, LOG_SHOWN};
pub use fmt::{igt_text, map_id_text, version_label, frame_count_text, config_err_text, u32_dec, u32_dec2, u32_hex2};
pub use gate::InputGate;
pub use gate::PadState;
pub use patch::BytePatch;
pub use settings::{Settings, Config, LogLevel, LevelFilterSerde};
pub use radial::{RadialMenu, RadialState, normalize_stick, isqrt64, radial_frame_begin, radial_frame_end, STICK_SCALE, STICK_DEADZONE, RADIAL_DEBOUNCE_MS};
pub use widget::{Widget, WidgetV, NoneWidget};
pub use input::{Key, KeyCode, KeyboardFrame, ControllerCombination};
pub use activation::{activation_requires_gesture, host_ready, GestureWait, GesturePoll, GESTURE_HOLD_MS, GESTURE_WINDOW_MS};
pub use command::{CfgCommand, CommandV, PlaceholderOption};
pub use compile::{compile_commands, spec_compile_list, spec_into_widget};
pub use feature::{Feature, FeatureConfig, FeatureV};
pub use indicator::{Indicator, IndicatorType, IndicatorConfig};
pub use memory::{MemoryHandle, MemoryLayout, Catalogue, FlagDef, FlagSpec, MultiFlagSpec};
