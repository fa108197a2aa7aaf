//! Tool settings and the configuration root.
//!
//! Settings carry the overlay hotkeys, the log level, the
//! indicator set and the controller combination that opens the
//! radial menu.  The configuration root gathers the settings, the
//! radial-menu entries, the declarative command list and the
//! feature list, and hands the command list to the compiler.

use vstd::prelude::*;

use crate::command::CfgCommand;
use crate::command::command_views;
use crate::compile::compile_commands;
use crate::compile::spec_compile_list;
use crate::compile::widgets_result_matches;
use crate::feature::DEFAULT_FEATURE_COUNT;
use crate::feature::Feature;
use crate::feature::feature_views;
use crate::feature::is_default_feature;
use crate::indicator::Indicator;
use crate::input::ControllerCombination;
use crate::input::Key;
use crate::input::KeyCode;
use crate::input::PAD_L3;
use crate::input::PAD_R3;
use crate::input::string_chars;
use crate::input::lower_char;
use crate::input::spec_lower;
use crate::memory::Catalogue;
use crate::memory::MemoryLayout;
use crate::memory::def_views;
use crate::radial::RadialMenu;
use crate::widget::Widget;

verus! {

/// A logging verbosity level, ordered from silent to everything.
#[derive(Clone, Copy, PartialEq, Eq, Structural, Debug)]
pub enum LogLevel {
    Off,
    Error,
    Warn,
    Info,
    Debug,
    Trace,
}

/// The log level a configuration token denotes,
/// case-insensitively: a level name or its digit.
pub open spec fn spec_log_level(s: Seq<char>) -> Option<LogLevel> {
    let t = s.map_values(|c: char| spec_lower(c));
    if t == "off"@ || t == "0"@ {
        Some(LogLevel::Off)
    } else if t == "error"@ || t == "1"@ {
        Some(LogLevel::Error)
    } else if t == "warn"@ || t == "2"@ {
        Some(LogLevel::Warn)
    } else if t == "info"@ || t == "3"@ {
        Some(LogLevel::Info)
    } else if t == "debug"@ || t == "4"@ {
        Some(LogLevel::Debug)
    } else if t == "trace"@ || t == "5"@ {
        Some(LogLevel::Trace)
    } else {
        None
    }
}

/// The diagnostic for an unrecognized log level.
pub open spec fn spec_log_level_err(s: Seq<char>) -> Seq<char> {
    "Couldn't parse log level filter: "@ + s
}

/// A log level as configuration carries it.
#[derive(Clone, Copy, PartialEq, Eq, Structural, Debug)]
pub struct LevelFilterSerde(pub LogLevel);

impl LevelFilterSerde {
    /// The carried level.
    pub fn inner(&self) -> (r: LogLevel)
        ensures
            r == self.0,
    {
        self.0
    }

    /// Parses a log level name, case-insensitively; an unknown
    /// name is a configuration error naming the offender.
    pub fn try_from(value: &String) -> (r: Result<LevelFilterSerde, String>)
        ensures
            match (r, spec_log_level(value@)) {
                (Ok(l), Some(level)) => l.0 == level,
                (Err(e), None) => e@ == spec_log_level_err(value@),
                _ => false,
            },
    {
        let chars = string_chars(value);
        let mut lowered: Vec<char> = Vec::new();
        let mut i: usize = 0;
        while i < chars.len()
            invariant
                i <= chars@.len(),
                chars@ == value@,
                lowered@ =~= value@.map_values(|c: char| spec_lower(c)).take(i as int),
            decreases chars@.len() - i,
        {
            lowered.push(lower_char(chars[i]));
            proof {
                assert(lowered@ =~= value@.map_values(|c: char| spec_lower(c)).take(
                    i as int + 1,
                ));
            }
            i = i + 1;
        }
        proof {
            assert(value@.map_values(|c: char| spec_lower(c)).take(chars@.len() as int)
                =~= value@.map_values(|c: char| spec_lower(c)));
        }
        let level = if crate::input::token_is(&lowered, "off") || crate::input::token_is(
            &lowered,
            "0",
        ) {
            Some(LogLevel::Off)
        } else if crate::input::token_is(&lowered, "error") || crate::input::token_is(
            &lowered,
            "1",
        ) {
            Some(LogLevel::Error)
        } else if crate::input::token_is(&lowered, "warn") || crate::input::token_is(
            &lowered,
            "2",
        ) {
            Some(LogLevel::Warn)
        } else if crate::input::token_is(&lowered, "info") || crate::input::token_is(
            &lowered,
            "3",
        ) {
            Some(LogLevel::Info)
        } else if crate::input::token_is(&lowered, "debug") || crate::input::token_is(
            &lowered,
            "4",
        ) {
            Some(LogLevel::Debug)
        } else if crate::input::token_is(&lowered, "trace") || crate::input::token_is(
            &lowered,
            "5",
        ) {
            Some(LogLevel::Trace)
        } else {
            None
        };
        match level {
            Some(l) => Ok(LevelFilterSerde(l)),
            None => {
                let e = String::from_str("Couldn't parse log level filter: ");
                Err(e.concat(value.as_str()))
            },
        }
    }
}

/// The tool's settings.
pub struct Settings {
    pub log_level: LevelFilterSerde,
    pub display: Key,
    pub hide: Option<Key>,
    pub dxgi_debug: bool,
    pub show_console: bool,
    pub disable_update_prompt: bool,
    pub indicators: Vec<Indicator>,
    pub radial_menu_open: Option<ControllerCombination>,
}

impl Settings {
    /// The built-in settings: the overlay on `F2`, hidden with
    /// `rshift+f2`, the radial menu on both stick presses, debug
    /// logging, and the built-in indicator set.
    pub fn default() -> (r: Settings)
        ensures
            r.log_level.0 == LogLevel::Debug,
            r.display@ == seq![KeyCode::F2],
            r.hide matches Some(k) && k@ == seq![KeyCode::RShift, KeyCode::F2],
            !r.dxgi_debug,
            !r.show_console,
            !r.disable_update_prompt,
            r.indicators@ == Indicator::spec_default_set(),
            r.radial_menu_open matches Some(c) && c.mask == PAD_L3 | PAD_R3,
    {
        let mut display_codes: Vec<KeyCode> = Vec::new();
        display_codes.push(KeyCode::F2);
        let mut hide_codes: Vec<KeyCode> = Vec::new();
        hide_codes.push(KeyCode::RShift);
        hide_codes.push(KeyCode::F2);
        proof {
            assert(display_codes@ =~= seq![KeyCode::F2]);
            assert(hide_codes@ =~= seq![KeyCode::RShift, KeyCode::F2]);
        }
        Settings {
            log_level: LevelFilterSerde(LogLevel::Debug),
            display: Key { codes: display_codes },
            hide: Some(Key { codes: hide_codes }),
            dxgi_debug: false,
            show_console: false,
            disable_update_prompt: false,
            indicators: Indicator::default_set(),
            radial_menu_open: Some(ControllerCombination { mask: PAD_L3 | PAD_R3 }),
        }
    }
}

impl RadialMenu {
    /// The built-in radial-menu entry: both stick presses, under a
    /// plain label.
    pub fn default() -> (r: RadialMenu)
        ensures
            r.key@ == seq![KeyCode::L3, KeyCode::R3],
            r.label@ == "Radial Menu"@,
    {
        let mut codes: Vec<KeyCode> = Vec::new();
        codes.push(KeyCode::L3);
        codes.push(KeyCode::R3);
        proof {
            assert(codes@ =~= seq![KeyCode::L3, KeyCode::R3]);
        }
        RadialMenu { key: Key { codes }, label: String::from_str("Radial Menu") }
    }
}

/// The configuration root: settings, the radial-menu entries, the
/// declarative command list and the feature list.
pub struct Config {
    pub settings: Settings,
    pub radial_menu: Vec<RadialMenu>,
    pub commands: Vec<CfgCommand>,
    pub features: Vec<Feature>,
}

impl Config {
    /// The safe fallback configuration: default settings, no
    /// radial-menu entries, no commands, and the built-in feature
    /// set.
    pub fn default() -> (r: Config)
        ensures
            r.settings.display@ == seq![KeyCode::F2],
            r.radial_menu@.len() == 0,
            r.commands@.len() == 0,
            r.features@.len() == DEFAULT_FEATURE_COUNT,
            forall|j: int|
                0 <= j < DEFAULT_FEATURE_COUNT ==> is_default_feature((#[trigger] r.features@[j])@, j),
    {
        Config {
            settings: Settings::default(),
            radial_menu: Vec::new(),
            commands: Vec::new(),
            features: Feature::default_set(),
        }
    }

    /// Compiles this configuration's command list against its
    /// feature list, the catalogue and the layout of the host's
    /// memory, into the ordered widget tree.
    pub fn make_commands(&self, cat: &Catalogue, layout: &MemoryLayout) -> (r: Result<
        Vec<Widget>,
        String,
    >)
        requires
            layout.wf(),
            layout.geom_len == 13 || layout.geom_len >= 16,
        ensures
            widgets_result_matches(
                r,
                spec_compile_list(
                    command_views(self.commands@),
                    feature_views(self.features@),
                    def_views(cat.defs@),
                    *layout,
                ),
            ),
    {
        compile_commands(&self.commands, &self.features, cat, layout)
    }
}

} // verus!
