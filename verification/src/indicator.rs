//! Overlay indicators: the read-only status lines of the closed
//! overlay, each toggleable and individually gated.

use vstd::prelude::*;

use crate::input::str_eq;

verus! {

/// The kinds of indicator the overlay can show.
#[derive(Clone, Copy, PartialEq, Eq, Structural, Debug)]
pub enum IndicatorType {
    Igt,
    Position,
    PositionChange,
    GameVersion,
    ImguiDebug,
    Fps,
    FrameCount,
    Animation,
}

/// One indicator with its initial on/off state and whether its
/// toggle is offered at all.
#[derive(Clone, Copy, PartialEq, Eq, Structural, Debug)]
pub struct Indicator {
    pub indicator: IndicatorType,
    pub default: bool,
    pub visible: bool,
}

/// An indicator entry as configuration delivers it.
pub struct IndicatorConfig {
    pub indicator: String,
    pub default: bool,
    pub visible: bool,
}

/// The indicator type a configuration name denotes, if any.
pub open spec fn spec_indicator_type(name: Seq<char>) -> Option<IndicatorType> {
    if name == "igt"@ {
        Some(IndicatorType::Igt)
    } else if name == "position"@ {
        Some(IndicatorType::Position)
    } else if name == "position_change"@ {
        Some(IndicatorType::PositionChange)
    } else if name == "animation"@ {
        Some(IndicatorType::Animation)
    } else if name == "game_version"@ {
        Some(IndicatorType::GameVersion)
    } else if name == "fps"@ {
        Some(IndicatorType::Fps)
    } else if name == "framecount"@ {
        Some(IndicatorType::FrameCount)
    } else if name == "imgui_debug"@ {
        Some(IndicatorType::ImguiDebug)
    } else {
        None
    }
}

/// The diagnostic for an unknown indicator name.
pub open spec fn spec_indicator_err(name: Seq<char>) -> Seq<char> {
    "Unrecognized indicator: "@ + name
}

impl Indicator {
    /// The built-in indicator set as a value.
    pub open spec fn spec_default_set() -> Seq<Indicator> {
        seq![
        Indicator { indicator: IndicatorType::GameVersion, default: true, visible: false },
        Indicator { indicator: IndicatorType::Igt, default: true, visible: false },
        Indicator { indicator: IndicatorType::Position, default: false, visible: false },
        Indicator { indicator: IndicatorType::PositionChange, default: false, visible: false },
        Indicator { indicator: IndicatorType::Animation, default: false, visible: false },
        Indicator { indicator: IndicatorType::Fps, default: false, visible: false },
        Indicator { indicator: IndicatorType::FrameCount, default: false, visible: true },
        Indicator { indicator: IndicatorType::ImguiDebug, default: false, visible: false },
    ]
    }
}

impl Indicator {
    /// Validates a configured indicator: an unknown indicator name
    /// is a configuration error naming the offender.
    pub fn try_from(cfg: &IndicatorConfig) -> (r: Result<Indicator, String>)
        ensures
            match (r, spec_indicator_type(cfg.indicator@)) {
                (Ok(ind), Some(t)) => ind.indicator == t && ind.default == cfg.default
                    && ind.visible == cfg.visible,
                (Err(e), None) => e@ == spec_indicator_err(cfg.indicator@),
                _ => false,
            },
    {
        let t = if str_eq(cfg.indicator.as_str(), "igt") {
            Some(IndicatorType::Igt)
        } else if str_eq(cfg.indicator.as_str(), "position") {
            Some(IndicatorType::Position)
        } else if str_eq(cfg.indicator.as_str(), "position_change") {
            Some(IndicatorType::PositionChange)
        } else if str_eq(cfg.indicator.as_str(), "animation") {
            Some(IndicatorType::Animation)
        } else if str_eq(cfg.indicator.as_str(), "game_version") {
            Some(IndicatorType::GameVersion)
        } else if str_eq(cfg.indicator.as_str(), "fps") {
            Some(IndicatorType::Fps)
        } else if str_eq(cfg.indicator.as_str(), "framecount") {
            Some(IndicatorType::FrameCount)
        } else if str_eq(cfg.indicator.as_str(), "imgui_debug") {
            Some(IndicatorType::ImguiDebug)
        } else {
            None
        };
        match t {
            Some(indicator) => Ok(
                Indicator { indicator, default: cfg.default, visible: cfg.visible },
            ),
            None => {
                let e = String::from_str("Unrecognized indicator: ");
                let e = e.concat(cfg.indicator.as_str());
                Err(e)
            },
        }
    }

    /// The built-in indicator set: the game version and the timer
    /// on, everything else off, and only the frame counter's toggle
    /// offered.
    pub fn default_set() -> (r: Vec<Indicator>)
        ensures
            r@ == Indicator::spec_default_set(),
    {
        let mut r: Vec<Indicator> = Vec::new();
        r.push(Indicator { indicator: IndicatorType::GameVersion, default: true, visible: false });
        r.push(Indicator { indicator: IndicatorType::Igt, default: true, visible: false });
        r.push(Indicator { indicator: IndicatorType::Position, default: false, visible: false });
        r.push(
            Indicator { indicator: IndicatorType::PositionChange, default: false, visible: false },
        );
        r.push(Indicator { indicator: IndicatorType::Animation, default: false, visible: false });
        r.push(Indicator { indicator: IndicatorType::Fps, default: false, visible: false });
        r.push(Indicator { indicator: IndicatorType::FrameCount, default: false, visible: true });
        r.push(Indicator { indicator: IndicatorType::ImguiDebug, default: false, visible: false });
        proof {
            assert(r@ =~= Indicator::spec_default_set());
        }
        r
    }

    /// The indicators an indicator list will actually draw: those
    /// switched on, in list order.
    pub fn active(list: &Vec<Indicator>) -> (r: Vec<Indicator>)
        ensures
            r@ == list@.filter(|ind: Indicator| ind.default),
    {
        let mut r: Vec<Indicator> = Vec::new();
        let mut i: usize = 0;
        proof {
            assert(list@.take(0int).filter(|ind: Indicator| ind.default) =~= Seq::empty());
        }
        while i < list.len()
            invariant
                i <= list@.len(),
                r@ == list@.take(i as int).filter(|ind: Indicator| ind.default),
            decreases list@.len() - i,
        {
            proof {
                assert(list@.take(i as int + 1).drop_last() =~= list@.take(i as int));
                reveal_with_fuel(Seq::filter, 2);
            }
            if list[i].default {
                r.push(list[i]);
            }
            i = i + 1;
        }
        proof {
            assert(list@.take(list@.len() as int) =~= list@);
        }
        r
    }
}

} // verus!
