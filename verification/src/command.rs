//! Declarative commands: one entry of the configured command list.
//!
//! Each command is a tagged variant carrying its own optional hotkey
//! and the flag or group names the feature resolution matches on.
//! Numeric values the tool merely carries (nudge amounts, speed
//! steps) are held as raw bit patterns: the tool never computes on
//! them, it hands them to the host.

use vstd::prelude::*;

use crate::input::Key;
use crate::input::KeyCode;
use crate::input::okey_view;

verus! {

broadcast use {vstd::std_specs::vec::axiom_vec_decreases_to_view, vstd::std_specs::vec::axiom_vec_index_decreases};

/// An optional value as configuration writes it: either the value,
/// or a bare placeholder standing for "use the default".
pub enum PlaceholderOption<T> {
    Data(T),
    Placeholder(bool),
}

impl<T> PlaceholderOption<T> {
    /// The carried value, a placeholder dropped.
    pub fn into_option(self) -> (r: Option<T>)
        ensures
            match self {
                PlaceholderOption::Data(d) => r == Some(d),
                PlaceholderOption::Placeholder(_) => r is None,
            },
    {
        match self {
            PlaceholderOption::Data(d) => Some(d),
            PlaceholderOption::Placeholder(_) => None,
        }
    }
}

/// The keys an optional configured hotkey names.
pub open spec fn pkey_view(k: PlaceholderOption<Key>) -> Option<Seq<KeyCode>> {
    match k {
        PlaceholderOption::Data(key) => Some(key@),
        PlaceholderOption::Placeholder(_) => None,
    }
}

/// One declarative entry of the configured command list.
pub enum CfgCommand {
    SavefileManager { hotkey_load: PlaceholderOption<Key> },
    ItemSpawner { hotkey_load: PlaceholderOption<Key> },
    Flag { flag: String, hotkey: Option<Key> },
    MultiFlag { flag: String, hotkey: Option<Key> },
    SpecialFlag { flag: String, hotkey: Option<Key> },
    MultiFlagUser { flags: Vec<String>, hotkey: Option<Key>, label: String },
    Label { label: String },
    Position { position: PlaceholderOption<Key>, save: Option<Key> },
    NudgePosition { nudge_bits: u32, nudge_up: Option<Key>, nudge_down: Option<Key> },
    CycleSpeed { cycle_speed_bits: Vec<u32>, hotkey: Option<Key> },
    CycleColor { cycle_color: Vec<i32>, hotkey: Option<Key> },
    CharacterStats { hotkey_open: PlaceholderOption<Key> },
    Runes { amount: u32, hotkey: Option<Key> },
    Target { hotkey: PlaceholderOption<Key> },
    Warp { warp: bool },
    Group { label: String, commands: Vec<CfgCommand> },
    Quitout { hotkey: PlaceholderOption<Key> },
}

/// The mathematical value of a [`CfgCommand`]: the same tagged
/// record over character sequences and key-code lists, placeholders
/// already dropped.
pub enum CommandV {
    SavefileManager { hotkey_load: Option<Seq<KeyCode>> },
    ItemSpawner { hotkey_load: Option<Seq<KeyCode>> },
    Flag { flag: Seq<char>, hotkey: Option<Seq<KeyCode>> },
    MultiFlag { flag: Seq<char>, hotkey: Option<Seq<KeyCode>> },
    SpecialFlag { flag: Seq<char>, hotkey: Option<Seq<KeyCode>> },
    MultiFlagUser { flags: Seq<Seq<char>>, hotkey: Option<Seq<KeyCode>>, label: Seq<char> },
    Label { label: Seq<char> },
    Position { position: Option<Seq<KeyCode>>, save: Option<Seq<KeyCode>> },
    NudgePosition {
        nudge_bits: u32,
        nudge_up: Option<Seq<KeyCode>>,
        nudge_down: Option<Seq<KeyCode>>,
    },
    CycleSpeed { cycle_speed_bits: Seq<u32>, hotkey: Option<Seq<KeyCode>> },
    CycleColor { cycle_color: Seq<i32>, hotkey: Option<Seq<KeyCode>> },
    CharacterStats { hotkey_open: Option<Seq<KeyCode>> },
    Runes { amount: u32, hotkey: Option<Seq<KeyCode>> },
    Target { hotkey: Option<Seq<KeyCode>> },
    Warp,
    Group { label: Seq<char>, commands: Seq<CommandV> },
    Quitout { hotkey: Option<Seq<KeyCode>> },
}

/// The mathematical value of a command.
pub open spec fn command_view(c: CfgCommand) -> CommandV
    decreases c,
{
    match c {
        CfgCommand::SavefileManager { hotkey_load } => CommandV::SavefileManager {
            hotkey_load: pkey_view(hotkey_load),
        },
        CfgCommand::ItemSpawner { hotkey_load } => CommandV::ItemSpawner {
            hotkey_load: pkey_view(hotkey_load),
        },
        CfgCommand::Flag { flag, hotkey } => CommandV::Flag {
            flag: flag@,
            hotkey: okey_view(hotkey),
        },
        CfgCommand::MultiFlag { flag, hotkey } => CommandV::MultiFlag {
            flag: flag@,
            hotkey: okey_view(hotkey),
        },
        CfgCommand::SpecialFlag { flag, hotkey } => CommandV::SpecialFlag {
            flag: flag@,
            hotkey: okey_view(hotkey),
        },
        CfgCommand::MultiFlagUser { flags, hotkey, label } => CommandV::MultiFlagUser {
            flags: flags@.map_values(|s: String| s@),
            hotkey: okey_view(hotkey),
            label: label@,
        },
        CfgCommand::Label { label } => CommandV::Label { label: label@ },
        CfgCommand::Position { position, save } => CommandV::Position {
            position: pkey_view(position),
            save: okey_view(save),
        },
        CfgCommand::NudgePosition { nudge_bits, nudge_up, nudge_down } => {
            CommandV::NudgePosition {
                nudge_bits,
                nudge_up: okey_view(nudge_up),
                nudge_down: okey_view(nudge_down),
            }
        },
        CfgCommand::CycleSpeed { cycle_speed_bits, hotkey } => CommandV::CycleSpeed {
            cycle_speed_bits: cycle_speed_bits@,
            hotkey: okey_view(hotkey),
        },
        CfgCommand::CycleColor { cycle_color, hotkey } => CommandV::CycleColor {
            cycle_color: cycle_color@,
            hotkey: okey_view(hotkey),
        },
        CfgCommand::CharacterStats { hotkey_open } => CommandV::CharacterStats {
            hotkey_open: pkey_view(hotkey_open),
        },
        CfgCommand::Runes { amount, hotkey } => CommandV::Runes {
            amount,
            hotkey: okey_view(hotkey),
        },
        CfgCommand::Target { hotkey } => CommandV::Target { hotkey: pkey_view(hotkey) },
        CfgCommand::Warp { warp: _ } => CommandV::Warp,
        CfgCommand::Group { label, commands } => CommandV::Group {
            label: label@,
            commands: command_views(commands@),
        },
        CfgCommand::Quitout { hotkey } => CommandV::Quitout { hotkey: pkey_view(hotkey) },
    }
}

/// The mathematical values of a command list, in order.
pub open spec fn command_views(s: Seq<CfgCommand>) -> Seq<CommandV>
    decreases s,
{
    if s.len() == 0 {
        Seq::empty()
    } else {
        seq![command_view(s[0])] + command_views(s.skip(1))
    }
}

impl View for CfgCommand {
    type V = CommandV;

    open spec fn view(&self) -> CommandV {
        command_view(*self)
    }
}

/// A command list's values are its commands' values, index by index.
pub proof fn lemma_command_views_index(s: Seq<CfgCommand>, i: int)
    requires
        0 <= i < s.len(),
    ensures
        command_views(s).len() == s.len(),
        command_views(s)[i] == command_view(s[i]),
    decreases s.len(),
{
    lemma_command_views_len(s);
    if i > 0 {
        lemma_command_views_index(s.skip(1), i - 1);
    }
}

/// A command list's value list has the command list's length.
pub proof fn lemma_command_views_len(s: Seq<CfgCommand>)
    ensures
        command_views(s).len() == s.len(),
    decreases s.len(),
{
    if s.len() > 0 {
        lemma_command_views_len(s.skip(1));
    }
}

} // verus!
