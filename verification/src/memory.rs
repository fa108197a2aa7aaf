//! The live-memory handle and the flag catalogue.
//!
//! The host process exposes a set of boolean toggles at fixed places
//! in its address space.  Here that surface is an explicit layout: a
//! vector of boolean cells, each either present or unavailable (the
//! host may not have the relevant subsystem initialized yet), with a
//! catalogue mapping the flag names used in configuration to cells
//! and display labels.  Flags are resolved by name once, when the
//! command list is compiled, never per frame.

use vstd::prelude::*;

use crate::input::str_eq;

verus! {

/// The shape of the host memory this tool touches: how many named
/// flag cells there are, and how many render-geometry cells this
/// host build has.  Geometry cell `i` lives at index
/// `flag_cells + i`.
#[derive(Clone, Copy, PartialEq, Eq, Structural, Debug)]
pub struct MemoryLayout {
    pub flag_cells: usize,
    pub geom_len: usize,
}

impl MemoryLayout {
    /// Every cell index the layout describes fits in an index.
    pub open spec fn wf(self) -> bool {
        self.flag_cells + self.geom_len <= usize::MAX
    }

    /// The total number of cells the layout describes.
    pub open spec fn spec_cell_count(self) -> int {
        self.flag_cells + self.geom_len
    }
}

/// A set of typed accessors into the host's live memory: one
/// optional boolean per cell, `None` standing for a cell whose
/// subsystem the host has not initialized yet.  Reads and writes
/// tolerate unavailable cells without erroring.
pub struct MemoryHandle {
    pub cells: Vec<Option<bool>>,
}

impl MemoryHandle {
    /// A handle matching a layout, with every cell present and off.
    pub fn new_all_off(layout: &MemoryLayout) -> (r: MemoryHandle)
        requires
            layout.wf(),
        ensures
            r.cells@.len() == layout.spec_cell_count(),
            forall|j: int| 0 <= j < r.cells@.len() ==> r.cells@[j] == Some(false),
    {
        let n = layout.flag_cells + layout.geom_len;
        let mut cells: Vec<Option<bool>> = Vec::new();
        let mut i: usize = 0;
        while i < n
            invariant
                i <= n,
                cells@.len() == i,
                forall|j: int| 0 <= j < i ==> cells@[j] == Some(false),
            decreases n - i,
        {
            cells.push(Some(false));
            i = i + 1;
        }
        MemoryHandle { cells }
    }

    /// Reads one cell: `None` when the cell is unavailable or the
    /// index lies outside the handle.
    pub fn read(&self, i: usize) -> (r: Option<bool>)
        ensures
            i < self.cells@.len() ==> r == self.cells@[i as int],
            i >= self.cells@.len() ==> r is None,
    {
        if i < self.cells.len() {
            self.cells[i]
        } else {
            None
        }
    }

    /// Writes one cell, best effort: an unavailable or out-of-range
    /// cell is left untouched, and nothing else ever changes.
    pub fn write(&mut self, i: usize, v: bool) -> (applied: bool)
        ensures
            final(self).cells@.len() == old(self).cells@.len(),
            applied == (i < old(self).cells@.len() && old(self).cells@[i as int] is Some),
            applied ==> final(self).cells@ == old(self).cells@.update(i as int, Some(v)),
            !applied ==> final(self).cells@ == old(self).cells@,
    {
        if i < self.cells.len() {
            match self.cells[i] {
                Some(_) => {
                    self.cells.set(i, Some(v));
                    proof {
                        assert(self.cells@ =~= old(self).cells@.update(i as int, Some(v)));
                    }
                    true
                },
                None => {
                    proof {
                        assert(self.cells@ =~= old(self).cells@);
                    }
                    false
                },
            }
        } else {
            proof {
                assert(self.cells@ =~= old(self).cells@);
            }
            false
        }
    }
}

/// One entry of the flag catalogue: the name configuration uses, the
/// label shown in the overlay, and the cell the flag lives in.
pub struct FlagDef {
    pub name: String,
    pub label: String,
    pub cell: usize,
}

/// The mathematical value of a [`FlagDef`].
pub struct FlagDefV {
    pub name: Seq<char>,
    pub label: Seq<char>,
    pub cell: int,
}

impl View for FlagDef {
    type V = FlagDefV;

    open spec fn view(&self) -> FlagDefV {
        FlagDefV { name: self.name@, label: self.label@, cell: self.cell as int }
    }
}

/// The mathematical values of a catalogue's entries, in order.
pub open spec fn def_views(defs: Seq<FlagDef>) -> Seq<FlagDefV> {
    defs.map_values(|d: FlagDef| d@)
}

/// The catalogue of flags this tool knows, resolved by name at
/// command-compile time.
pub struct Catalogue {
    pub defs: Vec<FlagDef>,
}

impl Catalogue {
    /// Every catalogued cell lies among the layout's flag cells.
    pub open spec fn wf(self, layout: MemoryLayout) -> bool {
        forall|j: int| 0 <= j < self.defs@.len() ==> (#[trigger] self.defs@[j]).cell
            < layout.flag_cells
    }
}

/// The first catalogue entry carrying `name`, if any.
pub open spec fn spec_resolve(defs: Seq<FlagDefV>, name: Seq<char>) -> Option<FlagDefV>
    decreases defs.len(),
{
    if defs.len() == 0 {
        None
    } else if defs[0].name == name {
        Some(defs[0])
    } else {
        spec_resolve(defs.skip(1), name)
    }
}

/// A flag reference a command compiled to: the overlay label and the
/// cell of the live-memory handle it toggles.
#[derive(Debug)]
pub struct FlagSpec {
    pub label: String,
    pub cell: usize,
}

/// The diagnostic for an unknown flag name.
pub open spec fn spec_flag_err(name: Seq<char>) -> Seq<char> {
    "\""@ + name + "\" is not a valid flag specifier"@
}

impl FlagSpec {
    /// Resolves a flag name against the catalogue: the first entry
    /// carrying the name wins, and an unknown name is a hard
    /// configuration error naming the offending flag.
    pub fn try_from(value: &String, cat: &Catalogue) -> (r: Result<FlagSpec, String>)
        ensures
            match (r, spec_resolve(def_views(cat.defs@), value@)) {
                (Ok(f), Some(d)) => f.label@ == d.label && f.cell as int == d.cell,
                (Err(e), None) => e@ == spec_flag_err(value@),
                _ => false,
            },
    {
        let ghost dv = def_views(cat.defs@);
        let n = cat.defs.len();
        proof {
            assert(dv.skip(0) =~= dv);
        }
        let mut i: usize = 0;
        while i < n
            invariant
                i <= n,
                n == cat.defs@.len(),
                dv == def_views(cat.defs@),
                spec_resolve(dv, value@) == spec_resolve(dv.skip(i as int), value@),
            decreases n - i,
        {
            proof {
                assert(dv[i as int] == cat.defs@[i as int]@);
                assert(dv.skip(i as int)[0] == dv[i as int]);
                assert(dv.skip(i as int).skip(1) =~= dv.skip(i as int + 1));
            }
            if str_eq(cat.defs[i].name.as_str(), value.as_str()) {
                return Ok(FlagSpec { label: cat.defs[i].label.clone(), cell: cat.defs[i].cell });
            }
            i = i + 1;
        }
        proof {
            assert(dv.skip(n as int) =~= Seq::<FlagDefV>::empty());
        }
        Err(flag_err(value))
    }
}

/// Builds the diagnostic for an unknown flag name.
fn flag_err(value: &String) -> (e: String)
    ensures
        e@ == spec_flag_err(value@),
{
    let e = String::from_str("\"");
    let e = e.concat(value.as_str());
    e.concat("\" is not a valid flag specifier")
}

/// The cells behind the one known multi-flag name, `show_map`: all
/// thirteen base geometry cells, then the three cells later host
/// builds added, each falling back to the last base cell on builds
/// that lack them.
pub open spec fn spec_show_map_cells(layout: MemoryLayout) -> Seq<int> {
    Seq::new(
        16,
        |i: int|
            layout.flag_cells + if i < 13 {
                i
            } else if layout.geom_len <= 13 {
                12
            } else {
                i
            },
    )
}

/// The diagnostic for an unknown multi-flag name.
pub open spec fn spec_multi_flag_err(name: Seq<char>) -> Seq<char> {
    "\""@ + name + "\" is not a valid multiflag specifier"@
}

/// A group of cells a single command toggles together, with the
/// label shown in the overlay.
#[derive(Debug)]
pub struct MultiFlagSpec {
    pub label: String,
    pub cells: Vec<usize>,
}

impl MultiFlagSpec {
    /// Resolves a multi-flag name.  `show_map` is the only one; any
    /// other name is a hard configuration error naming the offender.
    pub fn try_from(value: &String, layout: &MemoryLayout) -> (r: Result<MultiFlagSpec, String>)
        requires
            layout.wf(),
            layout.geom_len == 13 || layout.geom_len >= 16,
        ensures
            match r {
                Ok(m) => value@ == "show_map"@ && m.label@ == "Show/hide map"@
                    && m.cells@.map_values(|c: usize| c as int) == spec_show_map_cells(*layout),
                Err(e) => value@ != "show_map"@ && e@ == spec_multi_flag_err(value@),
            },
    {
        if str_eq(value.as_str(), "show_map") {
            let base = layout.flag_cells;
            let mut cells: Vec<usize> = Vec::new();
            let mut i: usize = 0;
            while i < 16
                invariant
                    i <= 16,
                    layout.wf(),
                    layout.geom_len == 13 || layout.geom_len >= 16,
                    base == layout.flag_cells,
                    cells@.len() == i,
                    forall|j: int| 0 <= j < i ==> cells@[j] as int == spec_show_map_cells(
                        *layout,
                    )[j],
                decreases 16 - i,
            {
                let off: usize = if i < 13 {
                    i
                } else if layout.geom_len <= 13 {
                    12
                } else {
                    i
                };
                proof {
                    assert(off < 16);
                    assert(off < layout.geom_len || off <= 12);
                }
                cells.push(base + off);
                i = i + 1;
            }
            proof {
                assert(cells@.map_values(|c: usize| c as int) =~= spec_show_map_cells(*layout));
            }
            Ok(MultiFlagSpec { label: String::from_str("Show/hide map"), cells })
        } else {
            let e = String::from_str("\"");
            let e = e.concat(value.as_str());
            let e = e.concat("\" is not a valid multiflag specifier");
            Err(e)
        }
    }
}

/// The number of flags in the standard catalogue.
pub const STANDARD_FLAG_COUNT: usize = 33;

/// The configuration name of the standard catalogue entry at `i`.
pub open spec fn standard_flag_name(i: int) -> Seq<char> {
    if i == 0 {
        "one_shot"@
    } else if i == 1 {
        "no_damage"@
    } else if i == 2 {
        "no_dead"@
    } else if i == 3 {
        "no_hit"@
    } else if i == 4 {
        "no_goods_consume"@
    } else if i == 5 {
        "no_stamina_consume"@
    } else if i == 6 {
        "no_fp_consume"@
    } else if i == 7 {
        "no_ashes_of_war_fp_consume"@
    } else if i == 8 {
        "no_arrows_consume"@
    } else if i == 9 {
        "no_attack"@
    } else if i == 10 {
        "no_move"@
    } else if i == 11 {
        "no_update_ai"@
    } else if i == 12 {
        "no_trigger_event"@
    } else if i == 13 {
        "runearc"@
    } else if i == 14 {
        "gravity"@
    } else if i == 15 {
        "torrent_gravity"@
    } else if i == 16 {
        "collision"@
    } else if i == 17 {
        "torrent_collision"@
    } else if i == 18 {
        "display_stable_pos"@
    } else if i == 19 {
        "weapon_hitbox1"@
    } else if i == 20 {
        "weapon_hitbox2"@
    } else if i == 21 {
        "weapon_hitbox3"@
    } else if i == 22 {
        "hitbox_high"@
    } else if i == 23 {
        "hitbox_low"@
    } else if i == 24 {
        "hitbox_f"@
    } else if i == 25 {
        "hitbox_character"@
    } else if i == 26 {
        "hitbox_event"@
    } else if i == 27 {
        "field_area_direction"@
    } else if i == 28 {
        "field_area_altimeter"@
    } else if i == 29 {
        "field_area_compass"@
    } else if i == 30 {
        "show_chr"@
    } else if i == 31 {
        "show_all_map_layers"@
    } else if i == 32 {
        "show_all_graces"@
    } else {
        Seq::empty()
    }
}

/// The overlay label of the standard catalogue entry at `i`.
pub open spec fn standard_flag_label(i: int) -> Seq<char> {
    if i == 0 {
        "One shot"@
    } else if i == 1 {
        "All no damage"@
    } else if i == 2 {
        "No death"@
    } else if i == 3 {
        "No hit"@
    } else if i == 4 {
        "Inf Consumables"@
    } else if i == 5 {
        "Inf Stamina"@
    } else if i == 6 {
        "Inf Focus"@
    } else if i == 7 {
        "Inf Focus (AoW)"@
    } else if i == 8 {
        "Inf arrows"@
    } else if i == 9 {
        "No attack"@
    } else if i == 10 {
        "No move"@
    } else if i == 11 {
        "No update AI"@
    } else if i == 12 {
        "No trigger events"@
    } else if i == 13 {
        "Rune Arc"@
    } else if i == 14 {
        "No Gravity"@
    } else if i == 15 {
        "No Gravity (Torrent)"@
    } else if i == 16 {
        "No Collision"@
    } else if i == 17 {
        "No Collision (Torrent)"@
    } else if i == 18 {
        "Show stable pos"@
    } else if i == 19 {
        "Weapon hitbox #1"@
    } else if i == 20 {
        "Weapon hitbox #2"@
    } else if i == 21 {
        "Weapon hitbox #3"@
    } else if i == 22 {
        "High world hitbox"@
    } else if i == 23 {
        "Low world hitbox"@
    } else if i == 24 {
        "Walls hitbox"@
    } else if i == 25 {
        "Character hitbox"@
    } else if i == 26 {
        "Event hitbox"@
    } else if i == 27 {
        "Direction HUD"@
    } else if i == 28 {
        "Altimeter HUD"@
    } else if i == 29 {
        "Compass HUD"@
    } else if i == 30 {
        "Show/hide character"@
    } else if i == 31 {
        "Show all map layers"@
    } else if i == 32 {
        "Show all graces"@
    } else {
        Seq::empty()
    }
}

/// One catalogue entry from its parts.
fn flag_def(name: &str, label: &str, cell: usize) -> (d: FlagDef)
    ensures
        d.name@ == name@,
        d.label@ == label@,
        d.cell == cell,
{
    FlagDef { name: String::from_str(name), label: String::from_str(label), cell }
}

impl Catalogue {
    /// The catalogue of every flag this tool knows, one cell per
    /// flag in order.
    #[verifier::rlimit(50)]
    pub fn standard() -> (r: Catalogue)
        ensures
            r.defs@.len() == STANDARD_FLAG_COUNT,
            forall|j: int|
                0 <= j < STANDARD_FLAG_COUNT ==> (#[trigger] r.defs@[j]).name@
                    == standard_flag_name(j) && r.defs@[j].label@ == standard_flag_label(j)
                    && r.defs@[j].cell == j,
    {
        let mut defs: Vec<FlagDef> = Vec::new();
        defs.push(flag_def("one_shot", "One shot", 0));
        defs.push(flag_def("no_damage", "All no damage", 1));
        defs.push(flag_def("no_dead", "No death", 2));
        defs.push(flag_def("no_hit", "No hit", 3));
        defs.push(flag_def("no_goods_consume", "Inf Consumables", 4));
        defs.push(flag_def("no_stamina_consume", "Inf Stamina", 5));
        defs.push(flag_def("no_fp_consume", "Inf Focus", 6));
        defs.push(flag_def("no_ashes_of_war_fp_consume", "Inf Focus (AoW)", 7));
        defs.push(flag_def("no_arrows_consume", "Inf arrows", 8));
        defs.push(flag_def("no_attack", "No attack", 9));
        defs.push(flag_def("no_move", "No move", 10));
        defs.push(flag_def("no_update_ai", "No update AI", 11));
        defs.push(flag_def("no_trigger_event", "No trigger events", 12));
        defs.push(flag_def("runearc", "Rune Arc", 13));
        defs.push(flag_def("gravity", "No Gravity", 14));
        defs.push(flag_def("torrent_gravity", "No Gravity (Torrent)", 15));
        defs.push(flag_def("collision", "No Collision", 16));
        defs.push(flag_def("torrent_collision", "No Collision (Torrent)", 17));
        defs.push(flag_def("display_stable_pos", "Show stable pos", 18));
        defs.push(flag_def("weapon_hitbox1", "Weapon hitbox #1", 19));
        defs.push(flag_def("weapon_hitbox2", "Weapon hitbox #2", 20));
        defs.push(flag_def("weapon_hitbox3", "Weapon hitbox #3", 21));
        defs.push(flag_def("hitbox_high", "High world hitbox", 22));
        defs.push(flag_def("hitbox_low", "Low world hitbox", 23));
        defs.push(flag_def("hitbox_f", "Walls hitbox", 24));
        defs.push(flag_def("hitbox_character", "Character hitbox", 25));
        defs.push(flag_def("hitbox_event", "Event hitbox", 26));
        defs.push(flag_def("field_area_direction", "Direction HUD", 27));
        defs.push(flag_def("field_area_altimeter", "Altimeter HUD", 28));
        defs.push(flag_def("field_area_compass", "Compass HUD", 29));
        defs.push(flag_def("show_chr", "Show/hide character", 30));
        defs.push(flag_def("show_all_map_layers", "Show all map layers", 31));
        defs.push(flag_def("show_all_graces", "Show all graces", 32));
        Catalogue { defs }
    }

    /// The memory layout the standard catalogue expects, given the
    /// geometry-cell count of the host build at hand.
    pub fn standard_layout(geom_len: usize) -> (r: MemoryLayout)
        requires
            geom_len <= usize::MAX - STANDARD_FLAG_COUNT,
        ensures
            r.flag_cells == STANDARD_FLAG_COUNT,
            r.geom_len == geom_len,
            r.wf(),
    {
        MemoryLayout { flag_cells: STANDARD_FLAG_COUNT, geom_len }
    }
}

} // verus!
