//! Widgets: the compiled, runtime form of commands.
//!
//! A widget is polymorphic over a small capability set: render,
//! render while the overlay is closed, interact (poll input and
//! mutate bound memory), and one-shot actions.  The inert variant is
//! a first-class widget that does nothing, standing in the tree at
//! the position of a command its feature suppressed.  Rendering is
//! the host-facing edge and draws nothing here; interaction — the
//! per-frame hotkey polling that toggles live-memory cells — is
//! fully specified.

use vstd::prelude::*;

use crate::input::Key;
use crate::input::KeyCode;
use crate::input::KeyboardFrame;
use crate::input::okey_view;
use crate::input::spec_pressed;
use crate::memory::MemoryHandle;

verus! {

broadcast use {vstd::std_specs::vec::axiom_vec_decreases_to_view, vstd::std_specs::vec::axiom_vec_index_decreases};

/// The widget that does nothing: the compiled form of a command its
/// feature made invisible.  It still occupies its position in the
/// widget tree.
#[derive(Debug)]
pub struct NoneWidget {}

impl NoneWidget {
    /// Draws nothing.
    pub fn render(&mut self) {
    }

    /// Polls nothing and changes nothing.
    pub fn interact(&mut self, handle: &mut MemoryHandle)
        ensures
            final(handle).cells@ == old(handle).cells@,
    {
    }

    /// Performs no action.
    pub fn action(&mut self) {
    }

    /// Emits no log message.
    pub fn log(&mut self) -> (r: Option<String>)
        ensures
            r is None,
    {
        None
    }
}

/// One compiled widget of the overlay.
#[derive(Debug)]
pub enum Widget {
    /// The inert widget of a suppressed command.
    Inert(NoneWidget),
    /// A toggle bound to one live-memory cell.
    Flag { label: String, cell: usize, hotkey: Option<Key>, default: bool },
    /// A toggle bound to several cells that flip together.
    MultiFlag { label: String, cells: Vec<usize>, hotkey: Option<Key>, default: bool },
    /// A line of text.
    Label { label: String },
    /// The savefile manager of the collaborator widget crate.
    SavefileManager { hotkey_load: Option<Key> },
    /// The item spawner of the collaborator widget crate.
    ItemSpawner { hotkey_load: Option<Key> },
    /// The death-camera special behavior.
    Deathcam { hotkey: Option<Key>, default: bool },
    /// The action-freeze special behavior.
    ActionFreeze { hotkey: Option<Key>, default: bool },
    /// Save and restore the player position.
    Position { hotkey: Option<Key>, save: Option<Key> },
    /// Nudge the player position by a host-interpreted amount.
    NudgePosition { nudge_bits: u32, nudge_up: Option<Key>, nudge_down: Option<Key> },
    /// Cycle the host's animation speed through carried steps.
    CycleSpeed { values_bits: Vec<u32>, hotkey: Option<Key> },
    /// Cycle the host's mesh color through carried values.
    CycleColor { values: Vec<i32>, hotkey: Option<Key> },
    /// The character-stats editor of the collaborator widget crate.
    CharacterStats { hotkey_open: Option<Key> },
    /// Grant a fixed amount of currency.
    Runes { amount: u32, hotkey: Option<Key> },
    /// Lock on to the current target.
    Target { hotkey: Option<Key> },
    /// Warp to stored coordinates.
    Warp,
    /// Quit to the title screen.
    Quitout { hotkey: Option<Key> },
    /// An ordered group of nested widgets.
    Group { label: String, children: Vec<Widget> },
}

/// The mathematical value of a [`Widget`].
pub enum WidgetV {
    Inert,
    Flag { label: Seq<char>, cell: int, hotkey: Option<Seq<KeyCode>>, default: bool },
    MultiFlag { label: Seq<char>, cells: Seq<int>, hotkey: Option<Seq<KeyCode>>, default: bool },
    Label { label: Seq<char> },
    SavefileManager { hotkey_load: Option<Seq<KeyCode>> },
    ItemSpawner { hotkey_load: Option<Seq<KeyCode>> },
    Deathcam { hotkey: Option<Seq<KeyCode>>, default: bool },
    ActionFreeze { hotkey: Option<Seq<KeyCode>>, default: bool },
    Position { hotkey: Option<Seq<KeyCode>>, save: Option<Seq<KeyCode>> },
    NudgePosition {
        nudge_bits: u32,
        nudge_up: Option<Seq<KeyCode>>,
        nudge_down: Option<Seq<KeyCode>>,
    },
    CycleSpeed { values_bits: Seq<u32>, hotkey: Option<Seq<KeyCode>> },
    CycleColor { values: Seq<i32>, hotkey: Option<Seq<KeyCode>> },
    CharacterStats { hotkey_open: Option<Seq<KeyCode>> },
    Runes { amount: u32, hotkey: Option<Seq<KeyCode>> },
    Target { hotkey: Option<Seq<KeyCode>> },
    Warp,
    Quitout { hotkey: Option<Seq<KeyCode>> },
    Group { label: Seq<char>, children: Seq<WidgetV> },
}

/// The mathematical value of a widget.
pub open spec fn widget_view(w: Widget) -> WidgetV
    decreases w,
{
    match w {
        Widget::Inert(_) => WidgetV::Inert,
        Widget::Flag { label, cell, hotkey, default } => WidgetV::Flag {
            label: label@,
            cell: cell as int,
            hotkey: okey_view(hotkey),
            default,
        },
        Widget::MultiFlag { label, cells, hotkey, default } => WidgetV::MultiFlag {
            label: label@,
            cells: cells@.map_values(|c: usize| c as int),
            hotkey: okey_view(hotkey),
            default,
        },
        Widget::Label { label } => WidgetV::Label { label: label@ },
        Widget::SavefileManager { hotkey_load } => WidgetV::SavefileManager {
            hotkey_load: okey_view(hotkey_load),
        },
        Widget::ItemSpawner { hotkey_load } => WidgetV::ItemSpawner {
            hotkey_load: okey_view(hotkey_load),
        },
        Widget::Deathcam { hotkey, default } => WidgetV::Deathcam {
            hotkey: okey_view(hotkey),
            default,
        },
        Widget::ActionFreeze { hotkey, default } => WidgetV::ActionFreeze {
            hotkey: okey_view(hotkey),
            default,
        },
        Widget::Position { hotkey, save } => WidgetV::Position {
            hotkey: okey_view(hotkey),
            save: okey_view(save),
        },
        Widget::NudgePosition { nudge_bits, nudge_up, nudge_down } => WidgetV::NudgePosition {
            nudge_bits,
            nudge_up: okey_view(nudge_up),
            nudge_down: okey_view(nudge_down),
        },
        Widget::CycleSpeed { values_bits, hotkey } => WidgetV::CycleSpeed {
            values_bits: values_bits@,
            hotkey: okey_view(hotkey),
        },
        Widget::CycleColor { values, hotkey } => WidgetV::CycleColor {
            values: values@,
            hotkey: okey_view(hotkey),
        },
        Widget::CharacterStats { hotkey_open } => WidgetV::CharacterStats {
            hotkey_open: okey_view(hotkey_open),
        },
        Widget::Runes { amount, hotkey } => WidgetV::Runes { amount, hotkey: okey_view(hotkey) },
        Widget::Target { hotkey } => WidgetV::Target { hotkey: okey_view(hotkey) },
        Widget::Warp => WidgetV::Warp,
        Widget::Quitout { hotkey } => WidgetV::Quitout { hotkey: okey_view(hotkey) },
        Widget::Group { label, children } => WidgetV::Group {
            label: label@,
            children: widget_views(children@),
        },
    }
}

/// The mathematical values of a widget list, in order.
pub open spec fn widget_views(s: Seq<Widget>) -> Seq<WidgetV>
    decreases s,
{
    if s.len() == 0 {
        Seq::empty()
    } else {
        seq![widget_view(s[0])] + widget_views(s.skip(1))
    }
}

impl View for Widget {
    type V = WidgetV;

    open spec fn view(&self) -> WidgetV {
        widget_view(*self)
    }
}

/// A widget list's values are its widgets' values, index by index.
pub proof fn lemma_widget_views_index(s: Seq<Widget>, i: int)
    requires
        0 <= i < s.len(),
    ensures
        widget_views(s).len() == s.len(),
        widget_views(s)[i] == widget_view(s[i]),
    decreases s.len(),
{
    lemma_widget_views_len(s);
    if i > 0 {
        lemma_widget_views_index(s.skip(1), i - 1);
    }
}

/// A widget list's value list has the widget list's length.
pub proof fn lemma_widget_views_len(s: Seq<Widget>)
    ensures
        widget_views(s).len() == s.len(),
    decreases s.len(),
{
    if s.len() > 0 {
        lemma_widget_views_len(s.skip(1));
    }
}

/// Whether an optional hotkey is pressed under a keyboard snapshot.
pub open spec fn spec_opt_pressed(hotkey: Option<Seq<KeyCode>>, kb: KeyboardFrame) -> bool {
    match hotkey {
        Some(codes) => spec_pressed(codes, kb),
        None => false,
    }
}

/// One cell after a toggle: flipped when present, untouched when
/// unavailable or out of range.
pub open spec fn spec_cell_toggled(mem: Seq<Option<bool>>, cell: int) -> Seq<Option<bool>> {
    if 0 <= cell < mem.len() && mem[cell] matches Some(v) {
        mem.update(cell, Some(!mem[cell]->0))
    } else {
        mem
    }
}

/// The value of the first available cell of `cells`, if any.
pub open spec fn spec_first_avail(mem: Seq<Option<bool>>, cells: Seq<int>) -> Option<bool>
    decreases cells.len(),
{
    if cells.len() == 0 {
        None
    } else if 0 <= cells[0] < mem.len() && mem[cells[0]] is Some {
        mem[cells[0]]
    } else {
        spec_first_avail(mem, cells.skip(1))
    }
}

/// Every cell of `cells` written to `v`, best effort, in order.
pub open spec fn spec_cells_written(
    mem: Seq<Option<bool>>,
    cells: Seq<int>,
    v: bool,
) -> Seq<Option<bool>>
    decreases cells.len(),
{
    if cells.len() == 0 {
        mem
    } else {
        let mem1 = if 0 <= cells[0] < mem.len() && mem[cells[0]] is Some {
            mem.update(cells[0], Some(v))
        } else {
            mem
        };
        spec_cells_written(mem1, cells.skip(1), v)
    }
}

/// The memory after a synchronized multi-flag toggle: all bound
/// cells set to the negation of the first available one (or raised,
/// if none is available to read).
pub open spec fn spec_multi_toggled(mem: Seq<Option<bool>>, cells: Seq<int>) -> Seq<
    Option<bool>,
> {
    let target = match spec_first_avail(mem, cells) {
        Some(v) => !v,
        None => true,
    };
    spec_cells_written(mem, cells, target)
}

/// The memory after one widget's per-frame interaction: a flag
/// toggle on its hotkey, a synchronized multi-flag toggle on its
/// hotkey, a group interacting its children in order; every other
/// widget leaves the tool's bound memory untouched (its work lives
/// with the collaborator widget crate or the host).
pub open spec fn spec_widget_interact(
    w: WidgetV,
    mem: Seq<Option<bool>>,
    kb: KeyboardFrame,
) -> Seq<Option<bool>>
    decreases w,
{
    match w {
        WidgetV::Flag { cell, hotkey, .. } => {
            if spec_opt_pressed(hotkey, kb) {
                spec_cell_toggled(mem, cell)
            } else {
                mem
            }
        },
        WidgetV::MultiFlag { cells, hotkey, .. } => {
            if spec_opt_pressed(hotkey, kb) {
                spec_multi_toggled(mem, cells)
            } else {
                mem
            }
        },
        WidgetV::Group { children, .. } => spec_widgets_interact(children, mem, kb),
        _ => mem,
    }
}

/// The memory after a widget list's interactions, first to last.
pub open spec fn spec_widgets_interact(
    ws: Seq<WidgetV>,
    mem: Seq<Option<bool>>,
    kb: KeyboardFrame,
) -> Seq<Option<bool>>
    decreases ws,
{
    if ws.len() == 0 {
        mem
    } else {
        spec_widgets_interact(ws.skip(1), spec_widget_interact(ws[0], mem, kb), kb)
    }
}

/// An inert widget's interaction never touches live memory,
/// whatever keys are pressed: a suppressed command still occupies
/// its place in the tree, but nothing it does can be observed.
pub proof fn lemma_inert_is_noop(mem: Seq<Option<bool>>, kb: KeyboardFrame)
    ensures
        spec_widget_interact(WidgetV::Inert, mem, kb) == mem,
{
}

/// Interaction never changes how many cells the handle holds.
pub proof fn lemma_widget_interact_len(w: WidgetV, mem: Seq<Option<bool>>, kb: KeyboardFrame)
    ensures
        spec_widget_interact(w, mem, kb).len() == mem.len(),
    decreases w,
{
    match w {
        WidgetV::MultiFlag { cells, hotkey, .. } => {
            lemma_cells_written_len(
                mem,
                cells,
                match spec_first_avail(mem, cells) {
                    Some(v) => !v,
                    None => true,
                },
            );
        },
        WidgetV::Group { children, .. } => {
            lemma_widgets_interact_len(children, mem, kb);
        },
        _ => {},
    }
}

/// Writing a cell list never changes how many cells there are.
pub proof fn lemma_cells_written_len(mem: Seq<Option<bool>>, cells: Seq<int>, v: bool)
    ensures
        spec_cells_written(mem, cells, v).len() == mem.len(),
    decreases cells.len(),
{
    if cells.len() > 0 {
        let mem1 = if 0 <= cells[0] < mem.len() && mem[cells[0]] is Some {
            mem.update(cells[0], Some(v))
        } else {
            mem
        };
        lemma_cells_written_len(mem1, cells.skip(1), v);
    }
}

/// A widget list's interactions never change how many cells there
/// are.
pub proof fn lemma_widgets_interact_len(
    ws: Seq<WidgetV>,
    mem: Seq<Option<bool>>,
    kb: KeyboardFrame,
)
    ensures
        spec_widgets_interact(ws, mem, kb).len() == mem.len(),
    decreases ws,
{
    if ws.len() > 0 {
        lemma_widget_interact_len(ws[0], mem, kb);
        lemma_widgets_interact_len(ws.skip(1), spec_widget_interact(ws[0], mem, kb), kb);
    }
}

/// Whether an optional hotkey is pressed this frame.
fn opt_pressed(hotkey: &Option<Key>, kb: &KeyboardFrame) -> (r: bool)
    ensures
        r == spec_opt_pressed(okey_view(*hotkey), *kb),
{
    match hotkey {
        Some(k) => k.is_pressed(kb),
        None => false,
    }
}

impl Widget {
    /// Polls this widget's hotkeys for one frame and applies its
    /// effect to the bound live memory.
    pub fn interact(&self, handle: &mut MemoryHandle, kb: &KeyboardFrame)
        ensures
            final(handle).cells@ == spec_widget_interact(self@, old(handle).cells@, *kb),
        decreases *self,
    {
        match self {
            Widget::Flag { cell, hotkey, .. } => {
                if opt_pressed(hotkey, kb) {
                    match handle.read(*cell) {
                        Some(v) => {
                            handle.write(*cell, !v);
                        },
                        None => {},
                    }
                }
            },
            Widget::MultiFlag { cells, hotkey, .. } => {
                if opt_pressed(hotkey, kb) {
                    multi_toggle(handle, cells);
                }
            },
            Widget::Group { children, .. } => {
                let ghost cv = widget_views(children@);
                let mut i: usize = 0;
                proof {
                    lemma_widget_views_len(children@);
                    assert(cv.skip(0) =~= cv);
                }
                #[verifier::loop_isolation(false)]
                while i < children.len()
                    invariant
                        i <= children@.len(),
                        spec_widgets_interact(cv, old(handle).cells@, *kb)
                            == spec_widgets_interact(cv.skip(i as int), handle.cells@, *kb),
                    decreases children@.len() - i,
                {
                    proof {
                        lemma_widget_views_index(children@, i as int);
                        assert(cv.skip(i as int)[0] == cv[i as int]);
                        assert(cv.skip(i as int).skip(1) =~= cv.skip(i as int + 1));
                    }
                    children[i].interact(handle, kb);
                    i = i + 1;
                }
                proof {
                    assert(cv.skip(children@.len() as int) =~= Seq::<WidgetV>::empty());
                }
            },
            _ => {},
        }
    }
}

/// The value of the first available cell of `cells`, if any.
fn first_avail(handle: &MemoryHandle, cells: &Vec<usize>) -> (r: Option<bool>)
    ensures
        r == spec_first_avail(handle.cells@, cells@.map_values(|c: usize| c as int)),
{
    let ghost cl = cells@.map_values(|c: usize| c as int);
    let mut i: usize = 0;
    let n = cells.len();
    proof {
        assert(cl.skip(0) =~= cl);
    }
    while i < n
        invariant
            i <= n,
            n == cells@.len(),
            cl == cells@.map_values(|c: usize| c as int),
            spec_first_avail(handle.cells@, cl) == spec_first_avail(
                handle.cells@,
                cl.skip(i as int),
            ),
        decreases n - i,
    {
        proof {
            assert(cl.skip(i as int)[0] == cl[i as int]);
            assert(cl.skip(i as int).skip(1) =~= cl.skip(i as int + 1));
        }
        match handle.read(cells[i]) {
            Some(v) => {
                proof {
                    assert(spec_first_avail(handle.cells@, cl.skip(i as int)) == Some(v));
                }
                return Some(v);
            },
            None => {},
        }
        i = i + 1;
    }
    proof {
        assert(cl.skip(n as int) =~= Seq::<int>::empty());
    }
    None
}

/// Applies a synchronized toggle to a cell list: every cell is set
/// to the negation of the first available one.
fn multi_toggle(handle: &mut MemoryHandle, cells: &Vec<usize>)
    ensures
        final(handle).cells@ == spec_multi_toggled(
            old(handle).cells@,
            cells@.map_values(|c: usize| c as int),
        ),
{
    let ghost cl = cells@.map_values(|c: usize| c as int);
    let target: bool = match first_avail(handle, cells) {
        Some(v) => !v,
        None => true,
    };
    let n = cells.len();
    let ghost pre = handle.cells@;
    let mut k: usize = 0;
    proof {
        assert(cl.skip(0) =~= cl);
    }
    while k < n
        invariant
            k <= n,
            n == cells@.len(),
            cl == cells@.map_values(|c: usize| c as int),
            spec_cells_written(pre, cl, target) == spec_cells_written(
                handle.cells@,
                cl.skip(k as int),
                target,
            ),
        decreases n - k,
    {
        proof {
            assert(cl.skip(k as int)[0] == cl[k as int]);
            assert(cl.skip(k as int).skip(1) =~= cl.skip(k as int + 1));
        }
        handle.write(cells[k], target);
        k = k + 1;
    }
    proof {
        assert(cl.skip(n as int) =~= Seq::<int>::empty());
    }
}

} // verus!
