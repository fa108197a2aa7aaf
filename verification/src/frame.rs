//! Per-frame dispatch: the overlay's state machine, the synthetic
//! key queues, and the log display buffer.
//!
//! Each frame, in order: queued synthetic key releases from the
//! previous frame are applied, then queued presses, each press
//! re-queuing its own release for the next frame — this is how the
//! radial menu injects a key tap without owning the input backend.
//! The overlay state is driven by the `display` and `hide` hotkeys,
//! `hide` taking precedence, and a hidden overlay always returns to
//! closed on the next toggle.  Finally, queued log messages are
//! flushed into a time-windowed display buffer.

use vstd::prelude::*;

use crate::fmt::spec_config_err_text;
use crate::fmt::config_err_text;
use crate::input::KeyCode;
use crate::input::KeyboardFrame;
use crate::input::spec_pressed;
use crate::memory::Catalogue;
use crate::memory::MemoryHandle;
use crate::memory::MemoryLayout;
use crate::radial::RadialState;
use crate::settings::Config;
use crate::widget::Widget;
use crate::widget::spec_widgets_interact;
use crate::widget::widget_views;
use crate::widget::lemma_widget_views_len;

verus! {

/// The overlay's interface state.
#[derive(Clone, Copy, PartialEq, Eq, Structural, Debug)]
pub enum UiState {
    /// The control panel is open.
    MenuOpen,
    /// The idle overlay is shown.
    Closed,
    /// Nothing is drawn; hotkeys still work.
    Hidden,
}

/// The next interface state, from the two hotkeys sampled once per
/// frame: nothing moves while the interface itself wants the
/// keyboard; `hide` takes precedence over `display`; and a hidden
/// overlay always comes back to closed, never to hidden.
pub open spec fn spec_next_ui(
    state: UiState,
    display: bool,
    hide: bool,
    want_capture: bool,
) -> UiState {
    if !want_capture && (display || hide) {
        match (state, hide) {
            (UiState::Hidden, _) => UiState::Closed,
            (_, true) => UiState::Hidden,
            (UiState::MenuOpen, false) => UiState::Closed,
            (UiState::Closed, false) => UiState::MenuOpen,
        }
    } else {
        state
    }
}

impl UiState {
    /// Advances the interface state for one frame.
    pub fn next(self, display: bool, hide: bool, want_capture: bool) -> (r: UiState)
        ensures
            r == spec_next_ui(self, display, hide, want_capture),
    {
        if !want_capture && (display || hide) {
            match (self, hide) {
                (UiState::Hidden, _) => UiState::Closed,
                (_, true) => UiState::Hidden,
                (UiState::MenuOpen, false) => UiState::Closed,
                (UiState::Closed, false) => UiState::MenuOpen,
            }
        } else {
            self
        }
    }
}

/// A key list as key events, all pressed or all released.
pub open spec fn spec_key_events(codes: Seq<KeyCode>, down: bool) -> Seq<(KeyCode, bool)> {
    codes.map_values(|k: KeyCode| (k, down))
}

/// Drains the synthetic key queues for one frame.  The events to
/// hand the input backend are last frame's releases, then this
/// frame's presses; every press re-queues its own release for the
/// next frame, so each injected tap is exactly one press/release
/// pair.
pub fn drain_key_queues(press: &mut Vec<KeyCode>, release: &mut Vec<KeyCode>) -> (events: Vec<
    (KeyCode, bool),
>)
    ensures
        events@ == spec_key_events(old(release)@, false) + spec_key_events(old(press)@, true),
        final(release)@ == old(press)@,
        final(press)@.len() == 0,
{
    let mut events: Vec<(KeyCode, bool)> = Vec::new();
    let mut i: usize = 0;
    while i < release.len()
        invariant
            i <= release@.len(),
            release@ == old(release)@,
            press@ == old(press)@,
            events@ =~= spec_key_events(old(release)@.take(i as int), false),
        decreases release@.len() - i,
    {
        events.push((release[i], false));
        proof {
            assert(events@ =~= spec_key_events(old(release)@.take(i as int + 1), false));
        }
        i = i + 1;
    }
    proof {
        assert(old(release)@.take(old(release)@.len() as int) =~= old(release)@);
    }
    let mut new_release: Vec<KeyCode> = Vec::new();
    let mut k: usize = 0;
    while k < press.len()
        invariant
            k <= press@.len(),
            press@ == old(press)@,
            new_release@ =~= old(press)@.take(k as int),
            events@ =~= spec_key_events(old(release)@, false) + spec_key_events(
                old(press)@.take(k as int),
                true,
            ),
        decreases press@.len() - k,
    {
        events.push((press[k], true));
        new_release.push(press[k]);
        proof {
            assert(new_release@ =~= old(press)@.take(k as int + 1));
            assert(events@ =~= spec_key_events(old(release)@, false) + spec_key_events(
                old(press)@.take(k as int + 1),
                true,
            ));
        }
        k = k + 1;
    }
    proof {
        assert(old(press)@.take(old(press)@.len() as int) =~= old(press)@);
    }
    *release = new_release;
    press.clear();
    events
}

/// A key sequence enqueued by a confirmed radial selection is
/// injected as exactly one press per key — no more — next to
/// whatever was already queued, and the drain re-queues exactly
/// those keys for release, so every injected tap is one
/// press/release pair.
pub proof fn lemma_tap_injection(prior: Seq<KeyCode>, keys: Seq<KeyCode>, down: bool)
    ensures
        spec_key_events(prior + keys, down) == spec_key_events(prior, down) + spec_key_events(
            keys,
            down,
        ),
{
    assert(spec_key_events(prior + keys, down) =~= spec_key_events(prior, down)
        + spec_key_events(keys, down));
}

/// How long a log line stays on screen, milliseconds.
pub const LOG_RETENTION_MS: u64 = 5000;

/// How many log lines are shown at once.
pub const LOG_SHOWN: usize = 3;

/// One line of the log display buffer.
pub struct LogEntry {
    pub at_ms: u64,
    pub text: String,
}

/// The capped, time-windowed log display buffer.
pub struct LogBuffer {
    pub entries: Vec<LogEntry>,
}

/// Whether a log entry is still within the retention window at
/// `now_ms`.
pub open spec fn spec_log_live(e: LogEntry, now_ms: u64) -> bool {
    e.at_ms <= now_ms && now_ms - e.at_ms < LOG_RETENTION_MS
}

impl LogBuffer {
    /// An empty buffer.
    pub fn new() -> (r: LogBuffer)
        ensures
            r.entries@.len() == 0,
    {
        LogBuffer { entries: Vec::new() }
    }

    /// Flushes newly received messages into the buffer, stamped
    /// with the frame's time, and drops every entry older than the
    /// retention window: exactly the still-live old entries, then
    /// the new ones, in arrival order.
    pub fn flush(&mut self, now_ms: u64, msgs: Vec<String>)
        ensures
            final(self).entries@ == old(self).entries@.filter(
                |e: LogEntry| spec_log_live(e, now_ms),
            ) + msgs@.map_values(|m: String| LogEntry { at_ms: now_ms, text: m }),
    {
        let mut kept: Vec<LogEntry> = Vec::new();
        let n = self.entries.len();
        let mut i: usize = 0;
        proof {
            assert(self.entries@.take(0int).filter(|e: LogEntry| spec_log_live(e, now_ms))
                =~= Seq::<LogEntry>::empty());
        }
        while i < n
            invariant
                i <= n,
                n == self.entries@.len(),
                self.entries@ == old(self).entries@,
                kept@ == self.entries@.take(i as int).filter(
                    |e: LogEntry| spec_log_live(e, now_ms),
                ),
            decreases n - i,
        {
            proof {
                assert(self.entries@.take(i as int + 1).drop_last() =~= self.entries@.take(
                    i as int,
                ));
                reveal_with_fuel(Seq::filter, 2);
            }
            let at = self.entries[i].at_ms;
            let live = at <= now_ms && now_ms - at < LOG_RETENTION_MS;
            if live {
                let text = self.entries[i].text.clone();
                let at_ms = self.entries[i].at_ms;
                kept.push(LogEntry { at_ms, text });
                proof {
                    assert(LogEntry { at_ms, text } == self.entries@[i as int]);
                }
            }
            i = i + 1;
        }
        proof {
            assert(self.entries@.take(n as int) =~= self.entries@);
        }
        let mut j: usize = 0;
        let m = msgs.len();
        let ghost base = kept@;
        while j < m
            invariant
                j <= m,
                m == msgs@.len(),
                kept@ =~= base + msgs@.take(j as int).map_values(
                    |t: String| LogEntry { at_ms: now_ms, text: t },
                ),
            decreases m - j,
        {
            let text = msgs[j].clone();
            kept.push(LogEntry { at_ms: now_ms, text });
            proof {
                assert(kept@ =~= base + msgs@.take(j as int + 1).map_values(
                    |t: String| LogEntry { at_ms: now_ms, text: t },
                ));
            }
            j = j + 1;
        }
        proof {
            assert(msgs@.take(m as int) =~= msgs@);
        }
        self.entries = kept;
    }

    /// The lines to draw: the most recent [`LOG_SHOWN`] entries, in
    /// order.
    pub fn recent(&self) -> (r: Vec<String>)
        ensures
            r@.len() == (if self.entries@.len() < LOG_SHOWN {
                self.entries@.len() as int
            } else {
                LOG_SHOWN as int
            }),
            forall|j: int|
                0 <= j < r@.len() ==> r@[j] == self.entries@[self.entries@.len() - r@.len()
                    + j].text,
    {
        let n = self.entries.len();
        let start = if n < LOG_SHOWN {
            0
        } else {
            n - LOG_SHOWN
        };
        let mut r: Vec<String> = Vec::new();
        let mut i: usize = start;
        while i < n
            invariant
                start <= i <= n,
                n == self.entries@.len(),
                r@.len() == i - start,
                forall|j: int| 0 <= j < r@.len() ==> r@[j] == self.entries@[start + j].text,
            decreases n - i,
        {
            r.push(self.entries[i].text.clone());
            i = i + 1;
        }
        r
    }
}

/// The sizes the overlay font comes in, picked by display width.
#[derive(Clone, Copy, PartialEq, Eq, Structural, Debug)]
pub enum FontChoice {
    Small,
    Normal,
    Big,
}

/// The font for a display of the given pixel width.
pub open spec fn spec_font_choice(width: u32) -> FontChoice {
    if width > 2000 {
        FontChoice::Big
    } else if width > 1200 {
        FontChoice::Normal
    } else {
        FontChoice::Small
    }
}

/// Picks the overlay font for a display width.
pub fn font_choice(width: u32) -> (r: FontChoice)
    ensures
        r == spec_font_choice(width),
{
    if width > 2000 {
        FontChoice::Big
    } else if width > 1200 {
        FontChoice::Normal
    } else {
        FontChoice::Small
    }
}

/// Which of the three renderers this frame dispatches to.
#[derive(Clone, Copy, PartialEq, Eq, Structural, Debug)]
pub enum RenderDispatch {
    /// Draw the open control panel.
    Visible,
    /// Draw the idle overlay and its indicators.
    Closed,
    /// Draw nothing; hotkeys were still polled.
    Hidden,
}

/// The tool's per-frame state: the interface state machine, the
/// frame counter, the synthetic key queues, the log buffer, the
/// radial-menu state and the compiled widget tree.
pub struct ToolState {
    pub config: Config,
    pub ui_state: UiState,
    pub framecount: u32,
    pub press_queue: Vec<KeyCode>,
    pub release_queue: Vec<KeyCode>,
    pub logs: LogBuffer,
    pub radial: RadialState,
    pub widgets: Vec<Widget>,
    pub config_err: Option<String>,
}

impl ToolState {
    /// Builds the tool's state from a loaded (or failed)
    /// configuration.  A configuration that could not be loaded or
    /// compiled falls back to the safe default — an empty widget
    /// tree — and the diagnostic is kept for the overlay to show
    /// instead of crashing.
    pub fn new(
        loaded: Result<Config, String>,
        config_file: &String,
        cat: &Catalogue,
        layout: &MemoryLayout,
    ) -> (r: ToolState)
        requires
            layout.wf(),
            layout.geom_len == 13 || layout.geom_len >= 16,
        ensures
            r.ui_state == UiState::Closed,
            r.framecount == 0,
            r.press_queue@.len() == 0,
            r.release_queue@.len() == 0,
            r.logs.entries@.len() == 0,
            match loaded {
                Err(le) => r.widgets@.len() == 0 && r.config.commands@.len() == 0 && (
                r.config_err matches Some(e) && e@ == spec_config_err_text(config_file@, le@)),
                Ok(c) => r.config == c && match crate::compile::spec_compile_list(
                    crate::command::command_views(c.commands@),
                    crate::feature::feature_views(c.features@),
                    crate::memory::def_views(cat.defs@),
                    *layout,
                ) {
                    Ok(ws) => widget_views(r.widgets@) == ws && r.config_err is None,
                    Err(e) => r.widgets@.len() == 0 && (r.config_err matches Some(msg)
                        && msg@ == spec_config_err_text(config_file@, e)),
                },
            },
    {
        let (config, config_err): (Config, Option<String>) = match loaded {
            Ok(c) => (c, None),
            Err(e) => (
                Config::default(),
                Some(config_err_text(config_file.as_str(), e.as_str())),
            ),
        };
        let (widgets, config_err): (Vec<Widget>, Option<String>) = match config.make_commands(
            cat,
            layout,
        ) {
            Ok(ws) => (ws, config_err),
            Err(e) => (
                Vec::new(),
                match config_err {
                    Some(m) => Some(m),
                    None => Some(config_err_text(config_file.as_str(), e.as_str())),
                },
            ),
        };
        proof {
            lemma_widget_views_len(widgets@);
            if loaded is Err {
                assert(crate::command::command_views(config.commands@)
                    =~= Seq::<crate::command::CommandV>::empty());
            }
        }
        ToolState {
            config,
            ui_state: UiState::Closed,
            framecount: 0,
            press_queue: Vec::new(),
            release_queue: Vec::new(),
            logs: LogBuffer::new(),
            radial: RadialState::new(),
            widgets,
            config_err,
        }
    }

    /// Applies the frame's pre-render step: drains the synthetic
    /// key queues, handing back the key events to inject.
    pub fn before_render(&mut self) -> (events: Vec<(KeyCode, bool)>)
        ensures
            events@ == spec_key_events(old(self).release_queue@, false) + spec_key_events(
                old(self).press_queue@,
                true,
            ),
            final(self).release_queue@ == old(self).press_queue@,
            final(self).press_queue@.len() == 0,
            final(self).ui_state == old(self).ui_state,
            final(self).framecount == old(self).framecount,
            final(self).widgets == old(self).widgets,
            final(self).logs == old(self).logs,
            final(self).radial == old(self).radial,
            final(self).config == old(self).config,
            final(self).config_err == old(self).config_err,
    {
        drain_key_queues(&mut self.press_queue, &mut self.release_queue)
    }

    /// Advances the frame: counts it, moves the interface state by
    /// the two hotkeys, flushes the log buffer, and says which
    /// renderer this frame gets.  The cursor is shown exactly while
    /// the control panel is open.
    pub fn frame_step(
        &mut self,
        kb: &KeyboardFrame,
        want_capture: bool,
        now_ms: u64,
        incoming: Vec<String>,
    ) -> (r: (RenderDispatch, bool))
        ensures
            final(self).ui_state == spec_next_ui(
                old(self).ui_state,
                spec_pressed(old(self).config.settings.display@, *kb),
                match old(self).config.settings.hide {
                    Some(k) => spec_pressed(k@, *kb),
                    None => false,
                },
                want_capture,
            ),
            final(self).framecount == (if old(self).framecount == u32::MAX {
                0u32
            } else {
                (old(self).framecount + 1) as u32
            }),
            final(self).logs.entries@ == old(self).logs.entries@.filter(
                |e: LogEntry| spec_log_live(e, now_ms),
            ) + incoming@.map_values(|m: String| LogEntry { at_ms: now_ms, text: m }),
            r.0 == (match final(self).ui_state {
                UiState::MenuOpen => RenderDispatch::Visible,
                UiState::Closed => RenderDispatch::Closed,
                UiState::Hidden => RenderDispatch::Hidden,
            }),
            r.1 == (final(self).ui_state == UiState::MenuOpen),
            final(self).widgets == old(self).widgets,
            final(self).press_queue == old(self).press_queue,
            final(self).release_queue == old(self).release_queue,
            final(self).radial == old(self).radial,
            final(self).config == old(self).config,
            final(self).config_err == old(self).config_err,
    {
        let display = self.config.settings.display.is_pressed(kb);
        let hide = match &self.config.settings.hide {
            Some(k) => k.is_pressed(kb),
            None => false,
        };
        self.framecount = self.framecount.wrapping_add(1);
        self.ui_state = self.ui_state.next(display, hide, want_capture);
        self.logs.flush(now_ms, incoming);
        let dispatch = match self.ui_state {
            UiState::MenuOpen => RenderDispatch::Visible,
            UiState::Closed => RenderDispatch::Closed,
            UiState::Hidden => RenderDispatch::Hidden,
        };
        let cursor = match self.ui_state {
            UiState::MenuOpen => true,
            _ => false,
        };
        (dispatch, cursor)
    }

    /// Polls every widget's hotkeys once, in tree order, applying
    /// their effects to the bound live memory.  Every renderer runs
    /// this pass, the hidden one too: hiding the overlay does not
    /// disable the hotkeys.
    pub fn interact_widgets(&self, handle: &mut MemoryHandle, kb: &KeyboardFrame)
        ensures
            final(handle).cells@ == spec_widgets_interact(
                widget_views(self.widgets@),
                old(handle).cells@,
                *kb,
            ),
    {
        let ghost wv = widget_views(self.widgets@);
        let mut i: usize = 0;
        proof {
            lemma_widget_views_len(self.widgets@);
            assert(wv.skip(0) =~= wv);
        }
        while i < self.widgets.len()
            invariant
                i <= self.widgets@.len(),
                wv == widget_views(self.widgets@),
                self.widgets@.len() == wv.len(),
                spec_widgets_interact(wv, old(handle).cells@, *kb) == spec_widgets_interact(
                    wv.skip(i as int),
                    handle.cells@,
                    *kb,
                ),
            decreases self.widgets@.len() - i,
        {
            proof {
                crate::widget::lemma_widget_views_index(self.widgets@, i as int);
                assert(wv.skip(i as int)[0] == wv[i as int]);
                assert(wv.skip(i as int).skip(1) =~= wv.skip(i as int + 1));
            }
            self.widgets[i].interact(handle, kb);
            i = i + 1;
        }
        proof {
            assert(wv.skip(wv.len() as int) =~= Seq::<crate::widget::WidgetV>::empty());
        }
    }
}

} // verus!
