//! Attach-time activation: whether presenting the overlay should
//! wait for a deliberate key gesture, and the state machine that
//! watches for it.
//!
//! When the tool is loaded under the name of the input library it
//! replaces, it may have been picked up by the host without the
//! user asking for it; the overlay is then presented only after the
//! activation key has been held for a sustained stretch within a
//! fixed window of attach.  The polling loop itself sleeps and
//! reads the key outside this crate; each observation is handed to
//! [`GestureWait::step`].

use vstd::prelude::*;

use crate::input::spec_lower;
use crate::input::lower_char;
use crate::input::string_chars;
use crate::input::token_is;

verus! {

/// How long the activation key must be held, milliseconds.
pub const GESTURE_HOLD_MS: u64 = 2000;

/// How long after attach the gesture is awaited, milliseconds.
pub const GESTURE_WINDOW_MS: u64 = 10000;

/// The lower-cased characters of a name.
pub open spec fn spec_lower_seq(s: Seq<char>) -> Seq<char> {
    s.map_values(|c: char| spec_lower(c))
}

/// Whether the tool, loaded from the file called `file_name`, must
/// await the activation gesture before presenting the overlay:
/// exactly when the name is, case-insensitively, that of the input
/// library the tool stands in for.
pub fn activation_requires_gesture(file_name: &String) -> (r: bool)
    ensures
        r == (spec_lower_seq(file_name@) == "dinput8.dll"@),
{
    let chars = string_chars(file_name);
    let mut lowered: Vec<char> = Vec::new();
    let mut i: usize = 0;
    while i < chars.len()
        invariant
            i <= chars@.len(),
            chars@ == file_name@,
            lowered@ =~= spec_lower_seq(file_name@).take(i as int),
        decreases chars@.len() - i,
    {
        lowered.push(lower_char(chars[i]));
        proof {
            assert(lowered@ =~= spec_lower_seq(file_name@).take(i as int + 1));
        }
        i = i + 1;
    }
    proof {
        assert(spec_lower_seq(file_name@).take(chars@.len() as int) =~= spec_lower_seq(
            file_name@,
        ));
    }
    token_is(&lowered, "dinput8.dll")
}

/// What one observation of the activation key means.
#[derive(Clone, Copy, PartialEq, Eq, Structural, Debug)]
pub enum GesturePoll {
    /// The key has been held long enough: present the overlay.
    Activated,
    /// The window has closed without the gesture: stay away.
    TimedOut,
    /// Keep watching.
    Pending,
}

/// The watcher for the activation gesture.
pub struct GestureWait {
    /// When the watch began, milliseconds.
    pub start_ms: u64,
    /// Since when the key has been held continuously, if it is
    /// held.
    pub held_since_ms: Option<u64>,
}

impl GestureWait {
    /// Begins watching at `now_ms`.
    pub fn new(now_ms: u64) -> (r: GestureWait)
        ensures
            r.start_ms == now_ms,
            r.held_since_ms is None,
    {
        GestureWait { start_ms: now_ms, held_since_ms: None }
    }

    /// Feeds one observation of the activation key: the gesture
    /// activates once the key has been held for
    /// [`GESTURE_HOLD_MS`]; the watch times out once
    /// [`GESTURE_WINDOW_MS`] have passed since it began, checked
    /// before the observation counts.
    pub fn step(&mut self, now_ms: u64, key_down: bool) -> (r: GesturePoll)
        requires
            old(self).start_ms <= now_ms,
            old(self).held_since_ms matches Some(t) ==> t <= now_ms,
        ensures
            final(self).start_ms == old(self).start_ms,
            now_ms - old(self).start_ms >= GESTURE_WINDOW_MS ==> r == GesturePoll::TimedOut
                && *final(self) == *old(self),
            now_ms - old(self).start_ms < GESTURE_WINDOW_MS && !key_down ==> r
                == GesturePoll::Pending && final(self).held_since_ms is None,
            now_ms - old(self).start_ms < GESTURE_WINDOW_MS && key_down
                && old(self).held_since_ms is None ==> r == GesturePoll::Pending
                && final(self).held_since_ms == Some(now_ms),
            match old(self).held_since_ms {
                Some(t) => now_ms - old(self).start_ms < GESTURE_WINDOW_MS && key_down ==> (
                now_ms - t >= GESTURE_HOLD_MS ==> r == GesturePoll::Activated) && (now_ms - t
                    < GESTURE_HOLD_MS ==> r == GesturePoll::Pending
                    && final(self).held_since_ms == Some(t)),
                None => true,
            },
    {
        if now_ms - self.start_ms >= GESTURE_WINDOW_MS {
            return GesturePoll::TimedOut;
        }
        match (key_down, self.held_since_ms) {
            (true, None) => {
                self.held_since_ms = Some(now_ms);
                GesturePoll::Pending
            },
            (true, Some(since)) => {
                if now_ms - since >= GESTURE_HOLD_MS {
                    GesturePoll::Activated
                } else {
                    GesturePoll::Pending
                }
            },
            (false, _) => {
                self.held_since_ms = None;
                GesturePoll::Pending
            },
        }
    }
}

/// Whether the host's menu timer — handed over as the raw bits of
/// its 32-bit floating-point value — reads greater than zero, the
/// sign that the host has finished its own startup and the overlay
/// may initialize.  A not-a-number pattern never counts as running.
pub open spec fn spec_timer_running(bits: u32) -> bool {
    &&& bits & 0x8000_0000 == 0
    &&& bits & 0x7fff_ffff != 0
    &&& !((bits & 0x7f80_0000) == 0x7f80_0000 && (bits & 0x007f_ffff) != 0)
}

/// Decides the attach-time wait on the host's menu timer: proceed
/// exactly when the timer's value is positive.
pub fn host_ready(timer_bits: u32) -> (r: bool)
    ensures
        r == spec_timer_running(timer_bits),
{
    timer_bits & 0x8000_0000 == 0 && timer_bits & 0x7fff_ffff != 0 && !((timer_bits
        & 0x7f80_0000) == 0x7f80_0000 && (timer_bits & 0x007f_ffff) != 0)
}

} // verus!
