//! The process-wide input gate and the transparent controller-poll
//! interception built on it.
//!
//! The host polls its controller once per frame through a function this
//! tool has substituted for the raw one.  The substitute forwards to
//! the raw implementation, then consults the input gate: while the input gate is
//! raised the host is handed a neutral snapshot, so the overlay alone
//! consumes the controller that frame.  While the input gate is closed the
//! interception is transparent: the host sees exactly what the raw
//! poll returned.

use vstd::prelude::*;

verus! {

/// A fixed-size snapshot of controller state as the host's poll
/// reports it: a button bitmask and two analog sticks.
#[derive(Clone, Copy, PartialEq, Eq, Structural, Debug)]
pub struct PadState {
    pub buttons: u16,
    pub left_x: i16,
    pub left_y: i16,
    pub right_x: i16,
    pub right_y: i16,
}

impl PadState {
    /// The neutral snapshot: no button held, both sticks centered.
    pub open spec fn spec_neutral() -> PadState {
        PadState { buttons: 0, left_x: 0, left_y: 0, right_x: 0, right_y: 0 }
    }

    /// Returns the neutral snapshot.
    pub fn neutral() -> (r: PadState)
        ensures
            r == PadState::spec_neutral(),
    {
        PadState { buttons: 0, left_x: 0, left_y: 0, right_x: 0, right_y: 0 }
    }

    /// Whether every button of `mask` is currently held.
    pub open spec fn spec_holds_mask(self, mask: u16) -> bool {
        self.buttons & mask == mask
    }

    /// Whether every button of `mask` is currently held.
    pub fn holds_mask(&self, mask: u16) -> (r: bool)
        ensures
            r == self.spec_holds_mask(mask),
    {
        self.buttons & mask == mask
    }
}

/// The flag signaling "the overlay is exclusively consuming controller
/// input this frame".  It is raised when the menu-open combination is
/// detected and lowered when the menu closes; the interception layer
/// reads it on every intercepted poll.
pub struct InputGate {
    pub open: bool,
}

impl InputGate {
    /// A gate starts closed: interception is transparent by default.
    pub fn new() -> (r: InputGate)
        ensures
            !r.open,
    {
        InputGate { open: false }
    }

    /// Raises the input gate.
    pub fn raise(&mut self)
        ensures
            final(self).open,
    {
        self.open = true;
    }

    /// Lowers the input gate.
    pub fn lower(&mut self)
        ensures
            !final(self).open,
    {
        self.open = false;
    }

    /// Reads the input gate.
    pub fn is_open(&self) -> (r: bool)
        ensures
            r == self.open,
    {
        self.open
    }
}

/// The snapshot the host receives from an intercepted poll that
/// really returned `raw`: the input gate closed leaves the result
/// untouched, the input gate raised forces it neutral for that call only.
pub open spec fn spec_gated_poll(raw: PadState, gate_open: bool) -> PadState {
    if gate_open {
        PadState::spec_neutral()
    } else {
        raw
    }
}

/// Applies the input gate to the result of the raw poll.  This is the whole
/// effect the interception layer has on the host's controller reads:
/// with the input gate closed it is transparent.
pub fn gated_poll(raw: PadState, gate: &InputGate) -> (r: PadState)
    ensures
        r == spec_gated_poll(raw, gate.open),
        !gate.open ==> r == raw,
        gate.open ==> r == PadState::spec_neutral(),
{
    if gate.open {
        PadState::neutral()
    } else {
        raw
    }
}

} // verus!
