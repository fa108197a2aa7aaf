//! The radial-menu state machine.
//!
//! Once per frame the menu reads the controller before and after
//! the host's real poll to detect button-release edges.  When the
//! configured open combination is held, the input gate is raised
//! and the open time recorded.  While the input gate is up, stick
//! deflection beyond a deadzone — and outside a debounce window
//! after opening, so the motion that triggered the combination does
//! not also rotate the menu — is normalized to a fixed-point unit
//! vector and fed to the selection geometry (an external
//! collaborator that turns the vector into a hovered entry).  A
//! confirm release enqueues the hovered entry's key sequence and
//! lowers the input gate; a cancel release just lowers the input gate.
//!
//! All stick arithmetic is integer: the normalized vector is scaled
//! by [`STICK_SCALE`], and normalization is proved to keep the
//! magnitude within a few parts in ten thousand of unit while
//! preserving the direction.

use vstd::prelude::*;

use vstd::arithmetic::div_mod::lemma_fundamental_div_mod;
use vstd::arithmetic::div_mod::lemma_mod_bound;

use crate::gate::InputGate;
use crate::gate::PadState;
use crate::input::ControllerCombination;
use crate::input::Key;
use crate::input::KeyCode;
use crate::input::PAD_A;
use crate::input::PAD_B;

verus! {

/// The fixed-point scale of a normalized stick vector: this many
/// units stand for length one.
pub const STICK_SCALE: u64 = 10000;

/// Stick deflection at or below this magnitude is ignored.
pub const STICK_DEADZONE: u64 = 10000;

/// Stick deflection within this many milliseconds of menu-open is
/// ignored, so releasing the open combination does not rotate the
/// menu.
pub const RADIAL_DEBOUNCE_MS: u64 = 150;

/// One selectable entry of the radial menu: the label drawn in its
/// sector and the key sequence emitted when it is confirmed.
pub struct RadialMenu {
    pub key: Key,
    pub label: String,
}

/// The per-frame state of the radial menu.
pub struct RadialState {
    /// Last frame's controller snapshot, for release edges.
    pub prev: PadState,
    /// The stored normalized stick vector, fixed point.
    pub stick_x: i32,
    pub stick_y: i32,
    /// When the menu-open combination was last seen, milliseconds.
    pub open_time_ms: u64,
    /// Release edges seen this frame, consumed by the frame's end.
    pub released_confirm: bool,
    pub released_cancel: bool,
}

impl RadialState {
    /// A fresh state: sticks centered, no edges, opened at time
    /// zero.
    pub fn new() -> (r: RadialState)
        ensures
            r.prev == PadState::spec_neutral(),
            r.stick_x == 0 && r.stick_y == 0,
            r.open_time_ms == 0,
            !r.released_confirm && !r.released_cancel,
    {
        RadialState {
            prev: PadState::neutral(),
            stick_x: 0,
            stick_y: 0,
            open_time_ms: 0,
            released_confirm: false,
            released_cancel: false,
        }
    }
}

/// The integer square root: the largest `r` with `r * r <= n`.
pub fn isqrt64(n: u64) -> (r: u64)
    requires
        n < 0x4000_0000_0000_0000,
    ensures
        r * r <= n < (r + 1) * (r + 1),
{
    let mut r: u64 = 0;
    loop
        invariant
            n < 0x4000_0000_0000_0000,
            r * r <= n,
        ensures
            r * r <= n < (r + 1) * (r + 1),
        decreases n - r,
    {
        proof {
            assert(r <= n && (r + 1) * (r + 1) < 0x8000_0000_0000_0000 && (r + 1) <= (r + 1)
                * (r + 1)) by (nonlinear_arith)
                requires
                    r * r <= n,
                    n < 0x4000_0000_0000_0000,
                    r >= 0,
            ;
        }
        let nxt: u64 = (r + 1) * (r + 1);
        if nxt <= n {
            r = r + 1;
        } else {
            break ;
        }
    }
    r
}

/// Whether `(nx, ny)` is the fixed-point normalization of `(x, y)`:
/// signs preserved, magnitude within a few units of the scale, and
/// the cross product with the input — the measure of any change of
/// direction — bounded by the input's own coordinate sum.
pub open spec fn is_normalized_of(nx: int, ny: int, x: int, y: int) -> bool {
    let s = STICK_SCALE as int;
    let ax = if x >= 0 {
        x
    } else {
        -x
    };
    let ay = if y >= 0 {
        y
    } else {
        -y
    };
    &&& (x >= 0 ==> nx >= 0) && (x <= 0 ==> nx <= 0)
    &&& (y >= 0 ==> ny >= 0) && (y <= 0 ==> ny <= 0)
    &&& (s - 3) * (s - 3) < nx * nx + ny * ny < (s + 1) * (s + 1)
    &&& -(ax + ay) <= nx * y - ny * x <= ax + ay
}

/// The core bounds behind normalization: with `m` the integer
/// square root of the squared magnitude `n`, the scaled quotients
/// keep near-unit magnitude and the direction.
proof fn lemma_normalized_bounds(ax: int, ay: int, m: int, n: int, px: int, py: int)
    requires
        ax >= 0,
        ay >= 0,
        n == ax * ax + ay * ay,
        n > 10000 * 10000,
        m >= 0,
        m * m <= n,
        n < (m + 1) * (m + 1),
        px == (ax * 10000) / m,
        py == (ay * 10000) / m,
    ensures
        px >= 0,
        py >= 0,
        px <= ax,
        py <= ay,
        (10000 - 3) * (10000 - 3) < px * px + py * py < (10000 + 1) * (10000 + 1),
        -(ax + ay) <= px * ay - py * ax <= ax + ay,
{
    let s = 10000int;
    assert(m >= s) by (nonlinear_arith)
        requires
            n > s * s,
            n < (m + 1) * (m + 1),
            m >= 0,
            s == 10000,
    ;
    assert(ax <= m && ay <= m) by (nonlinear_arith)
        requires
            n == ax * ax + ay * ay,
            n < (m + 1) * (m + 1),
            ax >= 0,
            ay >= 0,
            m >= 0,
    ;
    lemma_fundamental_div_mod(ax * s, m);
    lemma_mod_bound(ax * s, m);
    lemma_fundamental_div_mod(ay * s, m);
    lemma_mod_bound(ay * s, m);
    let rx = (ax * s) % m;
    let ry = (ay * s) % m;
    assert(ax * s == m * px + rx);
    assert(ay * s == m * py + ry);
    assert(0 <= rx < m);
    assert(0 <= ry < m);
    assert(px >= 0 && py >= 0) by (nonlinear_arith)
        requires
            ax * s == m * px + rx,
            ay * s == m * py + ry,
            0 <= rx < m,
            0 <= ry < m,
            ax >= 0,
            ay >= 0,
            s > 0,
            m > 0,
    ;
    assert(px <= ax && py <= ay) by (nonlinear_arith)
        requires
            ax * s == m * px + rx,
            ay * s == m * py + ry,
            0 <= rx < m,
            0 <= ry < m,
            ax >= 0,
            ay >= 0,
            m >= s,
            s > 0,
            px >= 0,
            py >= 0,
    ;
    // Magnitude, from above: squaring px * m <= ax * s and
    // py * m <= ay * s and summing bounds the square sum by
    // n * s * s / (m * m), which m * m <= n < (m + 1) * (m + 1)
    // pins under (s + 1) * (s + 1).
    assert((px * px + py * py) * (m * m) <= n * (s * s)) by (nonlinear_arith)
        requires
            ax * s == m * px + rx,
            ay * s == m * py + ry,
            0 <= rx,
            0 <= ry,
            px >= 0,
            py >= 0,
            m > 0,
            n == ax * ax + ay * ay,
            ax >= 0,
            ay >= 0,
            s > 0,
    ;
    assert(px * px + py * py < (s + 1) * (s + 1)) by (nonlinear_arith)
        requires
            (px * px + py * py) * (m * m) <= n * (s * s),
            n < (m + 1) * (m + 1),
            m >= s,
            s > 0,
            px >= 0,
            py >= 0,
    ;
    // Magnitude, from below: the remainders cost each coordinate
    // at most 2 * ax * s * m of its squared share.
    assert(px * px * (m * m) >= ax * ax * (s * s) - 2 * (ax * s) * m) by (nonlinear_arith)
        requires
            ax * s == m * px + rx,
            0 <= rx <= m,
            ax >= 0,
            s > 0,
            m > 0,
    ;
    assert(py * py * (m * m) >= ay * ay * (s * s) - 2 * (ay * s) * m) by (nonlinear_arith)
        requires
            ay * s == m * py + ry,
            0 <= ry <= m,
            ay >= 0,
            s > 0,
            m > 0,
    ;
    assert((px * px + py * py) * (m * m) == px * px * (m * m) + py * py * (m * m))
        by (nonlinear_arith);
    assert(n * (s * s) == ax * ax * (s * s) + ay * ay * (s * s)) by (nonlinear_arith)
        requires
            n == ax * ax + ay * ay,
    ;
    // With both coordinates below m, the remainder cost is at most
    // 4 * s * m * m, and m * m <= n keeps the squared sum at least
    // (s * s - 4 * s) * m * m.
    assert(2 * (ax * s) * m + 2 * (ay * s) * m <= 4 * s * (m * m)) by (nonlinear_arith)
        requires
            ax <= m,
            ay <= m,
            ax >= 0,
            ay >= 0,
            s > 0,
            m > 0,
    ;
    assert(n * (s * s) >= (m * m) * (s * s)) by (nonlinear_arith)
        requires
            m * m <= n,
            s != 0,
    ;
    assert((s * s - 4 * s) * (m * m) == (m * m) * (s * s) - 4 * s * (m * m))
        by (nonlinear_arith);
    assert((px * px + py * py) * (m * m) >= (s * s - 4 * s) * (m * m));
    assert(px * px + py * py >= s * s - 4 * s) by (nonlinear_arith)
        requires
            (px * px + py * py) * (m * m) >= (s * s - 4 * s) * (m * m),
            m > 0,
    ;
    assert(px * px + py * py > (s - 3) * (s - 3)) by (nonlinear_arith)
        requires
            px * px + py * py >= s * s - 4 * s,
            s == 10000,
    ;
    // Direction: the cross product of the quotients against the
    // input reduces to the remainders, each below m.
    assert((px * ay - py * ax) * m == ry * ax - rx * ay) by (nonlinear_arith)
        requires
            ax * s == m * px + rx,
            ay * s == m * py + ry,
    ;
    assert(-(m * (ax + ay)) <= ry * ax - rx * ay <= m * (ax + ay)) by (nonlinear_arith)
        requires
            0 <= rx < m,
            0 <= ry < m,
            ax >= 0,
            ay >= 0,
    ;
    assert(-(ax + ay) <= px * ay - py * ax <= ax + ay) by (nonlinear_arith)
        requires
            (px * ay - py * ax) * m == ry * ax - rx * ay,
            -(m * (ax + ay)) <= ry * ax - rx * ay <= m * (ax + ay),
            m > 0,
    ;
}

/// Normalizes a stick vector beyond the deadzone to fixed-point
/// unit length, preserving its direction.
pub fn normalize_stick(x: i32, y: i32) -> (r: (i32, i32))
    requires
        -32768 <= x <= 32768,
        -32768 <= y <= 32768,
        x * x + y * y > STICK_DEADZONE * STICK_DEADZONE,
    ensures
        is_normalized_of(r.0 as int, r.1 as int, x as int, y as int),
{
    let ax: u64 = if x >= 0 {
        x as u64
    } else {
        (-(x as i64)) as u64
    };
    let ay: u64 = if y >= 0 {
        y as u64
    } else {
        (-(y as i64)) as u64
    };
    proof {
        assert(ax * ax <= 0x4000_0000 && ay * ay <= 0x4000_0000) by (nonlinear_arith)
            requires
                0 <= ax <= 32768,
                0 <= ay <= 32768,
        ;
    }
    let n: u64 = ax * ax + ay * ay;
    proof {
        assert(n == (x as int) * (x as int) + (y as int) * (y as int)) by (nonlinear_arith)
            requires
                n == ax * ax + ay * ay,
                ax == (if x >= 0 { x as int } else { -(x as int) }),
                ay == (if y >= 0 { y as int } else { -(y as int) }),
        ;
        assert(n < 0x4000_0000_0000_0000) by (nonlinear_arith)
            requires
                n == ax * ax + ay * ay,
                ax <= 32768,
                ay <= 32768,
                ax >= 0,
                ay >= 0,
        ;
    }
    let m: u64 = isqrt64(n);
    proof {
        assert(m >= 1) by (nonlinear_arith)
            requires
                (m + 1) * (m + 1) > n,
                n > 100000000,
                m >= 0,
        ;
    }
    let px: u64 = ax * STICK_SCALE / m;
    let py: u64 = ay * STICK_SCALE / m;
    proof {
        lemma_normalized_bounds(
            ax as int,
            ay as int,
            m as int,
            n as int,
            px as int,
            py as int,
        );
    }
    let nx: i32 = if x >= 0 {
        px as i32
    } else {
        -(px as i32)
    };
    let ny: i32 = if y >= 0 {
        py as i32
    } else {
        -(py as i32)
    };
    proof {
        let xi = x as int;
        let yi = y as int;
        let axi = if xi >= 0 { xi } else { -xi };
        let ayi = if yi >= 0 { yi } else { -yi };
        assert((nx as int) * (nx as int) == (px as int) * (px as int) && (ny as int) * (ny
            as int) == (py as int) * (py as int)) by (nonlinear_arith)
            requires
                nx as int == px as int || nx as int == -(px as int),
                ny as int == py as int || ny as int == -(py as int),
        ;
        assert((nx as int) * yi - (ny as int) * xi == (px as int) * ayi - (py as int) * axi
            || (nx as int) * yi - (ny as int) * xi == -((px as int) * ayi - (py as int)
            * axi)) by (nonlinear_arith)
            requires
                (xi >= 0 ==> nx as int == px as int && axi == xi) && (xi < 0 ==> nx as int
                    == -(px as int) && axi == -xi),
                (yi >= 0 ==> ny as int == py as int && ayi == yi) && (yi < 0 ==> ny as int
                    == -(py as int) && ayi == -yi),
        ;
    }
    (nx, ny)
}

/// Reads the controller for one frame, before the selection
/// geometry runs: records release edges against the previous
/// snapshot, raises the input gate and stamps the open time while the
/// open combination is held, and — while the input gate is up — stores
/// the normalized stick vector, ignoring deflection inside the
/// deadzone or within the debounce window of opening.
///
/// With no combination configured the menu is disabled and nothing
/// changes.
pub fn radial_frame_begin(
    state: &mut RadialState,
    gate: &mut InputGate,
    combo: &Option<ControllerCombination>,
    pad: PadState,
    now_ms: u64,
)
    requires
        old(state).open_time_ms <= now_ms,
    ensures
        combo is None ==> *final(state) == *old(state) && *final(gate) == *old(gate),
        combo matches Some(c) ==> {
            &&& final(state).prev == pad
            &&& final(state).released_confirm == (old(state).prev.spec_holds_mask(PAD_A)
                && !pad.spec_holds_mask(PAD_A))
            &&& final(state).released_cancel == (old(state).prev.spec_holds_mask(PAD_B)
                && !pad.spec_holds_mask(PAD_B))
            &&& final(gate).open == (old(gate).open || pad.spec_holds_mask(c.mask))
            &&& final(state).open_time_ms == (if pad.spec_holds_mask(c.mask) {
                now_ms
            } else {
                old(state).open_time_ms
            })
            &&& final(state).open_time_ms <= now_ms
            &&& {
                let x = pad.left_x as int;
                let y = -(pad.left_y as int);
                let beyond = x * x + y * y > (STICK_DEADZONE * STICK_DEADZONE) as int;
                let debounced = now_ms - final(state).open_time_ms > RADIAL_DEBOUNCE_MS;
                if final(gate).open && beyond && debounced {
                    is_normalized_of(
                        final(state).stick_x as int,
                        final(state).stick_y as int,
                        x,
                        y,
                    )
                } else {
                    final(state).stick_x == old(state).stick_x && final(state).stick_y == old(
                        state,
                    ).stick_y
                }
            }
        },
{
    let c = match combo {
        Some(c) => c,
        None => {
            return ;
        },
    };
    let pressed_a_before = state.prev.holds_mask(PAD_A);
    let pressed_b_before = state.prev.holds_mask(PAD_B);
    let pressed_a_after = pad.holds_mask(PAD_A);
    let pressed_b_after = pad.holds_mask(PAD_B);
    state.prev = pad;
    state.released_confirm = pressed_a_before && !pressed_a_after;
    state.released_cancel = pressed_b_before && !pressed_b_after;
    let pressed_combo = c.is_pressed(&pad);
    if pressed_combo {
        gate.raise();
        state.open_time_ms = now_ms;
    }
    let debounced = now_ms - state.open_time_ms > RADIAL_DEBOUNCE_MS;
    if gate.is_open() {
        let x: i32 = pad.left_x as i32;
        let y: i32 = -(pad.left_y as i32);
        proof {
            assert(0 <= (x as int) * (x as int) <= 0x4000_0000 && 0 <= (y as int) * (y
                as int) <= 0x4000_0000) by (nonlinear_arith)
                requires
                    -32768 <= x <= 32768,
                    -32768 <= y <= 32768,
            ;
        }
        let sq: i64 = (x as i64) * (x as i64) + (y as i64) * (y as i64);
        if sq > (STICK_DEADZONE * STICK_DEADZONE) as i64 && debounced {
            proof {
                assert(x * x + y * y > (STICK_DEADZONE * STICK_DEADZONE) as int);
            }
            let (nx, ny) = normalize_stick(x, y);
            state.stick_x = nx;
            state.stick_y = ny;
        }
    }
}

/// Finishes the radial frame after the selection geometry has
/// produced the hovered entry, if any.  While the input gate is up: a
/// confirm release enqueues the hovered entry's key sequence — and
/// only that — and lowers the input gate; otherwise a cancel release
/// lowers the input gate and enqueues nothing.  Confirm and cancel
/// releases both close the input gate; nothing here ever raises it.
pub fn radial_frame_end(
    state: &RadialState,
    gate: &mut InputGate,
    entries: &Vec<RadialMenu>,
    hover: Option<usize>,
    press_queue: &mut Vec<KeyCode>,
)
    ensures
        final(gate).open == (old(gate).open && !(state.released_confirm
            || state.released_cancel)),
        final(press_queue)@ == (match hover {
            Some(i) => if old(gate).open && state.released_confirm && i < entries@.len() {
                old(press_queue)@ + entries@[i as int].key@
            } else {
                old(press_queue)@
            },
            None => old(press_queue)@,
        }),
{
    if gate.is_open() {
        if state.released_confirm {
            match hover {
                Some(i) => {
                    if i < entries.len() {
                        entries[i].key.keys(press_queue);
                    }
                },
                None => {},
            }
            gate.lower();
        } else if state.released_cancel {
            gate.lower();
        }
    }
}

} // verus!
