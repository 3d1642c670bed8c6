//! Orientation state and the look controller: per-tick mouse deltas become
//! clamped pitch and wrapped yaw, in millidegrees.
//!
//! The head node owns the accumulated angles; the derived node rotation is
//! always `rotation(yaw, pitch, 0)` in yaw-then-pitch order, so the engine-side
//! quaternion is a pure function of this state.

use vstd::prelude::*;
use crate::fixed::clamp_i;
use crate::fixed::clamp_i64;
use crate::fixed::div_floor_i64;
use crate::fixed::mag;
use crate::fixed::wrap_mdeg;
use crate::fixed::wrap_angle_mdeg;
use crate::fixed::HALF_TURN_MDEG;
use crate::fixed::PITCH_LIMIT_MDEG;

verus! {

/// Largest raw delta a single look tick accepts, in device units.
pub const DELTA_LIMIT: i64 = 1_000_000_000;

/// Largest sensitivity value, in millidegrees per unit or per window.
pub const SENS_LIMIT: i64 = 1_000_000;

/// Largest viewport dimension, in pixels.
pub const VIEWPORT_LIMIT: i64 = 100_000;

/// Largest number of mouse-motion events one tick will sum.
pub const MAX_MOTION_EVENTS: usize = 1000;

/// Largest magnitude of one mouse-motion event, in device units.
pub const MOTION_EVENT_LIMIT: i64 = 1_000_000;

/// Accumulated orientation of the look-controlled head node.
#[derive(Clone, Copy, PartialEq, Eq, Structural, Debug)]
pub struct HeadState {
    /// Yaw in millidegrees, wrapped into [-HALF_TURN_MDEG, HALF_TURN_MDEG).
    pub yaw_mdeg: i64,
    /// Pitch in millidegrees, clamped into [-PITCH_LIMIT_MDEG, PITCH_LIMIT_MDEG].
    pub pitch_mdeg: i64,
}

impl HeadState {
    /// Angles lie in their canonical intervals.
    pub open spec fn wf(self) -> bool {
        &&& -HALF_TURN_MDEG <= self.yaw_mdeg < HALF_TURN_MDEG
        &&& -PITCH_LIMIT_MDEG <= self.pitch_mdeg <= PITCH_LIMIT_MDEG
    }

    /// The level orientation a freshly spawned head starts from.
    pub fn level() -> (h: HeadState)
        ensures
            h.yaw_mdeg == 0,
            h.pitch_mdeg == 0,
            h.wf(),
    {
        HeadState { yaw_mdeg: 0, pitch_mdeg: 0 }
    }
}

/// How raw deltas convert to millidegrees: either a fixed amount per device
/// unit, or a full-window amount divided by the viewport dimension.
#[derive(Clone, Copy, PartialEq, Eq, Structural, Debug)]
pub enum Sensitivity {
    PerUnit { mdeg_per_unit: i64 },
    PerWindowFraction { mdeg_per_window: i64, width_px: i64, height_px: i64 },
}

impl Sensitivity {
    /// Positive scale, and positive viewport dimensions where they are used.
    pub open spec fn wf(self) -> bool {
        match self {
            Sensitivity::PerUnit { mdeg_per_unit } => 0 < mdeg_per_unit <= SENS_LIMIT,
            Sensitivity::PerWindowFraction { mdeg_per_window, width_px, height_px } => {
                &&& 0 < mdeg_per_window <= SENS_LIMIT
                &&& 0 < width_px <= VIEWPORT_LIMIT
                &&& 0 < height_px <= VIEWPORT_LIMIT
            },
        }
    }

    /// Millidegrees of yaw a horizontal delta is worth.
    pub open spec fn yaw_mdeg_of(self, dx: int) -> int {
        match self {
            Sensitivity::PerUnit { mdeg_per_unit } => dx * mdeg_per_unit,
            Sensitivity::PerWindowFraction { mdeg_per_window, width_px, .. } => (dx
                * mdeg_per_window) / width_px as int,
        }
    }

    /// Millidegrees of pitch a vertical delta is worth.
    pub open spec fn pitch_mdeg_of(self, dy: int) -> int {
        match self {
            Sensitivity::PerUnit { mdeg_per_unit } => dy * mdeg_per_unit,
            Sensitivity::PerWindowFraction { mdeg_per_window, height_px, .. } => (dy
                * mdeg_per_window) / height_px as int,
        }
    }
}

/// Yaw after one look tick: the delta is subtracted and the angle wrapped.
pub open spec fn look_yaw_step(yaw: int, dx: int, cfg: Sensitivity) -> int {
    wrap_mdeg(yaw - cfg.yaw_mdeg_of(dx))
}

/// Pitch after one look tick: the delta is subtracted and the angle clamped.
pub open spec fn look_pitch_step(pitch: int, dy: int, cfg: Sensitivity) -> int {
    clamp_i(pitch - cfg.pitch_mdeg_of(dy), -PITCH_LIMIT_MDEG as int, PITCH_LIMIT_MDEG as int)
}

/// One look tick on a (yaw, pitch) pair, including the required zero-delta
/// short-circuit: a tick without motion changes nothing at all.
pub open spec fn look_step(s: (int, int), dx: int, dy: int, cfg: Sensitivity) -> (int, int) {
    if dx == 0 && dy == 0 {
        s
    } else {
        (look_yaw_step(s.0, dx, cfg), look_pitch_step(s.1, dy, cfg))
    }
}

/// A whole run of look ticks, first delta first.
pub open spec fn look_run(s: (int, int), deltas: Seq<(int, int)>, cfg: Sensitivity) -> (int, int)
    decreases deltas.len(),
{
    if deltas.len() == 0 {
        s
    } else {
        look_run(look_step(s, deltas[0].0, deltas[0].1, cfg), deltas.drop_first(), cfg)
    }
}

/// Pitch clamp law: over any sequence of look deltas, pitch never leaves
/// [-PITCH_LIMIT_MDEG, PITCH_LIMIT_MDEG], and yaw never leaves its wrapped
/// interval, whatever the magnitude or sign of the inputs.
pub proof fn lemma_look_run_stays_in_range(s: (int, int), deltas: Seq<(int, int)>, cfg: Sensitivity)
    requires
        -HALF_TURN_MDEG <= s.0 < HALF_TURN_MDEG,
        -PITCH_LIMIT_MDEG <= s.1 <= PITCH_LIMIT_MDEG,
    ensures
        -HALF_TURN_MDEG <= look_run(s, deltas, cfg).0 < HALF_TURN_MDEG,
        -PITCH_LIMIT_MDEG <= look_run(s, deltas, cfg).1 <= PITCH_LIMIT_MDEG,
    decreases deltas.len(),
{
    if deltas.len() > 0 {
        let s1 = look_step(s, deltas[0].0, deltas[0].1, cfg);
        if !(deltas[0].0 == 0 && deltas[0].1 == 0) {
            crate::fixed::lemma_wrap_mdeg_class(s.0 - cfg.yaw_mdeg_of(deltas[0].0));
        }
        lemma_look_run_stays_in_range(s1, deltas.drop_first(), cfg);
    }
}

/// Zero-input idempotence law: ticks without motion leave yaw and pitch —
/// and so the rotation derived from them — exactly as they were, however
/// many of them run.
pub proof fn lemma_zero_input_run_is_identity(
    s: (int, int),
    deltas: Seq<(int, int)>,
    cfg: Sensitivity,
)
    requires
        forall|j: int| 0 <= j < deltas.len() ==> #[trigger] deltas[j] == (0int, 0int),
    ensures
        look_run(s, deltas, cfg) == s,
    decreases deltas.len(),
{
    if deltas.len() > 0 {
        assert(deltas[0] == (0int, 0int));
        assert(forall|j: int|
            0 <= j < deltas.drop_first().len() ==> #[trigger] deltas.drop_first()[j] == (
            0int,
            0int,
            ));
        lemma_zero_input_run_is_identity(s, deltas.drop_first(), cfg);
    }
}

/// Millidegrees for one axis of one tick, executably.
fn delta_mdeg(d: i64, scale: i64, viewport: Option<i64>) -> (r: i64)
    requires
        mag(d as int) <= DELTA_LIMIT,
        0 < scale <= SENS_LIMIT,
        viewport is Some ==> 0 < viewport.unwrap() <= VIEWPORT_LIMIT,
    ensures
        r == match viewport {
            Option::None => d as int * scale,
            Option::Some(w) => (d as int * scale) / w as int,
        },
        mag(r as int) <= 0x1000_0000_0000_0000,
{
    proof {
        assert(-1_000_000_000_000_000 <= d as int * scale as int <= 1_000_000_000_000_000)
            by (nonlinear_arith)
            requires
                -1_000_000_000 <= d as int <= 1_000_000_000,
                0 < scale <= 1_000_000,
        ;
    }
    let scaled: i64 = d * scale;
    match viewport {
        Option::None => scaled,
        Option::Some(w) => {
            let q: i64 = div_floor_i64(scaled, w);
            proof {
                vstd::arithmetic::div_mod::lemma_fundamental_div_mod(scaled as int, w as int);
                vstd::arithmetic::div_mod::lemma_mod_bound(scaled as int, w as int);
                assert(mag(q as int) <= mag(scaled as int) + 1) by (nonlinear_arith)
                    requires
                        scaled == q * w + (scaled as int % (w as int)),
                        0 <= (scaled as int % (w as int)) < w,
                        1 <= w,
                ;
            }
            q
        },
    }
}

/// One tick of the look controller: subtract the scaled delta from yaw and
/// pitch, wrap the yaw, clamp the pitch, and do nothing whatsoever when the
/// tick saw no motion.
pub fn look_tick(head: &mut HeadState, dx: i64, dy: i64, cfg: &Sensitivity)
    requires
        old(head).wf(),
        cfg.wf(),
        mag(dx as int) <= DELTA_LIMIT,
        mag(dy as int) <= DELTA_LIMIT,
    ensures
        final(head).wf(),
        dx == 0 && dy == 0 ==> *final(head) == *old(head),
        !(dx == 0 && dy == 0) ==> {
            &&& final(head).yaw_mdeg == look_yaw_step(old(head).yaw_mdeg as int, dx as int, *cfg)
            &&& final(head).pitch_mdeg == look_pitch_step(
                old(head).pitch_mdeg as int,
                dy as int,
                *cfg,
            )
        },
        -PITCH_LIMIT_MDEG <= final(head).pitch_mdeg <= PITCH_LIMIT_MDEG,
{
    if dx == 0 && dy == 0 {
        return ;
    }
    let (scale, vw, vh): (i64, Option<i64>, Option<i64>) = match *cfg {
        Sensitivity::PerUnit { mdeg_per_unit } => (mdeg_per_unit, Option::None, Option::None),
        Sensitivity::PerWindowFraction { mdeg_per_window, width_px, height_px } => (
            mdeg_per_window,
            Option::Some(width_px),
            Option::Some(height_px),
        ),
    };
    let ydel: i64 = delta_mdeg(dx, scale, vw);
    let pdel: i64 = delta_mdeg(dy, scale, vh);
    head.yaw_mdeg = wrap_angle_mdeg(head.yaw_mdeg - ydel);
    head.pitch_mdeg = clamp_i64(head.pitch_mdeg - pdel, -PITCH_LIMIT_MDEG, PITCH_LIMIT_MDEG);
}

/// The whole look pass of one tick, as the schedule runs it: drain and sum
/// the tick's mouse-motion events, then apply them to the head — and leave
/// the head untouched when the tick saw no motion at all.
pub fn player_look_system(head: &mut HeadState, events: &Vec<(i64, i64)>, cfg: &Sensitivity)
    requires
        old(head).wf(),
        cfg.wf(),
        events@.len() <= MAX_MOTION_EVENTS,
        forall|j: int|
            0 <= j < events@.len() ==> mag(#[trigger] events@[j].0 as int) <= MOTION_EVENT_LIMIT
                && mag(events@[j].1 as int) <= MOTION_EVENT_LIMIT,
    ensures
        final(head).wf(),
        ({
            let dx = sum_dx_to(events@, events@.len() as int);
            let dy = sum_dy_to(events@, events@.len() as int);
            if dx == 0 && dy == 0 {
                *final(head) == *old(head)
            } else {
                &&& final(head).yaw_mdeg == look_yaw_step(old(head).yaw_mdeg as int, dx, *cfg)
                &&& final(head).pitch_mdeg == look_pitch_step(old(head).pitch_mdeg as int, dy, *cfg)
            }
        }),
{
    let (dx, dy): (i64, i64) = sum_mouse_deltas(events);
    look_tick(head, dx, dy, cfg);
}

/// How far into the sequence's first `i` events the horizontal deltas sum.
pub open spec fn sum_dx_to(s: Seq<(i64, i64)>, i: int) -> int
    decreases i,
{
    if i <= 0 {
        0
    } else {
        sum_dx_to(s, i - 1) + s[i - 1].0
    }
}

/// How far into the sequence's first `i` events the vertical deltas sum.
pub open spec fn sum_dy_to(s: Seq<(i64, i64)>, i: int) -> int
    decreases i,
{
    if i <= 0 {
        0
    } else {
        sum_dy_to(s, i - 1) + s[i - 1].1
    }
}

/// The input sampler's per-tick drain: all pending mouse-motion events are
/// consumed once and summed, so no motion is lost or double counted.
pub fn sum_mouse_deltas(events: &Vec<(i64, i64)>) -> (t: (i64, i64))
    requires
        events@.len() <= MAX_MOTION_EVENTS,
        forall|j: int|
            0 <= j < events@.len() ==> mag(#[trigger] events@[j].0 as int) <= MOTION_EVENT_LIMIT
                && mag(events@[j].1 as int) <= MOTION_EVENT_LIMIT,
    ensures
        t.0 == sum_dx_to(events@, events@.len() as int),
        t.1 == sum_dy_to(events@, events@.len() as int),
        mag(t.0 as int) <= DELTA_LIMIT,
        mag(t.1 as int) <= DELTA_LIMIT,
{
    let mut ax: i64 = 0;
    let mut ay: i64 = 0;
    let mut i: usize = 0;
    while i < events.len()
        invariant
            i <= events@.len() <= MAX_MOTION_EVENTS,
            forall|j: int|
                0 <= j < events@.len() ==> mag(#[trigger] events@[j].0 as int)
                    <= MOTION_EVENT_LIMIT && mag(events@[j].1 as int) <= MOTION_EVENT_LIMIT,
            ax == sum_dx_to(events@, i as int),
            ay == sum_dy_to(events@, i as int),
            mag(ax as int) <= i * MOTION_EVENT_LIMIT,
            mag(ay as int) <= i * MOTION_EVENT_LIMIT,
        decreases events@.len() - i,
    {
        let (dx, dy): (i64, i64) = events[i];
        ax = ax + dx;
        ay = ay + dy;
        i = i + 1;
    }
    (ax, ay)
}

} // verus!
