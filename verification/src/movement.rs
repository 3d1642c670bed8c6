//! The move controller: the body/head rig state, yaw re-homing, and exact
//! fixed-point translation along the basis the engine reports for the body.
//!
//! Ordering within one tick is part of the contract: the look controller runs
//! first, then `move_prepare` (which re-homes the body yaw exactly once, and
//! only when yaw accumulated), and only then `apply_movement` with a basis
//! read after the re-home.

use vstd::prelude::*;
use crate::fixed::mag;
use crate::fixed::wrap_mdeg;
use crate::fixed::wrap_angle_mdeg;
use crate::fixed::HALF_TURN_MDEG;
use crate::input::intent_x;
use crate::input::intent_y;
use crate::input::intent_z;
use crate::input::movement_intent;
use crate::input::Key;
use crate::input::KeyBindings;
use crate::look::HeadState;
use crate::vec3::scale_coord;
use crate::vec3::scale_to_length;
use crate::vec3::Vec3i;
use crate::vec3::COORD_LIMIT;

verus! {

/// Largest basis coordinate the move controller accepts: twice the tick
/// count of a unit vector, leaving the engine slack for rounding.
pub const BASIS_LIMIT: i64 = 2000;

/// Largest distance one tick may cover, in position ticks (a thousand world
/// units — far beyond any real speed times tick length).
pub const MAX_STEP: i64 = 1_000_000;

/// Largest position coordinate at which a tick of movement is accepted, so
/// the integration can never overflow.
pub const WORLD_LIMIT: i64 = 999_000_000;

/// The controller-facing state of the player rig: the body's translation
/// and wrapped yaw, and the head's accumulated orientation.
#[derive(Clone, Copy, PartialEq, Eq, Structural, Debug)]
pub struct RigState {
    pub position: Vec3i,
    pub body_yaw_mdeg: i64,
    pub head: HeadState,
}

impl RigState {
    /// Angles lie in their canonical intervals.
    pub open spec fn wf(self) -> bool {
        &&& -HALF_TURN_MDEG <= self.body_yaw_mdeg < HALF_TURN_MDEG
        &&& self.head.wf()
    }
}

/// The body's basis vectors as the engine reports them after the latest
/// rotation, in position ticks per unit.
#[derive(Clone, Copy, PartialEq, Eq, Structural, Debug)]
pub struct MoveBasis {
    pub forward: Vec3i,
    pub right: Vec3i,
    pub up: Vec3i,
}

impl MoveBasis {
    /// Every basis coordinate is small.
    pub open spec fn wf(self) -> bool {
        &&& self.forward.bounded(BASIS_LIMIT as int)
        &&& self.right.bounded(BASIS_LIMIT as int)
        &&& self.up.bounded(BASIS_LIMIT as int)
    }
}

/// One coordinate of the un-normalized movement direction: the intent axes
/// weighted into the basis.
pub open spec fn dir_coord(iz: int, ix: int, iy: int, f: int, r: int, u: int) -> int {
    iz * f + ix * r + iy * u
}

/// The distance one tick covers: the speed scaled by the elapsed time, both
/// in fixed point (ticks per second and milliseconds).
pub fn step_length(speed_ticks_per_sec: i64, dt_millis: i64) -> (r: i64)
    requires
        0 <= speed_ticks_per_sec <= 1_000_000,
        0 <= dt_millis <= 1_000_000,
    ensures
        r == (speed_ticks_per_sec * dt_millis) / 1000,
        0 <= r <= speed_ticks_per_sec * dt_millis,
{
    proof {
        assert(0 <= speed_ticks_per_sec as int * (dt_millis as int) <= 1_000_000_000_000int) by (
        nonlinear_arith)
            requires
                0 <= speed_ticks_per_sec <= 1_000_000,
                0 <= dt_millis <= 1_000_000,
        ;
    }
    let product: i64 = speed_ticks_per_sec * dt_millis;
    let q: u64 = (product as u64) / 1000;
    q as i64
}

/// Re-home the body's yaw from the head, exactly as the original tick does
/// it: rotate the body by the head's accumulated yaw, keep only pitch on the
/// head, and do nothing at all when no yaw accumulated.
pub fn rehome_body_yaw(rig: &mut RigState)
    requires
        old(rig).wf(),
    ensures
        final(rig).wf(),
        old(rig).head.yaw_mdeg == 0 ==> *final(rig) == *old(rig),
        old(rig).head.yaw_mdeg != 0 ==> {
            &&& final(rig).body_yaw_mdeg == wrap_mdeg(
                old(rig).body_yaw_mdeg + old(rig).head.yaw_mdeg,
            )
            &&& final(rig).head.yaw_mdeg == 0
            &&& final(rig).head.pitch_mdeg == old(rig).head.pitch_mdeg
            &&& final(rig).position == old(rig).position
        },
{
    if rig.head.yaw_mdeg == 0 {
        return ;
    }
    rig.body_yaw_mdeg = wrap_angle_mdeg(rig.body_yaw_mdeg + rig.head.yaw_mdeg);
    rig.head.yaw_mdeg = 0;
}

/// The first half of a movement tick: resolve the held keys into an intent,
/// skip everything on zero intent, and otherwise re-home the body yaw before
/// any translation. Returns the intent for the caller to apply once it has
/// read the body's post-re-home basis.
pub fn move_prepare(rig: &mut RigState, held: &Vec<Key>, b: &KeyBindings) -> (intent: Vec3i)
    requires
        old(rig).wf(),
    ensures
        final(rig).wf(),
        intent.x == intent_x(held@, *b),
        intent.y == intent_y(held@, *b),
        intent.z == intent_z(held@, *b),
        intent.bounded(1),
        intent.is_zero() ==> *final(rig) == *old(rig),
        !intent.is_zero() && old(rig).head.yaw_mdeg == 0 ==> *final(rig) == *old(rig),
        !intent.is_zero() && old(rig).head.yaw_mdeg != 0 ==> {
            &&& final(rig).body_yaw_mdeg == wrap_mdeg(
                old(rig).body_yaw_mdeg + old(rig).head.yaw_mdeg,
            )
            &&& final(rig).head.yaw_mdeg == 0
            &&& final(rig).head.pitch_mdeg == old(rig).head.pitch_mdeg
            &&& final(rig).position == old(rig).position
        },
{
    let intent = movement_intent(held, b);
    if intent.x == 0 && intent.y == 0 && intent.z == 0 {
        return intent;
    }
    rehome_body_yaw(rig);
    intent
}

/// The x coordinate of the un-normalized movement direction.
pub open spec fn dir_x(intent: Vec3i, basis: MoveBasis) -> int {
    dir_coord(
        intent.z as int,
        intent.x as int,
        intent.y as int,
        basis.forward.x as int,
        basis.right.x as int,
        basis.up.x as int,
    )
}

/// The y coordinate of the un-normalized movement direction.
pub open spec fn dir_y(intent: Vec3i, basis: MoveBasis) -> int {
    dir_coord(
        intent.z as int,
        intent.x as int,
        intent.y as int,
        basis.forward.y as int,
        basis.right.y as int,
        basis.up.y as int,
    )
}

/// The z coordinate of the un-normalized movement direction.
pub open spec fn dir_z(intent: Vec3i, basis: MoveBasis) -> int {
    dir_coord(
        intent.z as int,
        intent.x as int,
        intent.y as int,
        basis.forward.z as int,
        basis.right.z as int,
        basis.up.z as int,
    )
}

/// Whether the combined movement direction vanishes (opposite contributions
/// cancelled, or nothing was held).
pub open spec fn dir_is_zero(intent: Vec3i, basis: MoveBasis) -> bool {
    dir_x(intent, basis) == 0 && dir_y(intent, basis) == 0 && dir_z(intent, basis) == 0
}

/// The integer length of the un-normalized movement direction.
pub open spec fn dir_norm(intent: Vec3i, basis: MoveBasis) -> int {
    crate::fixed::isqrt(
        (dir_x(intent, basis) * dir_x(intent, basis) + dir_y(intent, basis) * dir_y(intent, basis)
            + dir_z(intent, basis) * dir_z(intent, basis)) as nat,
    ) as int
}

/// The un-normalized movement direction, executably.
pub fn intent_direction(intent: &Vec3i, basis: &MoveBasis) -> (dir: Vec3i)
    requires
        intent.bounded(1),
        basis.wf(),
    ensures
        dir.x == dir_coord(
            intent.z as int,
            intent.x as int,
            intent.y as int,
            basis.forward.x as int,
            basis.right.x as int,
            basis.up.x as int,
        ),
        dir.y == dir_coord(
            intent.z as int,
            intent.x as int,
            intent.y as int,
            basis.forward.y as int,
            basis.right.y as int,
            basis.up.y as int,
        ),
        dir.z == dir_coord(
            intent.z as int,
            intent.x as int,
            intent.y as int,
            basis.forward.z as int,
            basis.right.z as int,
            basis.up.z as int,
        ),
        dir.bounded(3 * BASIS_LIMIT as int),
{
    proof {
        lemma_small_weighted_sum(
            intent.z as int,
            intent.x as int,
            intent.y as int,
            basis.forward.x as int,
            basis.right.x as int,
            basis.up.x as int,
        );
        lemma_small_weighted_sum(
            intent.z as int,
            intent.x as int,
            intent.y as int,
            basis.forward.y as int,
            basis.right.y as int,
            basis.up.y as int,
        );
        lemma_small_weighted_sum(
            intent.z as int,
            intent.x as int,
            intent.y as int,
            basis.forward.z as int,
            basis.right.z as int,
            basis.up.z as int,
        );
    }
    let x: i64 = intent.z * basis.forward.x + intent.x * basis.right.x + intent.y * basis.up.x;
    let y: i64 = intent.z * basis.forward.y + intent.x * basis.right.y + intent.y * basis.up.y;
    let z: i64 = intent.z * basis.forward.z + intent.x * basis.right.z + intent.y * basis.up.z;
    Vec3i { x, y, z }
}

/// A weighted sum of three small coordinates with weights of magnitude at
/// most one stays small.
proof fn lemma_small_weighted_sum(iz: int, ix: int, iy: int, f: int, r: int, u: int)
    requires
        mag(iz) <= 1,
        mag(ix) <= 1,
        mag(iy) <= 1,
        mag(f) <= BASIS_LIMIT,
        mag(r) <= BASIS_LIMIT,
        mag(u) <= BASIS_LIMIT,
    ensures
        mag(iz * f) <= BASIS_LIMIT,
        mag(ix * r) <= BASIS_LIMIT,
        mag(iy * u) <= BASIS_LIMIT,
        mag(dir_coord(iz, ix, iy, f, r, u)) <= 3 * BASIS_LIMIT,
{
    assert(-2000 <= iz * f <= 2000 && -2000 <= ix * r <= 2000 && -2000 <= iy * u <= 2000)
        by (nonlinear_arith)
        requires
            -1 <= iz <= 1,
            -1 <= ix <= 1,
            -1 <= iy <= 1,
            -2000 <= f <= 2000,
            -2000 <= r <= 2000,
            -2000 <= u <= 2000,
    ;
}

/// The second half of a movement tick: combine the intent with the basis,
/// skip entirely when the combined direction is exactly zero (the degenerate
/// vector never reaches the rescale), and otherwise advance the position by
/// the direction rescaled to the tick's step length.
pub fn apply_movement(rig: &mut RigState, intent: &Vec3i, basis: &MoveBasis, step_len: i64)
    requires
        old(rig).wf(),
        old(rig).position.bounded(WORLD_LIMIT as int),
        intent.bounded(1),
        basis.wf(),
        0 <= step_len <= MAX_STEP,
    ensures
        final(rig).wf(),
        final(rig).body_yaw_mdeg == old(rig).body_yaw_mdeg,
        final(rig).head == old(rig).head,
        final(rig).position.bounded(COORD_LIMIT as int),
        dir_is_zero(*intent, *basis) ==> final(rig).position == old(rig).position,
        !dir_is_zero(*intent, *basis) ==> {
            &&& final(rig).position.x == old(rig).position.x + scale_coord(
                step_len as int,
                dir_x(*intent, *basis),
                dir_norm(*intent, *basis),
            )
            &&& final(rig).position.y == old(rig).position.y + scale_coord(
                step_len as int,
                dir_y(*intent, *basis),
                dir_norm(*intent, *basis),
            )
            &&& final(rig).position.z == old(rig).position.z + scale_coord(
                step_len as int,
                dir_z(*intent, *basis),
                dir_norm(*intent, *basis),
            )
        },
{
    let dir = intent_direction(intent, basis);
    if dir.x == 0 && dir.y == 0 && dir.z == 0 {
        return ;
    }
    let disp = scale_to_length(&dir, step_len);
    proof {
        assert(dir.norm_sq() == dir_x(*intent, *basis) * dir_x(*intent, *basis) + dir_y(
            *intent,
            *basis,
        ) * dir_y(*intent, *basis) + dir_z(*intent, *basis) * dir_z(*intent, *basis));
        assert(dir.norm() == dir_norm(*intent, *basis));
    }
    rig.position = Vec3i {
        x: rig.position.x + disp.x,
        y: rig.position.y + disp.y,
        z: rig.position.z + disp.z,
    };
}

} // verus!
