//! The transform hierarchy: a small tree of rigid poses, each node owned by
//! an earlier-created parent, with world pose the composition of ancestor
//! poses (translate-then-rotate: a child offset is expressed in the parent's
//! rotated frame).
//!
//! Rotations are quaternions in ticks of 1/QSCALE. Local rotations are
//! near-unit; composed world rotations keep the exact fixed-point product,
//! which the engine normalizes when it consumes them.

use vstd::prelude::*;
use crate::fixed::div_floor_i128;
use crate::fixed::mag;
use crate::vec3::Vec3i;

verus! {

/// Quaternion ticks per unit: the scale of a unit quaternion component.
pub const QSCALE: i64 = 1000;

/// The divisor of one vector rotation: the square of the quaternion scale.
pub const QSCALE_SQ: i64 = 1_000_000;

/// Largest magnitude of a local pose translation coordinate, in position
/// ticks (ten thousand world units).
pub const LOCAL_LIMIT: i64 = 10_000_000;

/// Largest number of nodes a tree holds; enough for the player rig and
/// small enough that every composed pose stays far inside 64 bits.
pub const MAX_NODES: usize = 8;

/// A rotation as a fixed-point quaternion.
#[derive(Clone, Copy, PartialEq, Eq, Structural, Debug)]
pub struct Quat4i {
    pub x: i64,
    pub y: i64,
    pub z: i64,
    pub w: i64,
}

impl Quat4i {
    /// Every component has magnitude at most `b`.
    pub open spec fn bounded(self, b: int) -> bool {
        &&& mag(self.x as int) <= b
        &&& mag(self.y as int) <= b
        &&& mag(self.z as int) <= b
        &&& mag(self.w as int) <= b
    }

    /// The rotation that leaves everything in place.
    pub fn identity() -> (q: Quat4i)
        ensures
            q.x == 0 && q.y == 0 && q.z == 0 && q.w == QSCALE,
            q.bounded(QSCALE as int),
    {
        Quat4i { x: 0, y: 0, z: 0, w: QSCALE }
    }
}

/// A rigid pose: a translation and a rotation, both in the parent's space.
#[derive(Clone, Copy, PartialEq, Eq, Structural, Debug)]
pub struct Pose {
    pub translation: Vec3i,
    pub rotation: Quat4i,
}

impl Pose {
    /// What a local pose must satisfy: a bounded translation and a
    /// near-unit rotation.
    pub open spec fn wf_local(self) -> bool {
        &&& self.translation.bounded(LOCAL_LIMIT as int)
        &&& self.rotation.bounded(QSCALE as int)
    }

    /// The pose that moves nothing.
    pub fn at_origin() -> (p: Pose)
        ensures
            p.translation.is_zero(),
            p.rotation == (Quat4i { x: 0, y: 0, z: 0, w: QSCALE }),
            p.wf_local(),
    {
        Pose { translation: Vec3i::zero(), rotation: Quat4i::identity() }
    }
}

/// A translation over the mathematical integers.
pub struct Vec3View {
    pub x: int,
    pub y: int,
    pub z: int,
}

/// A quaternion over the mathematical integers.
pub struct QuatView {
    pub x: int,
    pub y: int,
    pub z: int,
    pub w: int,
}

/// A pose over the mathematical integers.
pub struct PoseView {
    pub t: Vec3View,
    pub r: QuatView,
}

/// The mathematical value of a translation.
pub open spec fn vec_view(v: Vec3i) -> Vec3View {
    Vec3View { x: v.x as int, y: v.y as int, z: v.z as int }
}

/// The mathematical value of a quaternion.
pub open spec fn quat_view(q: Quat4i) -> QuatView {
    QuatView { x: q.x as int, y: q.y as int, z: q.z as int, w: q.w as int }
}

/// The mathematical value of a pose.
pub open spec fn pose_view(p: Pose) -> PoseView {
    PoseView { t: vec_view(p.translation), r: quat_view(p.rotation) }
}

/// Twice the cross product of the quaternion's vector part with `v`: the
/// intermediate of the standard quaternion rotation formula.
pub open spec fn rot_tx(q: QuatView, v: Vec3View) -> int {
    2 * (q.y * v.z - q.z * v.y)
}

/// Twice the cross product of the quaternion's vector part with `v`.
pub open spec fn rot_ty(q: QuatView, v: Vec3View) -> int {
    2 * (q.z * v.x - q.x * v.z)
}

/// Twice the cross product of the quaternion's vector part with `v`.
pub open spec fn rot_tz(q: QuatView, v: Vec3View) -> int {
    2 * (q.x * v.y - q.y * v.x)
}

/// The x coordinate of `v` rotated by `q`: the fixed-point form of
/// `v + w t + q x t` with `t = 2 (q x v)`, the scale divided out at the end.
pub open spec fn rot_x(q: QuatView, v: Vec3View) -> int {
    v.x + (q.w * rot_tx(q, v) + (q.y * rot_tz(q, v) - q.z * rot_ty(q, v))) / (QSCALE_SQ as int)
}

/// The y coordinate of `v` rotated by `q`.
pub open spec fn rot_y(q: QuatView, v: Vec3View) -> int {
    v.y + (q.w * rot_ty(q, v) + (q.z * rot_tx(q, v) - q.x * rot_tz(q, v))) / (QSCALE_SQ as int)
}

/// The z coordinate of `v` rotated by `q`.
pub open spec fn rot_z(q: QuatView, v: Vec3View) -> int {
    v.z + (q.w * rot_tz(q, v) + (q.x * rot_ty(q, v) - q.y * rot_tx(q, v))) / (QSCALE_SQ as int)
}

/// The w component of the fixed-point quaternion product, parent first.
pub open spec fn qm_w(p: QuatView, c: QuatView) -> int {
    (p.w * c.w - p.x * c.x - p.y * c.y - p.z * c.z) / (QSCALE as int)
}

/// The x component of the fixed-point quaternion product.
pub open spec fn qm_x(p: QuatView, c: QuatView) -> int {
    (p.w * c.x + p.x * c.w + p.y * c.z - p.z * c.y) / (QSCALE as int)
}

/// The y component of the fixed-point quaternion product.
pub open spec fn qm_y(p: QuatView, c: QuatView) -> int {
    (p.w * c.y - p.x * c.z + p.y * c.w + p.z * c.x) / (QSCALE as int)
}

/// The z component of the fixed-point quaternion product.
pub open spec fn qm_z(p: QuatView, c: QuatView) -> int {
    (p.w * c.z + p.x * c.y - p.y * c.x + p.z * c.w) / (QSCALE as int)
}

/// Pose composition: the child's translation is rotated into the parent's
/// frame and offset by the parent's translation; the rotations multiply.
pub open spec fn compose_spec(p: PoseView, c: PoseView) -> PoseView {
    PoseView {
        t: Vec3View {
            x: p.t.x + rot_x(p.r, c.t),
            y: p.t.y + rot_y(p.r, c.t),
            z: p.t.z + rot_z(p.r, c.t),
        },
        r: QuatView {
            x: qm_x(p.r, c.r),
            y: qm_y(p.r, c.r),
            z: qm_z(p.r, c.r),
            w: qm_w(p.r, c.r),
        },
    }
}

/// A bound for the components of a world rotation at chain depth `k`: each
/// fixed-point quaternion product can grow the component bound fourfold plus
/// a rounding tick.
pub open spec fn rot_chain_bound(k: nat) -> int
    decreases k,
{
    if k == 0 {
        QSCALE as int
    } else {
        4 * rot_chain_bound((k - 1) as nat) + 1
    }
}

/// A bound for the coordinates of a world translation at chain depth `k`:
/// each composition adds at most one rotated local offset.
pub open spec fn pos_chain_bound(k: nat) -> int
    decreases k,
{
    if k == 0 {
        LOCAL_LIMIT as int
    } else {
        pos_chain_bound((k - 1) as nat) + 33_000_000_000_000_000
    }
}

/// The chain bounds start positive and grow with the depth.
pub proof fn lemma_chain_bounds_mono(j: nat, k: nat)
    requires
        j <= k,
    ensures
        QSCALE <= rot_chain_bound(j) <= rot_chain_bound(k),
        LOCAL_LIMIT <= pos_chain_bound(j) <= pos_chain_bound(k),
    decreases k,
{
    if k > 0 {
        if j == k {
            lemma_chain_bounds_mono(0, (k - 1) as nat);
        } else {
            lemma_chain_bounds_mono(j, (k - 1) as nat);
        }
    }
}

/// At every depth a tree can reach, the chain bounds stay inside the limits
/// the executable composition accepts.
pub proof fn lemma_chain_bounds_concrete(k: nat)
    requires
        k <= 7,
    ensures
        rot_chain_bound(k) <= 16_389_461,
        pos_chain_bound(k) <= 241_000_000_000_000_000,
        k < 7 ==> rot_chain_bound(k) <= 4_097_365,
{
    reveal_with_fuel(rot_chain_bound, 9);
    reveal_with_fuel(pos_chain_bound, 9);
    assert(rot_chain_bound(0) == 1000);
    assert(rot_chain_bound(1) == 4001);
    assert(rot_chain_bound(2) == 16005);
    assert(rot_chain_bound(3) == 64021);
    assert(rot_chain_bound(4) == 256085);
    assert(rot_chain_bound(5) == 1024341);
    assert(rot_chain_bound(6) == 4097365);
    assert(rot_chain_bound(7) == 16389461);
    assert(pos_chain_bound(0) == 10_000_000);
    assert(pos_chain_bound(7) == 231_000_000_010_000_000);
    if k == 0 {
    } else if k == 1 {
    } else if k == 2 {
    } else if k == 3 {
    } else if k == 4 {
    } else if k == 5 {
    } else if k == 6 {
    } else {
        assert(k == 7);
    }
}

/// Bounded inputs give a bounded rotated vector: the fixed-point rotation
/// adds at most the scaled triple product to each coordinate.
pub proof fn lemma_rot_coord_bounds(q: QuatView, v: Vec3View)
    requires
        mag(q.x) <= 4_100_000,
        mag(q.y) <= 4_100_000,
        mag(q.z) <= 4_100_000,
        mag(q.w) <= 4_100_000,
        mag(v.x) <= LOCAL_LIMIT,
        mag(v.y) <= LOCAL_LIMIT,
        mag(v.z) <= LOCAL_LIMIT,
    ensures
        mag(rot_x(q, v)) <= 33_000_000_000_000_000,
        mag(rot_y(q, v)) <= 33_000_000_000_000_000,
        mag(rot_z(q, v)) <= 33_000_000_000_000_000,
        mag(rot_tx(q, v)) <= 164_000_000_000_000,
        mag(rot_ty(q, v)) <= 164_000_000_000_000,
        mag(rot_tz(q, v)) <= 164_000_000_000_000,
        mag(q.w * rot_tx(q, v) + (q.y * rot_tz(q, v) - q.z * rot_ty(q, v)))
            <= 2_100_000_000_000_000_000_000,
        mag(q.w * rot_ty(q, v) + (q.z * rot_tx(q, v) - q.x * rot_tz(q, v)))
            <= 2_100_000_000_000_000_000_000,
        mag(q.w * rot_tz(q, v) + (q.x * rot_ty(q, v) - q.y * rot_tx(q, v)))
            <= 2_100_000_000_000_000_000_000,
{
    assert(-164_000_000_000_000 <= 2 * (q.y * v.z - q.z * v.y) <= 164_000_000_000_000
        && -164_000_000_000_000 <= 2 * (q.z * v.x - q.x * v.z) <= 164_000_000_000_000
        && -164_000_000_000_000 <= 2 * (q.x * v.y - q.y * v.x) <= 164_000_000_000_000) by (
    nonlinear_arith)
        requires
            -4_100_000 <= q.x <= 4_100_000,
            -4_100_000 <= q.y <= 4_100_000,
            -4_100_000 <= q.z <= 4_100_000,
            -10_000_000 <= v.x <= 10_000_000,
            -10_000_000 <= v.y <= 10_000_000,
            -10_000_000 <= v.z <= 10_000_000,
    ;
    lemma_rot_inner_bound(q.w, q.y, q.z, rot_tx(q, v), rot_tz(q, v), rot_ty(q, v));
    lemma_rot_inner_bound(q.w, q.z, q.x, rot_ty(q, v), rot_tx(q, v), rot_tz(q, v));
    lemma_rot_inner_bound(q.w, q.x, q.y, rot_tz(q, v), rot_ty(q, v), rot_tx(q, v));
    lemma_div_magnitude(q.w * rot_tx(q, v) + (q.y * rot_tz(q, v) - q.z * rot_ty(q, v)));
    lemma_div_magnitude(q.w * rot_ty(q, v) + (q.z * rot_tx(q, v) - q.x * rot_tz(q, v)));
    lemma_div_magnitude(q.w * rot_tz(q, v) + (q.x * rot_ty(q, v) - q.y * rot_tx(q, v)));
}

/// The inner sum of the rotation formula is bounded by its factors.
proof fn lemma_rot_inner_bound(w: int, a: int, b: int, t1: int, t2: int, t3: int)
    requires
        mag(w) <= 4_100_000,
        mag(a) <= 4_100_000,
        mag(b) <= 4_100_000,
        mag(t1) <= 164_000_000_000_000,
        mag(t2) <= 164_000_000_000_000,
        mag(t3) <= 164_000_000_000_000,
    ensures
        mag(w * t1 + (a * t2 - b * t3)) <= 2_100_000_000_000_000_000_000,
{
    assert(-2_100_000_000_000_000_000_000 <= w * t1 + (a * t2 - b * t3)
        <= 2_100_000_000_000_000_000_000int) by (nonlinear_arith)
        requires
            -4_100_000 <= w <= 4_100_000,
            -4_100_000 <= a <= 4_100_000,
            -4_100_000 <= b <= 4_100_000,
            -164_000_000_000_000 <= t1 <= 164_000_000_000_000,
            -164_000_000_000_000 <= t2 <= 164_000_000_000_000,
            -164_000_000_000_000 <= t3 <= 164_000_000_000_000,
    ;
}

/// A bounded value divided by the rotation scale keeps a proportional bound.
proof fn lemma_div_magnitude(a: int)
    requires
        mag(a) <= 2_100_000_000_000_000_000_000,
    ensures
        mag(a / 1_000_000) <= 2_100_000_000_000_001,
{
    vstd::arithmetic::div_mod::lemma_fundamental_div_mod(a, 1_000_000);
    vstd::arithmetic::div_mod::lemma_mod_bound(a, 1_000_000);
}

/// Bounded factors give a bounded fixed-point quaternion product: the
/// component bound grows fourfold plus a rounding tick.
pub proof fn lemma_qm_bounds(p: QuatView, c: QuatView, pb: int)
    requires
        0 < pb <= 16_389_461,
        mag(p.x) <= pb,
        mag(p.y) <= pb,
        mag(p.z) <= pb,
        mag(p.w) <= pb,
        mag(c.x) <= QSCALE,
        mag(c.y) <= QSCALE,
        mag(c.z) <= QSCALE,
        mag(c.w) <= QSCALE,
    ensures
        mag(qm_x(p, c)) <= 4 * pb + 1,
        mag(qm_y(p, c)) <= 4 * pb + 1,
        mag(qm_z(p, c)) <= 4 * pb + 1,
        mag(qm_w(p, c)) <= 4 * pb + 1,
        mag(p.w * c.w - p.x * c.x - p.y * c.y - p.z * c.z) <= 4 * pb * 1000,
        mag(p.w * c.x + p.x * c.w + p.y * c.z - p.z * c.y) <= 4 * pb * 1000,
        mag(p.w * c.y - p.x * c.z + p.y * c.w + p.z * c.x) <= 4 * pb * 1000,
        mag(p.w * c.z + p.x * c.y - p.y * c.x + p.z * c.w) <= 4 * pb * 1000,
{
    lemma_bilinear_bound(p.w, c.w, p.x, -c.x, p.y, -c.y, p.z, -c.z, pb);
    assert(p.w * c.w - p.x * c.x - p.y * c.y - p.z * c.z == p.w * c.w + p.x * (-c.x) + p.y * (-c.y)
        + p.z * (-c.z)) by (nonlinear_arith);
    lemma_bilinear_bound(p.w, c.x, p.x, c.w, p.y, c.z, p.z, -c.y, pb);
    assert(p.w * c.x + p.x * c.w + p.y * c.z - p.z * c.y == p.w * c.x + p.x * c.w + p.y * c.z + p.z
        * (-c.y)) by (nonlinear_arith);
    lemma_bilinear_bound(p.w, c.y, p.x, -c.z, p.y, c.w, p.z, c.x, pb);
    assert(p.w * c.y - p.x * c.z + p.y * c.w + p.z * c.x == p.w * c.y + p.x * (-c.z) + p.y * c.w
        + p.z * c.x) by (nonlinear_arith);
    lemma_bilinear_bound(p.w, c.z, p.x, c.y, p.y, -c.x, p.z, c.w, pb);
    assert(p.w * c.z + p.x * c.y - p.y * c.x + p.z * c.w == p.w * c.z + p.x * c.y + p.y * (-c.x)
        + p.z * c.w) by (nonlinear_arith);
    lemma_qm_div_bound(p.w * c.w - p.x * c.x - p.y * c.y - p.z * c.z, pb);
    lemma_qm_div_bound(p.w * c.x + p.x * c.w + p.y * c.z - p.z * c.y, pb);
    lemma_qm_div_bound(p.w * c.y - p.x * c.z + p.y * c.w + p.z * c.x, pb);
    lemma_qm_div_bound(p.w * c.z + p.x * c.y - p.y * c.x + p.z * c.w, pb);
}

/// A sum of four products with one small factor each stays within four
/// times the large bound times the small bound.
proof fn lemma_bilinear_bound(
    a1: int,
    b1: int,
    a2: int,
    b2: int,
    a3: int,
    b3: int,
    a4: int,
    b4: int,
    pb: int,
)
    requires
        0 < pb,
        mag(a1) <= pb,
        mag(a2) <= pb,
        mag(a3) <= pb,
        mag(a4) <= pb,
        mag(b1) <= 1000,
        mag(b2) <= 1000,
        mag(b3) <= 1000,
        mag(b4) <= 1000,
    ensures
        mag(a1 * b1 + a2 * b2 + a3 * b3 + a4 * b4) <= 4 * pb * 1000,
{
    assert(-(pb * 1000) <= a1 * b1 <= pb * 1000 && -(pb * 1000) <= a2 * b2 <= pb * 1000 && -(pb
        * 1000) <= a3 * b3 <= pb * 1000 && -(pb * 1000) <= a4 * b4 <= pb * 1000) by (
    nonlinear_arith)
        requires
            0 < pb,
            -pb <= a1 <= pb,
            -pb <= a2 <= pb,
            -pb <= a3 <= pb,
            -pb <= a4 <= pb,
            -1000 <= b1 <= 1000,
            -1000 <= b2 <= 1000,
            -1000 <= b3 <= 1000,
            -1000 <= b4 <= 1000,
    ;
    assert(4 * pb * 1000 == pb * 1000 + pb * 1000 + pb * 1000 + pb * 1000) by (nonlinear_arith);
}

/// A value bounded by `4 pb QSCALE`, divided by the scale, is bounded by
/// `4 pb` plus a rounding tick.
proof fn lemma_qm_div_bound(a: int, pb: int)
    requires
        0 < pb,
        mag(a) <= 4 * pb * 1000,
    ensures
        mag(a / 1000) <= 4 * pb + 1,
{
    vstd::arithmetic::div_mod::lemma_fundamental_div_mod(a, 1000);
    vstd::arithmetic::div_mod::lemma_mod_bound(a, 1000);
    let q = a / 1000;
    assert(q * 1000 == a - a % 1000);
    assert(-(4 * pb + 1) <= q <= 4 * pb + 1) by (nonlinear_arith)
        requires
            q * 1000 == a - a % 1000,
            0 <= a % 1000 < 1000,
            -(4 * pb * 1000) <= a <= 4 * pb * 1000,
            0 < pb,
    ;
}

/// A world translation coordinate never exceeds this, at any depth a tree
/// can reach.
pub const WORLD_POS_BOUND: i64 = 241_000_000_000_000_000;

/// The largest rotation a pose may carry into one more composition: the
/// rotation chain bound one step below the deepest tree.
pub const COMPOSE_ROT_BOUND: i64 = 4_100_000;

/// A world rotation component never exceeds this, at any depth a tree can
/// reach.
pub const WORLD_ROT_BOUND: i64 = 16_389_461;

/// A local translation rotated by a (possibly composed) rotation,
/// executably: exactly the fixed-point rotation formula.
fn rotate_vec(q: &Quat4i, v: &Vec3i) -> (r: Vec3i)
    requires
        q.bounded(COMPOSE_ROT_BOUND as int),
        v.bounded(LOCAL_LIMIT as int),
    ensures
        r.x == rot_x(quat_view(*q), vec_view(*v)),
        r.y == rot_y(quat_view(*q), vec_view(*v)),
        r.z == rot_z(quat_view(*q), vec_view(*v)),
        r.bounded(33_000_000_000_000_000),
{
    proof {
        lemma_rot_coord_bounds(quat_view(*q), vec_view(*v));
        assert(-41_000_000_000_000 <= q.y as int * (v.z as int) <= 41_000_000_000_000
            && -41_000_000_000_000 <= q.z as int * (v.y as int) <= 41_000_000_000_000
            && -41_000_000_000_000 <= q.z as int * (v.x as int) <= 41_000_000_000_000
            && -41_000_000_000_000 <= q.x as int * (v.z as int) <= 41_000_000_000_000
            && -41_000_000_000_000 <= q.x as int * (v.y as int) <= 41_000_000_000_000
            && -41_000_000_000_000 <= q.y as int * (v.x as int) <= 41_000_000_000_000) by (
        nonlinear_arith)
            requires
                -4_100_000 <= q.x as int <= 4_100_000,
                -4_100_000 <= q.y as int <= 4_100_000,
                -4_100_000 <= q.z as int <= 4_100_000,
                -10_000_000 <= v.x as int <= 10_000_000,
                -10_000_000 <= v.y as int <= 10_000_000,
                -10_000_000 <= v.z as int <= 10_000_000,
        ;
    }
    let qx: i128 = q.x as i128;
    let qy: i128 = q.y as i128;
    let qz: i128 = q.z as i128;
    let qw: i128 = q.w as i128;
    let vx: i128 = v.x as i128;
    let vy: i128 = v.y as i128;
    let vz: i128 = v.z as i128;
    let tx: i128 = 2 * (qy * vz - qz * vy);
    let ty: i128 = 2 * (qz * vx - qx * vz);
    let tz: i128 = 2 * (qx * vy - qy * vx);
    proof {
        assert(-700_000_000_000_000_000_000 <= qw as int * (tx as int)
            <= 700_000_000_000_000_000_000 && -700_000_000_000_000_000_000 <= qy as int * (
        tz as int) <= 700_000_000_000_000_000_000 && -700_000_000_000_000_000_000 <= qz as int * (
        ty as int) <= 700_000_000_000_000_000_000 && -700_000_000_000_000_000_000 <= qw as int * (
        ty as int) <= 700_000_000_000_000_000_000 && -700_000_000_000_000_000_000 <= qz as int * (
        tx as int) <= 700_000_000_000_000_000_000 && -700_000_000_000_000_000_000 <= qx as int * (
        tz as int) <= 700_000_000_000_000_000_000 && -700_000_000_000_000_000_000 <= qw as int * (
        tz as int) <= 700_000_000_000_000_000_000 && -700_000_000_000_000_000_000 <= qx as int * (
        ty as int) <= 700_000_000_000_000_000_000 && -700_000_000_000_000_000_000 <= qy as int * (
        tx as int) <= 700_000_000_000_000_000_000) by (nonlinear_arith)
            requires
                -4_100_000 <= qx as int <= 4_100_000,
                -4_100_000 <= qy as int <= 4_100_000,
                -4_100_000 <= qz as int <= 4_100_000,
                -4_100_000 <= qw as int <= 4_100_000,
                -164_000_000_000_000 <= tx as int <= 164_000_000_000_000,
                -164_000_000_000_000 <= ty as int <= 164_000_000_000_000,
                -164_000_000_000_000 <= tz as int <= 164_000_000_000_000,
        ;
    }
    let ix: i128 = qw * tx + (qy * tz - qz * ty);
    let iy: i128 = qw * ty + (qz * tx - qx * tz);
    let iz: i128 = qw * tz + (qx * ty - qy * tx);
    let rx: i128 = vx + div_floor_i128(ix, 1_000_000);
    let ry: i128 = vy + div_floor_i128(iy, 1_000_000);
    let rz: i128 = vz + div_floor_i128(iz, 1_000_000);
    Vec3i { x: rx as i64, y: ry as i64, z: rz as i64 }
}

/// The fixed-point quaternion product, executably: exactly the scaled
/// Hamilton product, parent first.
fn quat_mul(p: &Quat4i, c: &Quat4i) -> (r: Quat4i)
    requires
        p.bounded(WORLD_ROT_BOUND as int),
        c.bounded(QSCALE as int),
    ensures
        r.x == qm_x(quat_view(*p), quat_view(*c)),
        r.y == qm_y(quat_view(*p), quat_view(*c)),
        r.z == qm_z(quat_view(*p), quat_view(*c)),
        r.w == qm_w(quat_view(*p), quat_view(*c)),
{
    proof {
        lemma_qm_bounds(quat_view(*p), quat_view(*c), WORLD_ROT_BOUND as int);
        assert(forall|a: int, b: int|
            -16_389_461 <= a <= 16_389_461 && -1000 <= b <= 1000 ==> -16_389_461_000 <= #[trigger] (
            a * b) <= 16_389_461_000) by (nonlinear_arith);
    }
    let px: i128 = p.x as i128;
    let py: i128 = p.y as i128;
    let pz: i128 = p.z as i128;
    let pw: i128 = p.w as i128;
    let cx: i128 = c.x as i128;
    let cy: i128 = c.y as i128;
    let cz: i128 = c.z as i128;
    let cw: i128 = c.w as i128;
    let nw: i128 = div_floor_i128(pw * cw - px * cx - py * cy - pz * cz, 1000);
    let nx: i128 = div_floor_i128(pw * cx + px * cw + py * cz - pz * cy, 1000);
    let ny: i128 = div_floor_i128(pw * cy - px * cz + py * cw + pz * cx, 1000);
    let nz: i128 = div_floor_i128(pw * cz + px * cy - py * cx + pz * cw, 1000);
    Quat4i { x: nx as i64, y: ny as i64, z: nz as i64, w: nw as i64 }
}

/// Pose composition, executably: exactly `compose_spec`.
pub fn compose(p: &Pose, c: &Pose) -> (r: Pose)
    requires
        p.translation.bounded(WORLD_POS_BOUND as int),
        p.rotation.bounded(COMPOSE_ROT_BOUND as int),
        c.wf_local(),
    ensures
        pose_view(r) == compose_spec(pose_view(*p), pose_view(*c)),
{
    let off = rotate_vec(&p.rotation, &c.translation);
    let rot = quat_mul(&p.rotation, &c.rotation);
    let t = Vec3i {
        x: p.translation.x + off.x,
        y: p.translation.y + off.y,
        z: p.translation.z + off.z,
    };
    Pose { translation: t, rotation: rot }
}

/// One node of the transform hierarchy: a local pose and an optional parent
/// handle. Parents always stand earlier in the creation order, so the
/// hierarchy is acyclic by construction.
#[derive(Clone, Copy, PartialEq, Eq, Structural, Debug)]
pub struct Node {
    pub local: Pose,
    pub parent: Option<usize>,
}

/// What every node of a well-formed tree satisfies.
pub open spec fn node_wf(n: Node, i: int) -> bool {
    &&& n.local.wf_local()
    &&& match n.parent {
        Option::None => true,
        Option::Some(p) => (p as int) < i,
    }
}

/// The transform hierarchy: a small arena of nodes.
#[derive(Clone, Debug)]
pub struct TransformTree {
    pub nodes: Vec<Node>,
}

/// What went wrong with a tree operation.
#[derive(Clone, Copy, PartialEq, Eq, Structural, Debug)]
pub enum TreeError {
    /// The arena is full.
    Full,
    /// The named node does not exist.
    NoSuchNode,
    /// The attachment would not keep parents before children, so it could
    /// create a cycle.
    WouldCycle,
}

impl TransformTree {
    /// Every node is well formed and every parent stands earlier.
    pub open spec fn wf(self) -> bool {
        &&& self.nodes@.len() <= MAX_NODES
        &&& forall|i: int| 0 <= i < self.nodes@.len() ==> node_wf(#[trigger] self.nodes@[i], i)
    }

    /// An empty hierarchy.
    pub fn empty() -> (t: TransformTree)
        ensures
            t.wf(),
            t.nodes@.len() == 0,
    {
        TransformTree { nodes: Vec::new() }
    }

    /// Create a node with a local pose, optionally under a parent that
    /// already exists. Succeeds exactly when the arena has room; the new
    /// node's handle is the old node count.
    pub fn add_node(&mut self, local: Pose, parent: Option<usize>) -> (r: Result<usize, TreeError>)
        requires
            old(self).wf(),
            local.wf_local(),
            parent is Some ==> parent.unwrap() < old(self).nodes@.len(),
        ensures
            final(self).wf(),
            r is Ok <==> old(self).nodes@.len() < MAX_NODES,
            r is Err ==> *final(self) == *old(self) && r == Result::<usize, TreeError>::Err(
                TreeError::Full,
            ),
            r is Ok ==> {
                &&& r.unwrap() == old(self).nodes@.len()
                &&& final(self).nodes@.len() == old(self).nodes@.len() + 1
                &&& final(self).nodes@[r.unwrap() as int].local == local
                &&& final(self).nodes@[r.unwrap() as int].parent == parent
                &&& forall|i: int|
                    0 <= i < old(self).nodes@.len() ==> final(self).nodes@[i] == old(
                        self,
                    ).nodes@[i]
            },
    {
        if self.nodes.len() >= MAX_NODES {
            return Result::Err(TreeError::Full);
        }
        let idx = self.nodes.len();
        self.nodes.push(Node { local, parent });
        Result::Ok(idx)
    }

    /// Re-parent a node. Succeeds exactly when both handles exist and the
    /// parent stands strictly earlier in the creation order — the rule that
    /// keeps every hierarchy acyclic; any other attachment is rejected.
    pub fn attach(&mut self, child: usize, parent: usize) -> (r: Result<(), TreeError>)
        requires
            old(self).wf(),
        ensures
            final(self).wf(),
            r is Ok <==> child < old(self).nodes@.len() && parent < child,
            r is Err ==> *final(self) == *old(self),
            r is Ok ==> {
                &&& final(self).nodes@.len() == old(self).nodes@.len()
                &&& final(self).nodes@[child as int].local == old(self).nodes@[child as int].local
                &&& final(self).nodes@[child as int].parent == Option::Some(parent)
                &&& forall|i: int|
                    0 <= i < old(self).nodes@.len() && i != child ==> final(self).nodes@[i] == old(
                        self,
                    ).nodes@[i]
            },
    {
        if child >= self.nodes.len() {
            return Result::Err(TreeError::NoSuchNode);
        }
        if parent >= child {
            return Result::Err(TreeError::WouldCycle);
        }
        let local = self.nodes[child].local;
        self.nodes.set(child, Node { local, parent: Option::Some(parent) });
        Result::Ok(())
    }

    /// Overwrite a node's local pose, leaving its place in the hierarchy
    /// alone.
    pub fn set_local(&mut self, i: usize, local: Pose)
        requires
            old(self).wf(),
            i < old(self).nodes@.len(),
            local.wf_local(),
        ensures
            final(self).wf(),
            final(self).nodes@.len() == old(self).nodes@.len(),
            final(self).nodes@[i as int].local == local,
            final(self).nodes@[i as int].parent == old(self).nodes@[i as int].parent,
            forall|j: int|
                0 <= j < old(self).nodes@.len() && j != i ==> final(self).nodes@[j] == old(
                    self,
                ).nodes@[j],
    {
        let parent = self.nodes[i].parent;
        self.nodes.set(i, Node { local, parent });
    }
}

/// The world pose of a node: the fold of pose composition along its
/// ancestor chain, root first.
pub open spec fn world_pose(nodes: Seq<Node>, i: int) -> PoseView
    decreases i,
{
    match nodes[i].parent {
        Option::None => pose_view(nodes[i].local),
        Option::Some(p) => if 0 <= p < i {
            compose_spec(world_pose(nodes, p as int), pose_view(nodes[i].local))
        } else {
            pose_view(nodes[i].local)
        },
    }
}

/// In a well-formed tree, every world pose stays within the chain bounds of
/// its node's index.
pub proof fn lemma_world_pose_bounds(nodes: Seq<Node>, i: int)
    requires
        nodes.len() <= MAX_NODES,
        forall|j: int| 0 <= j < nodes.len() ==> node_wf(#[trigger] nodes[j], j),
        0 <= i < nodes.len(),
    ensures
        mag(world_pose(nodes, i).t.x) <= pos_chain_bound(i as nat),
        mag(world_pose(nodes, i).t.y) <= pos_chain_bound(i as nat),
        mag(world_pose(nodes, i).t.z) <= pos_chain_bound(i as nat),
        mag(world_pose(nodes, i).r.x) <= rot_chain_bound(i as nat),
        mag(world_pose(nodes, i).r.y) <= rot_chain_bound(i as nat),
        mag(world_pose(nodes, i).r.z) <= rot_chain_bound(i as nat),
        mag(world_pose(nodes, i).r.w) <= rot_chain_bound(i as nat),
    decreases i,
{
    assert(node_wf(nodes[i], i));
    match nodes[i].parent {
        Option::None => {
            lemma_chain_bounds_mono(0, i as nat);
        },
        Option::Some(p) => {
            lemma_world_pose_bounds(nodes, p as int);
            lemma_chain_bounds_mono((p as int) as nat, (i - 1) as nat);
            lemma_chain_bounds_concrete((i - 1) as nat);
            let wp = world_pose(nodes, p as int);
            let lc = pose_view(nodes[i].local);
            lemma_rot_coord_bounds(wp.r, lc.t);
            lemma_qm_bounds(wp.r, lc.r, rot_chain_bound((i - 1) as nat));
            assert(4 * rot_chain_bound((i - 1) as nat) + 1 == rot_chain_bound(i as nat));
            assert(pos_chain_bound((i - 1) as nat) + 33_000_000_000_000_000 == pos_chain_bound(
                i as nat,
            ));
        },
    }
}

/// The identity rotation over the mathematical integers.
pub open spec fn quat_identity_view() -> QuatView {
    QuatView { x: 0, y: 0, z: 0, w: QSCALE as int }
}

/// The identity rotation moves no vector.
pub proof fn lemma_identity_rotation(v: Vec3View)
    ensures
        rot_x(quat_identity_view(), v) == v.x,
        rot_y(quat_identity_view(), v) == v.y,
        rot_z(quat_identity_view(), v) == v.z,
{
    let q = quat_identity_view();
    assert(2 * (q.y * v.z - q.z * v.y) == 0 && 2 * (q.z * v.x - q.x * v.z) == 0 && 2 * (q.x * v.y
        - q.y * v.x) == 0) by (nonlinear_arith)
        requires
            q.x == 0 && q.y == 0 && q.z == 0,
    ;
    assert(q.w * 0 == 0 && q.y * 0 == 0 && q.z * 0 == 0 && q.x * 0 == 0) by (nonlinear_arith);
    assert(0int / 1_000_000int == 0) by {
        vstd::arithmetic::div_mod::lemma_div_of0(1_000_000);
    }
}

/// Multiplying by the identity keeps a near-unit rotation.
pub proof fn lemma_identity_quat_mul(c: QuatView)
    requires
        mag(c.x) <= QSCALE,
        mag(c.y) <= QSCALE,
        mag(c.z) <= QSCALE,
        mag(c.w) <= QSCALE,
    ensures
        qm_x(quat_identity_view(), c) == c.x,
        qm_y(quat_identity_view(), c) == c.y,
        qm_z(quat_identity_view(), c) == c.z,
        qm_w(quat_identity_view(), c) == c.w,
{
    let p = quat_identity_view();
    assert(p.w * c.x == 1000 * c.x && p.x * c.w == 0 && p.y * c.z == 0 && p.z * c.y == 0 && p.w
        * c.y == 1000 * c.y && p.x * c.z == 0 && p.z * c.x == 0 && p.w * c.z == 1000 * c.z && p.x
        * c.y == 0 && p.y * c.x == 0 && p.w * c.w == 1000 * c.w && p.x * c.x == 0 && p.y * c.y == 0
        && p.z * c.z == 0 && p.y * c.w == 0 && p.z * c.w == 0) by (nonlinear_arith)
        requires
            p.x == 0 && p.y == 0 && p.z == 0 && p.w == 1000,
    ;
    vstd::arithmetic::div_mod::lemma_div_multiples_vanish(c.x, 1000);
    vstd::arithmetic::div_mod::lemma_div_multiples_vanish(c.y, 1000);
    vstd::arithmetic::div_mod::lemma_div_multiples_vanish(c.z, 1000);
    vstd::arithmetic::div_mod::lemma_div_multiples_vanish(c.w, 1000);
}

/// The world pose of a node, executably: exactly the specification fold,
/// computed by walking the ancestor chain.
pub fn get_world(tree: &TransformTree, i: usize) -> (r: Pose)
    requires
        tree.wf(),
        i < tree.nodes@.len(),
    ensures
        pose_view(r) == world_pose(tree.nodes@, i as int),
        r.translation.bounded(WORLD_POS_BOUND as int),
        r.rotation.bounded(WORLD_ROT_BOUND as int),
    decreases i,
{
    proof {
        lemma_world_pose_bounds(tree.nodes@, i as int);
        lemma_chain_bounds_concrete(i as nat);
    }
    let n = tree.nodes[i];
    match n.parent {
        Option::None => n.local,
        Option::Some(p) => {
            proof {
                assert(node_wf(tree.nodes@[i as int], i as int));
            }
            let wp = get_world(tree, p);
            proof {
                lemma_world_pose_bounds(tree.nodes@, p as int);
                lemma_chain_bounds_mono(p as nat, (i - 1) as nat);
                lemma_chain_bounds_concrete((i - 1) as nat);
            }
            compose(&wp, &n.local)
        },
    }
}

} // verus!
