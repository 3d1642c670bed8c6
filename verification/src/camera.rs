//! Camera modes and the third-person reprojection: switching between the
//! first- and third-person cameras, editing the radial distance while the
//! viewing angles are preserved, and the degenerate-axis handling for the
//! look-at up reference.

use vstd::prelude::*;
use crate::fixed::clamp_i;
use crate::fixed::clamp_i64;
use crate::fixed::mag;
use crate::fixed::sgn;
use crate::vec3::lemma_nonzero_norm;
use crate::vec3::lemma_scale_coord_ray;
use crate::vec3::lemma_scale_coord_zero;
use crate::vec3::norm_u64;
use crate::vec3::scale_coord;
use crate::vec3::scale_to_length;
use crate::vec3::Vec3i;
use crate::vec3::COORD_LIMIT;

verus! {

/// Which of the two sibling cameras feeds the render view.
#[derive(Clone, Copy, PartialEq, Eq, Structural, Debug)]
pub enum CameraType {
    FirstPerson,
    ThirdPerson,
}

/// The side of the head cube, in position ticks.
pub const HEAD_SIZE_TICKS: i64 = 400;

/// Half the side of the head cube, in position ticks: the bound for the
/// first-person camera's forward/back offset, which never leaves the head.
pub const HEAD_HALF_SIZE_TICKS: i64 = 200;

/// The third-person camera's initial offset from its pivot, in ticks.
pub const TP_START_X: i64 = 0;

/// The third-person camera's initial offset from its pivot, in ticks.
pub const TP_START_Y: i64 = 2000;

/// The third-person camera's initial offset from its pivot, in ticks.
pub const TP_START_Z: i64 = 5000;

/// Smallest radial distance the distance control accepts, in ticks.
pub const MIN_DISTANCE: i64 = 1000;

/// Largest radial distance the distance control accepts, in ticks.
pub const MAX_DISTANCE: i64 = 200_000;

/// The camera settings the debug view edits: the active camera kind and the
/// third-person radial distance.
#[derive(Clone, Copy, PartialEq, Eq, Structural, Debug)]
pub struct CameraSettings {
    pub c_type: CameraType,
    /// Radial distance of the third-person camera from its pivot, in ticks.
    pub distance: i64,
}

impl CameraSettings {
    /// The distance is positive and within the control's range.
    pub open spec fn wf(self) -> bool {
        MIN_DISTANCE <= self.distance <= MAX_DISTANCE
    }
}

impl Default for CameraSettings {
    /// The settings at startup: the third-person camera, at the distance of
    /// its initial offset from the pivot.
    fn default() -> (s: CameraSettings)
        ensures
            s.c_type == CameraType::ThirdPerson,
            s.distance == (Vec3i { x: TP_START_X, y: TP_START_Y, z: TP_START_Z }).norm(),
            s.wf(),
    {
        let start = Vec3i { x: TP_START_X, y: TP_START_Y, z: TP_START_Z };
        let d: u64 = norm_u64(&start);
        proof {
            lemma_nonzero_norm(start);
            crate::vec3::lemma_coord_le_norm(start);
            crate::fixed::lemma_isqrt_bounds(start.norm_sq() as nat);
            assert(0 * 0 + 2000 * 2000 + 5000 * 5000 == 29_000_000int) by (nonlinear_arith);
            assert(start.norm_sq() == 29_000_000);
            if start.norm() > 5385 {
                crate::vec3::lemma_sq_le(5386, start.norm());
            }
            if start.norm() < 5385 {
                crate::vec3::lemma_sq_le(start.norm() + 1, 5385);
            }
            assert(5385 * 5385 == 28_998_225) by (nonlinear_arith);
            assert(5386 * 5386 == 29_008_996) by (nonlinear_arith);
        }
        CameraSettings { c_type: CameraType::ThirdPerson, distance: d as i64 }
    }
}

/// The pair of "active render view" flags on the two sibling cameras.
#[derive(Clone, Copy, PartialEq, Eq, Structural, Debug)]
pub struct ActiveCameras {
    pub first_person: bool,
    pub third_person: bool,
}

impl ActiveCameras {
    /// Exactly one camera feeds the render view, and it is the one the
    /// settings name.
    pub open spec fn agrees(self, c_type: CameraType) -> bool {
        &&& self.first_person != self.third_person
        &&& self.third_person == (c_type == CameraType::ThirdPerson)
    }

    /// The flags at startup: the third-person camera feeds the view, the
    /// first-person camera sleeps — in agreement with the default settings.
    pub fn startup() -> (c: ActiveCameras)
        ensures
            !c.first_person,
            c.third_person,
            c.agrees(CameraType::ThirdPerson),
    {
        ActiveCameras { first_person: false, third_person: true }
    }
}

/// The camera switch: on the switch key's edge, flip the settings' kind and
/// both active flags; otherwise change nothing. Exactly one camera is active
/// before and after.
pub fn switch_camera(
    settings: &mut CameraSettings,
    cams: &mut ActiveCameras,
    switch_pressed: bool,
)
    requires
        old(cams).agrees(old(settings).c_type),
    ensures
        final(cams).agrees(final(settings).c_type),
        final(settings).distance == old(settings).distance,
        !switch_pressed ==> *final(settings) == *old(settings) && *final(cams) == *old(cams),
        switch_pressed ==> {
            &&& final(settings).c_type != old(settings).c_type
            &&& final(cams).first_person == !old(cams).first_person
            &&& final(cams).third_person == !old(cams).third_person
        },
{
    if !switch_pressed {
        return ;
    }
    settings.c_type = match settings.c_type {
        CameraType::FirstPerson => CameraType::ThirdPerson,
        CameraType::ThirdPerson => CameraType::FirstPerson,
    };
    cams.first_person = !cams.first_person;
    cams.third_person = !cams.third_person;
}

/// The up reference a look-at rotation should use from a camera offset:
/// world up, except directly above or below the pivot, where world up is
/// parallel to the view direction and the negative z axis substitutes.
#[derive(Clone, Copy, PartialEq, Eq, Structural, Debug)]
pub enum UpReference {
    WorldY,
    NegZ,
}

/// Which up reference a camera translation calls for.
pub open spec fn up_reference_of(t: Vec3i) -> UpReference {
    if t.x == 0 && t.z == 0 {
        UpReference::NegZ
    } else {
        UpReference::WorldY
    }
}

/// The reprojected third-person camera placement: the new local translation
/// and the up reference for the look-at-pivot rotation the engine derives
/// from it.
#[derive(Clone, Copy, PartialEq, Eq, Structural, Debug)]
pub struct Reprojection {
    pub translation: Vec3i,
    pub up: UpReference,
}

/// Recompute the third-person camera's local translation for a new radial
/// distance, preserving the prior azimuth and elevation. Three cases, chosen
/// by which coordinates of the prior translation vanish: directly above or
/// below the pivot the camera stays on the vertical axis at the new distance
/// (with the substitute up reference); with `x == 0` only the elevation in
/// the y-z plane is rescaled and the x coordinate stays exactly zero; in the
/// general case every coordinate is rescaled by the ratio of the new
/// distance to the old, keeping its sign.
pub fn reproject_translation(old_trans: &Vec3i, new_distance: i64) -> (r: Reprojection)
    requires
        old_trans.bounded(COORD_LIMIT as int),
        !old_trans.is_zero(),
        MIN_DISTANCE <= new_distance <= MAX_DISTANCE,
    ensures
        r.up == up_reference_of(*old_trans),
        old_trans.x == 0 && old_trans.z == 0 ==> {
            &&& r.translation.x == 0
            &&& r.translation.z == 0
            &&& r.translation.y == sgn(old_trans.y as int) * new_distance
        },
        !(old_trans.x == 0 && old_trans.z == 0) ==> {
            &&& r.translation.x == scale_coord(
                new_distance as int,
                old_trans.x as int,
                old_trans.norm(),
            )
            &&& r.translation.y == scale_coord(
                new_distance as int,
                old_trans.y as int,
                old_trans.norm(),
            )
            &&& r.translation.z == scale_coord(
                new_distance as int,
                old_trans.z as int,
                old_trans.norm(),
            )
        },
        old_trans.x == 0 ==> r.translation.x == 0,
        r.translation.bounded(new_distance as int),
{
    if old_trans.x == 0 && old_trans.z == 0 {
        let y: i64 = if old_trans.y < 0 {
            -new_distance
        } else {
            new_distance
        };
        Reprojection { translation: Vec3i { x: 0, y, z: 0 }, up: UpReference::NegZ }
    } else if old_trans.x == 0 {
        let t = scale_to_length(old_trans, new_distance);
        proof {
            lemma_nonzero_norm(*old_trans);
            lemma_scale_coord_zero(new_distance as int, old_trans.norm());
        }
        Reprojection { translation: t, up: UpReference::WorldY }
    } else {
        let t = scale_to_length(old_trans, new_distance);
        Reprojection { translation: t, up: UpReference::WorldY }
    }
}

/// Reprojection distance and angle preservation law, for any non-degenerate
/// prior translation and requested distance. Angles: the reprojected
/// translation, multiplied by the old offset's length, matches the requested
/// distance times the old offset to within half the old length in every
/// coordinate, so azimuth and elevation are preserved up to one rounding
/// tick. Distance: the squared length of the reprojected translation, times
/// the square of the old integer length, brackets the requested distance
/// squared times the old squared length to within `3 d n^2 + n^2` — the new
/// radial distance is the requested one up to rounding. (On the vertical
/// axis the reprojection's own contract gives the requested distance
/// exactly.)
pub proof fn lemma_reprojection_preserves_ray(t: Vec3i, d: int, rx: int, ry: int, rz: int)
    requires
        !t.is_zero(),
        0 < d,
        rx == scale_coord(d, t.x as int, t.norm()),
        ry == scale_coord(d, t.y as int, t.norm()),
        rz == scale_coord(d, t.z as int, t.norm()),
    ensures
        2 * mag(rx * t.norm() - d * t.x) <= t.norm(),
        2 * mag(ry * t.norm() - d * t.y) <= t.norm(),
        2 * mag(rz * t.norm() - d * t.z) <= t.norm(),
        t.norm() * t.norm() * (rx * rx + ry * ry + rz * rz) >= d * d * t.norm_sq() - 3 * d * (
        t.norm() * t.norm()),
        t.norm() * t.norm() * (rx * rx + ry * ry + rz * rz) <= d * d * t.norm_sq() + 3 * d * (
        t.norm() * t.norm()) + t.norm() * t.norm(),
{
    lemma_nonzero_norm(t);
    lemma_scale_coord_ray(d, t.x as int, t.norm());
    lemma_scale_coord_ray(d, t.y as int, t.norm());
    lemma_scale_coord_ray(d, t.z as int, t.norm());
    crate::vec3::lemma_scale_preserves_length(t, d);
}

/// The distance the settings record after a direct translation edit: the
/// new offset's integer length, as the original recomputes it.
pub fn distance_of_translation(t: &Vec3i) -> (d: i64)
    requires
        t.bounded(COORD_LIMIT as int),
    ensures
        d == t.norm(),
        d >= 0,
{
    let n: u64 = norm_u64(t);
    n as i64
}

/// The up reference for a camera translation, executably.
pub fn up_reference(t: &Vec3i) -> (r: UpReference)
    ensures
        r == up_reference_of(*t),
{
    if t.x == 0 && t.z == 0 {
        UpReference::NegZ
    } else {
        UpReference::WorldY
    }
}

/// The distance-control edit: record the new distance and recompute the
/// camera's local translation at the preserved viewing angles.
pub fn set_camera_distance(
    settings: &mut CameraSettings,
    current: &Vec3i,
    new_distance: i64,
) -> (r: Reprojection)
    requires
        current.bounded(COORD_LIMIT as int),
        !current.is_zero(),
        MIN_DISTANCE <= new_distance <= MAX_DISTANCE,
    ensures
        final(settings).c_type == old(settings).c_type,
        final(settings).distance == new_distance,
        final(settings).wf(),
        r.up == up_reference_of(*current),
        current.x == 0 && current.z == 0 ==> {
            &&& r.translation.x == 0
            &&& r.translation.z == 0
            &&& r.translation.y == sgn(current.y as int) * new_distance
        },
        !(current.x == 0 && current.z == 0) ==> {
            &&& r.translation.x == scale_coord(
                new_distance as int,
                current.x as int,
                current.norm(),
            )
            &&& r.translation.y == scale_coord(
                new_distance as int,
                current.y as int,
                current.norm(),
            )
            &&& r.translation.z == scale_coord(
                new_distance as int,
                current.z as int,
                current.norm(),
            )
        },
{
    let r = reproject_translation(current, new_distance);
    settings.distance = new_distance;
    r
}

/// The direct translation edit: the recorded distance follows the new
/// offset's length, and the look-at rotation is rebuilt with the up
/// reference the offset calls for.
pub fn edit_translation(settings: &mut CameraSettings, new_translation: &Vec3i) -> (r: UpReference)
    requires
        new_translation.bounded(COORD_LIMIT as int),
    ensures
        final(settings).c_type == old(settings).c_type,
        final(settings).distance == new_translation.norm(),
        r == up_reference_of(*new_translation),
{
    let d = distance_of_translation(new_translation);
    settings.distance = d;
    up_reference(new_translation)
}

/// The first-person camera's distance control: a single bounded offset along
/// the head's forward axis, clamped to the head's half-size on either side.
pub fn clamp_first_person_offset(z: i64) -> (r: i64)
    ensures
        r == clamp_i(z as int, -HEAD_HALF_SIZE_TICKS as int, HEAD_HALF_SIZE_TICKS as int),
        -HEAD_HALF_SIZE_TICKS <= r <= HEAD_HALF_SIZE_TICKS,
{
    clamp_i64(z, -HEAD_HALF_SIZE_TICKS, HEAD_HALF_SIZE_TICKS)
}

} // verus!
