//! The player rig: the node layout and starting state of the body, torso,
//! head and the two cameras, with the dimensional constants everything else
//! is derived from.
//!
//! The engine spawns meshes and materials around these nodes and overwrites
//! the look-at rotations it computes; the layout, offsets and starting
//! orientation proved here are the rig's own logic.

use vstd::prelude::*;
use crate::hierarchy::compose_spec;
use crate::hierarchy::lemma_identity_quat_mul;
use crate::hierarchy::lemma_identity_rotation;
use crate::hierarchy::pose_view;
use crate::hierarchy::quat_identity_view;
use crate::hierarchy::world_pose;
use crate::hierarchy::Pose;
use crate::hierarchy::Quat4i;
use crate::hierarchy::TransformTree;
use crate::look::HeadState;
use crate::movement::RigState;
use crate::vec3::Vec3i;

verus! {

/// The player's movement speed, in position ticks per second.
pub const PLAYER_SPEED_TICKS: i64 = 3000;

/// The player's full height, in position ticks.
pub const PLAYER_HEIGHT_TICKS: i64 = 1800;

/// The altitude of the player's head over the ground, in position ticks.
pub const PLAYER_HEAD_ALT_TICKS: i64 = 1600;

/// Where the player starts: x coordinate, in position ticks.
pub const PLAYER_START_X: i64 = -5000;

/// Where the player starts: y coordinate (half the height), in position ticks.
pub const PLAYER_START_Y: i64 = 900;

/// Where the player starts: z coordinate, in position ticks.
pub const PLAYER_START_Z: i64 = -4000;

/// The head offset over the body origin, in position ticks: the head
/// altitude minus half the player height.
pub const HEAD_OFFSET_Y: i64 = 700;

/// The first-person camera's offset along the head's forward axis, in ticks:
/// half the head size, embedded in the head node.
pub const FP_CAM_OFFSET_Z: i64 = -200;

/// The handles of the rig's nodes inside its transform tree.
#[derive(Clone, Copy, PartialEq, Eq, Structural, Debug)]
pub struct RigNodes {
    pub player: usize,
    pub torso: usize,
    pub head: usize,
    pub camera_first: usize,
    pub camera_third: usize,
}

/// Build the player rig: the body node at its starting position with a
/// torso child, a head child carrying both cameras — the first-person
/// camera embedded in the head, the third-person camera at a radial offset.
/// All rotations start as the identity; the engine writes its look-at
/// rotations over them once the scene is up.
pub fn build_player_rig() -> (r: (TransformTree, RigNodes))
    ensures
        r.0.wf(),
        r.0.nodes@.len() == 5,
        r.1.player == 0 && r.1.torso == 1 && r.1.head == 2 && r.1.camera_first == 3
            && r.1.camera_third == 4,
        r.0.nodes@[0].parent is None,
        r.0.nodes@[1].parent == Option::Some(0usize),
        r.0.nodes@[2].parent == Option::Some(0usize),
        r.0.nodes@[3].parent == Option::Some(2usize),
        r.0.nodes@[4].parent == Option::Some(2usize),
        r.0.nodes@[0].local.translation == (Vec3i {
            x: PLAYER_START_X,
            y: PLAYER_START_Y,
            z: PLAYER_START_Z,
        }),
        r.0.nodes@[2].local.translation == (Vec3i { x: 0, y: HEAD_OFFSET_Y, z: 0 }),
        r.0.nodes@[3].local.translation == (Vec3i { x: 0, y: 0, z: FP_CAM_OFFSET_Z }),
        r.0.nodes@[4].local.translation == (Vec3i {
            x: crate::camera::TP_START_X,
            y: crate::camera::TP_START_Y,
            z: crate::camera::TP_START_Z,
        }),
        world_pose(r.0.nodes@, 2).t.x == PLAYER_START_X,
        world_pose(r.0.nodes@, 2).t.y == PLAYER_START_Y + HEAD_OFFSET_Y,
        world_pose(r.0.nodes@, 2).t.z == PLAYER_START_Z,
        world_pose(r.0.nodes@, 2).r == quat_identity_view(),
        world_pose(r.0.nodes@, 4).t.x == PLAYER_START_X + crate::camera::TP_START_X,
        world_pose(r.0.nodes@, 4).t.y == PLAYER_START_Y + HEAD_OFFSET_Y
            + crate::camera::TP_START_Y,
        world_pose(r.0.nodes@, 4).t.z == PLAYER_START_Z + crate::camera::TP_START_Z,
        world_pose(r.0.nodes@, 4).r == quat_identity_view(),
{
    let mut tree = TransformTree::empty();
    let body_pose = Pose {
        translation: Vec3i { x: PLAYER_START_X, y: PLAYER_START_Y, z: PLAYER_START_Z },
        rotation: Quat4i::identity(),
    };
    let torso_pose = Pose { translation: Vec3i::zero(), rotation: Quat4i::identity() };
    let head_pose = Pose {
        translation: Vec3i { x: 0, y: HEAD_OFFSET_Y, z: 0 },
        rotation: Quat4i::identity(),
    };
    let fp_pose = Pose {
        translation: Vec3i { x: 0, y: 0, z: FP_CAM_OFFSET_Z },
        rotation: Quat4i::identity(),
    };
    let tp_pose = Pose {
        translation: Vec3i {
            x: crate::camera::TP_START_X,
            y: crate::camera::TP_START_Y,
            z: crate::camera::TP_START_Z,
        },
        rotation: Quat4i::identity(),
    };
    let player = tree.add_node(body_pose, Option::None).unwrap();
    let torso = tree.add_node(torso_pose, Option::Some(player)).unwrap();
    let head = tree.add_node(head_pose, Option::Some(player)).unwrap();
    let camera_first = tree.add_node(fp_pose, Option::Some(head)).unwrap();
    let camera_third = tree.add_node(tp_pose, Option::Some(head)).unwrap();
    proof {
        let nodes = tree.nodes@;
        assert(world_pose(nodes, 0) == pose_view(nodes[0].local));
        lemma_identity_rotation(pose_view(nodes[2].local).t);
        lemma_identity_quat_mul(pose_view(nodes[2].local).r);
        assert(world_pose(nodes, 2) == compose_spec(world_pose(nodes, 0), pose_view(
            nodes[2].local,
        )));
        lemma_identity_rotation(pose_view(nodes[4].local).t);
        lemma_identity_quat_mul(pose_view(nodes[4].local).r);
        assert(world_pose(nodes, 4) == compose_spec(world_pose(nodes, 2), pose_view(
            nodes[4].local,
        )));
    }
    (
        tree,
        RigNodes { player, torso, head, camera_first, camera_third },
    )
}

/// The controller state matching a freshly built rig: the starting position,
/// no accumulated body yaw, a level head.
pub fn initial_rig_state() -> (s: RigState)
    ensures
        s.position == (Vec3i { x: PLAYER_START_X, y: PLAYER_START_Y, z: PLAYER_START_Z }),
        s.body_yaw_mdeg == 0,
        s.head.yaw_mdeg == 0,
        s.head.pitch_mdeg == 0,
        s.wf(),
{
    RigState {
        position: Vec3i { x: PLAYER_START_X, y: PLAYER_START_Y, z: PLAYER_START_Z },
        body_yaw_mdeg: 0,
        head: HeadState::level(),
    }
}

} // verus!
