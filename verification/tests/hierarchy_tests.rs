use camera_rig::fixed::{div_floor_i64, isqrt_u64, wrap_angle_mdeg};
use camera_rig::hierarchy::{compose, get_world, Pose, Quat4i, TransformTree, TreeError};
use camera_rig::rig::{build_player_rig, initial_rig_state};
use camera_rig::vec3::Vec3i;

fn pose_at(x: i64, y: i64, z: i64) -> Pose {
    Pose { translation: Vec3i { x, y, z }, rotation: Quat4i::identity() }
}

#[test]
fn integer_square_roots() {
    assert_eq!(isqrt_u64(0), 0);
    assert_eq!(isqrt_u64(1), 1);
    assert_eq!(isqrt_u64(3), 1);
    assert_eq!(isqrt_u64(4), 2);
    assert_eq!(isqrt_u64(29_000_000), 5385);
    assert_eq!(isqrt_u64(2_000_000), 1414);
}

#[test]
fn floor_division_rounds_toward_negative_infinity() {
    assert_eq!(div_floor_i64(7, 2), 3);
    assert_eq!(div_floor_i64(-7, 2), -4);
    assert_eq!(div_floor_i64(-8, 2), -4);
    assert_eq!(div_floor_i64(0, 5), 0);
}

#[test]
fn angles_wrap_into_the_half_turn() {
    assert_eq!(wrap_angle_mdeg(190_000), -170_000);
    assert_eq!(wrap_angle_mdeg(-190_000), 170_000);
    assert_eq!(wrap_angle_mdeg(360_000), 0);
    assert_eq!(wrap_angle_mdeg(-180_000), -180_000);
    assert_eq!(wrap_angle_mdeg(179_999), 179_999);
}

#[test]
fn player_rig_builds_its_hierarchy() {
    let (tree, nodes) = build_player_rig();
    let head = get_world(&tree, nodes.head);
    assert_eq!(
        (head.translation.x, head.translation.y, head.translation.z),
        (-5000, 1600, -4000)
    );
    assert_eq!(head.rotation, Quat4i { x: 0, y: 0, z: 0, w: 1000 });
    let tp = get_world(&tree, nodes.camera_third);
    assert_eq!((tp.translation.x, tp.translation.y, tp.translation.z), (-5000, 3600, 1000));
    let torso = get_world(&tree, nodes.torso);
    assert_eq!(
        (torso.translation.x, torso.translation.y, torso.translation.z),
        (-5000, 900, -4000)
    );
}

#[test]
fn initial_state_matches_the_spawn_point() {
    let s = initial_rig_state();
    assert_eq!((s.position.x, s.position.y, s.position.z), (-5000, 900, -4000));
    assert_eq!(s.body_yaw_mdeg, 0);
    assert_eq!(s.head.yaw_mdeg, 0);
}

#[test]
fn attach_rejects_backward_edges() {
    let mut tree = TransformTree::empty();
    let a = tree.add_node(pose_at(0, 0, 0), None).unwrap();
    let b = tree.add_node(pose_at(1, 0, 0), None).unwrap();
    assert_eq!(tree.attach(b, a), Ok(()));
    assert_eq!(tree.attach(a, b), Err(TreeError::WouldCycle));
    assert_eq!(tree.attach(a, a), Err(TreeError::WouldCycle));
    assert_eq!(tree.attach(9, a), Err(TreeError::NoSuchNode));
}

#[test]
fn the_arena_fills_up() {
    let (mut tree, _) = build_player_rig();
    assert!(tree.add_node(pose_at(0, 0, 0), None).is_ok());
    assert!(tree.add_node(pose_at(0, 0, 0), None).is_ok());
    assert!(tree.add_node(pose_at(0, 0, 0), None).is_ok());
    assert_eq!(tree.add_node(pose_at(0, 0, 0), None), Err(TreeError::Full));
}

#[test]
fn set_local_moves_a_subtree() {
    let (mut tree, nodes) = build_player_rig();
    tree.set_local(nodes.torso, pose_at(0, -100, 0));
    let torso = get_world(&tree, nodes.torso);
    assert_eq!(
        (torso.translation.x, torso.translation.y, torso.translation.z),
        (-5000, 800, -4000)
    );
    let head = get_world(&tree, nodes.head);
    assert_eq!(head.translation.y, 1600);
}

#[test]
fn a_half_turn_about_y_flips_the_child_offset() {
    let mut tree = TransformTree::empty();
    let root = tree
        .add_node(
            Pose {
                translation: Vec3i { x: 0, y: 0, z: 0 },
                rotation: Quat4i { x: 0, y: 1000, z: 0, w: 0 },
            },
            None,
        )
        .unwrap();
    let child = tree.add_node(pose_at(0, 0, -200), Some(root)).unwrap();
    let w = get_world(&tree, child);
    assert_eq!((w.translation.x, w.translation.y, w.translation.z), (0, 0, 200));
    assert_eq!(w.rotation, Quat4i { x: 0, y: 1000, z: 0, w: 0 });
}

#[test]
fn composition_offsets_in_the_rotated_frame() {
    let parent = Pose {
        translation: Vec3i { x: 100, y: 0, z: 0 },
        rotation: Quat4i { x: 0, y: 1000, z: 0, w: 0 },
    };
    let child = pose_at(0, 0, -200);
    let c = compose(&parent, &child);
    assert_eq!((c.translation.x, c.translation.y, c.translation.z), (100, 0, 200));
}
