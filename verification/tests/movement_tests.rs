use camera_rig::input::{movement_intent, Key, KeyBindings};
use camera_rig::look::HeadState;
use camera_rig::movement::{apply_movement, move_prepare, step_length, MoveBasis, RigState};
use camera_rig::vec3::Vec3i;

fn rig_at(x: i64, y: i64, z: i64) -> RigState {
    RigState {
        position: Vec3i { x, y, z },
        body_yaw_mdeg: 0,
        head: HeadState { yaw_mdeg: 0, pitch_mdeg: 0 },
    }
}

fn level_basis() -> MoveBasis {
    MoveBasis {
        forward: Vec3i { x: 0, y: 0, z: -1000 },
        right: Vec3i { x: 1000, y: 0, z: 0 },
        up: Vec3i { x: 0, y: 1000, z: 0 },
    }
}

#[test]
fn opposite_keys_cancel_to_zero_intent() {
    let b = KeyBindings::standard();
    let held = vec![Key::W, Key::S];
    let intent = movement_intent(&held, &b);
    assert_eq!((intent.x, intent.y, intent.z), (0, 0, 0));
}

#[test]
fn cancelled_tick_moves_nothing() {
    let b = KeyBindings::standard();
    let held = vec![Key::W, Key::S];
    let mut rig = rig_at(7, 8, 9);
    rig.head.yaw_mdeg = 30_000;
    let before = rig;
    let intent = move_prepare(&mut rig, &held, &b);
    assert_eq!((intent.x, intent.y, intent.z), (0, 0, 0));
    // Zero intent skips the whole tick, including the yaw re-home.
    assert_eq!(rig, before);
}

#[test]
fn primary_and_secondary_bindings_agree() {
    let b = KeyBindings::standard();
    let pairs: [(Key, Key); 6] = [
        (Key::W, Key::ArrowUp),
        (Key::S, Key::ArrowDown),
        (Key::D, Key::ArrowRight),
        (Key::A, Key::ArrowLeft),
        (Key::E, Key::RightShift),
        (Key::Q, Key::RightControl),
    ];
    for (primary, secondary) in pairs {
        let with_primary = movement_intent(&vec![primary], &b);
        let with_secondary = movement_intent(&vec![secondary], &b);
        assert_eq!(with_primary, with_secondary);
    }
}

#[test]
fn forward_intent_is_plus_z() {
    let b = KeyBindings::standard();
    let intent = movement_intent(&vec![Key::W], &b);
    assert_eq!((intent.x, intent.y, intent.z), (0, 0, 1));
    let intent = movement_intent(&vec![Key::Q], &b);
    assert_eq!((intent.x, intent.y, intent.z), (0, -1, 0));
}

#[test]
fn move_prepare_rehomes_accumulated_yaw() {
    let b = KeyBindings::standard();
    let mut rig = rig_at(0, 0, 0);
    rig.body_yaw_mdeg = 10_000;
    rig.head.yaw_mdeg = 30_000;
    rig.head.pitch_mdeg = -5_000;
    let intent = move_prepare(&mut rig, &vec![Key::W], &b);
    assert_eq!(intent.z, 1);
    assert_eq!(rig.body_yaw_mdeg, 40_000);
    assert_eq!(rig.head.yaw_mdeg, 0);
    assert_eq!(rig.head.pitch_mdeg, -5_000);
}

#[test]
fn rehome_skipped_when_no_yaw_accumulated() {
    let b = KeyBindings::standard();
    let mut rig = rig_at(0, 0, 0);
    rig.body_yaw_mdeg = 10_000;
    let before = rig;
    move_prepare(&mut rig, &vec![Key::W], &b);
    assert_eq!(rig, before);
}

#[test]
fn forward_step_covers_the_step_length() {
    let mut rig = rig_at(0, 0, 0);
    let intent = Vec3i { x: 0, y: 0, z: 1 };
    apply_movement(&mut rig, &intent, &level_basis(), 50);
    assert_eq!((rig.position.x, rig.position.y, rig.position.z), (0, 0, -50));
}

#[test]
fn diagonal_step_is_normalized() {
    let mut rig = rig_at(0, 0, 0);
    let intent = Vec3i { x: 1, y: 0, z: 1 };
    apply_movement(&mut rig, &intent, &level_basis(), 50);
    // The combined direction (1000, 0, -1000) has integer length 1414; each
    // coordinate carries 50 * 1000 / 1414 of the step.
    assert_eq!((rig.position.x, rig.position.y, rig.position.z), (35, 0, -35));
}

#[test]
fn degenerate_direction_never_reaches_the_rescale() {
    let mut rig = rig_at(4, 5, 6);
    let before = rig;
    let intent = Vec3i { x: 0, y: 0, z: 1 };
    let collapsed = MoveBasis {
        forward: Vec3i { x: 0, y: 0, z: 0 },
        right: Vec3i { x: 1000, y: 0, z: 0 },
        up: Vec3i { x: 0, y: 1000, z: 0 },
    };
    apply_movement(&mut rig, &intent, &collapsed, 50);
    assert_eq!(rig, before);
}

#[test]
fn step_length_scales_speed_by_elapsed_time() {
    assert_eq!(step_length(3000, 16), 48);
    assert_eq!(step_length(3000, 1000), 3000);
    assert_eq!(step_length(3000, 0), 0);
}
