use camera_rig::camera::{
    clamp_first_person_offset, distance_of_translation, edit_translation, reproject_translation,
    set_camera_distance, switch_camera, up_reference, ActiveCameras, CameraSettings, CameraType,
    UpReference,
};
use camera_rig::vec3::Vec3i;

#[test]
fn default_settings_start_third_person() {
    let s = CameraSettings::default();
    assert_eq!(s.c_type, CameraType::ThirdPerson);
    // The starting offset (0, 2, 5) has length sqrt(29), 5385 ticks.
    assert_eq!(s.distance, 5385);
}

#[test]
fn startup_activates_exactly_the_third_person_camera() {
    let cams = ActiveCameras::startup();
    assert!(!cams.first_person);
    assert!(cams.third_person);
}

#[test]
fn switch_key_flips_camera_and_active_flags() {
    let mut s = CameraSettings::default();
    let mut cams = ActiveCameras::startup();
    switch_camera(&mut s, &mut cams, true);
    assert_eq!(s.c_type, CameraType::FirstPerson);
    assert!(cams.first_person);
    assert!(!cams.third_person);
    switch_camera(&mut s, &mut cams, true);
    assert_eq!(s.c_type, CameraType::ThirdPerson);
    assert!(!cams.first_person);
    assert!(cams.third_person);
}

#[test]
fn switch_without_the_key_changes_nothing() {
    let mut s = CameraSettings::default();
    let mut cams = ActiveCameras::startup();
    switch_camera(&mut s, &mut cams, false);
    assert_eq!(s.c_type, CameraType::ThirdPerson);
    assert!(cams.third_person);
}

#[test]
fn reprojection_scenario_preserves_elevation() {
    // Prior translation (0, 2, 5), requested distance 10: the elevation
    // atan(2/5) is preserved, giving roughly (0, 3.71, 9.28) at length 10.
    let old = Vec3i { x: 0, y: 2000, z: 5000 };
    let r = reproject_translation(&old, 10_000);
    assert_eq!(r.up, UpReference::WorldY);
    assert_eq!(r.translation.x, 0);
    assert_eq!(r.translation.y, 3714);
    assert_eq!(r.translation.z, 9285);
    assert_eq!(distance_of_translation(&r.translation), 10_000);
}

#[test]
fn reprojection_general_case_keeps_azimuth() {
    let old = Vec3i { x: 3000, y: 0, z: 4000 };
    let r = reproject_translation(&old, 10_000);
    assert_eq!(r.up, UpReference::WorldY);
    assert_eq!(r.translation.x, 6000);
    assert_eq!(r.translation.y, 0);
    assert_eq!(r.translation.z, 8000);
    assert_eq!(distance_of_translation(&r.translation), 10_000);
}

#[test]
fn reprojection_keeps_signs() {
    let old = Vec3i { x: -3000, y: 1000, z: -4000 };
    let r = reproject_translation(&old, 10_000);
    assert!(r.translation.x < 0);
    assert!(r.translation.y > 0);
    assert!(r.translation.z < 0);
}

#[test]
fn reprojection_above_the_pivot_uses_the_substitute_up() {
    let old = Vec3i { x: 0, y: -2000, z: 0 };
    let r = reproject_translation(&old, 7000);
    assert_eq!(r.up, UpReference::NegZ);
    assert_eq!((r.translation.x, r.translation.y, r.translation.z), (0, -7000, 0));
    assert_eq!(distance_of_translation(&r.translation), 7000);
}

#[test]
fn distance_edit_records_the_new_distance() {
    let mut s = CameraSettings::default();
    let old = Vec3i { x: 0, y: 2000, z: 5000 };
    let r = set_camera_distance(&mut s, &old, 10_000);
    assert_eq!(s.distance, 10_000);
    assert_eq!(r.translation.y, 3714);
}

#[test]
fn translation_edit_recomputes_the_distance() {
    let mut s = CameraSettings::default();
    let up = edit_translation(&mut s, &Vec3i { x: 3000, y: 0, z: 4000 });
    assert_eq!(s.distance, 5000);
    assert_eq!(up, UpReference::WorldY);
    let up = edit_translation(&mut s, &Vec3i { x: 0, y: 5000, z: 0 });
    assert_eq!(s.distance, 5000);
    assert_eq!(up, UpReference::NegZ);
}

#[test]
fn reprojection_handles_the_largest_offsets() {
    // Coordinates at the accepted magnitude bound, rescaled to the largest
    // distance the control allows.
    let old = Vec3i { x: 1_000_000_000, y: -1_000_000_000, z: 1_000_000_000 };
    let r = reproject_translation(&old, 200_000);
    assert_eq!(
        (r.translation.x, r.translation.y, r.translation.z),
        (115_470, -115_470, 115_470)
    );
    assert_eq!(distance_of_translation(&r.translation), 199_999);
}

#[test]
fn up_reference_is_vertical_only_on_the_axis() {
    assert_eq!(up_reference(&Vec3i { x: 0, y: 9, z: 0 }), UpReference::NegZ);
    assert_eq!(up_reference(&Vec3i { x: 0, y: 9, z: 1 }), UpReference::WorldY);
    assert_eq!(up_reference(&Vec3i { x: 1, y: 0, z: 0 }), UpReference::WorldY);
}

#[test]
fn first_person_offset_clamps_to_the_head() {
    // The head cube's side is 0.4 units, so the offset never leaves its
    // half-size: 0.2 units, 200 ticks.
    assert_eq!(clamp_first_person_offset(500), 200);
    assert_eq!(clamp_first_person_offset(-999), -200);
    assert_eq!(clamp_first_person_offset(123), 123);
    assert_eq!(clamp_first_person_offset(-200), -200);
}
