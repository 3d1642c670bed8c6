use camera_rig::look::{look_tick, player_look_system, sum_mouse_deltas, HeadState, Sensitivity};

fn level() -> HeadState {
    HeadState { yaw_mdeg: 0, pitch_mdeg: 0 }
}

#[test]
fn look_scenario_per_unit_sensitivity() {
    // Sensitivity of 0.15 degrees per device unit; a delta of 100 units
    // yaws by 15 degrees, a delta of 1000 units pitches past the clamp.
    let cfg = Sensitivity::PerUnit { mdeg_per_unit: 150 };
    let mut head = level();
    look_tick(&mut head, 100, 0, &cfg);
    assert_eq!(head.yaw_mdeg, -15_000);
    assert_eq!(head.pitch_mdeg, 0);
    look_tick(&mut head, 0, 1000, &cfg);
    assert_eq!(head.yaw_mdeg, -15_000);
    assert_eq!(head.pitch_mdeg, -81_000);
}

#[test]
fn pitch_clamps_upward_too() {
    let cfg = Sensitivity::PerUnit { mdeg_per_unit: 150 };
    let mut head = level();
    look_tick(&mut head, 0, -1000, &cfg);
    assert_eq!(head.pitch_mdeg, 81_000);
}

#[test]
fn zero_delta_tick_changes_nothing() {
    let cfg = Sensitivity::PerUnit { mdeg_per_unit: 150 };
    let mut head = HeadState { yaw_mdeg: -15_000, pitch_mdeg: 42_000 };
    let before = head;
    look_tick(&mut head, 0, 0, &cfg);
    assert_eq!(head, before);
}

#[test]
fn yaw_wraps_around_the_half_turn() {
    let cfg = Sensitivity::PerUnit { mdeg_per_unit: 150 };
    let mut head = level();
    // A delta of -2500 units is 375 degrees of yaw, one full turn plus 15.
    look_tick(&mut head, -2500, 0, &cfg);
    assert_eq!(head.yaw_mdeg, 15_000);
}

#[test]
fn pitch_stays_in_range_over_a_long_run() {
    let cfg = Sensitivity::PerUnit { mdeg_per_unit: 1000 };
    let mut head = level();
    let deltas: [(i64, i64); 7] =
        [(1_000_000, -900_000), (0, 500_000), (-3, 7), (999, -999), (0, 0), (5, 5), (-1_000_000, 1_000_000)];
    for (dx, dy) in deltas {
        look_tick(&mut head, dx, dy, &cfg);
        assert!(-81_000 <= head.pitch_mdeg && head.pitch_mdeg <= 81_000);
        assert!(-180_000 <= head.yaw_mdeg && head.yaw_mdeg < 180_000);
    }
}

#[test]
fn look_scenario_per_window_sensitivity() {
    // 100 degrees per full window width, as the original configures it: a
    // tenth of a 1280-pixel window is 10 degrees.
    let cfg = Sensitivity::PerWindowFraction {
        mdeg_per_window: 100_000,
        width_px: 1280,
        height_px: 720,
    };
    let mut head = level();
    look_tick(&mut head, 128, 0, &cfg);
    assert_eq!(head.yaw_mdeg, -10_000);
    look_tick(&mut head, 0, 72, &cfg);
    assert_eq!(head.pitch_mdeg, -10_000);
}

#[test]
fn look_pass_drains_and_applies_all_motion() {
    let cfg = Sensitivity::PerUnit { mdeg_per_unit: 150 };
    let mut head = level();
    // Two events of one tick sum before they are applied: 60 + 40 units.
    player_look_system(&mut head, &vec![(60, 0), (40, 0)], &cfg);
    assert_eq!(head.yaw_mdeg, -15_000);
    // Events cancelling to zero leave the head untouched.
    let before = head;
    player_look_system(&mut head, &vec![(25, -3), (-25, 3)], &cfg);
    assert_eq!(head, before);
}

#[test]
fn the_fullest_tick_of_motion_still_sums() {
    // The most events a tick accepts, each at the largest magnitude.
    let events: Vec<(i64, i64)> = vec![(1_000_000, -1_000_000); 1000];
    assert_eq!(sum_mouse_deltas(&events), (1_000_000_000, -1_000_000_000));
}

#[test]
fn mouse_deltas_sum_once_per_tick() {
    let events: Vec<(i64, i64)> = vec![(10, 20), (-5, 7), (0, 0)];
    assert_eq!(sum_mouse_deltas(&events), (5, 27));
    let none: Vec<(i64, i64)> = Vec::new();
    assert_eq!(sum_mouse_deltas(&none), (0, 0));
}
