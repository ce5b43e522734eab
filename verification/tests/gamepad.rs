use vehicle_control::command::Command;
use vehicle_control::gamepad::{
    ensure_deadzone, ensure_pose_changed, Axis, Gamepad, DEADZONE, MINIMAL_CHANGE_DIFF,
};

fn milli(x: f32) -> i32 {
    (x * 1000.0).round() as i32
}

/// A stick command with the given pose: forward/back first, then left/right.
fn with_pose(pose: [f32; 2]) -> Command {
    Command::Remote { roll: milli(pose[1]), pitch: milli(pose[0]), yaw: 0, thrust: 0 }
}

#[test]
fn test_ensure_deadzone_1() {
    let cmd = ensure_deadzone(with_pose([0.09, 0.15]), DEADZONE);
    assert!(cmd == with_pose([0.0, 0.15]));
}

#[test]
fn test_ensure_deadzone_2() {
    let cmd = ensure_deadzone(with_pose([0.0, 0.15]), DEADZONE);
    assert!(cmd == with_pose([0.0, 0.15]));
}

#[test]
fn test_ensure_deadzone_3() {
    let cmd = ensure_deadzone(with_pose([0.15, 0.0]), DEADZONE);
    assert!(cmd == with_pose([0.15, 0.0]));
}

#[test]
fn test_ensure_deadzone_4() {
    let cmd = ensure_deadzone(with_pose([0.0, 0.0]), DEADZONE);
    assert!(cmd == with_pose([0.0, 0.0]));
}

#[test]
fn test_ensure_deadzone_5() {
    let cmd = ensure_deadzone(with_pose([0.16, 0.15]), DEADZONE);
    assert!(cmd == with_pose([0.16, 0.15]));
}

#[test]
fn test_ensure_deadzone_6() {
    let cmd = ensure_deadzone(with_pose([0.15, 0.16]), DEADZONE);
    assert!(cmd == with_pose([0.15, 0.16]));
}

#[test]
fn test_ensure_pose_changed_1() {
    assert!(!ensure_pose_changed(
        &with_pose([0.5, 0.0]),
        &with_pose([0.59, 0.0]),
        MINIMAL_CHANGE_DIFF
    ));
}

#[test]
fn test_ensure_pose_changed_2() {
    assert!(!ensure_pose_changed(
        &with_pose([-0.5, 0.0]),
        &with_pose([-0.41, 0.0]),
        MINIMAL_CHANGE_DIFF
    ));
}

#[test]
fn test_ensure_pose_changed_3() {
    assert!(!ensure_pose_changed(
        &with_pose([0.0, 0.5]),
        &with_pose([0.0, 0.59]),
        MINIMAL_CHANGE_DIFF
    ));
}

#[test]
fn test_ensure_pose_changed_4() {
    assert!(!ensure_pose_changed(
        &with_pose([0.0, -0.5]),
        &with_pose([0.0, -0.41]),
        MINIMAL_CHANGE_DIFF
    ));
}

#[test]
fn test_ensure_pose_changed_5() {
    assert!(ensure_pose_changed(
        &with_pose([-0.50, 0.5]),
        &with_pose([-0.59, 0.6]),
        MINIMAL_CHANGE_DIFF
    ));
}

#[test]
fn test_ensure_pose_changed_6() {
    assert!(ensure_pose_changed(
        &with_pose([0.5, -0.5]),
        &with_pose([0.41, -0.4]),
        MINIMAL_CHANGE_DIFF
    ));
}

#[test]
fn deadzone_filter_is_idempotent() {
    for roll in [-1000, -151, -150, -1, 0, 149, 150, 151, 1000] {
        for pitch in [-1000, -151, -150, 0, 150, 151, 1000] {
            let cmd = Command::Remote { roll, pitch, yaw: 77, thrust: 88 };
            let once = ensure_deadzone(cmd, DEADZONE);
            assert_eq!(ensure_deadzone(once, DEADZONE), once);
        }
    }
}

#[test]
fn deadzone_leaves_debug_commands_alone() {
    let cmd = Command::MotorDebug { m1: 1, m2: 2, m3: 3, m4: 4 };
    assert_eq!(ensure_deadzone(cmd, DEADZONE), cmd);
}

#[test]
fn pose_change_rounds_to_hundredths() {
    let old = with_pose([0.0, 0.0]);
    // 0.094 rounds to 0.09, 0.095 rounds to 0.10
    assert!(!ensure_pose_changed(&with_pose([0.094, 0.0]), &old, MINIMAL_CHANGE_DIFF));
    assert!(ensure_pose_changed(&with_pose([0.095, 0.0]), &old, MINIMAL_CHANGE_DIFF));
    assert!(ensure_pose_changed(&with_pose([0.0, -0.095]), &old, MINIMAL_CHANGE_DIFF));
}

#[test]
fn pose_change_between_kinds_is_inequality() {
    let stick = with_pose([0.0, 0.0]);
    let debug = Command::MotorDebug { m1: 0, m2: 0, m3: 0, m4: 0 };
    assert!(ensure_pose_changed(&stick, &debug, MINIMAL_CHANGE_DIFF));
    assert!(!ensure_pose_changed(&debug, &debug, MINIMAL_CHANGE_DIFF));
}

#[test]
fn gamepad_sends_only_real_changes() {
    let mut pad = Gamepad::new();
    assert_eq!(pad.run(), None);
    pad.axis_changed(Axis::LeftStickY, 140);
    assert_eq!(pad.run(), None);
    pad.axis_changed(Axis::LeftStickY, 400);
    pad.axis_changed(Axis::LeftStickX, -90);
    pad.axis_changed(Axis::Other, 999);
    assert_eq!(pad.run(), Some(Command::Remote { roll: 0, pitch: 400, yaw: 0, thrust: 0 }));
    assert_eq!(pad.run(), None);
    pad.axis_changed(Axis::LeftStickY, 450);
    assert_eq!(pad.run(), None);
    pad.axis_changed(Axis::LeftStickY, 500);
    assert_eq!(pad.run(), Some(Command::Remote { roll: 0, pitch: 500, yaw: 0, thrust: 0 }));
    pad.axis_changed(Axis::LeftStickY, 0);
    assert_eq!(pad.run(), Some(Command::new()));
}


#[test]
fn deadzone_keeps_the_edge_and_snaps_below_it() {
    for (value, kept) in [(150, 150), (-150, -150), (149, 0), (-149, 0), (151, 151), (0, 0)] {
        assert_eq!(
            ensure_deadzone(Command::Remote { roll: value, pitch: value, yaw: 5, thrust: 6 }, DEADZONE),
            Command::Remote { roll: kept, pitch: kept, yaw: 5, thrust: 6 }
        );
    }
    // a deadzone of zero snaps nothing
    let cmd = Command::Remote { roll: 1, pitch: -1, yaw: 0, thrust: 0 };
    assert_eq!(ensure_deadzone(cmd, 0), cmd);
}
