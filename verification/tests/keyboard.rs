use vehicle_control::command::Command;
use vehicle_control::keyboard::{keyboard_input, Key, KeyAction, Keyboard};

fn milli(x: f32) -> i32 {
    (x * 1000.0).round() as i32
}

/// A stick command with the given pose: forward/back first, then left/right.
fn with_pose(pose: [f32; 2]) -> Command {
    Command::Remote { roll: milli(pose[1]), pitch: milli(pose[0]), yaw: 0, thrust: 0 }
}

#[test]
fn keyboard_single_keys() {
    assert_eq!(keyboard_input([true, false, false, false]), with_pose([0.3, 0.0]));
    assert_eq!(keyboard_input([false, true, false, false]), with_pose([-0.3, 0.0]));
    assert_eq!(keyboard_input([false, false, true, false]), with_pose([0.0, 0.3]));
    assert_eq!(keyboard_input([false, false, false, true]), with_pose([0.0, -0.3]));
}

#[test]
fn keyboard_diagonals() {
    assert_eq!(keyboard_input([true, false, true, false]), with_pose([0.3, 0.3]));
    assert_eq!(keyboard_input([true, false, false, true]), with_pose([0.3, -0.3]));
    assert_eq!(keyboard_input([false, true, true, false]), with_pose([-0.3, 0.3]));
    assert_eq!(keyboard_input([false, true, false, true]), with_pose([-0.3, -0.3]));
}

#[test]
fn keyboard_conflicting_keys_cancel() {
    assert_eq!(keyboard_input([false, false, false, false]), Command::new());
    assert_eq!(keyboard_input([true, true, false, false]), Command::new());
    assert_eq!(keyboard_input([false, false, true, true]), Command::new());
    assert_eq!(keyboard_input([true, true, true, false]), Command::new());
    assert_eq!(keyboard_input([true, false, true, true]), Command::new());
    assert_eq!(keyboard_input([true, true, true, true]), Command::new());
}

#[test]
fn key_press_sends_its_pose_once() {
    let mut keyboard = Keyboard::new();
    assert_eq!(keyboard.key(Key::Up), KeyAction::Send(with_pose([0.2, 0.0])));
    assert_eq!(keyboard.key(Key::Up), KeyAction::Nothing);
    assert_eq!(keyboard.key(Key::Other), KeyAction::Nothing);
    assert_eq!(keyboard.key(Key::Down), KeyAction::Send(with_pose([-0.2, 0.0])));
    assert_eq!(keyboard.key(Key::Left), KeyAction::Send(with_pose([0.0, -0.2])));
    assert_eq!(keyboard.key(Key::Right), KeyAction::Send(with_pose([0.0, 0.2])));
}

#[test]
fn quit_key_ends_the_session() {
    let mut keyboard = Keyboard::new();
    assert_eq!(keyboard.key(Key::Quit), KeyAction::Quit);
    keyboard.key(Key::Up);
    assert_eq!(keyboard.key(Key::Quit), KeyAction::Quit);
}

#[test]
fn keys_count_as_released_after_half_a_second() {
    let mut keyboard = Keyboard::new();
    assert_eq!(keyboard.elapsed(10_000), None);
    keyboard.key(Key::Up);
    for _ in 0..50 {
        assert_eq!(keyboard.elapsed(10), None);
    }
    assert_eq!(keyboard.elapsed(10), Some(Command::new()));
    assert_eq!(keyboard.elapsed(10), None);
    // a key event starts the count anew
    keyboard.key(Key::Left);
    assert_eq!(keyboard.elapsed(400), None);
    assert_eq!(keyboard.key(Key::Left), KeyAction::Nothing);
    assert_eq!(keyboard.elapsed(400), None);
    assert_eq!(keyboard.elapsed(101), Some(Command::new()));
    assert_eq!(keyboard.elapsed(u32::MAX), None);
}
