use vehicle_control::attitude::AttitudeEstimate;
use vehicle_control::command::Command;
use vehicle_control::mixer::{quad_mix, Mixer};
use vehicle_control::pid::Pid;

fn level() -> AttitudeEstimate {
    AttitudeEstimate { roll: 0, pitch: 0, yaw: 0, roll_rate: 0, pitch_rate: 0, yaw_rate: 0 }
}

#[test]
fn quad_pure_pitch() {
    assert_eq!(quad_mix(&[500, 500, 500, 500], 200, 0), [700, 700, 300, 300]);
}

#[test]
fn quad_pure_roll() {
    assert_eq!(quad_mix(&[500, 500, 500, 500], 0, 200), [300, 700, 700, 300]);
}

#[test]
fn quad_mix_signs_per_motor() {
    assert_eq!(quad_mix(&[400, 400, 400, 400], 100, 30), [470, 530, 330, 270]);
    assert_eq!(quad_mix(&[100, 200, 300, 400], -50, 20), [30, 170, 370, 430]);
}

#[test]
fn quad_mix_limits_after_mixing() {
    assert_eq!(quad_mix(&[900, 900, 900, 900], 200, 100), [1000, 1000, 800, 600]);
    assert_eq!(quad_mix(&[100, 100, 100, 100], 200, 100), [200, 400, 0, 0]);
    assert_eq!(
        quad_mix(&[i32::MAX, i32::MIN, 0, 0], i32::MAX, i32::MIN),
        [1000, 0, 0, 1]
    );
}

#[test]
fn quad_mix_without_corrections_keeps_the_base() {
    assert_eq!(quad_mix(&[0, 0, 0, 0], 0, 0), [0, 0, 0, 0]);
    assert_eq!(quad_mix(&[1, 999, 1000, 1001], 0, 0), [1, 999, 1000, 1000]);
    assert_eq!(quad_mix(&[-1, 0, 0, 0], 0, 0), [0, 0, 0, 0]);
}

#[test]
fn mixer_at_rest_turns_every_motor_off() {
    let mut mixer = Mixer::new(Pid::new(3000, 500, 200), Pid::new(3000, 500, 200), 30_000);
    let tilted = AttitudeEstimate { roll: 20_000, pitch: -15_000, ..level() };
    assert_eq!(mixer.tick(&Command::new(), &tilted, 10), [0, 0, 0, 0]);
    assert_eq!(
        mixer.tick(&Command::MotorDebug { m1: 0, m2: 0, m3: 0, m4: 0 }, &tilted, 10),
        [0, 0, 0, 0]
    );
}

#[test]
fn mixer_at_rest_leaves_the_controllers_alone() {
    let mut idle = Mixer::new(Pid::new(10, 10, 0), Pid::new(10, 10, 0), 30_000);
    let mut busy = Mixer::new(Pid::new(10, 10, 0), Pid::new(10, 10, 0), 30_000);
    let tilted = AttitudeEstimate { roll: 20_000, pitch: -15_000, ..level() };
    for _ in 0..10 {
        idle.tick(&Command::new(), &tilted, 10);
    }
    let cmd = Command::Remote { roll: 100, pitch: 200, yaw: 0, thrust: 500 };
    assert_eq!(idle.tick(&cmd, &level(), 10), busy.tick(&cmd, &level(), 10));
}

#[test]
fn mixer_mixes_pitch_error_into_the_motors() {
    let mut mixer = Mixer::new(Pid::new(10, 0, 0), Pid::new(10, 0, 0), 30_000);
    // half stick forward asks for 15 degrees; gain 0.01 turns 15000 into 150
    let cmd = Command::Remote { roll: 0, pitch: 500, yaw: 0, thrust: 500 };
    assert_eq!(mixer.tick(&cmd, &level(), 10), [650, 650, 350, 350]);
    // once the vehicle has reached the angle the correction is gone
    let reached = AttitudeEstimate { pitch: 15_000, ..level() };
    assert_eq!(mixer.tick(&cmd, &reached, 10), [500, 500, 500, 500]);
}

#[test]
fn mixer_mixes_roll_error_into_the_motors() {
    let mut mixer = Mixer::new(Pid::new(10, 0, 0), Pid::new(10, 0, 0), 30_000);
    let cmd = Command::Remote { roll: -500, pitch: 0, yaw: 0, thrust: 400 };
    assert_eq!(mixer.tick(&cmd, &level(), 10), [550, 250, 250, 550]);
}

#[test]
fn mixer_passes_debug_duties_through() {
    let mut mixer = Mixer::new(Pid::new(10, 0, 0), Pid::new(10, 0, 0), 30_000);
    let cmd = Command::MotorDebug { m1: 100, m2: 200, m3: 1300, m4: -4 };
    assert_eq!(mixer.tick(&cmd, &level(), 10), [100, 200, 1000, 0]);
}
