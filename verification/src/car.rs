//! Differential-drive mixing: two driven wheels, steered by their speed difference.

use vstd::prelude::*;
use crate::command::{Command, Direction};
use crate::fixed::{clamp, magnitude, mul_milli, mul_unit, lemma_mul_unit_odd, UNIT};

verus! {

/// The share of a turn request that is added to the left wheel and taken
/// from the right one, in thousandths.
pub const WHEEL_DISTANCE: i32 = 300;

/// Stick deflections smaller than this count as zero.
pub const DEADZONE: i32 = 100;

/// `v` with everything strictly inside the deadzone snapped to zero.
pub open spec fn snap(v: int, deadzone: int) -> int {
    if magnitude(v) < deadzone {
        0
    } else {
        v
    }
}

/// The direction that a signed wheel speed stands for: its sign picks the
/// variant, its magnitude is limited to 1.0.
pub open spec fn direction_of(x: int) -> Direction {
    if x < 0 {
        Direction::Backward(clamp(-x, 0, UNIT as int) as u16)
    } else if x > 0 {
        Direction::Forward(clamp(x, 0, UNIT as int) as u16)
    } else {
        Direction::Stop
    }
}

/// The signed speed of the left wheel for filtered stick values.
pub open spec fn left_speed(roll: int, pitch: int) -> int {
    pitch + mul_unit(roll, WHEEL_DISTANCE as int)
}

/// The signed speed of the right wheel for filtered stick values.
pub open spec fn right_speed(roll: int, pitch: int) -> int {
    pitch - mul_unit(roll, WHEEL_DISTANCE as int)
}

/// What the four motor slots are told for a command: left wheel, right
/// wheel, and two slots without a motor. A debug command addresses the four
/// slots one by one.
pub open spec fn drive(cmd: Command) -> Seq<Direction> {
    match cmd {
        Command::Remote { roll, pitch, yaw, thrust } => {
            let r = snap(roll as int, DEADZONE as int);
            let p = snap(pitch as int, DEADZONE as int);
            seq![
                direction_of(left_speed(r, p)),
                direction_of(right_speed(r, p)),
                Direction::Stop,
                Direction::Stop,
            ]
        },
        Command::MotorDebug { m1, m2, m3, m4 } => seq![
            direction_of(m1 as int),
            direction_of(m2 as int),
            direction_of(m3 as int),
            direction_of(m4 as int),
        ],
    }
}

/// A stick command whose roll and pitch both lie strictly inside the deadzone.
pub open spec fn sticks_at_rest(cmd: Command) -> bool {
    cmd is Remote && snap(cmd->roll as int, DEADZONE as int) == 0 && snap(
        cmd->pitch as int,
        DEADZONE as int,
    ) == 0
}

/// Snaps a stick value to zero when it lies strictly inside the deadzone.
pub fn deadzone(v: i32, width: i32) -> (r: i32)
    ensures
        r == snap(v as int, width as int),
        r == 0 || r == v,
{
    let wide: i64 = v as i64;
    let size: i64 = if wide < 0 {
        -wide
    } else {
        wide
    };
    if size < width as i64 {
        0
    } else {
        v
    }
}

/// Turns a signed wheel speed into a direction: negative is backward,
/// positive is forward, zero is stop. The magnitude is limited to 1.0.
pub fn motor_dir(input: i64) -> (dir: Direction)
    ensures
        dir == direction_of(input as int),
        dir.in_range(),
        input < 0 <==> dir is Backward,
        input > 0 <==> dir is Forward,
        input == 0 <==> dir is Stop,
        magnitude(input as int) <= UNIT ==> dir.duty() == magnitude(input as int),
        magnitude(input as int) > UNIT ==> dir.duty() == UNIT,
{
    if input < 0 {
        if input < -(UNIT as i64) {
            Direction::Backward(UNIT as u16)
        } else {
            Direction::Backward((-input) as u16)
        }
    } else if input > 0 {
        if input > UNIT as i64 {
            Direction::Forward(UNIT as u16)
        } else {
            Direction::Forward(input as u16)
        }
    } else {
        Direction::Stop
    }
}

/// A two-wheeled rover.
pub struct Car {}

impl Car {
    /// A rover with the wheel distance and the deadzone of this module.
    pub fn new() -> (car: Car) {
        Car {  }
    }

    /// Mixes a command into one direction per motor slot.
    ///
    /// Roll and pitch pass the deadzone filter, the turn request is scaled by
    /// [`WHEEL_DISTANCE`] and added to the left wheel and taken from the
    /// right one. A command at rest stops every motor.
    pub fn update(&self, cmd: &Command) -> (motors: [Direction; 4])
        ensures
            motors@ == drive(*cmd),
            forall|i: int| 0 <= i < 4 ==> (#[trigger] motors@[i]).in_range(),
            cmd.at_rest() || sticks_at_rest(*cmd) ==> forall|i: int|
                0 <= i < 4 ==> #[trigger] motors@[i] == Direction::Stop,
    {
        match *cmd {
            Command::Remote { roll, pitch, yaw, thrust } => {
                let roll: i32 = deadzone(roll, DEADZONE);
                let pitch: i32 = deadzone(pitch, DEADZONE);
                let diff: i64 = mul_milli(roll, WHEEL_DISTANCE);
                proof {
                    lemma_turn_share_bounded(roll as int);
                }
                let motor_left = motor_dir(pitch as i64 + diff);
                let motor_right = motor_dir(pitch as i64 - diff);
                let motors = [motor_left, motor_right, Direction::Stop, Direction::Stop];
                assert(motors@ =~= drive(*cmd));
                motors
            },
            Command::MotorDebug { m1, m2, m3, m4 } => {
                let motors = [
                    motor_dir(m1 as i64),
                    motor_dir(m2 as i64),
                    motor_dir(m3 as i64),
                    motor_dir(m4 as i64),
                ];
                assert(motors@ =~= drive(*cmd));
                motors
            },
        }
    }
}

/// The share of a turn request that reaches a wheel is never larger than the request.
pub proof fn lemma_turn_share_bounded(roll: int)
    ensures
        magnitude(mul_unit(roll, WHEEL_DISTANCE as int)) <= magnitude(roll),
{
    if roll >= 0 {
        assert(roll * 300 / 1000 <= roll);
    } else {
        assert((-roll) * 300 / 1000 <= -roll);
        assert(-(roll * 300) == (-roll) * 300);
    }
}

/// Filtering a value that has passed the deadzone filter changes nothing.
pub proof fn lemma_snap_idempotent(v: int, deadzone: int)
    ensures
        snap(snap(v, deadzone), deadzone) == snap(v, deadzone),
{
}

/// A command whose sticks have passed the deadzone filter is mixed as the
/// unfiltered command is: the filter inside the mixer is a no-op on it.
pub proof fn lemma_drive_ignores_filtered_input(roll: i32, pitch: i32, yaw: i32, thrust: i32)
    ensures
        drive(
            Command::Remote {
                roll: snap(roll as int, DEADZONE as int) as i32,
                pitch: snap(pitch as int, DEADZONE as int) as i32,
                yaw,
                thrust,
            },
        ) == drive(Command::Remote { roll, pitch, yaw, thrust }),
{
}

/// With the sticks centred on the turn axis both wheels run alike: pure translation.
pub proof fn lemma_pure_translation(pitch: i32, yaw: i32, thrust: i32)
    ensures
        drive(Command::Remote { roll: 0, pitch, yaw, thrust })[0] == drive(
            Command::Remote { roll: 0, pitch, yaw, thrust },
        )[1],
{
}

/// With no forward request the wheels run against each other at the same
/// magnitude: rotation in place.
pub proof fn lemma_pure_rotation(roll: i32, yaw: i32, thrust: i32)
    ensures
        ({
            let out = drive(Command::Remote { roll, pitch: 0, yaw, thrust });
            &&& out[0].duty() == out[1].duty()
            &&& out[0] is Forward <==> out[1] is Backward
            &&& out[0] is Backward <==> out[1] is Forward
            &&& out[0] is Stop <==> out[1] is Stop
        }),
{
}

/// Mirroring the turn request swaps the two wheels.
pub proof fn lemma_mirror_swaps_wheels(roll: i32, pitch: i32, yaw: i32, thrust: i32)
    requires
        roll > i32::MIN,
    ensures
        ({
            let out = drive(Command::Remote { roll, pitch, yaw, thrust });
            let mirrored = drive(Command::Remote { roll: (-roll) as i32, pitch, yaw, thrust });
            out[0] == mirrored[1] && out[1] == mirrored[0]
        }),
{
    let r = snap(roll as int, DEADZONE as int);
    lemma_mul_unit_odd(r, WHEEL_DISTANCE as int);
    assert(snap(-roll as int, DEADZONE as int) == -r);
}

} // verus!
