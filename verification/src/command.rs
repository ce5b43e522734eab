//! The values that travel between operator, control loop and motors.

use vstd::prelude::*;
use crate::fixed::{clamp, UNIT};

verus! {

/// A setpoint sent by the operator. All fields are thousandths.
#[derive(Clone, Copy, Debug, PartialEq, Eq, Structural)]
pub enum Command {
    /// Attitude and thrust request: `roll`, `pitch` and `yaw` between -1000
    /// and 1000, `thrust` between 0 and 1000.
    Remote { roll: i32, pitch: i32, yaw: i32, thrust: i32 },
    /// One duty per motor, each between 0 and 1000.
    MotorDebug { m1: i32, m2: i32, m3: i32, m4: i32 },
}

/// Telemetry reported back to the operator: attitude in millidegrees,
/// battery in millivolts.
#[derive(Clone, Copy, Debug, PartialEq, Eq, Structural)]
pub struct Status {
    pub roll: i32,
    pub pitch: i32,
    pub battery: i32,
}

/// What one motor of a differential drive is told to do. The magnitude is in
/// thousandths and never exceeds 1000 in a value made by this library.
#[derive(Clone, Copy, Debug, PartialEq, Eq, Structural)]
pub enum Direction {
    Forward(u16),
    Backward(u16),
    Stop,
}

/// Whether `v` is a signed axis value between -1.0 and 1.0.
pub open spec fn is_axis(v: int) -> bool {
    -(UNIT as int) <= v <= UNIT as int
}

/// Whether `v` is a fraction between 0.0 and 1.0.
pub open spec fn is_fraction(v: int) -> bool {
    0 <= v <= UNIT as int
}

impl Command {
    /// Every field lies in its declared range.
    pub open spec fn in_range(self) -> bool {
        match self {
            Command::Remote { roll, pitch, yaw, thrust } => {
                &&& is_axis(roll as int)
                &&& is_axis(pitch as int)
                &&& is_axis(yaw as int)
                &&& is_fraction(thrust as int)
            },
            Command::MotorDebug { m1, m2, m3, m4 } => {
                &&& is_fraction(m1 as int)
                &&& is_fraction(m2 as int)
                &&& is_fraction(m3 as int)
                &&& is_fraction(m4 as int)
            },
        }
    }

    /// The command asks for no motion at all.
    pub open spec fn at_rest(self) -> bool {
        match self {
            Command::Remote { roll, pitch, yaw, thrust } => {
                roll == 0 && pitch == 0 && yaw == 0 && thrust == 0
            },
            Command::MotorDebug { m1, m2, m3, m4 } => m1 == 0 && m2 == 0 && m3 == 0 && m4 == 0,
        }
    }

    /// The command is the neutral stick command.
    pub open spec fn at_rest_sticks(self) -> bool {
        self == (Command::Remote { roll: 0, pitch: 0, yaw: 0, thrust: 0 })
    }

    /// The command with every field limited to its declared range.
    pub open spec fn limited(self) -> Command {
        match self {
            Command::Remote { roll, pitch, yaw, thrust } => Command::Remote {
                roll: clamp(roll as int, -(UNIT as int), UNIT as int) as i32,
                pitch: clamp(pitch as int, -(UNIT as int), UNIT as int) as i32,
                yaw: clamp(yaw as int, -(UNIT as int), UNIT as int) as i32,
                thrust: clamp(thrust as int, 0, UNIT as int) as i32,
            },
            Command::MotorDebug { m1, m2, m3, m4 } => Command::MotorDebug {
                m1: clamp(m1 as int, 0, UNIT as int) as i32,
                m2: clamp(m2 as int, 0, UNIT as int) as i32,
                m3: clamp(m3 as int, 0, UNIT as int) as i32,
                m4: clamp(m4 as int, 0, UNIT as int) as i32,
            },
        }
    }

    /// The neutral setpoint: all sticks centred, no thrust.
    pub fn new() -> (cmd: Command)
        ensures
            cmd == (Command::Remote { roll: 0, pitch: 0, yaw: 0, thrust: 0 }),
            cmd.at_rest(),
            cmd.in_range(),
    {
        Command::Remote { roll: 0, pitch: 0, yaw: 0, thrust: 0 }
    }

    /// Tells whether the command asks for no motion at all.
    pub fn is_at_rest(&self) -> (r: bool)
        ensures
            r == self.at_rest(),
    {
        match *self {
            Command::Remote { roll, pitch, yaw, thrust } => {
                roll == 0 && pitch == 0 && yaw == 0 && thrust == 0
            },
            Command::MotorDebug { m1, m2, m3, m4 } => m1 == 0 && m2 == 0 && m3 == 0 && m4 == 0,
        }
    }

    /// Tells whether every field lies in its declared range.
    pub fn is_in_range(&self) -> (r: bool)
        ensures
            r == self.in_range(),
    {
        match *self {
            Command::Remote { roll, pitch, yaw, thrust } => {
                -UNIT <= roll && roll <= UNIT && -UNIT <= pitch && pitch <= UNIT && -UNIT <= yaw
                    && yaw <= UNIT && 0 <= thrust && thrust <= UNIT
            },
            Command::MotorDebug { m1, m2, m3, m4 } => {
                0 <= m1 && m1 <= UNIT && 0 <= m2 && m2 <= UNIT && 0 <= m3 && m3 <= UNIT && 0 <= m4
                    && m4 <= UNIT
            },
        }
    }

    /// Limits every field to its declared range, leaving values already in
    /// range untouched.
    pub fn clamped(&self) -> (cmd: Command)
        ensures
            cmd == self.limited(),
            cmd.in_range(),
            self.in_range() ==> cmd == *self,
    {
        match *self {
            Command::Remote { roll, pitch, yaw, thrust } => Command::Remote {
                roll: limit_axis(roll),
                pitch: limit_axis(pitch),
                yaw: limit_axis(yaw),
                thrust: limit_fraction(thrust),
            },
            Command::MotorDebug { m1, m2, m3, m4 } => Command::MotorDebug {
                m1: limit_fraction(m1),
                m2: limit_fraction(m2),
                m3: limit_fraction(m3),
                m4: limit_fraction(m4),
            },
        }
    }
}

/// Limits a signed axis value to the interval from -1.0 to 1.0.
pub fn limit_axis(v: i32) -> (r: i32)
    ensures
        r == clamp(v as int, -(UNIT as int), UNIT as int),
{
    if v < -UNIT {
        -UNIT
    } else if v > UNIT {
        UNIT
    } else {
        v
    }
}

/// Limits a duty or thrust value to the interval from 0.0 to 1.0.
pub fn limit_fraction(v: i32) -> (r: i32)
    ensures
        r == clamp(v as int, 0, UNIT as int),
{
    if v < 0 {
        0
    } else if v > UNIT {
        UNIT
    } else {
        v
    }
}

impl Direction {
    /// The magnitude carried by the direction, zero for `Stop`.
    pub open spec fn duty(self) -> int {
        match self {
            Direction::Forward(m) => m as int,
            Direction::Backward(m) => m as int,
            Direction::Stop => 0,
        }
    }

    /// The magnitude is a fraction between 0.0 and 1.0.
    pub open spec fn in_range(self) -> bool {
        is_fraction(self.duty())
    }

    /// The magnitude to drive the motor with, zero for `Stop`.
    pub fn magnitude(&self) -> (m: u16)
        ensures
            m == self.duty(),
    {
        match *self {
            Direction::Forward(m) => m,
            Direction::Backward(m) => m,
            Direction::Stop => 0,
        }
    }
}

} // verus!
