//! The stabilisation mixer of a quadcopter in X configuration.

use vstd::prelude::*;
use crate::attitude::AttitudeEstimate;
use crate::command::{limit_fraction, Command};
use crate::fixed::{clamp, clamp_i64, mul_milli, mul_unit, UNIT};
use crate::pid::Pid;

verus! {

/// One motor's share: the base thrust plus the signed corrections, limited
/// to the interval from 0.0 to 1.0 after they are added up.
pub open spec fn motor_share(base: int, pitch: int, roll: int) -> int {
    clamp(base + pitch + roll, 0, UNIT as int)
}

/// The four motor commands for four base thrusts and the corrections of
/// the pitch and the roll axis.
pub open spec fn quad_motors(base: Seq<i32>, pitch_corr: int, roll_corr: int) -> Seq<i32>
    recommends
        base.len() == 4,
{
    seq![
        motor_share(base[0] as int, pitch_corr, -roll_corr) as i32,
        motor_share(base[1] as int, pitch_corr, roll_corr) as i32,
        motor_share(base[2] as int, -pitch_corr, roll_corr) as i32,
        motor_share(base[3] as int, -pitch_corr, -roll_corr) as i32,
    ]
}

/// The angle in millidegrees that a stick position asks for, where a full
/// deflection asks for `tilt_range`.
pub open spec fn target_angle(stick: int, tilt_range: int) -> int {
    clamp(mul_unit(stick, tilt_range), i32::MIN as int, i32::MAX as int)
}

/// Adds base and corrections for one motor and limits the sum.
fn share(base: i32, pitch: i64, roll: i64) -> (r: i32)
    requires
        -0x8000_0000 <= pitch <= 0x8000_0000,
        -0x8000_0000 <= roll <= 0x8000_0000,
    ensures
        r == motor_share(base as int, pitch as int, roll as int),
{
    clamp_i64(base as i64 + pitch + roll, 0, UNIT as i64) as i32
}

/// Mixes the corrections of two axes into four motor commands.
///
/// Motors 0 and 1 gain the pitch correction and motors 2 and 3 lose it;
/// motors 1 and 2 gain the roll correction and motors 0 and 3 lose it. Every
/// result is limited to the interval from 0.0 to 1.0, after mixing.
pub fn quad_mix(base: &[i32; 4], pitch_corr: i32, roll_corr: i32) -> (motors: [i32; 4])
    ensures
        motors@ == quad_motors(base@, pitch_corr as int, roll_corr as int),
        forall|i: int| 0 <= i < 4 ==> 0 <= #[trigger] motors@[i] <= UNIT,
{
    let p: i64 = pitch_corr as i64;
    let r: i64 = roll_corr as i64;
    let motors = [
        share(base[0], p, -r),
        share(base[1], p, r),
        share(base[2], -p, r),
        share(base[3], -p, -r),
    ];
    assert(motors@ =~= quad_motors(base@, pitch_corr as int, roll_corr as int));
    motors
}

/// Sets every motor to zero.
pub open spec fn all_off() -> Seq<i32> {
    seq![0i32, 0i32, 0i32, 0i32]
}

/// Two PID controllers, one for roll and one for pitch, and the mixing of
/// their corrections into four motor commands.
pub struct Mixer {
    roll: Pid,
    pitch: Pid,
    tilt_range: i32,
}

impl Mixer {
    /// The controller of the roll axis.
    pub closed spec fn roll_pid(&self) -> Pid {
        self.roll
    }

    /// The controller of the pitch axis.
    pub closed spec fn pitch_pid(&self) -> Pid {
        self.pitch
    }

    /// The angle in millidegrees that a full stick deflection asks for.
    pub closed spec fn tilt_range(&self) -> int {
        self.tilt_range as int
    }

    /// The error that the roll controller sees for a stick position and a measured angle.
    pub open spec fn axis_error(&self, stick: i32, measured: i32) -> int {
        target_angle(stick as int, self.tilt_range()) - measured
    }

    /// The motor commands that a tick returns.
    pub open spec fn output(&self, setpoint: Command, attitude: AttitudeEstimate, duration: int) -> Seq<
        i32,
    > {
        if setpoint.at_rest() {
            all_off()
        } else {
            match setpoint {
                Command::Remote { roll, pitch, yaw, thrust } => quad_motors(
                    seq![thrust, thrust, thrust, thrust],
                    self.pitch_pid().response(self.axis_error(pitch, attitude.pitch), duration),
                    self.roll_pid().response(self.axis_error(roll, attitude.roll), duration),
                ),
                Command::MotorDebug { m1, m2, m3, m4 } => seq![
                    clamp(m1 as int, 0, UNIT as int) as i32,
                    clamp(m2 as int, 0, UNIT as int) as i32,
                    clamp(m3 as int, 0, UNIT as int) as i32,
                    clamp(m4 as int, 0, UNIT as int) as i32,
                ],
            }
        }
    }

    /// Whether a tick with this setpoint drives the controllers.
    pub open spec fn drives_controllers(setpoint: Command) -> bool {
        setpoint is Remote && !setpoint.at_rest()
    }

    /// The mixer after a tick.
    pub closed spec fn ticked(&self, setpoint: Command, attitude: AttitudeEstimate, duration: int) -> Mixer {
        if Self::drives_controllers(setpoint) {
            Mixer {
                roll: self.roll.stepped(self.axis_error(setpoint->roll, attitude.roll), duration),
                pitch: self.pitch.stepped(
                    self.axis_error(setpoint->pitch, attitude.pitch),
                    duration,
                ),
                tilt_range: self.tilt_range,
            }
        } else {
            *self
        }
    }

    /// What a tick keeps and what it changes: only a stick setpoint that is
    /// not at rest advances the two controllers.
    pub proof fn lemma_ticked(&self, setpoint: Command, attitude: AttitudeEstimate, duration: int)
        ensures
            self.ticked(setpoint, attitude, duration).tilt_range() == self.tilt_range(),
            !Self::drives_controllers(setpoint) ==> self.ticked(setpoint, attitude, duration)
                == *self,
            Self::drives_controllers(setpoint) ==> {
                &&& self.ticked(setpoint, attitude, duration).roll_pid() == self.roll_pid().stepped(
                    self.axis_error(setpoint->roll, attitude.roll),
                    duration,
                )
                &&& self.ticked(setpoint, attitude, duration).pitch_pid()
                    == self.pitch_pid().stepped(
                    self.axis_error(setpoint->pitch, attitude.pitch),
                    duration,
                )
            },
    {
    }

    /// A mixer with the given controllers, in which a full stick asks for
    /// `tilt_range` millidegrees.
    pub fn new(roll: Pid, pitch: Pid, tilt_range: i32) -> (mixer: Mixer)
        ensures
            mixer.roll_pid() == roll,
            mixer.pitch_pid() == pitch,
            mixer.tilt_range() == tilt_range,
    {
        Mixer { roll, pitch, tilt_range }
    }

    /// Runs one control step and returns the four motor commands in thousandths.
    ///
    /// A setpoint at rest turns every motor off and leaves the controllers
    /// alone. A debug setpoint passes its four duties through, limited to
    /// their range. Any other setpoint advances both controllers by
    /// `duration` milliseconds and mixes their corrections with the thrust.
    pub fn tick(&mut self, setpoint: &Command, attitude: &AttitudeEstimate, duration: u32) -> (motors:
        [i32; 4])
        ensures
            motors@ == old(self).output(*setpoint, *attitude, duration as int),
            *final(self) == old(self).ticked(*setpoint, *attitude, duration as int),
            forall|i: int| 0 <= i < 4 ==> 0 <= #[trigger] motors@[i] <= UNIT,
            setpoint.at_rest() ==> forall|i: int| 0 <= i < 4 ==> #[trigger] motors@[i] == 0,
            final(self).tilt_range() == old(self).tilt_range(),
            !Self::drives_controllers(*setpoint) ==> *final(self) == *old(self),
            Self::drives_controllers(*setpoint) ==> {
                &&& final(self).roll_pid() == old(self).roll_pid().stepped(
                    old(self).axis_error(setpoint->roll, attitude.roll),
                    duration as int,
                )
                &&& final(self).pitch_pid() == old(self).pitch_pid().stepped(
                    old(self).axis_error(setpoint->pitch, attitude.pitch),
                    duration as int,
                )
            },
    {
        if setpoint.is_at_rest() {
            let motors = [0, 0, 0, 0];
            assert(motors@ =~= all_off());
            return motors;
        }
        match *setpoint {
            Command::Remote { roll, pitch, yaw, thrust } => {
                let roll_target: i32 = clamp_i64(
                    mul_milli(roll, self.tilt_range),
                    i32::MIN as i64,
                    i32::MAX as i64,
                ) as i32;
                let pitch_target: i32 = clamp_i64(
                    mul_milli(pitch, self.tilt_range),
                    i32::MIN as i64,
                    i32::MAX as i64,
                ) as i32;
                let roll_corr: i32 = self.roll.update(roll_target, attitude.roll, duration);
                let pitch_corr: i32 = self.pitch.update(pitch_target, attitude.pitch, duration);
                let base = [thrust, thrust, thrust, thrust];
                assert(base@ =~= seq![thrust, thrust, thrust, thrust]);
                quad_mix(&base, pitch_corr, roll_corr)
            },
            Command::MotorDebug { m1, m2, m3, m4 } => {
                let motors = [
                    limit_fraction(m1),
                    limit_fraction(m2),
                    limit_fraction(m3),
                    limit_fraction(m4),
                ];
                assert(motors@ =~= old(self).output(*setpoint, *attitude, duration as int));
                motors
            },
        }
    }
}

/// With no roll correction the motors differ by the pitch correction alone:
/// the front pair gains what the rear pair loses, as long as none saturates.
pub proof fn lemma_pure_pitch(base: i32, pitch_corr: int)
    requires
        0 <= base + pitch_corr <= UNIT,
        0 <= base - pitch_corr <= UNIT,
    ensures
        quad_motors(seq![base, base, base, base], pitch_corr, 0) == seq![
            (base + pitch_corr) as i32,
            (base + pitch_corr) as i32,
            (base - pitch_corr) as i32,
            (base - pitch_corr) as i32,
        ],
{
    assert(quad_motors(seq![base, base, base, base], pitch_corr, 0) =~= seq![
        (base + pitch_corr) as i32,
        (base + pitch_corr) as i32,
        (base - pitch_corr) as i32,
        (base - pitch_corr) as i32,
    ]);
}

/// A saturated motor does not change what the others get: each motor's
/// command depends on its own sum alone.
pub proof fn lemma_limits_after_mixing(base: Seq<i32>, pitch_corr: int, roll_corr: int)
    requires
        base.len() == 4,
    ensures
        forall|i: int| 0 <= i < 4 ==> 0 <= #[trigger] quad_motors(base, pitch_corr, roll_corr)[i] <= UNIT,
        quad_motors(base, pitch_corr, roll_corr)[0] == clamp(
            base[0] + pitch_corr - roll_corr,
            0,
            UNIT as int,
        ),
        quad_motors(base, pitch_corr, roll_corr)[1] == clamp(
            base[1] + pitch_corr + roll_corr,
            0,
            UNIT as int,
        ),
        quad_motors(base, pitch_corr, roll_corr)[2] == clamp(
            base[2] - pitch_corr + roll_corr,
            0,
            UNIT as int,
        ),
        quad_motors(base, pitch_corr, roll_corr)[3] == clamp(
            base[3] - pitch_corr - roll_corr,
            0,
            UNIT as int,
        ),
{
}

} // verus!
