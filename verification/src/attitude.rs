//! The attitude estimate as the control loop sees it, and the guard that
//! keeps a degenerate estimate from reaching the mixer.

use vstd::prelude::*;
use crate::command::Status;
use crate::fixed::trunc_div;

verus! {

/// The battery voltage in millivolts for a raw reading of the converter:
/// `raw * 996 / 274.4`, rounded toward zero.
pub open spec fn battery_of(raw: int) -> int {
    trunc_div(raw * 9960, 2744)
}

/// Converts a raw reading of the battery's converter to millivolts.
pub fn battery_millivolts(raw: u16) -> (millivolts: i32)
    ensures
        millivolts == battery_of(raw as int),
        0 <= millivolts <= 237_874,
{
    (raw as i32 * 9960) / 2744
}

/// Largest magnitude of a plausible angle, in millidegrees.
pub const ANGLE_LIMIT: i32 = 180_000;

/// Orientation in millidegrees and the last angular rates in millidegrees
/// per second. Yaw is not observable without a magnetometer and carries no
/// information.
#[derive(Clone, Copy, Debug, PartialEq, Eq, Structural)]
pub struct AttitudeEstimate {
    pub roll: i32,
    pub pitch: i32,
    pub yaw: i32,
    pub roll_rate: i32,
    pub pitch_rate: i32,
    pub yaw_rate: i32,
}

impl AttitudeEstimate {
    /// All three angles lie between -180 and 180 degrees.
    pub open spec fn plausible(self) -> bool {
        &&& -(ANGLE_LIMIT as int) <= self.roll <= ANGLE_LIMIT as int
        &&& -(ANGLE_LIMIT as int) <= self.pitch <= ANGLE_LIMIT as int
        &&& -(ANGLE_LIMIT as int) <= self.yaw <= ANGLE_LIMIT as int
    }

    /// The level attitude at rest.
    pub open spec fn level() -> AttitudeEstimate {
        AttitudeEstimate { roll: 0, pitch: 0, yaw: 0, roll_rate: 0, pitch_rate: 0, yaw_rate: 0 }
    }

    /// Tells whether all three angles lie between -180 and 180 degrees.
    pub fn is_plausible(&self) -> (r: bool)
        ensures
            r == self.plausible(),
    {
        -ANGLE_LIMIT <= self.roll && self.roll <= ANGLE_LIMIT && -ANGLE_LIMIT <= self.pitch
            && self.pitch <= ANGLE_LIMIT && -ANGLE_LIMIT <= self.yaw && self.yaw <= ANGLE_LIMIT
    }
}

/// What the guard hands on for a sample: the sample if there is one and it
/// is plausible, else the last estimate that was.
pub open spec fn held(last: AttitudeEstimate, sample: Option<AttitudeEstimate>) -> AttitudeEstimate {
    if sample is Some && sample->0.plausible() {
        sample->0
    } else {
        last
    }
}

/// Keeps the last valid estimate and substitutes it whenever the estimator
/// has nothing sound to offer.
pub struct AttitudeHold {
    last: AttitudeEstimate,
}

impl AttitudeHold {
    #[verifier::type_invariant]
    spec fn sound(&self) -> bool {
        self.last.plausible()
    }

    /// The last valid estimate.
    pub closed spec fn last(&self) -> AttitudeEstimate {
        self.last
    }

    /// A guard that holds the level attitude until the first valid sample.
    pub fn new() -> (hold: AttitudeHold)
        ensures
            hold.last() == AttitudeEstimate::level(),
    {
        AttitudeHold {
            last: AttitudeEstimate {
                roll: 0,
                pitch: 0,
                yaw: 0,
                roll_rate: 0,
                pitch_rate: 0,
                yaw_rate: 0,
            },
        }
    }

    /// Takes the estimator's output of this tick, `None` when it had none
    /// that is a number, and returns the estimate to act on.
    pub fn accept(&mut self, sample: Option<AttitudeEstimate>) -> (estimate: AttitudeEstimate)
        ensures
            estimate == held(old(self).last(), sample),
            final(self).last() == estimate,
            estimate.plausible(),
    {
        proof {
            use_type_invariant(&*self);
        }
        match sample {
            Some(s) => {
                if s.is_plausible() {
                    self.last = s;
                }
            },
            None => {},
        }
        self.last
    }

    /// The estimate to act on, without a new sample.
    pub fn current(&self) -> (estimate: AttitudeEstimate)
        ensures
            estimate == self.last(),
            estimate.plausible(),
    {
        proof {
            use_type_invariant(self);
        }
        self.last
    }

    /// The telemetry record for the held attitude and a battery reading in millivolts.
    pub fn status(&self, battery: i32) -> (status: Status)
        ensures
            status == (Status { roll: self.last().roll, pitch: self.last().pitch, battery }),
    {
        Status { roll: self.last.roll, pitch: self.last.pitch, battery }
    }
}

} // verus!
