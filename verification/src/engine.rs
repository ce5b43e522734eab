//! The motor output driver: from commanded fractions to hardware duty values
//! and the order in which pins and duty registers are written.

use vstd::prelude::*;
use crate::car::{drive, Car};
use crate::command::{Command, Direction};
use crate::fixed::{clamp, trunc_div, UNIT};

verus! {

/// The smallest duty that makes a motor driver react. A commanded fraction
/// above zero never maps below it; zero stays a true "off".
pub const MINIMAL_DUTY: u16 = 150;

/// The hardware duty for a commanded fraction in thousandths: zero for zero,
/// otherwise the fraction of the span above [`MINIMAL_DUTY`], plus that
/// floor, limited to `max_duty`.
pub open spec fn duty_for(fraction: int, max_duty: int) -> int {
    if fraction == 0 {
        0
    } else {
        clamp(
            trunc_div((max_duty - MINIMAL_DUTY) * fraction, UNIT as int) + MINIMAL_DUTY,
            0,
            max_duty,
        )
    }
}

/// Maps a commanded fraction in thousandths to a hardware duty value.
pub fn scale_duty(fraction: u16, max_duty: u16) -> (duty: u16)
    ensures
        duty == duty_for(fraction as int, max_duty as int),
        duty <= max_duty,
        fraction == 0 ==> duty == 0,
        fraction > 0 && max_duty >= MINIMAL_DUTY ==> duty >= MINIMAL_DUTY,
{
    if fraction == 0 {
        return 0;
    }
    let span: i64 = max_duty as i64 - MINIMAL_DUTY as i64;
    let part: i64 = fraction as i64;
    assert(-150 * 65535 <= span * part <= 65535 * 65535) by (nonlinear_arith)
        requires
            -150 <= span <= 65535,
            0 <= part <= 65535,
    ;
    let raised: i64 = (span * part) / (UNIT as i64) + MINIMAL_DUTY as i64;
    proof {
        if span >= 0 {
            assert(span * part >= 0) by (nonlinear_arith)
                requires
                    span >= 0,
                    part >= 0,
            ;
        }
    }
    if raised < 0 {
        0
    } else if raised > max_duty as i64 {
        max_duty
    } else {
        raised as u16
    }
}

/// The duty values of the four motors in hardware units, computed together
/// on every tick.
pub type EngineOutput = [u16; 4];

/// The duty values of four speed controllers for four commanded fractions.
/// Fractions outside 0.0 to 1.0 are limited first.
pub open spec fn engine_output(thrust: Seq<i32>, max_duty: int) -> Seq<u16>
    recommends
        thrust.len() == 4,
{
    Seq::new(4, |i: int| duty_for(clamp(thrust[i] as int, 0, UNIT as int), max_duty) as u16)
}

/// Computes all four duty values of a quadcopter from the commanded
/// fractions, so that the caller can write them together.
pub fn esc_duties(thrust: &[i32; 4], max_duty: u16) -> (out: EngineOutput)
    ensures
        out@ == engine_output(thrust@, max_duty as int),
        forall|i: int| 0 <= i < 4 ==> #[trigger] out@[i] <= max_duty,
        forall|i: int| 0 <= i < 4 && thrust@[i] <= 0 ==> #[trigger] out@[i] == 0,
{
    let mut out: [u16; 4] = [0, 0, 0, 0];
    let mut i: usize = 0;
    while i < 4
        invariant
            0 <= i <= 4,
            forall|k: int|
                0 <= k < i ==> #[trigger] out@[k] == duty_for(
                    clamp(thrust@[k] as int, 0, UNIT as int),
                    max_duty as int,
                ),
            forall|k: int| 0 <= k < i ==> #[trigger] out@[k] <= max_duty,
        decreases 4 - i,
    {
        let t: i32 = thrust[i];
        let fraction: u16 = if t < 0 {
            0
        } else if t > UNIT {
            UNIT as u16
        } else {
            t as u16
        };
        out[i] = scale_duty(fraction, max_duty);
        i += 1;
    }
    assert(out@ =~= engine_output(thrust@, max_duty as int));
    out
}

/// One of the two inputs of an H-bridge.
#[derive(Clone, Copy, Debug, PartialEq, Eq, Structural)]
pub enum Pin {
    A,
    B,
}

/// One write to the hardware.
#[derive(Clone, Copy, Debug, PartialEq, Eq, Structural)]
pub enum Step {
    /// Drive a direction pin of a motor high or low.
    SetPin { motor: u8, pin: Pin, high: bool },
    /// Write the duty register of a motor.
    SetDuty { motor: u8, duty: u16 },
    /// Switch the output of a motor's channel on.
    Enable { motor: u8 },
}

/// Level of pin A for a direction: high only when driving forward.
pub open spec fn pin_a(dir: Direction) -> bool {
    dir is Forward
}

/// Level of pin B for a direction: high only when driving backward.
pub open spec fn pin_b(dir: Direction) -> bool {
    dir is Backward
}

/// The writes that put two H-bridge motors into the given directions:
/// all four direction pins first, then the two duty registers.
pub open spec fn bridge_steps(left: Direction, right: Direction, max_duty: int) -> Seq<Step> {
    seq![
        Step::SetPin { motor: 0, pin: Pin::A, high: pin_a(left) },
        Step::SetPin { motor: 0, pin: Pin::B, high: pin_b(left) },
        Step::SetPin { motor: 1, pin: Pin::A, high: pin_a(right) },
        Step::SetPin { motor: 1, pin: Pin::B, high: pin_b(right) },
        Step::SetDuty { motor: 0, duty: duty_for(left.duty(), max_duty) as u16 },
        Step::SetDuty { motor: 1, duty: duty_for(right.duty(), max_duty) as u16 },
    ]
}

/// The writes that bring the outputs up safely: zero duty on both channels,
/// and only then the channels are switched on.
pub open spec fn startup_steps() -> Seq<Step> {
    seq![
        Step::SetDuty { motor: 0, duty: 0 },
        Step::SetDuty { motor: 1, duty: 0 },
        Step::Enable { motor: 0 },
        Step::Enable { motor: 1 },
    ]
}

/// The writes that bring four speed controllers up safely: zero duty on
/// every channel, and only then the channels are switched on.
pub open spec fn esc_startup_steps() -> Seq<Step> {
    Seq::new(
        8,
        |i: int|
            if i < 4 {
                Step::SetDuty { motor: i as u8, duty: 0 }
            } else {
                Step::Enable { motor: (i - 4) as u8 }
            },
    )
}

/// The writes that hand four duty values to four speed controllers.
pub open spec fn esc_steps(duties: Seq<u16>) -> Seq<Step>
    recommends
        duties.len() == 4,
{
    Seq::new(4, |i: int| Step::SetDuty { motor: i as u8, duty: duties[i] })
}

/// Driver of four speed controllers behind one timer.
pub struct EscPwm {
    max_duty: u16,
}

impl EscPwm {
    /// The largest duty value of the timer.
    pub closed spec fn max_duty(&self) -> int {
        self.max_duty as int
    }

    /// Makes the driver and the writes that start the hardware: all four
    /// duty registers are zeroed before any channel is enabled.
    pub fn init(max_duty: u16) -> (r: (EscPwm, [Step; 8]))
        ensures
            r.0.max_duty() == max_duty,
            r.1@ == esc_startup_steps(),
    {
        let steps = [
            Step::SetDuty { motor: 0, duty: 0 },
            Step::SetDuty { motor: 1, duty: 0 },
            Step::SetDuty { motor: 2, duty: 0 },
            Step::SetDuty { motor: 3, duty: 0 },
            Step::Enable { motor: 0 },
            Step::Enable { motor: 1 },
            Step::Enable { motor: 2 },
            Step::Enable { motor: 3 },
        ];
        assert(steps@ =~= esc_startup_steps());
        (EscPwm { max_duty }, steps)
    }

    /// The largest duty value of the timer.
    pub fn get_max_duty(&self) -> (max: u16)
        ensures
            max == self.max_duty(),
    {
        self.max_duty
    }

    /// The writes for four commanded fractions in thousandths, one per motor.
    pub fn update(&self, thrust: &[i32; 4]) -> (steps: [Step; 4])
        ensures
            steps@ == esc_steps(engine_output(thrust@, self.max_duty())),
    {
        let duties = esc_duties(thrust, self.max_duty);
        let steps = [
            Step::SetDuty { motor: 0, duty: duties[0] },
            Step::SetDuty { motor: 1, duty: duties[1] },
            Step::SetDuty { motor: 2, duty: duties[2] },
            Step::SetDuty { motor: 3, duty: duties[3] },
        ];
        assert(steps@ =~= esc_steps(engine_output(thrust@, self.max_duty())));
        steps
    }
}

/// Sameness of two motor assignments, slot by slot.
pub fn same_directions(a: &[Direction; 4], b: &[Direction; 4]) -> (same: bool)
    ensures
        same == (a@ == b@),
{
    let same = a[0] == b[0] && a[1] == b[1] && a[2] == b[2] && a[3] == b[3];
    proof {
        if same {
            assert(a@ =~= b@);
        }
    }
    same
}

/// Driver of two H-bridge motors behind one timer.
///
/// It remembers what it last wrote and stays silent while the mixed
/// directions do not change.
pub struct EnginePwm {
    motor_driver: Car,
    max_duty: u16,
    last: [Direction; 4],
}

impl EnginePwm {
    /// The directions last handed to the hardware.
    pub closed spec fn last(&self) -> Seq<Direction> {
        self.last@
    }

    /// The largest duty value of the timer.
    pub closed spec fn max_duty(&self) -> int {
        self.max_duty as int
    }

    /// Makes the driver and the writes that start the hardware: both duty
    /// registers are zeroed before either channel is enabled.
    pub fn init(motor_driver: Car, max_duty: u16) -> (r: (EnginePwm, [Step; 4]))
        ensures
            r.0.last() == seq![Direction::Stop, Direction::Stop, Direction::Stop, Direction::Stop],
            r.0.max_duty() == max_duty,
            r.1@ == startup_steps(),
    {
        let steps = [
            Step::SetDuty { motor: 0, duty: 0 },
            Step::SetDuty { motor: 1, duty: 0 },
            Step::Enable { motor: 0 },
            Step::Enable { motor: 1 },
        ];
        let last = [Direction::Stop, Direction::Stop, Direction::Stop, Direction::Stop];
        assert(steps@ =~= startup_steps());
        assert(last@ =~= seq![
            Direction::Stop,
            Direction::Stop,
            Direction::Stop,
            Direction::Stop,
        ]);
        (EnginePwm { motor_driver, max_duty, last }, steps)
    }

    /// The largest duty value of the timer.
    pub fn get_max_duty(&self) -> (max: u16)
        ensures
            max == self.max_duty(),
    {
        self.max_duty
    }

    /// The two duty writes for the magnitudes of the left and right motor.
    pub fn set_duty(&self, duty: [u16; 2]) -> (steps: [Step; 2])
        ensures
            steps@ == seq![
                Step::SetDuty { motor: 0, duty: duty_for(duty@[0] as int, self.max_duty()) as u16 },
                Step::SetDuty { motor: 1, duty: duty_for(duty@[1] as int, self.max_duty()) as u16 },
            ],
    {
        let steps = [
            Step::SetDuty { motor: 0, duty: scale_duty(duty[0], self.max_duty) },
            Step::SetDuty { motor: 1, duty: scale_duty(duty[1], self.max_duty) },
        ];
        assert(steps@ =~= seq![
            Step::SetDuty { motor: 0, duty: duty_for(duty@[0] as int, self.max_duty()) as u16 },
            Step::SetDuty { motor: 1, duty: duty_for(duty@[1] as int, self.max_duty()) as u16 },
        ]);
        steps
    }

    /// Mixes a command and says what to write to the hardware.
    ///
    /// When the mixed directions equal the last ones, nothing is to be
    /// written. Otherwise the result lists six writes in the order in which
    /// they must happen: the direction pins of both motors, then the duties.
    pub fn update(&mut self, cmd: &Command) -> (steps: Option<[Step; 6]>)
        ensures
            final(self).max_duty() == old(self).max_duty(),
            final(self).last() == drive(*cmd),
            drive(*cmd) == old(self).last() ==> steps is None,
            drive(*cmd) != old(self).last() ==> steps is Some && steps->0@ == bridge_steps(
                drive(*cmd)[0],
                drive(*cmd)[1],
                old(self).max_duty(),
            ),
    {
        let directions = self.motor_driver.update(cmd);
        if same_directions(&directions, &self.last) {
            return None;
        }
        self.last = directions;
        let left = directions[0];
        let right = directions[1];
        let duties = self.set_duty([left.magnitude(), right.magnitude()]);
        let steps = [
            Step::SetPin { motor: 0, pin: Pin::A, high: matches!(left, Direction::Forward(_)) },
            Step::SetPin { motor: 0, pin: Pin::B, high: matches!(left, Direction::Backward(_)) },
            Step::SetPin { motor: 1, pin: Pin::A, high: matches!(right, Direction::Forward(_)) },
            Step::SetPin { motor: 1, pin: Pin::B, high: matches!(right, Direction::Backward(_)) },
            duties[0],
            duties[1],
        ];
        assert(steps@ =~= bridge_steps(left, right, self.max_duty as int));
        Some(steps)
    }
}

/// In the writes for two H-bridge motors every direction pin is set before
/// any duty register is written, and both pins of a motor are never high together.
pub proof fn lemma_pins_before_duty(left: Direction, right: Direction, max_duty: int)
    ensures
        forall|i: int, j: int|
            0 <= i < 6 && 0 <= j < 6 && (#[trigger] bridge_steps(left, right, max_duty)[i]) is SetPin
                && (#[trigger] bridge_steps(left, right, max_duty)[j]) is SetDuty ==> i < j,
        !(pin_a(left) && pin_b(left)),
        !(pin_a(right) && pin_b(right)),
        left is Stop ==> !pin_a(left) && !pin_b(left),
{
}

/// In the start-up writes, of two motors or of four speed controllers,
/// every duty register is zeroed before any channel is enabled.
pub proof fn lemma_zero_before_enable()
    ensures
        forall|i: int, j: int|
            0 <= i < 4 && 0 <= j < 4 && (#[trigger] startup_steps()[i]) is SetDuty
                && (#[trigger] startup_steps()[j]) is Enable ==> i < j && startup_steps()[i]
                == (Step::SetDuty { motor: startup_steps()[i]->SetDuty_motor, duty: 0 }),
        forall|i: int, j: int|
            0 <= i < 8 && 0 <= j < 8 && (#[trigger] esc_startup_steps()[i]) is SetDuty
                && (#[trigger] esc_startup_steps()[j]) is Enable ==> i < j && esc_startup_steps()[i]
                == (Step::SetDuty { motor: esc_startup_steps()[i]->SetDuty_motor, duty: 0 }),
{
}

/// A stopped motor gets zero duty and both pins low; a driven motor with a
/// timer range above the floor gets at least the floor.
pub proof fn lemma_duty_floor(fraction: int, max_duty: int)
    requires
        0 <= fraction <= UNIT,
        0 <= max_duty,
    ensures
        duty_for(0, max_duty) == 0,
        0 <= duty_for(fraction, max_duty) <= max_duty,
        fraction > 0 && max_duty >= MINIMAL_DUTY ==> duty_for(fraction, max_duty) >= MINIMAL_DUTY,
        max_duty >= MINIMAL_DUTY ==> duty_for(UNIT as int, max_duty) == max_duty,
{
    if max_duty >= MINIMAL_DUTY {
        assert((max_duty - MINIMAL_DUTY) * fraction >= 0) by (nonlinear_arith)
            requires
                max_duty - MINIMAL_DUTY >= 0,
                fraction >= 0,
        ;
        assert((max_duty - MINIMAL_DUTY) * 1000 / 1000 == max_duty - MINIMAL_DUTY);
    }
}

} // verus!
