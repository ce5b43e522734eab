//! The periodic control task: the newest command, the link watchdog, and
//! one tick from attitude sample to motor output.

use vstd::prelude::*;
use crate::attitude::{held, AttitudeEstimate, AttitudeHold};
use crate::car::drive;
use crate::command::{Command, Direction, Status};
use crate::engine::{
    bridge_steps, engine_output, esc_duties, EngineOutput, EnginePwm, Step,
};
use crate::mixer::Mixer;

verus! {

/// The setpoint that asks for nothing.
pub open spec fn neutral() -> Command {
    Command::Remote { roll: 0, pitch: 0, yaw: 0, thrust: 0 }
}

/// Measures the time since the last command and tells when the link counts
/// as lost.
pub struct Watchdog {
    since_ms: u32,
    timeout_ms: u32,
}

impl Watchdog {
    /// Milliseconds since the last command; it stops counting at the
    /// largest value that 32 bits hold.
    pub closed spec fn since(&self) -> int {
        self.since_ms as int
    }

    /// The window in milliseconds within which a command must arrive.
    pub closed spec fn timeout(&self) -> int {
        self.timeout_ms as int
    }

    /// No command has arrived for longer than the window.
    pub open spec fn expired(&self) -> bool {
        self.since() > self.timeout()
    }

    /// The setpoint to act on: the given one while the link is alive, the
    /// neutral one once it is lost.
    pub open spec fn guarded(&self, setpoint: Command) -> Command {
        if self.expired() {
            neutral()
        } else {
            setpoint
        }
    }

    /// A watchdog that has just been fed.
    pub fn new(timeout_ms: u32) -> (dog: Watchdog)
        ensures
            dog.since() == 0,
            dog.timeout() == timeout_ms,
            !dog.expired(),
    {
        Watchdog { since_ms: 0, timeout_ms }
    }

    /// Records that a command has arrived.
    pub fn feed(&mut self)
        ensures
            final(self).since() == 0,
            final(self).timeout() == old(self).timeout(),
            !final(self).expired(),
    {
        self.since_ms = 0;
    }

    /// Records that `duration` milliseconds have passed.
    pub fn elapse(&mut self, duration: u32)
        ensures
            final(self).timeout() == old(self).timeout(),
            final(self).since() == if old(self).since() + duration > u32::MAX {
                u32::MAX as int
            } else {
                old(self).since() + duration
            },
            old(self).expired() ==> final(self).expired(),
    {
        self.since_ms = if duration > u32::MAX - self.since_ms {
            u32::MAX
        } else {
            self.since_ms + duration
        };
    }

    /// Tells whether the link counts as lost.
    pub fn is_expired(&self) -> (r: bool)
        ensures
            r == self.expired(),
    {
        self.since_ms > self.timeout_ms
    }

    /// Returns the setpoint to act on: `setpoint` itself while the link is
    /// alive, the neutral command once it is lost.
    pub fn guard(&self, setpoint: &Command) -> (cmd: Command)
        ensures
            cmd == self.guarded(*setpoint),
            self.expired() ==> cmd.at_rest(),
    {
        if self.is_expired() {
            Command::new()
        } else {
            *setpoint
        }
    }
}

/// The control task of a quadcopter.
pub struct Controller {
    setpoint: Command,
    watchdog: Watchdog,
    hold: AttitudeHold,
    mixer: Mixer,
    max_duty: u16,
}

impl Controller {
    /// The command received last.
    pub closed spec fn setpoint(&self) -> Command {
        self.setpoint
    }

    /// The link watchdog.
    pub closed spec fn watchdog(&self) -> Watchdog {
        self.watchdog
    }

    /// The attitude acted on last.
    pub closed spec fn attitude(&self) -> AttitudeEstimate {
        self.hold.last()
    }

    /// The mixer with its two controllers.
    pub closed spec fn mixer(&self) -> Mixer {
        self.mixer
    }

    /// The largest duty value of the motor timer.
    pub closed spec fn max_duty(&self) -> int {
        self.max_duty as int
    }

    /// A control task at rest: neutral setpoint, level attitude, a fed watchdog.
    pub fn new(mixer: Mixer, timeout_ms: u32, max_duty: u16) -> (ctl: Controller)
        ensures
            ctl.setpoint() == neutral(),
            ctl.watchdog().since() == 0,
            ctl.watchdog().timeout() == timeout_ms,
            ctl.attitude() == AttitudeEstimate::level(),
            ctl.mixer() == mixer,
            ctl.max_duty() == max_duty,
    {
        Controller {
            setpoint: Command::new(),
            watchdog: Watchdog::new(timeout_ms),
            hold: AttitudeHold::new(),
            mixer,
            max_duty,
        }
    }

    /// Takes a command from the command source: limited to its declared
    /// ranges it replaces the setpoint as a whole, and the watchdog is fed.
    pub fn on_command(&mut self, cmd: Command)
        ensures
            final(self).setpoint() == cmd.limited(),
            final(self).watchdog().since() == 0,
            final(self).watchdog().timeout() == old(self).watchdog().timeout(),
            final(self).attitude() == old(self).attitude(),
            final(self).mixer() == old(self).mixer(),
            final(self).max_duty() == old(self).max_duty(),
    {
        self.setpoint = cmd.clamped();
        self.watchdog.feed();
    }

    /// Runs one control period of `duration` milliseconds.
    ///
    /// `sample` is the estimator's output for this period, `None` when it
    /// has none that is a number. The watchdog advances first; once it has
    /// expired the mixer sees the neutral setpoint, whatever was received
    /// last, and every motor gets zero duty.
    pub fn tick(&mut self, sample: Option<AttitudeEstimate>, duration: u32) -> (out: EngineOutput)
        ensures
            final(self).setpoint() == old(self).setpoint(),
            final(self).max_duty() == old(self).max_duty(),
            final(self).watchdog().timeout() == old(self).watchdog().timeout(),
            final(self).watchdog().since() == if old(self).watchdog().since() + duration
                > u32::MAX {
                u32::MAX as int
            } else {
                old(self).watchdog().since() + duration
            },
            final(self).attitude() == held(old(self).attitude(), sample),
            final(self).mixer() == old(self).mixer().ticked(
                final(self).watchdog().guarded(old(self).setpoint()),
                final(self).attitude(),
                duration as int,
            ),
            out@ == engine_output(
                old(self).mixer().output(
                    final(self).watchdog().guarded(old(self).setpoint()),
                    final(self).attitude(),
                    duration as int,
                ),
                old(self).max_duty(),
            ),
            final(self).watchdog().expired() || old(self).setpoint().at_rest() ==> forall|i: int|
                0 <= i < 4 ==> #[trigger] out@[i] == 0,
            forall|i: int| 0 <= i < 4 ==> #[trigger] out@[i] <= old(self).max_duty(),
    {
        self.watchdog.elapse(duration);
        let attitude = self.hold.accept(sample);
        let effective = self.watchdog.guard(&self.setpoint);
        let motors = self.mixer.tick(&effective, &attitude, duration);
        esc_duties(&motors, self.max_duty)
    }

    /// The telemetry record for the attitude acted on last and a battery
    /// reading in millivolts.
    pub fn status(&self, battery: i32) -> (status: Status)
        ensures
            status == (Status {
                roll: self.attitude().roll,
                pitch: self.attitude().pitch,
                battery,
            }),
    {
        self.hold.status(battery)
    }
}

/// The control task of a rover.
pub struct Rover {
    setpoint: Command,
    watchdog: Watchdog,
    engines: EnginePwm,
}

impl Rover {
    /// The command received last.
    pub closed spec fn setpoint(&self) -> Command {
        self.setpoint
    }

    /// The link watchdog.
    pub closed spec fn watchdog(&self) -> Watchdog {
        self.watchdog
    }

    /// The motor driver.
    pub closed spec fn engines(&self) -> EnginePwm {
        self.engines
    }

    /// A control task at rest: neutral setpoint and a fed watchdog.
    pub fn new(engines: EnginePwm, timeout_ms: u32) -> (rover: Rover)
        ensures
            rover.setpoint() == neutral(),
            rover.watchdog().since() == 0,
            rover.watchdog().timeout() == timeout_ms,
            rover.engines() == engines,
    {
        Rover { setpoint: Command::new(), watchdog: Watchdog::new(timeout_ms), engines }
    }

    /// Takes a command from the command source: limited to its declared
    /// ranges it replaces the setpoint as a whole, and the watchdog is fed.
    pub fn on_command(&mut self, cmd: Command)
        ensures
            final(self).setpoint() == cmd.limited(),
            final(self).watchdog().since() == 0,
            final(self).watchdog().timeout() == old(self).watchdog().timeout(),
            final(self).engines() == old(self).engines(),
    {
        self.setpoint = cmd.clamped();
        self.watchdog.feed();
    }

    /// Runs one control period of `duration` milliseconds and says what to
    /// write to the hardware, `None` when the motors are to stay as they are.
    ///
    /// Once the watchdog has expired the motors are driven as the neutral
    /// setpoint demands: every one of them stops.
    pub fn tick(&mut self, duration: u32) -> (steps: Option<[Step; 6]>)
        ensures
            final(self).setpoint() == old(self).setpoint(),
            final(self).watchdog().timeout() == old(self).watchdog().timeout(),
            final(self).watchdog().since() == if old(self).watchdog().since() + duration
                > u32::MAX {
                u32::MAX as int
            } else {
                old(self).watchdog().since() + duration
            },
            final(self).engines().max_duty() == old(self).engines().max_duty(),
            final(self).engines().last() == drive(
                final(self).watchdog().guarded(old(self).setpoint()),
            ),
            final(self).engines().last() == old(self).engines().last() ==> steps is None,
            final(self).engines().last() != old(self).engines().last() ==> steps is Some
                && steps->0@ == bridge_steps(
                final(self).engines().last()[0],
                final(self).engines().last()[1],
                old(self).engines().max_duty(),
            ),
            final(self).watchdog().expired() || old(self).setpoint().at_rest() ==> forall|i: int|
                0 <= i < 4 ==> #[trigger] final(self).engines().last()[i] == Direction::Stop,
    {
        self.watchdog.elapse(duration);
        let effective = self.watchdog.guard(&self.setpoint);
        proof {
            if effective.at_rest() {
                lemma_rest_stops(effective);
            }
        }
        self.engines.update(&effective)
    }
}

/// A command at rest stops every motor of a rover.
pub proof fn lemma_rest_stops(cmd: Command)
    requires
        cmd.at_rest(),
    ensures
        drive(cmd) == seq![Direction::Stop, Direction::Stop, Direction::Stop, Direction::Stop],
{
    assert(drive(cmd) =~= seq![
        Direction::Stop,
        Direction::Stop,
        Direction::Stop,
        Direction::Stop,
    ]);
}

/// Once the link has timed out, the setpoint acted on is at rest whatever
/// was received last: a rover stops every motor and a quadcopter's mixer
/// turns every motor off.
pub proof fn lemma_timeout_stops(
    dog: Watchdog,
    last_received: Command,
    mixer: Mixer,
    attitude: AttitudeEstimate,
    duration: int,
    max_duty: int,
)
    requires
        dog.expired(),
    ensures
        dog.guarded(last_received).at_rest(),
        drive(dog.guarded(last_received)) == seq![
            Direction::Stop,
            Direction::Stop,
            Direction::Stop,
            Direction::Stop,
        ],
        mixer.output(dog.guarded(last_received), attitude, duration) == seq![0i32, 0i32, 0i32, 0i32],
        engine_output(mixer.output(dog.guarded(last_received), attitude, duration), max_duty)
            == seq![0u16, 0u16, 0u16, 0u16],
{
    lemma_rest_stops(dog.guarded(last_received));
    lemma_rest_is_off(dog.guarded(last_received), mixer, attitude, duration, max_duty);
}

/// A setpoint at rest turns every motor of a quadcopter off, whatever the
/// attitude and the state of the controllers.
pub proof fn lemma_rest_is_off(
    cmd: Command,
    mixer: Mixer,
    attitude: AttitudeEstimate,
    duration: int,
    max_duty: int,
)
    requires
        cmd.at_rest(),
    ensures
        mixer.output(cmd, attitude, duration) == seq![0i32, 0i32, 0i32, 0i32],
        engine_output(mixer.output(cmd, attitude, duration), max_duty) == seq![
            0u16,
            0u16,
            0u16,
            0u16,
        ],
{
    assert(engine_output(seq![0i32, 0i32, 0i32, 0i32], max_duty) =~= seq![0u16, 0u16, 0u16, 0u16]);
}

} // verus!
