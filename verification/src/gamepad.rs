//! Operator input from a gamepad: stick positions turned into commands.

use vstd::prelude::*;
use crate::command::Command;
use crate::fixed::magnitude;

verus! {

/// Stick deflections smaller than this count as zero.
pub const DEADZONE: i32 = 150;

/// A pose must differ by at least this much, rounded to hundredths, to
/// count as changed.
pub const MINIMAL_CHANGE_DIFF: i32 = 100;

/// `v` with everything strictly inside the deadzone snapped to zero; a
/// value on the edge is kept.
pub open spec fn rest_inside(v: int, deadzone: int) -> int {
    if magnitude(v) < deadzone {
        0
    } else {
        v
    }
}

/// A command with roll and pitch filtered by the deadzone. A debug command
/// has no sticks and stays as it is.
pub open spec fn with_deadzone(cmd: Command, deadzone: int) -> Command {
    match cmd {
        Command::Remote { roll, pitch, yaw, thrust } => Command::Remote {
            roll: rest_inside(roll as int, deadzone) as i32,
            pitch: rest_inside(pitch as int, deadzone) as i32,
            yaw,
            thrust,
        },
        Command::MotorDebug { .. } => cmd,
    }
}

/// `v` rounded to the nearest multiple of ten, halves away from zero.
pub open spec fn round_hundredths(v: int) -> int
    recommends
        v >= 0,
{
    (v + 5) / 10 * 10
}

/// Whether two stick values differ by at least `minimal_change_diff` once
/// the difference is rounded to hundredths.
pub open spec fn axis_changed(new: int, old: int, minimal_change_diff: int) -> bool {
    round_hundredths(magnitude(new - old)) >= minimal_change_diff
}

/// Whether a new command differs enough from the old one to be sent: for
/// two stick commands, roll or pitch has changed; otherwise, the commands differ.
pub open spec fn pose_changed(new_cmd: Command, old_cmd: Command, minimal_change_diff: int) -> bool {
    match (new_cmd, old_cmd) {
        (
            Command::Remote { roll: new_roll, pitch: new_pitch, .. },
            Command::Remote { roll: old_roll, pitch: old_pitch, .. },
        ) => axis_changed(new_roll as int, old_roll as int, minimal_change_diff) || axis_changed(
            new_pitch as int,
            old_pitch as int,
            minimal_change_diff,
        ),
        _ => new_cmd != old_cmd,
    }
}

/// Snaps one stick value to zero when it lies strictly inside the deadzone.
fn rest(v: i32, deadzone: i32) -> (r: i32)
    ensures
        r == rest_inside(v as int, deadzone as int),
{
    let wide: i64 = v as i64;
    let size: i64 = if wide < 0 {
        -wide
    } else {
        wide
    };
    if size < deadzone as i64 {
        0
    } else {
        v
    }
}

/// Tells whether one stick value has changed enough.
fn changed(new: i32, old: i32, minimal_change_diff: i32) -> (r: bool)
    ensures
        r == axis_changed(new as int, old as int, minimal_change_diff as int),
{
    let diff: i64 = new as i64 - old as i64;
    let size: i64 = if diff < 0 {
        -diff
    } else {
        diff
    };
    (size + 5) / 10 * 10 >= minimal_change_diff as i64
}

/// Filters roll and pitch of a command by the deadzone: a stick whose
/// magnitude is below `deadzone` becomes zero, any other stays as it is, and
/// so do yaw and thrust.
pub fn ensure_deadzone(cmd: Command, deadzone: i32) -> (out: Command)
    ensures
        out == with_deadzone(cmd, deadzone as int),
        with_deadzone(out, deadzone as int) == out,
{
    match cmd {
        Command::Remote { roll, pitch, yaw, thrust } => Command::Remote {
            roll: rest(roll, deadzone),
            pitch: rest(pitch, deadzone),
            yaw,
            thrust,
        },
        Command::MotorDebug { .. } => cmd,
    }
}

/// Tells whether `new_cmd` differs enough from `old_cmd` to be worth sending.
pub fn ensure_pose_changed(new_cmd: &Command, old_cmd: &Command, minimal_change_diff: i32) -> (r:
    bool)
    ensures
        r == pose_changed(*new_cmd, *old_cmd, minimal_change_diff as int),
{
    match (*new_cmd, *old_cmd) {
        (
            Command::Remote { roll: new_roll, pitch: new_pitch, .. },
            Command::Remote { roll: old_roll, pitch: old_pitch, .. },
        ) => changed(new_roll, old_roll, minimal_change_diff) || changed(
            new_pitch,
            old_pitch,
            minimal_change_diff,
        ),
        _ => *new_cmd != *old_cmd,
    }
}

/// The stick of the gamepad that moved.
#[derive(Clone, Copy, Debug, PartialEq, Eq, Structural)]
pub enum Axis {
    /// Left stick, forward and back: the pitch.
    LeftStickY,
    /// Left stick, left and right: the roll.
    LeftStickX,
    /// Any other axis; it is ignored.
    Other,
}

/// The command with the value of one stick replaced.
pub open spec fn with_axis(cmd: Command, axis: Axis, value: i32) -> Command {
    match cmd {
        Command::Remote { roll, pitch, yaw, thrust } => match axis {
            Axis::LeftStickY => Command::Remote { roll, pitch: value, yaw, thrust },
            Axis::LeftStickX => Command::Remote { roll: value, pitch, yaw, thrust },
            Axis::Other => cmd,
        },
        Command::MotorDebug { .. } => cmd,
    }
}

/// The stick state of a gamepad between two polls.
pub struct Gamepad {
    cmd: Command,
    new_cmd: Command,
}

impl Gamepad {
    /// The command sent last.
    pub closed spec fn sent(&self) -> Command {
        self.cmd
    }

    /// The command that the sticks ask for now.
    pub closed spec fn pending(&self) -> Command {
        self.new_cmd
    }

    /// A gamepad with centred sticks that has sent the neutral command.
    pub fn new() -> (pad: Gamepad)
        ensures
            pad.sent() == (Command::Remote { roll: 0, pitch: 0, yaw: 0, thrust: 0 }),
            pad.pending() == pad.sent(),
    {
        Gamepad { cmd: Command::new(), new_cmd: Command::new() }
    }

    /// Records that a stick has moved to `value`.
    pub fn axis_changed(&mut self, axis: Axis, value: i32)
        ensures
            final(self).sent() == old(self).sent(),
            final(self).pending() == with_axis(old(self).pending(), axis, value),
    {
        match self.new_cmd {
            Command::Remote { roll, pitch, yaw, thrust } => match axis {
                Axis::LeftStickY => {
                    self.new_cmd = Command::Remote { roll, pitch: value, yaw, thrust };
                },
                Axis::LeftStickX => {
                    self.new_cmd = Command::Remote { roll: value, pitch, yaw, thrust };
                },
                Axis::Other => {},
            },
            Command::MotorDebug { .. } => {},
        }
    }

    /// Ends a round of stick events: filters the pending command by the
    /// deadzone and returns it if it differs enough from the one sent last.
    pub fn run(&mut self) -> (out: Option<Command>)
        ensures
            final(self).pending() == with_deadzone(old(self).pending(), DEADZONE as int),
            pose_changed(final(self).pending(), old(self).sent(), MINIMAL_CHANGE_DIFF as int)
                ==> out == Some(final(self).pending()) && final(self).sent() == final(self).pending(),
            !pose_changed(final(self).pending(), old(self).sent(), MINIMAL_CHANGE_DIFF as int)
                ==> out is None && final(self).sent() == old(self).sent(),
    {
        self.new_cmd = ensure_deadzone(self.new_cmd, DEADZONE);
        if ensure_pose_changed(&self.new_cmd, &self.cmd, MINIMAL_CHANGE_DIFF) {
            self.cmd = self.new_cmd;
            Some(self.cmd)
        } else {
            None
        }
    }
}

/// Filtering a command that has passed the deadzone filter changes nothing.
pub proof fn lemma_deadzone_idempotent(cmd: Command, deadzone: int)
    ensures
        with_deadzone(with_deadzone(cmd, deadzone), deadzone) == with_deadzone(cmd, deadzone),
{
}

/// A command never counts as changed against itself when the threshold is
/// above zero.
pub proof fn lemma_same_pose_unchanged(cmd: Command, minimal_change_diff: int)
    requires
        minimal_change_diff > 0,
    ensures
        !pose_changed(cmd, cmd, minimal_change_diff),
{
}

} // verus!
