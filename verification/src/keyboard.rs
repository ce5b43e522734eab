//! Operator input from a keyboard: arrow keys turned into commands.

use vstd::prelude::*;
use crate::command::Command;

verus! {

/// The pose that an arrow key held down asks for.
pub const SCALE_POSE: i32 = 300;

/// The pose that an arrow key pressed once asks for.
pub const KEY_POSE: i32 = 200;

/// After this many milliseconds without a key event the keys count as released.
pub const RELEASE_MS: u32 = 500;

/// The value of one axis for a pair of opposing keys.
pub open spec fn key_axis(positive: bool, negative: bool) -> int {
    if positive {
        SCALE_POSE as int
    } else if negative {
        -(SCALE_POSE as int)
    } else {
        0
    }
}

/// The command for the arrow keys held down: up and down drive the pitch,
/// left and right the roll. Opposing keys held together cancel everything.
pub open spec fn key_command(up: bool, down: bool, left: bool, right: bool) -> Command {
    if (up && down) || (left && right) {
        Command::Remote { roll: 0, pitch: 0, yaw: 0, thrust: 0 }
    } else {
        Command::Remote {
            roll: key_axis(left, right) as i32,
            pitch: key_axis(up, down) as i32,
            yaw: 0,
            thrust: 0,
        }
    }
}

/// Turns the arrow keys held down, in the order up, down, left, right, into a command.
pub fn keyboard_input(pressed: [bool; 4]) -> (cmd: Command)
    ensures
        cmd == key_command(pressed@[0], pressed@[1], pressed@[2], pressed@[3]),
        cmd.in_range(),
{
    let pose: (i32, i32) = match (pressed[0], pressed[1], pressed[2], pressed[3]) {
        (true, false, false, false) => (SCALE_POSE, 0),
        (false, true, false, false) => (-SCALE_POSE, 0),
        (false, false, true, false) => (0, SCALE_POSE),
        (false, false, false, true) => (0, -SCALE_POSE),
        (true, false, true, false) => (SCALE_POSE, SCALE_POSE),
        (true, false, false, true) => (SCALE_POSE, -SCALE_POSE),
        (false, true, true, false) => (-SCALE_POSE, SCALE_POSE),
        (false, true, false, true) => (-SCALE_POSE, -SCALE_POSE),
        _ => (0, 0),
    };
    Command::Remote { roll: pose.1, pitch: pose.0, yaw: 0, thrust: 0 }
}

/// A key event of the terminal.
#[derive(Clone, Copy, Debug, PartialEq, Eq, Structural)]
pub enum Key {
    Up,
    Down,
    Left,
    Right,
    /// Escape, or control with C or D: the operator leaves.
    Quit,
    /// Any other key.
    Other,
}

/// What to do after a key event.
#[derive(Clone, Copy, Debug, PartialEq, Eq, Structural)]
pub enum KeyAction {
    /// Nothing is to be sent.
    Nothing,
    /// Send the command.
    Send(Command),
    /// Send the neutral command and stop listening.
    Quit,
}

/// The command that a key asks for, given the command sent last: an arrow
/// key asks for its pose, any other key for what was sent last.
pub open spec fn key_target(key: Key, last: Command) -> Command {
    match key {
        Key::Up => Command::Remote { roll: 0, pitch: KEY_POSE, yaw: 0, thrust: 0 },
        Key::Down => Command::Remote { roll: 0, pitch: (-KEY_POSE) as i32, yaw: 0, thrust: 0 },
        Key::Left => Command::Remote { roll: (-KEY_POSE) as i32, pitch: 0, yaw: 0, thrust: 0 },
        Key::Right => Command::Remote { roll: KEY_POSE, pitch: 0, yaw: 0, thrust: 0 },
        _ => last,
    }
}

/// The state of a terminal keyboard, which reports key presses but no releases.
pub struct Keyboard {
    last_cmd: Command,
    idle_ms: u32,
}

impl Keyboard {
    /// The command sent last.
    pub closed spec fn last_cmd(&self) -> Command {
        self.last_cmd
    }

    /// Milliseconds since the last key event; it stops counting at the
    /// largest value that 32 bits hold.
    pub closed spec fn idle(&self) -> int {
        self.idle_ms as int
    }

    /// A keyboard that has sent the neutral command and has just seen a key.
    pub fn new() -> (keyboard: Keyboard)
        ensures
            keyboard.last_cmd() == (Command::Remote { roll: 0, pitch: 0, yaw: 0, thrust: 0 }),
            keyboard.idle() == 0,
    {
        Keyboard { last_cmd: Command::new(), idle_ms: 0 }
    }

    /// Handles a key event. A command is sent only when it differs from
    /// the one sent last.
    pub fn key(&mut self, key: Key) -> (action: KeyAction)
        ensures
            key is Quit ==> action is Quit && *final(self) == *old(self),
            !(key is Quit) ==> {
                &&& final(self).idle() == 0
                &&& final(self).last_cmd() == key_target(key, old(self).last_cmd())
                &&& action == if key_target(key, old(self).last_cmd()) == old(self).last_cmd() {
                    KeyAction::Nothing
                } else {
                    KeyAction::Send(key_target(key, old(self).last_cmd()))
                }
            },
    {
        let cmd = match key {
            Key::Quit => {
                return KeyAction::Quit;
            },
            Key::Up => Command::Remote { roll: 0, pitch: KEY_POSE, yaw: 0, thrust: 0 },
            Key::Down => Command::Remote { roll: 0, pitch: -KEY_POSE, yaw: 0, thrust: 0 },
            Key::Left => Command::Remote { roll: -KEY_POSE, pitch: 0, yaw: 0, thrust: 0 },
            Key::Right => Command::Remote { roll: KEY_POSE, pitch: 0, yaw: 0, thrust: 0 },
            Key::Other => self.last_cmd,
        };
        self.idle_ms = 0;
        if cmd != self.last_cmd {
            self.last_cmd = cmd;
            KeyAction::Send(cmd)
        } else {
            KeyAction::Nothing
        }
    }

    /// Records that `duration` milliseconds have passed without a key
    /// event. Once more than [`RELEASE_MS`] have passed the keys count as
    /// released: the neutral command is sent, unless it was sent last.
    pub fn elapsed(&mut self, duration: u32) -> (out: Option<Command>)
        ensures
            final(self).idle() == if old(self).idle() + duration > u32::MAX {
                u32::MAX as int
            } else {
                old(self).idle() + duration
            },
            final(self).idle() > RELEASE_MS && !old(self).last_cmd().at_rest_sticks() ==> out
                == Some(Command::Remote { roll: 0, pitch: 0, yaw: 0, thrust: 0 })
                && final(self).last_cmd() == out->0,
            !(final(self).idle() > RELEASE_MS && !old(self).last_cmd().at_rest_sticks())
                ==> out is None && final(self).last_cmd() == old(self).last_cmd(),
    {
        self.idle_ms = if duration > u32::MAX - self.idle_ms {
            u32::MAX
        } else {
            self.idle_ms + duration
        };
        if self.idle_ms > RELEASE_MS && self.last_cmd != Command::new() {
            self.last_cmd = Command::new();
            Some(self.last_cmd)
        } else {
            None
        }
    }
}

} // verus!
