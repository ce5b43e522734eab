//! The operator's side of the radio link: which commands go out, how often
//! a failed send is repeated, and what comes back on the acknowledgement.

use vstd::prelude::*;
use crate::codec::{decode, decoded, encode, encoding, EncodingError, Message, MAX_PAYLOAD_LEN};
use crate::command::{Command, Status};

verus! {

/// Number of times that one command is sent before the link gives up.
pub const MAX_RETRIES: u8 = 10;

/// Pause between two attempts, in milliseconds.
pub const RETRY_DELAY_MS: u32 = 100;

/// What to do after an attempt to send.
#[derive(Clone, Copy, Debug, PartialEq, Eq, Structural)]
pub enum SendAction {
    /// The command arrived; take the next one from the queue.
    Done,
    /// Wait `delay_ms` milliseconds and send the same command again.
    Retry { delay_ms: u32 },
    /// Stop sending this command and throw away every command that waits
    /// in the queue.
    Drain,
}

/// What follows an attempt that ended as `delivered`, after `retries`
/// earlier attempts for the same command have failed.
pub open spec fn after_attempt(retries: int, delivered: bool) -> SendAction {
    if delivered {
        SendAction::Done
    } else if retries + 1 < MAX_RETRIES {
        SendAction::Retry { delay_ms: RETRY_DELAY_MS }
    } else {
        SendAction::Drain
    }
}

/// The telemetry record inside the payload of an acknowledgement, `None`
/// when the payload is no message or carries a command.
pub open spec fn payload_status(payload: Seq<u8>) -> Option<Status> {
    match decoded(payload) {
        Ok(msg) => msg.status(),
        Err(_) => None,
    }
}

/// The sending state of the operator's radio.
pub struct Radio {
    last_cmd: Command,
    retries: u8,
}

impl Radio {
    #[verifier::type_invariant]
    spec fn sound(&self) -> bool {
        self.retries < MAX_RETRIES
    }

    /// The command accepted last.
    pub closed spec fn last_cmd(&self) -> Command {
        self.last_cmd
    }

    /// Number of failed attempts for the command under way.
    pub closed spec fn retries(&self) -> int {
        self.retries as int
    }

    /// A radio that has last sent the neutral command.
    pub fn new() -> (radio: Radio)
        ensures
            radio.last_cmd() == (Command::Remote { roll: 0, pitch: 0, yaw: 0, thrust: 0 }),
            radio.retries() == 0,
    {
        Radio { last_cmd: Command::new(), retries: 0 }
    }

    /// Takes the next command from the queue. A command equal to the last
    /// one is skipped; any other becomes the command under way.
    pub fn accept(&mut self, cmd: Command) -> (out: Option<Command>)
        ensures
            cmd == old(self).last_cmd() ==> out is None && *final(self) == *old(self),
            cmd != old(self).last_cmd() ==> out == Some(cmd) && final(self).last_cmd() == cmd
                && final(self).retries() == 0,
    {
        proof {
            use_type_invariant(&*self);
        }
        if cmd == self.last_cmd {
            None
        } else {
            self.last_cmd = cmd;
            self.retries = 0;
            Some(cmd)
        }
    }

    /// Writes the frame for `cmd` into `buf`: the command with every field
    /// limited to its range, encoded. Returns the length of the frame.
    pub fn send(cmd: &Command, buf: &mut [u8]) -> (r: Result<usize, EncodingError>)
        ensures
            final(buf)@.len() == old(buf)@.len(),
            r is Ok <==> encoding(Message::of_command(cmd.limited())).len() <= old(buf)@.len(),
            r is Ok ==> r->Ok_0 == encoding(Message::of_command(cmd.limited())).len(),
            r is Ok ==> r->Ok_0 <= MAX_PAYLOAD_LEN && final(buf)@.take(r->Ok_0 as int) == encoding(
                Message::of_command(cmd.limited()),
            ),
            r is Ok ==> final(buf)@.skip(r->Ok_0 as int) == old(buf)@.skip(r->Ok_0 as int),
            r is Err ==> r == Err::<usize, EncodingError>(EncodingError::TooLarge) && final(buf)@
                == old(buf)@,
    {
        let limited = cmd.clamped();
        let msg = Message::from_command(&limited);
        encode(&msg, buf)
    }

    /// Records how an attempt to send ended and says what to do next.
    ///
    /// A delivered command ends the attempts. A failed one is repeated after
    /// a pause until [`MAX_RETRIES`] attempts have failed; then the queue is
    /// to be drained and the count starts anew.
    pub fn sent(&mut self, delivered: bool) -> (action: SendAction)
        ensures
            action == after_attempt(old(self).retries(), delivered),
            final(self).last_cmd() == old(self).last_cmd(),
            final(self).retries() == if action is Retry {
                old(self).retries() + 1
            } else {
                0
            },
    {
        proof {
            use_type_invariant(&*self);
        }
        if delivered {
            self.retries = 0;
            SendAction::Done
        } else if self.retries + 1 < MAX_RETRIES {
            self.retries = self.retries + 1;
            SendAction::Retry { delay_ms: RETRY_DELAY_MS }
        } else {
            self.retries = 0;
            SendAction::Drain
        }
    }

    /// Reads the telemetry record out of the payload of an acknowledgement.
    /// A payload that is none is skipped.
    pub fn ack(payload: &[u8]) -> (status: Option<Status>)
        ensures
            status == payload_status(payload@),
    {
        match decode(payload) {
            Ok(msg) => msg.as_status(),
            Err(_) => None,
        }
    }
}

/// Number of attempts made when every attempt from the `retries`-th failure
/// on fails too, up to and including the one that drains the queue.
pub open spec fn attempts_until_drain(retries: int) -> int
    decreases MAX_RETRIES - retries,
{
    if retries + 1 < MAX_RETRIES {
        1 + attempts_until_drain(retries + 1)
    } else {
        1
    }
}

/// A command whose every attempt fails is sent exactly [`MAX_RETRIES`]
/// times: the first nine failures ask for a retry, the tenth drains the queue.
pub proof fn lemma_bounded_retries()
    ensures
        attempts_until_drain(0) == MAX_RETRIES,
        forall|retries: int|
            0 <= retries < MAX_RETRIES - 1 ==> #[trigger] after_attempt(retries, false) == (
            SendAction::Retry { delay_ms: RETRY_DELAY_MS }),
        after_attempt(MAX_RETRIES - 1, false) == SendAction::Drain,
        forall|retries: int| #[trigger] after_attempt(retries, true) == SendAction::Done,
{
    reveal_with_fuel(attempts_until_drain, 11);
}

/// What goes out for a command comes back as the command with its fields
/// limited to their ranges.
pub proof fn lemma_sent_command_arrives(cmd: Command)
    ensures
        decoded(encoding(Message::of_command(cmd.limited()))) == Ok::<
            Message,
            crate::codec::DecodingError,
        >(Message::of_command(cmd.limited())),
        Message::of_command(cmd.limited()).command() == Some(cmd.limited()),
        cmd.in_range() ==> cmd.limited() == cmd,
{
    crate::codec::lemma_decode_encode(Message::of_command(cmd.limited()));
}

} // verus!
