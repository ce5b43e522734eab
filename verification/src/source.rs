//! Command sources on the vehicle: the packet radio, the USB console, and
//! the filter that keeps a repeated command from being delivered twice.

use vstd::prelude::*;
use crate::codec::{decode, decoded, encode, encoding, EncodingError, Message, MAX_PAYLOAD_LEN};
use crate::command::{Command, Status};
use crate::fixed::{trunc_div, UNIT};

verus! {

/// Suppresses a command that equals the one delivered just before it.
pub struct CommandFilter {
    last: Command,
}

impl CommandFilter {
    /// The command delivered last.
    pub closed spec fn last(&self) -> Command {
        self.last
    }

    /// A filter that has last seen the neutral command.
    pub fn new() -> (filter: CommandFilter)
        ensures
            filter.last() == (Command::Remote { roll: 0, pitch: 0, yaw: 0, thrust: 0 }),
    {
        CommandFilter { last: Command::new() }
    }

    /// Hands `cmd` on unless it equals the command handed on last.
    pub fn pass(&mut self, cmd: Command) -> (out: Option<Command>)
        ensures
            cmd == old(self).last() ==> out is None && *final(self) == *old(self),
            cmd != old(self).last() ==> out == Some(cmd) && final(self).last() == cmd,
    {
        if cmd == self.last {
            None
        } else {
            self.last = cmd;
            Some(cmd)
        }
    }
}

/// The same command offered twice in a row is delivered at most once.
pub proof fn lemma_repeat_suppressed(last: Command, cmd: Command)
    ensures
        passed(cmd, cmd) is None,
        passed(last, cmd) is Some <==> cmd != last,
{
}

/// What the filter hands on for `cmd` after `last`.
pub open spec fn passed(last: Command, cmd: Command) -> Option<Command> {
    if cmd == last {
        None
    } else {
        Some(cmd)
    }
}

/// The command inside a payload, `None` when the payload is no message or
/// carries telemetry.
pub open spec fn payload_command(payload: Seq<u8>) -> Option<Command> {
    match decoded(payload) {
        Ok(msg) => msg.command(),
        Err(_) => None,
    }
}

/// The result of one poll of the packet radio.
#[derive(Clone, Copy, Debug, PartialEq, Eq, Structural)]
pub struct Polled {
    /// A command that is new, if the poll brought one.
    pub command: Option<Command>,
    /// Whether the latest telemetry is to be loaded as the payload of the
    /// next acknowledgement before the poll returns.
    pub load_ack: bool,
}

/// The packet-radio command source.
///
/// After a reset the receive queue may hold payloads from before; they are
/// thrown away until the queue has been seen empty once. From then on every
/// payload is decoded, a command that repeats the last one is dropped, and
/// each received payload asks for a fresh acknowledgement payload.
pub struct PacketSource {
    filter: CommandFilter,
    draining: bool,
}

impl PacketSource {
    /// Whether stale payloads are still being thrown away.
    pub closed spec fn draining(&self) -> bool {
        self.draining
    }

    /// The command delivered last.
    pub closed spec fn last(&self) -> Command {
        self.filter.last()
    }

    /// What a poll returns for the head of the receive queue.
    pub open spec fn polled(&self, queued: Option<Seq<u8>>) -> Polled {
        if self.draining() || queued is None {
            Polled { command: None, load_ack: false }
        } else {
            Polled {
                command: match payload_command(queued->0) {
                    Some(cmd) => passed(self.last(), cmd),
                    None => None,
                },
                load_ack: true,
            }
        }
    }

    /// A source that first drains what the receive queue holds.
    pub fn new() -> (source: PacketSource)
        ensures
            source.draining(),
            source.last() == (Command::Remote { roll: 0, pitch: 0, yaw: 0, thrust: 0 }),
    {
        PacketSource { filter: CommandFilter::new(), draining: true }
    }

    /// Handles the head of the receive queue, `None` when the queue is empty.
    ///
    /// Never waits and never fails: a payload that is no command yields
    /// nothing and leaves the source as it was.
    pub fn poll(&mut self, queued: Option<&[u8]>) -> (r: Polled)
        ensures
            r == old(self).polled(
                match queued {
                    Some(payload) => Some(payload@),
                    None => None,
                },
            ),
            final(self).draining() == (old(self).draining() && queued is Some),
            r.command is Some ==> final(self).last() == r.command->0,
            r.command is None ==> final(self).last() == old(self).last(),
    {
        match queued {
            None => {
                self.draining = false;
                Polled { command: None, load_ack: false }
            },
            Some(payload) => {
                if self.draining {
                    return Polled { command: None, load_ack: false };
                }
                let command = match decode(payload) {
                    Ok(msg) => match msg.as_command() {
                        Some(cmd) => self.filter.pass(cmd),
                        None => None,
                    },
                    Err(_) => None,
                };
                Polled { command, load_ack: true }
            },
        }
    }
}

/// Writes the telemetry record that rides on the next acknowledgement.
pub fn ack_payload(status: &Status, buf: &mut [u8]) -> (r: Result<usize, EncodingError>)
    ensures
        final(buf)@.len() == old(buf)@.len(),
        r is Ok <==> encoding(Message::of_status(*status)).len() <= old(buf)@.len(),
        r is Ok ==> r->Ok_0 == encoding(Message::of_status(*status)).len(),
        r is Ok ==> r->Ok_0 <= MAX_PAYLOAD_LEN && final(buf)@.take(r->Ok_0 as int) == encoding(
            Message::of_status(*status),
        ),
        r is Ok ==> final(buf)@.skip(r->Ok_0 as int) == old(buf)@.skip(r->Ok_0 as int),
        r is Err ==> r == Err::<usize, EncodingError>(EncodingError::TooLarge) && final(buf)@
            == old(buf)@,
{
    let msg = Message::from_status(status);
    encode(&msg, buf)
}

/// The duty in thousandths that a byte of the USB console stands for.
pub open spec fn byte_duty(b: u8) -> int {
    trunc_div(b as int * UNIT, 255)
}

/// The debug command in a packet of the USB console: its first four bytes
/// are the duties of the four motors, 255 standing for 1.0. A shorter
/// packet carries nothing.
pub open spec fn packet_command(packet: Seq<u8>) -> Option<Command> {
    if packet.len() < 4 {
        None
    } else {
        Some(
            Command::MotorDebug {
                m1: byte_duty(packet[0]) as i32,
                m2: byte_duty(packet[1]) as i32,
                m3: byte_duty(packet[2]) as i32,
                m4: byte_duty(packet[3]) as i32,
            },
        )
    }
}

/// Reads a debug command out of a packet of the USB console.
pub fn poll_usb(packet: &[u8]) -> (cmd: Option<Command>)
    ensures
        cmd == packet_command(packet@),
        cmd is Some ==> cmd->0.in_range(),
{
    if packet.len() < 4 {
        return None;
    }
    Some(
        Command::MotorDebug {
            m1: (packet[0] as i32 * UNIT) / 255,
            m2: (packet[1] as i32 * UNIT) / 255,
            m3: (packet[2] as i32 * UNIT) / 255,
            m4: (packet[3] as i32 * UNIT) / 255,
        },
    )
}

/// A payload that does not decode leaves the source untouched, so the next
/// sound payload is handled as if the bad one had never arrived.
pub proof fn lemma_bad_payload_is_skipped(source: PacketSource, bad: Seq<u8>, good: Seq<u8>)
    requires
        !source.draining(),
        decoded(bad) is Err,
    ensures
        source.polled(Some(bad)).command is None,
        payload_command(good) is Some && payload_command(good)->0 != source.last()
            ==> source.polled(Some(good)).command == payload_command(good),
{
}

/// No proper prefix of an encoding decodes: a message cut short in transit
/// is never mistaken for a message.
pub proof fn lemma_truncated_is_rejected(msg: Message, len: int)
    requires
        0 <= len < encoding(msg).len(),
    ensures
        decoded(encoding(msg).take(len)) is Err,
        payload_command(encoding(msg).take(len)) is None,
{
    crate::codec::lemma_decode_encode(msg);
    let cut = encoding(msg).take(len);
    if len >= 2 {
        assert(cut[0] == encoding(msg)[0]);
        assert(cut[1] == encoding(msg)[1]);
    }
}

} // verus!
