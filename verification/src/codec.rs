//! The link codec: messages to and from a bounded byte buffer.
//!
//! A message on the wire is a version byte, a kind byte, and then one entry
//! per field: the field's tag (its position, counted from one) followed by
//! the value as four bytes, most significant first, in two's complement.
//! Every message has one encoding and every accepted byte string is the
//! encoding of one message.

use vstd::prelude::*;
use crate::command::{Command, Status};

verus! {

/// The largest payload that the transport carries.
pub const MAX_PAYLOAD_LEN: usize = 32;

/// The schema version written into, and expected in, the first byte.
pub const WIRE_VERSION: u8 = 1;

/// Kind byte of an attitude and thrust setpoint.
pub const KIND_COMMAND: u8 = 1;

/// Kind byte of a per-motor duty request.
pub const KIND_MOTOR_DEBUG: u8 = 2;

/// Kind byte of a telemetry record.
pub const KIND_STATUS: u8 = 3;

/// What travels over the link. All fields are thousandths.
#[derive(Clone, Copy, Debug, PartialEq, Eq, Structural)]
pub enum Message {
    Command { roll: i32, pitch: i32, yaw: i32, thrust: i32 },
    MotorDebug { m1: i32, m2: i32, m3: i32, m4: i32 },
    Status { roll: i32, pitch: i32, battery: i32 },
}

/// Why a message could not be written.
#[derive(Clone, Copy, Debug, PartialEq, Eq, Structural)]
pub enum EncodingError {
    /// The encoding is longer than the buffer or than the transport's payload.
    TooLarge,
}

/// Why a byte string is not a message.
#[derive(Clone, Copy, Debug, PartialEq, Eq, Structural)]
pub enum DecodingError {
    /// The input ends before the header or before the last field.
    Truncated,
    /// The first byte is not the schema version that this codec speaks.
    Version,
    /// The kind byte names no known message.
    Kind,
    /// Bytes follow the last field.
    Trailing,
    /// A field does not carry the tag of its position.
    Tag,
}

/// The unsigned 32-bit number with the same bits as `v`.
pub open spec fn word_of(v: i32) -> int {
    if v < 0 {
        v + 0x1_0000_0000
    } else {
        v as int
    }
}

/// Byte `j` of the four bytes of `v`, most significant first.
pub open spec fn word_byte(v: i32, j: int) -> u8
    recommends
        0 <= j < 4,
{
    if j == 0 {
        (word_of(v) / 0x100_0000) as u8
    } else if j == 1 {
        (word_of(v) / 0x1_0000 % 0x100) as u8
    } else if j == 2 {
        (word_of(v) / 0x100 % 0x100) as u8
    } else {
        (word_of(v) % 0x100) as u8
    }
}

/// The signed number that four bytes, most significant first, stand for.
pub open spec fn word_value(b0: u8, b1: u8, b2: u8, b3: u8) -> i32 {
    let word = b0 as int * 0x100_0000 + b1 as int * 0x1_0000 + b2 as int * 0x100 + b3 as int;
    if word >= 0x8000_0000 {
        (word - 0x1_0000_0000) as i32
    } else {
        word as i32
    }
}

/// Number of fields of the message kind, or `None` for an unknown kind.
pub open spec fn field_count(kind: u8) -> Option<nat> {
    if kind == KIND_COMMAND || kind == KIND_MOTOR_DEBUG {
        Some(4nat)
    } else if kind == KIND_STATUS {
        Some(3nat)
    } else {
        None
    }
}

impl Message {
    /// The kind byte of the message.
    pub open spec fn kind(self) -> u8 {
        match self {
            Message::Command { .. } => KIND_COMMAND,
            Message::MotorDebug { .. } => KIND_MOTOR_DEBUG,
            Message::Status { .. } => KIND_STATUS,
        }
    }

    /// The field values in wire order.
    pub open spec fn values(self) -> Seq<i32> {
        match self {
            Message::Command { roll, pitch, yaw, thrust } => seq![roll, pitch, yaw, thrust],
            Message::MotorDebug { m1, m2, m3, m4 } => seq![m1, m2, m3, m4],
            Message::Status { roll, pitch, battery } => seq![roll, pitch, battery],
        }
    }

    /// The message of a known kind with the given field values.
    pub open spec fn assemble(kind: u8, values: Seq<i32>) -> Message
        recommends
            field_count(kind) == Some(values.len()),
    {
        if kind == KIND_COMMAND {
            Message::Command {
                roll: values[0],
                pitch: values[1],
                yaw: values[2],
                thrust: values[3],
            }
        } else if kind == KIND_MOTOR_DEBUG {
            Message::MotorDebug { m1: values[0], m2: values[1], m3: values[2], m4: values[3] }
        } else {
            Message::Status { roll: values[0], pitch: values[1], battery: values[2] }
        }
    }

    /// The message that carries a setpoint.
    pub open spec fn of_command(cmd: Command) -> Message {
        match cmd {
            Command::Remote { roll, pitch, yaw, thrust } => Message::Command {
                roll,
                pitch,
                yaw,
                thrust,
            },
            Command::MotorDebug { m1, m2, m3, m4 } => Message::MotorDebug { m1, m2, m3, m4 },
        }
    }

    /// The message that carries a telemetry record.
    pub open spec fn of_status(status: Status) -> Message {
        Message::Status { roll: status.roll, pitch: status.pitch, battery: status.battery }
    }

    /// The setpoint that the message carries, if it carries one.
    pub open spec fn command(self) -> Option<Command> {
        match self {
            Message::Command { roll, pitch, yaw, thrust } => Some(
                Command::Remote { roll, pitch, yaw, thrust },
            ),
            Message::MotorDebug { m1, m2, m3, m4 } => Some(Command::MotorDebug { m1, m2, m3, m4 }),
            Message::Status { .. } => None,
        }
    }

    /// The telemetry record that the message carries, if it carries one.
    pub open spec fn status(self) -> Option<Status> {
        match self {
            Message::Status { roll, pitch, battery } => Some(Status { roll, pitch, battery }),
            _ => None,
        }
    }

    /// Wraps a setpoint for the wire.
    pub fn from_command(cmd: &Command) -> (msg: Message)
        ensures
            msg == Message::of_command(*cmd),
            msg.command() == Some(*cmd),
    {
        match *cmd {
            Command::Remote { roll, pitch, yaw, thrust } => Message::Command {
                roll,
                pitch,
                yaw,
                thrust,
            },
            Command::MotorDebug { m1, m2, m3, m4 } => Message::MotorDebug { m1, m2, m3, m4 },
        }
    }

    /// Wraps a telemetry record for the wire.
    pub fn from_status(status: &Status) -> (msg: Message)
        ensures
            msg == Message::of_status(*status),
            msg.status() == Some(*status),
    {
        Message::Status { roll: status.roll, pitch: status.pitch, battery: status.battery }
    }

    /// The setpoint inside the message, `None` for telemetry.
    pub fn as_command(&self) -> (cmd: Option<Command>)
        ensures
            cmd == self.command(),
    {
        match *self {
            Message::Command { roll, pitch, yaw, thrust } => Some(
                Command::Remote { roll, pitch, yaw, thrust },
            ),
            Message::MotorDebug { m1, m2, m3, m4 } => Some(Command::MotorDebug { m1, m2, m3, m4 }),
            Message::Status { .. } => None,
        }
    }

    /// The telemetry record inside the message, `None` for a setpoint.
    pub fn as_status(&self) -> (status: Option<Status>)
        ensures
            status == self.status(),
    {
        match *self {
            Message::Status { roll, pitch, battery } => Some(Status { roll, pitch, battery }),
            _ => None,
        }
    }
}

/// Length of the encoding of a message with `count` fields.
pub open spec fn encoded_len(count: nat) -> nat {
    2 + 5 * count
}

/// The bytes of a message on the wire.
pub open spec fn encoding(msg: Message) -> Seq<u8> {
    Seq::new(
        encoded_len(msg.values().len()),
        |i: int|
            if i == 0 {
                WIRE_VERSION
            } else if i == 1 {
                msg.kind()
            } else if (i - 2) % 5 == 0 {
                ((i - 2) / 5 + 1) as u8
            } else {
                word_byte(msg.values()[(i - 2) / 5], (i - 2) % 5 - 1)
            },
    )
}

/// One field on the wire: its tag, then the four bytes of its value.
pub open spec fn field(tag: u8, v: i32) -> Seq<u8> {
    seq![tag, word_byte(v, 0), word_byte(v, 1), word_byte(v, 2), word_byte(v, 3)]
}

/// The value of field `k` (counted from zero) in `data`.
pub open spec fn field_value(data: Seq<u8>, k: int) -> i32
    recommends
        0 <= k,
        7 + 5 * k <= data.len(),
{
    word_value(data[3 + 5 * k], data[4 + 5 * k], data[5 + 5 * k], data[6 + 5 * k])
}

/// Whether the first `count` fields of `data` carry the tags 1, 2, ... in order.
pub open spec fn tags_in_order(data: Seq<u8>, count: nat) -> bool {
    forall|k: int| 0 <= k < count ==> #[trigger] data[2 + 5 * k] == k + 1
}

/// What a byte string decodes to: the message, or the first reason why it is none.
pub open spec fn decoded(data: Seq<u8>) -> Result<Message, DecodingError> {
    if data.len() < 2 {
        Err(DecodingError::Truncated)
    } else if data[0] != WIRE_VERSION {
        Err(DecodingError::Version)
    } else if field_count(data[1]) is None {
        Err(DecodingError::Kind)
    } else if data.len() < encoded_len(field_count(data[1])->0) {
        Err(DecodingError::Truncated)
    } else if data.len() > encoded_len(field_count(data[1])->0) {
        Err(DecodingError::Trailing)
    } else if !tags_in_order(data, field_count(data[1])->0) {
        Err(DecodingError::Tag)
    } else {
        Ok(
            Message::assemble(
                data[1],
                Seq::new(field_count(data[1])->0, |k: int| field_value(data, k)),
            ),
        )
    }
}

/// Writes the four bytes of `v` into `buf` from position `at` on.
fn put_word(buf: &mut [u8], at: usize, v: i32)
    requires
        at + 4 <= old(buf)@.len(),
    ensures
        final(buf)@.len() == old(buf)@.len(),
        forall|j: int| 0 <= j < 4 ==> #[trigger] final(buf)@[at + j] == word_byte(v, j),
        forall|i: int|
            0 <= i < old(buf)@.len() && !(at <= i < at + 4) ==> #[trigger] final(buf)@[i] == old(buf)@[i],
{
    let word: i64 = if v < 0 {
        v as i64 + 0x1_0000_0000
    } else {
        v as i64
    };
    buf[at] = (word / 0x100_0000) as u8;
    buf[at + 1] = (word / 0x1_0000 % 0x100) as u8;
    buf[at + 2] = (word / 0x100 % 0x100) as u8;
    buf[at + 3] = (word % 0x100) as u8;
}

/// Reads the number whose four bytes start at position `at` of `data`.
fn get_word(data: &[u8], at: usize) -> (v: i32)
    requires
        at + 4 <= data@.len(),
    ensures
        v == word_value(data@[at as int], data@[at + 1], data@[at + 2], data@[at + 3]),
{
    let word: i64 = data[at] as i64 * 0x100_0000 + data[at + 1] as i64 * 0x1_0000 + data[at
        + 2] as i64 * 0x100 + data[at + 3] as i64;
    if word >= 0x8000_0000 {
        (word - 0x1_0000_0000) as i32
    } else {
        word as i32
    }
}

/// Writes `msg` to the front of `buf` and returns the number of bytes written.
///
/// Fails, leaving `buf` as it was, when the encoding does not fit into `buf`
/// or into one payload of the transport. Nothing is ever written in part.
pub fn encode(msg: &Message, buf: &mut [u8]) -> (r: Result<usize, EncodingError>)
    ensures
        final(buf)@.len() == old(buf)@.len(),
        r is Ok <==> encoding(*msg).len() <= old(buf)@.len(),
        r is Ok ==> r->Ok_0 == encoding(*msg).len() && r->Ok_0 <= MAX_PAYLOAD_LEN && final(buf)@.take(r->Ok_0 as int) == encoding(*msg) && final(buf)@.skip(r->Ok_0 as int) == old(buf)@.skip(r->Ok_0 as int),
        r is Err ==> r == Err::<usize, EncodingError>(EncodingError::TooLarge) && final(buf)@
            == old(buf)@,
{
    let (kind, values, count): (u8, [i32; 4], usize) = match *msg {
        Message::Command { roll, pitch, yaw, thrust } => (
            KIND_COMMAND,
            [roll, pitch, yaw, thrust],
            4,
        ),
        Message::MotorDebug { m1, m2, m3, m4 } => (KIND_MOTOR_DEBUG, [m1, m2, m3, m4], 4),
        Message::Status { roll, pitch, battery } => (KIND_STATUS, [roll, pitch, battery, 0], 3),
    };
    let need: usize = 2 + 5 * count;
    if need > MAX_PAYLOAD_LEN || need > buf.len() {
        return Err(EncodingError::TooLarge);
    }
    assert(forall|k: int| 0 <= k < count ==> values@[k] == msg.values()[k]);
    buf[0] = WIRE_VERSION;
    buf[1] = kind;
    let mut k: usize = 0;
    while k < count
        invariant
            0 <= k <= count <= 4,
            need == 2 + 5 * count,
            need <= buf@.len(),
            need == encoding(*msg).len(),
            buf@.len() == old(buf)@.len(),
            forall|i: int| 0 <= i < 2 + 5 * k ==> #[trigger] buf@[i] == encoding(*msg)[i],
            forall|i: int| need <= i < buf@.len() ==> #[trigger] buf@[i] == old(buf)@[i],
            forall|i: int| 0 <= i < count ==> values@[i] == msg.values()[i],
        decreases count - k,
    {
        let at: usize = 2 + 5 * k;
        let ghost before = buf@;
        buf[at] = (k + 1) as u8;
        put_word(buf, at + 1, values[k]);
        proof {
            assert forall|i: int| 0 <= i < 2 + 5 * (k + 1) implies #[trigger] buf@[i] == encoding(
                *msg,
            )[i] by {
                if i < at {
                    assert(buf@[i] == before[i]);
                } else {
                    let j = i - at;
                    assert((i - 2) / 5 == k as int && (i - 2) % 5 == j);
                    if j > 0 {
                        assert(buf@[(at + 1) + (j - 1)] == word_byte(values@[k as int], j - 1));
                    }
                }
            }
        }
        k += 1;
    }
    proof {
        assert(buf@.take(need as int) =~= encoding(*msg));
        assert(buf@.skip(need as int) =~= old(buf)@.skip(need as int));
    }
    Ok(need)
}

/// Reads the message that `data` encodes.
///
/// Succeeds exactly on the encodings of messages; any other input, a
/// shortened encoding among them, is reported and nothing else happens.
pub fn decode(data: &[u8]) -> (r: Result<Message, DecodingError>)
    ensures
        r == decoded(data@),
        r is Ok ==> encoding(r->Ok_0) == data@,
{
    if data.len() < 2 {
        return Err(DecodingError::Truncated);
    }
    if data[0] != WIRE_VERSION {
        return Err(DecodingError::Version);
    }
    let kind: u8 = data[1];
    let count: usize = if kind == KIND_COMMAND || kind == KIND_MOTOR_DEBUG {
        4
    } else if kind == KIND_STATUS {
        3
    } else {
        return Err(DecodingError::Kind);
    };
    let need: usize = 2 + 5 * count;
    if data.len() < need {
        return Err(DecodingError::Truncated);
    }
    if data.len() > need {
        return Err(DecodingError::Trailing);
    }
    let mut values: [i32; 4] = [0, 0, 0, 0];
    let mut k: usize = 0;
    while k < count
        invariant
            0 <= k <= count <= 4,
            data@.len() == 2 + 5 * count,
            data@[0] == WIRE_VERSION,
            kind == data@[1],
            field_count(kind) == Some(count as nat),
            forall|i: int| 0 <= i < k ==> #[trigger] data@[2 + 5 * i] == i + 1,
            forall|i: int| 0 <= i < k ==> #[trigger] values@[i] == field_value(data@, i),
        decreases count - k,
    {
        let at: usize = 2 + 5 * k;
        if data[at] != (k + 1) as u8 {
            proof {
                assert(data@[2 + 5 * (k as int)] != k + 1);
                assert(!tags_in_order(data@, count as nat));
            }
            return Err(DecodingError::Tag);
        }
        values[k] = get_word(data, at + 1);
        k += 1;
    }
    let msg = if kind == KIND_COMMAND {
        Message::Command { roll: values[0], pitch: values[1], yaw: values[2], thrust: values[3] }
    } else if kind == KIND_MOTOR_DEBUG {
        Message::MotorDebug { m1: values[0], m2: values[1], m3: values[2], m4: values[3] }
    } else {
        Message::Status { roll: values[0], pitch: values[1], battery: values[2] }
    };
    proof {
        let read = Seq::new(count as nat, |i: int| field_value(data@, i));
        assert(msg == Message::assemble(kind, read));
        lemma_encode_decode(data@, msg);
    }
    Ok(msg)
}

/// Splitting a number into four bytes and joining them again gives the number back.
pub proof fn lemma_word_round_trip(v: i32)
    ensures
        word_value(word_byte(v, 0), word_byte(v, 1), word_byte(v, 2), word_byte(v, 3)) == v,
{
    let w = word_of(v) as u32;
    assert(w == word_of(v));
    assert(w == (w / 0x100_0000) * 0x100_0000 + (w / 0x1_0000 % 0x100) * 0x1_0000 + (w / 0x100
        % 0x100) * 0x100 + w % 0x100 && w / 0x100_0000 < 0x100) by (bit_vector);
}

/// Joining four bytes and splitting the number again gives the bytes back.
pub proof fn lemma_bytes_round_trip(b0: u8, b1: u8, b2: u8, b3: u8)
    ensures
        word_byte(word_value(b0, b1, b2, b3), 0) == b0,
        word_byte(word_value(b0, b1, b2, b3), 1) == b1,
        word_byte(word_value(b0, b1, b2, b3), 2) == b2,
        word_byte(word_value(b0, b1, b2, b3), 3) == b3,
{
    let word = b0 as int * 0x100_0000 + b1 as int * 0x1_0000 + b2 as int * 0x100 + b3 as int;
    let w = word as u32;
    assert(w == word);
    assert(word_of(word_value(b0, b1, b2, b3)) == word);
    assert(w == b0 as u32 * 0x100_0000 + b1 as u32 * 0x1_0000 + b2 as u32 * 0x100 + b3 as u32
        ==> w / 0x100_0000 == b0 && w / 0x1_0000 % 0x100 == b1 && w / 0x100 % 0x100 == b2 && w
        % 0x100 == b3) by (bit_vector);
}

/// The wire layout spelled out: version, kind, and the fields in order, each
/// behind its tag.
pub proof fn lemma_encoding_layout(msg: Message)
    ensures
        match msg {
            Message::Command { roll, pitch, yaw, thrust } => encoding(msg) == seq![
                WIRE_VERSION,
                KIND_COMMAND,
            ] + field(1, roll) + field(2, pitch) + field(3, yaw) + field(4, thrust),
            Message::MotorDebug { m1, m2, m3, m4 } => encoding(msg) == seq![
                WIRE_VERSION,
                KIND_MOTOR_DEBUG,
            ] + field(1, m1) + field(2, m2) + field(3, m3) + field(4, m4),
            Message::Status { roll, pitch, battery } => encoding(msg) == seq![
                WIRE_VERSION,
                KIND_STATUS,
            ] + field(1, roll) + field(2, pitch) + field(3, battery),
        },
{
    match msg {
        Message::Command { roll, pitch, yaw, thrust } => {
            assert(encoding(msg) =~= seq![WIRE_VERSION, KIND_COMMAND] + field(1, roll) + field(
                2,
                pitch,
            ) + field(3, yaw) + field(4, thrust));
        },
        Message::MotorDebug { m1, m2, m3, m4 } => {
            assert(encoding(msg) =~= seq![WIRE_VERSION, KIND_MOTOR_DEBUG] + field(1, m1) + field(
                2,
                m2,
            ) + field(3, m3) + field(4, m4));
        },
        Message::Status { roll, pitch, battery } => {
            assert(encoding(msg) =~= seq![WIRE_VERSION, KIND_STATUS] + field(1, roll) + field(
                2,
                pitch,
            ) + field(3, battery));
        },
    }
}

/// Decoding the encoding of a message gives the message back.
pub proof fn lemma_decode_encode(msg: Message)
    ensures
        decoded(encoding(msg)) == Ok::<Message, DecodingError>(msg),
        encoding(msg).len() <= MAX_PAYLOAD_LEN,
{
    let data = encoding(msg);
    let count = msg.values().len();
    assert(field_count(data[1]) == Some(count));
    assert forall|k: int| 0 <= k < count implies #[trigger] data[2 + 5 * k] == k + 1 by {
        assert((2 + 5 * k - 2) % 5 == 0);
        assert((2 + 5 * k - 2) / 5 == k);
    }
    let values = Seq::new(count, |k: int| field_value(data, k));
    assert forall|k: int| 0 <= k < count implies #[trigger] values[k] == msg.values()[k] by {
        lemma_word_round_trip(msg.values()[k]);
        assert((3 + 5 * k - 2) / 5 == k && (3 + 5 * k - 2) % 5 == 1);
        assert((4 + 5 * k - 2) / 5 == k && (4 + 5 * k - 2) % 5 == 2);
        assert((5 + 5 * k - 2) / 5 == k && (5 + 5 * k - 2) % 5 == 3);
        assert((6 + 5 * k - 2) / 5 == k && (6 + 5 * k - 2) % 5 == 4);
    }
    assert(values =~= msg.values());
}

/// A byte string that decodes to a message is the encoding of that message:
/// no two byte strings stand for the same message.
pub proof fn lemma_encode_decode(data: Seq<u8>, msg: Message)
    requires
        decoded(data) == Ok::<Message, DecodingError>(msg),
    ensures
        encoding(msg) == data,
{
    let count = field_count(data[1])->0;
    let values = Seq::new(count, |k: int| field_value(data, k));
    assert(msg == Message::assemble(data[1], values));
    assert(msg.values() =~= values);
    assert(msg.kind() == data[1]);
    let enc = encoding(msg);
    assert(enc.len() == data.len());
    assert forall|i: int| 0 <= i < data.len() implies enc[i] == data[i] by {
        if i >= 2 {
            let k = (i - 2) / 5;
            let j = (i - 2) % 5;
            assert(i == 2 + 5 * k + j);
            assert(0 <= k < count);
            if j == 0 {
                assert(data[2 + 5 * k] == k + 1);
            } else {
                lemma_bytes_round_trip(
                    data[3 + 5 * k],
                    data[4 + 5 * k],
                    data[5 + 5 * k],
                    data[6 + 5 * k],
                );
                assert(values[k] == field_value(data, k));
            }
        }
    }
    assert(enc =~= data);
}

} // verus!
