//! The serial command source: 25-byte frames of sixteen packed 11-bit
//! channels, synchronised on a header byte.

use vstd::prelude::*;
use crate::command::Command;
use crate::fixed::{trunc_div, lemma_trunc_div_monotonic, UNIT};

verus! {

/// Length of a frame: header, 22 bytes of channels, flags, footer.
pub const FRAME_LEN: usize = 25;

/// The first byte of every frame.
pub const HEADER: u8 = 0x0f;

/// The last byte of every frame.
pub const FOOTER: u8 = 0x00;

/// Smallest channel value that a healthy transmitter sends.
pub const SCALE_MIN: u16 = 240;

/// Channel value of a centred stick.
pub const SCALE_MID: u16 = 1024;

/// Largest channel value that a healthy transmitter sends.
pub const SCALE_MAX: u16 = 1800;

/// Two to the power `s`, for a shift inside one byte.
pub open spec fn bit_weight(s: int) -> int
    recommends
        0 <= s < 8,
{
    if s == 0 {
        1
    } else if s == 1 {
        2
    } else if s == 2 {
        4
    } else if s == 3 {
        8
    } else if s == 4 {
        16
    } else if s == 5 {
        32
    } else if s == 6 {
        64
    } else {
        128
    }
}

/// Channel `i` of a frame: the eleven bits from bit `11 * i` on of the bytes
/// after the header, read least significant bit first.
pub open spec fn sbus_channel(frame: Seq<u8>, i: int) -> int
    recommends
        frame.len() == 25,
        0 <= i < 16,
{
    let first = 1 + (11 * i) / 8;
    let window = frame[first] as int + 0x100 * frame[first + 1] as int + 0x1_0000 * frame[first
        + 2] as int;
    (window / bit_weight((11 * i) % 8)) % 0x800
}

/// Unpacks the sixteen channels of a frame.
///
/// Calls `sbus_rs::channels_parsing`. That function reads bytes 1 to 22 as
/// one string of bits, least significant first, and cuts it into sixteen
/// values of eleven bits; the contract says this of every channel.
#[verifier::external_body]
fn parse_channels(frame: &[u8; 25]) -> (channels: [u16; 16])
    ensures
        forall|i: int| 0 <= i < 16 ==> #[trigger] channels@[i] == sbus_channel(frame@, i),
{
    sbus_rs::channels_parsing(frame)
}

/// The signed stick position for a channel value: zero at the midpoint,
/// -1.0 at [`SCALE_MIN`], 1.0 at [`SCALE_MAX`], linear on either side.
pub open spec fn axis_of(input: int) -> int {
    if input < SCALE_MID {
        -trunc_div((SCALE_MID - input) * UNIT, (SCALE_MID - SCALE_MIN) as int)
    } else {
        trunc_div((input - SCALE_MID) * UNIT, (SCALE_MAX - SCALE_MID) as int)
    }
}

/// The thrust for a channel value: 0.0 up to [`SCALE_MIN`], 1.0 from
/// [`SCALE_MAX`] on, linear between them.
pub open spec fn thrust_of(input: int) -> int {
    if input < SCALE_MIN {
        0
    } else if input >= SCALE_MAX {
        UNIT as int
    } else {
        trunc_div((input - SCALE_MIN) * UNIT, (SCALE_MAX - SCALE_MIN) as int)
    }
}

/// Every channel lies in the range of a healthy transmitter.
pub open spec fn channels_valid(channels: Seq<u16>) -> bool {
    forall|i: int| 0 <= i < channels.len() ==> SCALE_MIN <= #[trigger] channels[i] <= SCALE_MAX
}

/// The command that sixteen channel values stand for, `None` when any of
/// them is out of range.
pub open spec fn channels_command(channels: Seq<u16>) -> Option<Command>
    recommends
        channels.len() == 16,
{
    if channels_valid(channels) {
        Some(
            Command::Remote {
                roll: axis_of(channels[0] as int) as i32,
                pitch: axis_of(channels[1] as int) as i32,
                yaw: axis_of(channels[3] as int) as i32,
                thrust: thrust_of(channels[2] as int) as i32,
            },
        )
    } else {
        None
    }
}

/// The channel values of a frame.
pub open spec fn frame_channels(frame: Seq<u8>) -> Seq<u16> {
    Seq::new(16, |i: int| sbus_channel(frame, i) as u16)
}

/// The command that a frame carries, `None` when header or footer are wrong
/// or a channel is out of range.
pub open spec fn frame_command(frame: Seq<u8>) -> Option<Command>
    recommends
        frame.len() == 25,
{
    if frame[0] == HEADER && frame[24] == FOOTER {
        channels_command(frame_channels(frame))
    } else {
        None
    }
}

/// Scales the channel of a self-centring stick to the range from -1.0 to
/// 1.0. The midpoint maps to zero exactly and the two end points to -1.0 and 1.0.
pub fn scale_principal_axis(input: u16) -> (r: i32)
    ensures
        r == axis_of(input as int),
        input == SCALE_MID ==> r == 0,
        input == SCALE_MIN ==> r == -UNIT,
        input == SCALE_MAX ==> r == UNIT,
        SCALE_MIN <= input <= SCALE_MAX ==> -UNIT <= r <= UNIT,
{
    if input == SCALE_MID {
        0
    } else if input < SCALE_MID {
        -(((SCALE_MID - input) as i32 * UNIT) / ((SCALE_MID - SCALE_MIN) as i32))
    } else {
        ((input - SCALE_MID) as i32 * UNIT) / ((SCALE_MAX - SCALE_MID) as i32)
    }
}

/// Scales the channel of the thrust stick to the range from 0.0 to 1.0.
pub fn scale_thrust(input: u16) -> (r: i32)
    ensures
        r == thrust_of(input as int),
        0 <= r <= UNIT,
{
    if input < SCALE_MIN {
        0
    } else if input < SCALE_MAX {
        ((input - SCALE_MIN) as i32 * UNIT) / ((SCALE_MAX - SCALE_MIN) as i32)
    } else {
        UNIT
    }
}

/// Turns sixteen channel values into a command. A single channel outside
/// the transmitter's range rejects them all.
pub fn command_from_channels(channels: &[u16; 16]) -> (cmd: Option<Command>)
    ensures
        cmd == channels_command(channels@),
        cmd is Some ==> cmd->0.in_range(),
{
    let mut i: usize = 0;
    while i < 16
        invariant
            0 <= i <= 16,
            forall|k: int| 0 <= k < i ==> SCALE_MIN <= #[trigger] channels@[k] <= SCALE_MAX,
        decreases 16 - i,
    {
        if channels[i] > SCALE_MAX || channels[i] < SCALE_MIN {
            return None;
        }
        i += 1;
    }
    Some(
        Command::Remote {
            roll: scale_principal_axis(channels[0]),
            pitch: scale_principal_axis(channels[1]),
            yaw: scale_principal_axis(channels[3]),
            thrust: scale_thrust(channels[2]),
        },
    )
}

/// Reads the command out of one complete frame.
pub fn decode_frame(frame: &[u8; 25]) -> (cmd: Option<Command>)
    ensures
        cmd == frame_command(frame@),
        cmd is Some ==> cmd->0.in_range(),
{
    if frame[0] != HEADER || frame[24] != FOOTER {
        return None;
    }
    let channels = parse_channels(frame);
    assert(channels@ =~= frame_channels(frame@));
    command_from_channels(&channels)
}

/// One step of the frame synchroniser on the bytes collected so far: the
/// bytes collected afterwards, and the command if `byte` completed a frame
/// that carries one.
pub open spec fn advance(collected: Seq<u8>, byte: u8) -> (Seq<u8>, Option<Command>) {
    if collected.len() == 0 {
        if byte == HEADER {
            (seq![byte], None)
        } else {
            (collected, None)
        }
    } else if collected.len() + 1 < FRAME_LEN {
        (collected.push(byte), None)
    } else {
        (Seq::empty(), frame_command(collected.push(byte)))
    }
}

/// The receiving side of the serial link, fed one byte at a time.
///
/// It waits for a header byte, collects the 24 bytes that follow, and
/// yields the command of the frame if the frame is sound. After a frame,
/// sound or not, it waits for the next header.
pub struct Radio {
    buf: [u8; 25],
    filled: usize,
}

impl Radio {
    #[verifier::type_invariant]
    spec fn sound(&self) -> bool {
        self.filled < FRAME_LEN && (self.filled > 0 ==> self.buf@[0] == HEADER)
    }

    /// The bytes of the frame under way; empty while waiting for a header.
    pub closed spec fn collected(&self) -> Seq<u8> {
        self.buf@.take(self.filled as int)
    }

    /// A receiver that waits for its first header.
    pub fn init() -> (radio: Radio)
        ensures
            radio.collected() == Seq::<u8>::empty(),
    {
        let radio = Radio { buf: [0u8; 25], filled: 0 };
        assert(radio.collected() =~= Seq::<u8>::empty());
        radio
    }

    /// Records a fault of the line (noise, framing, parity): the frame under
    /// way is dropped and the receiver waits for the next header.
    pub fn fault(&mut self)
        ensures
            final(self).collected() == Seq::<u8>::empty(),
    {
        proof {
            use_type_invariant(&*self);
        }
        self.filled = 0;
        assert(self.collected() =~= Seq::<u8>::empty());
    }

    /// Takes the next byte from the line and returns the command of the
    /// frame that it completes, if it completes a sound one.
    pub fn next(&mut self, byte: u8) -> (cmd: Option<Command>)
        ensures
            (final(self).collected(), cmd) == advance(old(self).collected(), byte),
            cmd is Some ==> cmd->0.in_range(),
    {
        proof {
            use_type_invariant(&*self);
        }
        if self.filled == 0 {
            if byte == HEADER {
                self.buf[0] = byte;
                self.filled = 1;
                assert(self.collected() =~= seq![byte]);
            } else {
                assert(self.collected() =~= old(self).collected());
            }
            return None;
        }
        let at: usize = self.filled;
        self.buf[at] = byte;
        if at + 1 < FRAME_LEN {
            self.filled = at + 1;
            assert(self.collected() =~= old(self).collected().push(byte));
            return None;
        }
        self.filled = 0;
        assert(self.buf@ =~= old(self).collected().push(byte));
        assert(self.collected() =~= Seq::<u8>::empty());
        decode_frame(&self.buf)
    }
}

/// The synchroniser after a run of bytes, one after the other: the bytes
/// collected afterwards and what the last byte yielded.
pub open spec fn feed(collected: Seq<u8>, bytes: Seq<u8>) -> (Seq<u8>, Option<Command>)
    decreases bytes.len(),
{
    if bytes.len() == 0 {
        (collected, None)
    } else {
        advance(feed(collected, bytes.drop_last()).0, bytes.last())
    }
}

/// While a frame that starts with the header is coming in, the
/// synchroniser holds exactly the bytes received so far and yields nothing.
pub proof fn lemma_frame_under_way(frame: Seq<u8>, received: int)
    requires
        frame.len() == FRAME_LEN,
        frame[0] == HEADER,
        0 <= received < FRAME_LEN,
    ensures
        feed(Seq::empty(), frame.take(received)) == (frame.take(received), None::<Command>),
    decreases received,
{
    let part = frame.take(received);
    if received > 0 {
        lemma_frame_under_way(frame, received - 1);
        assert(part.drop_last() =~= frame.take(received - 1));
        assert(part.last() == frame[received - 1]);
        if received == 1 {
            assert(seq![frame[0]] =~= part);
        } else {
            assert(frame.take(received - 1).push(frame[received - 1]) =~= part);
        }
    } else {
        assert(part =~= Seq::<u8>::empty());
    }
}

/// A receiver that waits for a header and is fed one whole frame yields, at
/// the frame's last byte, the command that the frame carries, and waits for
/// the next header again.
pub proof fn lemma_frame_is_found(frame: Seq<u8>)
    requires
        frame.len() == FRAME_LEN,
        frame[0] == HEADER,
    ensures
        feed(Seq::empty(), frame) == (Seq::<u8>::empty(), frame_command(frame)),
{
    lemma_frame_under_way(frame, 24);
    assert(frame.drop_last() =~= frame.take(24));
    assert(frame.take(24).push(frame.last()) =~= frame);
}

/// Bytes that arrive while the receiver waits for a header, and are none,
/// are passed over.
pub proof fn lemma_noise_is_passed_over(byte: u8)
    requires
        byte != HEADER,
    ensures
        advance(Seq::empty(), byte) == (Seq::<u8>::empty(), None::<Command>),
{
}

/// The stick scale never reverses an order: a larger channel value never
/// gives a smaller stick position.
pub proof fn lemma_axis_monotonic(a: int, b: int)
    requires
        a <= b,
    ensures
        axis_of(a) <= axis_of(b),
{
    let lower = (SCALE_MID - SCALE_MIN) as int;
    let upper = (SCALE_MAX - SCALE_MID) as int;
    if b < SCALE_MID {
        lemma_trunc_div_monotonic((SCALE_MID - b) * UNIT, (SCALE_MID - a) * UNIT, lower);
    } else if a >= SCALE_MID {
        lemma_trunc_div_monotonic((a - SCALE_MID) * UNIT, (b - SCALE_MID) * UNIT, upper);
    } else {
        lemma_trunc_div_monotonic(0, (SCALE_MID - a) * UNIT, lower);
        lemma_trunc_div_monotonic(0, (b - SCALE_MID) * UNIT, upper);
    }
}

/// The thrust scale never reverses an order.
pub proof fn lemma_thrust_monotonic(a: int, b: int)
    requires
        a <= b,
    ensures
        thrust_of(a) <= thrust_of(b),
{
    let span = (SCALE_MAX - SCALE_MIN) as int;
    if a >= SCALE_MIN && b < SCALE_MAX {
        lemma_trunc_div_monotonic((a - SCALE_MIN) * UNIT, (b - SCALE_MIN) * UNIT, span);
    } else if a >= SCALE_MIN && a < SCALE_MAX {
        lemma_trunc_div_monotonic((a - SCALE_MIN) * UNIT, 1_560_000, span);
        assert(trunc_div(1_560_000, 1560) == UNIT);
    } else if b >= SCALE_MIN && b < SCALE_MAX {
        lemma_trunc_div_monotonic(0, (b - SCALE_MIN) * UNIT, span);
    }
}

/// The midpoint of a stick channel maps to zero, and the ends of the
/// transmitter's range map to the ends of the scale.
pub proof fn lemma_scale_fixed_points()
    ensures
        axis_of(SCALE_MID as int) == 0,
        axis_of(SCALE_MIN as int) == -UNIT,
        axis_of(SCALE_MAX as int) == UNIT,
        thrust_of(SCALE_MIN as int) == 0,
        thrust_of(SCALE_MAX as int) == UNIT,
{
}

} // verus!
