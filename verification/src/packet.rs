//! The datagram that a 3DS sends: its buttons, touch, sticks and motion.

use vstd::prelude::*;

use crate::buttons::N3DSButtons;
use crate::bytes::{
    be_i16_at, be_u16_at, be_u32_at, lemma_big_endian_word16, lemma_big_endian_word32,
    lemma_digits_at, read_i16, read_u16, read_u32, word16, word16_bytes, word32_bytes, ByteOrder,
};

verus! {

/// The number that every datagram starts with.
pub const MAGIC_NUMBER: u16 = 0x3d5c;

/// The length of a datagram in bytes.
pub const RECV_INPUT_SIZE: usize = 40;

/// A pair of coordinates.
#[derive(Debug, PartialEq, Eq, Structural)]
pub struct Vec2<T> {
    pub x: T,
    pub y: T,
}

/// A triple of coordinates.
#[derive(Debug, PartialEq, Eq, Structural)]
pub struct Vec3<T> {
    pub x: T,
    pub y: T,
    pub z: T,
}

/// One report of a 3DS.
#[derive(Debug, PartialEq, Eq, Structural)]
pub struct RecvInput {
    pub magic_number: u16,
    pub version: u16,
    pub keys_up: N3DSButtons,
    pub keys_down: N3DSButtons,
    pub keys_held: N3DSButtons,
    pub touchscreen: Vec2<u16>,
    pub circlepad: Vec2<i16>,
    pub cstick: Vec2<i16>,
    pub gyroscope: Vec3<i16>,
    pub accelerometer: Vec3<i16>,
}

impl RecvInput {
    /// The report that the bytes of a datagram hold: its fields follow one another
    /// without gaps, each most significant byte first.
    pub open spec fn read_from(b: Seq<u8>) -> RecvInput {
        RecvInput {
            magic_number: be_u16_at(b, 0) as u16,
            version: be_u16_at(b, 2) as u16,
            keys_up: N3DSButtons(be_u32_at(b, 4) as u32),
            keys_down: N3DSButtons(be_u32_at(b, 8) as u32),
            keys_held: N3DSButtons(be_u32_at(b, 12) as u32),
            touchscreen: Vec2 { x: be_u16_at(b, 16) as u16, y: be_u16_at(b, 18) as u16 },
            circlepad: Vec2 { x: be_i16_at(b, 20) as i16, y: be_i16_at(b, 22) as i16 },
            cstick: Vec2 { x: be_i16_at(b, 24) as i16, y: be_i16_at(b, 26) as i16 },
            gyroscope: Vec3 {
                x: be_i16_at(b, 28) as i16,
                y: be_i16_at(b, 30) as i16,
                z: be_i16_at(b, 32) as i16,
            },
            accelerometer: Vec3 {
                x: be_i16_at(b, 34) as i16,
                y: be_i16_at(b, 36) as i16,
                z: be_i16_at(b, 38) as i16,
            },
        }
    }

    /// The datagram that carries `self`.
    pub open spec fn network_bytes(self) -> Seq<u8> {
        let big = ByteOrder::Big;
        word16_bytes(big, self.magic_number as int)
            + word16_bytes(big, self.version as int)
            + word32_bytes(big, self.keys_up.0 as int)
            + word32_bytes(big, self.keys_down.0 as int)
            + word32_bytes(big, self.keys_held.0 as int)
            + word16_bytes(big, self.touchscreen.x as int)
            + word16_bytes(big, self.touchscreen.y as int)
            + word16_bytes(big, word16(self.circlepad.x as int))
            + word16_bytes(big, word16(self.circlepad.y as int))
            + word16_bytes(big, word16(self.cstick.x as int))
            + word16_bytes(big, word16(self.cstick.y as int))
            + word16_bytes(big, word16(self.gyroscope.x as int))
            + word16_bytes(big, word16(self.gyroscope.y as int))
            + word16_bytes(big, word16(self.gyroscope.z as int))
            + word16_bytes(big, word16(self.accelerometer.x as int))
            + word16_bytes(big, word16(self.accelerometer.y as int))
            + word16_bytes(big, word16(self.accelerometer.z as int))
    }

    /// The report with every field zero.
    pub open spec fn all_zero() -> RecvInput {
        RecvInput {
            magic_number: 0,
            version: 0,
            keys_up: N3DSButtons(0),
            keys_down: N3DSButtons(0),
            keys_held: N3DSButtons(0),
            touchscreen: Vec2 { x: 0, y: 0 },
            circlepad: Vec2 { x: 0, y: 0 },
            cstick: Vec2 { x: 0, y: 0 },
            gyroscope: Vec3 { x: 0, y: 0, z: 0 },
            accelerometer: Vec3 { x: 0, y: 0, z: 0 },
        }
    }

    /// The report that a client has before it has sent one.
    pub fn zeroed() -> (input: Self)
        ensures
            input == Self::all_zero(),
    {
        RecvInput {
            magic_number: 0,
            version: 0,
            keys_up: N3DSButtons(0),
            keys_down: N3DSButtons(0),
            keys_held: N3DSButtons(0),
            touchscreen: Vec2 { x: 0, y: 0 },
            circlepad: Vec2 { x: 0, y: 0 },
            cstick: Vec2 { x: 0, y: 0 },
            gyroscope: Vec3 { x: 0, y: 0, z: 0 },
            accelerometer: Vec3 { x: 0, y: 0, z: 0 },
        }
    }

    /// Converts a byte slice received from the network into a report. The bytes
    /// are expected in network (big-endian) byte order.
    pub fn from_network_bytes(bytes: &[u8]) -> (parsed: Result<Self, &'static str>)
        ensures
            parsed is Ok <==> bytes@.len() == RECV_INPUT_SIZE,
            parsed matches Ok(input) ==> input == Self::read_from(bytes@),
            parsed matches Err(message) ==> message@ == "Invalid byte length for RecvInput"@,
    {
        if bytes.len() != RECV_INPUT_SIZE {
            return Err("Invalid byte length for RecvInput");
        }
        Ok(
            RecvInput {
                magic_number: read_u16(bytes, 0),
                version: read_u16(bytes, 2),
                keys_up: N3DSButtons(read_u32(bytes, 4)),
                keys_down: N3DSButtons(read_u32(bytes, 8)),
                keys_held: N3DSButtons(read_u32(bytes, 12)),
                touchscreen: Vec2 { x: read_u16(bytes, 16), y: read_u16(bytes, 18) },
                circlepad: Vec2 { x: read_i16(bytes, 20), y: read_i16(bytes, 22) },
                cstick: Vec2 { x: read_i16(bytes, 24), y: read_i16(bytes, 26) },
                gyroscope: Vec3 {
                    x: read_i16(bytes, 28),
                    y: read_i16(bytes, 30),
                    z: read_i16(bytes, 32),
                },
                accelerometer: Vec3 {
                    x: read_i16(bytes, 34),
                    y: read_i16(bytes, 36),
                    z: read_i16(bytes, 38),
                },
            },
        )
    }
}

/// A datagram and the report read from it determine each other: of the datagrams
/// of the right length exactly one is read as `input`, namely its network bytes.
pub proof fn lemma_datagrams_and_reports_correspond(input: RecvInput, b: Seq<u8>)
    ensures
        input.network_bytes().len() == RECV_INPUT_SIZE,
        b.len() == RECV_INPUT_SIZE && RecvInput::read_from(b) == input <==> b
            == input.network_bytes(),
{
    let big = ByteOrder::Big;
    let n = input.network_bytes();
    let p1 = word16_bytes(big, input.magic_number as int);
    let p2 = p1 + word16_bytes(big, input.version as int);
    let p3 = p2 + word32_bytes(big, input.keys_up.0 as int);
    let p4 = p3 + word32_bytes(big, input.keys_down.0 as int);
    let p5 = p4 + word32_bytes(big, input.keys_held.0 as int);
    let p6 = p5 + word16_bytes(big, input.touchscreen.x as int);
    let p7 = p6 + word16_bytes(big, input.touchscreen.y as int);
    let p8 = p7 + word16_bytes(big, word16(input.circlepad.x as int));
    let p9 = p8 + word16_bytes(big, word16(input.circlepad.y as int));
    let p10 = p9 + word16_bytes(big, word16(input.cstick.x as int));
    let p11 = p10 + word16_bytes(big, word16(input.cstick.y as int));
    let p12 = p11 + word16_bytes(big, word16(input.gyroscope.x as int));
    let p13 = p12 + word16_bytes(big, word16(input.gyroscope.y as int));
    let p14 = p13 + word16_bytes(big, word16(input.gyroscope.z as int));
    let p15 = p14 + word16_bytes(big, word16(input.accelerometer.x as int));
    let p16 = p15 + word16_bytes(big, word16(input.accelerometer.y as int));
    let p17 = p16 + word16_bytes(big, word16(input.accelerometer.z as int));
    assert(n == p17);
    if b.len() == RECV_INPUT_SIZE {
        assert(b.take(0) =~= Seq::<u8>::empty());
        assert(Seq::<u8>::empty() + p1 =~= p1);
        lemma_big_endian_word16(Seq::empty(), input.magic_number as int, b);
        lemma_big_endian_word16(p1, input.version as int, b);
        lemma_big_endian_word32(p2, input.keys_up.0 as int, b);
        lemma_big_endian_word32(p3, input.keys_down.0 as int, b);
        lemma_big_endian_word32(p4, input.keys_held.0 as int, b);
        lemma_big_endian_word16(p5, input.touchscreen.x as int, b);
        lemma_big_endian_word16(p6, input.touchscreen.y as int, b);
        lemma_big_endian_word16(p7, word16(input.circlepad.x as int), b);
        lemma_big_endian_word16(p8, word16(input.circlepad.y as int), b);
        lemma_big_endian_word16(p9, word16(input.cstick.x as int), b);
        lemma_big_endian_word16(p10, word16(input.cstick.y as int), b);
        lemma_big_endian_word16(p11, word16(input.gyroscope.x as int), b);
        lemma_big_endian_word16(p12, word16(input.gyroscope.y as int), b);
        lemma_big_endian_word16(p13, word16(input.gyroscope.z as int), b);
        lemma_big_endian_word16(p14, word16(input.accelerometer.x as int), b);
        lemma_big_endian_word16(p15, word16(input.accelerometer.y as int), b);
        lemma_big_endian_word16(p16, word16(input.accelerometer.z as int), b);
        assert(b.take(RECV_INPUT_SIZE as int) =~= b);
    }
}

/// Every byte of a datagram is a byte of one field of the report: the digits of the
/// field to the base 256, the highest first. A negative number has the digits of its
/// two's complement.
pub proof fn lemma_bytes_are_digits_of_fields(b: Seq<u8>)
    requires
        b.len() == 40,
    ensures
        ({
            let input = RecvInput::read_from(b);
            &&& input.magic_number / 0x100 == b[0] && input.magic_number % 0x100 == b[1]
            &&& input.version / 0x100 == b[2] && input.version % 0x100 == b[3]
            &&& input.touchscreen.x / 0x100 == b[16] && input.touchscreen.x % 0x100 == b[17]
            &&& input.touchscreen.y / 0x100 == b[18] && input.touchscreen.y % 0x100 == b[19]
            &&& input.keys_up.0 / 0x100_0000 == b[4] && input.keys_up.0 / 0x1_0000 % 0x100 == b[5]
            &&& input.keys_up.0 / 0x100 % 0x100 == b[6] && input.keys_up.0 % 0x100 == b[7]
            &&& input.keys_down.0 / 0x100_0000 == b[8] && input.keys_down.0 / 0x1_0000 % 0x100 == b[9]
            &&& input.keys_down.0 / 0x100 % 0x100 == b[10] && input.keys_down.0 % 0x100 == b[11]
            &&& input.keys_held.0 / 0x100_0000 == b[12] && input.keys_held.0 / 0x1_0000 % 0x100 == b[13]
            &&& input.keys_held.0 / 0x100 % 0x100 == b[14] && input.keys_held.0 % 0x100 == b[15]
            &&& input.circlepad.x as int / 0x100 % 0x100 == b[20] && input.circlepad.x as int % 0x100
                == b[21]
            &&& input.circlepad.y as int / 0x100 % 0x100 == b[22] && input.circlepad.y as int % 0x100
                == b[23]
            &&& input.cstick.x as int / 0x100 % 0x100 == b[24] && input.cstick.x as int % 0x100
                == b[25]
            &&& input.cstick.y as int / 0x100 % 0x100 == b[26] && input.cstick.y as int % 0x100
                == b[27]
            &&& input.gyroscope.x as int / 0x100 % 0x100 == b[28] && input.gyroscope.x as int % 0x100
                == b[29]
            &&& input.gyroscope.y as int / 0x100 % 0x100 == b[30] && input.gyroscope.y as int % 0x100
                == b[31]
            &&& input.gyroscope.z as int / 0x100 % 0x100 == b[32] && input.gyroscope.z as int % 0x100
                == b[33]
            &&& input.accelerometer.x as int / 0x100 % 0x100 == b[34] && input.accelerometer.x as int % 0x100
                == b[35]
            &&& input.accelerometer.y as int / 0x100 % 0x100 == b[36] && input.accelerometer.y as int % 0x100
                == b[37]
            &&& input.accelerometer.z as int / 0x100 % 0x100 == b[38] && input.accelerometer.z as int % 0x100
                == b[39]
        }),
{
    lemma_digits_at(b, 0);
    lemma_digits_at(b, 2);
    lemma_digits_at(b, 4);
    lemma_digits_at(b, 8);
    lemma_digits_at(b, 12);
    lemma_digits_at(b, 16);
    lemma_digits_at(b, 18);
    lemma_digits_at(b, 20);
    lemma_digits_at(b, 22);
    lemma_digits_at(b, 24);
    lemma_digits_at(b, 26);
    lemma_digits_at(b, 28);
    lemma_digits_at(b, 30);
    lemma_digits_at(b, 32);
    lemma_digits_at(b, 34);
    lemma_digits_at(b, 36);
    lemma_digits_at(b, 38);
}

/// A report with every field zero is what forty zero bytes are read as, and nothing
/// else is.
pub proof fn lemma_zero_bytes_are_the_zero_report(b: Seq<u8>)
    requires
        b.len() == 40,
    ensures
        RecvInput::read_from(b) == RecvInput::all_zero() <==> (forall|i: int|
            0 <= i < 40 ==> b[i] == 0),
{
    lemma_bytes_are_digits_of_fields(b);
    if RecvInput::read_from(b) == RecvInput::all_zero() {
        let n = RecvInput::all_zero().network_bytes();
        lemma_datagrams_and_reports_correspond(RecvInput::all_zero(), b);
    }
}

/// What a client has before it has sent a report: forty zero bytes.
pub proof fn lemma_calls_make_the_zero_report(input: RecvInput)
    ensures
        call_ensures(RecvInput::zeroed, (), input) ==> input.network_bytes() =~= Seq::new(
            40,
            |i: int| 0u8,
        ),
{
}

/// Reading succeeds on every slice of forty bytes and on no other, and forgets
/// nothing: the datagram of what was read is the slice.
pub proof fn lemma_calls_read_whole_datagrams(
    bytes: &[u8],
    parsed: Result<RecvInput, &'static str>,
)
    requires
        call_ensures(RecvInput::from_network_bytes, (bytes,), parsed),
    ensures
        parsed is Ok <==> bytes@.len() == 40,
        parsed matches Ok(input) ==> input.network_bytes() == bytes@,
{
    if let Ok(input) = parsed {
        lemma_datagrams_and_reports_correspond(input, bytes@);
    }
}

} // verus!
