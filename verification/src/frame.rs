//! Frames: a length prefix of four bytes in the byte order of the machine,
//! then that many bytes of JSON text.

use vstd::prelude::*;

verus! {

/// The largest JSON text that the browser accepts in one frame, in bytes.
pub const MAX_MESSAGE_SIZE: usize = 1048576;

/// Number of bytes in a length prefix.
pub const PREFIX_SIZE: usize = 4;

/// The order in which the bytes of a length prefix stand.
#[derive(Debug, Clone, Copy, PartialEq, Eq, Structural)]
pub enum ByteOrder {
    /// Least significant byte first.
    LittleEndian,
    /// Most significant byte first.
    BigEndian,
}

/// The four bytes of `length`, least significant first.
pub open spec fn little_endian(length: int) -> Seq<u8> {
    seq![
        (length % 256) as u8,
        (length / 256 % 256) as u8,
        (length / 256 / 256 % 256) as u8,
        (length / 256 / 256 / 256 % 256) as u8,
    ]
}

/// The prefix that announces `length` bytes, which is below 2^32.
pub open spec fn prefix_bytes(order: ByteOrder, length: int) -> Seq<u8> {
    match order {
        ByteOrder::LittleEndian => little_endian(length),
        ByteOrder::BigEndian => little_endian(length).reverse(),
    }
}

/// The unsigned number that a prefix of four bytes holds.
pub open spec fn prefix_value(order: ByteOrder, prefix: Seq<u8>) -> int {
    match order {
        ByteOrder::LittleEndian => prefix[0] + 256 * prefix[1] + 65536 * prefix[2] + 16777216 * prefix[3],
        ByteOrder::BigEndian => prefix[3] + 256 * prefix[2] + 65536 * prefix[1] + 16777216 * prefix[0],
    }
}

/// The number that a prefix holds, read as a signed 32-bit integer.
pub open spec fn prefix_length(order: ByteOrder, prefix: Seq<u8>) -> int {
    let value = prefix_value(order, prefix);
    if value >= 0x8000_0000 {
        value - 0x1_0000_0000
    } else {
        value
    }
}

/// A frame: the prefix that announces the length of `body`, then `body`.
pub open spec fn frame(order: ByteOrder, body: Seq<u8>) -> Seq<u8> {
    prefix_bytes(order, body.len() as int) + body
}

/// A prefix holds the length that it was written for.
pub proof fn lemma_prefix_round_trip(order: ByteOrder, length: int)
    requires
        0 <= length < 0x1_0000_0000,
    ensures
        prefix_bytes(order, length).len() == 4,
        prefix_value(order, prefix_bytes(order, length)) == length,
{
}

/// The first four bytes of a frame, read as a length in the order in which
/// the frame was written, give the number of bytes that follow them.
pub proof fn lemma_frame_prefix_counts_body(order: ByteOrder, body: Seq<u8>)
    requires
        body.len() < 0x8000_0000,
    ensures
        frame(order, body).len() == 4 + body.len(),
        prefix_length(order, frame(order, body).subrange(0, 4)) == body.len(),
        frame(order, body).subrange(4, frame(order, body).len() as int) == body,
{
    lemma_prefix_round_trip(order, body.len() as int);
}

/// A prefix reads as minus one exactly when each of its bytes is 255,
/// whatever the byte order.
pub proof fn lemma_exit_prefix(order: ByteOrder, prefix: Seq<u8>)
    requires
        prefix.len() == 4,
    ensures
        prefix_length(order, prefix) == -1 <==> prefix == seq![255u8, 255u8, 255u8, 255u8],
{
    if prefix_length(order, prefix) == -1 {
        assert(prefix =~= seq![255u8, 255u8, 255u8, 255u8]);
    }
}

/// Reads the bytes one and zero as a 16-bit number with
/// `u16::from_ne_bytes`. In the order of the machine they make either 1,
/// least significant byte first, or 256.
#[verifier::external_body]
fn native_one() -> (value: u16)
    ensures
        value == 1 || value == 256,
{
    u16::from_ne_bytes([1, 0])
}

impl ByteOrder {
    /// The byte order of the machine that runs this code.
    pub fn native() -> ByteOrder {
        ByteOrder::reading_one_as(native_one())
    }

    /// The byte order in which the bytes one and zero make `value`: least
    /// significant byte first where they make 1, most significant byte
    /// first otherwise, as where they make 256.
    pub fn reading_one_as(value: u16) -> (order: ByteOrder)
        ensures
            order == if value == 1 {
                ByteOrder::LittleEndian
            } else {
                ByteOrder::BigEndian
            },
            value == 1 || value == 256 ==> pair_value(order, seq![1u8, 0u8]) == value,
    {
        if value == 1 {
            ByteOrder::LittleEndian
        } else {
            ByteOrder::BigEndian
        }
    }

    /// The prefix that announces `length` bytes.
    pub fn prefix(self, length: u32) -> (prefix: [u8; 4])
        ensures
            prefix@ == prefix_bytes(self, length as int),
    {
        let b0: u8 = (length % 256) as u8;
        let b1: u8 = (length / 256 % 256) as u8;
        let b2: u8 = (length / 256 / 256 % 256) as u8;
        let b3: u8 = (length / 256 / 256 / 256 % 256) as u8;
        match self {
            ByteOrder::LittleEndian => [b0, b1, b2, b3],
            ByteOrder::BigEndian => [b3, b2, b1, b0],
        }
    }

    /// The length that a prefix of four bytes holds, as a signed number.
    pub fn length(self, prefix: &[u8]) -> (length: i32)
        requires
            prefix@.len() == 4,
        ensures
            length == prefix_length(self, prefix@),
    {
        let (low, second, third, high) = match self {
            ByteOrder::LittleEndian => (prefix[0], prefix[1], prefix[2], prefix[3]),
            ByteOrder::BigEndian => (prefix[3], prefix[2], prefix[1], prefix[0]),
        };
        let value: i64 = low as i64 + 256 * (second as i64) + 65536 * (third as i64) + 16777216 * (high as i64);
        if value >= 0x8000_0000 {
            (value - 0x1_0000_0000) as i32
        } else {
            value as i32
        }
    }
}

/// The number that two bytes hold in the given order.
pub open spec fn pair_value(order: ByteOrder, pair: Seq<u8>) -> int {
    match order {
        ByteOrder::LittleEndian => pair[0] + 256 * pair[1],
        ByteOrder::BigEndian => pair[1] + 256 * pair[0],
    }
}

} // verus!
