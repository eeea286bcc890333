//! Integers as the kernel lays them out in a record: a run of bytes in the byte order of the
//! machine.
//!
//! The kernel and the process share one machine, so every integer of a record is in that
//! machine's byte order. The order is a [`ByteOrder`] value that the caller fixes once for the
//! target it is built for.

use vstd::prelude::*;

verus! {

/// The order in which the bytes of an integer lie in memory.
#[derive(Clone, Copy, Debug, PartialEq, Eq, Structural)]
pub enum ByteOrder {
    /// The least significant byte comes first.
    Little,
    /// The most significant byte comes first.
    Big,
}

/// The integer whose four bytes are given from the least significant to the most.
pub open spec fn u32_of_le_bytes(bytes: Seq<u8>) -> u32
    recommends
        bytes.len() == 4,
{
    (bytes[0] + bytes[1] * 0x100 + bytes[2] * 0x1_0000 + bytes[3] * 0x100_0000) as u32
}

/// The integer whose eight bytes are given from the least significant to the most.
pub open spec fn u64_of_le_bytes(bytes: Seq<u8>) -> u64
    recommends
        bytes.len() == 8,
{
    (bytes[0] + bytes[1] * 0x100 + bytes[2] * 0x1_0000 + bytes[3] * 0x100_0000 + bytes[4]
        * 0x1_0000_0000 + bytes[5] * 0x100_0000_0000 + bytes[6] * 0x1_0000_0000_0000 + bytes[7]
        * 0x100_0000_0000_0000) as u64
}

/// The four bytes of an integer, from the least significant to the most.
pub open spec fn le_bytes_of_u32(value: u32) -> Seq<u8> {
    seq![
        (value % 0x100) as u8,
        (value / 0x100 % 0x100) as u8,
        (value / 0x1_0000 % 0x100) as u8,
        (value / 0x100_0000) as u8,
    ]
}

impl ByteOrder {
    /// The bytes of an integer as they come in this order, given from the first in memory
    /// to the last, put in the order from the least significant to the most.
    pub open spec fn to_le(self, bytes: Seq<u8>) -> Seq<u8> {
        match self {
            ByteOrder::Little => bytes,
            ByteOrder::Big => bytes.reverse(),
        }
    }

    /// The 32-bit integer that four bytes hold in this order.
    pub open spec fn spec_u32(self, bytes: Seq<u8>) -> u32
        recommends
            bytes.len() == 4,
    {
        u32_of_le_bytes(self.to_le(bytes))
    }

    /// The 64-bit integer that eight bytes hold in this order.
    pub open spec fn spec_u64(self, bytes: Seq<u8>) -> u64
        recommends
            bytes.len() == 8,
    {
        u64_of_le_bytes(self.to_le(bytes))
    }

    /// The four bytes that hold a 32-bit integer in this order.
    pub open spec fn spec_u32_bytes(self, value: u32) -> Seq<u8> {
        self.to_le(le_bytes_of_u32(value))
    }

    /// Read the 32-bit integer that lies in the four bytes of `buf` from index `at` on.
    pub fn read_u32(self, buf: &[u8], at: usize) -> (value: u32)
        requires
            at + 4 <= buf@.len(),
        ensures
            value == self.spec_u32(buf@.subrange(at as int, at + 4)),
    {
        let b0: u32 = buf[at] as u32;
        let b1: u32 = buf[at + 1] as u32;
        let b2: u32 = buf[at + 2] as u32;
        let b3: u32 = buf[at + 3] as u32;
        match self {
            ByteOrder::Little => b0 + b1 * 0x100 + b2 * 0x1_0000 + b3 * 0x100_0000,
            ByteOrder::Big => b3 + b2 * 0x100 + b1 * 0x1_0000 + b0 * 0x100_0000,
        }
    }

    /// Read the 64-bit integer that lies in the eight bytes of `buf` from index `at` on.
    pub fn read_u64(self, buf: &[u8], at: usize) -> (value: u64)
        requires
            at + 8 <= buf@.len(),
        ensures
            value == self.spec_u64(buf@.subrange(at as int, at + 8)),
    {
        let b0: u64 = buf[at] as u64;
        let b1: u64 = buf[at + 1] as u64;
        let b2: u64 = buf[at + 2] as u64;
        let b3: u64 = buf[at + 3] as u64;
        let b4: u64 = buf[at + 4] as u64;
        let b5: u64 = buf[at + 5] as u64;
        let b6: u64 = buf[at + 6] as u64;
        let b7: u64 = buf[at + 7] as u64;
        match self {
            ByteOrder::Little => b0 + b1 * 0x100 + b2 * 0x1_0000 + b3 * 0x100_0000 + b4
                * 0x1_0000_0000 + b5 * 0x100_0000_0000 + b6 * 0x1_0000_0000_0000 + b7
                * 0x100_0000_0000_0000,
            ByteOrder::Big => b7 + b6 * 0x100 + b5 * 0x1_0000 + b4 * 0x100_0000 + b3
                * 0x1_0000_0000 + b2 * 0x100_0000_0000 + b1 * 0x1_0000_0000_0000 + b0
                * 0x100_0000_0000_0000,
        }
    }

    /// The four bytes that hold a 32-bit integer in this order.
    pub fn write_u32(self, value: u32) -> (bytes: [u8; 4])
        ensures
            bytes@ == self.spec_u32_bytes(value),
    {
        let b0: u8 = (value % 0x100) as u8;
        let b1: u8 = (value / 0x100 % 0x100) as u8;
        let b2: u8 = (value / 0x1_0000 % 0x100) as u8;
        let b3: u8 = (value / 0x100_0000) as u8;
        match self {
            ByteOrder::Little => [b0, b1, b2, b3],
            ByteOrder::Big => [b3, b2, b1, b0],
        }
    }
}

/// The digits in base 256 of the integer made of four digits.
proof fn lemma_digits_of_sum(b0: u32, b1: u32, b2: u32, b3: u32)
    by (bit_vector)
    requires
        b0 <= 0xff,
        b1 <= 0xff,
        b2 <= 0xff,
        b3 <= 0xff,
    ensures
        (b0 + b1 * 0x100 + b2 * 0x1_0000 + b3 * 0x100_0000) <= 0xffff_ffff,
        (b0 + b1 * 0x100 + b2 * 0x1_0000 + b3 * 0x100_0000) % 0x100 == b0,
        (b0 + b1 * 0x100 + b2 * 0x1_0000 + b3 * 0x100_0000) / 0x100 % 0x100 == b1,
        (b0 + b1 * 0x100 + b2 * 0x1_0000 + b3 * 0x100_0000) / 0x1_0000 % 0x100 == b2,
        (b0 + b1 * 0x100 + b2 * 0x1_0000 + b3 * 0x100_0000) / 0x100_0000 == b3,
{
}

/// The integer made of the digits in base 256 of an integer.
proof fn lemma_sum_of_digits(value: u32)
    by (bit_vector)
    ensures
        value % 0x100 + (value / 0x100 % 0x100) * 0x100 + (value / 0x1_0000 % 0x100) * 0x1_0000
            + (value / 0x100_0000) * 0x100_0000 == value,
        value / 0x100_0000 <= 0xff,
{
}

/// A 32-bit integer is read back from the bytes that hold it, in either order.
pub proof fn lemma_u32_round_trip(order: ByteOrder, value: u32)
    ensures
        order.spec_u32_bytes(value).len() == 4,
        order.spec_u32(order.spec_u32_bytes(value)) == value,
{
    let le = le_bytes_of_u32(value);
    assert(order.to_le(order.to_le(le)) =~= le);
    lemma_sum_of_digits(value);
}

/// Four bytes are the ones that hold the integer read from them, in either order.
pub proof fn lemma_u32_bytes_round_trip(order: ByteOrder, bytes: Seq<u8>)
    requires
        bytes.len() == 4,
    ensures
        order.spec_u32_bytes(order.spec_u32(bytes)) == bytes,
{
    let le = order.to_le(bytes);
    lemma_digits_of_sum(le[0] as u32, le[1] as u32, le[2] as u32, le[3] as u32);
    assert(le_bytes_of_u32(u32_of_le_bytes(le)) =~= le);
    assert(order.to_le(le) =~= bytes);
}

/// The first four of eight bytes hold the low half of the 64-bit integer in little-endian
/// order and its high half in big-endian order.
pub proof fn lemma_u32_at_head_of_u64(order: ByteOrder, bytes: Seq<u8>)
    requires
        bytes.len() == 8,
    ensures
        order.spec_u32(bytes.subrange(0, 4)) == match order {
            ByteOrder::Little => order.spec_u64(bytes) % 0x1_0000_0000,
            ByteOrder::Big => order.spec_u64(bytes) / 0x1_0000_0000,
        },
{
    let head = order.to_le(bytes.subrange(0, 4));
    let all = order.to_le(bytes);
    let low: int = all[0] + all[1] * 0x100 + all[2] * 0x1_0000 + all[3] * 0x100_0000;
    let high: int = all[4] + all[5] * 0x100 + all[6] * 0x1_0000 + all[7] * 0x100_0000;
    assert(0 <= low < 0x1_0000_0000);
    assert(0 <= high < 0x1_0000_0000);
    assert(order.spec_u64(bytes) == low + high * 0x1_0000_0000);
    match order {
        ByteOrder::Little => {
            assert(head =~= all.subrange(0, 4));
            assert(order.spec_u32(bytes.subrange(0, 4)) == low);
        },
        ByteOrder::Big => {
            assert(head =~= all.subrange(4, 8));
            assert(order.spec_u32(bytes.subrange(0, 4)) == high);
        },
    }
}

} // verus!
