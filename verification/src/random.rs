//! The number source handed to the network stack. It is not random: the stack
//! only asks for a seed, and the device gets by with a fixed one.
//!
//! Numbers are put together and taken apart in the machine's own byte order, so
//! what comes out depends on whether the machine stores the low byte first. The
//! functions that take that as an argument are exact; the others say what holds
//! on either kind of machine.

use vstd::prelude::*;

verus! {

/// The number every draw returns.
pub const DRAWN: u32 = 1337;

#[derive(Debug, Clone, Copy)]
pub struct RngWrapper;

/// The 64-bit number whose low half is `low` and whose high half is `high`.
pub open spec fn joined(low: u32, high: u32) -> u64 {
    (low + high * 0x1_0000_0000) as u64
}

/// The byte that comes first when `value` is stored.
pub open spec fn leading_byte(value: u32, low_byte_first: bool) -> u8 {
    if low_byte_first {
        (value % 0x100) as u8
    } else {
        (value / 0x100_0000) as u8
    }
}

/// `u16::to_ne_bytes`: the two bytes of `value` as the machine stores them, which is
/// low byte first on some machines and high byte first on the others.
#[verifier::external_body]
fn u16_ne_bytes(value: u16) -> (bytes: [u8; 2])
    ensures
        (bytes[0] == value % 0x100 && bytes[1] == value / 0x100) || (bytes[0] == value / 0x100
            && bytes[1] == value % 0x100),
{
    value.to_ne_bytes()
}

/// Whether this machine stores the low byte of a number first.
fn low_byte_first() -> bool {
    let bytes = u16_ne_bytes(1);
    bytes[0] == 1
}

/// Joins two numbers laid down one after the other, `first` first, on a machine
/// of the given byte order: the one laid down first is the low half exactly when
/// the machine stores low bytes first.
pub fn join_halves(first: u32, second: u32, low_byte_first: bool) -> (pair: u64)
    ensures
        pair == if low_byte_first {
            joined(first, second)
        } else {
            joined(second, first)
        },
{
    let (low, high): (u64, u64) = if low_byte_first {
        (first as u64, second as u64)
    } else {
        (second as u64, first as u64)
    };
    assert(high * 0x1_0000_0000 <= 0xffff_ffff * 0x1_0000_0000) by (nonlinear_arith)
        requires
            high <= 0xffff_ffff,
    ;
    low + high * 0x1_0000_0000
}

/// The first byte of `value` as a machine of the given byte order stores it.
pub fn first_byte(value: u32, low_byte_first: bool) -> (byte: u8)
    ensures
        byte == leading_byte(value, low_byte_first),
{
    if low_byte_first {
        (value % 0x100) as u8
    } else {
        (value / 0x100_0000) as u8
    }
}

/// Join a pair of `u32` into a `u64`, in this machine's byte order.
pub fn u32_pair_to_u64(first: u32, second: u32) -> (pair: u64)
    ensures
        pair == joined(first, second) || pair == joined(second, first),
{
    join_halves(first, second, low_byte_first())
}

impl RngWrapper {
    pub fn new() -> (rng: Self) {
        Self {  }
    }

    pub fn next_u32(&mut self) -> (drawn: u32)
        ensures
            drawn == DRAWN,
    {
        DRAWN
    }

    /// Two draws joined, which is the same number in either byte order.
    pub fn next_u64(&mut self) -> (drawn: u64)
        ensures
            drawn == joined(DRAWN, DRAWN),
    {
        let first = self.next_u32();
        let second = self.next_u32();
        u32_pair_to_u64(first, second)
    }

    /// Fills `dest` with the first byte of the drawn number, the same byte
    /// throughout.
    pub fn fill_bytes(&mut self, dest: &mut [u8])
        ensures
            final(dest)@.len() == old(dest)@.len(),
            (forall|i: int| 0 <= i < final(dest)@.len() ==> final(dest)@[i] == leading_byte(DRAWN, true))
                || (forall|i: int|
                0 <= i < final(dest)@.len() ==> final(dest)@[i] == leading_byte(DRAWN, false)),
    {
        let low_first = low_byte_first();
        let mut i: usize = 0;
        while i < dest.len()
            invariant
                i <= dest@.len(),
                dest@.len() == old(dest)@.len(),
                forall|k: int| 0 <= k < i ==> dest@[k] == leading_byte(DRAWN, low_first),
            decreases dest@.len() - i,
        {
            let random_value: u8 = first_byte(self.next_u32(), low_first);
            dest[i] = random_value;
            i += 1;
        }
    }
}

} // verus!
