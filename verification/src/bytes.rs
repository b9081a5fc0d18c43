//! Little-endian numbers in a buffer.

use vstd::prelude::*;

verus! {

/// The unsigned number in the three bytes of `b` that start at `at`, lowest
/// byte first.
pub open spec fn le_u24(b: Seq<u8>, at: int) -> int {
    b[at] + 256 * b[at + 1] + 65536 * b[at + 2]
}

/// The signed 16-bit number in the two bytes of `b` that start at `at`,
/// lowest byte first, in two's complement.
pub open spec fn le_i16(b: Seq<u8>, at: int) -> int {
    let unsigned = b[at] + 256 * b[at + 1];
    if unsigned >= 0x8000 {
        unsigned - 0x1_0000
    } else {
        unsigned
    }
}

/// The signed 32-bit number in the four bytes of `b` that start at `at`,
/// lowest byte first, in two's complement.
pub open spec fn le_i32(b: Seq<u8>, at: int) -> int {
    let unsigned = b[at] + 256 * b[at + 1] + 65536 * b[at + 2] + 16777216 * b[at + 3];
    if unsigned >= 0x8000_0000 {
        unsigned - 0x1_0000_0000
    } else {
        unsigned
    }
}

/// Reads a signed 16-bit number, lowest byte first.
pub fn i16_from_le(b: &[u8], at: usize) -> (value: i16)
    requires
        at + 2 <= b@.len(),
    ensures
        value == le_i16(b@, at as int),
{
    let total: usize = b.len();
    let unsigned: i32 = b[at] as i32 + 256 * (b[at + 1] as i32);
    if unsigned >= 0x8000 {
        (unsigned - 0x1_0000) as i16
    } else {
        unsigned as i16
    }
}

/// Reads a signed 32-bit number, lowest byte first.
pub fn i32_from_le(b: &[u8], at: usize) -> (value: i32)
    requires
        at + 4 <= b@.len(),
    ensures
        value == le_i32(b@, at as int),
{
    let total: usize = b.len();
    let unsigned: i64 = b[at] as i64 + 256 * (b[at + 1] as i64) + 65536 * (b[at + 2] as i64)
        + 16777216 * (b[at + 3] as i64);
    if unsigned >= 0x8000_0000 {
        (unsigned - 0x1_0000_0000) as i32
    } else {
        unsigned as i32
    }
}

/// Whether the four bytes of `b` that start at `at` are `w`, `x`, `y`, `z`.
pub fn four_are(b: &[u8], at: usize, w: u8, x: u8, y: u8, z: u8) -> (same: bool)
    requires
        at + 4 <= b@.len(),
    ensures
        same == (b@.subrange(at as int, at + 4) == seq![w, x, y, z]),
{
    let total: usize = b.len();
    let same = b[at] == w && b[at + 1] == x && b[at + 2] == y && b[at + 3] == z;
    proof {
        let part = b@.subrange(at as int, at + 4);
        assert(part[0] == b@[at as int] && part[1] == b@[at + 1] && part[2] == b@[at + 2]
            && part[3] == b@[at + 3]);
        if same {
            assert(part =~= seq![w, x, y, z]);
        }
    }
    same
}

} // verus!
