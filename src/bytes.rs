//! Little-endian integers as they stand on the wire.
use vstd::prelude::*;

verus! {

/// The value of two bytes read least significant first.
pub open spec fn le16(b0: u8, b1: u8) -> int {
    b0 + 256 * b1
}

/// The value of four bytes read least significant first.
pub open spec fn le32(b0: u8, b1: u8, b2: u8, b3: u8) -> int {
    le16(b0, b1) + 65536 * le16(b2, b3)
}

/// Reads a 16-bit integer from the first two bytes of `buf`, least
/// significant byte first.
pub fn read_u16_big_endian(buf: &[u8]) -> (r: u16)
    requires
        buf@.len() >= 2,
    ensures
        r == le16(buf@[0], buf@[1]),
{
    let lo = buf[0];
    let hi = buf[1];
    let r: u16 = ((hi as u16) << 8) | lo as u16;
    assert(((hi as u16) << 8) | lo as u16 == lo + 256 * hi) by (bit_vector);
    r
}

/// Reads a 32-bit integer from the first four bytes of `buf`, least
/// significant byte first.
pub fn read_u32_big_endian(buf: &[u8]) -> (r: u32)
    requires
        buf@.len() >= 4,
    ensures
        r == le32(buf@[0], buf@[1], buf@[2], buf@[3]),
{
    let mut n: u32 = 0;
    let mut i: usize = 0;
    while i < 4
        invariant
            i <= 4,
            buf@.len() >= 4,
            n == le_tail(buf@, 4 - i),
        decreases 4 - i,
    {
        let b = buf[3 - i];
        assert(n < 0x100_0000) by {
            lemma_le_tail_bound(buf@, 4 - i);
            reveal_with_fuel(pow256, 4);
        }
        assert(n < 0x100_0000 ==> (n << 8) | b as u32 == n * 256 + b) by (bit_vector);
        n = (n << 8) | b as u32;
        i = i + 1;
    }
    proof {
        reveal_with_fuel(le_tail, 5);
    }
    n
}

/// The value of the bytes of `s` from `from` up to index 3, least significant
/// first.
spec fn le_tail(s: Seq<u8>, from: int) -> int
    decreases 4 - from,
{
    if from >= 4 || from < 0 {
        0
    } else {
        s[from] + 256 * le_tail(s, from + 1)
    }
}

proof fn lemma_le_tail_bound(s: Seq<u8>, from: int)
    requires
        0 <= from <= 4,
        s.len() >= 4,
    ensures
        0 <= le_tail(s, from) < pow256(4 - from),
    decreases 4 - from,
{
    if from < 4 {
        lemma_le_tail_bound(s, from + 1);
    }
}

spec fn pow256(k: int) -> int
    decreases k,
{
    if k <= 0 {
        1
    } else {
        256 * pow256(k - 1)
    }
}

} // verus!
