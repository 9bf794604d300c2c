//! Network byte order: 16-bit big-endian integers held in a byte buffer.

use vstd::prelude::*;

verus! {

/// The 16-bit big-endian integer held at offset `i` of `b`: the byte at `i`
/// is the most significant one.
pub open spec fn be16(b: Seq<u8>, i: int) -> u16
    recommends
        0 <= i,
        i + 2 <= b.len(),
{
    (b[i] * 256 + b[i + 1]) as u16
}

/// Decode the 16-bit big-endian integer held at offset `off` of `b`.
pub fn get_u16_be(b: &[u8], off: usize) -> (r: u16)
    requires
        off + 2 <= b@.len(),
    ensures
        r == be16(b@, off as int),
{
    let _n: usize = b.len();
    let hi: u8 = *vstd::slice::slice_index_get(b, off);
    let lo: u8 = *vstd::slice::slice_index_get(b, off + 1);
    (hi as u16) * 256 + (lo as u16)
}

/// Encode `value` as two big-endian bytes at offset `off` of `b`, leaving
/// every other byte unchanged.
pub fn set_u16_be(b: &mut Vec<u8>, off: usize, value: u16)
    requires
        off + 2 <= old(b)@.len(),
    ensures
        final(b)@ == old(b)@.update(off as int, (value / 256) as u8).update(
            off as int + 1,
            (value % 256) as u8,
        ),
        final(b)@.len() == old(b)@.len(),
        be16(final(b)@, off as int) == value,
        forall|i: int|
            0 <= i < old(b)@.len() && i != off && i != off + 1 ==> final(b)@[i] == old(b)@[i],
{
    let _n: usize = b.len();
    let hi: u8 = (value / 256) as u8;
    let lo: u8 = (value % 256) as u8;
    b[off] = hi;
    b[off + 1] = lo;
}

} // verus!
