use vstd::prelude::*;

verus! {

/// Little-endian 16-bit value at `off`.
pub open spec fn le16(b: Seq<u8>, off: int) -> u16 {
    (b[off] as u16) | ((b[off + 1] as u16) << 8u16)
}

/// Little-endian 32-bit value at `off`.
pub open spec fn le32(b: Seq<u8>, off: int) -> u32 {
    (((b[off] as u32) | ((b[off + 1] as u32) << 8u32)) | ((b[off + 2] as u32) << 16u32)) | ((b[off + 3] as u32) << 24u32)
}

/// Little-endian 64-bit value at `off`.
pub open spec fn le64(b: Seq<u8>, off: int) -> u64 {
    (le32(b, off) as u64) | ((le32(b, off + 4) as u64) << 32u64)
}

pub fn read_le16(b: &[u8], off: usize) -> (r: u16)
    requires
        off + 2 <= b@.len(),
    ensures
        r == le16(b@, off as int),
{
    (b[off] as u16) | ((b[off + 1] as u16) << 8u16)
}

pub fn read_le32(b: &[u8], off: usize) -> (r: u32)
    requires
        off + 4 <= b@.len(),
    ensures
        r == le32(b@, off as int),
{
    (((b[off] as u32) | ((b[off + 1] as u32) << 8u32)) | ((b[off + 2] as u32) << 16u32)) | ((b[off + 3] as u32) << 24u32)
}

pub fn read_le64(b: &[u8], off: usize) -> (r: u64)
    requires
        off + 8 <= b@.len(),
    ensures
        r == le64(b@, off as int),
{
    let n = b.len();
    (read_le32(b, off) as u64) | ((read_le32(b, off + 4) as u64) << 32u64)
}

/// `n` bytes of `b` starting at `off`, as an array.
pub fn read_array4(b: &[u8], off: usize) -> (r: [u8; 4])
    requires
        off + 4 <= b@.len(),
    ensures
        r@ == b@.subrange(off as int, off + 4),
{
    let r = [b[off], b[off + 1], b[off + 2], b[off + 3]];
    assert(r@ =~= b@.subrange(off as int, off + 4));
    r
}

pub fn read_array6(b: &[u8], off: usize) -> (r: [u8; 6])
    requires
        off + 6 <= b@.len(),
    ensures
        r@ == b@.subrange(off as int, off + 6),
{
    let r = [b[off], b[off + 1], b[off + 2], b[off + 3], b[off + 4], b[off + 5]];
    assert(r@ =~= b@.subrange(off as int, off + 6));
    r
}

pub fn read_array8(b: &[u8], off: usize) -> (r: [u8; 8])
    requires
        off + 8 <= b@.len(),
    ensures
        r@ == b@.subrange(off as int, off + 8),
{
    let r = [b[off], b[off + 1], b[off + 2], b[off + 3], b[off + 4], b[off + 5], b[off + 6], b[off + 7]];
    assert(r@ =~= b@.subrange(off as int, off + 8));
    r
}

} // verus!
