use vstd::prelude::*;

verus! {

/// One access to a device's register window; offsets are relative to the
/// window's base.
#[derive(Debug, Clone, Copy, PartialEq, Eq, Structural)]
pub enum MmioOp {
    Read8(usize),
    Read16(usize),
    Read32(usize),
    Read64(usize),
    Write8(usize, u8),
    Write16(usize, u16),
    Write32(usize, u32),
    Write64(usize, u64),
}

/// Polls that most bring-up waits make before they give up.
pub const POLLS_SHORT: u32 = 1000;
pub const POLLS_LONG: u32 = 10000;

/// A PCI-style id register that reads as all ones or zero has no device
/// behind it.
pub fn id_absent16(v: u16) -> (r: bool)
    ensures
        r == (v == 0xFFFF || v == 0),
{
    v == 0xFFFF || v == 0
}

pub fn id_absent32(v: u32) -> (r: bool)
    ensures
        r == (v == 0xFFFF || v == 0),
{
    v == 0xFFFF || v == 0
}

/// Bit 0 of a register is set.
pub fn bit0_set(v: u32) -> (r: bool)
    ensures
        r == (v & 1 != 0),
{
    v & 1 != 0
}

} // verus!
