//! Reading fields out of device replies, and the reply of the kernel to a
//! command.

use vstd::prelude::*;

verus! {

/// The little-endian 16-bit word at byte `offset` of `data`. A word that the
/// data does not reach reads as zero.
pub open spec fn le16_at(data: Seq<u8>, offset: int) -> int {
    if 0 <= offset && offset + 1 < data.len() {
        data[offset] as int + 256 * (data[offset + 1] as int)
    } else {
        0
    }
}

/// Reads the little-endian 16-bit word at byte `offset`.
pub fn read_le16(data: &[u8], offset: usize) -> (word: u16)
    ensures
        word == le16_at(data@, offset as int),
{
    if offset < data.len() && data.len() - offset > 1 {
        let lo: u16 = data[offset] as u16;
        let hi: u16 = data[offset + 1] as u16;
        lo + 256 * hi
    } else {
        0
    }
}

/// What the kernel answered to one command sent through an I/O control.
#[derive(Debug, Clone, Copy, PartialEq, Eq, Structural)]
pub enum CommandReply {
    /// The control call returned without error.
    Accepted,
    /// The control call failed; `errno` is the error code of the operating
    /// system.
    Rejected { errno: i32 },
}

} // verus!
