//! The boot-supplied hardware description: the check of its header and the
//! memory regions it announces.

use vstd::prelude::*;

verus! {

/// Bytes in the fixed header that opens a flattened device tree.
pub const HEADER_LEN: usize = 40;

/// The structural tag that the first four bytes must spell, big-endian.
pub const MAGIC: u32 = 0xd00d_feed;

/// Why a blob was rejected as a hardware description.
#[derive(Clone, Copy, Debug, PartialEq, Eq, Structural)]
pub enum DescriptionError {
    /// The structural tag is not the device-tree magic.
    BadMagic,
    /// No blob was supplied at all.
    BadPointer,
    /// The blob is shorter than its header, or than the size its header
    /// declares.
    BufferTooSmall,
}

/// A run of physical memory announced by the hardware description.
#[derive(Clone, Copy, Debug, PartialEq, Eq, Structural)]
pub struct MemoryRegion {
    /// First address of the region.
    pub base: u64,
    /// Bytes in the region.
    pub length: u64,
}

/// The big-endian 32-bit number that starts at `at`.
pub open spec fn be_u32(bytes: Seq<u8>, at: int) -> int {
    bytes[at] * 0x100_0000 + bytes[at + 1] * 0x1_0000 + bytes[at + 2] * 0x100 + bytes[at + 3]
}

/// The structural tag of a blob of at least four bytes.
pub open spec fn header_magic(blob: Seq<u8>) -> int {
    be_u32(blob, 0)
}

/// The total size that the header of a blob declares.
pub open spec fn header_total_size(blob: Seq<u8>) -> int {
    be_u32(blob, 4)
}

/// What the header check says of a blob: too short for a header, then a wrong
/// tag, then shorter than the declared size, in that order.
pub open spec fn header_verdict(blob: Seq<u8>) -> Result<(), DescriptionError> {
    if blob.len() < 40 {
        Err(DescriptionError::BufferTooSmall)
    } else if header_magic(blob) != 0xd00d_feed {
        Err(DescriptionError::BadMagic)
    } else if blob.len() < header_total_size(blob) {
        Err(DescriptionError::BufferTooSmall)
    } else {
        Ok(())
    }
}

/// Calls `fdt::Fdt::new` and keeps only whether it accepted the blob. Trusted:
/// the constructor reads ten big-endian words of header, refuses a blob that
/// is too short for them, then one whose first word is not the magic, then one
/// shorter than its second word, and accepts every other blob.
#[verifier::external_body]
fn parse_header(blob: &[u8]) -> (r: Result<(), DescriptionError>)
    ensures
        r == header_verdict(blob@),
{
    match fdt::Fdt::new(blob) {
        Ok(_) => Ok(()),
        Err(fdt::FdtError::BadMagic) => Err(DescriptionError::BadMagic),
        Err(fdt::FdtError::BadPtr) => Err(DescriptionError::BadPointer),
        Err(fdt::FdtError::BufferTooSmall) => Err(DescriptionError::BufferTooSmall),
    }
}

/// Checks the header of a hardware description. A blob passes exactly when it
/// holds a whole header, carries the magic tag and is at least as long as the
/// header says.
pub fn validate(blob: &[u8]) -> (r: Result<(), DescriptionError>)
    ensures
        r == header_verdict(blob@),
        r.is_ok() <==> blob@.len() >= 40 && header_magic(blob@) == MAGIC && header_total_size(
            blob@,
        ) <= blob@.len(),
        r == Err::<(), DescriptionError>(DescriptionError::BadMagic) <==> blob@.len() >= 40
            && header_magic(blob@) != MAGIC,
        r != Err::<(), DescriptionError>(DescriptionError::BadPointer),
{
    parse_header(blob)
}

/// The total size that a header declares, for a blob long enough to hold the
/// field; the caller uses it to know how many bytes the description spans.
pub fn declared_size(header: &[u8]) -> (r: Option<u32>)
    ensures
        r.is_some() <==> header@.len() >= 8,
        r.is_some() ==> r.unwrap() == header_total_size(header@),
{
    if header.len() < 8 {
        return None;
    }
    let b0: u32 = header[4] as u32;
    let b1: u32 = header[5] as u32;
    let b2: u32 = header[6] as u32;
    let b3: u32 = header[7] as u32;
    Some(b0 * 0x100_0000 + b1 * 0x1_0000 + b2 * 0x100 + b3)
}

} // verus!
