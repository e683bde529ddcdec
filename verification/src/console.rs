//! The text that the boot sequence sends to the console sink.

use vstd::prelude::*;
use crate::description::DescriptionError;
use crate::sequence::BootError;

verus! {

/// What opens a panic line: the words `KERNEL PANIC:` in red, then a space.
pub open spec fn panic_prefix() -> Seq<u8> {
    seq![
        0x1bu8, 0x5b, 0x33, 0x31, 0x6d,
        0x4b, 0x45, 0x52, 0x4e, 0x45, 0x4c, 0x20, 0x50, 0x41, 0x4e, 0x49, 0x43, 0x3a,
        0x1b, 0x5b, 0x30, 0x6d,
        0x20,
    ]
}

/// The whole panic line for a message: prefix, message, line feed.
pub open spec fn panic_line_of(message: Seq<u8>) -> Seq<u8> {
    panic_prefix() + message + seq![0x0au8]
}

/// The words that name a reason for giving up.
pub open spec fn reason_text(reason: BootError) -> Seq<char> {
    match reason {
        BootError::MalformedDescription(DescriptionError::BadMagic) =>
            "hardware description: bad magic value"@,
        BootError::MalformedDescription(DescriptionError::BadPointer) =>
            "hardware description: null pointer"@,
        BootError::MalformedDescription(DescriptionError::BufferTooSmall) =>
            "hardware description: buffer too small"@,
        BootError::NoUsableMemory => "no usable memory region"@,
        BootError::OutOfMemory => "out of page frames"@,
        BootError::CodePageUnmapped => "boot code page is not identity-mapped"@,
        BootError::Fault => "fault"@,
    }
}

/// The banner that the console shows first.
pub fn banner() -> (s: &'static str)
    ensures
        s@ == "Booting mlibc-demo-os..."@,
{
    "Booting mlibc-demo-os..."
}

/// The words that name `reason` on the panic line.
pub fn describe(reason: BootError) -> (s: &'static str)
    ensures
        s@ == reason_text(reason),
{
    match reason {
        BootError::MalformedDescription(e) => match e {
            DescriptionError::BadMagic => "hardware description: bad magic value",
            DescriptionError::BadPointer => "hardware description: null pointer",
            DescriptionError::BufferTooSmall => "hardware description: buffer too small",
        },
        BootError::NoUsableMemory => "no usable memory region",
        BootError::OutOfMemory => "out of page frames",
        BootError::CodePageUnmapped => "boot code page is not identity-mapped",
        BootError::Fault => "fault",
    }
}

/// The byte at `index` of the panic line for `message`, or nothing once the
/// line is over. The console sink sends the line byte by byte, so that a
/// panic never needs memory from the allocator.
pub fn panic_line_byte(message: &[u8], index: usize) -> (r: Option<u8>)
    ensures
        r == if index < panic_line_of(message@).len() {
            Some(panic_line_of(message@)[index as int])
        } else {
            None::<u8>
        },
{
    let prefix: [u8; 23] = [
        0x1bu8, 0x5b, 0x33, 0x31, 0x6d,
        0x4b, 0x45, 0x52, 0x4e, 0x45, 0x4c, 0x20, 0x50, 0x41, 0x4e, 0x49, 0x43, 0x3a,
        0x1b, 0x5b, 0x30, 0x6d,
        0x20,
    ];
    assert(prefix@ =~= panic_prefix());
    assert(panic_line_of(message@).len() == 23 + message@.len() + 1);
    if index < 23 {
        Some(prefix[index])
    } else if index - 23 < message.len() {
        Some(message[index - 23])
    } else if index - 23 == message.len() {
        Some(0x0a)
    } else {
        None
    }
}

} // verus!
