use boot_sequence::console::{banner, describe, panic_line_byte};
use boot_sequence::description::DescriptionError;
use boot_sequence::sequence::BootError;

fn panic_line(message: &[u8]) -> Vec<u8> {
    let mut line = Vec::new();
    let mut index = 0;
    while let Some(b) = panic_line_byte(message, index) {
        line.push(b);
        index += 1;
    }
    line
}

#[test]
fn panic_line_is_highlighted_prefix_message_newline() {
    assert_eq!(panic_line(b"boom"), b"\x1b[31mKERNEL PANIC:\x1b[0m boom\n".to_vec());
    assert_eq!(panic_line(b""), b"\x1b[31mKERNEL PANIC:\x1b[0m \n".to_vec());
    assert_eq!(panic_line(b"a\nb").len(), 23 + 3 + 1);
}

#[test]
fn panic_line_ends_after_the_line_feed() {
    assert_eq!(panic_line_byte(b"boom", 0), Some(0x1b));
    assert_eq!(panic_line_byte(b"boom", 22), Some(b' '));
    assert_eq!(panic_line_byte(b"boom", 23), Some(b'b'));
    assert_eq!(panic_line_byte(b"boom", 26), Some(b'm'));
    assert_eq!(panic_line_byte(b"boom", 27), Some(b'\n'));
    assert_eq!(panic_line_byte(b"boom", 28), None);
    assert_eq!(panic_line_byte(b"boom", usize::MAX), None);
    assert_eq!(panic_line_byte(b"", 23), Some(b'\n'));
    assert_eq!(panic_line_byte(b"", 24), None);
}

#[test]
fn banner_names_the_system() {
    assert_eq!(banner(), "Booting mlibc-demo-os...");
}

#[test]
fn every_reason_has_its_words() {
    assert_eq!(
        describe(BootError::MalformedDescription(DescriptionError::BadMagic)),
        "hardware description: bad magic value"
    );
    assert_eq!(
        describe(BootError::MalformedDescription(DescriptionError::BadPointer)),
        "hardware description: null pointer"
    );
    assert_eq!(
        describe(BootError::MalformedDescription(DescriptionError::BufferTooSmall)),
        "hardware description: buffer too small"
    );
    assert_eq!(describe(BootError::NoUsableMemory), "no usable memory region");
    assert_eq!(describe(BootError::OutOfMemory), "out of page frames");
    assert_eq!(describe(BootError::CodePageUnmapped), "boot code page is not identity-mapped");
    assert_eq!(describe(BootError::Fault), "fault");
}
