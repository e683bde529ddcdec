//! The root translation table as the boot sequence sees it, and the word that
//! switches the hart to translated addressing.

use vstd::prelude::*;

verus! {

/// Bytes in one page frame.
pub const PAGE_SIZE: u64 = 4096;

/// Paging-mode tag for three-level (Sv39) translation.
pub const MODE_SV39: u64 = 8;

/// Mask of the frame-number field of the translation-control word.
pub const FRAME_MASK: u64 = 0xfff_ffff_ffff;

/// First physical address that no longer fits the frame-number field.
pub const PHYSICAL_LIMIT: u64 = 0x100_0000_0000_0000;

/// `addr` lies on a page boundary.
pub open spec fn is_page_aligned(addr: int) -> bool {
    addr % 4096 == 0
}

/// The translation-control word for a root table at `base`: the mode tag in
/// the top four bits, the table's frame number below.
pub open spec fn translation_control_word(base: u64) -> u64 {
    (8u64 << 60) | (base >> 12)
}

/// The paging-mode tag held by a translation-control word.
pub open spec fn word_mode(word: u64) -> u64 {
    word >> 60
}

/// The physical address of the root table selected by a translation-control
/// word.
pub open spec fn word_root_address(word: u64) -> u64 {
    (word & 0xfff_ffff_ffffu64) << 12
}

/// Encoding then decoding returns the table's address and the Sv39 tag,
/// for every page-aligned address that the frame-number field can hold.
pub proof fn lemma_word_round_trip(base: u64)
    requires
        is_page_aligned(base as int),
        base < PHYSICAL_LIMIT,
    ensures
        word_mode(translation_control_word(base)) == MODE_SV39,
        word_root_address(translation_control_word(base)) == base,
{
    assert(base % 4096 == 0 && base < 0x100_0000_0000_0000u64 ==> ((((8u64 << 60) | (base >> 12))
        & 0xfff_ffff_ffffu64) << 12) == base) by (bit_vector);
    assert((((8u64 << 60) | (base >> 12)) >> 60) == 8u64) by (bit_vector);
}

/// The mode tag survives whatever address is encoded: the frame number never
/// reaches the top four bits.
pub proof fn lemma_word_mode(base: u64)
    ensures
        word_mode(translation_control_word(base)) == MODE_SV39,
        translation_control_word(base) & FRAME_MASK == (base / 4096) & FRAME_MASK,
{
    assert((((8u64 << 60) | (base >> 12)) >> 60) == 8u64) by (bit_vector);
    assert(((8u64 << 60) | (base >> 12)) & 0xfff_ffff_ffffu64 == (base / 4096) & 0xfff_ffff_ffffu64)
        by (bit_vector);
}

/// Handle on a root translation table: its physical base address, which is
/// always page-aligned.
#[derive(Clone, Copy, Debug, PartialEq, Eq, Structural)]
pub struct RootPageTable {
    base: u64,
}

impl RootPageTable {
    #[verifier::type_invariant]
    spec fn aligned(self) -> bool {
        self.base % 4096 == 0
    }

    /// Physical base address of the table.
    pub closed spec fn address(self) -> u64 {
        self.base
    }

    /// A handle on the table at `base`, if `base` is page-aligned.
    pub fn at(base: u64) -> (r: Option<RootPageTable>)
        ensures
            r.is_some() <==> is_page_aligned(base as int),
            r.is_some() ==> r.unwrap().address() == base,
    {
        if base % PAGE_SIZE == 0 {
            Some(RootPageTable { base })
        } else {
            None
        }
    }

    /// A handle on the table that occupies the page frame at `frame`.
    pub(crate) fn from_frame(frame: u64) -> (r: RootPageTable)
        requires
            is_page_aligned(frame as int),
        ensures
            r.address() == frame,
    {
        RootPageTable { base: frame }
    }

    /// Physical base address of the table.
    pub fn base(&self) -> (r: u64)
        ensures
            r == self.address(),
            is_page_aligned(r as int),
    {
        proof {
            use_type_invariant(self);
        }
        self.base
    }

    /// The word to write to the translation-control register to make this
    /// table the active root. The address is page-aligned when it is encoded,
    /// so no address bit is lost by the shift.
    pub fn translation_control(&self) -> (word: u64)
        ensures
            is_page_aligned(self.address() as int),
            word == translation_control_word(self.address()),
            word_mode(word) == MODE_SV39,
            word & FRAME_MASK == (self.address() / 4096) & FRAME_MASK,
            self.address() < PHYSICAL_LIMIT ==> word_root_address(word) == self.address(),
    {
        proof {
            use_type_invariant(self);
            lemma_word_mode(self.base);
            if self.base < PHYSICAL_LIMIT {
                lemma_word_round_trip(self.base);
            }
        }
        (MODE_SV39 << 60) | (self.base >> 12)
    }
}

} // verus!
