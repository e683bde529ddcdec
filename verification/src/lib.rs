//! Boot sequencing for a single-hart supervisor kernel: the decisions of the
//! entry sequence, the page-frame allocator it bootstraps, and the encoding of
//! the translation-control word, each with a machine-checked contract.

pub mod allocator;
pub mod console;
pub mod description;
pub mod paging;
pub mod sequence;
