//! A write-only file system: every write is handed to a discard sink and
//! reported as fully done; namespace entries are made up on demand.

mod error;
mod handle;
mod lifecycle;
mod namespace;
mod ops;
mod sink;

pub use error::{SinkFault, WofsError};
pub use handle::{SinkHandle, SlotInPhase};
pub use lifecycle::WofsModule;
pub use namespace::{
    entry_mode, fabricate_step, file_entry, issue_step, lemma_lookup_ignores_mkdir,
    lemma_lookups_distinct, mode_spec,
    root_entry, type_bits, Entry, NodeKind, WofsFileSystem, WofsInodeOps, FILE_PERM,
    FIRST_FILE_INO, MODE_DIR, MODE_REG, PERM_MAX, ROOT_INO, ROOT_PERM,
};
pub use ops::{write_outcome, WofsDevice, WofsFileOps};
pub use sink::{
    forward, forward_step, lemma_serialized_writes, lemma_write_after_release, release_step,
    reported_total, total_len, DiscardSink, Phase, SinkSlot,
};
