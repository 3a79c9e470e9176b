//! The entry schema: a closed, tagged set of journalable effect descriptors,
//! one variant per system-call family.
//!
//! Each variant is a pure value carrying exactly the fields needed to
//! reproduce its effect; constructing one performs no I/O.  An entry is
//! self-contained: applying it needs nothing beyond its own fields plus the
//! target instance's current state.

use vstd::prelude::*;

verus! {

/// One tagged, immutable record of a single completed system-call effect.
#[derive(Debug)]
pub enum JournalEntry {
    /// A path was opened and became visible to the guest as descriptor `fd`.
    OpenFileDescriptor {
        /// The guest-visible descriptor identifier the call returned.
        fd: u32,
        /// The directory descriptor the path was resolved against.
        dirfd: u32,
        /// Path lookup flags (symlink following and the like).
        dirflags: u32,
        /// The path that was opened.
        path: String,
        /// Open flags (creation, truncation, ...).
        o_flags: u16,
        /// Rights requested on the new descriptor.
        fs_rights_base: u64,
        /// Rights inherited by descriptors derived from this one.
        fs_rights_inheriting: u64,
        /// Descriptor flags (append mode and the like).
        fs_flags: u16,
    },
    /// Descriptor `original_fd` was duplicated to `copied_fd`; when
    /// `close_original` is set the duplication also closed the source.
    DuplicateFd { original_fd: u32, copied_fd: u32, close_original: bool },
    /// Descriptor `fd` was closed.
    CloseFd { fd: u32 },
}

/// Mathematical value of a [`JournalEntry`]: the same tag and fields, with
/// the path as a sequence of characters.
#[verifier::ext_equal]
pub enum EntryView {
    /// Value of [`JournalEntry::OpenFileDescriptor`].
    OpenFileDescriptor {
        fd: u32,
        dirfd: u32,
        dirflags: u32,
        path: Seq<char>,
        o_flags: u16,
        fs_rights_base: u64,
        fs_rights_inheriting: u64,
        fs_flags: u16,
    },
    /// Value of [`JournalEntry::DuplicateFd`].
    DuplicateFd { original_fd: u32, copied_fd: u32, close_original: bool },
    /// Value of [`JournalEntry::CloseFd`].
    CloseFd { fd: u32 },
}

impl View for JournalEntry {
    type V = EntryView;

    open spec fn view(&self) -> EntryView {
        match self {
            JournalEntry::OpenFileDescriptor {
                fd,
                dirfd,
                dirflags,
                path,
                o_flags,
                fs_rights_base,
                fs_rights_inheriting,
                fs_flags,
            } => EntryView::OpenFileDescriptor {
                fd: *fd,
                dirfd: *dirfd,
                dirflags: *dirflags,
                path: path@,
                o_flags: *o_flags,
                fs_rights_base: *fs_rights_base,
                fs_rights_inheriting: *fs_rights_inheriting,
                fs_flags: *fs_flags,
            },
            JournalEntry::DuplicateFd { original_fd, copied_fd, close_original } => (
                EntryView::DuplicateFd {
                    original_fd: *original_fd,
                    copied_fd: *copied_fd,
                    close_original: *close_original,
                }
            ),
            JournalEntry::CloseFd { fd } => EntryView::CloseFd { fd: *fd },
        }
    }
}

} // verus!
