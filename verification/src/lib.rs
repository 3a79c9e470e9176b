//! Execution-state journaling and replay for a sandboxed runtime that exposes
//! a POSIX-like system-call surface to guest programs.
//!
//! Every observable effect a guest system call produces (descriptor creation,
//! duplication, closure, ...) is recorded as a [`entry::JournalEntry`] in an
//! append-only [`journal::Journal`].  Replaying that journal against a freshly
//! started instance reconstructs an equivalent descriptor table, even though
//! the identifiers the underlying allocator hands out may differ between the
//! original run and the replay: descriptor-producing entries are renumbered
//! back to the recorded identifier before any later entry is applied.

pub mod consent;
pub mod effector;
pub mod entry;
pub mod errors;
pub mod fs;
pub mod instance;
pub mod journal;
pub mod output;
pub mod replay;
pub mod semantics;
pub mod syscalls;
