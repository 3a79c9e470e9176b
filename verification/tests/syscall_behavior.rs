//! Behavior of the journaled guest-facing calls: ordering, the
//! pending-operation gate, failed calls, and the fail-fast journaling policy.

use wasix_journal::entry::JournalEntry;
use wasix_journal::errors::{Errno, WasiError};
use wasix_journal::fs::HostFs;
use wasix_journal::instance::{PendingOp, WasiEnv};
use wasix_journal::semantics::OFLAGS_CREATE;
use wasix_journal::syscalls::{fd_close, fd_dup, path_open};

/// Order preservation: N successful journalable calls store exactly N
/// entries, read back in the order the calls completed.
#[test]
fn journal_preserves_call_order() {
    let mut env = WasiEnv::new(true);
    let mut host = HostFs::new();

    let fd0 = path_open(&mut env, &mut host, 0, 0, "/a".to_owned(), OFLAGS_CREATE, 0, 0, 0)
        .unwrap()
        .unwrap();
    let fd1 = fd_dup(&mut env, fd0).unwrap().unwrap();
    fd_close(&mut env, fd1).unwrap().unwrap();

    assert_eq!(env.journal.len(), 3);
    assert!(matches!(
        env.journal.get(0),
        JournalEntry::OpenFileDescriptor { .. }
    ));
    assert!(matches!(
        env.journal.get(1),
        JournalEntry::DuplicateFd { close_original: false, .. }
    ));
    assert!(matches!(env.journal.get(2), JournalEntry::CloseFd { .. }));
}

/// The recorded open entry carries every field of the completed call.
#[test]
fn open_entry_carries_call_fields() {
    let mut env = WasiEnv::new(true);
    let mut host = HostFs::new();
    host.add_path("/data/in");

    let fd = path_open(&mut env, &mut host, 4, 1, "/data/in".to_owned(), 0, 0xaa, 0x55, 2)
        .unwrap()
        .unwrap();
    assert_eq!(fd, 0);
    match env.journal.get(0) {
        JournalEntry::OpenFileDescriptor {
            fd: efd,
            dirfd,
            dirflags,
            path,
            o_flags,
            fs_rights_base,
            fs_rights_inheriting,
            fs_flags,
        } => {
            assert_eq!(*efd, fd);
            assert_eq!(*dirfd, 4);
            assert_eq!(*dirflags, 1);
            assert_eq!(path, "/data/in");
            assert_eq!(*o_flags, 0);
            assert_eq!(*fs_rights_base, 0xaa);
            assert_eq!(*fs_rights_inheriting, 0x55);
            assert_eq!(*fs_flags, 2);
        }
        JournalEntry::DuplicateFd { .. } | JournalEntry::CloseFd { .. } => {
            panic!("wrong entry kind recorded")
        }
    }
}

/// No journaling of failed effects: a call that fails before producing its
/// effect leaves the journal length unchanged.
#[test]
fn failed_calls_are_not_journaled() {
    let mut env = WasiEnv::new(true);
    let mut host = HostFs::new();

    // Opening a missing path without asking to create it fails...
    let r = path_open(&mut env, &mut host, 0, 0, "/absent".to_owned(), 0, 0, 0, 0).unwrap();
    assert_eq!(r, Err(Errno::Noent));
    // ...duplicating and closing descriptors that are not open fails...
    assert_eq!(fd_dup(&mut env, 9).unwrap(), Err(Errno::Badf));
    assert_eq!(fd_close(&mut env, 9).unwrap(), Err(Errno::Badf));
    // ...and none of it was journaled.
    assert_eq!(env.journal.len(), 0);
    assert!(env.fds.lookup(0).is_none());
}

/// Fail-fast journaling: when the journal's storage cannot record the
/// append, the completed call surfaces a fatal, instance-terminating error —
/// and the journal shows no partial entry.
#[test]
fn journaling_failure_terminates_instance() {
    let mut env = WasiEnv::new(true);
    env.journal_storage_ok = false;
    let mut host = HostFs::new();

    let r = path_open(&mut env, &mut host, 0, 0, "/a".to_owned(), OFLAGS_CREATE, 0, 0, 0);
    assert_eq!(r, Err(WasiError::Exit(Errno::Fault)));
    assert_eq!(env.journal.len(), 0);
    // The effect itself had already happened when journaling failed.
    assert!(env.fds.lookup(0).is_some());
}

/// A disabled journal records nothing, while the calls still take effect.
#[test]
fn disabled_journal_records_nothing() {
    let mut env = WasiEnv::new(false);
    let mut host = HostFs::new();

    let fd = path_open(&mut env, &mut host, 0, 0, "/a".to_owned(), OFLAGS_CREATE, 0, 0, 0)
        .unwrap()
        .unwrap();
    fd_dup(&mut env, fd).unwrap().unwrap();
    assert_eq!(env.journal.len(), 0);
    assert!(env.fds.lookup(fd).is_some());
}

/// The pending-operation gate drains all deferred work, in queue order, at
/// the start of every call — even one that then fails.
#[test]
fn pending_operations_drain_before_every_call() {
    let mut env = WasiEnv::new(true);
    let mut host = HostFs::new();
    env.pending.push(PendingOp::Signal(9));
    env.pending.push(PendingOp::Unwind);

    let r = path_open(&mut env, &mut host, 0, 0, "/absent".to_owned(), 0, 0, 0, 0).unwrap();
    assert_eq!(r, Err(Errno::Noent));
    assert!(env.pending.is_empty());
    assert_eq!(env.handled, vec![PendingOp::Signal(9), PendingOp::Unwind]);

    env.pending.push(PendingOp::Rewind);
    fd_dup(&mut env, 42).unwrap().unwrap_err();
    assert!(env.pending.is_empty());
    assert_eq!(
        env.handled,
        vec![PendingOp::Signal(9), PendingOp::Unwind, PendingOp::Rewind]
    );
}

/// Duplication allocates the lowest free identifier, so freed identifiers
/// are reused — and the journal records the identifier actually returned.
#[test]
fn dup_returns_lowest_free_identifier() {
    let mut env = WasiEnv::new(true);
    let mut host = HostFs::new();

    let fd_a = path_open(&mut env, &mut host, 0, 0, "/a".to_owned(), OFLAGS_CREATE, 0, 0, 0)
        .unwrap()
        .unwrap();
    let fd_b = path_open(&mut env, &mut host, 0, 0, "/b".to_owned(), OFLAGS_CREATE, 0, 0, 0)
        .unwrap()
        .unwrap();
    assert_eq!((fd_a, fd_b), (0, 1));
    fd_close(&mut env, fd_a).unwrap().unwrap();
    let fd_c = fd_dup(&mut env, fd_b).unwrap().unwrap();
    assert_eq!(fd_c, 0);
    match env.journal.get(3) {
        JournalEntry::DuplicateFd { original_fd, copied_fd, close_original } => {
            assert_eq!(*original_fd, 1);
            assert_eq!(*copied_fd, 0);
            assert!(!*close_original);
        }
        JournalEntry::OpenFileDescriptor { .. } | JournalEntry::CloseFd { .. } => {
            panic!("wrong entry kind recorded")
        }
    }
}
