//! Record/replay scenarios: renumbering across differing allocators,
//! duplication, aborted restores, and independent concurrent instances.

use wasix_journal::entry::JournalEntry;
use wasix_journal::errors::{Errno, ReplayError};
use wasix_journal::fs::HostFs;
use wasix_journal::instance::WasiEnv;
use wasix_journal::journal::Journal;
use wasix_journal::replay::{replay_journal, restore_instance};
use wasix_journal::semantics::OFLAGS_CREATE;
use wasix_journal::syscalls::{fd_dup, fd_close, path_open};

fn open_entry(fd: u32, path: &str, o_flags: u16) -> JournalEntry {
    JournalEntry::OpenFileDescriptor {
        fd,
        dirfd: 0,
        dirflags: 0,
        path: path.to_owned(),
        o_flags,
        fs_rights_base: 0xff,
        fs_rights_inheriting: 0x0f,
        fs_flags: 0,
    }
}

/// Scenario A: an open recorded as guest-visible fd 3 replays onto an
/// instance whose allocator would hand out a different identifier, and still
/// ends with fd 3 open on the recorded path.
#[test]
fn replay_renumbers_open_to_recorded_fd() {
    let mut journal = Journal::new();
    journal.append(open_entry(3, "/tmp/a", OFLAGS_CREATE));

    let mut host = HostFs::new();
    host.add_path("/tmp/a");
    let env = restore_instance(&journal, &mut host, false).expect("restore must succeed");

    // The fresh allocator assigned the lowest free identifier (0), and the
    // replay renumbered it to the recorded identifier 3.
    assert!(env.fds.lookup(0).is_none());
    assert!(env.fds.lookup(1).is_none());
    assert!(env.fds.lookup(2).is_none());
    let d = env.fds.lookup(3).expect("fd 3 must be open after replay");
    assert_eq!(d.path, "/tmp/a");
    assert_eq!(d.fs_rights_base, 0xff);
    assert_eq!(d.fs_rights_inheriting, 0x0f);
}

/// Scenario B: a recorded duplication replays as a valid duplicate of the
/// source descriptor's resource, at the recorded destination identifier.
#[test]
fn replay_reproduces_duplicate() {
    let mut journal = Journal::new();
    journal.append(open_entry(3, "/tmp/a", OFLAGS_CREATE));
    journal.append(JournalEntry::DuplicateFd {
        original_fd: 3,
        copied_fd: 5,
        close_original: false,
    });

    let mut host = HostFs::new();
    let env = restore_instance(&journal, &mut host, false).expect("restore must succeed");

    let orig = env.fds.lookup(3).expect("source fd must stay open");
    let copy = env.fds.lookup(5).expect("fd 5 must be open after replay");
    assert_eq!(orig.path, copy.path);
    assert_eq!(orig.fs_rights_base, copy.fs_rights_base);
    assert_eq!(orig.fs_rights_inheriting, copy.fs_rights_inheriting);
    assert_eq!(orig.fs_flags, copy.fs_flags);
}

/// A duplication that closed its source replays with the source closed too.
#[test]
fn replay_duplicate_with_close_closes_source() {
    let mut journal = Journal::new();
    journal.append(open_entry(3, "/tmp/a", OFLAGS_CREATE));
    journal.append(JournalEntry::DuplicateFd {
        original_fd: 3,
        copied_fd: 5,
        close_original: true,
    });

    let mut host = HostFs::new();
    let env = restore_instance(&journal, &mut host, false).expect("restore must succeed");

    assert!(env.fds.lookup(3).is_none());
    let copy = env.fds.lookup(5).expect("fd 5 must be open after replay");
    assert_eq!(copy.path, "/tmp/a");
}

/// Scenario C: when the recorded path no longer exists on the replay host,
/// the restore aborts at that entry's index with the failing path, and no
/// later entry is applied.
#[test]
fn replay_aborts_when_path_is_gone() {
    let mut journal = Journal::new();
    // Recorded without the create flag: the file existed at record time.
    journal.append(open_entry(3, "/tmp/a", 0));
    journal.append(JournalEntry::DuplicateFd {
        original_fd: 3,
        copied_fd: 5,
        close_original: false,
    });

    // The file was deleted before the restore.
    let mut host = HostFs::new();
    let err = restore_instance(&journal, &mut host, false).expect_err("restore must abort");
    assert_eq!(err.index, 0);
    match err.error {
        ReplayError::OpenFailed { fd, path, errno } => {
            assert_eq!(fd, 3);
            assert_eq!(path, "/tmp/a");
            assert_eq!(errno, Errno::Noent);
        }
        other => panic!("unexpected replay error: {:?}", other),
    }
}

/// Replay fails with a renumbering mismatch when the recorded identifier is
/// already occupied in the target instance, reporting both identifiers.
#[test]
fn replay_reports_renumbering_collision() {
    let mut journal = Journal::new();
    journal.append(open_entry(0, "/tmp/a", OFLAGS_CREATE));
    // A second open recorded at the same identifier can never be applied.
    journal.append(open_entry(0, "/tmp/b", OFLAGS_CREATE));

    let mut env = WasiEnv::new(false);
    let mut host = HostFs::new();
    let err = replay_journal(&journal, &mut env, &mut host).expect_err("restore must abort");
    assert_eq!(err.index, 1);
    match err.error {
        ReplayError::RenumberFailed { from, to, errno } => {
            assert_eq!(from, 1);
            assert_eq!(to, 0);
            assert_eq!(errno, Errno::Exist);
        }
        other => panic!("unexpected replay error: {:?}", other),
    }
}

/// Idempotent replay: applying a journal appends nothing to the target
/// instance's own journal, even when that instance has journaling enabled.
#[test]
fn replay_appends_nothing_to_target_journal() {
    let mut journal = Journal::new();
    journal.append(open_entry(3, "/tmp/a", OFLAGS_CREATE));
    journal.append(JournalEntry::DuplicateFd {
        original_fd: 3,
        copied_fd: 5,
        close_original: false,
    });
    journal.append(JournalEntry::CloseFd { fd: 3 });

    let mut env = WasiEnv::new(true);
    let mut host = HostFs::new();
    replay_journal(&journal, &mut env, &mut host).expect("replay must succeed");
    assert_eq!(env.journal.len(), 0);
    assert!(env.fds.lookup(3).is_none());
    assert!(env.fds.lookup(5).is_some());
}

/// Replay equivalence, end to end: a journal recorded from real calls
/// replays on a fresh instance to the same descriptor table.
#[test]
fn recorded_journal_replays_to_equal_table() {
    let mut env = WasiEnv::new(true);
    let mut host = HostFs::new();
    host.add_path("/etc/hosts");

    let fd_a = path_open(&mut env, &mut host, 0, 0, "/etc/hosts".to_owned(), 0, 7, 3, 0)
        .expect("no journal failure")
        .expect("open must succeed");
    let fd_b = path_open(&mut env, &mut host, 0, 0, "/tmp/out".to_owned(), OFLAGS_CREATE, 6, 2, 1)
        .expect("no journal failure")
        .expect("open must succeed");
    let fd_c = fd_dup(&mut env, fd_a).expect("no journal failure").expect("dup must succeed");
    fd_close(&mut env, fd_b).expect("no journal failure").expect("close must succeed");

    // Restore against a fresh host that still has the original file.
    let mut host2 = HostFs::new();
    host2.add_path("/etc/hosts");
    let restored =
        restore_instance(&env.journal, &mut host2, false).expect("restore must succeed");

    for fd in 0..8u32 {
        match (env.fds.lookup(fd), restored.fds.lookup(fd)) {
            (None, None) => {}
            (Some(a), Some(b)) => {
                assert_eq!(a.path, b.path);
                assert_eq!(a.fs_rights_base, b.fs_rights_base);
                assert_eq!(a.fs_rights_inheriting, b.fs_rights_inheriting);
                assert_eq!(a.fs_flags, b.fs_flags);
            }
            (a, b) => panic!("tables differ at fd {}: {:?} vs {:?}", fd, a.is_some(), b.is_some()),
        }
    }
    assert!(env.fds.lookup(fd_c).is_some());
}

/// Scenario D: two instances issue calls concurrently (interleaved here, as
/// the per-instance append lock serializes them); each journal still shows a
/// single consistent total order, and each replays independently.
#[test]
fn interleaved_instances_keep_independent_consistent_journals() {
    let mut env1 = WasiEnv::new(true);
    let mut env2 = WasiEnv::new(true);
    let mut host = HostFs::new();

    let a1 = path_open(&mut env1, &mut host, 0, 0, "/one".to_owned(), OFLAGS_CREATE, 1, 0, 0)
        .unwrap()
        .unwrap();
    let b1 = path_open(&mut env2, &mut host, 0, 0, "/two".to_owned(), OFLAGS_CREATE, 2, 0, 0)
        .unwrap()
        .unwrap();
    let a2 = fd_dup(&mut env1, a1).unwrap().unwrap();
    let _b2 = fd_dup(&mut env2, b1).unwrap().unwrap();
    fd_close(&mut env2, b1).unwrap().unwrap();

    // Each journal holds exactly its own instance's calls, in order.
    assert_eq!(env1.journal.len(), 2);
    assert_eq!(env2.journal.len(), 3);
    match env1.journal.get(0) {
        JournalEntry::OpenFileDescriptor { fd, path, .. } => {
            assert_eq!(*fd, a1);
            assert_eq!(path, "/one");
        }
        other => panic!("unexpected entry: {:?}", entry_tag(other)),
    }
    match env1.journal.get(1) {
        JournalEntry::DuplicateFd { original_fd, copied_fd, close_original } => {
            assert_eq!(*original_fd, a1);
            assert_eq!(*copied_fd, a2);
            assert!(!*close_original);
        }
        other => panic!("unexpected entry: {:?}", entry_tag(other)),
    }
    match env2.journal.get(2) {
        JournalEntry::CloseFd { fd } => assert_eq!(*fd, b1),
        other => panic!("unexpected entry: {:?}", entry_tag(other)),
    }

    // Each journal replays on its own fresh instance.
    let mut host1 = HostFs::new();
    let r1 = restore_instance(&env1.journal, &mut host1, false).expect("restore one");
    let mut host2 = HostFs::new();
    let r2 = restore_instance(&env2.journal, &mut host2, false).expect("restore two");
    assert_eq!(r1.fds.lookup(a1).unwrap().path, "/one");
    assert_eq!(r1.fds.lookup(a2).unwrap().path, "/one");
    assert!(r2.fds.lookup(b1).is_none());
}

fn entry_tag(e: &JournalEntry) -> &'static str {
    match e {
        JournalEntry::OpenFileDescriptor { .. } => "open",
        JournalEntry::DuplicateFd { .. } => "dup",
        JournalEntry::CloseFd { .. } => "close",
    }
}
