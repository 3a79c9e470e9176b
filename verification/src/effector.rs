//! The effector: the save/apply pair binding each journalable call family to
//! its journal representation.
//!
//! `save_<call>` converts the outcome of a call that has already succeeded
//! into an entry and appends it; it is invoked only after the real effect
//! happened, so the journal never records speculative or failed effects.
//! `apply_<call>` re-executes a stored entry against a target instance
//! through the internal call implementations — never the public call entry
//! points — so replay appends nothing to any journal.  Descriptor-producing
//! entries are applied by running the call (which may allocate any free
//! identifier) and then forcibly renumbering the result to the recorded
//! identifier; if either step fails, the apply fails fatally.

use vstd::map::*;
use vstd::prelude::*;

use crate::entry::JournalEntry;
use crate::errors::{Errno, JournalingError, ReplayError};
use crate::instance::{gate_and_flags_unchanged, WasiEnv};
use crate::semantics::{close_entry, dup_entry, entry_effect, open_entry, StateView};
use crate::syscalls::{fd_close_internal, fd_dup_internal, fd_renumber_internal, path_open_internal};
use crate::fs::HostFs;

verus! {

/// The save/apply effector for every journalable call family.
pub struct JournalEffector;

impl JournalEffector {
    /// Appends one entry to the instance's journal.  When the journal's
    /// backing storage cannot record the append, nothing is stored and the
    /// error is surfaced so the caller can terminate the instance: a silent
    /// gap would corrupt every future restore.
    pub fn save_event(env: &mut WasiEnv, e: JournalEntry) -> (r: Result<(), JournalingError>)
        ensures
            final(env).fds == old(env).fds,
            gate_and_flags_unchanged(*old(env), *final(env)),
            (r is Ok) == old(env).journal_storage_ok,
            r is Ok ==> final(env).journal@ == old(env).journal@.push(e@),
            r is Err ==> final(env).journal == old(env).journal && r == Err::<(),
                JournalingError,
            >(JournalingError::StorageUnavailable),
    {
        if !env.journal_storage_ok {
            return Err(JournalingError::StorageUnavailable);
        }
        env.journal.append(e);
        Ok(())
    }

    /// Records a completed open: descriptor `fd` became visible for `path`.
    pub fn save_path_open(
        env: &mut WasiEnv,
        fd: u32,
        dirfd: u32,
        dirflags: u32,
        path: String,
        o_flags: u16,
        fs_rights_base: u64,
        fs_rights_inheriting: u64,
        fs_flags: u16,
    ) -> (r: Result<(), JournalingError>)
        ensures
            final(env).fds == old(env).fds,
            gate_and_flags_unchanged(*old(env), *final(env)),
            (r is Ok) == old(env).journal_storage_ok,
            r is Ok ==> final(env).journal@ == old(env).journal@.push(
                open_entry(
                    fd,
                    dirfd,
                    dirflags,
                    path@,
                    o_flags,
                    fs_rights_base,
                    fs_rights_inheriting,
                    fs_flags,
                ),
            ),
            r is Err ==> final(env).journal == old(env).journal && r == Err::<(),
                JournalingError,
            >(JournalingError::StorageUnavailable),
    {
        Self::save_event(
            env,
            JournalEntry::OpenFileDescriptor {
                fd,
                dirfd,
                dirflags,
                path,
                o_flags,
                fs_rights_base,
                fs_rights_inheriting,
                fs_flags,
            },
        )
    }

    /// Records a completed duplication of `original_fd` to `copied_fd`.
    pub fn save_fd_duplicate(
        env: &mut WasiEnv,
        original_fd: u32,
        copied_fd: u32,
        close_original: bool,
    ) -> (r: Result<(), JournalingError>)
        ensures
            final(env).fds == old(env).fds,
            gate_and_flags_unchanged(*old(env), *final(env)),
            (r is Ok) == old(env).journal_storage_ok,
            r is Ok ==> final(env).journal@ == old(env).journal@.push(
                dup_entry(original_fd, copied_fd, close_original),
            ),
            r is Err ==> final(env).journal == old(env).journal && r == Err::<(),
                JournalingError,
            >(JournalingError::StorageUnavailable),
    {
        Self::save_event(env, JournalEntry::DuplicateFd { original_fd, copied_fd, close_original })
    }

    /// Records a completed close of `fd`.
    pub fn save_fd_close(env: &mut WasiEnv, fd: u32) -> (r: Result<(), JournalingError>)
        ensures
            final(env).fds == old(env).fds,
            gate_and_flags_unchanged(*old(env), *final(env)),
            (r is Ok) == old(env).journal_storage_ok,
            r is Ok ==> final(env).journal@ == old(env).journal@.push(close_entry(fd)),
            r is Err ==> final(env).journal == old(env).journal && r == Err::<(),
                JournalingError,
            >(JournalingError::StorageUnavailable),
    {
        Self::save_event(env, JournalEntry::CloseFd { fd })
    }

    /// Re-executes a recorded open against the target instance: opens the
    /// path through the internal implementation (which may allocate any free
    /// identifier) and renumbers the result to the recorded `fd`.  Succeeds
    /// exactly when the entry's effect is reproducible in the target's
    /// current state, and then leaves the target in the recorded post-state;
    /// never touches any journal.
    pub fn apply_path_open(
        env: &mut WasiEnv,
        host: &mut HostFs,
        fd: u32,
        dirfd: u32,
        dirflags: u32,
        path: &str,
        o_flags: u16,
        fs_rights_base: u64,
        fs_rights_inheriting: u64,
        fs_flags: u16,
    ) -> (r: Result<(), ReplayError>)
        requires
            old(env).wf(),
        ensures
            final(env).wf(),
            final(env).journal == old(env).journal,
            gate_and_flags_unchanged(*old(env), *final(env)),
            ({
                let s = StateView { table: old(env).fds.table(), host: old(host)@ };
                let e = open_entry(
                    fd,
                    dirfd,
                    dirflags,
                    path@,
                    o_flags,
                    fs_rights_base,
                    fs_rights_inheriting,
                    fs_flags,
                );
                match r {
                    Ok(()) => entry_effect(s, e) == Some(
                        StateView { table: final(env).fds.table(), host: final(host)@ },
                    ),
                    Err(re) => {
                        &&& entry_effect(s, e) is None
                        &&& match re {
                            ReplayError::OpenFailed { fd: efd, path: epath, errno } => {
                                &&& efd == fd
                                &&& epath@ == path@
                                &&& errno == Errno::Noent || errno == Errno::Mfile
                            },
                            ReplayError::RenumberFailed { from, to, errno } => {
                                &&& to == fd
                                &&& errno == Errno::Exist
                                &&& !old(env).fds.table().contains_key(from)
                            },
                            _ => false,
                        }
                    },
                }
            }),
    {
        let res = path_open_internal(
            env,
            host,
            dirfd,
            dirflags,
            path,
            o_flags,
            fs_rights_base,
            fs_rights_inheriting,
            fs_flags,
        );
        let ret_fd = match res {
            Ok(f) => f,
            Err(err) => {
                return Err(ReplayError::OpenFailed { fd, path: path.to_owned(), errno: err });
            },
        };
        let ret = fd_renumber_internal(env, ret_fd, fd);
        if ret != Errno::Success {
            return Err(ReplayError::RenumberFailed { from: ret_fd, to: fd, errno: ret });
        }
        proof {
            assert_maps_equal!(
                env.fds.table(),
                old(env).fds.table().insert(
                    fd,
                    crate::semantics::opened_desc(
                        path@, fs_rights_base, fs_rights_inheriting, fs_flags,
                    ),
                )
            );
        }
        Ok(())
    }

    /// Re-executes a recorded duplication: duplicates the recorded source
    /// through the internal implementation, renumbers the copy to the
    /// recorded `copied_fd`, and closes the source when the entry says the
    /// original call did.  Succeeds exactly when the entry's effect is
    /// reproducible in the target's current state; never touches any journal.
    pub fn apply_fd_duplicate(
        env: &mut WasiEnv,
        original_fd: u32,
        copied_fd: u32,
        close_original: bool,
    ) -> (r: Result<(), ReplayError>)
        requires
            old(env).wf(),
        ensures
            final(env).wf(),
            final(env).journal == old(env).journal,
            gate_and_flags_unchanged(*old(env), *final(env)),
            ({
                let e = dup_entry(original_fd, copied_fd, close_original);
                match r {
                    Ok(()) => forall|h: Set<Seq<char>>|
                        entry_effect(StateView { table: old(env).fds.table(), host: h }, e)
                            == Some(StateView { table: final(env).fds.table(), host: h }),
                    Err(re) => {
                        &&& (forall|h: Set<Seq<char>>|
                            entry_effect(StateView { table: old(env).fds.table(), host: h }, e)
                                is None)
                        &&& match re {
                            ReplayError::DuplicateFailed { original_fd: o, copied_fd: c, errno } => {
                                &&& o == original_fd
                                &&& c == copied_fd
                                &&& errno == Errno::Badf || errno == Errno::Mfile
                            },
                            ReplayError::RenumberFailed { from, to, errno } => {
                                &&& to == copied_fd
                                &&& errno == Errno::Exist
                                &&& !old(env).fds.table().contains_key(from)
                            },
                            _ => false,
                        }
                    },
                }
            }),
    {
        let ret_fd = match fd_dup_internal(env, original_fd, 0, false) {
            Ok(f) => f,
            Err(err) => {
                return Err(
                    ReplayError::DuplicateFailed { original_fd, copied_fd, errno: err },
                );
            },
        };
        let ret = fd_renumber_internal(env, ret_fd, copied_fd);
        if ret != Errno::Success {
            return Err(ReplayError::RenumberFailed { from: ret_fd, to: copied_fd, errno: ret });
        }
        if close_original && original_fd != copied_fd {
            let ret2 = fd_close_internal(env, original_fd);
            if ret2 != Errno::Success {
                return Err(ReplayError::CloseFailed { fd: original_fd, errno: ret2 });
            }
        }
        proof {
            let t0 = old(env).fds.table();
            if close_original && original_fd != copied_fd {
                assert_maps_equal!(
                    env.fds.table(),
                    t0.insert(copied_fd, t0[original_fd]).remove(original_fd)
                );
            } else {
                assert_maps_equal!(
                    env.fds.table(),
                    t0.insert(copied_fd, t0[original_fd])
                );
            }
        }
        Ok(())
    }

    /// Re-executes a recorded close against the target instance.  Succeeds
    /// exactly when the recorded descriptor is open there; never touches any
    /// journal.
    pub fn apply_fd_close(env: &mut WasiEnv, fd: u32) -> (r: Result<(), ReplayError>)
        requires
            old(env).wf(),
        ensures
            final(env).wf(),
            final(env).journal == old(env).journal,
            gate_and_flags_unchanged(*old(env), *final(env)),
            ({
                let e = close_entry(fd);
                match r {
                    Ok(()) => forall|h: Set<Seq<char>>|
                        entry_effect(StateView { table: old(env).fds.table(), host: h }, e)
                            == Some(StateView { table: final(env).fds.table(), host: h }),
                    Err(re) => {
                        &&& (forall|h: Set<Seq<char>>|
                            entry_effect(StateView { table: old(env).fds.table(), host: h }, e)
                                is None)
                        &&& (match re {
                            ReplayError::CloseFailed { fd: efd, errno } => efd == fd && errno
                                == Errno::Badf,
                            _ => false,
                        })
                    },
                }
            }),
    {
        let ret = fd_close_internal(env, fd);
        if ret != Errno::Success {
            return Err(ReplayError::CloseFailed { fd, errno: ret });
        }
        Ok(())
    }
}

} // verus!
