//! The system-call layer: the internal call implementations the effector
//! re-executes during replay, and the public, journaled guest-facing calls.
//!
//! The internal functions (`*_internal`) perform a call's effect against the
//! instance's capability providers and never touch the journal — replay goes
//! through them, so applying an entry can never append a new entry.  The
//! public calls run the pending-operation gate, perform the effect through
//! the same internals, and journal the completed effect; a failed call is
//! never journaled, and a failed journal append terminates the instance.

use vstd::map::*;
use vstd::prelude::*;

use crate::effector::JournalEffector;
use crate::errors::{Errno, WasiError};
use crate::fs::{Descriptor, HostFs};
use crate::instance::{gate_and_flags_unchanged, WasiEnv};
use crate::semantics::{
    can_open,
    close_entry,
    dup_entry,
    entry_effect,
    open_entry,
    opened_desc,
    StateView,
    OFLAGS_CREATE,
};

verus! {

/// Opens `path` against the host and installs a descriptor at the lowest
/// free identifier, without journaling anything.  `dirfd` and `dirflags`
/// steer path resolution in the underlying provider and are carried for the
/// journal's benefit; the model resolves by path alone.
#[allow(unused_variables)]
pub fn path_open_internal(
    env: &mut WasiEnv,
    host: &mut HostFs,
    dirfd: u32,
    dirflags: u32,
    path: &str,
    o_flags: u16,
    fs_rights_base: u64,
    fs_rights_inheriting: u64,
    fs_flags: u16,
) -> (r: Result<u32, Errno>)
    requires
        old(env).wf(),
    ensures
        final(env).wf(),
        final(env).journal == old(env).journal,
        gate_and_flags_unchanged(*old(env), *final(env)),
        match r {
            Ok(fd) => {
                &&& can_open(old(host)@, path@, o_flags)
                &&& !old(env).fds.table().contains_key(fd)
                &&& (forall|g: u32| g < fd ==> old(env).fds.table().contains_key(g))
                &&& final(env).fds.table() == old(env).fds.table().insert(
                    fd,
                    opened_desc(path@, fs_rights_base, fs_rights_inheriting, fs_flags),
                )
                &&& final(host)@ == old(host)@.insert(path@)
            },
            Err(e) => {
                &&& final(env).fds.table() == old(env).fds.table()
                &&& final(host)@ == old(host)@
                &&& (e == Errno::Noent && !can_open(old(host)@, path@, o_flags)) || (e
                    == Errno::Mfile && can_open(old(host)@, path@, o_flags) && (forall|g: u32|
                    old(env).fds.table().contains_key(g)))
            },
        },
{
    if !host.contains_path(path) && (o_flags & OFLAGS_CREATE) == 0 {
        return Err(Errno::Noent);
    }
    let d = Descriptor { path: path.to_owned(), fs_rights_base, fs_rights_inheriting, fs_flags };
    let fd = match env.fds.alloc_from(d, 0) {
        Ok(fd) => fd,
        Err(e) => {
            return Err(e);
        },
    };
    host.add_path(path);
    Ok(fd)
}

/// Duplicates the open descriptor `fd` to the lowest free identifier at or
/// above `min_result_fd`, closing the source too when `close_original` is
/// set, without journaling anything.
pub fn fd_dup_internal(env: &mut WasiEnv, fd: u32, min_result_fd: u32, close_original: bool) -> (r:
    Result<u32, Errno>)
    requires
        old(env).wf(),
    ensures
        final(env).wf(),
        final(env).journal == old(env).journal,
        gate_and_flags_unchanged(*old(env), *final(env)),
        match r {
            Ok(copied_fd) => {
                &&& old(env).fds.table().contains_key(fd)
                &&& min_result_fd <= copied_fd
                &&& !old(env).fds.table().contains_key(copied_fd)
                &&& (forall|g: u32|
                    min_result_fd <= g < copied_fd ==> old(env).fds.table().contains_key(g))
                &&& final(env).fds.table() == (if close_original {
                    old(env).fds.table().insert(copied_fd, old(env).fds.table()[fd]).remove(fd)
                } else {
                    old(env).fds.table().insert(copied_fd, old(env).fds.table()[fd])
                })
            },
            Err(e) => {
                &&& final(env).fds.table() == old(env).fds.table()
                &&& (e == Errno::Badf && !old(env).fds.table().contains_key(fd)) || (e
                    == Errno::Mfile && old(env).fds.table().contains_key(fd) && (forall|g: u32|
                    min_result_fd <= g ==> old(env).fds.table().contains_key(g)))
            },
        },
{
    let d = match env.fds.lookup(fd) {
        Some(d) => d.duplicate(),
        None => {
            return Err(Errno::Badf);
        },
    };
    let copied_fd = match env.fds.alloc_from(d, min_result_fd) {
        Ok(c) => c,
        Err(e) => {
            return Err(e);
        },
    };
    if close_original {
        let _removed = env.fds.remove(fd);
    }
    Ok(copied_fd)
}

/// Forcibly renumbers the descriptor at `from` to the identifier `to`,
/// without journaling anything.  Replay uses this to reconcile a descriptor
/// the allocator placed anywhere back to the recorded identifier.
pub fn fd_renumber_internal(env: &mut WasiEnv, from: u32, to: u32) -> (ret: Errno)
    requires
        old(env).wf(),
    ensures
        final(env).wf(),
        final(env).journal == old(env).journal,
        gate_and_flags_unchanged(*old(env), *final(env)),
        (ret == Errno::Success) == (old(env).fds.table().contains_key(from) && (to == from || !old(
            env,
        ).fds.table().contains_key(to))),
        ret == Errno::Success ==> final(env).fds.table() == old(env).fds.table().remove(
            from,
        ).insert(to, old(env).fds.table()[from]),
        ret != Errno::Success ==> final(env).fds.table() == old(env).fds.table(),
        ret == Errno::Success || ret == Errno::Badf || ret == Errno::Exist,
        ret == Errno::Badf ==> !old(env).fds.table().contains_key(from),
        ret == Errno::Exist ==> to != from && old(env).fds.table().contains_key(to),
{
    env.fds.renumber(from, to)
}

/// Closes the descriptor at `fd`, without journaling anything.
pub fn fd_close_internal(env: &mut WasiEnv, fd: u32) -> (ret: Errno)
    requires
        old(env).wf(),
    ensures
        final(env).wf(),
        final(env).journal == old(env).journal,
        gate_and_flags_unchanged(*old(env), *final(env)),
        (ret == Errno::Success) == old(env).fds.table().contains_key(fd),
        ret == Errno::Success ==> final(env).fds.table() == old(env).fds.table().remove(fd),
        ret != Errno::Success ==> ret == Errno::Badf && final(env).fds.table() == old(
            env,
        ).fds.table(),
{
    match env.fds.remove(fd) {
        Some(_d) => Errno::Success,
        None => Errno::Badf,
    }
}

/// The guest-facing open call.  Drains deferred work, opens the path at the
/// lowest free descriptor identifier, and journals the completed effect.
/// Returns `Ok(Ok(fd))` with the new identifier; `Ok(Err(errno))` when the
/// call fails before producing its effect, in which case nothing is
/// journaled; and `Err(_)`, terminating the instance, when the effect
/// happened but could not be journaled.
pub fn path_open(
    env: &mut WasiEnv,
    host: &mut HostFs,
    dirfd: u32,
    dirflags: u32,
    path: String,
    o_flags: u16,
    fs_rights_base: u64,
    fs_rights_inheriting: u64,
    fs_flags: u16,
) -> (r: Result<Result<u32, Errno>, WasiError>)
    requires
        old(env).wf(),
    ensures
        final(env).wf(),
        final(env).quiescent(),
        final(env).handled@ == old(env).handled@ + old(env).pending@,
        final(env).enable_journal == old(env).enable_journal,
        final(env).journal_storage_ok == old(env).journal_storage_ok,
        ({
            let s = StateView { table: old(env).fds.table(), host: old(host)@ };
            let post = StateView { table: final(env).fds.table(), host: final(host)@ };
            match r {
                Ok(inner) => match inner {
                    Ok(fd) => {
                        &&& !old(env).fds.table().contains_key(fd)
                        &&& (forall|g: u32| g < fd ==> old(env).fds.table().contains_key(g))
                        &&& entry_effect(
                            s,
                            open_entry(
                                fd,
                                dirfd,
                                dirflags,
                                path@,
                                o_flags,
                                fs_rights_base,
                                fs_rights_inheriting,
                                fs_flags,
                            ),
                        ) == Some(post)
                        &&& (old(env).enable_journal ==> old(env).journal_storage_ok && final(env).journal@ == old(env).journal@.push(
                            open_entry(
                                fd,
                                dirfd,
                                dirflags,
                                path@,
                                o_flags,
                                fs_rights_base,
                                fs_rights_inheriting,
                                fs_flags,
                            ),
                        ))
                        &&& (!old(env).enable_journal ==> final(env).journal@ == old(env).journal@)
                    },
                    Err(e) => {
                        &&& final(env).journal@ == old(env).journal@
                        &&& final(env).fds.table() == old(env).fds.table()
                        &&& final(host)@ == old(host)@
                        &&& (e == Errno::Noent && !can_open(old(host)@, path@, o_flags)) || (e
                            == Errno::Mfile && can_open(old(host)@, path@, o_flags) && (forall|
                            g: u32,
                        | old(env).fds.table().contains_key(g)))
                    },
                },
                Err(we) => {
                    &&& we == WasiError::Exit(Errno::Fault)
                    &&& old(env).enable_journal && !old(env).journal_storage_ok
                    &&& final(env).journal@ == old(env).journal@
                    &&& (exists|fd: u32|
                        entry_effect(
                            s,
                            #[trigger] open_entry(
                                fd,
                                dirfd,
                                dirflags,
                                path@,
                                o_flags,
                                fs_rights_base,
                                fs_rights_inheriting,
                                fs_flags,
                            ),
                        ) == Some(post))
                },
            }
        }),
{
    env.do_pending_operations();
    let res = path_open_internal(
        env,
        host,
        dirfd,
        dirflags,
        path.as_str(),
        o_flags,
        fs_rights_base,
        fs_rights_inheriting,
        fs_flags,
    );
    let fd = match res {
        Ok(fd) => fd,
        Err(e) => {
            return Ok(Err(e));
        },
    };
    let ghost pv = path@;
    if env.enable_journal {
        match JournalEffector::save_path_open(
            env,
            fd,
            dirfd,
            dirflags,
            path,
            o_flags,
            fs_rights_base,
            fs_rights_inheriting,
            fs_flags,
        ) {
            Ok(()) => {},
            Err(_err) => {
                proof {
                    let s = StateView { table: old(env).fds.table(), host: old(host)@ };
                    let post = StateView { table: env.fds.table(), host: host@ };
                    assert(entry_effect(
                        s,
                        open_entry(
                            fd,
                            dirfd,
                            dirflags,
                            pv,
                            o_flags,
                            fs_rights_base,
                            fs_rights_inheriting,
                            fs_flags,
                        ),
                    ) == Some(post));
                }
                return Err(WasiError::Exit(Errno::Fault));
            },
        }
    }
    Ok(Ok(fd))
}

/// The guest-facing duplication call: duplicates the open descriptor `fd` to
/// the lowest free identifier and journals the completed effect.  The result
/// arms mean the same as for [`path_open`].
pub fn fd_dup(env: &mut WasiEnv, fd: u32) -> (r: Result<Result<u32, Errno>, WasiError>)
    requires
        old(env).wf(),
    ensures
        final(env).wf(),
        final(env).quiescent(),
        final(env).handled@ == old(env).handled@ + old(env).pending@,
        final(env).enable_journal == old(env).enable_journal,
        final(env).journal_storage_ok == old(env).journal_storage_ok,
        ({
            let t0 = old(env).fds.table();
            match r {
                Ok(inner) => match inner {
                    Ok(copied_fd) => {
                        &&& t0.contains_key(fd)
                        &&& !t0.contains_key(copied_fd)
                        &&& (forall|g: u32| g < copied_fd ==> t0.contains_key(g))
                        &&& (forall|h: Set<Seq<char>>|
                            entry_effect(
                                StateView { table: t0, host: h },
                                dup_entry(fd, copied_fd, false),
                            ) == Some(
                                StateView { table: final(env).fds.table(), host: h },
                            ))
                        &&& (old(env).enable_journal ==> old(env).journal_storage_ok && final(env).journal@ == old(env).journal@.push(dup_entry(fd, copied_fd, false)))
                        &&& (!old(env).enable_journal ==> final(env).journal@ == old(env).journal@)
                    },
                    Err(e) => {
                        &&& final(env).journal@ == old(env).journal@
                        &&& final(env).fds.table() == t0
                        &&& (e == Errno::Badf && !t0.contains_key(fd)) || (e == Errno::Mfile
                            && t0.contains_key(fd) && (forall|g: u32| t0.contains_key(g)))
                    },
                },
                Err(we) => {
                    &&& we == WasiError::Exit(Errno::Fault)
                    &&& old(env).enable_journal && !old(env).journal_storage_ok
                    &&& final(env).journal@ == old(env).journal@
                    &&& (exists|copied_fd: u32|
                        (forall|h: Set<Seq<char>>|
                            entry_effect(
                                StateView { table: t0, host: h },
                                #[trigger] dup_entry(fd, copied_fd, false),
                            ) == Some(StateView { table: final(env).fds.table(), host: h })))
                },
            }
        }),
{
    env.do_pending_operations();
    let copied_fd = match fd_dup_internal(env, fd, 0, false) {
        Ok(c) => c,
        Err(e) => {
            return Ok(Err(e));
        },
    };
    if env.enable_journal {
        match JournalEffector::save_fd_duplicate(env, fd, copied_fd, false) {
            Ok(()) => {},
            Err(_err) => {
                proof {
                    let t0 = old(env).fds.table();
                    assert forall|h: Set<Seq<char>>|
                        entry_effect(
                            StateView { table: t0, host: h },
                            #[trigger] dup_entry(fd, copied_fd, false),
                        ) == Some(StateView { table: env.fds.table(), host: h }) by {}
                }
                return Err(WasiError::Exit(Errno::Fault));
            },
        }
    }
    Ok(Ok(copied_fd))
}

/// The guest-facing close call: closes the open descriptor `fd` and journals
/// the completed effect.  The result arms mean the same as for [`path_open`].
pub fn fd_close(env: &mut WasiEnv, fd: u32) -> (r: Result<Result<(), Errno>, WasiError>)
    requires
        old(env).wf(),
    ensures
        final(env).wf(),
        final(env).quiescent(),
        final(env).handled@ == old(env).handled@ + old(env).pending@,
        final(env).enable_journal == old(env).enable_journal,
        final(env).journal_storage_ok == old(env).journal_storage_ok,
        ({
            let t0 = old(env).fds.table();
            match r {
                Ok(inner) => match inner {
                    Ok(()) => {
                        &&& t0.contains_key(fd)
                        &&& (forall|h: Set<Seq<char>>|
                            entry_effect(StateView { table: t0, host: h }, close_entry(fd))
                                == Some(StateView { table: final(env).fds.table(), host: h }))
                        &&& (old(env).enable_journal ==> old(env).journal_storage_ok && final(env).journal@ == old(env).journal@.push(close_entry(fd)))
                        &&& (!old(env).enable_journal ==> final(env).journal@ == old(env).journal@)
                    },
                    Err(e) => {
                        &&& final(env).journal@ == old(env).journal@
                        &&& final(env).fds.table() == t0
                        &&& e == Errno::Badf && !t0.contains_key(fd)
                    },
                },
                Err(we) => {
                    &&& we == WasiError::Exit(Errno::Fault)
                    &&& old(env).enable_journal && !old(env).journal_storage_ok
                    &&& final(env).journal@ == old(env).journal@
                    &&& (forall|h: Set<Seq<char>>|
                        entry_effect(StateView { table: t0, host: h }, close_entry(fd)) == Some(
                            StateView { table: final(env).fds.table(), host: h },
                        ))
                },
            }
        }),
{
    env.do_pending_operations();
    let ret = fd_close_internal(env, fd);
    if ret != Errno::Success {
        return Ok(Err(ret));
    }
    if env.enable_journal {
        match JournalEffector::save_fd_close(env, fd) {
            Ok(()) => {},
            Err(_err) => {
                return Err(WasiError::Exit(Errno::Fault));
            },
        }
    }
    Ok(Ok(()))
}

} // verus!
