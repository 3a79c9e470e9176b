//! The replay driver: iterates a journal strictly in stored order and
//! dispatches each entry to its matching apply operation, aborting the whole
//! restore on the first entry whose effect cannot be reproduced.
//!
//! There is no skip-and-continue mode: entries are causally dependent (a
//! later duplication may target an identifier an earlier open created), so a
//! partial replay would leave undefined state.  Replay is sequential and
//! synchronous, and appends nothing to any journal.

use vstd::prelude::*;

use crate::effector::JournalEffector;
use crate::entry::JournalEntry;
use crate::errors::RestoreError;
use crate::fs::HostFs;
use crate::instance::{gate_and_flags_unchanged, WasiEnv};
use crate::journal::Journal;
use crate::semantics::{
    entry_effect,
    lemma_seq_effect_prefix_none,
    lemma_seq_effect_push,
    seq_effect,
    StateView,
};

verus! {

/// Replays `journal` against the target instance `env` and host `host`.
///
/// On success the target ends in exactly the state the journal's entries
/// fold to from its starting state; on failure the result names the index of
/// the entry that could not be applied and the mismatch, every earlier entry
/// has been applied, and no later entry has been touched.  Either way the
/// target's own journal is untouched: replay never journals.
pub fn replay_journal(journal: &Journal, env: &mut WasiEnv, host: &mut HostFs) -> (r: Result<
    (),
    RestoreError,
>)
    requires
        old(env).wf(),
    ensures
        final(env).wf(),
        final(env).journal == old(env).journal,
        gate_and_flags_unchanged(*old(env), *final(env)),
        ({
            let s0 = StateView { table: old(env).fds.table(), host: old(host)@ };
            match r {
                Ok(()) => seq_effect(s0, journal@) == Some(
                    StateView { table: final(env).fds.table(), host: final(host)@ },
                ),
                Err(re) => {
                    &&& re.index < journal@.len()
                    &&& seq_effect(s0, journal@.take(re.index as int)) is Some
                    &&& entry_effect(
                        seq_effect(s0, journal@.take(re.index as int))->Some_0,
                        journal@[re.index as int],
                    ) is None
                    &&& seq_effect(s0, journal@) is None
                },
            }
        }),
{
    let ghost s0 = StateView { table: old(env).fds.table(), host: old(host)@ };
    let n = journal.len();
    let mut i: usize = 0;
    while i < n
        invariant
            old(env).wf(),
            env.wf(),
            i <= n == journal@.len(),
            env.journal == old(env).journal,
            gate_and_flags_unchanged(*old(env), *env),
            s0 == (StateView { table: old(env).fds.table(), host: old(host)@ }),
            seq_effect(s0, journal@.take(i as int)) == Some(
                StateView { table: env.fds.table(), host: host@ },
            ),
        decreases n - i,
    {
        let ghost pre = StateView { table: env.fds.table(), host: host@ };
        let e = journal.get(i);
        let res: Result<(), crate::errors::ReplayError> = match e {
            JournalEntry::OpenFileDescriptor {
                fd,
                dirfd,
                dirflags,
                path,
                o_flags,
                fs_rights_base,
                fs_rights_inheriting,
                fs_flags,
            } => JournalEffector::apply_path_open(
                env,
                host,
                *fd,
                *dirfd,
                *dirflags,
                path.as_str(),
                *o_flags,
                *fs_rights_base,
                *fs_rights_inheriting,
                *fs_flags,
            ),
            JournalEntry::DuplicateFd { original_fd, copied_fd, close_original } => (
            JournalEffector::apply_fd_duplicate(env, *original_fd, *copied_fd, *close_original)),
            JournalEntry::CloseFd { fd } => JournalEffector::apply_fd_close(env, *fd),
        };
        match res {
            Ok(()) => {
                proof {
                    assert(entry_effect(pre, journal@[i as int]) == Some(
                        StateView { table: env.fds.table(), host: host@ },
                    ));
                    lemma_seq_effect_push(s0, journal@.take(i as int), journal@[i as int]);
                    assert(journal@.take(i + 1 as int) =~= journal@.take(i as int).push(
                        journal@[i as int],
                    ));
                }
                i = i + 1;
            },
            Err(err) => {
                proof {
                    assert(entry_effect(pre, journal@[i as int]) is None);
                    lemma_seq_effect_prefix_none(s0, journal@, i as int);
                }
                return Err(RestoreError { index: i, error: err });
            },
        }
    }
    proof {
        assert(journal@.take(n as int) =~= journal@);
    }
    Ok(())
}

/// The restore entry point: replays `journal` against a freshly started
/// instance and hands the reconstructed instance back, or reports the index
/// of the entry whose effect could not be reproduced.  The new instance's
/// own journal starts empty and stays empty during the restore.
pub fn restore_instance(journal: &Journal, host: &mut HostFs, enable_journal: bool) -> (r: Result<
    WasiEnv,
    RestoreError,
>)
    ensures
        ({
            let s0 = StateView {
                table: Map::<u32, crate::fs::DescView>::empty(),
                host: old(host)@,
            };
            match r {
                Ok(env) => {
                    &&& env.wf()
                    &&& env.journal@ =~= Seq::<crate::entry::EntryView>::empty()
                    &&& env.enable_journal == enable_journal
                    &&& env.journal_storage_ok
                    &&& env.quiescent()
                    &&& seq_effect(s0, journal@) == Some(
                        StateView { table: env.fds.table(), host: final(host)@ },
                    )
                },
                Err(re) => {
                    &&& re.index < journal@.len()
                    &&& seq_effect(s0, journal@.take(re.index as int)) is Some
                    &&& entry_effect(
                        seq_effect(s0, journal@.take(re.index as int))->Some_0,
                        journal@[re.index as int],
                    ) is None
                    &&& seq_effect(s0, journal@) is None
                },
            }
        }),
{
    let mut env = WasiEnv::new(false);
    match replay_journal(journal, &mut env, host) {
        Ok(()) => {
            env.enable_journal = enable_journal;
            Ok(env)
        },
        Err(re) => Err(re),
    }
}

} // verus!
