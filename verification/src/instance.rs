//! One sandboxed instance's runtime environment: its descriptor table, its
//! journal, and the pending-operation gate.
//!
//! Every system call begins by draining the queue of deferred work
//! (signals, unwinds, rewinds) synchronously, on the call's own execution
//! context, before the call's visible effect is computed, so the journal
//! observes a consistent pre-call state.

use vstd::prelude::*;

use crate::fs::DescriptorTable;
use crate::journal::Journal;

verus! {

/// One unit of deferred instance-level work, drained at call boundaries.
#[derive(Clone, Copy, Debug, PartialEq, Eq, Structural)]
pub enum PendingOp {
    /// A queued guest signal.
    Signal(u8),
    /// A scheduled stack unwind.
    Unwind,
    /// A scheduled stack rewind.
    Rewind,
}

/// Neither the pending-operation gate's queues nor the journaling switches
/// changed between two environment values.
pub open spec fn gate_and_flags_unchanged(pre: WasiEnv, post: WasiEnv) -> bool {
    &&& post.pending == pre.pending
    &&& post.handled == pre.handled
    &&& post.enable_journal == pre.enable_journal
    &&& post.journal_storage_ok == pre.journal_storage_ok
}

/// The runtime environment of one sandboxed instance.  Exclusively owned by
/// the instance: every call mutates it through `&mut`, so journal appends are
/// totally ordered even when several instances run side by side.
#[derive(Debug)]
pub struct WasiEnv {
    /// The instance's descriptor table.
    pub fds: DescriptorTable,
    /// The instance's journal, created empty at instance start.
    pub journal: Journal,
    /// Whether completed call effects are journaled.
    pub enable_journal: bool,
    /// Whether the journal's backing storage can record appends.  When it
    /// cannot, a journaled call terminates the instance rather than leave a
    /// silent gap in the journal.
    pub journal_storage_ok: bool,
    /// Deferred work queued for the next call boundary.
    pub pending: Vec<PendingOp>,
    /// Deferred work already performed, in the order it was drained.
    pub handled: Vec<PendingOp>,
}

impl WasiEnv {
    /// Structural soundness of the environment.
    pub open spec fn wf(&self) -> bool {
        self.fds.wf()
    }

    /// No deferred work is queued.
    pub open spec fn quiescent(&self) -> bool {
        self.pending@.len() == 0
    }

    /// A freshly started instance: empty descriptor table, empty journal,
    /// nothing pending, storage assumed healthy.
    pub fn new(enable_journal: bool) -> (env: WasiEnv)
        ensures
            env.wf(),
            env.fds.table() == Map::<u32, crate::fs::DescView>::empty(),
            env.journal@ =~= Seq::<crate::entry::EntryView>::empty(),
            env.enable_journal == enable_journal,
            env.journal_storage_ok,
            env.pending@ =~= Seq::<PendingOp>::empty(),
            env.handled@ =~= Seq::<PendingOp>::empty(),
    {
        WasiEnv {
            fds: DescriptorTable::new(),
            journal: Journal::new(),
            enable_journal,
            journal_storage_ok: true,
            pending: Vec::new(),
            handled: Vec::new(),
        }
    }

    /// The pending-operation gate: performs all queued deferred work, in
    /// queue order, leaving the instance quiescent.  Runs synchronously on
    /// the caller's execution context; it touches neither the descriptor
    /// table nor the journal, so the entry recorded for the call that follows
    /// reflects state as of immediately before that call.
    pub fn do_pending_operations(&mut self)
        ensures
            final(self).quiescent(),
            final(self).handled@ =~= old(self).handled@ + old(self).pending@,
            final(self).fds == old(self).fds,
            final(self).journal == old(self).journal,
            final(self).enable_journal == old(self).enable_journal,
            final(self).journal_storage_ok == old(self).journal_storage_ok,
    {
        let n = self.pending.len();
        let mut i: usize = 0;
        while i < n
            invariant
                i <= n == self.pending@.len(),
                self.pending@ == old(self).pending@,
                self.handled@ =~= old(self).handled@ + old(self).pending@.take(i as int),
                self.fds == old(self).fds,
                self.journal == old(self).journal,
                self.enable_journal == old(self).enable_journal,
                self.journal_storage_ok == old(self).journal_storage_ok,
            decreases n - i,
        {
            let op = self.pending[i];
            self.handled.push(op);
            proof {
                assert(old(self).pending@.take(i + 1 as int) =~= old(self).pending@.take(
                    i as int,
                ).push(old(self).pending@[i as int]));
            }
            i = i + 1;
        }
        self.pending.clear();
        proof {
            assert(old(self).pending@.take(n as int) =~= old(self).pending@);
        }
    }
}

} // verus!
