//! The mathematical meaning of journal entries: what applying one entry, or a
//! whole journal, does to an instance's descriptor table and host paths.
//!
//! The save side of the effector guarantees each recorded entry's effect (in
//! the sense of [`entry_effect`]) is exactly the state change its call
//! performed; the replay driver guarantees a successful replay reproduces the
//! fold of those effects.  Together they give replay equivalence.

use vstd::prelude::*;

use crate::entry::EntryView;
use crate::fs::DescView;

verus! {

/// Bit in the open flags that asks for the path to be created when absent.
pub const OFLAGS_CREATE: u16 = 1;

/// Everything journaled effects act on: one instance's descriptor table and
/// the host paths it can open.
#[verifier::ext_equal]
pub struct StateView {
    /// The instance's descriptor table.
    pub table: Map<u32, DescView>,
    /// The paths that exist on the host.
    pub host: Set<Seq<char>>,
}

/// Whether opening `path` with `o_flags` can succeed against `host`: the path
/// exists, or the call asks to create it.
pub open spec fn can_open(host: Set<Seq<char>>, path: Seq<char>, o_flags: u16) -> bool {
    host.contains(path) || (o_flags & OFLAGS_CREATE) != 0
}

/// The descriptor an open call installs.
pub open spec fn opened_desc(
    path: Seq<char>,
    fs_rights_base: u64,
    fs_rights_inheriting: u64,
    fs_flags: u16,
) -> DescView {
    DescView { path, fs_rights_base, fs_rights_inheriting, fs_flags }
}

/// The entry recorded for a completed open call.
pub open spec fn open_entry(
    fd: u32,
    dirfd: u32,
    dirflags: u32,
    path: Seq<char>,
    o_flags: u16,
    fs_rights_base: u64,
    fs_rights_inheriting: u64,
    fs_flags: u16,
) -> EntryView {
    EntryView::OpenFileDescriptor {
        fd,
        dirfd,
        dirflags,
        path,
        o_flags,
        fs_rights_base,
        fs_rights_inheriting,
        fs_flags,
    }
}

/// The entry recorded for a completed duplication call.
pub open spec fn dup_entry(original_fd: u32, copied_fd: u32, close_original: bool) -> EntryView {
    EntryView::DuplicateFd { original_fd, copied_fd, close_original }
}

/// The entry recorded for a completed close call.
pub open spec fn close_entry(fd: u32) -> EntryView {
    EntryView::CloseFd { fd }
}

/// The effect of applying one entry to a state, or `None` when the entry's
/// effect cannot be reproduced there (the path is gone, or the recorded
/// identifier is already occupied).
pub open spec fn entry_effect(s: StateView, e: EntryView) -> Option<StateView> {
    match e {
        EntryView::OpenFileDescriptor {
            fd,
            dirfd: _,
            dirflags: _,
            path,
            o_flags,
            fs_rights_base,
            fs_rights_inheriting,
            fs_flags,
        } => {
            if can_open(s.host, path, o_flags) && !s.table.contains_key(fd) {
                Some(
                    StateView {
                        table: s.table.insert(
                            fd,
                            opened_desc(path, fs_rights_base, fs_rights_inheriting, fs_flags),
                        ),
                        host: s.host.insert(path),
                    },
                )
            } else {
                None
            }
        },
        EntryView::DuplicateFd { original_fd, copied_fd, close_original } => {
            if s.table.contains_key(original_fd) && !s.table.contains_key(copied_fd) {
                let t = s.table.insert(copied_fd, s.table[original_fd]);
                Some(
                    StateView {
                        table: if close_original && original_fd != copied_fd {
                            t.remove(original_fd)
                        } else {
                            t
                        },
                        host: s.host,
                    },
                )
            } else {
                None
            }
        },
        EntryView::CloseFd { fd } => {
            if s.table.contains_key(fd) {
                Some(StateView { table: s.table.remove(fd), host: s.host })
            } else {
                None
            }
        },
    }
}

/// The effect of applying a whole journal, entry by entry in stored order, or
/// `None` as soon as one entry cannot be applied.
pub open spec fn seq_effect(s: StateView, entries: Seq<EntryView>) -> Option<StateView>
    decreases entries.len(),
{
    if entries.len() == 0 {
        Some(s)
    } else {
        match entry_effect(s, entries[0]) {
            Some(s2) => seq_effect(s2, entries.skip(1)),
            None => None,
        }
    }
}

/// Replay equivalence, one step at a time: extending a journal whose replay
/// reaches state `t` by an entry applicable at `t` extends the replay to that
/// entry's outcome — so a journal built from successful calls replays to
/// exactly the state the calls produced.
pub proof fn lemma_seq_effect_push(s: StateView, entries: Seq<EntryView>, e: EntryView)
    ensures
        seq_effect(s, entries.push(e)) == (match seq_effect(s, entries) {
            Some(t) => entry_effect(t, e),
            None => None,
        }),
    decreases entries.len(),
{
    if entries.len() == 0 {
        assert(entries.push(e)[0] == e);
        assert(entries.push(e).skip(1) =~= Seq::<EntryView>::empty());
        match entry_effect(s, e) {
            Some(t) => {
                assert(seq_effect(s, entries.push(e)) == seq_effect(t, entries.push(e).skip(1)));
            },
            None => {
                assert(seq_effect(s, entries.push(e)) is None);
            },
        }
    } else {
        assert(entries.push(e)[0] == entries[0]);
        assert(entries.push(e).skip(1) =~= entries.skip(1).push(e));
        match entry_effect(s, entries[0]) {
            Some(s2) => {
                lemma_seq_effect_push(s2, entries.skip(1), e);
                assert(seq_effect(s, entries.push(e)) == seq_effect(s2, entries.skip(1).push(e)));
                assert(seq_effect(s, entries) == seq_effect(s2, entries.skip(1)));
            },
            None => {
                assert(seq_effect(s, entries.push(e)) is None);
                assert(seq_effect(s, entries) is None);
            },
        }
    }
}

/// A journal that fails at one entry fails as a whole: if some prefix replays
/// to a state where the next entry cannot be applied, no replay of the full
/// journal exists.
pub proof fn lemma_seq_effect_prefix_none(s: StateView, entries: Seq<EntryView>, i: int)
    requires
        0 <= i < entries.len(),
        seq_effect(s, entries.take(i)) is Some,
        entry_effect(seq_effect(s, entries.take(i))->Some_0, entries[i]) is None,
    ensures
        seq_effect(s, entries) is None,
    decreases i,
{
    if i == 0 {
        assert(entries.take(0) =~= Seq::<EntryView>::empty());
        assert(entry_effect(s, entries[0]) is None);
    } else {
        assert(entries.take(i)[0] == entries[0]);
        assert(entry_effect(s, entries[0]) is Some) by {
            assert(seq_effect(s, entries.take(i)) is Some);
        }
        let s2 = entry_effect(s, entries[0])->Some_0;
        assert(entries.take(i).skip(1) =~= entries.skip(1).take(i - 1));
        assert(entries.skip(1)[i - 1] == entries[i]);
        lemma_seq_effect_prefix_none(s2, entries.skip(1), i - 1);
    }
}

/// Replay equivalence over a whole recorded run: when every entry of a
/// journal records the state transition that actually happened — the entry's
/// effect on the state the run had reached maps it to the run's next state —
/// then replaying the journal from the run's starting state reaches exactly
/// the run's final state.  The journaled calls guarantee the premise for
/// every entry they append; the replay driver computes the conclusion's
/// fold.
pub proof fn lemma_replay_equivalence(
    s0: StateView,
    entries: Seq<EntryView>,
    states: Seq<StateView>,
)
    requires
        states.len() == entries.len() + 1,
        states[0] == s0,
        forall|i: int|
            0 <= i < entries.len() ==> entry_effect(states[i], #[trigger] entries[i]) == Some(
                states[i + 1],
            ),
    ensures
        seq_effect(s0, entries) == Some(states[entries.len() as int]),
    decreases entries.len(),
{
    if entries.len() == 0 {
    } else {
        assert(entry_effect(s0, entries[0]) == Some(states[1]));
        let rest_entries = entries.skip(1);
        let rest_states = states.skip(1);
        assert(rest_states[0] == states[1]);
        assert forall|i: int|
            0 <= i < rest_entries.len() implies entry_effect(
            rest_states[i],
            #[trigger] rest_entries[i],
        ) == Some(rest_states[i + 1]) by {
            assert(rest_entries[i] == entries[i + 1]);
            assert(rest_states[i] == states[i + 1]);
            assert(rest_states[i + 1] == states[i + 2]);
        }
        lemma_replay_equivalence(states[1], rest_entries, rest_states);
        assert(rest_states[rest_entries.len() as int] == states[entries.len() as int]);
    }
}

/// Renumbering correctness: when a journal opens descriptor `fd_x` on a path
/// and then duplicates it to `fd_y`, any state its replay reaches has `fd_y`
/// open as an independent, valid descriptor with the recorded path, rights
/// and flags — and when the duplication closed its source, `fd_x` is closed
/// there too, while without closing `fd_x` stays open and equivalent.
pub proof fn lemma_renumbering_correctness(
    s: StateView,
    fd_x: u32,
    dirfd: u32,
    dirflags: u32,
    path: Seq<char>,
    o_flags: u16,
    fs_rights_base: u64,
    fs_rights_inheriting: u64,
    fs_flags: u16,
    fd_y: u32,
    close_original: bool,
)
    requires
        seq_effect(
            s,
            seq![
                open_entry(
                    fd_x,
                    dirfd,
                    dirflags,
                    path,
                    o_flags,
                    fs_rights_base,
                    fs_rights_inheriting,
                    fs_flags,
                ),
                dup_entry(fd_x, fd_y, close_original),
            ],
        ) is Some,
    ensures
        ({
            let t = seq_effect(
                s,
                seq![
                    open_entry(
                        fd_x,
                        dirfd,
                        dirflags,
                        path,
                        o_flags,
                        fs_rights_base,
                        fs_rights_inheriting,
                        fs_flags,
                    ),
                    dup_entry(fd_x, fd_y, close_original),
                ],
            )->Some_0.table;
            &&& fd_x != fd_y
            &&& t.contains_key(fd_y)
            &&& t[fd_y] == opened_desc(path, fs_rights_base, fs_rights_inheriting, fs_flags)
            &&& close_original ==> !t.contains_key(fd_x)
            &&& !close_original ==> t.contains_key(fd_x) && t[fd_x] == opened_desc(
                path,
                fs_rights_base,
                fs_rights_inheriting,
                fs_flags,
            )
        }),
{
    let e1 = open_entry(
        fd_x,
        dirfd,
        dirflags,
        path,
        o_flags,
        fs_rights_base,
        fs_rights_inheriting,
        fs_flags,
    );
    let e2 = dup_entry(fd_x, fd_y, close_original);
    let es = seq![e1, e2];
    assert(es[0] == e1);
    assert(entry_effect(s, e1) is Some);
    let s1 = entry_effect(s, e1)->Some_0;
    assert(es.skip(1) =~= seq![e2]);
    assert(seq_effect(s, es) == seq_effect(s1, seq![e2]));
    assert(seq![e2][0] == e2);
    assert(entry_effect(s1, e2) is Some);
    let s2 = entry_effect(s1, e2)->Some_0;
    assert(seq![e2].skip(1) =~= Seq::<EntryView>::empty());
    assert(seq_effect(s1, seq![e2]) == seq_effect(s2, seq![e2].skip(1)));
    assert(seq_effect(s, es) == Some(s2));
    assert(s1.table.contains_key(fd_x) && !s1.table.contains_key(fd_y));
}

/// The journal a run of appends leaves behind: each successful journalable
/// call pushes its one entry at the end.
pub open spec fn push_all(j: Seq<EntryView>, es: Seq<EntryView>) -> Seq<EntryView>
    decreases es.len(),
{
    if es.len() == 0 {
        j
    } else {
        push_all(j.push(es[0]), es.skip(1))
    }
}

/// Order preservation: a run of appends stores exactly the appended entries,
/// after what was already there, in the order the appends completed — reading
/// position `j.len() + i` back yields the `i`-th appended entry.
pub proof fn lemma_order_preservation(j: Seq<EntryView>, es: Seq<EntryView>)
    ensures
        push_all(j, es) =~= j + es,
        push_all(j, es).len() == j.len() + es.len(),
        forall|i: int| 0 <= i < es.len() ==> push_all(j, es)[j.len() + i] == es[i],
    decreases es.len(),
{
    if es.len() == 0 {
        assert(push_all(j, es) =~= j + es);
    } else {
        lemma_order_preservation(j.push(es[0]), es.skip(1));
        assert(j.push(es[0]) + es.skip(1) =~= j + es);
    }
}

} // verus!
