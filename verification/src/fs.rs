//! The file-system capability surface the effector depends on: a per-instance
//! descriptor table keyed by small integer identifiers, and a model of the
//! host paths that can be opened.
//!
//! Descriptor identifiers are non-deterministic across runs: the allocator
//! hands out the lowest free identifier at or above a caller-chosen minimum,
//! so a fresh instance whose low identifiers are already occupied allocates
//! different numbers than the original run.  Replay reconciles that with
//! [`DescriptorTable::renumber`].

use vstd::assert_sets_equal;
use vstd::map::*;
use vstd::prelude::*;

use crate::errors::Errno;

verus! {

/// One open descriptor: the path it was opened on, its rights and flags.
#[derive(Debug)]
pub struct Descriptor {
    /// The path this descriptor is open on.
    pub path: String,
    /// Rights held on the descriptor itself.
    pub fs_rights_base: u64,
    /// Rights inherited by descriptors derived from this one.
    pub fs_rights_inheriting: u64,
    /// Descriptor flags.
    pub fs_flags: u16,
}

/// Mathematical value of a [`Descriptor`].
#[verifier::ext_equal]
pub struct DescView {
    /// The path the descriptor is open on.
    pub path: Seq<char>,
    /// Rights held on the descriptor itself.
    pub fs_rights_base: u64,
    /// Rights inherited by descriptors derived from this one.
    pub fs_rights_inheriting: u64,
    /// Descriptor flags.
    pub fs_flags: u16,
}

impl View for Descriptor {
    type V = DescView;

    open spec fn view(&self) -> DescView {
        DescView {
            path: self.path@,
            fs_rights_base: self.fs_rights_base,
            fs_rights_inheriting: self.fs_rights_inheriting,
            fs_flags: self.fs_flags,
        }
    }
}

impl Descriptor {
    /// An independent descriptor with the same path, rights and flags.
    pub fn duplicate(&self) -> (d: Descriptor)
        ensures
            d@ == self@,
    {
        Descriptor {
            path: self.path.clone(),
            fs_rights_base: self.fs_rights_base,
            fs_rights_inheriting: self.fs_rights_inheriting,
            fs_flags: self.fs_flags,
        }
    }
}

/// One instance's descriptor table: a partial map from descriptor identifier
/// to open descriptor, with lowest-free allocation and forcible renumbering.
#[derive(Debug)]
pub struct DescriptorTable {
    slots: Vec<Option<Descriptor>>,
}

impl DescriptorTable {
    /// The open descriptors, as a map from identifier to descriptor value.
    pub closed spec fn table(&self) -> Map<u32, DescView> {
        Map::new(
            |fd: u32| fd < self.slots@.len() && self.slots@[fd as int] is Some,
            |fd: u32| self.slots@[fd as int]->Some_0@,
        )
    }

    /// Internal bound that keeps every slot index a valid identifier.
    pub closed spec fn wf(&self) -> bool {
        self.slots@.len() <= u32::MAX + 1
    }

    /// An empty table, as in a freshly started instance.
    pub fn new() -> (t: DescriptorTable)
        ensures
            t.wf(),
            t.table() == Map::<u32, DescView>::empty(),
    {
        let t = DescriptorTable { slots: Vec::new() };
        proof {
            assert_maps_equal!(t.table(), Map::<u32, DescView>::empty());
        }
        t
    }

    /// Looks a descriptor up by identifier.
    pub fn lookup(&self, fd: u32) -> (r: Option<&Descriptor>)
        ensures
            match r {
                Some(d) => self.table().contains_key(fd) && d@ == self.table()[fd],
                None => !self.table().contains_key(fd),
            },
    {
        if (fd as usize) < self.slots.len() {
            match &self.slots[fd as usize] {
                Some(d) => Some(d),
                None => None,
            }
        } else {
            None
        }
    }

    /// Places `d` at the lowest free identifier at or above `min`, the way
    /// the underlying resource allocator assigns identifiers.  Fails with
    /// `Errno::Mfile` only when every identifier at or above `min` is taken.
    pub fn alloc_from(&mut self, d: Descriptor, min: u32) -> (r: Result<u32, Errno>)
        requires
            old(self).wf(),
        ensures
            final(self).wf(),
            match r {
                Ok(fd) => {
                    &&& min <= fd
                    &&& !old(self).table().contains_key(fd)
                    &&& forall|g: u32| min <= g < fd ==> old(self).table().contains_key(g)
                    &&& final(self).table() == old(self).table().insert(fd, d@)
                },
                Err(e) => {
                    &&& e == Errno::Mfile
                    &&& final(self).table() == old(self).table()
                    &&& forall|g: u32| min <= g ==> old(self).table().contains_key(g)
                },
            },
    {
        if (min as usize) < self.slots.len() {
            let mut i: usize = min as usize;
            while i < self.slots.len()
                invariant
                    min as int <= i as int,
                    old(self).wf(),
                    self.slots@ == old(self).slots@,
                    forall|g: u32| min <= g < i ==> old(self).table().contains_key(g),
                decreases self.slots@.len() - i,
            {
                if self.slots[i].is_none() {
                    let slot = &mut self.slots[i];
                    *slot = Some(d);
                    proof {
                        assert_maps_equal!(self.table(), old(self).table().insert(i as u32, d@));
                    }
                    return Ok(i as u32);
                }
                proof {
                    assert(old(self).table().contains_key(i as u32));
                }
                i = i + 1;
            }
            // No identifier in [min, len) is free; the next identifier is the
            // current length, unless even that is out of range.
            if self.slots.len() > (u32::MAX as usize) {
                proof {
                    assert forall|g: u32| min <= g implies old(self).table().contains_key(g) by {
                        assert(g < self.slots@.len());
                    }
                }
                return Err(Errno::Mfile);
            }
            let fd: usize = self.slots.len();
            self.slots.push(Some(d));
            proof {
                assert_maps_equal!(self.table(), old(self).table().insert(fd as u32, d@));
            }
            Ok(fd as u32)
        } else {
            // Every identifier at or above the table length is free, so the
            // lowest free identifier at or above `min` is `min` itself.
            while self.slots.len() < (min as usize)
                invariant
                    old(self).slots@.len() <= self.slots@.len() <= min as int,
                    forall|j: int|
                        0 <= j < self.slots@.len() ==> self.slots@[j] == (
                        if j < old(self).slots@.len() {
                            old(self).slots@[j]
                        } else {
                            Option::<Descriptor>::None
                        }),
                decreases min as int - self.slots@.len(),
            {
                self.slots.push(None);
            }
            self.slots.push(Some(d));
            proof {
                assert_maps_equal!(self.table(), old(self).table().insert(min, d@));
            }
            Ok(min)
        }
    }

    /// Forcibly reassigns the descriptor at `from` to the identifier `to`.
    /// Fails with `Errno::Badf` when `from` is not open, and with
    /// `Errno::Exist` when `to` is a different, already occupied identifier;
    /// on failure the table is unchanged.
    pub fn renumber(&mut self, from: u32, to: u32) -> (ret: Errno)
        requires
            old(self).wf(),
        ensures
            final(self).wf(),
            (ret == Errno::Success) == (old(self).table().contains_key(from) && (to == from
                || !old(self).table().contains_key(to))),
            ret == Errno::Success ==> final(self).table() == old(self).table().remove(
                from,
            ).insert(to, old(self).table()[from]),
            ret != Errno::Success ==> final(self).table() == old(self).table(),
            ret == Errno::Success || ret == Errno::Badf || ret == Errno::Exist,
            ret == Errno::Badf ==> !old(self).table().contains_key(from),
            ret == Errno::Exist ==> to != from && old(self).table().contains_key(to),
    {
        if (from as usize) >= self.slots.len() || self.slots[from as usize].is_none() {
            return Errno::Badf;
        }
        if to == from {
            proof {
                assert_maps_equal!(
                    self.table(),
                    old(self).table().remove(from).insert(from, old(self).table()[from])
                );
            }
            return Errno::Success;
        }
        if (to as usize) < self.slots.len() && self.slots[to as usize].is_some() {
            return Errno::Exist;
        }
        let ghost pre = self.slots@;
        let slot_from = &mut self.slots[from as usize];
        let d = slot_from.take();
        while self.slots.len() <= (to as usize)
            invariant
                pre.len() <= self.slots@.len(),
                self.slots@.len() <= pre.len() || self.slots@.len() <= to as int + 1,
                forall|j: int|
                    0 <= j < self.slots@.len() ==> self.slots@[j] == (
                    if j == from as int {
                        Option::<Descriptor>::None
                    } else if j < pre.len() {
                        pre[j]
                    } else {
                        Option::<Descriptor>::None
                    }),
            decreases to as int + 1 - self.slots@.len(),
        {
            self.slots.push(None);
        }
        let slot_to = &mut self.slots[to as usize];
        *slot_to = d;
        proof {
            assert_maps_equal!(
                self.table(),
                old(self).table().remove(from).insert(to, old(self).table()[from])
            );
        }
        Errno::Success
    }

    /// Removes the descriptor at `fd` and hands it back, or `None` when `fd`
    /// is not open.
    pub fn remove(&mut self, fd: u32) -> (r: Option<Descriptor>)
        requires
            old(self).wf(),
        ensures
            final(self).wf(),
            (r is Some) == old(self).table().contains_key(fd),
            r is Some ==> r->Some_0@ == old(self).table()[fd] && final(self).table() == old(
                self,
            ).table().remove(fd),
            r is None ==> final(self).table() == old(self).table(),
    {
        if (fd as usize) < self.slots.len() {
            let slot = &mut self.slots[fd as usize];
            let r = slot.take();
            proof {
                if old(self).table().contains_key(fd) {
                    assert_maps_equal!(self.table(), old(self).table().remove(fd));
                } else {
                    assert_maps_equal!(self.table(), old(self).table());
                }
            }
            r
        } else {
            None
        }
    }
}

/// The host paths visible to one instance: the narrow model of the underlying
/// virtual file system that opening a path consults.  Replay may run against
/// a host whose paths differ from the original run's (a file may have been
/// deleted in between), which is exactly what makes replay fallible.
#[derive(Debug)]
pub struct HostFs {
    paths: Vec<String>,
}

impl View for HostFs {
    type V = Set<Seq<char>>;

    /// The set of paths that exist on the host.
    closed spec fn view(&self) -> Set<Seq<char>> {
        Set::new(
            |p: Seq<char>|
                exists|i: int| 0 <= i < self.paths@.len() && #[trigger] self.paths@[i]@ == p,
        )
    }
}

impl HostFs {
    /// A host with no paths at all.
    pub fn new() -> (h: HostFs)
        ensures
            h@ == Set::<Seq<char>>::empty(),
    {
        let h = HostFs { paths: Vec::new() };
        proof {
            assert_sets_equal!(h@, Set::<Seq<char>>::empty());
        }
        h
    }

    /// Whether `path` exists on the host.
    pub fn contains_path(&self, path: &str) -> (b: bool)
        ensures
            b == self@.contains(path@),
    {
        let needle = path.to_owned();
        let mut i: usize = 0;
        while i < self.paths.len()
            invariant
                needle@ == path@,
                i <= self.paths@.len(),
                forall|j: int| 0 <= j < i ==> #[trigger] self.paths@[j]@ != path@,
            decreases self.paths@.len() - i,
        {
            if self.paths[i].eq(&needle) {
                return true;
            }
            i = i + 1;
        }
        false
    }

    /// Makes `path` exist on the host (creating a file, in the model).
    pub fn add_path(&mut self, path: &str)
        ensures
            final(self)@ == old(self)@.insert(path@),
    {
        if self.contains_path(path) {
            proof {
                assert_sets_equal!(self@, old(self)@.insert(path@));
            }
            return;
        }
        self.paths.push(path.to_owned());
        proof {
            assert_sets_equal!(self@, old(self)@.insert(path@), q => {
                if self@.contains(q) {
                    let i = choose|i: int|
                        0 <= i < self.paths@.len() && #[trigger] self.paths@[i]@ == q;
                    if i < old(self).paths@.len() {
                        assert(old(self).paths@[i]@ == q);
                    }
                } else {
                }
                if old(self)@.insert(path@).contains(q) {
                    if q == path@ {
                        assert(self.paths@[self.paths@.len() - 1]@ == q);
                    } else {
                        let i = choose|i: int|
                            0 <= i < old(self).paths@.len() && #[trigger] old(self).paths@[i]@ == q;
                        assert(self.paths@[i]@ == q);
                    }
                }
            });
        }
    }
}

} // verus!
