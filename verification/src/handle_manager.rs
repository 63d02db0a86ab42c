//! Registry of open native handles and the discipline for releasing them.
//!
//! Every path that creates a module-side resource registers its handle here
//! together with a disposition saying how the resource must be released, and
//! every path that releases one deregisters it. At teardown the registry
//! yields the exact sequence of release calls still owed to the module.

use vstd::prelude::*;

use crate::errors::{Error, WrapperErrorKind};

verus! {

/// Disposition of a tracked native handle: which release operation the
/// registry schedules for it at teardown.
#[derive(Clone, Copy, PartialEq, Eq, Structural, Debug)]
pub enum HandleDisposition {
    /// The module must forget the volatile resource entirely.
    Flush,
    /// Only the local transient reference is released; the module-side
    /// resource persists.
    Close,
}

/// One registry entry: an open native handle and its disposition.
#[derive(Clone, Copy, PartialEq, Eq, Structural, Debug)]
pub struct HandleEntry {
    /// The native handle identifier.
    pub handle: u32,
    /// How the resource behind the handle must be released.
    pub disposition: HandleDisposition,
}

/// The registry with every entry for `handle` taken out, order otherwise kept.
pub open spec fn without_handle(s: Seq<HandleEntry>, handle: u32) -> Seq<HandleEntry>
    decreases s.len(),
{
    if s.len() == 0 {
        Seq::empty()
    } else {
        let rest = without_handle(s.drop_last(), handle);
        if s.last().handle == handle {
            rest
        } else {
            rest.push(s.last())
        }
    }
}

/// The handles of all entries with `Flush` disposition, in registry order.
pub open spec fn flush_handles(s: Seq<HandleEntry>) -> Seq<u32>
    decreases s.len(),
{
    if s.len() == 0 {
        Seq::empty()
    } else {
        let rest = flush_handles(s.drop_last());
        if s.last().disposition is Flush {
            rest.push(s.last().handle)
        } else {
            rest
        }
    }
}

/// The handles of all entries with `Close` disposition, in registry order.
pub open spec fn close_handles(s: Seq<HandleEntry>) -> Seq<u32>
    decreases s.len(),
{
    if s.len() == 0 {
        Seq::empty()
    } else {
        let rest = close_handles(s.drop_last());
        if s.last().disposition is Close {
            rest.push(s.last().handle)
        } else {
            rest
        }
    }
}

/// Pairwise distinctness of handle identifiers over a run of entries.
pub open spec fn unique_handles(s: Seq<HandleEntry>) -> bool {
    forall|i: int, j: int| 0 <= i < j < s.len() ==> s[i].handle != s[j].handle
}

/// A registry mapping each open native handle to its disposition.
///
/// An open handle appears at most once; once released it is removed, not
/// merely marked.
#[derive(Debug)]
pub struct HandleManager {
    entries: Vec<HandleEntry>,
}

impl HandleManager {
    /// The registry's contents, in insertion order.
    pub closed spec fn entries_seq(self) -> Seq<HandleEntry> {
        self.entries@
    }

    /// Whether `handle` is currently registered.
    pub open spec fn contains_handle(self, handle: u32) -> bool {
        exists|i: int|
            0 <= i < self.entries_seq().len() && self.entries_seq()[i].handle == handle
    }

    /// The disposition registered for `handle`; meaningful only while
    /// `contains_handle(handle)` holds on a well-formed registry.
    pub open spec fn disposition_of(self, handle: u32) -> HandleDisposition {
        let i = choose|i: int|
            0 <= i < self.entries_seq().len() && self.entries_seq()[i].handle == handle;
        self.entries_seq()[i].disposition
    }

    /// Well-formedness: no handle identifier appears twice.
    pub open spec fn wf(self) -> bool {
        unique_handles(self.entries_seq())
    }

    /// Creates an empty registry.
    pub fn new() -> (r: HandleManager)
        ensures
            r.entries_seq() == Seq::<HandleEntry>::empty(),
            r.wf(),
    {
        HandleManager { entries: Vec::new() }
    }

    /// Index of the entry for `handle`, if any.
    fn find(&self, handle: u32) -> (r: Option<usize>)
        ensures
            match r {
                Some(i) => 0 <= i < self.entries_seq().len() && self.entries_seq()[i as int].handle
                    == handle,
                None => !self.contains_handle(handle),
            },
    {
        let mut i: usize = 0;
        while i < self.entries.len()
            invariant
                0 <= i <= self.entries_seq().len(),
                forall|k: int| 0 <= k < i ==> self.entries_seq()[k].handle != handle,
            decreases self.entries_seq().len() - i,
        {
            if self.entries[i].handle == handle {
                return Some(i);
            }
            i += 1;
        }
        None
    }

    /// Registers a newly created handle under its disposition.
    ///
    /// Re-registering a handle with the disposition it already has is
    /// idempotent; registering it with a different disposition is a caller
    /// bug and fails without touching the registry.
    pub fn add_handle(&mut self, handle: u32, disposition: HandleDisposition) -> (r: Result<
        (),
        Error,
    >)
        requires
            old(self).wf(),
        ensures
            final(self).wf(),
            r is Ok <==> (!old(self).contains_handle(handle) || old(self).disposition_of(handle)
                == disposition),
            old(self).contains_handle(handle) && old(self).disposition_of(handle) == disposition
                ==> *final(self) == *old(self),
            !old(self).contains_handle(handle) ==> final(self).entries_seq() == old(
                self,
            ).entries_seq().push(HandleEntry { handle, disposition }),
            r is Err ==> *final(self) == *old(self) && r == Result::<(), Error>::Err(
                Error::WrapperError(WrapperErrorKind::InconsistentParams),
            ),
    {
        match self.find(handle) {
            Some(i) => {
                proof {
                    let j = choose|j: int|
                        0 <= j < self.entries_seq().len() && self.entries_seq()[j].handle == handle;
                    assert(j == i as int);
                }
                if self.entries[i].disposition == disposition {
                    Ok(())
                } else {
                    Err(Error::WrapperError(WrapperErrorKind::InconsistentParams))
                }
            },
            None => {
                self.entries.push(HandleEntry { handle, disposition });
                Ok(())
            },
        }
    }

    /// Deregisters `handle` once its release succeeded.
    ///
    /// A handle that is not present is left alone: release paths can race
    /// benignly within the same single-threaded context, so double removal
    /// is a no-op, not an error.
    pub fn remove_handle(&mut self, handle: u32)
        requires
            old(self).wf(),
        ensures
            final(self).wf(),
            final(self).entries_seq() == without_handle(old(self).entries_seq(), handle),
            !final(self).contains_handle(handle),
    {
        let mut kept: Vec<HandleEntry> = Vec::new();
        let mut i: usize = 0;
        while i < self.entries.len()
            invariant
                0 <= i <= self.entries_seq().len(),
                kept@ == without_handle(self.entries_seq().take(i as int), handle),
            decreases self.entries_seq().len() - i,
        {
            let e = self.entries[i];
            proof {
                let t = self.entries_seq().take(i as int + 1);
                assert(t.drop_last() =~= self.entries_seq().take(i as int));
                assert(t.last() == e);
            }
            if e.handle != handle {
                kept.push(e);
            }
            i += 1;
        }
        proof {
            assert(self.entries_seq().take(self.entries_seq().len() as int) =~= self
                .entries_seq());
            lemma_without_handle_unique(self.entries_seq(), handle);
            lemma_without_handle_excludes(self.entries_seq(), handle);
        }
        self.entries = kept;
    }

    /// The handles owed a flush at teardown, in registry order.
    pub fn handles_to_flush(&self) -> (r: Vec<u32>)
        ensures
            r@ == flush_handles(self.entries_seq()),
    {
        let mut out: Vec<u32> = Vec::new();
        let mut i: usize = 0;
        while i < self.entries.len()
            invariant
                0 <= i <= self.entries_seq().len(),
                out@ == flush_handles(self.entries_seq().take(i as int)),
            decreases self.entries_seq().len() - i,
        {
            let e = self.entries[i];
            proof {
                let t = self.entries_seq().take(i as int + 1);
                assert(t.drop_last() =~= self.entries_seq().take(i as int));
                assert(t.last() == e);
            }
            if matches!(e.disposition, HandleDisposition::Flush) {
                out.push(e.handle);
            }
            i += 1;
        }
        proof {
            assert(self.entries_seq().take(self.entries_seq().len() as int) =~= self
                .entries_seq());
        }
        out
    }

    /// The handles owed a close at teardown, in registry order.
    pub fn handles_to_close(&self) -> (r: Vec<u32>)
        ensures
            r@ == close_handles(self.entries_seq()),
    {
        let mut out: Vec<u32> = Vec::new();
        let mut i: usize = 0;
        while i < self.entries.len()
            invariant
                0 <= i <= self.entries_seq().len(),
                out@ == close_handles(self.entries_seq().take(i as int)),
            decreases self.entries_seq().len() - i,
        {
            let e = self.entries[i];
            proof {
                let t = self.entries_seq().take(i as int + 1);
                assert(t.drop_last() =~= self.entries_seq().take(i as int));
                assert(t.last() == e);
            }
            if matches!(e.disposition, HandleDisposition::Close) {
                out.push(e.handle);
            }
            i += 1;
        }
        proof {
            assert(self.entries_seq().take(self.entries_seq().len() as int) =~= self
                .entries_seq());
        }
        out
    }

    /// Whether any handle is still registered; after a teardown sweep this
    /// signals that some release call failed.
    pub fn has_open_handles(&self) -> (r: bool)
        ensures
            r == (self.entries_seq().len() != 0),
    {
        self.entries.len() != 0
    }
}

/// Every entry of the reduced registry comes from the original one.
proof fn lemma_without_handle_from(s: Seq<HandleEntry>, handle: u32)
    ensures
        forall|k: int|
            0 <= k < without_handle(s, handle).len() ==> exists|m: int|
                0 <= m < s.len() && s[m] == #[trigger] without_handle(s, handle)[k],
    decreases s.len(),
{
    if s.len() != 0 {
        lemma_without_handle_from(s.drop_last(), handle);
        let r = without_handle(s, handle);
        let rest = without_handle(s.drop_last(), handle);
        assert forall|k: int| 0 <= k < r.len() implies exists|m: int|
            0 <= m < s.len() && s[m] == #[trigger] r[k] by {
            if k < rest.len() {
                let m = choose|m: int| 0 <= m < s.drop_last().len() && s.drop_last()[m] == rest[k];
                assert(s[m] == r[k]);
            } else {
                assert(s[s.len() - 1] == r[k]);
            }
        }
    }
}

/// Removing a handle keeps the remaining identifiers pairwise distinct.
proof fn lemma_without_handle_unique(s: Seq<HandleEntry>, handle: u32)
    requires
        unique_handles(s),
    ensures
        unique_handles(without_handle(s, handle)),
    decreases s.len(),
{
    if s.len() != 0 {
        lemma_without_handle_unique(s.drop_last(), handle);
        lemma_without_handle_from(s.drop_last(), handle);
        let r = without_handle(s, handle);
        let rest = without_handle(s.drop_last(), handle);
        assert forall|i: int, j: int| 0 <= i < j < r.len() implies r[i].handle != r[j].handle by {
            if j < rest.len() {
            } else {
                let m = choose|m: int| 0 <= m < s.drop_last().len() && s.drop_last()[m] == rest[i];
                assert(s[m] == r[i]);
            }
        }
    }
}

/// No entry for the removed handle survives.
proof fn lemma_without_handle_excludes(s: Seq<HandleEntry>, handle: u32)
    ensures
        forall|k: int| 0 <= k < without_handle(s, handle).len() ==> without_handle(s, handle)[k]
            .handle != handle,
    decreases s.len(),
{
    if s.len() != 0 {
        lemma_without_handle_excludes(s.drop_last(), handle);
    }
}

/// Registry uniqueness: a well-formed registry never holds two entries for
/// the same handle identifier at once. Every constructor and mutator above
/// establishes or preserves `wf`, so this holds over any sequence of
/// `add_handle` and `remove_handle` calls.
pub proof fn lemma_registry_handles_unique(m: HandleManager, i: int, j: int)
    requires
        m.wf(),
        0 <= i < m.entries_seq().len(),
        0 <= j < m.entries_seq().len(),
        i != j,
    ensures
        m.entries_seq()[i].handle != m.entries_seq()[j].handle,
{
}

/// Teardown exhaustiveness: the flush list and the close list together cover
/// the whole registry, so a sweep over both attempts exactly one release
/// call per open handle.
pub proof fn lemma_teardown_sweep_exhaustive(s: Seq<HandleEntry>)
    ensures
        flush_handles(s).len() + close_handles(s).len() == s.len(),
    decreases s.len(),
{
    if s.len() != 0 {
        lemma_teardown_sweep_exhaustive(s.drop_last());
    }
}

} // verus!
