//! Node identity.
//!
//! Every layout node carries an opaque identity used only for external
//! correlation, never in layout arithmetic. Identities are handed out by an
//! explicit [`IdAllocator`] owned by the tree's builder, so the engine holds
//! no hidden global state and a builder that wants deterministic ids gets
//! them.
use vstd::prelude::*;

verus! {

/// An opaque identity for a layout node.
#[derive(Debug, Clone, Copy, PartialEq, Eq, PartialOrd, Ord, Structural)]
pub struct GlobalId {
    pub value: u64,
}

impl GlobalId {
    /// The placeholder identity a node is built with before its builder
    /// assigns one from an allocator.
    pub fn new() -> (r: Self)
        ensures
            r == (GlobalId { value: 0u64 }),
    {
        Self { value: 0 }
    }
}

impl Default for GlobalId {
    fn default() -> (r: Self)
        ensures
            r == (GlobalId { value: 0u64 }),
    {
        Self { value: 0 }
    }
}

/// A counter that hands out identities, each strictly greater than every
/// one it handed out before, so that all of them are distinct.
#[derive(Debug, Clone, Copy, PartialEq, Eq, Structural)]
pub struct IdAllocator {
    pub next: u64,
}

impl IdAllocator {
    pub fn new() -> (r: Self)
        ensures
            r == (IdAllocator { next: 0u64 }),
    {
        Self { next: 0 }
    }

    /// Hands out the next identity.
    pub fn fresh(&mut self) -> (r: GlobalId)
        requires
            old(self).next < u64::MAX,
        ensures
            r.value == old(self).next,
            final(self).next == old(self).next + 1,
    {
        let id = GlobalId { value: self.next };
        self.next = self.next + 1;
        id
    }
}

/// Identities drawn one after the other from the same allocator are
/// distinct: the allocator's counter only grows, so a later identity is
/// strictly greater than an earlier one.
pub proof fn lemma_fresh_ids_distinct(a: IdAllocator, b: IdAllocator, first: GlobalId, later: GlobalId)
    requires
        first.value == a.next,
        a.next < b.next,
        later.value == b.next,
    ensures
        first != later,
{
}

} // verus!
