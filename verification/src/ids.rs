//! The local message-id allocator: one counter per node, starting at 1,
//! handed out in strictly increasing order and never reused.
use vstd::prelude::*;

verus! {

/// A source of message ids for one node.
pub struct IdAllocator {
    next: u64,
}

impl IdAllocator {
    /// The id that the next allocation hands out.
    pub closed spec fn next_id(&self) -> u64 {
        self.next
    }

    /// The allocator as it stands after `count` more allocations.
    pub closed spec fn after(&self, count: nat) -> IdAllocator
        recommends
            self.next_id() + count <= u64::MAX,
    {
        IdAllocator { next: (self.next + count) as u64 }
    }

    /// A fresh allocator, whose first id is 1.
    pub fn new() -> (ids: IdAllocator)
        ensures
            ids.next_id() == 1,
    {
        IdAllocator { next: 1 }
    }

    /// Whether another id can be handed out.
    pub fn has_next(&self) -> (more: bool)
        ensures
            more == (self.next_id() < u64::MAX),
    {
        self.next < u64::MAX
    }

    /// The id that the next allocation will hand out, without taking it.
    pub fn peek(&self) -> (id: u64)
        ensures
            id == self.next_id(),
    {
        self.next
    }

    /// Hands out the next id and moves the counter one up.
    pub fn allocate(&mut self) -> (id: u64)
        requires
            old(self).next_id() < u64::MAX,
        ensures
            id == old(self).next_id(),
            *final(self) == old(self).after(1),
            final(self).next_id() == id + 1,
    {
        let id: u64 = self.next;
        self.next = id + 1;
        id
    }

    /// Hands out the next id where there is one left, and leaves the counter
    /// as it is where there is none.
    pub fn try_allocate(&mut self) -> (id: Option<u64>)
        ensures
            old(self).next_id() < u64::MAX ==> id == Some(old(self).next_id()) && *final(self)
                == old(self).after(1),
            old(self).next_id() == u64::MAX ==> id is None && *final(self) == *old(self),
    {
        if self.has_next() {
            Some(self.allocate())
        } else {
            None
        }
    }

    /// Allocating `count` times moves the next id up by `count`.
    pub proof fn lemma_after_next_id(&self, count: nat)
        requires
            self.next_id() + count <= u64::MAX,
        ensures
            self.after(count).next_id() == self.next_id() + count,
    {
    }

    /// One more allocation after `count` of them makes `count + 1`.
    pub proof fn lemma_after_one_more(&self, count: nat)
        requires
            self.next_id() + count < u64::MAX,
        ensures
            self.after(count).after(1) == self.after(count + 1),
    {
    }

    /// Ids grow strictly: an id handed out after one or more allocations is
    /// larger than the id handed out before them.
    pub proof fn lemma_ids_strictly_increase(&self, gap: nat)
        requires
            gap >= 1,
            self.next_id() + gap <= u64::MAX,
        ensures
            self.after(gap).next_id() > self.next_id(),
    {
    }
}

} // verus!
