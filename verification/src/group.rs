//! Library groups: independent copies of the process's dynamic libraries,
//! selectable per thread. The shared group is the host program's own; a thread
//! is preemptible exactly while it runs in any other group.

use vstd::prelude::*;

verus! {

/// Identifier of a library group. The shared group has id 0.
#[derive(Clone, Copy, Debug, PartialEq, Eq, Structural)]
pub struct Group {
    pub id: u64,
}

impl Group {
    pub open spec fn shared_spec() -> Group {
        Group { id: 0 }
    }

    /// The host program's group.
    pub fn shared() -> (group: Group)
        ensures
            group == Group::shared_spec(),
    {
        Group { id: 0 }
    }

    pub fn is_shared(&self) -> (shared: bool)
        ensures
            shared == (*self == Group::shared_spec()),
    {
        self.id == 0
    }
}

/// Hands out the groups of a process, at most `limit` of them, numbered from
/// 1 in the order created.
#[derive(Clone, Copy, Debug)]
pub struct GroupSource {
    limit: usize,
    created: usize,
}

impl GroupSource {
    pub closed spec fn limit(&self) -> usize {
        self.limit
    }

    pub closed spec fn created(&self) -> usize {
        self.created
    }

    pub open spec fn wf(&self) -> bool {
        self.created() <= self.limit()
    }

    /// A source of at most `limit` groups.
    pub fn new(limit: usize) -> (source: GroupSource)
        ensures
            source.created() == 0,
            source.limit() == limit,
            source.wf(),
    {
        GroupSource { limit, created: 0 }
    }

    /// The most groups, and so the most unfinished tasks, that the process
    /// can hold at once.
    pub fn capacity(&self) -> (limit: usize)
        ensures
            limit == self.limit(),
    {
        self.limit
    }

    /// Creates the next group, or nothing once the limit is reached.
    pub fn create(&mut self) -> (group: Option<Group>)
        requires
            old(self).wf(),
        ensures
            final(self).wf(),
            final(self).limit() == old(self).limit(),
            old(self).created() < old(self).limit() ==> group == Some(
                Group { id: (old(self).created() + 1) as u64 },
            ) && final(self).created() == old(self).created() + 1,
            old(self).created() >= old(self).limit() ==> group.is_none() && final(self).created()
                == old(self).created(),
            group matches Some(g) ==> !(g == Group::shared_spec()),
    {
        if self.created < self.limit {
            self.created = self.created + 1;
            Some(Group { id: self.created as u64 })
        } else {
            None
        }
    }
}

} // verus!
