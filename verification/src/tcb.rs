//! Thread-control blocks: the one a thread was born with, which is only
//! borrowed, and the ones allocated for tasks, which are owned and must have
//! their thread-local destructors run before they are freed.

use vstd::prelude::*;
use crate::group::Group;

verus! {

/// Index of the stack-protector cookie among the words of a block.
pub const POINTER_GUARD: usize = 6;

/// The address of a block and whether it is ours to free.
#[derive(Clone, Copy, Debug, PartialEq, Eq, Structural)]
pub enum Block {
    Borrowed(usize),
    Owned(usize),
}

#[derive(Debug)]
pub struct ThreadControlBlock {
    block: Option<Block>,
}

/// Steps to make a block the thread's current one, in the order of the
/// fields.
#[derive(Clone, Copy, Debug, PartialEq, Eq, Structural)]
pub struct Install {
    /// The block whose stack-protector cookie is copied into the new one
    /// first, so that frames entered under the old block still return.
    pub copy_guard_from: Option<usize>,
    /// The address to set the thread pointer to, in every group.
    pub set: usize,
    /// Whether the host group's locale tables are initialised for the block.
    pub init_host: bool,
    /// The group whose locale tables are initialised for the block as well.
    pub init_group: Option<Group>,
}

/// Steps to retire an installed block, in the order of the fields.
#[derive(Clone, Copy, Debug, PartialEq, Eq, Structural)]
pub struct Uninstall {
    /// The group in which thread-local destructors run, while the block is
    /// still current.
    pub run_destructors: Option<Group>,
    /// The address to set the thread pointer back to.
    pub restore: usize,
    /// The block to free afterwards.
    pub deallocate: Option<usize>,
}

/// Steps to give up an owned block that is not installed: install it, then
/// retire it.
#[derive(Clone, Copy, Debug, PartialEq, Eq, Structural)]
pub struct Retirement {
    pub install: Install,
    pub uninstall: Uninstall,
}

/// An installed block together with the one it displaced.
#[derive(Debug)]
pub struct ThreadControlBlockGuard {
    this: ThreadControlBlock,
    parent: usize,
    group: Group,
}

impl ThreadControlBlock {
    pub closed spec fn view(&self) -> Option<Block> {
        self.block
    }

    pub open spec fn address(&self) -> Option<usize> {
        match self@ {
            Some(Block::Borrowed(addr)) => Some(addr),
            Some(Block::Owned(addr)) => Some(addr),
            None => None,
        }
    }

    pub open spec fn is_owned(&self) -> bool {
        self@ matches Some(Block::Owned(_))
    }

    /// What installing this block, with `current` the thread's block so far,
    /// consists of.
    pub open spec fn install_steps(&self, group: Option<Group>, current: usize) -> Install {
        Install {
            copy_guard_from: if self.is_owned() {
                Some(current)
            } else {
                None
            },
            set: self.address().unwrap(),
            init_host: self.is_owned(),
            init_group: if self.is_owned() {
                group
            } else {
                None
            },
        }
    }

    /// What giving up this block of a task of `group`, with `current` the
    /// thread's block, consists of: nothing unless the block is owned.
    pub open spec fn retirement(&self, group: Group, current: usize) -> Option<Retirement> {
        match self@ {
            Some(Block::Owned(addr)) => Some(
                Retirement {
                    install: self.install_steps(None, current),
                    uninstall: Uninstall {
                        run_destructors: Some(group),
                        restore: current,
                        deallocate: Some(addr),
                    },
                },
            ),
            _ => None,
        }
    }

    /// Takes charge of a block that was just allocated at `addr`.
    pub fn new(addr: usize) -> (tcb: ThreadControlBlock)
        ensures
            tcb@ == Some(Block::Owned(addr)),
    {
        ThreadControlBlock { block: Some(Block::Owned(addr)) }
    }

    /// Refers to the thread's current block, found at `addr`.
    pub fn current(addr: usize) -> (tcb: ThreadControlBlock)
        ensures
            tcb@ == Some(Block::Borrowed(addr)),
    {
        ThreadControlBlock { block: Some(Block::Borrowed(addr)) }
    }

    pub fn is_empty(&self) -> (empty: bool)
        ensures
            empty == self@.is_none(),
    {
        self.block.is_none()
    }

    /// The steps to install this block without keeping track of the one it
    /// displaces.
    pub fn install_unguarded(&self, group: Option<Group>, current: usize) -> (steps: Install)
        requires
            self@.is_some(),
        ensures
            steps == self.install_steps(group, current),
    {
        match self.block.unwrap() {
            Block::Owned(addr) => Install {
                copy_guard_from: Some(current),
                set: addr,
                init_host: true,
                init_group: group,
            },
            Block::Borrowed(addr) => Install {
                copy_guard_from: None,
                set: addr,
                init_host: false,
                init_group: None,
            },
        }
    }

    /// Installs this block for a task of `group`. The guard remembers which
    /// block to go back to: the displaced one for an owned block, the block
    /// itself for a borrowed one.
    pub fn install(self, group: Group, current: usize) -> (installed: (
        Install,
        ThreadControlBlockGuard,
    ))
        requires
            self@.is_some(),
        ensures
            installed.0 == self.install_steps(Some(group), current),
            installed.1.this() == self@,
            installed.1.group() == group,
            installed.1.parent() == if self.is_owned() {
                current
            } else {
                self.address().unwrap()
            },
    {
        let steps = self.install_unguarded(Some(group), current);
        let parent = match steps.copy_guard_from {
            Some(displaced) => displaced,
            None => steps.set,
        };
        (steps, ThreadControlBlockGuard { this: self, parent, group })
    }

    fn take(&mut self) -> (block: Option<Block>)
        ensures
            block == old(self)@,
            final(self)@.is_none(),
    {
        let block = self.block;
        self.block = None;
        block
    }

    /// Gives up the block of a task of `group`. An owned block is installed
    /// one last time, with `current` the thread's block, so that its
    /// destructors run under it; a borrowed or empty one needs nothing.
    pub fn release(self, group: Group, current: usize) -> (steps: Option<Retirement>)
        ensures
            steps == self.retirement(group, current),
    {
        match self.block {
            Some(Block::Owned(_)) => {
                let install = self.install_unguarded(None, current);
                let guard = ThreadControlBlockGuard { this: self, parent: current, group };
                Some(Retirement { install, uninstall: guard.release() })
            },
            _ => None,
        }
    }
}

impl ThreadControlBlockGuard {
    pub closed spec fn this(&self) -> Option<Block> {
        self.this@
    }

    pub closed spec fn parent(&self) -> usize {
        self.parent
    }

    pub closed spec fn group(&self) -> Group {
        self.group
    }

    /// Takes the block back out of the guard without retiring it.
    pub fn uninstall(self) -> (tcb: ThreadControlBlock)
        ensures
            tcb@ == self.this(),
    {
        self.this
    }

    /// Retires the installed block and goes back to the one it displaced.
    pub fn release(self) -> (steps: Uninstall)
        ensures
            steps == (Uninstall {
                run_destructors: if self.this() matches Some(Block::Owned(_)) {
                    Some(self.group())
                } else {
                    None
                },
                restore: self.parent(),
                deallocate: match self.this() {
                    Some(Block::Owned(addr)) => Some(addr),
                    _ => None,
                },
            }),
    {
        let mut this = self.this;
        match this.take() {
            Some(Block::Owned(addr)) => Uninstall {
                run_destructors: Some(self.group),
                restore: self.parent,
                deallocate: Some(addr),
            },
            _ => Uninstall { run_destructors: None, restore: self.parent, deallocate: None },
        }
    }
}

/// An owned block is given up in full: it is installed with the current
/// block's cookie, its destructors run in its task's group, the thread goes
/// back to the block it had, and the owned block is freed. A borrowed block
/// is never freed.
pub proof fn law_owned_blocks_are_retired_in_full(
    tcb: ThreadControlBlock,
    group: Group,
    current: usize,
)
    requires
        tcb@.is_some(),
    ensures
        tcb.retirement(group, current).is_some() == tcb.is_owned(),
        tcb.retirement(group, current) matches Some(r) ==> {
            &&& r.install.copy_guard_from == Some(current)
            &&& Some(r.install.set) == tcb.address()
            &&& r.uninstall.run_destructors == Some(group)
            &&& r.uninstall.restore == current
            &&& r.uninstall.deallocate == tcb.address()
        },
{
}

} // verus!
