//! Holding preemption off around a call that must not be interrupted, for
//! threads that are preempted by the alarm signal.

use vstd::prelude::*;
use crate::signals::Signal;

verus! {

/// Whether a thread is the first to ask.
#[derive(Clone, Copy, Debug)]
pub struct InitialThread {
    asked: bool,
}

impl InitialThread {
    pub closed spec fn asked(&self) -> bool {
        self.asked
    }

    pub fn new() -> (once: InitialThread)
        ensures
            !once.asked(),
    {
        InitialThread { asked: false }
    }

    /// True for the first caller only.
    pub fn is_initial_thread(&mut self) -> (first: bool)
        ensures
            first == !old(self).asked(),
            final(self).asked(),
    {
        let first = !self.asked;
        self.asked = true;
        first
    }
}

/// What ending a guarded section asks for: unblock the signal, then raise it
/// on the thread unless the thread is unwinding.
#[derive(Clone, Copy, Debug, PartialEq, Eq, Structural)]
pub struct Unblocking {
    pub unblock: Signal,
    pub raise: bool,
}

/// A section during which the alarm signal stays blocked.
#[derive(Debug)]
pub struct PreemptGuard {
    blocking: bool,
}

impl PreemptGuard {
    /// Whether the guard unblocks the signal when it ends.
    pub closed spec fn blocking(&self) -> bool {
        self.blocking
    }

    /// Starts a guarded section, the signal having just been blocked.
    /// `masked` says whether it was blocked before. The guard leaves the
    /// signal blocked for good if it was, or if the thread is the first one,
    /// which may never have launched a task and would be killed by the
    /// signal.
    pub fn block(masked: bool, initial: &mut InitialThread) -> (guard: PreemptGuard)
        ensures
            guard.blocking() == !(masked || !old(initial).asked()),
            masked ==> *final(initial) == *old(initial),
            !masked ==> final(initial).asked(),
    {
        PreemptGuard { blocking: !(masked || initial.is_initial_thread()) }
    }

    /// The steps that end any guarded section.
    pub fn unblock(panicking: bool) -> (steps: Unblocking)
        ensures
            steps == (Unblocking { unblock: Signal::Alarm, raise: !panicking }),
    {
        Unblocking { unblock: Signal::Alarm, raise: !panicking }
    }

    /// Ends the section: a guard that blocked the signal unblocks it, any
    /// other does nothing.
    pub fn release(self, panicking: bool) -> (steps: Option<Unblocking>)
        ensures
            steps == if self.blocking() {
                Some(Unblocking { unblock: Signal::Alarm, raise: !panicking })
            } else {
                None
            },
    {
        if self.blocking {
            Some(PreemptGuard::unblock(panicking))
        } else {
            None
        }
    }
}

} // verus!
