//! The task as a foreign caller holds it: the task itself and a flag that
//! says whether it has finished.

use vstd::prelude::*;
use crate::context::StackRegion;
use crate::group::Group;
use crate::linger::{cancel as release, with_stack, Teardown};
use crate::reusable::Pool;

verus! {

pub struct Linger<F, P> {
    pub is_complete: bool,
    pub continuation: crate::linger::Linger<(), F, P>,
}

impl<F, P> Linger<F, P> {
    /// Wraps a task, noting whether it has finished already.
    pub fn new(timed: crate::linger::Linger<(), F, P>) -> (wrapped: Linger<F, P>)
        ensures
            wrapped.is_complete == (timed is Completion),
            wrapped.continuation == timed,
    {
        Linger { is_complete: timed.is_completion(), continuation: timed }
    }

    /// Brings the flag up to date after the task was resumed.
    pub fn refresh(&mut self)
        ensures
            final(self).is_complete == (old(self).continuation is Completion),
            final(self).continuation == old(self).continuation,
    {
        self.is_complete = self.continuation.is_completion();
    }
}

/// Cancels a task: an unfinished one gives up its resources and counts as
/// finished from then on; any other is left as it is.
pub fn cancel<F, P, S: Fn() -> Option<StackRegion>, G: Fn() -> Option<Group>>(
    timed: &mut Linger<F, P>,
    current: usize,
    stacks: &mut Pool<StackRegion, S>,
    groups: &mut Pool<Group, G>,
) -> (teardown: Option<Teardown>)
    ensures
        final(stacks).builder() == old(stacks).builder(),
        final(groups).builder() == old(groups).builder(),
        old(timed).is_complete ==> final(timed).is_complete,
        match old(timed).continuation {
            crate::linger::Linger::Continuation(c) => {
                &&& final(timed).is_complete
                &&& final(timed).continuation is Completion
                &&& teardown == Some(
                    Teardown {
                        renew: if c.stateful.errno.is_some() {
                            Some(c.group@)
                        } else {
                            None
                        },
                        retire: c.tls.retirement(c.group@, current),
                    },
                )
                &&& final(stacks)@ == with_stack(old(stacks)@, c.stateful.checkpoint)
                &&& final(groups)@ == old(groups)@.push(c.group@)
            },
            _ => {
                &&& *final(timed) == *old(timed)
                &&& teardown.is_none()
                &&& final(stacks)@ == old(stacks)@
                &&& final(groups)@ == old(groups)@
            },
        },
{
    if timed.continuation.is_continuation() {
        let mut taken = crate::linger::Linger::Completion(());
        core::mem::swap(&mut timed.continuation, &mut taken);
        timed.is_complete = true;
        release(taken, current, stacks, groups)
    } else {
        None
    }
}

} // verus!
