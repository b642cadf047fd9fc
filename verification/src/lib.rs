//! Preemptible user-level tasks: the generational ids, context rules, resource
//! pools, preemption control and scheduling decisions, stated over plain values
//! so that every transition carries a proved contract.

use vstd::prelude::*;

pub mod compile_assert;
pub mod context;
pub mod ffi;
pub mod group;
pub mod guard;
pub mod id;
pub mod linger;
pub mod preemption;
pub mod profiler;
pub mod reusable;
pub mod signals;
pub mod tcb;
pub mod time;
pub mod timer;
pub mod volatile;

pub use crate::linger::{launch, pause, resume, Continuation, Linger};
pub use crate::time::nsnow;

verus! {

/// The most tasks that can be unfinished at once: one per library group.
pub fn concurrency_limit(groups: &group::GroupSource) -> (limit: usize)
    ensures
        limit == groups.limit(),
{
    groups.capacity()
}

} // verus!
