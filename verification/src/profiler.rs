//! Timing of sections of code, one reading of the clock at each end.

use vstd::prelude::*;
use std::collections::VecDeque;

verus! {

pub struct Profiler {
    past: VecDeque<u64>,
    present: u64,
}

impl Profiler {
    /// The lengths of the sections timed so far, oldest first.
    pub closed spec fn view(&self) -> Seq<u64> {
        self.past@
    }

    /// When the open section began; 0 if none is open.
    pub closed spec fn present(&self) -> u64 {
        self.present
    }

    pub fn new() -> (profiler: Profiler)
        ensures
            profiler@ == Seq::<u64>::empty(),
            profiler.present() == 0,
    {
        Profiler { past: VecDeque::new(), present: 0 }
    }

    /// Opens a section at `now`.
    pub fn begin(&mut self, now: u64)
        ensures
            final(self).present() == now,
            final(self)@ == old(self)@,
    {
        self.present = now;
    }

    /// Closes the open section at `now` and records its length. Answers
    /// whether a section was open.
    pub fn end(&mut self, now: u64) -> (closed: bool)
        requires
            old(self).present() <= now,
        ensures
            closed == (old(self).present() != 0),
            final(self).present() == 0,
            final(self)@ == if closed {
                old(self)@.push((now - old(self).present()) as u64)
            } else {
                old(self)@
            },
    {
        if self.present != 0 {
            self.past.push_back(now - self.present);
            self.present = 0;
            true
        } else {
            false
        }
    }

    /// How many sections were timed.
    pub fn count(&self) -> (n: usize)
        ensures
            n == self@.len(),
    {
        self.past.len()
    }

    /// Length of section `index`.
    pub fn sample(&self, index: usize) -> (length: u64)
        requires
            index < self@.len(),
        ensures
            length == self@[index as int],
    {
        self.past[index]
    }
}

/// `profiler` is what `slot` holds, or a new profiler if it holds none.
pub open spec fn drawn_from(slot: Option<Profiler>, profiler: Profiler) -> bool {
    match slot {
        Some(kept) => profiler == kept,
        None => profiler@ == Seq::<u64>::empty() && profiler.present() == 0,
    }
}

/// Runs `fun` on the profiler in `slot`, making one first if there is none,
/// and leaves in `slot` the profiler as `fun` left it.
pub fn with_profiler<T, F: Fn(&mut Profiler) -> T>(slot: &mut Option<Profiler>, fun: F) -> (result:
    T)
    requires
        forall|p: &mut Profiler| drawn_from(*old(slot), *p) ==> #[trigger] call_requires(fun, (p,)),
    ensures
        final(slot).is_some(),
        exists|p: &mut Profiler|
            {
                &&& drawn_from(*old(slot), *p)
                &&& *final(p) == final(slot).unwrap()
                &&& #[trigger] call_ensures(fun, (p,), result)
            },
{
    let mut profiler = match slot.take() {
        Some(profiler) => profiler,
        None => Profiler::new(),
    };
    let result = fun(&mut profiler);
    *slot = Some(profiler);
    result
}

} // verus!
