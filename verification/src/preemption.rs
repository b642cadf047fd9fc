//! Preemption control for one thread: which signal preempts it, whether a
//! preemption is owed, and what has to be done to the thread's group and
//! signal mask when preemption is switched on or off.
//!
//! The functions here keep the thread's bookkeeping and answer with the steps
//! to carry out, in the order of the answer's fields.

use vstd::prelude::*;
use crate::group::Group;
use crate::reusable::{Pool, PoolError, Reusable};
use crate::signals::Signal;
use crate::timer::Clock;

verus! {

/// Largest quantum, in microseconds, whose length in nanoseconds a timer
/// setting can hold.
pub const MAX_QUANTUM_MICROSECS: u64 = 9_223_372_036_854_775;

/// The thread-local bookkeeping.
#[derive(Clone, Copy, Debug, PartialEq, Eq, Structural)]
pub struct Preemption {
    /// The signal and timer that the thread was given, once it was set up.
    pub assigned: Option<Signal>,
    /// Whether the signal is currently published to the handler.
    pub attached: bool,
    /// Whether a preemption arrived while it could not be taken.
    pub deferred: bool,
}

/// Steps to switch preemption on.
#[derive(Clone, Copy, Debug, PartialEq, Eq, Structural)]
pub struct Enabling {
    /// The group to move the thread into, before anything else. Its
    /// error-number location is the one that later forwarding writes to.
    pub enter: Option<Group>,
    /// The signal to raise on the thread, making up for a deferred preemption.
    pub raise: Option<Signal>,
    /// The signal to unblock.
    pub unblock: Option<Signal>,
    /// Whether the caller's error number is to be copied to the calling group.
    pub forward_errno: bool,
    /// Cleared if the thread had no preemption signal when one was needed.
    pub complete: bool,
}

/// Steps to switch preemption off: enter the shared group, then block.
#[derive(Clone, Copy, Debug, PartialEq, Eq, Structural)]
pub struct Disabling {
    pub enter: Group,
    pub block: Option<Signal>,
}

/// Where a deferred preemption masks its signal.
#[derive(Clone, Copy, Debug, PartialEq, Eq, Structural)]
pub enum Masking {
    /// In the mask that the interrupted code returns to.
    InHandler(Signal),
    /// In the thread's current mask.
    OnThread(Signal),
}

/// A timer interval.
#[derive(Clone, Copy, Debug, PartialEq, Eq, Structural)]
pub struct TimeSpec {
    pub sec: i64,
    pub nsec: i64,
}

/// What a thread that was just given a signal has to register.
#[derive(Clone, Copy, Debug, PartialEq, Eq, Structural)]
pub struct Registration {
    /// The signal to install the handler for and to block. The thread's
    /// timer announces its expiries by this signal, to this thread alone.
    pub signal: Signal,
    /// The clock that the thread's timer counts on.
    pub clock: Clock,
    /// First expiry and period of the thread's timer.
    pub period: TimeSpec,
}

/// Why a thread could not be set up.
#[derive(Clone, Copy, Debug, PartialEq, Eq, Structural)]
pub enum SetupError {
    /// Every notification signal is in use by another thread.
    NoSignal,
}

/// The timer setting for a quantum in microseconds.
pub fn timer_period(quantum: u64) -> (period: TimeSpec)
    requires
        quantum <= MAX_QUANTUM_MICROSECS,
    ensures
        period.sec == 0,
        period.nsec == quantum * 1_000,
{
    TimeSpec { sec: 0, nsec: (quantum * 1_000) as i64 }
}

/// A thread is preemptible exactly while it runs outside the shared group.
pub fn is_preemptible(current: Group) -> (preemptible: bool)
    ensures
        preemptible == !(current == Group::shared_spec()),
{
    !current.is_shared()
}

/// How a successful `thread_setup` relates the thread's state and the pool
/// of signals before and after it, and what it asks to be registered.
pub open spec fn set_up<F: Fn() -> Option<Signal>>(
    before: Preemption,
    after: Preemption,
    registration: Option<Registration>,
    free_before: Seq<Signal>,
    free_after: Seq<Signal>,
    builder: F,
    quantum: u64,
) -> bool {
    &&& after.attached
    &&& after.deferred == before.deferred
    &&& after.assigned.is_some()
    &&& if before.assigned.is_some() {
        &&& registration.is_none()
        &&& after.assigned == before.assigned
        &&& free_after == free_before
    } else {
        &&& registration == Some(
            Registration {
                signal: after.assigned.unwrap(),
                clock: Clock::Real,
                period: TimeSpec { sec: 0, nsec: (quantum * 1_000) as i64 },
            },
        )
        &&& if free_before.len() > 0 {
            after.assigned.unwrap() == free_before.last() && free_after == free_before.drop_last()
        } else {
            call_ensures(builder, (), after.assigned) && free_after == free_before
        }
    }
}

impl Preemption {
    pub open spec fn thread_signal_spec(&self) -> Option<Signal> {
        if self.attached {
            self.assigned
        } else {
            None
        }
    }

    /// The steps of `enable_preemption` from this state.
    pub open spec fn enabling(&self, group: Option<Group>, errno: i32) -> Enabling {
        let signal = self.thread_signal_spec();
        let owed = self.deferred && (group.is_none() || signal.is_some());
        Enabling {
            enter: group,
            raise: if owed {
                signal
            } else {
                None
            },
            unblock: if group.is_some() || owed {
                signal
            } else {
                None
            },
            forward_errno: group.is_none() && errno != 0 && !(owed && signal.is_none()),
            complete: !((group.is_some() || owed) && signal.is_none()),
        }
    }

    /// The state that `enable_preemption` leaves.
    pub open spec fn enabled(&self, group: Option<Group>) -> Preemption {
        let reached = group.is_none() || self.thread_signal_spec().is_some();
        Preemption {
            assigned: self.assigned,
            attached: self.attached,
            deferred: self.deferred && !reached,
        }
    }

    pub fn new() -> (state: Preemption)
        ensures
            state.assigned.is_none(),
            !state.attached,
            !state.deferred,
    {
        Preemption { assigned: None, attached: false, deferred: false }
    }

    /// The thread's preemption signal, if it is set up and published.
    pub fn thread_signal(&self) -> (signal: Result<Signal, ()>)
        ensures
            signal.ok() == self.thread_signal_spec(),
    {
        if self.attached {
            match self.assigned {
                Some(signal) => Ok(signal),
                None => Err(()),
            }
        } else {
            Err(())
        }
    }

    /// Switches preemption on. With a group, the thread enters it and its
    /// signal is unblocked afterwards; without one, the caller has entered the
    /// group already and only a deferred preemption is made up for. A thread
    /// without a signal gets as far as entering the group.
    pub fn enable_preemption(&mut self, group: Option<Group>, errno: i32) -> (steps: Enabling)
        ensures
            steps == old(self).enabling(group, errno),
            *final(self) == old(self).enabled(group),
    {
        let mut steps = Enabling {
            enter: group,
            raise: None,
            unblock: None,
            forward_errno: false,
            complete: false,
        };
        if group.is_some() {
            match self.thread_signal() {
                Ok(signal) => {
                    steps.unblock = Some(signal);
                },
                Err(_) => {
                    return steps;
                },
            }
        }
        if self.deferred {
            self.deferred = false;
            if steps.unblock.is_none() {
                match self.thread_signal() {
                    Ok(signal) => {
                        steps.unblock = Some(signal);
                    },
                    Err(_) => {
                        return steps;
                    },
                }
            }
            steps.raise = steps.unblock;
        }
        steps.forward_errno = group.is_none() && errno != 0;
        steps.complete = true;
        steps
    }

    /// Switches preemption off: the thread returns to the shared group, its
    /// signal is withdrawn from the handler and no preemption stays owed.
    pub fn disable_preemption(&mut self, block: Option<Signal>) -> (steps: Disabling)
        ensures
            steps.enter == Group::shared_spec(),
            steps.block == block,
            final(self).assigned == old(self).assigned,
            !final(self).attached,
            !final(self).deferred,
    {
        self.attached = false;
        self.deferred = false;
        Disabling { enter: Group::shared(), block }
    }

    /// Records that a preemption is owed and says where its signal is to be
    /// masked: in the handler's context if called from the handler for
    /// `handler`, else on the thread itself.
    pub fn defer_preemption(&mut self, handler: Option<Signal>) -> (masking: Masking)
        requires
            handler.is_some() || old(self).thread_signal_spec().is_some(),
        ensures
            masking == match handler {
                Some(signal) => Masking::InHandler(signal),
                None => Masking::OnThread(old(self).thread_signal_spec().unwrap()),
            },
            final(self).deferred,
            final(self).assigned == old(self).assigned,
            final(self).attached == old(self).attached,
    {
        let masking = match handler {
            Some(signal) => Masking::InHandler(signal),
            None => Masking::OnThread(self.assigned.unwrap()),
        };
        self.deferred = true;
        masking
    }

    /// Makes sure the thread has a preemption signal and publishes it to the
    /// handler. A thread that has none yet takes one from `signals` and is
    /// told what to register for it; a thread that has one registers nothing.
    pub fn thread_setup<F: Fn() -> Option<Signal>>(
        &mut self,
        signals: &mut Pool<Signal, F>,
        quantum: u64,
    ) -> (setup: Result<Option<Registration>, SetupError>)
        requires
            quantum <= MAX_QUANTUM_MICROSECS,
            call_requires(old(signals).builder(), ()),
        ensures
            final(signals).builder() == old(signals).builder(),
            old(self).assigned.is_some() || old(signals)@.len() > 0 ==> setup is Ok,
            match setup {
                Ok(registration) => set_up(
                    *old(self),
                    *final(self),
                    registration,
                    old(signals)@,
                    final(signals)@,
                    old(signals).builder(),
                    quantum,
                ),
                Err(e) => {
                    &&& e == SetupError::NoSignal
                    &&& *final(self) == *old(self)
                    &&& old(self).assigned.is_none()
                    &&& old(signals)@.len() == 0
                    &&& final(signals)@ == old(signals)@
                    &&& call_ensures(old(signals).builder(), (), None::<Signal>)
                },
            },
    {
        if self.assigned.is_some() {
            self.attached = true;
            return Ok(None);
        }
        match Reusable::try_from(signals) {
            Ok(lent) => {
                let signal = *lent.get();
                self.assigned = Some(signal);
                self.attached = true;
                Ok(Some(Registration { signal, clock: Clock::Real, period: timer_period(quantum) }))
            },
            Err(_) => Err(SetupError::NoSignal),
        }
    }

    /// Gives the thread's signal back when the thread ends. Answers the signal
    /// whose timer is to be deleted and whose handler is to be removed.
    pub fn thread_teardown<F: Fn() -> Option<Signal>>(
        &mut self,
        signals: &mut Pool<Signal, F>,
    ) -> (released: Option<Signal>)
        ensures
            released == old(self).assigned,
            final(self).assigned.is_none(),
            !final(self).attached,
            final(self).deferred == old(self).deferred,
            final(signals).builder() == old(signals).builder(),
            final(signals)@ == match old(self).assigned {
                Some(signal) => old(signals)@.push(signal),
                None => old(signals)@,
            },
    {
        let released = self.assigned;
        self.assigned = None;
        self.attached = false;
        match released {
            Some(signal) => {
                signals.recycle(Reusable::lend(signal));
            },
            None => {},
        }
        released
    }
}

/// Once preemption was switched on with a group, by a thread that has a
/// signal, nothing stays owed: the signal is unblocked, and it is raised
/// exactly if a preemption had been deferred.
pub proof fn law_enable_settles_deferral(state: Preemption, group: Group, errno: i32)
    requires
        state.thread_signal_spec().is_some(),
    ensures
        !state.enabled(Some(group)).deferred,
        state.enabling(Some(group), errno).complete,
        state.enabling(Some(group), errno).unblock == state.thread_signal_spec(),
        state.enabling(Some(group), errno).raise.is_some() == state.deferred,
        !state.enabling(Some(group), errno).forward_errno,
{
}

/// Re-entering a group with nothing deferred touches neither the signal nor
/// its mask, and forwards the error number exactly if there is one.
pub proof fn law_enable_without_deferral_is_quiet(state: Preemption, errno: i32)
    requires
        !state.deferred,
    ensures
        state.enabled(None) == state,
        state.enabling(None, errno).raise.is_none(),
        state.enabling(None, errno).unblock.is_none(),
        state.enabling(None, errno).complete,
        state.enabling(None, errno).forward_errno == (errno != 0),
{
}

} // verus!
