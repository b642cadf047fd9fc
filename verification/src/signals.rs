//! The signals that can serve as a thread's preemption signal, and the order
//! in which threads are given them.

use vstd::prelude::*;

verus! {

#[derive(Clone, Copy, Debug, PartialEq, Eq, Structural)]
pub enum Signal {
    Abort,
    Alarm,
    Bus,
    Breakpoint,
    Child,
    Continue,
    Coprocessor,
    FilesystemLimit,
    FloatingPoint,
    Hangup,
    Illegal,
    Interrupt,
    Kill,
    Pipe,
    Pollable,
    ProfilingTimer,
    Quit,
    Segfault,
    Syscall,
    TerminalInput,
    TerminalOutput,
    TerminalStop,
    Terminate,
    PowerFailure,
    ProcessorLimit,
    UrgentSocket,
    User1,
    User2,
    VirtualAlarm,
    WindowResize,
}

/// How a signal mask is to be changed.
#[derive(Clone, Copy, Debug, PartialEq, Eq, Structural)]
pub enum Operation {
    Block,
    Unblock,
    SetMask,
}

/// Number of signals that can be assigned to threads.
pub const NOTIFICATION_SIGNAL_COUNT: usize = 16;

/// The signal reserved for restoring handler checkpoints. It stays on the
/// notification list, as the second one to be assigned.
pub fn reserved_signal() -> (signal: Signal)
    ensures
        signal == Signal::VirtualAlarm,
        notification_signal_spec(1) == Some(signal),
{
    Signal::VirtualAlarm
}

/// The assignable signals in the order assigned: first the ten whose default
/// use is notification, then six that are a stretch.
pub open spec fn notification_signals() -> Seq<Signal> {
    seq![
        Signal::Alarm,
        Signal::VirtualAlarm,
        Signal::ProfilingTimer,
        Signal::ProcessorLimit,
        Signal::FilesystemLimit,
        Signal::TerminalInput,
        Signal::TerminalOutput,
        Signal::PowerFailure,
        Signal::User1,
        Signal::User2,
        Signal::UrgentSocket,
        Signal::Pollable,
        Signal::Syscall,
        Signal::FloatingPoint,
        Signal::Hangup,
        Signal::Child,
    ]
}

/// The signal at `index` of the list, if the list is that long.
pub open spec fn notification_signal_spec(index: usize) -> Option<Signal> {
    if index < notification_signals().len() {
        Some(notification_signals()[index as int])
    } else {
        None
    }
}

pub fn notification_signal(index: usize) -> (signal: Option<Signal>)
    ensures
        signal == notification_signal_spec(index),
        signal.is_some() == (index < NOTIFICATION_SIGNAL_COUNT),
{
    match index {
        0 => Some(Signal::Alarm),
        1 => Some(Signal::VirtualAlarm),
        2 => Some(Signal::ProfilingTimer),
        3 => Some(Signal::ProcessorLimit),
        4 => Some(Signal::FilesystemLimit),
        5 => Some(Signal::TerminalInput),
        6 => Some(Signal::TerminalOutput),
        7 => Some(Signal::PowerFailure),
        8 => Some(Signal::User1),
        9 => Some(Signal::User2),
        10 => Some(Signal::UrgentSocket),
        11 => Some(Signal::Pollable),
        12 => Some(Signal::Syscall),
        13 => Some(Signal::FloatingPoint),
        14 => Some(Signal::Hangup),
        15 => Some(Signal::Child),
        _ => None,
    }
}

/// Walks the notification list once: each call yields the next signal that no
/// thread has been given yet.
#[derive(Clone, Copy, Debug)]
pub struct SignalSource {
    free: usize,
}

impl SignalSource {
    /// How many times the source has been asked.
    pub closed spec fn asked(&self) -> usize {
        self.free
    }

    pub fn new() -> (source: SignalSource)
        ensures
            source.asked() == 0,
    {
        SignalSource { free: 0 }
    }

    /// The next unassigned signal. The count of requests wraps around like
    /// the machine word it is.
    pub fn assign(&mut self) -> (signal: Option<Signal>)
        ensures
            signal == notification_signal_spec(old(self).asked()),
            final(self).asked() == if old(self).asked() == usize::MAX {
                0
            } else {
                old(self).asked() + 1
            },
    {
        let index: usize = self.free;
        self.free = index.wrapping_add(1);
        notification_signal(index)
    }
}

/// No signal stands on the list twice, so two threads never share one.
pub proof fn law_notification_signals_distinct(i: usize, j: usize)
    requires
        i != j,
        notification_signal_spec(i).is_some(),
        notification_signal_spec(j).is_some(),
    ensures
        notification_signal_spec(i) != notification_signal_spec(j),
{
    let s = notification_signals();
    assert(s.len() == 16);
    assert(s[0] == Signal::Alarm && s[1] == Signal::VirtualAlarm && s[2]
        == Signal::ProfilingTimer && s[3] == Signal::ProcessorLimit && s[4]
        == Signal::FilesystemLimit && s[5] == Signal::TerminalInput && s[6]
        == Signal::TerminalOutput && s[7] == Signal::PowerFailure);
    assert(s[8] == Signal::User1 && s[9] == Signal::User2 && s[10] == Signal::UrgentSocket
        && s[11] == Signal::Pollable && s[12] == Signal::Syscall && s[13]
        == Signal::FloatingPoint && s[14] == Signal::Hangup && s[15] == Signal::Child);
}

} // verus!
