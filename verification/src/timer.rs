//! What a POSIX timer is created with: the clock it counts on and how its
//! expiry is announced.

use vstd::prelude::*;
use crate::signals::Signal;

verus! {

#[derive(Clone, Copy, Debug, PartialEq, Eq, Structural)]
pub enum Clock {
    Boot,
    BootAlarm,
    Mono,
    Process,
    Real,
    RealAlarm,
    Thread,
}

/// How an expiry is announced.
#[derive(Clone, Copy, Debug, PartialEq, Eq, Structural)]
pub enum Notify {
    /// Not at all.
    Silent,
    /// By a signal to the process.
    Process,
    /// By a signal to one thread.
    Thread(i32),
}

#[derive(Clone, Copy, Debug, PartialEq, Eq, Structural)]
pub struct Sigevent {
    pub notify: Notify,
    pub signo: Option<Signal>,
}

impl Sigevent {
    pub fn none() -> (event: Sigevent)
        ensures
            event == (Sigevent { notify: Notify::Silent, signo: None }),
    {
        Sigevent { notify: Notify::Silent, signo: None }
    }

    pub fn signal(signal: Signal) -> (event: Sigevent)
        ensures
            event == (Sigevent { notify: Notify::Process, signo: Some(signal) }),
    {
        Sigevent { notify: Notify::Process, signo: Some(signal) }
    }

    pub fn thread_id(signal: Signal, thread: i32) -> (event: Sigevent)
        ensures
            event == (Sigevent { notify: Notify::Thread(thread), signo: Some(signal) }),
    {
        Sigevent { notify: Notify::Thread(thread), signo: Some(signal) }
    }
}

} // verus!
