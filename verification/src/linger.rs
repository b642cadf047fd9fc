//! The scheduler: the state of a task between runs, the thread's bookkeeping
//! while one runs, and the decisions taken when a task is launched, resumed,
//! interrupted by its preemption signal, paused, finished or cancelled.
//!
//! Switching stacks and running the task are the caller's part. Each function
//! here updates the bookkeeping and answers what the caller is to do.

use vstd::prelude::*;
use crate::context::{
    makecontext, restorecontext, setcontext, sigsetcontext, Context, Exchange, Persistent,
    Scope, StackRegion, Transfer,
};
use crate::group::Group;
use crate::id::{cut, IdTable};
use crate::preemption::{
    is_preemptible, set_up, Disabling, Enabling, Masking, Preemption, Registration,
};
use crate::reusable::{Pool, Reusable};
use crate::signals::Signal;
use crate::tcb::{Block, Install, Retirement, ThreadControlBlock};

verus! {

/// How often the preemption signal fires, in microseconds.
pub const QUANTUM_MICROSECS: u64 = 100;

/// Size of a task's stack.
pub const STACK_SIZE_BYTES: usize = 2 * 1_024 * 1_024;

/// The state of a task's execution.
///
/// `errno` is set exactly while the task is paused. `checkpoint` holds the
/// task's call gate while the task is paused or has not started yet.
#[derive(Clone, Copy, Debug)]
pub struct Task {
    pub errno: Option<i32>,
    pub checkpoint: Option<Context>,
    pub yielded: bool,
}

impl Task {
    pub open spec fn idle() -> Task {
        Task { errno: None, checkpoint: None, yielded: false }
    }

    pub fn new() -> (task: Task)
        ensures
            task == Task::idle(),
    {
        Task { errno: None, checkpoint: None, yielded: false }
    }
}

/// A function that is called twice: the first call runs it and keeps what it
/// returned, the second hands that value over. Further calls do nothing.
pub enum Memo<F, V> {
    Function(F),
    Return(V),
    Empty,
}

impl<V, F: FnOnce() -> V> Memo<F, V> {
    /// One call takes the memo from `self` to `after` and the caller's cell
    /// from `given` to `left`: a function is run and its value kept, a kept
    /// value is moved into the cell, an empty memo does nothing.
    pub open spec fn steps_to(&self, after: Self, given: Option<V>, left: Option<V>) -> bool {
        match *self {
            Memo::Function(f) => after matches Memo::Return(v) && call_ensures(f, (), v) && left
                == given,
            Memo::Return(v) => after is Empty && left == Some(v),
            Memo::Empty => after is Empty && left == given,
        }
    }

    pub fn call(&mut self, ret: &mut Option<V>)
        requires
            *old(self) matches Memo::Function(f) ==> call_requires(f, ()),
        ensures
            old(self).steps_to(*final(self), *old(ret), *final(ret)),
    {
        let mut taken = Memo::Empty;
        core::mem::swap(self, &mut taken);
        match taken {
            Memo::Function(f) => {
                let value = f();
                *self = Memo::Return(value);
            },
            Memo::Return(value) => {
                *ret = Some(value);
            },
            Memo::Empty => {},
        }
    }
}

/// A function's value is handed over exactly once: of three calls in a row on
/// a memo that holds a function, the first hands over nothing, the second
/// hands over what the function returned, and the third leaves the caller's
/// cell as it finds it.
pub proof fn law_value_is_extracted_once<V, F: FnOnce() -> V>(
    start: Memo<F, V>,
    ran: Memo<F, V>,
    drained: Memo<F, V>,
    last: Memo<F, V>,
    first: Option<V>,
    second: Option<V>,
    third: Option<V>,
)
    requires
        start is Function,
        start.steps_to(ran, None, first),
        ran.steps_to(drained, first, second),
        drained.steps_to(last, None, third),
    ensures
        first.is_none(),
        ran matches Memo::Return(v) && second == Some(v) && call_ensures(start->Function_0, (), v),
        drained is Empty,
        third.is_none(),
        last is Empty,
{
}

/// A task that has not finished: its function, its execution state, and the
/// group and thread-control block it runs under.
pub struct Continuation<F, V> {
    pub functional: Memo<F, V>,
    pub stateful: Task,
    pub group: Reusable<Group>,
    pub tls: ThreadControlBlock,
}

/// A task as its owner sees it.
pub enum Linger<T, F, P> {
    Completion(T),
    Continuation(Continuation<F, Result<T, P>>),
    Poison,
}

impl<T, F, P> Linger<T, F, P> {
    /// A continuation can be resumed: it holds its call gate and a
    /// thread-control block.
    pub open spec fn wf(&self) -> bool {
        self matches Linger::Continuation(c) ==> c.stateful.checkpoint.is_some() && c.tls@.is_some()
    }

    pub open spec fn is_paused(&self) -> bool {
        self matches Linger::Continuation(c) && c.stateful.errno.is_some()
    }

    /// The task has been dispatched: it is unfinished, holds its
    /// thread-control block, and has handed its call gate to the thread.
    pub open spec fn wf_running(&self) -> bool {
        self matches Linger::Continuation(c) && c.stateful.checkpoint.is_none() && c.tls@.is_some()
    }

    pub fn is_completion(&self) -> (done: bool)
        ensures
            done == (self is Completion),
    {
        match self {
            Linger::Completion(_) => true,
            _ => false,
        }
    }

    pub fn is_continuation(&self) -> (pending: bool)
        ensures
            pending == (self is Continuation),
    {
        match self {
            Linger::Continuation(_) => true,
            _ => false,
        }
    }

    /// Whether the task is paused because it asked to be.
    pub fn yielded(&self) -> (yielded: bool)
        ensures
            yielded == (self matches Linger::Continuation(c) && c.stateful.yielded),
    {
        match self {
            Linger::Continuation(continuation) => continuation.stateful.yielded,
            _ => false,
        }
    }

    /// Whether `resume` can take the task: a finished one always, an
    /// unfinished one if it holds what it needs to run.
    pub fn is_resumable(&self) -> (ok: bool)
        ensures
            ok == self.wf(),
    {
        match self {
            Linger::Continuation(c) => c.stateful.checkpoint.is_some() && !c.tls.is_empty(),
            _ => true,
        }
    }
}

/// The deadline, in nanoseconds, of a budget of `deadline` microseconds that
/// starts at `now`. The largest budget means never, which is the end of
/// time; so does any budget whose deadline would lie past the end of time.
pub open spec fn stamped(deadline: u64, now: u64) -> u64 {
    if deadline == u64::MAX {
        u64::MAX
    } else if now + deadline * 1_000 > u64::MAX {
        u64::MAX
    } else {
        (now + deadline * 1_000) as u64
    }
}

pub fn stamp(deadline: u64, now: u64) -> (stamped_deadline: u64)
    ensures
        stamped_deadline == stamped(deadline, now),
{
    match deadline.checked_mul(1_000) {
        Some(timeout) => now.saturating_add(timeout),
        None => u64::MAX,
    }
}

/// One thread's scheduling state.
pub struct Scheduler {
    pub ids: IdTable,
    pub preemption: Preemption,
    /// When the running task is due to be paused, in nanoseconds; 0 asks for
    /// a pause at the next signal.
    pub deadline: u64,
    /// The running task's state, as the signal handler finds it.
    pub task: Task,
    /// The group of a task that is about to start, until it has started.
    pub bootstrap: Option<Group>,
    /// Address of the thread's own control block while a task's is installed.
    pub tls: Option<usize>,
}

/// What a signal handler invocation came to.
#[derive(Clone, Copy, Debug, PartialEq, Eq, Structural)]
pub enum Preempted {
    /// The thread has no preemption signal: nothing is touched.
    Ignored,
    /// The task is paused. The handler exchanges register files as `exchange`
    /// says, blocks `block` in the context it returns to, returns the thread
    /// to the shared group and installs the control block at `host`.
    Paused { exchange: Exchange, block: Signal, steps: Disabling, host: Install },
    /// The task is inside code that must not be interrupted: the preemption
    /// is owed, the signal masked as said, and the error number put back.
    Deferred(Masking),
    /// Nothing is due: the error number is put back.
    Resumed,
}

/// What has to happen when a paused task is entered again, in the order of
/// the fields, before control is transferred. The mask that the task's
/// context takes effect with is the thread's mask from before `block` was
/// blocked, without `block`.
#[derive(Clone, Copy, Debug, PartialEq, Eq, Structural)]
pub struct Reentry {
    pub block: Signal,
    pub enter: Group,
    pub errno: i32,
}

/// Steps to run a task, in the order of the fields.
#[derive(Clone, Copy, Debug)]
pub struct Dispatch {
    pub install: Install,
    pub registration: Option<Registration>,
    pub reentry: Option<Reentry>,
    pub transfer: Transfer,
    /// The frame that the task returns to; it is handed back on return.
    pub scope: Scope,
}

#[derive(Clone, Copy, Debug)]
pub enum Resumption {
    /// Nothing to run.
    Idle,
    Run(Dispatch),
}

#[derive(Clone, Copy, Debug, PartialEq, Eq, Structural)]
pub enum ResumeError {
    /// The task's call gate cannot be grafted onto this frame.
    Expired,
    /// The task's call gate is of the wrong kind for the transfer that the
    /// task's state asks for: a paused task is entered through a handler
    /// checkpoint, one that has not run through an ordinary call gate.
    WrongKind,
    /// No preemption signal is left for this thread.
    NoSignal,
}

#[derive(Clone, Copy, Debug, PartialEq, Eq, Structural)]
pub enum LaunchError {
    /// No stack could be had.
    NoStack,
    /// As many tasks are unfinished as there are groups.
    TooManyTasks,
}

/// A task that was just set up and, unless its budget was zero, what came of
/// resuming it at once.
pub struct Launched<T, F, P> {
    pub linger: Linger<T, F, P>,
    pub resumed: Result<Resumption, ResumeError>,
}

/// How a run ended.
pub enum Finished<P> {
    /// The task was paused and can be resumed.
    Paused,
    /// The task returned; its value is in the `Linger`.
    Completed,
    /// The task panicked; the payload is to be raised again on this thread.
    Panicked(P),
}

/// Steps to give up a task's resources.
#[derive(Clone, Copy, Debug, PartialEq, Eq, Structural)]
pub struct Teardown {
    /// The group to reinitialise, because a paused task was abandoned in it.
    pub renew: Option<Group>,
    /// How to retire the task's thread-control block.
    pub retire: Option<Retirement>,
}

/// What the end of a run asks of the caller, in the order of the fields.
pub struct Finish<P> {
    /// The control block to go back to, where the handler has not done so.
    pub host: Option<Install>,
    pub teardown: Option<Teardown>,
    pub outcome: Finished<P>,
}

impl Scheduler {
    pub open spec fn wf(&self) -> bool {
        self.ids.wf()
    }

    /// No task is being run on this thread.
    pub open spec fn is_idle(&self) -> bool {
        self.task.checkpoint.is_none() && self.task.errno.is_none()
    }

    /// A task was dispatched on this thread and has neither returned nor been
    /// paused: the handler finds its call gate, the thread's own control block
    /// is kept for the way back, and the thread has its preemption signal.
    pub open spec fn running(&self) -> bool {
        &&& self.wf()
        &&& self.task.errno.is_none()
        &&& self.task.checkpoint matches Some(gate) && gate.persistent.is_some() && gate.wf()
        &&& self.tls.is_some()
        &&& self.preemption.assigned.is_some()
    }

    /// The state of a thread that has run no task yet: no ids, no preemption
    /// signal, nothing deferred, no deadline, and no task, bootstrap or saved
    /// control block.
    pub fn new() -> (sched: Scheduler)
        ensures
            sched.wf(),
            sched.is_idle(),
            sched.ids@ == Seq::<usize>::empty(),
            sched.ids.next_serial() == 0,
            sched.preemption == (Preemption { assigned: None, attached: false, deferred: false }),
            sched.task == Task::idle(),
            sched.deadline == 0,
            sched.bootstrap.is_none(),
            sched.tls.is_none(),
    {
        Scheduler {
            ids: IdTable::new(),
            preemption: Preemption::new(),
            deadline: 0,
            task: Task::new(),
            bootstrap: None,
            tls: None,
        }
    }

    /// Whether a task can be launched or resumed from this state.
    pub fn is_ready(&self) -> (ready: bool)
        ensures
            ready == (self.is_idle() && self.bootstrap.is_none() && self.ids.next_serial()
                < usize::MAX - 3),
    {
        self.task.checkpoint.is_none() && self.task.errno.is_none() && self.bootstrap.is_none()
            && self.ids.serials_left(4)
    }
}

/// Asks for the running task to be paused at the next delivery of the
/// preemption signal, which is masked until preemption is next switched on.
pub fn pause(sched: &mut Scheduler) -> (masking: Masking)
    requires
        old(sched).preemption.thread_signal_spec().is_some(),
    ensures
        final(sched).deadline == 0,
        final(sched).preemption.deferred,
        final(sched).preemption.assigned == old(sched).preemption.assigned,
        final(sched).preemption.attached == old(sched).preemption.attached,
        masking == Masking::OnThread(old(sched).preemption.thread_signal_spec().unwrap()),
        old(sched).running() ==> final(sched).running(),
        final(sched).ids == old(sched).ids,
        final(sched).task == old(sched).task,
        final(sched).bootstrap == old(sched).bootstrap,
        final(sched).tls == old(sched).tls,
{
    sched.deadline = 0;
    sched.preemption.defer_preemption(None)
}

/// The first thing that runs on a task's stack: takes the task's group from
/// where `resume` left it, starts the clock and switches preemption on.
pub fn schedule(sched: &mut Scheduler, now: u64, errno: i32) -> (steps: Enabling)
    requires
        old(sched).bootstrap.is_some(),
    ensures
        final(sched).bootstrap.is_none(),
        final(sched).deadline == stamped(old(sched).deadline, now),
        steps == old(sched).preemption.enabling(old(sched).bootstrap, errno),
        final(sched).preemption == old(sched).preemption.enabled(old(sched).bootstrap),
        old(sched).running() ==> final(sched).running(),
        final(sched).ids == old(sched).ids,
        final(sched).task == old(sched).task,
        final(sched).tls == old(sched).tls,
{
    let group = sched.bootstrap.take();
    sched.deadline = stamp(sched.deadline, now);
    sched.preemption.enable_preemption(group, errno)
}

/// The last thing that runs on a task's stack, after the function returned:
/// switches preemption off.
pub fn unschedule(sched: &mut Scheduler) -> (steps: Disabling)
    ensures
        steps.enter == Group::shared_spec(),
        steps.block.is_none(),
        !final(sched).preemption.attached,
        !final(sched).preemption.deferred,
        final(sched).preemption.assigned == old(sched).preemption.assigned,
        old(sched).running() ==> final(sched).running(),
        final(sched).deadline == old(sched).deadline,
        final(sched).ids == old(sched).ids,
        final(sched).task == old(sched).task,
        final(sched).bootstrap == old(sched).bootstrap,
        final(sched).tls == old(sched).tls,
{
    sched.preemption.disable_preemption(None)
}

/// The steps that put the thread's own control block, found at `addr`, back
/// in place: it is only set, nothing is copied or initialised.
pub open spec fn host_install(addr: usize) -> Install {
    Install { copy_guard_from: None, set: addr, init_host: false, init_group: None }
}

/// Whether a signal that arrives at `now` in group `current` pauses the task.
pub open spec fn is_due(sched: Scheduler, current: Group, now: u64) -> bool {
    &&& sched.preemption.thread_signal_spec().is_some()
    &&& !(current == Group::shared_spec())
    &&& now >= sched.deadline
}

/// Whether a signal that arrives now would pause the task.
pub fn due(sched: &Scheduler, current: Group, now: u64) -> (due: bool)
    ensures
        due == is_due(*sched, current, now),
{
    sched.preemption.thread_signal().is_ok() && is_preemptible(current) && now >= sched.deadline
}

/// The signal handler's decision for signal `no`, delivered at `now` while
/// the thread runs in `current` with error number `errno`; `captured` is the
/// stack pointer of the interrupted code.
///
/// A thread without a preemption signal ignores the delivery. A preemptible
/// thread whose deadline has come is paused: its state is swapped into the
/// task's checkpoint, its error number kept for the resumption, and whether
/// it had asked for the pause is noted. A thread that is not preemptible owes
/// the preemption if the signal is its own. Otherwise nothing happens.
pub fn preempt(
    sched: &mut Scheduler,
    no: Signal,
    current: Group,
    now: u64,
    errno: i32,
    captured: usize,
) -> (decision: Preempted)
    requires
        is_due(*old(sched), current, now) ==> old(sched).task.checkpoint.is_some() && old(
            sched,
        ).tls.is_some(),
    ensures
        old(sched).preemption.thread_signal_spec().is_none() ==> decision == Preempted::Ignored
            && *final(sched) == *old(sched),
        is_due(*old(sched), current, now) ==> {
            let gate = old(sched).task.checkpoint.unwrap();
            &&& decision == Preempted::Paused {
                exchange: gate.swap_exchange(old(sched).ids@),
                block: no,
                steps: Disabling { enter: Group::shared_spec(), block: None },
                host: host_install(old(sched).tls.unwrap()),
            }
            &&& final(sched).task == Task {
                errno: Some(errno),
                checkpoint: Some(gate.swapped(old(sched).ids@, captured)),
                yielded: old(sched).deadline == 0,
            }
            &&& final(sched).ids@ == gate.swapped_table(old(sched).ids@)
            &&& final(sched).ids.next_serial() == old(sched).ids.next_serial()
            &&& final(sched).tls.is_none()
            &&& !final(sched).preemption.attached
            &&& !final(sched).preemption.deferred
            &&& final(sched).preemption.assigned == old(sched).preemption.assigned
            &&& final(sched).deadline == old(sched).deadline
            &&& final(sched).bootstrap == old(sched).bootstrap
        },
        old(sched).preemption.thread_signal_spec().is_some() && !is_due(*old(sched), current, now)
            ==> {
            let owed = current == Group::shared_spec() && old(
                sched,
            ).preemption.thread_signal_spec() == Some(no);
            &&& decision == if owed {
                Preempted::Deferred(Masking::InHandler(no))
            } else {
                Preempted::Resumed
            }
            &&& final(sched).preemption == Preemption {
                deferred: owed || old(sched).preemption.deferred,
                ..old(sched).preemption
            }
            &&& final(sched).ids == old(sched).ids
            &&& final(sched).task == old(sched).task
            &&& final(sched).deadline == old(sched).deadline
            &&& final(sched).bootstrap == old(sched).bootstrap
            &&& final(sched).tls == old(sched).tls
        },
        old(sched).wf() ==> final(sched).wf(),
        old(sched).running() ==> if decision is Paused {
            final(sched).task.errno.is_some() && final(sched).task.checkpoint.is_some()
        } else {
            final(sched).running()
        },
{
    let signal = match sched.preemption.thread_signal() {
        Ok(signal) => signal,
        Err(_) => {
            return Preempted::Ignored;
        },
    };
    if is_preemptible(current) {
        if now >= sched.deadline {
            let mut gate = sched.task.checkpoint.unwrap();
            sched.task.yielded = sched.deadline == 0;
            let exchange = gate.swap(&mut sched.ids, captured);
            sched.task.checkpoint = Some(gate);
            sched.task.errno = Some(errno);
            let steps = sched.preemption.disable_preemption(None);
            let addr = sched.tls.take().unwrap();
            let host = ThreadControlBlock::current(addr).install_unguarded(None, addr);
            Preempted::Paused { exchange, block: no, steps, host }
        } else {
            Preempted::Resumed
        }
    } else if signal == no {
        Preempted::Deferred(sched.preemption.defer_preemption(Some(no)))
    } else {
        Preempted::Resumed
    }
}

/// Lets a task run for `us` microseconds from `now`.
///
/// A finished task, and a budget of zero, ask for nothing. Otherwise the
/// task's call gate is grafted onto the current frame and handed to the
/// thread's bookkeeping, the thread is given a preemption signal if it has
/// none, and the answer says how to enter the task: a task that has not run
/// yet is transferred to as `setcontext` decides, its deadline being stamped
/// once it starts; a paused one has its deadline stamped now and is entered as
/// `sigsetcontext` decides, after its signal was blocked, its group entered
/// and its error number put back. A task whose call gate cannot be restored,
/// or is of the wrong kind for its transfer, is refused before anything
/// changes.
///
/// `host` is the address of the thread's own control block and `current` the
/// group that the thread runs in, which must be the shared one: tasks do not
/// nest.
pub fn resume<T, F, P, N: Fn() -> Option<Signal>>(
    sched: &mut Scheduler,
    fun: &mut Linger<T, F, P>,
    us: u64,
    now: u64,
    host: usize,
    current: Group,
    signals: &mut Pool<Signal, N>,
) -> (resumed: Result<Resumption, ResumeError>)
    requires
        current == Group::shared_spec(),
        old(sched).wf(),
        old(sched).is_idle(),
        old(sched).bootstrap.is_none(),
        old(sched).ids.next_serial() < usize::MAX - 1,
        old(fun).wf(),
        call_requires(old(signals).builder(), ()),
    ensures
        final(sched).wf(),
        final(signals).builder() == old(signals).builder(),
        resumed matches Ok(Resumption::Run(_)) ==> final(sched).running() && final(fun).wf_running(),
        !(*old(fun) is Continuation) || us == 0 ==> {
            &&& resumed matches Ok(Resumption::Idle)
            &&& *final(sched) == *old(sched)
            &&& *final(fun) == *old(fun)
            &&& final(signals)@ == old(signals)@
        },
        resumed is Err ==> {
            &&& *final(sched) == *old(sched)
            &&& *final(fun) == *old(fun)
            &&& final(signals)@ == old(signals)@
        },
        *old(fun) matches Linger::Continuation(c) ==> us == 0 || {
            let gate = c.stateful.checkpoint.unwrap();
            let kind_fits = c.stateful.errno.is_some() == gate.is_handler_checkpoint();
            &&& resumed matches Err(e) ==> if !gate.restorable() {
                e == ResumeError::Expired
            } else if !kind_fits {
                e == ResumeError::WrongKind
            } else {
                &&& e == ResumeError::NoSignal
                &&& old(sched).preemption.assigned.is_none()
                &&& old(signals)@.len() == 0
                &&& call_ensures(old(signals).builder(), (), None::<Signal>)
            }
            &&& !gate.restorable() || !kind_fits ==> resumed is Err
            &&& gate.restorable() && kind_fits && (old(sched).preemption.assigned.is_some() || old(
                signals,
            )@.len() > 0) ==> resumed is Ok
            &&& resumed matches Ok(r) ==> r matches Resumption::Run(d) && {
                let signal = final(sched).preemption.assigned.unwrap();
                let restored = final(sched).task.checkpoint.unwrap();
                &&& d.install == c.tls.install_steps(Some(c.group@), host)
                &&& set_up(
                    old(sched).preemption,
                    final(sched).preemption,
                    d.registration,
                    old(signals)@,
                    final(signals)@,
                    old(signals).builder(),
                    QUANTUM_MICROSECS,
                )
                &&& d.reentry == match c.stateful.errno {
                    Some(errno) => Some(Reentry { block: signal, enter: c.group@, errno }),
                    None => None,
                }
                &&& d.transfer == if gate.is_handler_checkpoint() {
                    Transfer::Raise
                } else {
                    Transfer::Jump
                }
                &&& d.transfer == if c.stateful.errno.is_some() {
                    restored.sigset_outcome(
                        old(sched).ids@.push(d.scope.guard.serial()).push(restored.id.serial()),
                    )
                } else {
                    restored.set_outcome(
                        old(sched).ids@.push(d.scope.guard.serial()).push(restored.id.serial()),
                    )
                }
                &&& d.transfer != Transfer::Refused
                &&& final(sched).tls == Some(host)
                &&& final(sched).bootstrap == if c.stateful.errno.is_none() {
                    Some(c.group@)
                } else {
                    None
                }
                &&& final(sched).deadline == if c.stateful.errno.is_some() {
                    stamped(us, now)
                } else {
                    us
                }
                &&& final(sched).task.errno.is_none()
                &&& final(sched).task.yielded == old(sched).task.yielded
                &&& final(sched).task.checkpoint.is_some()
                &&& restored.persistent == Some(
                    Persistent { successor: d.scope.guard, ..gate.persistent.unwrap() },
                )
                &&& restored.wf()
                &&& restored.id.valid_in(final(sched).ids@)
                &&& d.scope.guard.valid_in(final(sched).ids@)
                &&& d.scope.guard.index() == old(sched).ids@.len()
                &&& final(sched).ids@ == old(sched).ids@.push(d.scope.guard.serial()).push(
                    restored.id.serial(),
                )
                &&& final(sched).ids.next_serial() == old(sched).ids.next_serial() + 2
                &&& *final(fun) matches Linger::Continuation(after)
                &&& after.stateful == Task { checkpoint: None, ..c.stateful }
                &&& after.functional == c.functional
                &&& after.group == c.group
                &&& after.tls == c.tls
            }
        },
{
    let continuation = match fun {
        Linger::Continuation(continuation) => continuation,
        _ => {
            return Ok(Resumption::Idle);
        },
    };
    if us == 0 {
        return Ok(Resumption::Idle);
    }
    let gate = continuation.stateful.checkpoint.unwrap();
    let restorable = match gate.persistent {
        Some(p) => p.stack.contains(p.stack_ptr),
        None => false,
    };
    if !restorable {
        return Err(ResumeError::Expired);
    }
    let resuming = continuation.stateful.errno.is_some();
    if resuming != gate.is_handler() {
        return Err(ResumeError::WrongKind);
    }
    let registration = match sched.preemption.thread_setup(signals, QUANTUM_MICROSECS) {
        Ok(registration) => registration,
        Err(_) => {
            return Err(ResumeError::NoSignal);
        },
    };
    let group = *continuation.group.get();
    sched.tls = Some(host);
    let install = continuation.tls.install_unguarded(Some(group), host);
    if continuation.stateful.errno.is_none() {
        sched.bootstrap = Some(group);
    }
    sched.deadline = us;
    let (restored, scope) = restorecontext(gate, &mut sched.ids).unwrap();
    continuation.stateful.checkpoint = None;
    sched.task.checkpoint = Some(restored);
    let reentry = match continuation.stateful.errno {
        Some(errno) => {
            let block = sched.preemption.assigned.unwrap();
            sched.deadline = stamp(sched.deadline, now);
            Some(Reentry { block, enter: group, errno })
        },
        None => None,
    };
    let ghost grafted = sched.ids@;
    let transfer = if resuming {
        sigsetcontext(&restored, &mut sched.ids)
    } else {
        setcontext(&restored, &mut sched.ids)
    };
    assert(grafted =~= old(sched).ids@.push(scope.guard.serial()).push(restored.id.serial()));
    assert(sched.ids@ =~= old(sched).ids@.push(scope.guard.serial()).push(restored.id.serial()));
    Ok(Resumption::Run(Dispatch { install, registration, reentry, transfer, scope }))
}

/// What the reserved signal's handler does when a paused task is entered
/// again: it swaps the task's checkpoint with its own context, whose stack
/// pointer is `captured`, so that returning from the handler continues the
/// task and the checkpoint is an ordinary call gate once more.
pub fn reenter(sched: &mut Scheduler, captured: usize) -> (exchange: Exchange)
    requires
        old(sched).task.checkpoint.is_some(),
    ensures
        exchange == old(sched).task.checkpoint.unwrap().swap_exchange(old(sched).ids@),
        final(sched).task.checkpoint == Some(
            old(sched).task.checkpoint.unwrap().swapped(old(sched).ids@, captured),
        ),
        final(sched).task.errno == old(sched).task.errno,
        final(sched).task.yielded == old(sched).task.yielded,
        final(sched).ids@ == old(sched).task.checkpoint.unwrap().swapped_table(old(sched).ids@),
        final(sched).ids.next_serial() == old(sched).ids.next_serial(),
        old(sched).wf() ==> final(sched).wf(),
        old(sched).running() ==> final(sched).running(),
        final(sched).preemption == old(sched).preemption,
        final(sched).deadline == old(sched).deadline,
        final(sched).bootstrap == old(sched).bootstrap,
        final(sched).tls == old(sched).tls,
{
    let mut gate = sched.task.checkpoint.unwrap();
    let exchange = gate.swap(&mut sched.ids, captured);
    sched.task.checkpoint = Some(gate);
    exchange
}

/// The free list after a task's stack came back to it, if the task's call
/// gate held one.
pub open spec fn with_stack(free: Seq<StackRegion>, gate: Option<Context>) -> Seq<StackRegion> {
    match gate {
        Some(Context { persistent: Some(p), .. }) => free.push(p.stack),
        _ => free,
    }
}

/// What `launch` leaves behind where it set a task up and did not dispatch
/// it. The task holds an ordinary call gate on a stack from the pool, which
/// starts from the top of that stack and was minted and retired in the two
/// slots above the table, so that the table is as before and its serial
/// counter two further. Nothing else about the thread has changed.
pub open spec fn left_waiting<S: Fn() -> Option<StackRegion>>(
    checkpoint: Option<Context>,
    before: Scheduler,
    after: Scheduler,
    free: Seq<StackRegion>,
    builder: S,
) -> bool {
    &&& checkpoint matches Some(gate)
    &&& gate.persistent matches Some(p)
    &&& !p.handler
    &&& p.stack_ptr == p.stack.top_spec()
    &&& p.stack.holds(p.stack_ptr)
    &&& if free.len() > 0 {
        p.stack == free.last()
    } else {
        call_ensures(builder, (), Some(p.stack))
    }
    &&& p.successor.index() == before.ids@.len()
    &&& p.successor.serial() == before.ids.next_serial()
    &&& gate.id.index() == before.ids@.len() + 1
    &&& gate.id.serial() == before.ids.next_serial() + 1
    &&& gate.wf()
    &&& !gate.id.valid_in(after.ids@)
    &&& after.ids@ == before.ids@
    &&& after.ids.next_serial() == before.ids.next_serial() + 2
    &&& after.preemption == before.preemption
    &&& after.task == before.task
    &&& after.bootstrap == before.bootstrap
    &&& after.deadline == before.deadline
    &&& after.tls == before.tls
}

/// Sets up a task for `fun` and, unless the budget `us` is zero, resumes it
/// at once.
///
/// The task gets a stack from `stacks`, a call gate on it that starts from
/// the top of the stack, a group from `groups`, and the freshly allocated
/// thread-control block at `tcb`. Without a stack or a group there is no
/// task, and a stack that was taken, with the call gate built on it, goes
/// back. With a budget of zero the function is not run: the task waits for
/// its first `resume`.
pub fn launch<T, F: FnOnce() -> Result<T, P>, P, S: Fn() -> Option<StackRegion>, G: Fn() -> Option<
    Group,
>, N: Fn() -> Option<Signal>>(
    sched: &mut Scheduler,
    fun: F,
    us: u64,
    now: u64,
    tcb: usize,
    host: usize,
    current: Group,
    stacks: &mut Pool<StackRegion, S>,
    groups: &mut Pool<Group, G>,
    signals: &mut Pool<Signal, N>,
) -> (launched: Result<Launched<T, F, P>, LaunchError>)
    requires
        current == Group::shared_spec(),
        old(sched).wf(),
        old(sched).is_idle(),
        old(sched).bootstrap.is_none(),
        old(sched).ids.next_serial() < usize::MAX - 3,
        call_requires(old(stacks).builder(), ()),
        call_requires(old(groups).builder(), ()),
        call_requires(old(signals).builder(), ()),
    ensures
        final(sched).wf(),
        final(stacks).builder() == old(stacks).builder(),
        final(groups).builder() == old(groups).builder(),
        final(signals).builder() == old(signals).builder(),
        old(stacks)@.len() > 0 && old(groups)@.len() > 0 ==> launched is Ok,
        match launched {
            Err(e) => {
                &&& final(sched).ids@ == old(sched).ids@
                &&& final(sched).ids.next_serial() == if e == LaunchError::NoStack {
                    old(sched).ids.next_serial() as int
                } else {
                    old(sched).ids.next_serial() + 2
                }
                &&& final(sched).preemption == old(sched).preemption
                &&& final(sched).task == old(sched).task
                &&& final(sched).bootstrap == old(sched).bootstrap
                &&& final(sched).deadline == old(sched).deadline
                &&& final(sched).tls == old(sched).tls
                &&& final(signals)@ == old(signals)@
                &&& final(groups)@ == old(groups)@
                &&& if e == LaunchError::NoStack {
                    &&& old(stacks)@.len() == 0
                    &&& final(stacks)@ == old(stacks)@
                    &&& call_ensures(old(stacks).builder(), (), None::<StackRegion>)
                } else {
                    &&& old(groups)@.len() == 0
                    &&& call_ensures(old(groups).builder(), (), None::<Group>)
                    &&& old(stacks)@.len() > 0 ==> final(stacks)@ == old(stacks)@
                    &&& old(stacks)@.len() == 0 ==> final(stacks)@.len() == 1 && call_ensures(
                        old(stacks).builder(),
                        (),
                        Some(final(stacks)@[0]),
                    )
                }
            },
            Ok(l) => {
                &&& l.linger is Continuation
                &&& old(stacks)@.len() > 0 ==> final(stacks)@ == old(stacks)@.drop_last()
                &&& old(stacks)@.len() == 0 ==> final(stacks)@ == old(stacks)@
                &&& old(groups)@.len() > 0 ==> final(groups)@ == old(groups)@.drop_last()
                &&& old(groups)@.len() == 0 ==> final(groups)@ == old(groups)@
                &&& l.linger matches Linger::Continuation(c) && {
                    &&& c.tls@ == Some(Block::Owned(tcb))
                    &&& old(groups)@.len() > 0 ==> c.group@ == old(groups)@.last()
                    &&& old(groups)@.len() == 0 ==> call_ensures(
                        old(groups).builder(),
                        (),
                        Some(c.group@),
                    )
                    &&& c.stateful.errno.is_none()
                    &&& !c.stateful.yielded
                    &&& c.functional == Memo::<F, Result<T, P>>::Function(fun)
                    &&& us == 0 ==> {
                        &&& l.resumed matches Ok(Resumption::Idle)
                        &&& left_waiting(
                            c.stateful.checkpoint,
                            *old(sched),
                            *final(sched),
                            old(stacks)@,
                            old(stacks).builder(),
                        )
                        &&& l.linger.wf()
                        &&& final(signals)@ == old(signals)@
                    }
                    &&& us != 0 ==> {
                        &&& !(l.resumed matches Ok(Resumption::Idle))
                        &&& old(sched).preemption.assigned.is_some() || old(signals)@.len() > 0
                            ==> l.resumed is Ok
                        &&& l.resumed matches Err(e) ==> {
                            &&& e == ResumeError::NoSignal
                            &&& left_waiting(
                                c.stateful.checkpoint,
                                *old(sched),
                                *final(sched),
                                old(stacks)@,
                                old(stacks).builder(),
                            )
                            &&& l.linger.wf()
                            &&& old(sched).preemption.assigned.is_none()
                            &&& old(signals)@.len() == 0
                            &&& final(signals)@ == old(signals)@
                            &&& call_ensures(old(signals).builder(), (), None::<Signal>)
                        }
                        &&& l.resumed matches Ok(Resumption::Run(d)) ==> {
                            &&& final(sched).running()
                            &&& l.linger.wf_running()
                            &&& set_up(
                                old(sched).preemption,
                                final(sched).preemption,
                                d.registration,
                                old(signals)@,
                                final(signals)@,
                                old(signals).builder(),
                                QUANTUM_MICROSECS,
                            )
                            &&& d.transfer == Transfer::Jump
                            &&& d.reentry.is_none()
                            &&& d.install == (Install {
                                copy_guard_from: Some(host),
                                set: tcb,
                                init_host: true,
                                init_group: Some(c.group@),
                            })
                            &&& c.stateful.checkpoint.is_none()
                            &&& final(sched).bootstrap == Some(c.group@)
                            &&& final(sched).deadline == us
                            &&& final(sched).tls == Some(host)
                            &&& final(sched).task.errno.is_none()
                            &&& final(sched).task.checkpoint matches Some(gate)
                            &&& gate.id.valid_in(final(sched).ids@)
                            &&& gate.persistent matches Some(p)
                            &&& p.successor == d.scope.guard
                            &&& !p.handler
                            &&& p.stack_ptr == p.stack.top_spec()
                            &&& p.stack.holds(p.stack_ptr)
                            &&& old(stacks)@.len() > 0 ==> p.stack == old(stacks)@.last()
                            &&& old(stacks)@.len() == 0 ==> call_ensures(
                                old(stacks).builder(),
                                (),
                                Some(p.stack),
                            )
                            &&& gate.wf()
                            &&& d.scope.guard.valid_in(final(sched).ids@)
                            &&& d.scope.guard.index() == old(sched).ids@.len()
                            &&& final(sched).ids@ == old(sched).ids@.push(
                                d.scope.guard.serial(),
                            ).push(gate.id.serial())
                            &&& final(sched).ids.next_serial() == old(sched).ids.next_serial() + 4
                        }
                    }
                }
            },
        },
{
    let stack = match Reusable::try_from(stacks) {
        Ok(stack) => stack,
        Err(_) => {
            return Err(LaunchError::NoStack);
        },
    };
    let region = *stack.get();
    let ghost before = sched.ids@;
    let (gate, scope) = makecontext(&mut sched.ids, region, region.top());
    scope.close(&mut sched.ids);
    assert(sched.ids@ =~= before);
    let group = match Reusable::try_from(groups) {
        Ok(group) => group,
        Err(_) => {
            stacks.recycle(stack);
            assert(old(stacks)@.len() > 0 ==> stacks@ =~= old(stacks)@);
            return Err(LaunchError::TooManyTasks);
        },
    };
    let mut linger = Linger::Continuation(
        Continuation {
            functional: Memo::Function(fun),
            stateful: Task { errno: None, checkpoint: Some(gate), yielded: false },
            group,
            tls: ThreadControlBlock::new(tcb),
        },
    );
    let resumed = if us != 0 {
        resume(sched, &mut linger, us, now, host, current, signals)
    } else {
        Ok(Resumption::Idle)
    };
    Ok(Launched { linger, resumed })
}

/// Takes stock once control is back on the frame that entered the task.
///
/// `scope` is the frame from the dispatch, which is left now. If the handler
/// recorded an error number, the task was paused: it gets its state back and
/// can be resumed. Otherwise its function returned: the thread's own control
/// block is to be put back, the value is taken from the function's memo, the
/// stack and group go back to their pools, and the task becomes its value, or
/// is poisoned if the function panicked.
pub fn finish<T, F: FnOnce() -> Result<T, P>, P, S: Fn() -> Option<StackRegion>, G: Fn() -> Option<
    Group,
>>(
    sched: &mut Scheduler,
    fun: &mut Linger<T, F, P>,
    scope: Scope,
    stacks: &mut Pool<StackRegion, S>,
    groups: &mut Pool<Group, G>,
) -> (finish: Finish<P>)
    requires
        *old(fun) is Continuation,
        old(sched).task.errno.is_none() ==> old(sched).tls.is_some() && (*old(fun) matches Linger::Continuation(
            c,
        ) && c.functional is Return),
    ensures
        final(stacks).builder() == old(stacks).builder(),
        final(groups).builder() == old(groups).builder(),
        final(sched).ids@ == cut(old(sched).ids@, scope.guard.index() as int),
        final(sched).ids.next_serial() == old(sched).ids.next_serial(),
        old(sched).wf() ==> final(sched).wf(),
        final(sched).task == Task::idle(),
        final(sched).is_idle(),
        final(sched).preemption == old(sched).preemption,
        final(sched).bootstrap == old(sched).bootstrap,
        final(sched).deadline == old(sched).deadline,
        (*final(fun) is Completion) == (old(sched).task.errno.is_none() && (*old(fun) matches Linger::Continuation(
            c,
        ) && c.functional matches Memo::Return(Ok(_)))),
        *old(fun) matches Linger::Continuation(c) && if old(sched).task.errno.is_some() {
            &&& finish.outcome is Paused
            &&& old(sched).task.checkpoint.is_some() && old(fun).wf_running() ==> final(fun).wf()
            &&& finish.host.is_none()
            &&& finish.teardown.is_none()
            &&& *final(fun) matches Linger::Continuation(after)
            &&& after.stateful == old(sched).task
            &&& after.functional == c.functional
            &&& after.group == c.group
            &&& after.tls == c.tls
            &&& final(sched).tls == old(sched).tls
            &&& final(stacks)@ == old(stacks)@
            &&& final(groups)@ == old(groups)@
        } else {
            &&& c.functional matches Memo::Return(value)
            &&& match value {
                Ok(v) => finish.outcome is Completed && *final(fun) == Linger::<T, F, P>::Completion(v),
                Err(payload) => finish.outcome == Finished::Panicked(payload) && *final(fun) is Poison,
            }
            &&& finish.host == Some(host_install(old(sched).tls.unwrap()))
            &&& finish.teardown == Some(
                Teardown { renew: None, retire: c.tls.retirement(c.group@, old(sched).tls.unwrap()) },
            )
            &&& final(sched).tls.is_none()
            &&& final(stacks)@ == with_stack(old(stacks)@, old(sched).task.checkpoint)
            &&& final(groups)@ == old(groups)@.push(c.group@)
        },
{
    scope.close(&mut sched.ids);
    let descheduled = sched.task;
    sched.task = Task::new();
    if descheduled.errno.is_some() {
        match fun {
            Linger::Continuation(continuation) => {
                continuation.stateful = descheduled;
            },
            _ => {},
        }
        return Finish { host: None, teardown: None, outcome: Finished::Paused };
    }
    let host = sched.tls.take().unwrap();
    let restore = ThreadControlBlock::current(host).install_unguarded(None, host);
    let mut owned = Linger::Poison;
    core::mem::swap(fun, &mut owned);
    match owned {
        Linger::Continuation(continuation) => {
            let Continuation { functional, stateful: _, group, tls } = continuation;
            let mut memo = functional;
            let mut retval = None;
            memo.call(&mut retval);
            release_stack(stacks, descheduled.checkpoint);
            let retire = tls.release(*group.get(), host);
            groups.recycle(group);
            let teardown = Some(Teardown { renew: None, retire });
            match retval.unwrap() {
                Ok(value) => {
                    *fun = Linger::Completion(value);
                    Finish { host: Some(restore), teardown, outcome: Finished::Completed }
                },
                Err(payload) => Finish {
                    host: Some(restore),
                    teardown,
                    outcome: Finished::Panicked(payload),
                },
            }
        },
        _ => {
            proof {
                assert(false);
            }
            Finish { host: None, teardown: None, outcome: Finished::Paused }
        },
    }
}

/// Puts the stack of a call gate back on the free list.
fn release_stack<S: Fn() -> Option<StackRegion>>(
    stacks: &mut Pool<StackRegion, S>,
    gate: Option<Context>,
)
    ensures
        final(stacks).builder() == old(stacks).builder(),
        final(stacks)@ == with_stack(old(stacks)@, gate),
{
    match gate {
        Some(context) => match context.persistent {
            Some(p) => {
                stacks.recycle(Reusable::lend(p.stack));
            },
            None => {},
        },
        None => {},
    }
}

/// Gives a task up. A finished task holds nothing. An unfinished one returns
/// its stack and group to their pools and has its thread-control block
/// retired, with `current` the thread's block; if it was paused, its group is
/// to be reinitialised before anything else uses it.
pub fn cancel<T, F, P, S: Fn() -> Option<StackRegion>, G: Fn() -> Option<Group>>(
    fun: Linger<T, F, P>,
    current: usize,
    stacks: &mut Pool<StackRegion, S>,
    groups: &mut Pool<Group, G>,
) -> (teardown: Option<Teardown>)
    ensures
        final(stacks).builder() == old(stacks).builder(),
        final(groups).builder() == old(groups).builder(),
        match fun {
            Linger::Continuation(c) => {
                &&& teardown == Some(
                    Teardown {
                        renew: if c.stateful.errno.is_some() {
                            Some(c.group@)
                        } else {
                            None
                        },
                        retire: c.tls.retirement(c.group@, current),
                    },
                )
                &&& final(stacks)@ == with_stack(old(stacks)@, c.stateful.checkpoint)
                &&& final(groups)@ == old(groups)@.push(c.group@)
            },
            _ => teardown.is_none() && final(stacks)@ == old(stacks)@ && final(groups)@ == old(
                groups,
            )@,
        },
{
    match fun {
        Linger::Continuation(continuation) => {
            let Continuation { functional: _, stateful, group, tls } = continuation;
            let renew = if stateful.errno.is_some() {
                Some(*group.get())
            } else {
                None
            };
            release_stack(stacks, stateful.checkpoint);
            let retire = tls.release(*group.get(), current);
            groups.recycle(group);
            Some(Teardown { renew, retire })
        },
        _ => None,
    }
}

/// A task whose budget has run out is paused by the first signal that finds
/// it preemptible: with a deadline stamped at `start` for a budget of `us`
/// microseconds, every delivery at `start + us * 1000` nanoseconds or later
/// is due.
pub proof fn law_budget_is_enforced(sched: Scheduler, current: Group, start: u64, us: u64, now: u64)
    requires
        sched.preemption.thread_signal_spec().is_some(),
        !(current == Group::shared_spec()),
        sched.deadline == stamped(us, start),
        start + us * 1_000 <= u64::MAX,
        now >= start + us * 1_000,
    ensures
        is_due(sched, current, now),
{
}

/// Before its deadline a task is not paused, and a task in the shared group
/// never is.
pub proof fn law_no_pause_before_deadline(sched: Scheduler, current: Group, now: u64)
    requires
        now < sched.deadline || current == Group::shared_spec(),
    ensures
        !is_due(sched, current, now),
{
}

/// A budget whose deadline would lie past the end of time means never, as the
/// largest budget does.
pub proof fn law_uncountable_budget_means_never(us: u64, start: u64)
    requires
        start + us * 1_000 > u64::MAX,
    ensures
        stamped(us, start) == u64::MAX,
{
}

/// The largest budget never runs out: its deadline is the end of time, which
/// no earlier reading of the clock reaches.
pub proof fn law_unlimited_budget_runs_to_completion(
    sched: Scheduler,
    current: Group,
    start: u64,
    now: u64,
)
    requires
        sched.deadline == stamped(u64::MAX, start),
        now < u64::MAX,
    ensures
        sched.deadline == u64::MAX,
        !is_due(sched, current, now),
{
}

/// A deadline of zero, which is what `pause` leaves, is due at any time.
pub proof fn law_pause_is_due_at_once(sched: Scheduler, current: Group, now: u64)
    requires
        sched.deadline == 0,
        sched.preemption.thread_signal_spec().is_some(),
        !(current == Group::shared_spec()),
    ensures
        is_due(sched, current, now),
{
}

} // verus!
