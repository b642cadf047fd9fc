use inger::context::{Exchange, StackRegion, Transfer};
use inger::ffi;
use inger::group::{Group, GroupSource};
use inger::linger::{
    cancel, due, finish, launch as start, pause, preempt, reenter, resume as proceed, schedule,
    stamp,
    unschedule, Dispatch, Finished, LaunchError, Launched, Linger, Memo, Preempted, ResumeError,
    Resumption, Scheduler, Teardown, QUANTUM_MICROSECS, STACK_SIZE_BYTES,
};
use inger::preemption::Masking;
use inger::reusable::Pool;
use inger::signals::{Signal, SignalSource};
use inger::nsnow;
use std::cell::{Cell, RefCell};
use std::rc::Rc;

type Factory<T> = Box<dyn Fn() -> Option<T>>;
type Body<T> = Box<dyn FnOnce() -> Result<T, String>>;
type Task<T> = Linger<T, Body<T>, String>;

const GROUP_LIMIT: usize = 2;
const HOST_TCB: usize = 0x7000_0000;
const HOST_STACK: usize = 0x7fff_0000;
const QUANTUM: u64 = QUANTUM_MICROSECS * 1_000;

/// One thread with its pools, a clock that the test advances, and the group
/// the thread is in.
struct Host {
    sched: Scheduler,
    stacks: Pool<StackRegion, Factory<StackRegion>>,
    groups: Pool<Group, Factory<Group>>,
    signals: Pool<Signal, Factory<Signal>>,
    clock: u64,
    current: Group,
    blocks: usize,
    renewed: Vec<Group>,
    retired: Vec<usize>,
}

/// What a task does: compute for a while, pausing itself between the
/// stretches, then produce its value.
struct Work<T> {
    stretches: Vec<u64>,
    body: Body<T>,
}

struct Timed<T> {
    linger: Task<T>,
    stretches: Vec<u64>,
}

impl<T> Timed<T> {
    fn is_completion(&self) -> bool {
        self.linger.is_completion()
    }

    fn is_continuation(&self) -> bool {
        self.linger.is_continuation()
    }

    fn yielded(&self) -> bool {
        self.linger.yielded()
    }
}

fn timeout(useconds: u64) -> Work<()> {
    Work { stretches: vec![useconds * 1_000], body: Box::new(|| Ok(())) }
}

fn instant<T: 'static>(fun: impl FnOnce() -> T + 'static) -> Work<T> {
    Work { stretches: vec![0], body: Box::new(move || Ok(fun())) }
}

fn panicking(message: &str) -> Work<()> {
    let message = message.to_string();
    Work { stretches: vec![0], body: Box::new(move || Err(message)) }
}

impl Host {
    fn new(limit: usize) -> Host {
        let made = Cell::new(0usize);
        let stacks: Factory<StackRegion> = Box::new(move || {
            let k = made.get();
            made.set(k + 1);
            Some(StackRegion { base: 0x1000_0000 + k * STACK_SIZE_BYTES, len: STACK_SIZE_BYTES })
        });
        let source = RefCell::new(GroupSource::new(limit));
        let groups: Factory<Group> = Box::new(move || source.borrow_mut().create());
        let list = RefCell::new(SignalSource::new());
        let signals: Factory<Signal> = Box::new(move || list.borrow_mut().assign());
        Host {
            sched: Scheduler::new(),
            stacks: Pool::new(stacks),
            groups: Pool::new(groups),
            signals: Pool::new(signals),
            clock: 1_000_000,
            current: Group::shared(),
            blocks: 0,
            renewed: Vec::new(),
            retired: Vec::new(),
        }
    }

    fn teardown(&mut self, teardown: Option<Teardown>) {
        if let Some(steps) = teardown {
            if let Some(group) = steps.renew {
                self.renewed.push(group);
            }
            if let Some(retire) = steps.retire {
                assert!(retire.uninstall.run_destructors.is_some());
                assert_eq!(retire.uninstall.restore, HOST_TCB);
                self.retired.push(retire.uninstall.deallocate.unwrap());
            }
        }
    }

    /// Plays the task's side of a dispatch: the function computes while the
    /// timer fires every quantum, until it returns or is paused.
    fn run<T>(&mut self, timed: &mut Timed<T>, dispatch: Dispatch) {
        let signal = self.sched.preemption.assigned.unwrap();
        match dispatch.reentry {
            Some(reentry) => {
                assert_eq!(dispatch.transfer, Transfer::Raise);
                assert_eq!(reentry.block, signal);
                self.current = reentry.enter;
                assert_eq!(reenter(&mut self.sched, HOST_STACK), Exchange::WithHandler);
            }
            None => {
                assert_eq!(dispatch.transfer, Transfer::Jump);
                assert!(self.sched.bootstrap.is_some());
                let steps = schedule(&mut self.sched, self.clock, 0);
                assert!(steps.complete);
                assert_eq!(steps.unblock, Some(signal));
                self.current = steps.enter.unwrap();
            }
        }
        let floor = self.sched.task.checkpoint.unwrap().stack().unwrap().base;
        loop {
            let left = timed.stretches[0];
            if left < QUANTUM {
                self.clock += left;
                if timed.stretches.len() > 1 {
                    timed.stretches.remove(0);
                    pause(&mut self.sched);
                    let steps = self.sched.preemption.enable_preemption(None, 0);
                    assert_eq!(steps.raise, Some(signal));
                } else {
                    timed.stretches[0] = 0;
                    if let Linger::Continuation(continuation) = &mut timed.linger {
                        continuation.functional.call(&mut None);
                    }
                    let steps = unschedule(&mut self.sched);
                    self.current = steps.enter;
                    break;
                }
            } else {
                self.clock += QUANTUM;
                timed.stretches[0] = left - QUANTUM;
            }
            match preempt(&mut self.sched, signal, self.current, self.clock, 11, floor + 512) {
                Preempted::Paused { steps, block, host, .. } => {
                    assert_eq!(block, signal);
                    assert_eq!(host.set, HOST_TCB);
                    self.current = steps.enter;
                    break;
                }
                Preempted::Resumed => {}
                other => panic!("unexpected decision: {:?}", other),
            }
        }
        assert!(timed.linger.is_continuation());
        let end = finish(
            &mut self.sched,
            &mut timed.linger,
            dispatch.scope,
            &mut self.stacks,
            &mut self.groups,
        );
        self.teardown(end.teardown);
        if let Finished::Panicked(payload) = end.outcome {
            panic!("{}", payload);
        }
    }

    fn launch<T>(&mut self, work: Work<T>, us: u64) -> Result<Timed<T>, ResumeError> {
        assert!(self.sched.is_ready());
        assert!(self.current.is_shared());
        self.blocks += 1;
        let block = 0x8000_0000 + self.blocks * 0x1000;
        let launched = start(
            &mut self.sched,
            work.body,
            us,
            self.clock,
            block,
            HOST_TCB,
            self.current,
            &mut self.stacks,
            &mut self.groups,
            &mut self.signals,
        );
        let Launched { linger, resumed } = match launched {
            Ok(launched) => launched,
            Err(LaunchError::TooManyTasks) => {
                panic!("launch(): too many active timed functions: None")
            }
            Err(LaunchError::NoStack) => panic!("launch(): no stack"),
        };
        let mut timed = Timed { linger, stretches: work.stretches };
        match resumed? {
            Resumption::Idle => assert_eq!(us, 0),
            Resumption::Run(dispatch) => self.run(&mut timed, dispatch),
        }
        Ok(timed)
    }

    fn resume<'a, T>(&mut self, timed: &'a mut Timed<T>, us: u64) -> Result<&'a mut Timed<T>, ResumeError> {
        assert!(self.sched.is_ready());
        assert!(timed.linger.is_resumable());
        let resumed = proceed(
            &mut self.sched,
            &mut timed.linger,
            us,
            self.clock,
            HOST_TCB,
            self.current,
            &mut self.signals,
        )?;
        if let Resumption::Run(dispatch) = resumed {
            self.run(timed, dispatch);
        }
        Ok(timed)
    }

    fn drop<T>(&mut self, timed: Timed<T>) {
        let steps = cancel(timed.linger, HOST_TCB, &mut self.stacks, &mut self.groups);
        self.teardown(steps);
    }
}

#[test]
fn launch_completion() {
    let mut host = Host::new(GROUP_LIMIT);
    assert!(host.launch(instant(|| ()), 1_000).unwrap().is_completion());
}

#[test]
fn launch_continuation() {
    let mut host = Host::new(GROUP_LIMIT);
    assert!(host.launch(timeout(1_000_000), 10).unwrap().is_continuation());
}

#[test]
fn launch_union() {
    let mut host = Host::new(GROUP_LIMIT);
    host.launch(instant(|| -> Result<bool, Box<()>> { Ok(false) }), 1_000).unwrap();
}

#[should_panic(expected = "PASS")]
#[test]
fn launch_panic() {
    let mut host = Host::new(GROUP_LIMIT);
    drop(host.launch(panicking("PASS"), 1_000));
}

#[test]
fn resume_completion() {
    let mut host = Host::new(GROUP_LIMIT);
    let mut cont = host.launch(timeout(1_000_000), 10).unwrap();
    assert!(cont.is_continuation(), "completion instead of continuation");
    assert!(host.resume(&mut cont, 10_000_000).unwrap().is_completion());
}

#[test]
fn resume_completion_drop() {
    let mut host = Host::new(GROUP_LIMIT);
    let mut cont = host.launch(timeout(1_000_000), 100).unwrap();
    assert!(cont.is_continuation(), "completion instead of continuation");
    assert!(host.resume(&mut cont, 10_000).unwrap().is_continuation());
}

#[test]
fn resume_completion_repeat() {
    let mut host = Host::new(GROUP_LIMIT);
    let mut cont = host.launch(timeout(1_000_000), 10).unwrap();
    assert!(cont.is_continuation(), "launch(): returned completion instead of continuation");
    host.resume(&mut cont, 10).unwrap();
    assert!(cont.is_continuation(), "resume(): returned completion instead of continuation");
    assert!(host.resume(&mut cont, 10_000_000).unwrap().is_completion());
}

#[test]
fn setup_only() {
    let mut host = Host::new(GROUP_LIMIT);
    let run = Rc::new(Cell::new(false));
    let flag = run.clone();
    let mut prep = host.launch(instant(move || flag.set(true)), 0).unwrap();
    assert!(!run.get());
    host.resume(&mut prep, 1_000).unwrap();
    assert!(run.get());
}

#[should_panic(expected = "launch(): too many active timed functions: None")]
#[test]
fn launch_toomany() {
    let mut host = Host::new(GROUP_LIMIT);
    let _thing_one = host.launch(timeout(1_000_000), 0).unwrap();
    let _thing_two = host.launch(timeout(1_000_000), 0).unwrap();
    let _thing_three = host.launch(timeout(1_000_000), 0).unwrap();
}

#[test]
fn launch_toomany_reinit() {
    let mut host = Host::new(GROUP_LIMIT);
    let thing_one = host.launch(timeout(1_000_000), 0).unwrap();
    let _thing_two = host.launch(timeout(1_000_000), 0).unwrap();
    host.drop(thing_one);
    let _thing_three = host.launch(timeout(1_000_000), 0).unwrap();
}

#[test]
fn abuse_preemption() {
    for _ in 0..25 {
        launch_continuation();
    }
}

#[test]
fn repeated_tasks_leak_nothing() {
    let mut host = Host::new(GROUP_LIMIT);
    let mut counts = None;
    for round in 0..25 {
        let mut cont = host.launch(timeout(1_000_000), 10).unwrap();
        assert!(cont.is_continuation());
        assert!(host.resume(&mut cont, 10_000_000).unwrap().is_completion());
        let now = (host.stacks.available(), host.groups.available(), host.retired.len());
        assert_eq!(now.2, round + 1);
        match counts {
            None => counts = Some((now.0, now.1)),
            Some(first) => assert_eq!(first, (now.0, now.1)),
        }
        assert!(host.sched.ids.len() == 0);
    }
    assert_eq!(counts, Some((1, 1)));
    assert!(host.renewed.is_empty());
}

#[test]
fn dropping_a_paused_task_renews_its_group_once() {
    let mut host = Host::new(GROUP_LIMIT);
    let cont = host.launch(timeout(1_000_000), 10).unwrap();
    assert!(cont.is_continuation());
    host.drop(cont);
    assert_eq!(host.renewed, vec![Group { id: 1 }]);
    assert_eq!(host.retired, vec![0x8000_1000]);
    assert_eq!(host.stacks.available(), 1);
    assert_eq!(host.groups.available(), 1);
}

#[test]
fn dropping_an_unstarted_task_renews_nothing() {
    let mut host = Host::new(GROUP_LIMIT);
    let cont = host.launch(timeout(1_000_000), 0).unwrap();
    host.drop(cont);
    assert!(host.renewed.is_empty());
    assert_eq!(host.retired.len(), 1);
    assert_eq!(host.stacks.available(), 1);
    assert_eq!(host.groups.available(), 1);
}

#[test]
fn unlimited_budget_runs_to_completion() {
    let mut host = Host::new(GROUP_LIMIT);
    let task = host.launch(timeout(3_000_000), u64::MAX).unwrap();
    assert!(task.is_completion());
    assert_eq!(host.clock, 1_000_000 + 3_000_000_000);
}

#[test]
fn value_is_delivered_once() {
    let mut host = Host::new(GROUP_LIMIT);
    let mut task = host.launch(instant(|| 42u32), 0).unwrap();
    assert!(!task.is_completion());
    host.resume(&mut task, u64::MAX).unwrap();
    match task.linger {
        Linger::Completion(value) => assert_eq!(value, 42),
        _ => panic!("no value"),
    }
}

#[test]
fn resume_of_a_completed_task_is_a_noop() {
    let mut host = Host::new(GROUP_LIMIT);
    let mut task = host.launch(instant(|| 7u8), 1_000).unwrap();
    assert!(task.is_completion());
    let clock = host.clock;
    let serials = host.sched.ids.serials_left(usize::MAX);
    host.resume(&mut task, 1_000).unwrap();
    assert!(task.is_completion());
    assert_eq!(host.clock, clock);
    assert_eq!(host.sched.ids.serials_left(usize::MAX), serials);
    assert!(host.sched.is_ready());
}

#[test]
fn resume_with_no_budget_is_a_noop() {
    let mut host = Host::new(GROUP_LIMIT);
    let mut task = host.launch(timeout(1_000), 0).unwrap();
    host.resume(&mut task, 0).unwrap();
    assert!(task.is_continuation());
    assert!(host.sched.preemption.assigned.is_none());
    assert!(host.sched.is_ready());
}

#[test]
fn pause_yields_and_resumes_after_it() {
    let mut host = Host::new(GROUP_LIMIT);
    let done = Rc::new(Cell::new(false));
    let flag = done.clone();
    let work = Work {
        stretches: vec![0, 0],
        body: Box::new(move || {
            flag.set(true);
            Ok(())
        }),
    };
    let mut task = host.launch(work, 0).unwrap();
    host.resume(&mut task, u64::MAX).unwrap();
    assert!(task.is_continuation());
    assert!(task.yielded());
    assert!(!done.get());
    host.resume(&mut task, u64::MAX).unwrap();
    assert!(task.is_completion());
    assert!(done.get());
}

#[test]
fn budget_is_enforced_at_the_first_tick_after_it() {
    let mut host = Host::new(GROUP_LIMIT);
    let start = host.clock;
    let task = host.launch(timeout(1_000_000), 250).unwrap();
    assert!(task.is_continuation());
    assert_eq!(host.clock - start, 300_000);
    assert_eq!(task.stretches[0], 1_000_000_000 - 300_000);
    assert_eq!(host.sched.deadline, start + 250_000);
}

#[test]
fn memo_hands_its_value_over_once() {
    let mut memo = Memo::Function(|| 5u8);
    let mut cell = None;
    memo.call(&mut cell);
    assert_eq!(cell, None);
    assert!(matches!(memo, Memo::Return(5)));
    memo.call(&mut cell);
    assert_eq!(cell, Some(5));
    assert!(matches!(memo, Memo::Empty));
    let mut other = None;
    memo.call(&mut other);
    assert_eq!(other, None);
    assert!(matches!(memo, Memo::Empty));
}

#[test]
fn timeout_is_not_a_yield() {
    let mut host = Host::new(GROUP_LIMIT);
    let task = host.launch(timeout(1_000_000), 10).unwrap();
    assert!(task.is_continuation());
    assert!(!task.yielded());
}

#[test]
fn poisoned_task_reports_neither_state() {
    let mut host = Host::new(GROUP_LIMIT);
    assert!(host.sched.is_ready());
    let launched = start(
        &mut host.sched,
        Box::new(|| Err::<(), String>("boom".to_string())) as Body<()>,
        0,
        host.clock,
        0x8000_1000,
        HOST_TCB,
        host.current,
        &mut host.stacks,
        &mut host.groups,
        &mut host.signals,
    );
    let Launched { mut linger, .. } = launched.ok().unwrap();
    let dispatch = match proceed(
        &mut host.sched,
        &mut linger,
        5,
        host.clock,
        HOST_TCB,
        host.current,
        &mut host.signals,
    ) {
        Ok(Resumption::Run(dispatch)) => dispatch,
        _ => panic!("not dispatched"),
    };
    schedule(&mut host.sched, host.clock, 0);
    if let Linger::Continuation(continuation) = &mut linger {
        continuation.functional.call(&mut None);
    }
    unschedule(&mut host.sched);
    let end = finish(&mut host.sched, &mut linger, dispatch.scope, &mut host.stacks, &mut host.groups);
    match end.outcome {
        Finished::Panicked(payload) => assert_eq!(payload, "boom"),
        _ => panic!("not poisoned"),
    }
    assert!(!linger.is_completion());
    assert!(!linger.is_continuation());
    assert!(!linger.yielded());
    assert!(host.sched.is_ready() && linger.is_resumable());
    let later = proceed(
        &mut host.sched,
        &mut linger,
        1_000,
        host.clock,
        HOST_TCB,
        host.current,
        &mut host.signals,
    );
    assert!(matches!(later, Ok(Resumption::Idle)));
    assert!(matches!(linger, Linger::Poison));
}

#[test]
fn huge_budget_is_never_due() {
    let mut host = Host::new(GROUP_LIMIT);
    let task = host.launch(timeout(2_000_000), 1 << 60).unwrap();
    assert!(task.is_completion());
    assert_eq!(host.sched.deadline, u64::MAX);
}

#[test]
fn resume_refuses_a_gate_of_the_wrong_kind() {
    let mut host = Host::new(GROUP_LIMIT);
    let mut task = host.launch(timeout(1_000_000), 10).unwrap();
    assert!(task.is_continuation());
    let paused = match &task.linger {
        Linger::Continuation(continuation) => continuation.stateful,
        _ => panic!("not paused"),
    };
    assert!(paused.errno.is_some() && paused.checkpoint.unwrap().is_handler());
    if let Linger::Continuation(continuation) = &mut task.linger {
        let mut gate = continuation.stateful.checkpoint.unwrap();
        let mut held = gate.persistent.unwrap();
        held.handler = false;
        gate.persistent = Some(held);
        continuation.stateful.checkpoint = Some(gate);
    }
    let serials = host.sched.ids.serials_left(usize::MAX - 6);
    assert!(matches!(host.resume(&mut task, 10), Err(ResumeError::WrongKind)));
    assert!(task.is_continuation());
    assert!(host.sched.is_ready());
    assert_eq!(host.sched.ids.len(), 0);
    assert_eq!(host.sched.ids.serials_left(usize::MAX - 6), serials);
    let mut fresh = host.launch(timeout(1_000), 0).unwrap();
    if let Linger::Continuation(continuation) = &mut fresh.linger {
        let mut gate = continuation.stateful.checkpoint.unwrap();
        let mut held = gate.persistent.unwrap();
        held.handler = true;
        gate.persistent = Some(held);
        continuation.stateful.checkpoint = Some(gate);
    }
    assert!(matches!(host.resume(&mut fresh, 10), Err(ResumeError::WrongKind)));
}

#[test]
fn launch_without_a_signal_fails_in_resume() {
    let mut host = Host::new(GROUP_LIMIT);
    let none: Factory<Signal> = Box::new(|| None);
    host.signals = Pool::new(none);
    assert!(matches!(host.launch(timeout(10), 10), Err(ResumeError::NoSignal)));
}

#[test]
fn resume_refuses_a_gate_captured_off_its_stack() {
    let mut host = Host::new(GROUP_LIMIT);
    let mut task = host.launch(timeout(1_000), 0).unwrap();
    if let Linger::Continuation(continuation) = &mut task.linger {
        let mut gate = continuation.stateful.checkpoint.unwrap();
        let mut held = gate.persistent.unwrap();
        held.stack_ptr = held.stack.base - 1;
        gate.persistent = Some(held);
        continuation.stateful.checkpoint = Some(gate);
    }
    assert!(matches!(host.resume(&mut task, 10), Err(ResumeError::Expired)));
    assert!(task.is_continuation());
    assert!(host.sched.is_ready());
}

#[test]
fn launch_without_a_stack_fails() {
    let mut host = Host::new(GROUP_LIMIT);
    let none: Factory<StackRegion> = Box::new(|| None);
    host.stacks = Pool::new(none);
    let launched = start(
        &mut host.sched,
        Box::new(|| Ok(())) as Body<()>,
        10,
        host.clock,
        0x8000_1000,
        HOST_TCB,
        host.current,
        &mut host.stacks,
        &mut host.groups,
        &mut host.signals,
    );
    assert!(matches!(launched, Err(LaunchError::NoStack)));
    assert_eq!(host.groups.available(), 0);
    assert!(host.sched.is_ready());
}

#[test]
fn launch_without_a_group_returns_the_stack() {
    let mut host = Host::new(0);
    let launched = start(
        &mut host.sched,
        Box::new(|| Ok(())) as Body<()>,
        10,
        host.clock,
        0x8000_1000,
        HOST_TCB,
        host.current,
        &mut host.stacks,
        &mut host.groups,
        &mut host.signals,
    );
    assert!(matches!(launched, Err(LaunchError::TooManyTasks)));
    assert_eq!(host.stacks.available(), 1);
    assert_eq!(host.sched.ids.len(), 0);
    assert!(host.sched.is_ready());
}

#[test]
fn fresh_scheduler_is_blank() {
    let sched = Scheduler::new();
    assert_eq!(sched.ids.len(), 0);
    assert!(sched.ids.serials_left(usize::MAX));
    assert_eq!(sched.preemption.assigned, None);
    assert!(!sched.preemption.attached && !sched.preemption.deferred);
    assert!(sched.task.errno.is_none() && sched.task.checkpoint.is_none());
    assert!(!sched.task.yielded);
    assert_eq!(sched.deadline, 0);
    assert!(sched.bootstrap.is_none() && sched.tls.is_none());
    assert!(sched.is_ready());
}

#[test]
fn handler_ignores_a_thread_without_a_signal() {
    let mut sched = Scheduler::new();
    assert!(!due(&sched, Group { id: 1 }, u64::MAX));
    assert_eq!(preempt(&mut sched, Signal::Alarm, Group { id: 1 }, 5, 3, 0), Preempted::Ignored);
    assert!(!sched.preemption.deferred);
}

#[test]
fn handler_defers_outside_a_task() {
    let mut sched = Scheduler::new();
    sched.preemption.assigned = Some(Signal::User1);
    sched.preemption.attached = true;
    assert!(!due(&sched, Group::shared(), 5));
    assert_eq!(
        preempt(&mut sched, Signal::User1, Group::shared(), 5, 3, 0),
        Preempted::Deferred(Masking::InHandler(Signal::User1))
    );
    assert!(sched.preemption.deferred);
    sched.preemption.deferred = false;
    assert_eq!(preempt(&mut sched, Signal::User2, Group::shared(), 5, 3, 0), Preempted::Resumed);
    assert!(!sched.preemption.deferred);
    sched.deadline = 6;
    assert!(!due(&sched, Group { id: 1 }, 5));
    assert_eq!(preempt(&mut sched, Signal::User1, Group { id: 1 }, 5, 3, 0), Preempted::Resumed);
    assert!(due(&sched, Group { id: 1 }, 6));
}

#[test]
fn stamp_adds_the_budget_in_nanoseconds() {
    assert_eq!(stamp(10, 5), 10_005);
    assert_eq!(stamp(0, 77), 77);
    assert_eq!(stamp(u64::MAX, 5), u64::MAX);
    assert_eq!(stamp(u64::MAX / 1_000 + 1, 5), u64::MAX);
    assert_eq!(stamp(1 << 60, 5), u64::MAX);
    assert_eq!(stamp(u64::MAX - 1, 0), u64::MAX);
    assert_eq!(stamp(u64::MAX / 1_000, 0), u64::MAX - 615);
    assert_eq!(stamp(u64::MAX / 1_000, u64::MAX), u64::MAX);
    assert_eq!(stamp(1, u64::MAX - 1_000), u64::MAX);
}

#[test]
fn clock_moves_forward() {
    let first = nsnow().unwrap();
    let mut elapsed = 0;
    let mut last = first;
    while elapsed < 1_000_000 {
        let this = nsnow().unwrap();
        if this >= last {
            elapsed += this - last;
        }
        last = this;
    }
    assert!(last > 1_000_000_000_000_000_000);
}

#[test]
fn foreign_cancel_completes_an_unfinished_task() {
    let mut host = Host::new(GROUP_LIMIT);
    let task = host.launch(timeout(1_000_000), 10).unwrap();
    let mut timed = ffi::Linger::new(task.linger);
    assert!(!timed.is_complete);
    let steps = ffi::cancel(&mut timed, HOST_TCB, &mut host.stacks, &mut host.groups);
    assert!(timed.is_complete);
    assert!(timed.continuation.is_completion());
    assert_eq!(steps.unwrap().renew, Some(Group { id: 1 }));
    assert_eq!(host.stacks.available(), 1);
}

#[test]
fn foreign_cancel_leaves_a_completed_task_complete() {
    let mut host = Host::new(GROUP_LIMIT);
    let task = host.launch(instant(|| ()), 1_000).unwrap();
    let mut timed = ffi::Linger::new(task.linger);
    assert!(timed.is_complete);
    let stacks = host.stacks.available();
    assert!(ffi::cancel(&mut timed, HOST_TCB, &mut host.stacks, &mut host.groups).is_none());
    assert!(timed.is_complete);
    assert_eq!(host.stacks.available(), stacks);
    timed.refresh();
    assert!(timed.is_complete);
}
