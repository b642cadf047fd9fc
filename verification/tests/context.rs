use inger::context::{
    combine, getcontext, makecontext, restorecontext, setcontext, sigsetcontext, split,
    validatecontext, Context, Exchange, StackRegion, Transfer,
};
use inger::id::{Id, IdTable};

const STACK: StackRegion = StackRegion { base: 0x4000, len: 0x2000 };

/// A call gate that was entered, preempted inside its function by a handler
/// that swapped it, and whose frame has since been left.
fn swap(table: &mut IdTable) -> Context {
    let (mut gate, scope) = makecontext(table, STACK, STACK.top());
    assert_eq!(setcontext(&gate, table), Transfer::Jump);
    assert_eq!(gate.swap(table, STACK.base + 0x100), Exchange::ThroughSuccessor);
    scope.close(table);
    gate
}

#[test]
fn get_expired() {
    let mut table = IdTable::new();
    let (context, scope) = getcontext(&mut table);
    scope.close(&mut table);
    assert!(setcontext(&context, &mut table) == Transfer::Refused);
}

#[test]
fn make_expired() {
    let mut table = IdTable::new();
    let (context, scope) = makecontext(&mut table, STACK, STACK.top());
    scope.close(&mut table);
    assert!(setcontext(&context, &mut table) == Transfer::Refused);
}

#[test]
fn restore_expired() {
    let mut table = IdTable::new();
    let (context, scope) = makecontext(&mut table, STACK, STACK.top());
    scope.close(&mut table);
    let (context, scope) = restorecontext(context, &mut table).ok().unwrap();
    scope.close(&mut table);
    assert!(setcontext(&context, &mut table) == Transfer::Refused);
}

#[should_panic(expected = "true")]
#[test]
fn get_reached() {
    let mut table = IdTable::new();
    let (context, scope) = getcontext(&mut table);
    let reached = setcontext(&context, &mut table) == Transfer::Jump;
    scope.close(&mut table);
    panic!("{}", reached);
}

#[should_panic(expected = "true")]
#[test]
fn make_reached() {
    let mut table = IdTable::new();
    let (gate, scope) = makecontext(&mut table, STACK, STACK.top());
    let reached = setcontext(&gate, &mut table) == Transfer::Jump;
    scope.close(&mut table);
    panic!("{}", reached);
}

#[should_panic(expected = "true")]
#[test]
fn restore_reached() {
    let mut table = IdTable::new();
    let (gate, scope) = makecontext(&mut table, STACK, STACK.top());
    scope.close(&mut table);
    let (gate, scope) = restorecontext(gate, &mut table).ok().unwrap();
    let reached = setcontext(&gate, &mut table) == Transfer::Jump;
    scope.close(&mut table);
    panic!("{}", reached);
}

#[should_panic(expected = "true")]
#[test]
fn get_repeated() {
    let mut table = IdTable::new();
    let (context, scope) = getcontext(&mut table);
    assert_eq!(setcontext(&context, &mut table), Transfer::Jump);
    let reached = setcontext(&context, &mut table) == Transfer::Jump;
    scope.close(&mut table);
    panic!("{}", reached);
}

#[should_panic(expected = "true")]
#[test]
fn get_nested() {
    let mut table = IdTable::new();
    let (outer, outer_scope) = getcontext(&mut table);
    let (inner, _inner_scope) = getcontext(&mut table);
    assert_eq!(setcontext(&inner, &mut table), Transfer::Jump);
    let reached = setcontext(&outer, &mut table) == Transfer::Jump;
    assert!(setcontext(&inner, &mut table) == Transfer::Refused);
    outer_scope.close(&mut table);
    panic!("{}", reached);
}

#[test]
fn swap_unreached() {
    let mut table = IdTable::new();
    swap(&mut table);
    assert_eq!(table.len(), 0);
}

#[test]
fn swap_expired() {
    let mut table = IdTable::new();
    assert!(sigsetcontext(&swap(&mut table), &mut table) == Transfer::Refused);
}

#[should_panic(expected = "true")]
#[test]
fn swap_incorrect() {
    let mut table = IdTable::new();
    let (checkpoint, scope) = restorecontext(swap(&mut table), &mut table).ok().unwrap();
    let none = setcontext(&checkpoint, &mut table) == Transfer::Refused;
    scope.close(&mut table);
    panic!("{}", none);
}

#[should_panic(expected = "true")]
#[test]
fn swap_reached() {
    let mut table = IdTable::new();
    let (checkpoint, scope) = restorecontext(swap(&mut table), &mut table).ok().unwrap();
    let reached = sigsetcontext(&checkpoint, &mut table) == Transfer::Raise;
    scope.close(&mut table);
    panic!("{}", reached);
}

#[should_panic(expected = "true")]
#[test]
fn swap_repeated() {
    let mut table = IdTable::new();
    let (mut checkpoint, scope) = restorecontext(swap(&mut table), &mut table).ok().unwrap();
    assert_eq!(sigsetcontext(&checkpoint, &mut table), Transfer::Raise);
    // the reserved signal's handler swaps the checkpoint in
    assert_eq!(checkpoint.swap(&mut table, 0x100), Exchange::WithHandler);
    assert!(!checkpoint.persistent.unwrap().handler);
    // the function is preempted a second time
    let (successor, _) = getcontext(&mut table);
    let mut held = checkpoint.persistent.unwrap();
    held.successor = successor.id;
    checkpoint.persistent = Some(held);
    assert_eq!(checkpoint.swap(&mut table, STACK.base + 0x80), Exchange::ThroughSuccessor);
    scope.close(&mut table);
    let (checkpoint, scope) = restorecontext(checkpoint, &mut table).ok().unwrap();
    let reached = sigsetcontext(&checkpoint, &mut table) == Transfer::Raise;
    scope.close(&mut table);
    panic!("{}", reached);
}

#[test]
fn swap_retires_the_successor_and_the_gate() {
    let mut table = IdTable::new();
    let (mut gate, scope) = makecontext(&mut table, STACK, STACK.top());
    let (later, _) = getcontext(&mut table);
    assert!(gate.id.is_valid(&table) && scope.guard.is_valid(&table) && later.id.is_valid(&table));
    assert_eq!(gate.swap(&mut table, STACK.base), Exchange::ThroughSuccessor);
    assert!(!gate.id.is_valid(&table));
    assert!(!scope.guard.is_valid(&table));
    assert!(!later.id.is_valid(&table));
    assert!(gate.persistent.unwrap().handler);
    assert_eq!(gate.persistent.unwrap().stack_ptr, STACK.base);
    // the successor is gone: a second direct swap of a fresh copy is refused
    let mut stale = gate;
    let mut held = stale.persistent.unwrap();
    held.handler = false;
    stale.persistent = Some(held);
    assert_eq!(stale.swap(&mut table, 1), Exchange::Refused);
    assert_eq!(stale.persistent.unwrap().stack_ptr, STACK.base);
}

#[test]
fn swap_of_a_checkpoint_is_refused() {
    let mut table = IdTable::new();
    let (mut checkpoint, _) = getcontext(&mut table);
    assert_eq!(checkpoint.swap(&mut table, 0), Exchange::Refused);
    assert_eq!(table.len(), 1);
}

#[test]
fn restore_refuses_what_was_captured_off_the_stack() {
    let mut table = IdTable::new();
    let (mut gate, scope) = makecontext(&mut table, STACK, STACK.top());
    scope.close(&mut table);
    let mut held = gate.persistent.unwrap();
    held.stack_ptr = STACK.base + STACK.len + 1;
    gate.persistent = Some(held);
    let given = restorecontext(gate, &mut table).err().unwrap();
    assert_eq!(given.persistent.unwrap().stack_ptr, STACK.base + STACK.len + 1);
    assert_eq!(table.len(), 0);
    held.stack_ptr = STACK.base - 1;
    gate.persistent = Some(held);
    assert!(restorecontext(gate, &mut table).is_err());
    held.stack_ptr = STACK.base + STACK.len;
    gate.persistent = Some(held);
    assert!(restorecontext(gate, &mut table).is_ok());
    let (checkpoint, _) = getcontext(&mut table);
    assert!(restorecontext(checkpoint, &mut table).is_err());
}

#[test]
fn set_retires_what_came_after() {
    let mut table = IdTable::new();
    let (first, first_scope) = getcontext(&mut table);
    let (second, _) = getcontext(&mut table);
    let (third, _) = getcontext(&mut table);
    assert_eq!(setcontext(&second, &mut table), Transfer::Jump);
    assert!(first.id.is_valid(&table));
    assert!(second.id.is_valid(&table));
    assert!(!third.id.is_valid(&table));
    assert_eq!(table.len(), 2);
    first_scope.close(&mut table);
    assert!(!first.id.is_valid(&table) && !second.id.is_valid(&table));
}

#[test]
fn validate_checks_the_kind() {
    let mut table = IdTable::new();
    let (gate, _) = makecontext(&mut table, STACK, STACK.top());
    let (later, _) = getcontext(&mut table);
    assert!(!validatecontext(&gate, &mut table, true));
    assert_eq!(sigsetcontext(&gate, &mut table), Transfer::Refused);
    assert_eq!(table.len(), 3);
    assert!(later.id.is_valid(&table));
    assert!(validatecontext(&gate, &mut table, false));
    assert_eq!(table.len(), 2);
    assert!(!later.id.is_valid(&table) && gate.id.is_valid(&table));
}

#[test]
fn refused_transfers_retire_nothing() {
    let mut table = IdTable::new();
    let (mut gate, _) = makecontext(&mut table, STACK, STACK.top());
    let mut held = gate.persistent.unwrap();
    held.handler = true;
    gate.persistent = Some(held);
    let (later, _) = getcontext(&mut table);
    assert!(gate.is_handler());
    assert_eq!(setcontext(&gate, &mut table), Transfer::Refused);
    assert_eq!(table.len(), 3);
    assert!(later.id.is_valid(&table));
    assert_eq!(sigsetcontext(&gate, &mut table), Transfer::Raise);
    assert_eq!(table.len(), 2);
    let (checkpoint, scope) = getcontext(&mut table);
    assert!(!checkpoint.is_handler());
    scope.close(&mut table);
    let (newer, _) = getcontext(&mut table);
    assert_eq!(sigsetcontext(&checkpoint, &mut table), Transfer::Refused);
    assert_eq!(setcontext(&checkpoint, &mut table), Transfer::Refused);
    assert!(newer.id.is_valid(&table));
    assert_eq!(table.len(), 3);
}

#[test]
fn ids_are_generational() {
    let mut table = IdTable::new();
    assert!(table.can_mint());
    let a = Id::new(&mut table);
    let b = Id::new(&mut table);
    assert_eq!((a.slot(), b.slot()), (0, 1));
    b.invalidate(&mut table);
    assert!(a.is_valid(&table) && !b.is_valid(&table));
    let c = Id::new(&mut table);
    assert_eq!(c.slot(), 1);
    assert!(c.is_valid(&table) && !b.is_valid(&table));
    a.invalidate_subsequent(&mut table);
    assert!(a.is_valid(&table) && !c.is_valid(&table));
    assert_eq!(table.len(), 1);
    c.invalidate(&mut table);
    assert_eq!(table.len(), 1);
    a.invalidate(&mut table);
    assert_eq!(table.len(), 0);
    assert!(table.serials_left(usize::MAX - 3));
    assert!(!table.serials_left(usize::MAX - 2));
}

#[test]
fn words_split_and_combine() {
    assert_eq!(combine(0x89ab_cdef, 0x0123_4567), 0x0123_4567_89ab_cdef);
    assert_eq!(split(0x0123_4567_89ab_cdef), (0x89ab_cdef, 0x0123_4567));
    assert_eq!(combine(0, 1), 1 << 32);
    assert_eq!(split(u64::MAX), (u32::MAX, u32::MAX));
}

#[test]
fn stack_bounds_are_inclusive() {
    assert!(STACK.contains(0x4000));
    assert!(STACK.contains(0x6000));
    assert!(!STACK.contains(0x6001));
    assert!(!STACK.contains(0x3fff));
    assert_eq!(STACK.top(), 0x6000);
    let high = StackRegion { base: usize::MAX - 1, len: 16 };
    assert_eq!(high.top(), usize::MAX);
    assert!(high.contains(usize::MAX));
}
