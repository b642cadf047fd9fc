//! Execution contexts as the rules see them: a generational id, and for a call
//! gate the stack it owns, the stack pointer saved in its register file, the id
//! of its successor frame and whether a signal handler captured it.
//!
//! The register file itself never enters here. Each operation decides whether
//! a transfer of control may happen and which ids it costs; the caller performs
//! the transfer that the result names.

use vstd::prelude::*;
use crate::id::{cut, Id, IdTable};

verus! {

/// A region of memory that serves as a task's stack.
#[derive(Clone, Copy, Debug, PartialEq, Eq, Structural)]
pub struct StackRegion {
    pub base: usize,
    pub len: usize,
}

impl StackRegion {
    /// `ptr` lies in the region, its one-past-the-end address included.
    pub open spec fn holds(&self, ptr: usize) -> bool {
        self.base <= ptr <= self.base + self.len
    }

    /// The address one past the end of the region, or the highest address
    /// there is if the region runs up to it.
    pub open spec fn top_spec(&self) -> usize {
        if self.base + self.len <= usize::MAX {
            (self.base + self.len) as usize
        } else {
            usize::MAX
        }
    }

    pub fn top(&self) -> (ptr: usize)
        ensures
            self.holds(ptr),
            ptr == self.top_spec(),
    {
        self.base.saturating_add(self.len)
    }

    pub fn contains(&self, ptr: usize) -> (inside: bool)
        ensures
            inside == self.holds(ptr),
    {
        ptr >= self.base && ptr - self.base <= self.len
    }
}

/// What a call gate keeps beyond its id.
#[derive(Clone, Copy, Debug)]
pub struct Persistent {
    pub stack: StackRegion,
    /// The stack pointer of the register file that the call gate currently holds.
    pub stack_ptr: usize,
    pub successor: Id,
    /// Set while the call gate holds registers captured inside a signal handler.
    pub handler: bool,
}

/// A checkpoint on the caller's stack (`persistent` is `None`) or a call gate.
#[derive(Clone, Copy, Debug)]
pub struct Context {
    pub id: Id,
    pub persistent: Option<Persistent>,
}

/// The frame that a context was created in. Closing it ends the lifetime of
/// every context created since.
#[derive(Clone, Copy, Debug)]
pub struct Scope {
    pub guard: Id,
}

/// What the caller of a transfer operation has to do next.
#[derive(Clone, Copy, Debug, PartialEq, Eq, Structural)]
pub enum Transfer {
    /// The context is expired or of the wrong kind: nothing happens.
    Refused,
    /// Load the context's registers directly.
    Jump,
    /// Raise the reserved signal; its handler swaps the context in.
    Raise,
}

/// Which register files a swap exchanges.
#[derive(Clone, Copy, Debug, PartialEq, Eq, Structural)]
pub enum Exchange {
    /// The call gate's successor is no longer valid: nothing happens.
    Refused,
    /// The call gate's registers go to its successor's record, the successor's to
    /// the handler, and the handler's into the call gate.
    ThroughSuccessor,
    /// The call gate and the handler trade registers.
    WithHandler,
}

impl Context {
    pub open spec fn is_handler_checkpoint(&self) -> bool {
        match self.persistent {
            Some(p) => p.handler,
            None => false,
        }
    }

    /// A gate is created after its successor, so it sits in a later slot.
    pub open spec fn wf(&self) -> bool {
        match self.persistent {
            Some(p) => p.successor.index() < self.id.index(),
            None => true,
        }
    }

    /// Wherever the call gate is valid, so is its successor.
    pub open spec fn successor_outlives(&self, entries: Seq<usize>) -> bool {
        match self.persistent {
            Some(p) => self.id.valid_in(entries) ==> p.successor.valid_in(entries),
            None => true,
        }
    }

    /// The call gate can be grafted onto a new frame: it owns a stack and its saved
    /// stack pointer lies on that stack.
    pub open spec fn restorable(&self) -> bool {
        match self.persistent {
            Some(p) => p.stack.holds(p.stack_ptr),
            None => false,
        }
    }

    /// The id that a swap retires, where the swap goes ahead.
    pub open spec fn swap_destination(&self, entries: Seq<usize>) -> Option<Id> {
        match self.persistent {
            Some(p) => if p.handler {
                Some(self.id)
            } else if p.successor.valid_in(entries) {
                Some(p.successor)
            } else {
                None
            },
            None => None,
        }
    }

    /// The context after a swap that captured a register file whose stack
    /// pointer is `captured`.
    pub open spec fn swapped(&self, entries: Seq<usize>, captured: usize) -> Context {
        match (self.persistent, self.swap_destination(entries)) {
            (Some(p), Some(_)) => Context {
                id: self.id,
                persistent: Some(
                    Persistent {
                        stack: p.stack,
                        stack_ptr: captured,
                        successor: p.successor,
                        handler: !p.handler,
                    },
                ),
            },
            _ => *self,
        }
    }

    /// The table after a swap.
    pub open spec fn swapped_table(&self, entries: Seq<usize>) -> Seq<usize> {
        match self.swap_destination(entries) {
            Some(dest) => cut(entries, dest.index() as int),
            None => entries,
        }
    }

    /// The exchange that a swap asks for.
    pub open spec fn swap_exchange(&self, entries: Seq<usize>) -> Exchange {
        match (self.persistent, self.swap_destination(entries)) {
            (Some(p), Some(_)) => if p.handler {
                Exchange::WithHandler
            } else {
                Exchange::ThroughSuccessor
            },
            _ => Exchange::Refused,
        }
    }

    /// A transfer to this context, asked for as a handler checkpoint or as
    /// an ordinary context, goes ahead: the id is valid and the context is of
    /// the kind asked for.
    pub open spec fn accepts(&self, entries: Seq<usize>, handler_desired: bool) -> bool {
        self.id.valid_in(entries) && self.is_handler_checkpoint() == handler_desired
    }

    /// What `setcontext` answers.
    pub open spec fn set_outcome(&self, entries: Seq<usize>) -> Transfer {
        if self.accepts(entries, false) {
            Transfer::Jump
        } else {
            Transfer::Refused
        }
    }

    /// What `sigsetcontext` answers.
    pub open spec fn sigset_outcome(&self, entries: Seq<usize>) -> Transfer {
        if self.accepts(entries, true) {
            Transfer::Raise
        } else {
            Transfer::Refused
        }
    }

    /// The table after a transfer was asked for: one that goes ahead retires
    /// everything created after the context, a refused one retires nothing.
    pub open spec fn validated_table(&self, entries: Seq<usize>, handler_desired: bool) -> Seq<
        usize,
    > {
        if self.accepts(entries, handler_desired) {
            cut(entries, self.id.index() + 1)
        } else {
            entries
        }
    }

    /// Whether a signal handler captured what the context holds.
    pub fn is_handler(&self) -> (handler: bool)
        ensures
            handler == self.is_handler_checkpoint(),
    {
        match self.persistent {
            Some(p) => p.handler,
            None => false,
        }
    }

    pub fn is_gate(&self) -> (gate: bool)
        ensures
            gate == self.persistent.is_some(),
    {
        self.persistent.is_some()
    }

    /// The stack that the context owns, if it is a call gate.
    pub fn stack(&self) -> (stack: Option<StackRegion>)
        ensures
            stack == match self.persistent {
                Some(p) => Some(p.stack),
                None => None,
            },
    {
        match self.persistent {
            Some(p) => Some(p.stack),
            None => None,
        }
    }

    /// Exchanges this call gate with the context that a signal handler was
    /// given, whose saved stack pointer is `captured`.
    ///
    /// A gate that was never preempted hands control to its successor and
    /// becomes a handler checkpoint; a handler checkpoint hands control to
    /// what it captured and becomes an ordinary gate again. Either way the id
    /// that control returns through is retired, and with it the call gate's own.
    pub fn swap(&mut self, table: &mut IdTable, captured: usize) -> (exchange: Exchange)
        ensures
            exchange == old(self).swap_exchange(old(table)@),
            *final(self) == old(self).swapped(old(table)@, captured),
            final(table)@ == old(self).swapped_table(old(table)@),
            final(table).next_serial() == old(table).next_serial(),
            old(table).wf() ==> final(table).wf(),
            exchange != Exchange::Refused && old(self).wf() ==> !final(self).id.valid_in(
                final(table)@,
            ),
    {
        let persistent = match self.persistent {
            Some(p) => p,
            None => {
                return Exchange::Refused;
            },
        };
        let dest = if persistent.handler {
            self.id
        } else {
            if !persistent.successor.is_valid(table) {
                return Exchange::Refused;
            }
            persistent.successor
        };
        dest.invalidate(table);
        self.persistent = Some(
            Persistent {
                stack: persistent.stack,
                stack_ptr: captured,
                successor: persistent.successor,
                handler: !persistent.handler,
            },
        );
        if persistent.handler {
            Exchange::WithHandler
        } else {
            Exchange::ThroughSuccessor
        }
    }
}

impl Scope {
    /// Leaves the frame: its guard and every id minted after it expire.
    pub fn close(self, table: &mut IdTable)
        ensures
            final(table)@ == cut(old(table)@, self.guard.index() as int),
            final(table).next_serial() == old(table).next_serial(),
            old(table).wf() ==> final(table).wf(),
    {
        self.guard.invalidate(table);
    }
}

/// Checkpoints the current frame. The context is valid until it is closed
/// with [`Scope::close`] on its own id.
pub fn getcontext(table: &mut IdTable) -> (checkpoint: (Context, Scope))
    requires
        old(table).wf(),
        old(table).next_serial() < usize::MAX,
    ensures
        checkpoint.0.persistent.is_none(),
        checkpoint.0.id == checkpoint.1.guard,
        checkpoint.0.id.index() == old(table)@.len(),
        checkpoint.0.id.serial() == old(table).next_serial(),
        final(table)@ == old(table)@.push(old(table).next_serial()),
        final(table).next_serial() == old(table).next_serial() + 1,
        final(table).wf(),
{
    let id = Id::new(table);
    (Context { id, persistent: None }, Scope { guard: id })
}

/// Builds a call gate on `stack` whose successor is the current frame.
/// `entry_ptr` is the stack pointer that the call gate starts from.
pub fn makecontext(table: &mut IdTable, stack: StackRegion, entry_ptr: usize) -> (made: (
    Context,
    Scope,
))
    requires
        old(table).wf(),
        old(table).next_serial() < usize::MAX - 1,
    ensures
        made.0.persistent == Some(
            Persistent { stack, stack_ptr: entry_ptr, successor: made.1.guard, handler: false },
        ),
        made.1.guard.index() == old(table)@.len(),
        made.1.guard.serial() == old(table).next_serial(),
        made.0.id.index() == old(table)@.len() + 1,
        made.0.id.serial() == old(table).next_serial() + 1,
        final(table)@ == old(table)@.push(made.1.guard.serial()).push(made.0.id.serial()),
        final(table).next_serial() == old(table).next_serial() + 2,
        final(table).wf(),
        made.0.wf(),
        made.0.id.valid_in(final(table)@),
        made.1.guard.valid_in(final(table)@),
{
    let successor = Id::new(table);
    let id = Id::new(table);
    let gate = Context {
        id,
        persistent: Some(Persistent { stack, stack_ptr: entry_ptr, successor, handler: false }),
    };
    (gate, Scope { guard: successor })
}

/// Grafts a call gate onto the current frame. The call gate gets a fresh id and
/// the current frame as its successor; everything else it keeps.
///
/// A context that owns no stack, or whose saved stack pointer lies outside
/// its stack, is handed back unchanged.
pub fn restorecontext(persistent: Context, table: &mut IdTable) -> (restored: Result<
    (Context, Scope),
    Context,
>)
    requires
        old(table).wf(),
        old(table).next_serial() < usize::MAX - 1,
    ensures
        restored.is_ok() == persistent.restorable(),
        match restored {
            Ok((gate, scope)) => {
                &&& gate.persistent == Some(
                    Persistent { successor: scope.guard, ..persistent.persistent.unwrap() },
                )
                &&& scope.guard.index() == old(table)@.len()
                &&& scope.guard.serial() == old(table).next_serial()
                &&& gate.id.index() == old(table)@.len() + 1
                &&& gate.id.serial() == old(table).next_serial() + 1
                &&& final(table)@ == old(table)@.push(scope.guard.serial()).push(gate.id.serial())
                &&& final(table).next_serial() == old(table).next_serial() + 2
                &&& gate.wf()
                &&& gate.id.valid_in(final(table)@)
                &&& scope.guard.valid_in(final(table)@)
            },
            Err(given) => {
                &&& given == persistent
                &&& final(table)@ == old(table)@
                &&& final(table).next_serial() == old(table).next_serial()
            },
        },
        final(table).wf(),
{
    match persistent.persistent {
        Some(p) => {
            if !p.stack.contains(p.stack_ptr) {
                return Err(persistent);
            }
            let successor = Id::new(table);
            let id = Id::new(table);
            let gate = Context {
                id,
                persistent: Some(
                    Persistent {
                        stack: p.stack,
                        stack_ptr: p.stack_ptr,
                        successor,
                        handler: p.handler,
                    },
                ),
            };
            Ok((gate, Scope { guard: successor }))
        },
        None => Err(persistent),
    }
}

/// Checks that `continuation` may be transferred to as the kind asked for:
/// its id is valid and it is a handler checkpoint exactly if one is desired.
/// If so, every context created after it is retired; if not, the table stays
/// as it was.
pub fn validatecontext(continuation: &Context, table: &mut IdTable, handler_desired: bool) -> (ok:
    bool)
    ensures
        ok == continuation.accepts(old(table)@, handler_desired),
        final(table)@ == continuation.validated_table(old(table)@, handler_desired),
        final(table).next_serial() == old(table).next_serial(),
        old(table).wf() ==> final(table).wf(),
{
    if !continuation.id.is_valid(table) {
        return false;
    }
    if continuation.is_handler() != handler_desired {
        return false;
    }
    continuation.id.invalidate_subsequent(table);
    true
}

/// Decides a direct transfer to a checkpoint or call gate. An expired
/// context and a handler checkpoint are refused, and nothing changes.
pub fn setcontext(continuation: &Context, table: &mut IdTable) -> (transfer: Transfer)
    ensures
        transfer == continuation.set_outcome(old(table)@),
        final(table)@ == continuation.validated_table(old(table)@, false),
        final(table).next_serial() == old(table).next_serial(),
        old(table).wf() ==> final(table).wf(),
{
    if validatecontext(continuation, table, false) {
        Transfer::Jump
    } else {
        Transfer::Refused
    }
}

/// Decides a transfer to a context that was captured in a signal handler,
/// which is restored by raising the reserved signal. An expired context and
/// one that no handler captured are refused, and nothing changes.
pub fn sigsetcontext(continuation: &Context, table: &mut IdTable) -> (transfer: Transfer)
    ensures
        transfer == continuation.sigset_outcome(old(table)@),
        final(table)@ == continuation.validated_table(old(table)@, true),
        final(table).next_serial() == old(table).next_serial(),
        old(table).wf() ==> final(table).wf(),
{
    if validatecontext(continuation, table, true) {
        Transfer::Raise
    } else {
        Transfer::Refused
    }
}

/// Joins the two halves of a machine word that were passed as separate
/// 32-bit arguments.
pub fn combine(lower: u32, upper: u32) -> (word: u64)
    ensures
        word == lower as u64 | ((upper as u64) << 32),
        split_spec(word) == (lower, upper),
{
    let word: u64 = lower as u64 | ((upper as u64) << 32);
    assert(((lower as u64 | ((upper as u64) << 32)) & 0xffff_ffff) as u32 == lower
        && ((lower as u64 | ((upper as u64) << 32)) >> 32) as u32 == upper) by (bit_vector);
    word
}

pub open spec fn split_spec(word: u64) -> (u32, u32) {
    ((word & 0xffff_ffff) as u32, (word >> 32) as u32)
}

/// Splits a machine word into its lower and upper 32 bits.
pub fn split(word: u64) -> (halves: (u32, u32))
    ensures
        halves == split_spec(word),
        halves.0 as u64 | ((halves.1 as u64) << 32) == word,
{
    assert((((word & 0xffff_ffff) as u32) as u64 | ((((word >> 32) as u32) as u64) << 32))
        == word) by (bit_vector);
    ((word & 0xffff_ffff) as u32, (word >> 32) as u32)
}

/// A call gate never outlives its successor: cutting the table anywhere
/// keeps the successor valid wherever the call gate stays valid.
pub proof fn law_successor_outlives_gate_when_cut(ctx: Context, entries: Seq<usize>, from: int)
    requires
        ctx.wf(),
        ctx.successor_outlives(entries),
    ensures
        ctx.successor_outlives(cut(entries, from)),
{
}

/// Nor does minting revive a call gate without its successor: a gate that
/// was minted from the table keeps its successor at least as long as itself
/// when the table grows.
pub proof fn law_successor_outlives_gate_when_minting(
    ctx: Context,
    entries: Seq<usize>,
    next: usize,
)
    requires
        crate::id::ordered(entries, next),
        ctx.id.minted_before(next),
        ctx.successor_outlives(entries),
    ensures
        ctx.successor_outlives(entries.push(next)),
{
}

/// A transfer that went ahead retires, once its frame is left, every id in
/// the context's slot or a later one: after `setcontext` or `sigsetcontext`
/// accepted `ctx` and the scope guarded by `guard` closes, none of them is
/// valid.
pub proof fn law_transfer_retires_later_ids(
    ctx: Context,
    handler_desired: bool,
    guard: Id,
    entries: Seq<usize>,
    other: Id,
)
    requires
        ctx.accepts(entries, handler_desired),
        guard.index() <= ctx.id.index(),
        other.index() >= ctx.id.index(),
    ensures
        !other.valid_in(cut(ctx.validated_table(entries, handler_desired), guard.index() as int)),
{
}

/// Between its acceptance and the return, a transfer already retires every id
/// in a later slot than the context's own and keeps the context's.
pub proof fn law_validation_retires_descendants(
    ctx: Context,
    handler_desired: bool,
    entries: Seq<usize>,
    other: Id,
)
    requires
        ctx.accepts(entries, handler_desired),
        other.index() > ctx.id.index(),
    ensures
        !other.valid_in(ctx.validated_table(entries, handler_desired)),
        ctx.id.valid_in(ctx.validated_table(entries, handler_desired)),
{
}

/// A refused transfer costs nothing: every id is as valid after it as it was
/// before, whether the context had expired or was of the wrong kind.
pub proof fn law_refusal_retires_nothing(
    ctx: Context,
    handler_desired: bool,
    entries: Seq<usize>,
    other: Id,
)
    requires
        !ctx.accepts(entries, handler_desired),
    ensures
        ctx.validated_table(entries, handler_desired) == entries,
        other.valid_in(ctx.validated_table(entries, handler_desired)) == other.valid_in(entries),
{
}

/// One swap of a fresh gate with a valid successor turns it into a handler
/// checkpoint and retires its successor and its own id: no direct transfer is
/// accepted for it, whatever the table later holds in its slot is not it.
pub proof fn law_swap_makes_handler_checkpoint(ctx: Context, entries: Seq<usize>, captured: usize)
    requires
        ctx.wf(),
        ctx.persistent.is_some(),
        !ctx.is_handler_checkpoint(),
        ctx.persistent.unwrap().successor.valid_in(entries),
    ensures
        ctx.swap_exchange(entries) == Exchange::ThroughSuccessor,
        ctx.swapped(entries, captured).is_handler_checkpoint(),
        !ctx.persistent.unwrap().successor.valid_in(ctx.swapped_table(entries)),
        !ctx.id.valid_in(ctx.swapped_table(entries)),
        forall|later: Seq<usize>|
            ctx.swapped(entries, captured).set_outcome(later) == Transfer::Refused,
        forall|later: Seq<usize>|
            ctx.swapped(entries, captured).id.valid_in(later) ==> ctx.swapped(
                entries,
                captured,
            ).sigset_outcome(later) == Transfer::Raise,
{
}

/// A second swap flips a handler checkpoint back into an ordinary gate and
/// retires the id it was restored under.
pub proof fn law_second_swap_flips_back(
    ctx: Context,
    entries: Seq<usize>,
    later: Seq<usize>,
    first: usize,
    second: usize,
)
    requires
        ctx.persistent.is_some(),
        ctx.swap_exchange(entries) != Exchange::Refused,
        ctx.swapped(entries, first).swap_exchange(later) != Exchange::Refused,
    ensures
        ctx.swapped(entries, first).swapped(later, second).is_handler_checkpoint()
            == ctx.is_handler_checkpoint(),
        ctx.is_handler_checkpoint() ==> ctx.swapped(entries, first).swap_exchange(later)
            == Exchange::ThroughSuccessor,
        !ctx.is_handler_checkpoint() ==> ctx.swapped(entries, first).swap_exchange(later)
            == Exchange::WithHandler && !ctx.id.valid_in(
            ctx.swapped(entries, first).swapped_table(later),
        ),
{
}

/// A gate that a swap just filled from a register file on its own stack can
/// be restored; one that captured a stack pointer elsewhere cannot.
pub proof fn law_restorable_after_swap(ctx: Context, entries: Seq<usize>, captured: usize)
    requires
        ctx.persistent.is_some(),
        ctx.swap_exchange(entries) != Exchange::Refused,
    ensures
        ctx.swapped(entries, captured).restorable() == ctx.persistent.unwrap().stack.holds(
            captured,
        ),
{
}

} // verus!
