//! Generational ids: a per-thread table of serial numbers, and handles that
//! are valid exactly while their slot still holds the serial they were minted
//! with.

use vstd::prelude::*;

verus! {

/// The table of one thread: slot `i` holds the serial of the live id with
/// index `i`. Serials are handed out in increasing order and never reused.
pub struct IdTable {
    ids: Vec<usize>,
    serials: usize,
}

/// A handle into an [`IdTable`]: the slot it was given and the serial that the
/// slot held at that moment.
#[derive(Clone, Copy, Debug)]
pub struct Id {
    index: usize,
    serial: usize,
}

/// What remains of `entries` when every slot from `from` on is dropped.
pub open spec fn cut(entries: Seq<usize>, from: int) -> Seq<usize> {
    if 0 <= from < entries.len() {
        entries.take(from)
    } else {
        entries
    }
}

/// Serials grow strictly along the table and all lie below `next`.
pub open spec fn ordered(entries: Seq<usize>, next: usize) -> bool {
    &&& forall|i: int, j: int| 0 <= i < j < entries.len() ==> entries[i] < entries[j]
    &&& forall|i: int| 0 <= i < entries.len() ==> entries[i] < next
}

impl IdTable {
    /// The serials of the live slots, in slot order.
    pub closed spec fn view(&self) -> Seq<usize> {
        self.ids@
    }

    /// The serial that the next minted id receives.
    pub closed spec fn next_serial(&self) -> usize {
        self.serials
    }

    pub open spec fn wf(&self) -> bool {
        ordered(self@, self.next_serial())
    }

    pub fn new() -> (table: IdTable)
        ensures
            table@ == Seq::<usize>::empty(),
            table.next_serial() == 0,
            table.wf(),
    {
        IdTable { ids: Vec::new(), serials: 0 }
    }

    /// Number of live slots.
    pub fn len(&self) -> (n: usize)
        ensures
            n == self@.len(),
    {
        self.ids.len()
    }

    /// Whether `count` more ids can be minted without running out of serials.
    pub fn serials_left(&self, count: usize) -> (enough: bool)
        ensures
            enough == (self.next_serial() + count <= usize::MAX),
    {
        usize::MAX - self.serials >= count
    }

    /// Whether another id can be minted without running out of serials.
    pub fn can_mint(&self) -> (b: bool)
        ensures
            b == (self.next_serial() < usize::MAX),
    {
        self.serials < usize::MAX
    }
}

impl Id {
    pub closed spec fn index(&self) -> usize {
        self.index
    }

    pub closed spec fn serial(&self) -> usize {
        self.serial
    }

    /// The id's slot exists and still holds the id's serial.
    pub open spec fn valid_in(&self, entries: Seq<usize>) -> bool {
        self.index() < entries.len() && entries[self.index() as int] == self.serial()
    }

    /// The id was minted from a table whose serial counter has since reached
    /// `next`.
    pub open spec fn minted_before(&self, next: usize) -> bool {
        self.serial() < next
    }

    /// Mints a fresh id in the first free slot of `table`.
    pub fn new(table: &mut IdTable) -> (id: Id)
        requires
            old(table).wf(),
            old(table).next_serial() < usize::MAX,
        ensures
            id.index() == old(table)@.len(),
            id.serial() == old(table).next_serial(),
            final(table)@ == old(table)@.push(old(table).next_serial()),
            final(table).next_serial() == old(table).next_serial() + 1,
            final(table).wf(),
            id.valid_in(final(table)@),
    {
        let serial: usize = table.serials;
        let index: usize = table.ids.len();
        table.serials = serial + 1;
        table.ids.push(serial);
        Id { index, serial }
    }

    pub fn is_valid(&self, table: &IdTable) -> (valid: bool)
        ensures
            valid == self.valid_in(table@),
    {
        self.index < table.ids.len() && table.ids[self.index] == self.serial
    }

    /// Drops this id's slot and every later one.
    pub fn invalidate(&self, table: &mut IdTable)
        ensures
            final(table)@ == cut(old(table)@, self.index() as int),
            final(table).next_serial() == old(table).next_serial(),
            old(table).wf() ==> final(table).wf(),
    {
        table.ids.truncate(self.index);
    }

    /// Drops every slot after this id's own.
    pub fn invalidate_subsequent(&self, table: &mut IdTable)
        ensures
            final(table)@ == cut(old(table)@, self.index() + 1),
            final(table).next_serial() == old(table).next_serial(),
            old(table).wf() ==> final(table).wf(),
    {
        table.ids.truncate(self.index.saturating_add(1));
    }

    /// The slot number, for display and bookkeeping.
    pub fn slot(&self) -> (index: usize)
        ensures
            index == self.index(),
    {
        self.index
    }
}

/// Cutting a table at `from` invalidates every id whose slot is `from` or
/// later, whatever its serial.
pub proof fn law_cut_invalidates_later(entries: Seq<usize>, from: int, id: Id)
    requires
        0 <= from <= id.index(),
    ensures
        !id.valid_in(cut(entries, from)),
{
}

/// Cutting a table at `from` leaves the validity of every id in an earlier
/// slot as it was.
pub proof fn law_cut_keeps_earlier(entries: Seq<usize>, from: int, id: Id)
    requires
        id.index() < from,
    ensures
        id.valid_in(cut(entries, from)) == id.valid_in(entries),
{
}

/// Minting keeps every valid id valid, and never revives an id that was
/// minted earlier and has since been invalidated.
pub proof fn law_mint_preserves_validity(entries: Seq<usize>, next: usize, id: Id)
    requires
        ordered(entries, next),
        id.minted_before(next),
    ensures
        id.valid_in(entries.push(next)) == id.valid_in(entries),
{
}

/// Leaving a frame undoes what was done to the table inside it: if the table
/// began as `before`, grew, and was cut anywhere at or above the frame's own
/// slot, then cutting it at the frame's slot gives `before` again.
pub proof fn law_frames_are_bracketed(before: Seq<usize>, inside: Seq<usize>, from: int)
    requires
        before.len() <= inside.len(),
        inside.take(before.len() as int) == before,
        before.len() <= from,
    ensures
        cut(cut(inside, from), before.len() as int) == before,
{
    let once = cut(inside, from);
    assert(once.take(before.len() as int) =~= before);
    assert(cut(once, before.len() as int) =~= before);
}

/// Two ids that are valid in the same well-formed table and share a serial
/// are the same id.
pub proof fn law_valid_ids_are_unique(entries: Seq<usize>, next: usize, a: Id, b: Id)
    requires
        ordered(entries, next),
        a.valid_in(entries),
        b.valid_in(entries),
        a.serial() == b.serial(),
    ensures
        a.index() == b.index(),
{
    if a.index() < b.index() {
        assert(entries[a.index() as int] < entries[b.index() as int]);
    } else if b.index() < a.index() {
        assert(entries[b.index() as int] < entries[a.index() as int]);
    }
}

} // verus!
