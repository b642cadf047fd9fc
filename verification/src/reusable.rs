//! An object pool: items are taken from a free list, built on demand when the
//! list is empty, and put back when their user is done with them.

use vstd::prelude::*;

verus! {

/// Why a pool handed out nothing.
#[derive(Clone, Copy, Debug, PartialEq, Eq, Structural)]
pub enum PoolError {
    /// The free list is empty and the builder declined to make another item.
    Exhausted,
}

/// A free list together with the builder that makes new items.
pub struct Pool<T, F> {
    allocated: Vec<T>,
    builder: F,
}

/// An item on loan from a pool.
pub struct Reusable<T> {
    value: T,
}

/// The order in which the `before` items of a free list stand after `count`
/// items were borrowed from its end and returned in the order borrowed: those
/// that stayed keep their places, the borrowed ones follow, last one first.
pub open spec fn returned_order<T>(before: Seq<T>, count: int) -> Seq<T> {
    let n = before.len() as int;
    let m = if count < n {
        count
    } else {
        n
    };
    Seq::new(
        before.len(),
        |k: int|
            if k < n - m {
                before[k]
            } else {
                before[n - 1 - (k - (n - m))]
            },
    )
}

impl<T> Reusable<T> {
    pub closed spec fn view(&self) -> T {
        self.value
    }

    /// Wraps a value that is about to be handed to a pool.
    pub fn lend(value: T) -> (item: Reusable<T>)
        ensures
            item@ == value,
    {
        Reusable { value }
    }

    /// Takes the value out for good: it will not return to its pool.
    pub fn into_inner(self) -> (value: T)
        ensures
            value == self@,
    {
        self.value
    }

    /// Borrows from `pool` the item that was returned last, or a newly built
    /// one if the free list is empty.
    pub fn try_from<F: Fn() -> Option<T>>(pool: &mut Pool<T, F>) -> (lent: Result<
        Reusable<T>,
        PoolError,
    >)
        requires
            call_requires(old(pool).builder(), ()),
        ensures
            final(pool).builder() == old(pool).builder(),
            old(pool)@.len() > 0 ==> lent.is_ok() && lent.unwrap()@ == old(pool)@.last()
                && final(pool)@ == old(pool)@.drop_last(),
            old(pool)@.len() == 0 ==> final(pool)@ == old(pool)@ && match lent {
                Ok(item) => call_ensures(old(pool).builder(), (), Some(item@)),
                Err(e) => e == PoolError::Exhausted && call_ensures(
                    old(pool).builder(),
                    (),
                    None::<T>,
                ),
            },
    {
        match pool.allocated.pop() {
            Some(value) => Ok(Reusable { value }),
            None => {
                let made = (pool.builder)();
                match made {
                    Some(value) => Ok(Reusable { value }),
                    None => Err(PoolError::Exhausted),
                }
            },
        }
    }

    pub fn get(&self) -> (value: &T)
        ensures
            *value == self@,
    {
        &self.value
    }

    pub fn get_mut(&mut self) -> (value: &mut T)
        ensures
            *value == old(self)@,
            final(self)@ == *final(value),
    {
        &mut self.value
    }
}

impl<T, F: Fn() -> Option<T>> Pool<T, F> {
    /// The free list; its last item is the next to be handed out.
    pub closed spec fn view(&self) -> Seq<T> {
        self.allocated@
    }

    pub closed spec fn builder(&self) -> F {
        self.builder
    }

    pub fn new(builder: F) -> (pool: Self)
        ensures
            pool@ == Seq::<T>::empty(),
            pool.builder() == builder,
    {
        Pool { allocated: Vec::new(), builder }
    }

    /// Number of items on the free list.
    pub fn available(&self) -> (n: usize)
        ensures
            n == self@.len(),
    {
        self.allocated.len()
    }

    /// Takes an item back onto the free list.
    pub fn recycle(&mut self, item: Reusable<T>)
        ensures
            final(self)@ == old(self)@.push(item@),
            final(self).builder() == old(self).builder(),
    {
        self.allocated.push(item.value);
    }

    /// Borrows `count` items at once and returns them all, so that the free
    /// list holds at least `count` items if the builder made enough.
    ///
    /// The items that were on the list are taken from its end and come back in
    /// the order taken; the new ones follow. The builder is asked once for
    /// every item that the list could not supply, also after it has declined.
    pub fn prealloc(&mut self, count: usize) -> (done: Result<(), PoolError>)
        requires
            call_requires(old(self).builder(), ()),
        ensures
            final(self).builder() == old(self).builder(),
            old(self)@.len() <= final(self)@.len(),
            final(self)@.len() <= old(self)@.len() || final(self)@.len() <= count,
            done.is_ok() <==> final(self)@.len() >= count,
            done.is_err() ==> call_ensures(old(self).builder(), (), None::<T>),
            final(self)@.take(old(self)@.len() as int) == returned_order(
                old(self)@,
                count as int,
            ),
            forall|k: int|
                old(self)@.len() <= k < final(self)@.len() ==> call_ensures(
                    old(self).builder(),
                    (),
                    Some(#[trigger] final(self)@[k]),
                ),
    {
        let ghost before = self.allocated@;
        let ghost n = before.len() as int;
        let mut taken: Vec<T> = Vec::new();
        let mut failed = false;
        let mut i: usize = 0;
        while i < count
            invariant
                i <= count,
                self.builder == old(self).builder,
                call_requires(self.builder, ()),
                before == old(self)@,
                n == before.len(),
                i <= n ==> self.allocated@ == before.take(n - i) && taken@.len() == i && !failed,
                i > n ==> self.allocated@.len() == 0 && n <= taken@.len() <= i,
                failed <==> taken@.len() < i,
                failed ==> call_ensures(self.builder, (), None::<T>),
                forall|k: int| 0 <= k < n && k < taken@.len() ==> taken@[k] == before[n - 1 - k],
                forall|k: int|
                    n <= k < taken@.len() ==> call_ensures(
                        self.builder,
                        (),
                        Some(#[trigger] taken@[k]),
                    ),
            decreases count - i,
        {
            match self.allocated.pop() {
                Some(value) => {
                    taken.push(value);
                },
                None => {
                    let made = (self.builder)();
                    match made {
                        Some(value) => {
                            taken.push(value);
                        },
                        None => {
                            failed = true;
                        },
                    }
                },
            }
            i = i + 1;
        }
        let ghost kept = self.allocated@;
        let ghost lent = taken@;
        self.allocated.append(&mut taken);
        proof {
            assert(self.allocated@ == kept + lent);
            assert(self.allocated@.take(n) =~= returned_order(before, count as int));
            assert forall|k: int| n <= k < self.allocated@.len() implies call_ensures(
                self.builder,
                (),
                Some(#[trigger] self.allocated@[k]),
            ) by {
                assert(self.allocated@[k] == lent[k - kept.len()]);
            }
        }
        if failed {
            Err(PoolError::Exhausted)
        } else {
            Ok(())
        }
    }
}

} // verus!
