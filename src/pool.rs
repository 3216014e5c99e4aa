use vstd::prelude::*;

use crate::recycle::{InitializeWith, Recycleable};
use crate::stash::Stash;

verus! {

/// The stash of a pool, in a `RefCell` so that handles, which only share the
/// pool, can put their value back.
///
/// Every stash it holds has only reset values: it is made with such a stash,
/// and `replace` takes only such. The cell is never borrowed but inside
/// `replace`, which runs no code of the library's users while it holds the
/// borrow.
#[verifier::external_body]
#[verifier::reject_recursive_types(T)]
struct IdleStore<T> {
    stash: std::cell::RefCell<Stash<T>>,
}

impl<T: Recycleable> IdleStore<T> {
    /// Relies on `RefCell::new`, which stores `stash`.
    #[verifier::external_body]
    fn new(stash: Stash<T>) -> (r: IdleStore<T>)
        requires
            stash.all_reset(),
    {
        IdleStore { stash: std::cell::RefCell::new(stash) }
    }

    /// Relies on `RefCell::replace`: stores `stash` and hands back the stash
    /// stored before. It panics only while the cell is borrowed, and no
    /// borrow outlives a call of this function.
    #[verifier::external_body]
    fn replace(&self, stash: Stash<T>) -> (r: Stash<T>)
        requires
            stash.all_reset(),
        ensures
            r.all_reset(),
        opens_invariants none
        no_unwind
    {
        self.stash.replace(stash)
    }
}

/// A pool of reusable values of type `T`.
///
/// Every idle value is reset, so whatever comes out of the pool is empty.
/// How many values are idle is not part of the contracts: the stash is
/// shared with every live handle, and a shared cell is known only by what
/// holds of everything it stores. The stack discipline and its counts are
/// stated on `Stash`.
#[verifier::reject_recursive_types(T)]
pub struct Pool<T: Recycleable> {
    values: IdleStore<T>,
}

/// A value on loan from a pool. Dropping the handle resets the value and
/// puts it back into the pool's stash; `detach` keeps it instead.
#[verifier::reject_recursive_types(T)]
pub struct Recycled<'pool, T: Recycleable> {
    value: Option<T>,
    pool: &'pool Pool<T>,
}

impl<T: Recycleable> Pool<T> {
    /// A pool whose stash holds `size` freshly made values.
    pub fn with_size(size: u32) -> (p: Pool<T>) {
        let stash = Stash::with_size(size);
        Pool { values: IdleStore::new(stash) }
    }

    /// Takes an idle value out of the stash, or makes a fresh one when the
    /// stash is empty. The value comes without a handle: nothing returns it.
    pub fn detached(&self) -> (r: T)
        ensures
            r.is_reset(),
    {
        let mut stash = self.values.replace(Stash::empty());
        let r = stash.take();
        self.values.replace(stash);
        r
    }

    /// Wraps `value`, made elsewhere, in a handle bound to this pool: when
    /// the handle is dropped the value joins this pool's stash.
    pub fn attach<'pool>(&'pool self, value: T) -> (r: Recycled<'pool, T>)
        ensures
            r.value() == value,
            r.pool() == *self,
            r.wf(),
    {
        Recycled::new(self, value)
    }

    /// Hands out an idle value, or a fresh one, in a handle bound to this pool.
    pub fn new<'pool>(&'pool self) -> (r: Recycled<'pool, T>)
        ensures
            r.value().is_reset(),
            r.pool() == *self,
            r.wf(),
    {
        let value = self.detached();
        Recycled::new(self, value)
    }

    /// As `new`, with the value filled from `source` before it is handed out.
    pub fn new_from<'pool, S>(&'pool self, source: S) -> (r: Recycled<'pool, T>)
        where
            T: InitializeWith<S>,
        ensures
            r.value().is_initialized_from(source),
            r.pool() == *self,
            r.wf(),
    {
        let value = self.detached();
        Recycled::new_from(self, value, source)
    }

    /// The number of idle values in the stash.
    pub fn size(&self) -> usize {
        let stash = self.values.replace(Stash::empty());
        let n = stash.len();
        self.values.replace(stash);
        n
    }

    /// Resets `value` and puts it on top of the stash, where the next
    /// acquisition finds it first.
    fn recycle(&self, value: T) {
        let mut value = value;
        value.reset();
        let mut stash = self.values.replace(Stash::empty());
        stash.push(value);
        self.values.replace(stash);
    }
}

impl<'pool, T: Recycleable> Recycled<'pool, T> {
    /// The handle still holds its value: it has been neither dropped nor detached.
    pub closed spec fn wf(&self) -> bool {
        self.value is Some
    }

    /// The value on loan.
    pub closed spec fn value(&self) -> T {
        self.value->Some_0
    }

    /// The pool that the value goes back to.
    pub closed spec fn pool(&self) -> Pool<T> {
        *self.pool
    }

    /// Wraps `value` in a handle bound to `pool`.
    pub fn new(pool: &'pool Pool<T>, value: T) -> (r: Recycled<'pool, T>)
        ensures
            r.wf(),
            r.value() == value,
            r.pool() == *pool,
    {
        Recycled { value: Some(value), pool }
    }

    /// Fills the empty `value` from `source`, then wraps it in a handle bound to `pool`.
    pub fn new_from<S>(pool: &'pool Pool<T>, value: T, source: S) -> (r: Recycled<'pool, T>)
        where
            T: InitializeWith<S>,
        requires
            value.is_reset(),
        ensures
            r.wf(),
            r.value().is_initialized_from(source),
            r.pool() == *pool,
    {
        let mut value = value;
        value.initialize_with(source);
        Recycled { value: Some(value), pool }
    }

    /// Moves the contents of the slot out, leaving it empty.
    fn take_slot(&mut self) -> (r: Option<T>)
        ensures
            r == old(self).value,
            final(self).value is None,
            final(self).pool == old(self).pool,
    {
        let mut slot: Option<T> = None;
        core::mem::swap(&mut self.value, &mut slot);
        slot
    }

    /// Reads the value on loan.
    pub fn as_ref(&self) -> (r: &T)
        requires
            self.wf(),
        ensures
            *r == self.value(),
    {
        self.value.as_ref().unwrap()
    }

    /// Gives mutable access to the value on loan: what is done through the
    /// reference is done to the value the handle holds.
    pub fn as_mut(&mut self) -> (r: &mut T)
        requires
            old(self).wf(),
        ensures
            *r == old(self).value(),
            final(self).wf(),
            final(self).value() == *final(r),
            final(self).pool() == old(self).pool(),
    {
        self.value.as_mut().unwrap()
    }

    /// Takes the value out of the handle for good: it is not reset and does
    /// not go back to the pool.
    pub fn detach(self) -> (r: T)
        requires
            self.wf(),
        ensures
            r == self.value(),
    {
        let mut this = self;
        this.take_slot().unwrap()
    }

    /// What dropping the handle does: a handle that still holds its value
    /// resets it and puts it back into its pool, and is left empty.
    fn give_back(&mut self)
        ensures
            !final(self).wf(),
    {
        if let Some(value) = self.take_slot() {
            self.pool.recycle(value);
        }
    }
}

impl<'pool, T: Recycleable> Drop for Recycled<'pool, T> {
    /// Verus holds `drop` to opening no invariant and to not unwinding, and
    /// vstd states neither of `Vec::new`, `Vec::push` and `Vec::clear`, which
    /// `give_back` reaches through `Stash` and `Recycleable::reset`; so the
    /// work is done in the verified `give_back`. Neither it nor anything it
    /// calls opens an invariant (the stash's cell is a `RefCell`), and it
    /// unwinds only where `Recycleable::reset`, which must not fail, would.
    #[verifier::external_body]
    fn drop(&mut self)
        opens_invariants none
        no_unwind
    {
        self.give_back();
    }
}

} // verus!
