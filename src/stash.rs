use vstd::prelude::*;

use crate::recycle::Recycleable;

verus! {

/// The idle values of a pool, kept as a stack: the value put back last is
/// the first handed out again.
pub struct Stash<T> {
    items: Vec<T>,
}

impl<T> View for Stash<T> {
    /// The idle values, from the bottom of the stack to its top.
    type V = Seq<T>;

    closed spec fn view(&self) -> Seq<T> {
        self.items@
    }
}

/// Taking from the idle values `before` hands out `r` and leaves `after`:
/// the top value when there is one, else a fresh value with nothing removed.
pub open spec fn takes<T: Recycleable>(before: Seq<T>, r: T, after: Seq<T>) -> bool {
    if before.len() > 0 {
        r == before.last() && after == before.drop_last()
    } else {
        r.is_reset() && after == before
    }
}

impl<T: Recycleable> Stash<T> {
    /// Every idle value is in the reset state.
    pub open spec fn all_reset(&self) -> bool {
        forall|i: int| 0 <= i < self@.len() ==> #[trigger] self@[i].is_reset()
    }

    /// A stash with no idle value.
    pub fn empty() -> (s: Stash<T>)
        ensures
            s@ == Seq::<T>::empty(),
            s.all_reset(),
    {
        Stash { items: Vec::new() }
    }

    /// A stash holding `size` freshly made values.
    pub fn with_size(size: u32) -> (s: Stash<T>)
        ensures
            s@.len() == size,
            s.all_reset(),
    {
        let mut items: Vec<T> = Vec::new();
        let mut i: u32 = 0;
        while i < size
            invariant
                i <= size,
                items@.len() == i,
                forall|j: int| 0 <= j < items@.len() ==> #[trigger] items@[j].is_reset(),
            decreases size - i,
        {
            items.push(T::new());
            i = i + 1;
        }
        Stash { items }
    }

    /// The number of idle values.
    pub fn len(&self) -> (r: usize)
        ensures
            r == self@.len(),
    {
        self.items.len()
    }

    /// Puts `value` on top of the stack.
    pub fn push(&mut self, value: T)
        ensures
            final(self)@ == old(self)@.push(value),
    {
        self.items.push(value);
    }

    /// Takes the value on top of the stack, or makes a fresh one when the
    /// stash is empty.
    pub fn take(&mut self) -> (r: T)
        ensures
            takes(old(self)@, r, final(self)@),
    {
        match self.items.pop() {
            Some(v) => v,
            None => T::new(),
        }
    }
}

/// Values put back in the order `a`, `b` are taken out again as `b`, then
/// `a`, and the stash is left as it was before.
pub proof fn lemma_last_in_first_out<T: Recycleable>(
    s: Seq<T>,
    a: T,
    b: T,
    x: T,
    mid: Seq<T>,
    y: T,
    end: Seq<T>,
)
    requires
        takes(s.push(a).push(b), x, mid),
        takes(mid, y, end),
    ensures
        x == b,
        y == a,
        end == s,
{
    assert(s.push(a).push(b).drop_last() =~= s.push(a));
    assert(s.push(a).drop_last() =~= s);
}

/// Taking `k` values one after another from a stash of `n` idle values, then
/// putting all `k` back, leaves as many idle values as the larger of `n` and
/// `k`: the ones that existed, and the fresh ones made when the stash ran dry.
/// In particular a stash that could serve every request ends where it began.
pub proof fn lemma_returns_restore_size<T: Recycleable>(states: Seq<Seq<T>>, taken: Seq<T>)
    requires
        states.len() == taken.len() + 1,
        forall|i: int| 0 <= i < taken.len() ==> takes(#[trigger] states[i], taken[i], states[i + 1]),
    ensures
        (states.last() + taken).len() == vstd::math::max(states[0].len() as int, taken.len() as int),
        taken.len() <= states[0].len() ==> (states.last() + taken).len() == states[0].len(),
{
    lemma_len_after_takes(states, taken, taken.len() as int);
}

/// After `i` takes from `n` idle values, `n - i` remain, or none.
proof fn lemma_len_after_takes<T: Recycleable>(states: Seq<Seq<T>>, taken: Seq<T>, i: int)
    requires
        states.len() == taken.len() + 1,
        forall|j: int| 0 <= j < taken.len() ==> takes(#[trigger] states[j], taken[j], states[j + 1]),
        0 <= i <= taken.len(),
    ensures
        states[i].len() == vstd::math::max(states[0].len() - i, 0),
    decreases i,
{
    if i > 0 {
        lemma_len_after_takes(states, taken, i - 1);
        assert(takes(states[i - 1], taken[i - 1], states[i]));
    }
}

} // verus!
