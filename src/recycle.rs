use vstd::prelude::*;

verus! {

/// A value that can be kept in a pool: it can be made fresh, and it can be
/// emptied in place without giving up the storage it has reserved.
pub trait Recycleable: Sized {
    /// The empty state that `new` produces and `reset` restores.
    spec fn is_reset(&self) -> bool;

    fn new() -> (r: Self)
        ensures
            r.is_reset(),
    ;

    /// Empties the value in place, keeping the storage it has reserved. A
    /// pool calls it while it puts a value back, from the handle's `drop`:
    /// an implementation must not panic.
    fn reset(&mut self)
        ensures
            final(self).is_reset(),
    ;
}

/// A recyclable value that can be filled in place from a source of type `S`.
///
/// The target must be empty on entry, as it is when it comes fresh or out of
/// a pool's stash: filling a value that already holds something is not what
/// this operation is for (for a string it would append).
pub trait InitializeWith<S>: Recycleable {
    /// The value holds what was made from `source`.
    spec fn is_initialized_from(&self, source: S) -> bool;

    fn initialize_with(&mut self, source: S)
        requires
            old(self).is_reset(),
        ensures
            final(self).is_initialized_from(source),
    ;
}

/// Relies on `String::clear`: the string is empty afterwards (its capacity is kept).
pub assume_specification[ String::clear ](s: &mut String)
    ensures
        final(s)@ == Seq::<char>::empty(),
;

/// Relies on `String::push_str`: the characters of `t` are appended to `s`.
pub assume_specification[ String::push_str ](s: &mut String, t: &str)
    ensures
        final(s)@ == old(s)@ + t@,
;

impl Recycleable for String {
    open spec fn is_reset(&self) -> bool {
        self@.len() == 0
    }

    fn new() -> (r: String) {
        String::new()
    }

    fn reset(&mut self) {
        self.clear();
    }
}

impl<T> Recycleable for Vec<T> {
    open spec fn is_reset(&self) -> bool {
        self@.len() == 0
    }

    fn new() -> (r: Vec<T>) {
        Vec::new()
    }

    fn reset(&mut self) {
        self.clear();
    }
}

impl<'a> InitializeWith<&'a str> for String {
    open spec fn is_initialized_from(&self, source: &'a str) -> bool {
        self@ == source@
    }

    fn initialize_with(&mut self, source: &'a str) {
        self.push_str(source);
        proof {
            assert(self@ =~= source@);
        }
    }
}

impl<'a> InitializeWith<&'a String> for String {
    open spec fn is_initialized_from(&self, source: &'a String) -> bool {
        self@ == source@
    }

    fn initialize_with(&mut self, source: &'a String) {
        self.push_str(source.as_str());
        proof {
            assert(self@ =~= source@);
        }
    }
}

impl InitializeWith<String> for String {
    open spec fn is_initialized_from(&self, source: String) -> bool {
        self@ == source@
    }

    fn initialize_with(&mut self, source: String) {
        self.push_str(source.as_str());
        proof {
            assert(self@ =~= source@);
        }
    }
}

} // verus!
