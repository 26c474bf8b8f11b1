use vstd::prelude::*;

verus! {

/// A value that can be handed through a function.
pub struct T {
    pub val: i32,
}

impl T {
    /// Hands `self` to `f` and returns what `f` gives back.
    pub fn applier<F>(self, f: F) -> (r: T)
        where
            F: Fn(T) -> T,
        requires
            f.requires((self,)),
        ensures
            f.ensures((self,), r),
    {
        f(self)
    }
}

} // verus!
