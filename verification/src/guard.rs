//! The partial-construction guard used while a fixed-length sequence is being
//! filled one element at a time.

use vstd::prelude::*;

verus! {

/// A buffer for building a `[T; N]` incrementally.
///
/// It holds the elements constructed so far, in index order. The
/// well-formedness invariant is that their number `k` never exceeds `N`:
/// slots `[0, k)` hold finished values, slots `[k, N)` do not exist yet and
/// are never read or released. Abandoning the guard before it is full drops
/// exactly the `k` elements it holds, once each; completing it transplants
/// the elements into an array without touching them again.
pub struct PartiallyInitialized<T, const N: usize> {
    elems: Vec<T>,
}

impl<T, const N: usize> View for PartiallyInitialized<T, N> {
    type V = Seq<T>;

    closed spec fn view(&self) -> Seq<T> {
        self.elems@
    }
}

impl<T, const N: usize> PartiallyInitialized<T, N> {
    /// Well-formedness: never more than `N` constructed elements.
    pub open spec fn wf(&self) -> bool {
        self@.len() <= N
    }

    /// An empty guard: no element constructed yet.
    pub fn new() -> (r: Self)
        ensures
            r@ == Seq::<T>::empty(),
            r.wf(),
    {
        PartiallyInitialized { elems: Vec::new() }
    }

    /// How many leading slots hold constructed elements.
    pub fn count(&self) -> (r: usize)
        ensures
            r == self@.len(),
    {
        self.elems.len()
    }

    /// Whether all `N` slots are filled.
    pub fn is_full(&self) -> (r: bool)
        ensures
            r <==> self@.len() == N,
    {
        self.elems.len() == N
    }

    /// Construct the next element: the value moves into the first free slot.
    pub fn push(&mut self, value: T)
        requires
            old(self)@.len() < N,
        ensures
            final(self)@ == old(self)@.push(value),
            final(self).wf(),
    {
        self.elems.push(value);
    }

    /// Transplant a full guard's elements into an array in one
    /// ownership-transferring move; no element is re-constructed or released
    /// on the way.
    pub fn into_array(self) -> (r: [T; N])
        requires
            self@.len() == N,
        ensures
            r@ == self@,
    {
        vec_into_array(self.elems)
    }
}

/// Relies on `TryFrom<Vec<T>> for [T; N]`: a vector of length exactly `N`
/// turns into an array of the same elements in the same order, moved, not
/// copied; only a length mismatch is refused, which the precondition rules
/// out.
#[verifier::external_body]
fn vec_into_array<T, const N: usize>(v: Vec<T>) -> (r: [T; N])
    requires
        v@.len() == N,
    ensures
        r@ == v@,
{
    v.try_into().ok().unwrap()
}

} // verus!
