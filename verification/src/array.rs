//! A transparent newtype around `[T; N]` for embedding large fixed-length
//! sequences in other record types.

use vstd::prelude::*;

use crate::guard::PartiallyInitialized;

verus! {

/// An array newtype usable for nested structures.
///
/// `Array<T, N>` holds exactly `N` elements of `T` and owns them outright.
/// Its view is the sequence of its elements in index order, which is also
/// exactly what the streaming codec writes and reads.
#[derive(PartialEq, Eq, PartialOrd, Ord, Hash, Copy, Clone, Debug)]
pub struct Array<T, const N: usize>(pub [T; N]);

impl<T, const N: usize> View for Array<T, N> {
    type V = Seq<T>;

    open spec fn view(&self) -> Seq<T> {
        self.0@
    }
}

impl<T: Default, const N: usize> Default for Array<T, N> {
    /// Default-construction goes element by element through the
    /// partial-construction guard, exactly like a decode with "produce a
    /// default value" in place of "read the next element": a default
    /// constructor that aborts midway leaves the already-built elements to be
    /// released by the guard, once each.
    fn default() -> (r: Self)
        ensures
            r@.len() == N,
            forall|i: int| 0 <= i < N ==> call_ensures(T::default, (), #[trigger] r@[i]),
    {
        let mut buf = PartiallyInitialized::<T, N>::new();
        while !buf.is_full()
            invariant
                buf.wf(),
                forall|i: int| 0 <= i < buf@.len() ==> call_ensures(T::default, (), #[trigger] buf@[i]),
            decreases N - buf@.len(),
        {
            buf.push(T::default());
        }
        Array(buf.into_array())
    }
}

} // verus!
