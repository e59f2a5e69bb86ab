//! The streaming codec: a fixed-length sequence goes out one element at a
//! time in index order, and comes back the same way, with the
//! partial-construction guard protecting a decode that fails midway.
//!
//! The channel that carries the elements is the caller's: these functions
//! work on the plain element stream itself, and [`feed`] is the per-element
//! decision a caller-driven decode loop takes after each read.

use vstd::prelude::*;

use crate::array::Array;
use crate::guard::PartiallyInitialized;

verus! {

/// The error of a decode whose stream ran out before all elements arrived:
/// `index` is where the data stopped, `expected` the total the decoder was
/// promised.
#[derive(PartialEq, Eq, Structural, Clone, Copy, Debug)]
pub struct LengthMismatch {
    /// The index at which the stream ran out of elements.
    pub index: usize,
    /// The full element count the decoder expected.
    pub expected: usize,
}

/// What decoding an element stream yields: a stream carrying at least `n`
/// elements decodes to its first `n`, in order, and anything beyond them is
/// never requested; a shorter stream fails.
pub open spec fn decoded<T>(items: Seq<T>, n: nat) -> Option<Seq<T>> {
    if items.len() >= n {
        Some(items.take(n as int))
    } else {
        None
    }
}

/// One decode step, taken after each read from the channel: an element moves
/// into the next free slot of the guard; "no more elements" is the
/// length-mismatch failure, reported with the index where the data ran out,
/// and leaves the guard exactly as it was.
pub fn feed<T, const N: usize>(
    buf: &mut PartiallyInitialized<T, N>,
    item: Option<T>,
) -> (r: Result<(), LengthMismatch>)
    requires
        old(buf)@.len() < N,
    ensures
        item matches Some(v) ==> r is Ok && final(buf)@ == old(buf)@.push(v),
        item is None ==> (r matches Err(e) && e.index == old(buf)@.len() && e.expected == N
            && final(buf)@ == old(buf)@),
        final(buf).wf(),
{
    match item {
        Some(v) => {
            buf.push(v);
            Ok(())
        },
        None => Err(LengthMismatch { index: buf.count(), expected: N }),
    }
}

/// Decode a fixed-length sequence from a stream of elements, here an
/// in-memory queue handing over its values front to back.
///
/// Exactly the first `N` elements are consumed and become the array, in
/// order; trailing elements are never requested. If the stream runs out at
/// some index `i < N`, decoding fails with a length mismatch naming `i` and
/// `N`, and the guard releases exactly the `i` elements built so far.
pub fn decode_from_items<T, const N: usize>(items: Vec<T>) -> (r: Result<
    Array<T, N>,
    LengthMismatch,
>)
    ensures
        r is Ok <==> items@.len() >= N,
        r matches Ok(a) ==> decoded(items@, N as nat) == Some(a@),
        r matches Err(e) ==> e.index == items@.len() && e.expected == N,
{
    let ghost orig = items@;
    let mut src = items;
    let mut buf = PartiallyInitialized::<T, N>::new();
    while !buf.is_full()
        invariant
            orig == items@,
            buf.wf(),
            buf@.len() <= orig.len(),
            buf@ == orig.take(buf@.len() as int),
            src@ == orig.skip(buf@.len() as int),
        decreases N - buf@.len(),
    {
        let ghost k: int = buf@.len() as int;
        let item = if src.len() > 0 {
            Some(src.remove(0))
        } else {
            None
        };
        match feed(&mut buf, item) {
            Ok(_) => {
                proof {
                    assert(orig.skip(k).remove(0) =~= orig.skip(k + 1));
                    assert(orig.take(k).push(orig[k]) =~= orig.take(k + 1));
                }
            },
            Err(e) => {
                proof {
                    assert(orig.skip(k).len() == orig.len() - k);
                }
                return Err(e);
            },
        }
    }
    Ok(Array(buf.into_array()))
}

/// Encode a fixed-length sequence as a stream of its elements: each one is
/// handed out exactly once, in index order, with no buffering beyond the
/// element at hand.
pub fn encode_to_items<'a, T, const N: usize>(arr: &'a Array<T, N>) -> (r: Vec<&'a T>)
    ensures
        r@.len() == N,
        forall|i: int| 0 <= i < N ==> *(#[trigger] r@[i]) == arr@[i],
{
    let mut out: Vec<&'a T> = Vec::new();
    for i in 0..N
        invariant
            out@.len() == i,
            forall|j: int| 0 <= j < i ==> *(#[trigger] out@[j]) == arr@[j],
    {
        out.push(vstd::array::array_index_get(&arr.0, i));
    }
    out
}

/// Round trip: the encoder emits exactly the element sequence of a full
/// array, and decoding a stream equal to that sequence yields the very same
/// sequence back.
pub proof fn lemma_round_trip<T>(elems: Seq<T>, n: nat)
    requires
        elems.len() == n,
    ensures
        decoded(elems, n) == Some(elems),
{
    assert(elems.take(n as int) =~= elems);
}

/// Length fidelity: a stream holding fewer elements than the decoder
/// expects never decodes.
pub proof fn lemma_short_stream_rejected<T>(items: Seq<T>, n: nat)
    requires
        items.len() < n,
    ensures
        decoded(items, n) is None,
{
}

} // verus!
