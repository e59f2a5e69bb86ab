//! Fixed-length sequence (de)serialization helpers for arbitrarily large
//! lengths.
//!
//! The heart of the crate is a streaming codec that turns an array of any
//! compile-time-known length `N` into a sequential stream of its elements and
//! back. Decoding fills the array one element at a time; the
//! [`PartiallyInitialized`] guard tracks how many slots already hold
//! constructed values, so that a decode that fails partway through releases
//! exactly the elements built so far and nothing else.

mod array;
mod codec;
mod guard;

pub use array::Array;
pub use codec::decode_from_items;
pub use codec::decoded;
pub use codec::encode_to_items;
pub use codec::feed;
pub use codec::lemma_round_trip;
pub use codec::lemma_short_stream_rejected;
pub use codec::LengthMismatch;
pub use guard::PartiallyInitialized;
