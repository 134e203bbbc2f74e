//! A wrapper that keeps the hash of the value it holds.
//!
//! For a type `T`, [`CachedHash<T>`](CachedHash) wraps a `T` and implements
//! `Hash` so that the digest of the value is computed once and then kept in
//! a single atomic word, until the value is reached mutably again. This pays
//! off where `T` is expensive to hash and is hashed often but changed rarely,
//! for example when it moves between several hash sets.
//!
//! The kept digest is dropped whenever the value is borrowed mutably through
//! the wrapper. A value whose hash can change behind a shared reference needs
//! [`CachedHash::invalidate_hash`] after each such change.
//!
//! What the atomic word holds at a given moment is not part of the logical
//! value of a wrapper: it can change behind a shared reference, and hashing
//! does change it. The contracts therefore speak of the wrapped value, of the
//! words and digests that are handed in and out, and of the encoding of the
//! word; see [`atomic`] and [`cachedhash`].
pub mod atomic;
pub mod cachedhash;
pub mod digest;

pub use atomic::AtomicOptionNonZeroU64;
pub use cachedhash::CachedHash;
