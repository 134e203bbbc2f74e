//! An optional non-zero `u64` in one atomic word.
//!
//! The word `0` stands for "nothing stored"; every other word stands for
//! itself. All accesses are relaxed loads and stores: the slot can be read
//! and written through a shared reference, by any number of holders, and the
//! last store wins.
use std::sync::atomic::AtomicU64;
use vstd::prelude::*;

verus! {

/// Whether `value` can be kept in a slot: a stored number is never `0`,
/// because the word `0` already means that nothing is stored.
pub open spec fn storable(value: Option<u64>) -> bool {
    value matches Some(v) ==> v != 0
}

/// The word that stands for `value`.
pub open spec fn word_of(value: Option<u64>) -> u64 {
    match value {
        None => 0,
        Some(v) => v,
    }
}

/// What the word `word` stands for.
pub open spec fn value_of(word: u64) -> Option<u64> {
    if word == 0 {
        None
    } else {
        Some(word)
    }
}

/// Encodes an optional non-zero number as the word that a slot keeps for it.
pub fn encode(value: Option<u64>) -> (word: u64)
    requires
        storable(value),
    ensures
        word == word_of(value),
        word == 0 <==> value is None,
{
    match value {
        None => 0,
        Some(v) => v,
    }
}

/// Decodes the word that a slot keeps.
pub fn decode(word: u64) -> (value: Option<u64>)
    ensures
        value == value_of(word),
        storable(value),
        value is None <==> word == 0,
{
    if word == 0 {
        None
    } else {
        Some(word)
    }
}

/// Decoding undoes encoding: a storable value is read back as it was
/// written, so a stored number is never mistaken for an empty slot.
pub proof fn lemma_value_of_word_of(value: Option<u64>)
    requires
        storable(value),
    ensures
        value_of(word_of(value)) == value,
{
}

/// Encoding undoes decoding: every word stands for exactly one storable
/// value, and no word but `0` is treated specially.
pub proof fn lemma_word_of_value_of(word: u64)
    ensures
        storable(value_of(word)),
        word_of(value_of(word)) == word,
        value_of(word) is None <==> word == 0,
{
}

/// Think of this as an `Option` of a non-zero `u64`, but atomic.
///
/// The contents are shared state: a holder of a shared reference may store at
/// any time, so a load is only known to yield a storable value.
#[derive(Debug)]
pub struct AtomicOptionNonZeroU64 {
    word: AtomicU64,
}

impl AtomicOptionNonZeroU64 {
    /// A slot that holds nothing.
    pub fn new_none() -> (slot: Self) {
        Self { word: AtomicU64::new(0) }
    }

    /// A slot that holds `value`.
    pub fn new_some(value: u64) -> (slot: Self)
        requires
            value != 0,
    {
        Self { word: AtomicU64::new(encode(Some(value))) }
    }

    /// Loads the slot: `None` if it holds nothing, else the number it holds,
    /// which is never `0`.
    #[inline]
    pub fn get(&self) -> (value: Option<u64>)
        ensures
            storable(value),
    {
        decode(self.word.load(std::sync::atomic::Ordering::Relaxed))
    }

    /// Loads the slot, as [`get`](Self::get) does.
    #[inline]
    pub fn get_raw(&self) -> (value: Option<u64>)
        ensures
            storable(value),
    {
        decode(self.word.load(std::sync::atomic::Ordering::Relaxed))
    }

    /// Stores `value`; `None` empties the slot.
    #[inline]
    pub fn set(&self, value: Option<u64>)
        requires
            storable(value),
    {
        self.word.store(encode(value), std::sync::atomic::Ordering::Relaxed);
    }
}

impl Default for AtomicOptionNonZeroU64 {
    fn default() -> (slot: Self) {
        Self::new_none()
    }
}

impl Clone for AtomicOptionNonZeroU64 {
    /// A new, independent slot that starts with what this one held at the
    /// moment of the load.
    fn clone(&self) -> (slot: Self) {
        Self { word: AtomicU64::new(self.word.load(std::sync::atomic::Ordering::Relaxed)) }
    }
}

} // verus!
