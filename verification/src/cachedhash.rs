use crate::atomic::{storable, AtomicOptionNonZeroU64};
use crate::digest::{absorb, feed, finish, fresh_hasher, nonzero_digest};
use std::collections::hash_map::DefaultHasher;
use std::hash::{BuildHasher, BuildHasherDefault, Hash, Hasher};
use std::ops::{Deref, DerefMut};
use vstd::prelude::*;
use vstd::std_specs::cmp::PartialEqSpec;

verus! {

/// For a type `T`, `CachedHash` wraps a `T` and implements `Hash` in a way
/// that keeps the digest of the value. The first time the wrapper is hashed,
/// the digest is computed and stored; later calls hand the stored digest on.
/// When the value is borrowed mutably, the stored digest is dropped and the
/// next call computes it again. `CachedHash` implements `Deref` and
/// `DerefMut`, so it can stand where a `T` stood.
///
/// For the stored digest to be dropped when it should, `T` must not change
/// its hash behind a shared reference. Where it does, call
/// [`CachedHash::invalidate_hash`] after each such change.
///
/// The digest is computed with `DefaultHasher` unless another hasher is given
/// to [`CachedHash::new_with_hasher`], or another provider of hashers to
/// [`CachedHash::new_with_build_hasher`].
///
/// The hash of a value and the hash of the same value inside a `CachedHash`
/// are in general different.
#[derive(Debug)]
pub struct CachedHash<T: Eq + Hash, BH: BuildHasher = BuildHasherDefault<DefaultHasher>> {
    value: T,
    hash: AtomicOptionNonZeroU64,
    build_hasher: BH,
}

impl<T: Eq + Hash, BH: BuildHasher> View for CachedHash<T, BH> {
    type V = T;

    /// The wrapped value.
    closed spec fn view(&self) -> T {
        self.value
    }
}

impl<T: Eq + Hash> CachedHash<T> {
    /// Wraps `value`, with `DefaultHasher` to compute its digest. Nothing is
    /// computed yet.
    pub fn new(value: T) -> (wrapped: Self)
        ensures
            wrapped@ == value,
    {
        Self::new_with_hasher(value)
    }
}

impl<T: Eq + Hash, H: Hasher + Default> CachedHash<T, BuildHasherDefault<H>> {
    /// Wraps `value`, with a hasher of type `H` to compute its digest.
    pub fn new_with_hasher(value: T) -> (wrapped: Self)
        ensures
            wrapped@ == value,
    {
        Self::new_with_build_hasher(value, BuildHasherDefault::default())
    }
}

impl<T: Eq + Hash, BH: BuildHasher> CachedHash<T, BH> {
    /// The provider of hashers that the wrapper was made with.
    pub closed spec fn provider(&self) -> BH {
        self.build_hasher
    }

    /// Wraps `value`, with the hashers that `build_hasher` makes to compute
    /// its digest. The provider is stored in the wrapper.
    pub fn new_with_build_hasher(value: T, build_hasher: BH) -> (wrapped: Self)
        ensures
            wrapped@ == value,
            wrapped.provider() == build_hasher,
    {
        Self { value, hash: AtomicOptionNonZeroU64::new_none(), build_hasher }
    }

    /// Drops the stored digest, so that the next hashing computes it again.
    /// The value and the provider stay as they are.
    #[inline]
    pub fn invalidate_hash(this: &mut Self)
        ensures
            final(this)@ == old(this)@,
            final(this).provider() == old(this).provider(),
    {
        this.hash.set(None);
    }

    /// Takes the wrapper apart and returns the value.
    #[inline]
    #[must_use]
    pub fn take_value(this: Self) -> (value: T)
        ensures
            value == this@,
    {
        this.value
    }

    /// A shared reference to the value. The stored digest is left alone.
    #[inline]
    #[must_use]
    pub fn get(this: &Self) -> (value: &T)
        ensures
            *value == this@,
    {
        &this.value
    }

    /// A mutable reference to the value. The stored digest is dropped first,
    /// whether or not the caller then changes anything.
    #[inline]
    #[must_use]
    pub fn get_mut(this: &mut Self) -> (value: &mut T)
        ensures
            *value == old(this)@,
            final(this)@ == *final(value),
            final(this).provider() == old(this).provider(),
    {
        Self::invalidate_hash(this);
        &mut this.value
    }

    /// The digest that is stored at the moment, if any.
    #[inline]
    pub fn cached_hash(this: &Self) -> (digest: Option<u64>)
        ensures
            storable(digest),
    {
        this.hash.get_raw()
    }

    /// The digest that hashing the wrapper feeds to the caller's hasher: the
    /// stored one if there is one, else a newly computed one, which is then
    /// stored. It is never `0`.
    ///
    /// Which number comes back rests on what the slot holds at the moment
    /// and, where it holds nothing, on what `T`'s implementation of `Hash`
    /// and the provider's hasher make of the value.
    pub fn hash_value(this: &Self) -> (digest: u64)
        ensures
            digest != 0,
    {
        Self::hash_value_after(this, this.hash.get_raw())
    }

    /// Finishes a hashing call that found `found` in the slot. A digest that
    /// was found is handed on as it is, and neither the value nor the
    /// provider is touched. Where none was found, the value is fed to a fresh
    /// hasher of the provider, `0` is bumped up to `1`, and the outcome is
    /// stored and handed on.
    fn hash_value_after(this: &Self, found: Option<u64>) -> (digest: u64)
        requires
            storable(found),
        ensures
            found matches Some(kept) ==> digest == kept,
            digest != 0,
    {
        if let Some(kept) = found {
            kept
        } else {
            let mut hasher = fresh_hasher(&this.build_hasher);
            absorb(&this.value, &mut hasher);
            let digest = nonzero_digest(finish(&hasher));
            this.hash.set(Some(digest));
            digest
        }
    }
}

impl<T: Eq + Hash, BH: BuildHasher> PartialEq for CachedHash<T, BH> {
    fn eq(&self, other: &Self) -> (equal: bool) {
        self.value == other.value
    }
}

impl<T: Eq + Hash, BH: BuildHasher> vstd::std_specs::cmp::PartialEqSpecImpl for CachedHash<T, BH> {
    open spec fn obeys_eq_spec() -> bool {
        T::obeys_eq_spec()
    }

    open spec fn eq_spec(&self, other: &Self) -> bool {
        self@.eq_spec(&other@)
    }
}

impl<T: Eq + Hash, BH: BuildHasher> Eq for CachedHash<T, BH> {

}

/// Two wrappers are equal exactly when the values they hold are: the stored
/// digests and the providers take no part, so a wrapper that has been hashed
/// equals one that has not, if their values are equal.
pub proof fn lemma_eq_is_value_eq<T: Eq + Hash, BH: BuildHasher>(
    a: &CachedHash<T, BH>,
    b: &CachedHash<T, BH>,
    c: &CachedHash<T, BH>,
    d: &CachedHash<T, BH>,
)
    requires
        a@ == c@,
        b@ == d@,
    ensures
        a.eq_spec(b) == a@.eq_spec(&b@),
        a.eq_spec(b) == c.eq_spec(d),
{
}

impl<T: Eq + Hash, BH: BuildHasher> Hash for CachedHash<T, BH> {
    fn hash<H2: Hasher>(&self, state: &mut H2) {
        let digest = Self::hash_value(self);
        feed(state, digest);
    }
}

impl<T: Eq + Hash, BH: BuildHasher> AsMut<T> for CachedHash<T, BH> {
    fn as_mut(&mut self) -> (value: &mut T)
        ensures
            *value == old(self)@,
            final(self)@ == *final(value),
            final(self).provider() == old(self).provider(),
    {
        Self::get_mut(self)
    }
}

impl<T: Eq + Hash, BH: BuildHasher> AsRef<T> for CachedHash<T, BH> {
    fn as_ref(&self) -> (value: &T)
        ensures
            *value == self@,
    {
        Self::get(self)
    }
}

impl<T: Eq + Hash, BH: BuildHasher> std::borrow::BorrowMut<T> for CachedHash<T, BH> {
    fn borrow_mut(&mut self) -> &mut T {
        Self::get_mut(self)
    }
}

impl<T: Eq + Hash, BH: BuildHasher> std::borrow::Borrow<T> for CachedHash<T, BH> {
    fn borrow(&self) -> &T
        returns
            &self@,
    {
        Self::get(self)
    }
}

impl<T: Eq + Hash, BH: BuildHasher> Deref for CachedHash<T, BH> {
    type Target = T;

    #[inline]
    fn deref(&self) -> (value: &T)
        ensures
            *value == self@,
    {
        Self::get(self)
    }
}

impl<T: Eq + Hash, BH: BuildHasher> DerefMut for CachedHash<T, BH> {
    #[inline]
    fn deref_mut(&mut self) -> (value: &mut T)
        ensures
            *value == old(self)@,
            final(self)@ == *final(value),
            final(self).provider() == old(self).provider(),
    {
        Self::get_mut(self)
    }
}

impl<T: Eq + Hash, H: Hasher + Default> From<T> for CachedHash<T, BuildHasherDefault<H>> {
    fn from(value: T) -> (wrapped: Self)
        ensures
            wrapped@ == value,
    {
        Self::new_with_hasher(value)
    }
}

impl<T: Eq + Hash, H: Hasher + Default> vstd::std_specs::convert::FromSpecImpl<T> for CachedHash<T, BuildHasherDefault<H>> {
    open spec fn obeys_from_spec() -> bool {
        false
    }

    open spec fn from_spec(value: T) -> Self {
        arbitrary()
    }
}

impl<T: Eq + Hash + Clone, BH: BuildHasher + Clone> Clone for CachedHash<T, BH> {
    fn clone(&self) -> (copy: Self)
        ensures
            cloned(self@, copy@),
            cloned(self.provider(), copy.provider()),
    {
        Self {
            value: self.value.clone(),
            hash: self.hash.clone(),
            build_hasher: self.build_hasher.clone(),
        }
    }
}

} // verus!
