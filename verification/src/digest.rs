//! Digests: what the standard hashing traits hand out, and the non-zero
//! number that is kept for it.
use std::hash::{BuildHasher, BuildHasherDefault, Hash, Hasher};
use vstd::prelude::*;

verus! {

/// `std::hash::BuildHasherDefault`, the provider that makes a hasher of type
/// `H` by `H::default()`. It is carried around and never looked into.
#[verifier::external_type_specification]
#[verifier::external_body]
#[verifier::reject_recursive_types(H)]
pub struct ExBuildHasherDefault<H>(BuildHasherDefault<H>);

/// `Default::default` of `BuildHasherDefault`. Nothing is claimed of the
/// provider that it returns.
pub assume_specification<H>[ <BuildHasherDefault<H> as Default>::default ]() -> BuildHasherDefault<
    H,
>;

/// `BuildHasher::build_hasher`: a fresh hasher from the provider. Which
/// hasher comes back is up to the provider's implementation, so nothing is
/// claimed of it.
#[verifier::external_body]
pub(crate) fn fresh_hasher<BH: BuildHasher>(build_hasher: &BH) -> BH::Hasher {
    build_hasher.build_hasher()
}

/// `Hash::hash`: feeds `value` to `hasher`. What is fed, and whether the
/// call returns at all, is up to the implementation of `Hash` for `T`, so
/// nothing is claimed of the hasher afterwards.
#[verifier::external_body]
pub(crate) fn absorb<T: Hash, H: Hasher>(value: &T, hasher: &mut H) {
    value.hash(hasher);
}

/// `Hasher::finish`: the digest of what `hasher` was fed. Any `u64` may come
/// back, `0` included.
#[verifier::external_body]
pub(crate) fn finish<H: Hasher>(hasher: &H) -> u64 {
    hasher.finish()
}

/// `Hasher::write_u64`: feeds `digest` to `state`. Nothing is claimed of the
/// hasher afterwards.
#[verifier::external_body]
pub(crate) fn feed<H: Hasher>(state: &mut H, digest: u64) {
    state.write_u64(digest);
}

/// The number that is kept and handed on for the raw digest `raw`: `raw`
/// itself, but `1` in place of `0`, since `0` cannot be kept.
pub open spec fn nonzero_digest_of(raw: u64) -> u64 {
    if raw == 0 {
        1
    } else {
        raw
    }
}

/// Turns a raw digest into one that can be kept, by bumping `0` up to `1`.
pub fn nonzero_digest(raw: u64) -> (digest: u64)
    ensures
        digest == nonzero_digest_of(raw),
        digest != 0,
{
    if raw == 0 {
        1
    } else {
        raw
    }
}

/// Two raw digests are kept as the same number exactly when they are equal
/// or are `0` and `1`: bumping `0` up adds this one collision and no other.
pub proof fn lemma_nonzero_digest_collides(a: u64, b: u64)
    ensures
        nonzero_digest_of(a) == nonzero_digest_of(b) <==> (a == b || (a <= 1 && b <= 1)),
{
}

/// A raw digest that is not `0` is kept unchanged, and `0` is kept as `1`.
pub proof fn lemma_nonzero_digest_keeps(raw: u64)
    ensures
        nonzero_digest_of(raw) != 0,
        raw != 0 ==> nonzero_digest_of(raw) == raw,
        raw == 0 ==> nonzero_digest_of(raw) == 1,
        nonzero_digest_of(nonzero_digest_of(raw)) == nonzero_digest_of(raw),
{
}

} // verus!
