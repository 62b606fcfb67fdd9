//! The capability that the buffering adapter needs from a hash algorithm.
use crate::entropy::EntropyPool;
use crate::secret::SecretRef;
use vstd::prelude::*;

verus! {

/// The way a digest is parameterised: not at all, by a 64-bit seed, or by the
/// bytes of a secret.
pub enum Keying {
    Unkeyed,
    Seeded(u64),
    Keyed(Seq<u8>),
}

/// A hash algorithm of fixed digest width that can hash a complete input in
/// one call and can also absorb its input piece by piece.
///
/// The one-shot digest is the mathematical function [`digest_of`]. A
/// streaming value is modelled by its [`keying`] and by the bytes it has
/// [`absorbed`]; `finish` must return the one-shot digest of exactly those,
/// however the bytes were split over the calls of `write`.
///
/// [`digest_of`]: HashPrimitive::digest_of
/// [`keying`]: HashPrimitive::keying
/// [`absorbed`]: HashPrimitive::absorbed
pub trait HashPrimitive<'a>: Sized {
    type Digest;

    /// The digest of `data` under `keying`.
    spec fn digest_of(keying: Keying, data: Seq<u8>) -> Self::Digest;

    /// How this streaming value was keyed when it was made.
    spec fn keying(&self) -> Keying;

    /// All bytes written to this streaming value so far, in order.
    spec fn absorbed(&self) -> Seq<u8>;

    /// One-shot digest without seed or secret.
    fn hash(data: &[u8]) -> (digest: Self::Digest)
        ensures
            digest == Self::digest_of(Keying::Unkeyed, data@),
    ;

    /// One-shot digest under a seed.
    fn hash_with_seed(seed: u64, data: &[u8]) -> (digest: Self::Digest)
        ensures
            digest == Self::digest_of(Keying::Seeded(seed), data@),
    ;

    /// One-shot digest under a secret.
    fn hash_with_secret(secret: SecretRef<'_>, data: &[u8]) -> (digest: Self::Digest)
        ensures
            digest == Self::digest_of(Keying::Keyed(secret@), data@),
    ;

    /// A streaming value without seed or secret that has absorbed nothing.
    fn new() -> (fresh: Self)
        ensures
            fresh.keying() == Keying::Unkeyed,
            fresh.absorbed() == Seq::<u8>::empty(),
    ;

    /// A streaming value under a seed that has absorbed nothing.
    fn with_seed(seed: u64) -> (fresh: Self)
        ensures
            fresh.keying() == Keying::Seeded(seed),
            fresh.absorbed() == Seq::<u8>::empty(),
    ;

    /// A streaming value under a borrowed secret that has absorbed nothing.
    /// The value may keep the borrow for as long as it lives.
    fn with_secret(secret: SecretRef<'a>) -> (fresh: Self)
        ensures
            fresh.keying() == Keying::Keyed(secret@),
            fresh.absorbed() == Seq::<u8>::empty(),
    ;

    /// A streaming value under a copy of the pool's bytes that has absorbed
    /// nothing. The pool need not outlive the value.
    fn with_secret_copy(pool: &EntropyPool) -> (fresh: Self)
        ensures
            fresh.keying() == Keying::Keyed(pool@),
            fresh.absorbed() == Seq::<u8>::empty(),
    ;

    /// Absorbs `data` after everything absorbed before.
    fn write(&mut self, data: &[u8])
        ensures
            final(self).keying() == old(self).keying(),
            final(self).absorbed() == old(self).absorbed() + data@,
    ;

    /// The digest of everything absorbed so far. The value is not changed, so
    /// the call may be repeated and writing may go on afterwards.
    fn finish(&self) -> (digest: Self::Digest)
        ensures
            digest == Self::digest_of(self.keying(), self.absorbed()),
    ;

    /// An independent copy in the same state.
    fn fork(&self) -> (copy: Self)
        ensures
            copy.keying() == self.keying(),
            copy.absorbed() == self.absorbed(),
    ;
}

} // verus!
