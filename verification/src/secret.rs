//! Borrowed secrets whose length has been checked.
use crate::entropy::{EntropyPool, MIN_SECRET_SIZE};
use crate::error::HashError;
use vstd::prelude::*;

verus! {

/// A borrowed secret of at least [`MIN_SECRET_SIZE`] bytes.
///
/// The length is checked once, where the secret is handed in; whoever holds a
/// `SecretRef` may key a hash with it without checking again. The bytes stay
/// with their owner, who must outlive every value that holds the reference.
#[derive(Clone, Copy)]
pub struct SecretRef<'a> {
    bytes: &'a [u8],
}

impl<'a> View for SecretRef<'a> {
    type V = Seq<u8>;

    /// The secret's bytes.
    closed spec fn view(&self) -> Seq<u8> {
        self.bytes@
    }
}

impl<'a> SecretRef<'a> {
    #[verifier::type_invariant]
    spec fn long_enough(&self) -> bool {
        self.bytes@.len() >= MIN_SECRET_SIZE
    }

    /// Accepts `bytes` as a secret if they are long enough, and refuses them
    /// with [`HashError::InvalidSecretLength`] if not.
    pub fn new(bytes: &'a [u8]) -> (result: Result<SecretRef<'a>, HashError>)
        ensures
            bytes@.len() >= MIN_SECRET_SIZE ==> (result matches Ok(secret) && secret@ == bytes@),
            bytes@.len() < MIN_SECRET_SIZE ==> (result matches Err(error)
                && error == HashError::InvalidSecretLength),
    {
        if bytes.len() < MIN_SECRET_SIZE {
            Err(HashError::InvalidSecretLength)
        } else {
            Ok(SecretRef { bytes })
        }
    }

    /// The bytes of a pool, which always are a valid secret.
    pub fn of_pool(pool: &'a EntropyPool) -> (secret: SecretRef<'a>)
        ensures
            secret@ == pool@,
    {
        SecretRef { bytes: pool.entropy.as_slice() }
    }

    /// The secret's bytes, which are never fewer than [`MIN_SECRET_SIZE`].
    pub fn as_bytes(&self) -> (bytes: &'a [u8])
        ensures
            bytes@ == self@,
            bytes@.len() >= MIN_SECRET_SIZE,
    {
        proof {
            use_type_invariant(self);
        }
        self.bytes
    }
}

} // verus!
