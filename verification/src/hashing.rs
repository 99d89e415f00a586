//! Hashing and encryption as capabilities that strategies bring along.

use vstd::prelude::*;

verus! {

/// A way to hash a text and to check a text against a hash.
pub trait Hashing {
    type Error;

    fn hash(&self, content: &str) -> Result<String, Self::Error>;

    fn verify(&self, content: &str, other: &str) -> Result<bool, Self::Error>;
}

/// Hashes `content` with `algs`.
pub fn hash<T: Hashing>(algs: T, content: &str) -> (r: Result<String, T::Error>)
    ensures
        call_ensures(T::hash, (&algs, content), r),
{
    algs.hash(content)
}

/// Checks `content` against the hash `other` with `algs`.
pub fn verify_hash<T: Hashing>(algs: T, content: &str, other: &str) -> (r: Result<bool, T::Error>)
    ensures
        call_ensures(T::verify, (&algs, content, other), r),
{
    algs.verify(content, other)
}

/// A way to seal a claim into a token and to open a token again.
pub trait Encryption {
    type Success;

    type Error;

    type Claim;

    fn encrypt(&self, claim: Self::Claim) -> Result<Self::Success, Self::Error>;

    fn decrypt<T>(&self, content: Self::Success, claim: Self::Claim) -> Result<T, Self::Error>;
}

} // verus!
