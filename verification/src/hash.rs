//! Hash-carrying wrappers.
//!
//! `LazyHash` pairs a value with a 128-bit hash slot, zero while no
//! hash has been computed; `ManuallyHash` pairs a value with a hash
//! supplied by its creator and compares by that hash alone, trusting
//! the creator to have fed everything relevant into it.

use vstd::prelude::*;

verus! {

/// A wrapper with a lazily computed hash; zero means not computed yet.
pub struct LazyHash<T> {
    hash: u128,
    value: T,
}

impl<T> LazyHash<T> {
    /// The hash slot.
    pub closed spec fn spec_hash(self) -> u128 {
        self.hash
    }

    /// The wrapped value.
    pub closed spec fn spec_value(self) -> T {
        self.value
    }

    /// Wraps an item without a pre-computed hash.
    pub fn new(value: T) -> (r: Self)
        ensures
            r.spec_hash() == 0,
            r.spec_value() == value,
    {
        LazyHash { hash: 0, value }
    }

    /// Wraps an item, reusing the hash slot of an existing wrapper —
    /// the caller asserts that the hash is right for the value.
    pub fn reuse<U>(value: T, existing: &LazyHash<U>) -> (r: Self)
        ensures
            r.spec_hash() == existing.spec_hash(),
            r.spec_value() == value,
    {
        LazyHash { hash: existing.hash, value }
    }

    /// Returns the wrapped value.
    pub fn into_inner(self) -> (r: T)
        ensures
            r == self.spec_value(),
    {
        self.value
    }

    /// The hash slot; zero if no hash has been computed yet.
    pub fn load_hash(&self) -> (r: u128)
        ensures
            r == self.spec_hash(),
    {
        self.hash
    }
}

/// A wrapper with a manually computed hash, for values that cannot be
/// hashed themselves; equality goes by the hash alone.
pub struct ManuallyHash<T> {
    hash: u128,
    value: T,
}

impl<T> ManuallyHash<T> {
    /// The supplied hash.
    pub closed spec fn spec_hash(self) -> u128 {
        self.hash
    }

    /// The wrapped value.
    pub closed spec fn spec_value(self) -> T {
        self.value
    }

    /// Wraps an item with a pre-computed hash, which must cover
    /// everything relevant to equality.
    pub fn new(value: T, hash: u128) -> (r: Self)
        ensures
            r.spec_hash() == hash,
            r.spec_value() == value,
    {
        ManuallyHash { hash, value }
    }

    /// Returns the wrapped value.
    pub fn into_inner(self) -> (r: T)
        ensures
            r == self.spec_value(),
    {
        self.value
    }

    /// Whether two wrappers count as equal: their hashes agree.
    pub fn same_hash(&self, other: &ManuallyHash<T>) -> (r: bool)
        ensures
            r == (self.spec_hash() == other.spec_hash()),
    {
        self.hash == other.hash
    }
}

} // verus!
