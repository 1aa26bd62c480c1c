//! Maps keyed by 32-bit and 64-bit ids.

use std::collections::HashMap;
use vstd::prelude::*;

verus! {

broadcast use vstd::std_specs::hash::group_hash_axioms;

/// A map keyed by 32-bit ids.
#[derive(Debug)]
pub struct Efficient32BitHashTable<T> {
    inner: HashMap<u32, T>,
}

impl<T> View for Efficient32BitHashTable<T> {
    type V = Map<u32, T>;

    closed spec fn view(&self) -> Map<u32, T> {
        self.inner@
    }
}

impl<T> Default for Efficient32BitHashTable<T> {
    /// An empty table.
    fn default() -> (r: Self)
        ensures
            r@ == Map::<u32, T>::empty(),
    {
        Efficient32BitHashTable::new()
    }
}

impl<T> Efficient32BitHashTable<T> {
    /// An empty table.
    pub fn new() -> (r: Self)
        ensures
            r@ == Map::<u32, T>::empty(),
    {
        Efficient32BitHashTable { inner: HashMap::new() }
    }

    /// An empty table with room for `capacity` entries.
    pub fn with_capacity(capacity: usize) -> (r: Self)
        ensures
            r@ == Map::<u32, T>::empty(),
    {
        Efficient32BitHashTable { inner: HashMap::with_capacity(capacity) }
    }

    /// Stores `value` under `key`, replacing any earlier value.
    pub fn add(&mut self, key: u32, value: T)
        ensures
            final(self)@ == old(self)@.insert(key, value),
    {
        self.inner.insert(key, value);
    }

    /// The value stored under `key`.
    pub fn get(&self, key: u32) -> (r: Option<&T>)
        ensures
            match r {
                Some(v) => self@.contains_key(key) && *v == self@[key],
                None => !self@.contains_key(key),
            },
    {
        self.inner.get(&key)
    }

    /// Whether a value is stored under `key`.
    pub fn has(&self, key: u32) -> (r: bool)
        ensures
            r == self@.contains_key(key),
    {
        self.inner.contains_key(&key)
    }

    /// Number of stored keys.
    pub fn count(&self) -> (r: usize)
        ensures
            r == self@.len(),
    {
        self.inner.len()
    }
}

/// A map keyed by 64-bit ids.
#[derive(Debug)]
pub struct Efficient64BitHashTable<T> {
    inner: HashMap<u64, T>,
}

impl<T> View for Efficient64BitHashTable<T> {
    type V = Map<u64, T>;

    closed spec fn view(&self) -> Map<u64, T> {
        self.inner@
    }
}

impl<T> Default for Efficient64BitHashTable<T> {
    /// An empty table.
    fn default() -> (r: Self)
        ensures
            r@ == Map::<u64, T>::empty(),
    {
        Efficient64BitHashTable::new()
    }
}

impl<T> Efficient64BitHashTable<T> {
    /// An empty table.
    pub fn new() -> (r: Self)
        ensures
            r@ == Map::<u64, T>::empty(),
    {
        Efficient64BitHashTable { inner: HashMap::new() }
    }

    /// An empty table with room for `capacity` entries.
    pub fn with_capacity(capacity: usize) -> (r: Self)
        ensures
            r@ == Map::<u64, T>::empty(),
    {
        Efficient64BitHashTable { inner: HashMap::with_capacity(capacity) }
    }

    /// Stores `value` under `key`, replacing any earlier value.
    pub fn add(&mut self, key: u64, value: T)
        ensures
            final(self)@ == old(self)@.insert(key, value),
    {
        self.inner.insert(key, value);
    }

    /// The value stored under `key`.
    pub fn get(&self, key: u64) -> (r: Option<&T>)
        ensures
            match r {
                Some(v) => self@.contains_key(key) && *v == self@[key],
                None => !self@.contains_key(key),
            },
    {
        self.inner.get(&key)
    }

    /// Whether a value is stored under `key`.
    pub fn has(&self, key: u64) -> (r: bool)
        ensures
            r == self@.contains_key(key),
    {
        self.inner.contains_key(&key)
    }

    /// Number of stored keys.
    pub fn count(&self) -> (r: usize)
        ensures
            r == self@.len(),
    {
        self.inner.len()
    }
}

/// A read after an add gives back the added value under its key and what
/// was there before under every other key.
pub proof fn lemma_add_then_get<K, T>(table: Map<K, T>, key: K, value: T, other: K)
    ensures
        table.insert(key, value).contains_key(key),
        table.insert(key, value)[key] == value,
        other != key ==> table.insert(key, value).contains_key(other) == table.contains_key(other),
        other != key && table.contains_key(other) ==> table.insert(key, value)[other] == table[other],
{
}

} // verus!
