//! A registry of optional capabilities, filled while a context is put
//! together and only read afterwards.

use std::collections::HashMap;
use vstd::prelude::*;
use vstd::std_specs::hash::*;

verus! {

broadcast use vstd::std_specs::hash::group_hash_axioms;

/// The identity of a capability's type.
pub type TypeKey = u64;

/// Capabilities by the identity of their type, at most one of each.
pub struct Extensions<T> {
    slots: HashMap<TypeKey, T>,
}

impl<T> View for Extensions<T> {
    type V = Map<TypeKey, T>;

    closed spec fn view(&self) -> Map<TypeKey, T> {
        self.slots@
    }
}

impl<T> Extensions<T> {
    /// A registry that holds nothing.
    pub fn new() -> (registry: Self)
        ensures
            registry@ == Map::<TypeKey, T>::empty(),
    {
        Extensions { slots: HashMap::new() }
    }

    /// Registers `value` under `key`. A value registered under that key before
    /// is replaced and handed back.
    pub fn insert(&mut self, key: TypeKey, value: T) -> (previous: Option<T>)
        ensures
            final(self)@ == old(self)@.insert(key, value),
            match previous {
                Some(replaced) => old(self)@.contains_key(key) && replaced == old(self)@[key],
                None => !old(self)@.contains_key(key),
            },
    {
        self.slots.insert(key, value)
    }

    /// The capability registered under `key`, if there is one.
    pub fn get(&self, key: TypeKey) -> (found: Option<&T>)
        ensures
            match found {
                Some(value) => self@.contains_key(key) && *value == self@[key],
                None => !self@.contains_key(key),
            },
    {
        self.slots.get(&key)
    }

    /// How many capabilities are registered.
    pub fn len(&self) -> (count: usize)
        ensures
            count == self@.len(),
    {
        self.slots.len()
    }
}

/// Two capabilities registered in one registry under different keys are
/// both found again, each with the value it was registered with, and a key
/// that was never registered is still not found.
pub proof fn lemma_registered_values_are_found<T>(
    registry: Extensions<T>,
    first: TypeKey,
    first_value: T,
    second: TypeKey,
    second_value: T,
    other: TypeKey,
)
    requires
        first != second,
        other != first,
        other != second,
        !registry@.contains_key(other),
    ensures
        ({
            let filled = registry@.insert(first, first_value).insert(second, second_value);
            &&& filled.contains_key(first) && filled[first] == first_value
            &&& filled.contains_key(second) && filled[second] == second_value
            &&& !filled.contains_key(other)
        }),
{
}

} // verus!
