//! A shared-ownership holder for a value that is injected at execution time.

use std::sync::Arc;
use vstd::prelude::*;

verus! {

/// A dependency: one value behind a reference-counted handle.
pub struct Dep<T> {
    value: Arc<T>,
}

impl<T> View for Dep<T> {
    type V = T;

    /// The value that the dependency holds.
    closed spec fn view(&self) -> T {
        *self.value
    }
}

impl<T> Dep<T> {
    /// The dependency that holds `value`.
    pub closed spec fn holding(value: T) -> Self {
        Dep { value: Arc::new(value) }
    }

    /// What `holding` holds: the dependency that holds `value` has `value`
    /// as its view.
    pub proof fn lemma_holding(value: T)
        ensures
            Self::holding(value)@ == value,
    {
    }

    /// Wraps `value` in fresh shared ownership.
    pub fn new(value: T) -> (dep: Self)
        ensures
            dep@ == value,
            dep == Self::holding(value),
    {
        Self { value: Arc::new(value) }
    }

    /// A new handle to the shared value.
    pub fn get(&self) -> (handle: Arc<T>)
        ensures
            *handle == self@,
    {
        self.value.clone()
    }

    /// A read-only alias of the held value.
    pub fn inner(&self) -> (value: &T)
        ensures
            *value == self@,
    {
        &self.value
    }
}

impl<T> From<Arc<T>> for Dep<T> {
    /// Adopts an existing handle without copying the value.
    fn from(value: Arc<T>) -> (dep: Self)
        ensures
            dep@ == *value,
    {
        Self { value }
    }
}

impl<T> vstd::std_specs::convert::FromSpecImpl<Arc<T>> for Dep<T> {
    open spec fn obeys_from_spec() -> bool {
        true
    }

    open spec fn from_spec(v: Arc<T>) -> Self {
        Dep::holding(*v)
    }
}

impl<T> From<T> for Dep<T> {
    /// Wraps a bare value, as `new` does.
    fn from(value: T) -> (dep: Self)
        ensures
            dep@ == value,
    {
        Self::new(value)
    }
}

impl<T> vstd::std_specs::convert::FromSpecImpl<T> for Dep<T> {
    open spec fn obeys_from_spec() -> bool {
        true
    }

    open spec fn from_spec(v: T) -> Self {
        Dep::holding(v)
    }
}

} // verus!
