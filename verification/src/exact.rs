//! Equality and copying that proofs can rely on.

use vstd::prelude::*;
use std::sync::Arc;

verus! {

/// A value that can be compared exactly.
pub trait Exact: Sized {
    /// Whether both values are the same value.
    fn same(&self, other: &Self) -> (result: bool)
        ensures
            result == (*self == *other),
    ;
}

/// A value that can be copied exactly.
pub trait Share: Sized {
    /// Another copy of this value.
    fn share(&self) -> (result: Self)
        ensures
            result == *self,
    ;
}

impl<T> Share for Arc<T> {
    fn share(&self) -> (result: Self) {
        Arc::clone(self)
    }
}

impl Exact for u32 {
    fn same(&self, other: &Self) -> (result: bool) {
        *self == *other
    }
}

impl Exact for i32 {
    fn same(&self, other: &Self) -> (result: bool) {
        *self == *other
    }
}

impl Exact for u64 {
    fn same(&self, other: &Self) -> (result: bool) {
        *self == *other
    }
}

/// A test on values.
pub trait Keep<V> {
    /// Whether the value passes.
    spec fn keeps(&self, value: V) -> bool;

    fn test(&self, value: &V) -> (result: bool)
        ensures
            result == self.keeps(*value),
    ;
}

/// Whether two optional values are the same.
pub fn same_option<T: Exact>(left: &Option<T>, right: &Option<T>) -> (result: bool)
    ensures
        result == (*left == *right),
{
    match (left, right) {
        (None, None) => true,
        (Some(left), Some(right)) => left.same(right),
        _ => false,
    }
}

} // verus!
