//! The saturation report that every clamping operation returns.

use core::cmp::Ordering;
use vstd::prelude::*;
use vstd::std_specs::cmp::{PartialEqSpec, PartialEqSpecImpl, PartialOrdSpec, PartialOrdSpecImpl};

verus! {

/// The outcome of an operation that clamps instead of overflowing.
///
/// `result` is always a usable value. `did_saturate` tells whether it had to be
/// moved into range, that is, whether it differs from what exact arithmetic gives.
#[derive(Debug)]
pub struct DidSaturate<T> {
    /// Whether the exact result was out of range and had to be clamped.
    pub did_saturate: bool,
    /// The value after clamping.
    pub result: T,
}

impl<T> DidSaturate<T> {
    /// A result that had to be clamped.
    pub fn saturated(result: T) -> (r: Self)
        ensures
            r.did_saturate,
            r.result == result,
    {
        Self::new(true, result)
    }

    /// A result that is exact.
    pub fn not_saturated(result: T) -> (r: Self)
        ensures
            !r.did_saturate,
            r.result == result,
    {
        Self::new(false, result)
    }

    /// Pairs a value with its saturation flag.
    pub fn new(did_saturate: bool, result: T) -> (r: Self)
        ensures
            r.did_saturate == did_saturate,
            r.result == result,
    {
        Self { did_saturate, result }
    }
}

impl<T: Clone> Clone for DidSaturate<T> {
    fn clone(&self) -> (r: Self)
        ensures
            r.did_saturate == self.did_saturate,
    {
        DidSaturate { did_saturate: self.did_saturate, result: self.result.clone() }
    }
}

impl<T: Copy> Copy for DidSaturate<T> {

}

/// Comparison with a bare value looks at `result` only.
impl<T: PartialEq> PartialEq<T> for DidSaturate<T> {
    fn eq(&self, other: &T) -> (r: bool) {
        self.result.eq(other)
    }
}

impl<T: PartialEq> PartialEqSpecImpl<T> for DidSaturate<T> {
    open spec fn obeys_eq_spec() -> bool {
        T::obeys_eq_spec()
    }

    open spec fn eq_spec(&self, other: &T) -> bool {
        self.result.eq_spec(other)
    }
}

/// Ordering against a bare value looks at `result` only.
impl<T: PartialOrd> PartialOrd<T> for DidSaturate<T> {
    fn partial_cmp(&self, other: &T) -> (r: Option<Ordering>) {
        self.result.partial_cmp(other)
    }
}

impl<T: PartialOrd> PartialOrdSpecImpl<T> for DidSaturate<T> {
    open spec fn obeys_partial_cmp_spec() -> bool {
        T::obeys_partial_cmp_spec()
    }

    open spec fn partial_cmp_spec(&self, other: &T) -> Option<Ordering> {
        self.result.partial_cmp_spec(other)
    }
}

impl<T> From<DidSaturate<T>> for Option<T> {
    fn from(value: DidSaturate<T>) -> (r: Option<T>) {
        if value.did_saturate {
            Some(value.result)
        } else {
            None
        }
    }
}

impl<T> vstd::std_specs::convert::FromSpecImpl<DidSaturate<T>> for Option<T> {
    open spec fn obeys_from_spec() -> bool {
        true
    }

    open spec fn from_spec(value: DidSaturate<T>) -> Option<T> {
        if value.did_saturate {
            Some(value.result)
        } else {
            None
        }
    }
}

} // verus!
