use vstd::prelude::*;

use core::marker::PhantomData;

use crate::bools::TBool;
use crate::bools::TFalse;
use crate::bools::TTrue;

verus! {

/// Relies on the derived `Clone` of `core::marker::PhantomData`, a unit type
/// with a single value: cloning it returns that same value.
pub assume_specification<T: core::marker::PointeeSized>[ <PhantomData<T> as Clone>::clone ](this: &PhantomData<T>) -> (r:
    PhantomData<T>)
    ensures
        r == *this,
;

/// The absent variant of a type-level optional. It carries no run-time value,
/// but remembers the value type `T` it would have held, so that resolution
/// can keep type-checking past a failed lookup.
#[derive(Default, Debug, Clone, Copy, PartialEq, Eq, Hash)]
pub struct Null<T>(pub PhantomData<T>);

/// The present variant of a type-level optional: it wraps exactly one
/// run-time value of type `T`.
#[derive(Default, Debug, Clone, Copy, PartialEq, Eq, Hash)]
pub struct Value<T>(pub T);

/// A type-level optional: either `Null<T>` or `Value<T>`. Which of the two a
/// given instance is was fixed when its type was chosen, so `spec_option`
/// is constantly `None` for a `Null` and constantly `Some` for a `Value`.
pub trait Optional: Sized {
    type Value;

    /// The value this optional holds, as a mathematical `Option`.
    spec fn spec_option(self) -> Option<Self::Value>;

    /// What `from_value` builds from a given value.
    spec fn spec_from_value(value: Self::Value) -> Self;

    /// Convert the type-level present/absent distinction into an ordinary,
    /// run-time-checkable `Option`.
    fn as_option(self) -> (r: Option<Self::Value>)
        ensures
            r == self.spec_option(),
    ;

    /// Build this optional around `value`. A `Value` keeps it; a `Null`
    /// discards it.
    fn from_value(value: Self::Value) -> (r: Self)
        ensures
            r == Self::spec_from_value(value),
    ;
}

impl<T> Optional for Null<T> {
    type Value = T;

    open spec fn spec_option(self) -> Option<T> {
        None
    }

    open spec fn spec_from_value(value: T) -> Self {
        Null(PhantomData)
    }

    fn as_option(self) -> (r: Option<T>) {
        None
    }

    fn from_value(value: T) -> (r: Self) {
        Null(PhantomData)
    }
}

impl<T> Optional for Value<T> {
    type Value = T;

    open spec fn spec_option(self) -> Option<T> {
        Some(self.0)
    }

    open spec fn spec_from_value(value: T) -> Self {
        Value(value)
    }

    fn as_option(self) -> (r: Option<T>) {
        Some(self.0)
    }

    fn from_value(value: T) -> (r: Self) {
        Value(value)
    }
}

/// Left-biased merge of two optionals: a `Value` on the left wins, a `Null`
/// on the left yields whatever stands on the right. This is the combinator
/// that folds per-field lookup results across a record, so that the earliest
/// matching field shadows everything behind it.
pub trait VOr<RHS>: Sized {
    type Output;

    /// What `or` returns: the left operand when it is present, else the right.
    spec fn spec_or(self, rhs: RHS) -> Self::Output;

    fn or(self, rhs: RHS) -> (r: Self::Output)
        ensures
            r == self.spec_or(rhs),
    ;
}

impl<RHS, T> VOr<RHS> for Null<T> {
    type Output = RHS;

    open spec fn spec_or(self, rhs: RHS) -> RHS {
        rhs
    }

    fn or(self, rhs: RHS) -> (r: RHS) {
        rhs
    }
}

impl<LHS, RHS> VOr<RHS> for Value<LHS> {
    type Output = Self;

    open spec fn spec_or(self, rhs: RHS) -> Self {
        self
    }

    fn or(self, rhs: RHS) -> (r: Self) {
        self
    }
}

/// The bridge from a type-level Boolean to a type-level optional: under
/// `TTrue` the `Output` is `Value<T>` (the built optional is present), under
/// `TFalse` it is `Null<T>` (the built optional is absent). Every instance
/// must prove that building `Output` from a value yields `Some` of it
/// exactly when the Boolean denotes truth.
pub trait TThen<T>: TBool {
    type Output: Optional<Value = T>;

    proof fn bridge_law(value: T)
        ensures
            <Self::Output as Optional>::spec_from_value(value).spec_option() == (if Self::spec_bool() {
                Some(value)
            } else {
                None::<T>
            }),
    ;
}

impl<T> TThen<T> for TTrue {
    type Output = Value<T>;

    proof fn bridge_law(value: T) {
    }
}

impl<T> TThen<T> for TFalse {
    type Output = Null<T>;

    proof fn bridge_law(value: T) {
    }
}

} // verus!
