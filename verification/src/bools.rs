use vstd::prelude::*;

verus! {

/// The type denoting truth in the type-level Boolean algebra.
#[derive(Default, Debug, Clone, Copy, PartialEq, Eq, Hash)]
pub struct TTrue;

/// The type denoting falsehood in the type-level Boolean algebra.
#[derive(Default, Debug, Clone, Copy, PartialEq, Eq, Hash)]
pub struct TFalse;

/// A type-level Boolean: a marker type that denotes one fixed truth value.
///
/// `spec_bool` is the truth value the type denotes; `as_bool` reflects the
/// same value at run time.
pub trait TBool: Sized {
    spec fn spec_bool() -> bool;

    fn as_bool() -> (b: bool)
        ensures
            b == Self::spec_bool(),
    ;
}

impl TBool for TTrue {
    open spec fn spec_bool() -> bool {
        true
    }

    fn as_bool() -> (b: bool) {
        true
    }
}

impl TBool for TFalse {
    open spec fn spec_bool() -> bool {
        false
    }

    fn as_bool() -> (b: bool) {
        false
    }
}

/// Type-level conjunction: `Output` is `RHS` when `Self` is `TTrue`, and
/// `TFalse` otherwise. Every instance must prove that `Output` denotes the
/// conjunction of the operands' truth values.
pub trait TAnd<RHS: TBool>: TBool {
    type Output: TBool;

    proof fn and_law()
        ensures
            <Self::Output as TBool>::spec_bool() == (Self::spec_bool() && RHS::spec_bool()),
    ;
}

impl<RHS: TBool> TAnd<RHS> for TTrue {
    type Output = RHS;

    proof fn and_law() {
    }
}

impl<RHS: TBool> TAnd<RHS> for TFalse {
    type Output = TFalse;

    proof fn and_law() {
    }
}

/// Type-level disjunction: `Output` is `TTrue` when `Self` is `TTrue`, and
/// `RHS` otherwise. Every instance must prove that `Output` denotes the
/// disjunction of the operands' truth values.
pub trait TOr<RHS: TBool>: TBool {
    type Output: TBool;

    proof fn or_law()
        ensures
            <Self::Output as TBool>::spec_bool() == (Self::spec_bool() || RHS::spec_bool()),
    ;
}

impl<RHS: TBool> TOr<RHS> for TTrue {
    type Output = TTrue;

    proof fn or_law() {
    }
}

impl<RHS: TBool> TOr<RHS> for TFalse {
    type Output = RHS;

    proof fn or_law() {
    }
}

} // verus!
