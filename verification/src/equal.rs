use vstd::prelude::*;

use crate::bools::TBool;
use crate::bools::TFalse;
use crate::bools::TTrue;

verus! {

/// Compile-time type equality: `Output` is `TTrue` when the implementing
/// type and `T` are the same type, and `TFalse` when they are not.
///
/// Rust's trait system offers no overlap-resolving dispatch that could
/// answer this for arbitrary pairs, so the judgment is supplied by
/// instances. A reflexive blanket instance answers `TTrue` for every type
/// paired with itself; each pair of genuinely different types carries an
/// explicit `TFalse` instance. Coherence keeps the two kinds of instance
/// honest in one direction: an instance `TEqual<B> for A` with distinct
/// concrete `A` and `B` can never overlap the reflexive one, so no pair of
/// distinct types can be declared equal. Instances for the distinct pairs
/// among the primitive and string value types used with records are
/// provided below; a crate that declares its own key or value types writes
/// the `TFalse` instances for its own distinct pairs in the same way.
pub trait TEqual<T> {
    type Output: TBool;
}

impl<T> TEqual<T> for T {
    type Output = TTrue;
}

impl TEqual<char> for usize {
    type Output = TFalse;
}

impl TEqual<String> for usize {
    type Output = TFalse;
}

impl TEqual<isize> for usize {
    type Output = TFalse;
}

impl TEqual<usize> for char {
    type Output = TFalse;
}

impl TEqual<String> for char {
    type Output = TFalse;
}

impl TEqual<isize> for char {
    type Output = TFalse;
}

impl TEqual<usize> for String {
    type Output = TFalse;
}

impl TEqual<char> for String {
    type Output = TFalse;
}

impl TEqual<isize> for String {
    type Output = TFalse;
}

impl TEqual<usize> for isize {
    type Output = TFalse;
}

impl TEqual<char> for isize {
    type Output = TFalse;
}

impl TEqual<String> for isize {
    type Output = TFalse;
}

} // verus!
