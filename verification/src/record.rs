use vstd::prelude::*;

use core::marker::PhantomData;

use crate::bools::TAnd;
use crate::bools::TBool;
use crate::equal::TEqual;
use crate::optional::Null;
use crate::optional::Optional;
use crate::optional::TThen;
use crate::optional::VOr;

verus! {

/// The empty record: the terminator of every field chain.
#[derive(Default, Debug, Clone, Copy, PartialEq, Eq, Hash)]
pub struct HNil;

/// A non-empty record: a head field in front of a tail record.
#[derive(Default, Debug, Clone, Copy, PartialEq, Eq, Hash)]
pub struct HCons<Head, Tail>(pub Head, pub Tail);

/// A single record field: a compile-time `Key` tag — which carries no
/// run-time payload — paired with one run-time value of type `Value`.
#[derive(Default, Debug, Clone, Copy, PartialEq, Eq, Hash)]
pub struct Member<Key, Value>(pub Value, pub PhantomData<Key>);

impl<Key, Value> Member<Key, Value> {
    /// Build the field tagged `Key` holding `value`.
    pub fn new(value: Value) -> (r: Self)
        ensures
            r == Member::<Key, Value>(value, PhantomData::<Key>),
    {
        Member(value, PhantomData)
    }
}

/// A well-formed heterogeneous list: a finite chain of `HCons` nodes ending
/// in `HNil`. Chains of this shape are the records that lookup walks.
pub trait HList {

}

impl HList for HNil {

}

impl<Head, Tail: HList> HList for HCons<Head, Tail> {

}

/// Field lookup, resolved entirely by the type system: for a record type and
/// a queried `Key` and `Value` type, `Output` is the one `Optional` type the
/// lookup denotes — `Value<V>` when some field matches, `Null<..>` when none
/// does — and `get` produces its value. `spec_get` is the same resolution at
/// the specification level, so every implementation's `get` is pinned to it.
pub trait Get<Key, Value>: Sized {
    type Output: Optional;

    /// The resolved lookup result.
    spec fn spec_get(self) -> Self::Output;

    fn get(self) -> (r: Self::Output)
        ensures
            r == self.spec_get(),
    ;
}

/// Looking any key up in the empty record finds nothing.
impl<Key, Value> Get<Key, Value> for HNil {
    type Output = Null<Value>;

    open spec fn spec_get(self) -> Null<Value> {
        Null(PhantomData::<Value>)
    }

    fn get(self) -> (r: Null<Value>) {
        Null(PhantomData)
    }
}

/// Looking a key up in a non-empty record resolves the head's own
/// contribution and the tail's result, then merges them left-biased: a match
/// at the head shadows every match behind it.
impl<Key, Value, Head, Tail, Out1, Out2> Get<Key, Value> for HCons<Head, Tail> where
    Head: Get<Key, Value, Output = Out1>,
    Tail: Get<Key, Value, Output = Out2>,
    Out1: Optional + VOr<Out2>,
    Out2: Optional,
    <Out1 as VOr<Out2>>::Output: Optional,
 {
    type Output = <Out1 as VOr<Out2>>::Output;

    open spec fn spec_get(self) -> <Out1 as VOr<Out2>>::Output {
        <Out1 as VOr<Out2>>::spec_or(
            <Head as Get<Key, Value>>::spec_get(self.0),
            <Tail as Get<Key, Value>>::spec_get(self.1),
        )
    }

    fn get(self) -> (r: <Out1 as VOr<Out2>>::Output) {
        let a: Out1 = <Head as Get<Key, Value>>::get(self.0);
        let b: Out2 = <Tail as Get<Key, Value>>::get(self.1);
        <Out1 as VOr<Out2>>::or(a, b)
    }
}

/// A field's own contribution to a lookup: the field matches exactly when
/// its key tag equals the queried key type and its value type equals the
/// queried value type. The conjunction of the two `TEqual` judgments,
/// bridged through `TThen`, picks `Value<V>` (which keeps the field's value)
/// on a match and `Null<V>` (which discards it) otherwise.
impl<Key, GKey, Value, GValue, KeyEq, ValueEq, Both, Out> Get<GKey, GValue> for Member<
    Key,
    Value,
> where
    Key: TEqual<GKey, Output = KeyEq>,
    Value: TEqual<GValue, Output = ValueEq>,
    KeyEq: TBool + TAnd<ValueEq, Output = Both>,
    ValueEq: TBool,
    Both: TBool + TThen<Value, Output = Out>,
    Out: Optional<Value = Value>,
 {
    type Output = Out;

    open spec fn spec_get(self) -> Out {
        <Out as Optional>::spec_from_value(self.0)
    }

    fn get(self) -> (r: Out) {
        <Out as Optional>::from_value(self.0)
    }
}

} // verus!
