use vstd::prelude::*;

use crate::bools::TAnd;
use crate::bools::TBool;
use crate::bools::TFalse;
use crate::equal::TEqual;
use crate::optional::Null;
use crate::optional::Optional;
use crate::optional::Value;
use crate::record::Get;
use crate::record::HCons;
use crate::record::HNil;
use crate::record::Member;

verus! {

/// An `Optional` instantiation is definitively one of the two variants,
/// never both and never neither: a `Value` always holds a value, a `Null`
/// never does.
pub proof fn lemma_variant_fixed<T>(present: Value<T>, absent: Null<T>)
    ensures
        present.spec_option() == Some(present.0),
        absent.spec_option() == None::<T>,
{
}

/// Looking any key up in the empty record yields the absent result.
pub proof fn lemma_absent_on_empty<Key, Val>()
    ensures
        <HNil as Get<Key, Val>>::spec_get(HNil).spec_option() is None,
{
}

/// A field declared with key `Key` and value type `Val`, queried with that
/// same key and value type, contributes its own value, present.
pub proof fn lemma_identity_match<Key, Val>(m: Member<Key, Val>)
    ensures
        <Member<Key, Val> as Get<Key, Val>>::spec_get(m).spec_option() == Some(m.0),
{
}

/// A field declared with key `Key` and value type `HVal`, queried with the
/// same key but a value type judged different from `HVal`, contributes the
/// absent result.
pub proof fn lemma_value_type_mismatch<Key, HVal, Val>(m: Member<Key, HVal>) where
    HVal: TEqual<Val, Output = TFalse>,

    ensures
        <Member<Key, HVal> as Get<Key, Val>>::spec_get(m).spec_option() is None,
{
}

/// A field whose key tag is judged different from the queried key
/// contributes the absent result, whatever its value type.
pub proof fn lemma_key_mismatch<HKey, HVal, Key, Val, ValEq>(m: Member<HKey, HVal>) where
    HKey: TEqual<Key, Output = TFalse>,
    HVal: TEqual<Val, Output = ValEq>,
    ValEq: TBool,

    ensures
        <Member<HKey, HVal> as Get<Key, Val>>::spec_get(m).spec_option() is None,
{
}

/// A record whose head field matches the query — its key tag and value type
/// are exactly the queried ones — resolves to that head's value, whatever
/// the tail holds: the leftmost match wins.
pub proof fn lemma_matching_head_wins<Key, Val, Tail, Out2>(
    head: Member<Key, Val>,
    tail: Tail,
) where
    Tail: Get<Key, Val, Output = Out2>,
    Out2: Optional,

    ensures
        <HCons<Member<Key, Val>, Tail> as Get<Key, Val>>::spec_get(
            HCons(head, tail),
        ).spec_option() == Some(head.0),
{
}

/// A record whose head field does not match the query — its key tag or its
/// value type is judged different from the queried one — resolves to
/// whatever its tail resolves to: an unmatched field leaks nothing.
pub proof fn lemma_unmatched_head_skipped<HKey, HVal, Key, Val, KeyEq, ValEq, Tail, Out2>(
    head: Member<HKey, HVal>,
    tail: Tail,
) where
    HKey: TEqual<Key, Output = KeyEq>,
    HVal: TEqual<Val, Output = ValEq>,
    KeyEq: TBool + TAnd<ValEq, Output = TFalse>,
    ValEq: TBool,
    Tail: Get<Key, Val, Output = Out2>,
    Out2: Optional,

    ensures
        <HCons<Member<HKey, HVal>, Tail> as Get<Key, Val>>::spec_get(HCons(head, tail))
            == <Tail as Get<Key, Val>>::spec_get(tail),
{
}

/// A record that declares two fields with the same key and the same value
/// type resolves a query for that key to the earlier field's value: the
/// later duplicate is silently shadowed.
pub proof fn lemma_left_bias_on_duplicates<Key, Val>(
    first: Member<Key, Val>,
    second: Member<Key, Val>,
)
    ensures
        <HCons<Member<Key, Val>, HCons<Member<Key, Val>, HNil>> as Get<Key, Val>>::spec_get(
            HCons(first, HCons(second, HNil)),
        ).spec_option() == Some(first.0),
{
}

/// In a record declaring three fields with pairwise different keys, each
/// key resolves to its own field's value, carried at its own value type,
/// and a fourth, undeclared key resolves to absent: no value leaks from one
/// key to another.
pub proof fn lemma_no_cross_key_leakage<KA, KB, KC, KD>(
    a: Member<KA, usize>,
    b: Member<KB, char>,
    c: Member<KC, String>,
) where
    KA: TEqual<KB, Output = TFalse> + TEqual<KC, Output = TFalse> + TEqual<KD, Output = TFalse>,
    KB: TEqual<KA, Output = TFalse> + TEqual<KC, Output = TFalse> + TEqual<KD, Output = TFalse>,
    KC: TEqual<KA, Output = TFalse> + TEqual<KB, Output = TFalse> + TEqual<KD, Output = TFalse>,

    ensures
        <HCons<
            Member<KA, usize>,
            HCons<Member<KB, char>, HCons<Member<KC, String>, HNil>>,
        > as Get<KA, usize>>::spec_get(HCons(a, HCons(b, HCons(c, HNil)))).spec_option() == Some(
            a.0,
        ),
        <HCons<
            Member<KA, usize>,
            HCons<Member<KB, char>, HCons<Member<KC, String>, HNil>>,
        > as Get<KB, char>>::spec_get(HCons(a, HCons(b, HCons(c, HNil)))).spec_option() == Some(
            b.0,
        ),
        <HCons<
            Member<KA, usize>,
            HCons<Member<KB, char>, HCons<Member<KC, String>, HNil>>,
        > as Get<KC, String>>::spec_get(HCons(a, HCons(b, HCons(c, HNil)))).spec_option() == Some(
            c.0,
        ),
        <HCons<
            Member<KA, usize>,
            HCons<Member<KB, char>, HCons<Member<KC, String>, HNil>>,
        > as Get<KD, isize>>::spec_get(HCons(a, HCons(b, HCons(c, HNil)))).spec_option() is None,
{
}

/// Converting a present optional to a plain `Option` and building a present
/// optional back from the value it carries is the identity, in both
/// directions.
pub proof fn lemma_round_trip<T>(v: T, present: Value<T>)
    ensures
        <Value<T> as Optional>::spec_from_value(v).spec_option() == Some(v),
        <Value<T> as Optional>::spec_from_value(present.0) == present,
{
}

} // verus!
