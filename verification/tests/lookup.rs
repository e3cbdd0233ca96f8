use std::marker::PhantomData;

use hrecord::Get;
use hrecord::HCons;
use hrecord::HNil;
use hrecord::Member;
use hrecord::Null;
use hrecord::Optional;
use hrecord::TAnd;
use hrecord::TBool;
use hrecord::TEqual;
use hrecord::TFalse;
use hrecord::TOr;
use hrecord::TTrue;
use hrecord::VOr;
use hrecord::Value;

#[derive(Default, Debug, Clone, Copy, PartialEq, Eq, Hash)]
struct A;
#[derive(Default, Debug, Clone, Copy, PartialEq, Eq, Hash)]
struct B;
#[derive(Default, Debug, Clone, Copy, PartialEq, Eq, Hash)]
struct C;
#[derive(Default, Debug, Clone, Copy, PartialEq, Eq, Hash)]
struct D;

impl TEqual<B> for A {
    type Output = TFalse;
}
impl TEqual<C> for A {
    type Output = TFalse;
}
impl TEqual<D> for A {
    type Output = TFalse;
}
impl TEqual<A> for B {
    type Output = TFalse;
}
impl TEqual<C> for B {
    type Output = TFalse;
}
impl TEqual<D> for B {
    type Output = TFalse;
}
impl TEqual<A> for C {
    type Output = TFalse;
}
impl TEqual<B> for C {
    type Output = TFalse;
}
impl TEqual<D> for C {
    type Output = TFalse;
}
impl TEqual<A> for D {
    type Output = TFalse;
}
impl TEqual<B> for D {
    type Output = TFalse;
}
impl TEqual<C> for D {
    type Output = TFalse;
}

type Json = HCons<Member<A, usize>, HCons<Member<B, char>, HCons<Member<C, String>, HNil>>>;

#[test]
fn first_value() {
    let json = Json::default();

    let a = <Json as Get<A, usize>>::get(json).as_option().unwrap();

    println!("{:?}", a);
}

#[test]
fn second_value() {
    let json = Json::default();

    let b = <Json as Get<B, char>>::get(json).as_option().unwrap();

    println!("{:?}", b);
}

#[test]
fn third_value() {
    let json = Json::default();

    let c = <Json as Get<C, String>>::get(json).as_option().unwrap();

    println!("{:?}", c);
}

#[test]
#[should_panic(expected = "called `Option::unwrap()` on a `None` value")]
fn non_value() {
    let json = Json::default();

    let d = <Json as Get<D, isize>>::get(json).as_option().unwrap();

    println!("{:?}", d);
}

fn sample() -> Json {
    HCons(
        Member::new(0usize),
        HCons(Member::new('x'), HCons(Member::new(String::from("hi")), HNil)),
    )
}

#[test]
fn truth_values() {
    assert!(TTrue::as_bool());
    assert!(!TFalse::as_bool());
}

#[test]
fn conjunction_table() {
    assert!(<<TTrue as TAnd<TTrue>>::Output as TBool>::as_bool());
    assert!(!<<TTrue as TAnd<TFalse>>::Output as TBool>::as_bool());
    assert!(!<<TFalse as TAnd<TTrue>>::Output as TBool>::as_bool());
    assert!(!<<TFalse as TAnd<TFalse>>::Output as TBool>::as_bool());
}

#[test]
fn disjunction_table() {
    assert!(<<TTrue as TOr<TTrue>>::Output as TBool>::as_bool());
    assert!(<<TTrue as TOr<TFalse>>::Output as TBool>::as_bool());
    assert!(<<TFalse as TOr<TTrue>>::Output as TBool>::as_bool());
    assert!(!<<TFalse as TOr<TFalse>>::Output as TBool>::as_bool());
}

#[test]
fn round_trip_present() {
    let built: Value<u32> = Value::from_value(9);
    assert_eq!(built.as_option(), Some(9));
}

#[test]
fn absent_discards_value() {
    let built: Null<u32> = Null::from_value(9);
    assert_eq!(built.as_option(), None);
}

#[test]
fn merge_is_left_biased() {
    assert_eq!(Value(1i32).or(Value(2i32)).as_option(), Some(1));
    assert_eq!(Value(1i32).or(Null::<i32>(PhantomData)).as_option(), Some(1));
    assert_eq!(Null::<i32>(PhantomData).or(Value(2i32)).as_option(), Some(2));
    assert_eq!(
        Null::<i32>(PhantomData).or(Null::<i32>(PhantomData)).as_option(),
        None
    );
}

#[test]
fn empty_record_is_absent() {
    assert_eq!(<HNil as Get<A, usize>>::get(HNil).as_option(), None);
}

#[test]
fn identity_match() {
    type Rec = HCons<Member<A, usize>, HNil>;
    let rec: Rec = HCons(Member::new(5usize), HNil);
    assert_eq!(<Rec as Get<A, usize>>::get(rec).as_option(), Some(5));
}

#[test]
fn value_type_mismatch_is_absent() {
    type Rec = HCons<Member<A, usize>, HNil>;
    let rec: Rec = HCons(Member::new(5usize), HNil);
    assert_eq!(<Rec as Get<A, char>>::get(rec).as_option(), None);
}

#[test]
fn duplicate_keys_take_the_first() {
    type Rec = HCons<Member<A, String>, HCons<Member<A, String>, HNil>>;
    let rec: Rec = HCons(
        Member::new(String::from("first")),
        HCons(Member::new(String::from("second")), HNil),
    );
    assert_eq!(
        <Rec as Get<A, String>>::get(rec).as_option(),
        Some(String::from("first"))
    );
}

#[test]
fn three_fields_resolve_independently() {
    assert_eq!(<Json as Get<A, usize>>::get(sample()).as_option(), Some(0));
    assert_eq!(<Json as Get<B, char>>::get(sample()).as_option(), Some('x'));
    assert_eq!(
        <Json as Get<C, String>>::get(sample()).as_option(),
        Some(String::from("hi"))
    );
    assert_eq!(<Json as Get<D, isize>>::get(sample()).as_option(), None);
}

#[test]
fn member_keeps_its_value() {
    let m: Member<A, usize> = Member::new(3);
    let copy = m.clone();
    assert_eq!(m.0, 3);
    assert_eq!(copy.0, 3);
}
