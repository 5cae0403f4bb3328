use symdiff::boolean::{AndFn, Bool, BoolAnd, BoolIfElse, BoolNot, BoolOr, BoolXor, OrFn, Truth, XorFn};
use symdiff::func::{chain, CanApply, Chain, Func, Identity};
use symdiff::ident::{Ident, TypeEqFn, TypeId};
use symdiff::tags;
use symdiff::{T0, T1};

#[test]
fn truth_not_table() {
    assert_eq!(Truth::True.not(), Truth::False);
    assert_eq!(Truth::False.not(), Truth::True);
}

#[test]
fn truth_and_table() {
    assert_eq!(Truth::False.and(Truth::False), Truth::False);
    assert_eq!(Truth::False.and(Truth::True), Truth::False);
    assert_eq!(Truth::True.and(Truth::False), Truth::False);
    assert_eq!(Truth::True.and(Truth::True), Truth::True);
}

#[test]
fn truth_or_table() {
    assert_eq!(Truth::False.or(Truth::False), Truth::False);
    assert_eq!(Truth::False.or(Truth::True), Truth::True);
    assert_eq!(Truth::True.or(Truth::False), Truth::True);
    assert_eq!(Truth::True.or(Truth::True), Truth::True);
}

#[test]
fn truth_xor_table() {
    assert_eq!(Truth::False.xor(Truth::False), Truth::False);
    assert_eq!(Truth::False.xor(Truth::True), Truth::True);
    assert_eq!(Truth::True.xor(Truth::False), Truth::True);
    assert_eq!(Truth::True.xor(Truth::True), Truth::False);
}

#[test]
fn truth_select_chooses_a_branch() {
    assert_eq!(Truth::True.select(10, 20), 10);
    assert_eq!(Truth::False.select(10, 20), 20);
    assert_eq!(Truth::True.select("yes", "no"), "yes");
    assert_eq!(Truth::False.select("yes", "no"), "no");
}

#[test]
fn truth_bool_round_trip() {
    assert!(Truth::True.to_bool());
    assert!(!Truth::False.to_bool());
    assert_eq!(Truth::from_bool(true), Truth::True);
    assert_eq!(Truth::from_bool(false), Truth::False);
}

#[test]
fn typed_not_table() {
    assert!(!BoolNot::not(T1).to_bool());
    assert!(BoolNot::not(T0).to_bool());
}

#[test]
fn typed_and_table() {
    assert!(!T0.and(T0).to_bool());
    assert!(!T0.and(T1).to_bool());
    assert!(!T1.and(T0).to_bool());
    assert!(T1.and(T1).to_bool());
}

#[test]
fn typed_or_table() {
    assert!(!T0.or(T0).to_bool());
    assert!(T0.or(T1).to_bool());
    assert!(T1.or(T0).to_bool());
    assert!(T1.or(T1).to_bool());
}

#[test]
fn typed_xor_table() {
    assert!(!T0.xor(T0).to_bool());
    assert!(T0.xor(T1).to_bool());
    assert!(T1.xor(T0).to_bool());
    assert!(!T1.xor(T1).to_bool());
}

#[test]
fn typed_if_else_selects() {
    assert_eq!(T1.if_else(10, "no"), 10);
    assert_eq!(T0.if_else(10, "no"), "no");
}

#[test]
fn operator_function_markers() {
    assert!(AndFn::call((T1, T1)).to_bool());
    assert!(!AndFn::call((T1, T0)).to_bool());
    assert!(OrFn::call((T0, T1)).to_bool());
    assert!(!OrFn::call((T0, T0)).to_bool());
    assert!(XorFn::call((T1, T0)).to_bool());
    assert!(!XorFn::call((T1, T1)).to_bool());
}

#[test]
fn type_eq_function_marker() {
    assert!(<TypeEqFn<T0> as Func<T0>>::call(T0).to_bool());
    assert!(!<TypeEqFn<T0> as Func<T1>>::call(T1).to_bool());
    assert!(!<TypeEqFn<(T0, T1)> as Func<T0>>::call(T0).to_bool());
    assert!(<TypeEqFn<(T0, T1)> as Func<(T0, T1)>>::call((T0, T1)).to_bool());
    assert!(!<TypeEqFn<(T0, T1)> as Func<(T1, T1)>>::call((T1, T1)).to_bool());
}

#[test]
fn identity_and_chain() {
    assert_eq!(Identity::call(7), 7);
    assert_eq!(<Chain<()> as Func<i32>>::call(7), 7);
    let _marker = chain((Identity, (Identity, ())));
    assert_eq!(<Chain<(Identity, (Identity, ()))> as Func<i32>>::call(7), 7);
    assert_eq!(<i32 as CanApply<Identity>>::apply(7), 7);
}

#[test]
fn ident_equal_is_reflexive_and_symmetric() {
    let samples = [
        Ident::Bit0,
        Ident::Bit1,
        Ident::pair(Ident::Bit0, Ident::Bit1),
        Ident::pair(Ident::pair(Ident::Bit1, Ident::Bit1), Ident::Bit0),
    ];
    for a in &samples {
        assert_eq!(a.equal(a), Truth::True);
        for b in &samples {
            assert_eq!(a.equal(b), b.equal(a));
        }
    }
}

#[test]
fn ident_equal_structure() {
    // The two symbols are equal only to themselves.
    assert_eq!(Ident::Bit0.equal(&Ident::Bit0), Truth::True);
    assert_eq!(Ident::Bit1.equal(&Ident::Bit1), Truth::True);
    assert_eq!(Ident::Bit0.equal(&Ident::Bit1), Truth::False);
    assert_eq!(Ident::Bit1.equal(&Ident::Bit0), Truth::False);
    // A symbol never equals a pair.
    let p = Ident::pair(Ident::Bit0, Ident::Bit0);
    assert_eq!(Ident::Bit0.equal(&p), Truth::False);
    assert_eq!(p.equal(&Ident::Bit0), Truth::False);
    // Pair equality is the conjunction of component-wise equality.
    let q = Ident::pair(Ident::Bit0, Ident::Bit1);
    assert_eq!(p.equal(&q), Truth::False);
    assert_eq!(q.equal(&Ident::pair(Ident::Bit0, Ident::Bit1)), Truth::True);
}

#[test]
fn tags_are_pairwise_distinct() {
    let all: Vec<Ident> = vec![
        <tags::A as TypeId>::ident(),
        <tags::B as TypeId>::ident(),
        <tags::C as TypeId>::ident(),
        <tags::D as TypeId>::ident(),
        <tags::E as TypeId>::ident(),
        <tags::F as TypeId>::ident(),
        <tags::G as TypeId>::ident(),
        <tags::H as TypeId>::ident(),
        <tags::I as TypeId>::ident(),
        <tags::J as TypeId>::ident(),
        <tags::K as TypeId>::ident(),
        <tags::L as TypeId>::ident(),
        <tags::M as TypeId>::ident(),
        <tags::N as TypeId>::ident(),
        <tags::O as TypeId>::ident(),
        <tags::P as TypeId>::ident(),
        <tags::Q as TypeId>::ident(),
        <tags::R as TypeId>::ident(),
        <tags::S as TypeId>::ident(),
        <tags::T as TypeId>::ident(),
        <tags::U as TypeId>::ident(),
        <tags::V as TypeId>::ident(),
        <tags::W as TypeId>::ident(),
        <tags::X as TypeId>::ident(),
        <tags::Y as TypeId>::ident(),
        <tags::Z as TypeId>::ident(),
    ];
    for (i, a) in all.iter().enumerate() {
        for (j, b) in all.iter().enumerate() {
            assert_eq!(a.equal(b) == Truth::True, i == j);
        }
    }
}
