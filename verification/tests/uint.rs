use std::collections::hash_map::DefaultHasher;
use std::hash::{Hash, Hasher};
use zokrates_core::field::FieldElement;
use zokrates_core::zir::identifier::Identifier;
use zokrates_core::zir::uint::{UExpression, UExpressionInner, UMetadata};
use zokrates_core::zir::{BooleanExpression, FieldElementExpression};

fn value(v: u128, width: usize) -> UExpression<'static> {
    UExpressionInner::Value(v).annotate(width)
}

#[test]
fn add_wraps_both_operands_at_their_width() {
    let a = value(5, 8);
    let b = value(3, 8);
    let sum = a.add(b);
    assert_eq!(sum.bitwidth(), 8);
    assert!(sum.metadata.is_none());
    assert!(
        *sum.as_inner() == UExpressionInner::Add(Box::new(value(5, 8)), Box::new(value(3, 8)))
    );
}

#[test]
fn operands_of_differing_width_do_not_meet_the_precondition() {
    let a = value(1, 8);
    let b = value(1, 16);
    assert_ne!(a.bitwidth(), b.bitwidth());
}

#[test]
fn every_binary_operator_keeps_the_width_and_attaches_no_bound() {
    let a = || value(6, 16);
    let b = || value(7, 16);
    let built = vec![
        (a().add(b()), UExpressionInner::Add(Box::new(a()), Box::new(b()))),
        (a().sub(b()), UExpressionInner::Sub(Box::new(a()), Box::new(b()))),
        (a().mult(b()), UExpressionInner::Mult(Box::new(a()), Box::new(b()))),
        (a().xor(b()), UExpressionInner::Xor(Box::new(a()), Box::new(b()))),
        (a().or(b()), UExpressionInner::Or(Box::new(a()), Box::new(b()))),
        (a().and(b()), UExpressionInner::And(Box::new(a()), Box::new(b()))),
    ];
    for (expression, node) in built {
        assert_eq!(expression.bitwidth(), 16);
        assert!(expression.metadata.is_none());
        assert!(expression.into_inner() == node);
    }
}

#[test]
fn operators_drop_the_bounds_of_the_result_but_keep_those_of_the_operands() {
    let a = value(5, 8).metadata(UMetadata::with_max(5u32));
    let b = value(3, 8);
    let sum = a.add(b);
    assert!(sum.metadata.is_none());
    match sum.into_inner() {
        UExpressionInner::Add(left, right) => {
            assert!(left.metadata == Some(UMetadata::with_max(5u32)));
            assert!(right.metadata.is_none());
        }
        _ => panic!("the node is not a sum"),
    }
}

#[test]
fn shifts_keep_the_width_of_the_shifted_expression() {
    let by = FieldElementExpression::Number(FieldElement::from(3u32));
    let left = value(1, 32).left_shift(by.clone());
    assert_eq!(left.bitwidth(), 32);
    assert!(left.metadata.is_none());
    assert!(
        left.into_inner()
            == UExpressionInner::LeftShift(Box::new(value(1, 32)), Box::new(by.clone()))
    );
    let right = value(1, 32).right_shift(by.clone());
    assert_eq!(right.bitwidth(), 32);
    assert!(right.metadata.is_none());
    assert!(
        right.into_inner() == UExpressionInner::RightShift(Box::new(value(1, 32)), Box::new(by))
    );
}

#[test]
fn annotate_sets_the_width_and_no_bound() {
    let e = UExpressionInner::from("x").annotate(32);
    assert_eq!(e.bitwidth(), 32);
    assert_eq!(e.bitwidth, 32);
    assert!(e.metadata.is_none());
    assert!(e.inner == UExpressionInner::Identifier(Identifier { id: "x" }));
}

#[test]
fn metadata_replaces_the_bound_and_nothing_else() {
    let m = UMetadata::with_max(17u32);
    let e = value(9, 8).add(value(8, 8));
    let bound = e.clone().metadata(m.clone());
    assert_eq!(bound.bitwidth(), e.bitwidth());
    assert!(*bound.as_inner() == *e.as_inner());
    assert!(bound.metadata == Some(m));
    let again = bound.metadata(UMetadata::with_max(18u32));
    assert!(again.metadata == Some(UMetadata::with_max(18u32)));
    assert_eq!(again.bitwidth(), 8);
}

#[test]
fn with_max_has_the_bits_of_its_value() {
    assert_eq!(UMetadata::with_max(0u32).bitwidth(), 0);
    assert_eq!(UMetadata::with_max(1u32).bitwidth(), 1);
    assert_eq!(UMetadata::with_max(255u32).bitwidth(), 8);
    assert_eq!(UMetadata::with_max(256u32).bitwidth(), 9);
    assert_eq!(UMetadata::with_max(255usize).bitwidth(), 8);
    assert_eq!(UMetadata::with_max(256u128).bitwidth(), 9);
    assert_eq!(UMetadata::with_max(u128::MAX).bitwidth(), 128);
    assert_eq!(UMetadata::with_max(u32::MAX).bitwidth(), 32);
}

#[test]
fn with_max_leaves_the_decision_open() {
    let m = UMetadata::with_max(255u32);
    assert_eq!(m.should_reduce, None);
    assert!(m.max == FieldElement::from(255u32));
}

#[test]
fn with_max_takes_a_field_element_as_it_is() {
    let mut bytes = [0u8; 17];
    bytes[16] = 1;
    let big = FieldElement::from_le_bytes(&bytes).unwrap();
    let m = UMetadata::with_max(big.clone());
    assert!(m.max == big);
    assert_eq!(m.bitwidth(), 129);
}

#[test]
fn a_bound_above_the_declared_width_shows_in_its_bits() {
    let e = value(44, 8).metadata(UMetadata::with_max(300u32));
    let bits = e.metadata.as_ref().unwrap().bitwidth();
    assert_eq!(bits, 9);
    assert_eq!(e.bitwidth(), 8);
    assert!(bits as usize > e.bitwidth());
}

#[test]
fn equal_trees_are_equal() {
    let build = || {
        UExpressionInner::IfElse(
            Box::new(BooleanExpression::UintLt(Box::new(value(1, 8)), Box::new(value(2, 8)))),
            Box::new(value(5, 8).add(UExpressionInner::from("a").annotate(8))),
            Box::new(value(7, 8).metadata(UMetadata::with_max(7u32))),
        )
        .annotate(8)
    };
    assert!(build() == build());
    let e = build();
    assert!(e.clone() == e);
}

#[test]
fn a_changed_leaf_breaks_equality() {
    assert!(value(5, 8).add(value(3, 8)) != value(5, 8).add(value(4, 8)));
    assert!(
        UExpressionInner::from("a").annotate(8) != UExpressionInner::from("b").annotate(8)
    );
    assert!(UExpressionInner::from("a").annotate(8) == UExpressionInner::from("a").annotate(8));
    assert!(UExpressionInner::from(5u128) != UExpressionInner::from("5"));
}

#[test]
fn a_changed_operator_breaks_equality() {
    assert!(value(5, 8).add(value(3, 8)) != value(5, 8).sub(value(3, 8)));
    assert!(value(5, 8).and(value(3, 8)) != value(5, 8).or(value(3, 8)));
    assert!(value(5, 8).xor(value(3, 8)) != value(5, 8).mult(value(3, 8)));
    let by = || FieldElementExpression::Number(FieldElement::from(1u32));
    assert!(value(5, 8).left_shift(by()) != value(5, 8).right_shift(by()));
}

#[test]
fn a_changed_width_breaks_equality() {
    assert!(value(5, 8) != value(5, 16));
    assert!(value(5, 8).add(value(3, 8)) != value(5, 16).add(value(3, 16)));
    let inner = UExpressionInner::Not(Box::new(value(5, 8)));
    let other = UExpressionInner::Not(Box::new(value(5, 16)));
    assert!(inner.annotate(8) != other.annotate(8));
}

#[test]
fn a_changed_bound_breaks_equality() {
    let plain = value(5, 8);
    let bound = value(5, 8).metadata(UMetadata::with_max(5u32));
    let looser = value(5, 8).metadata(UMetadata::with_max(6u32));
    let with_decision =
        |d: bool| UMetadata { max: FieldElement::from(5u32), should_reduce: Some(d) };
    let decided = value(5, 8).metadata(with_decision(true));
    let refused = value(5, 8).metadata(with_decision(false));
    assert!(plain != bound);
    assert!(bound != looser);
    assert!(bound != decided);
    assert!(decided != refused);
    assert!(bound == value(5, 8).metadata(UMetadata::with_max(5u128)));
    assert!(value(1, 8).add(plain) != value(1, 8).add(bound));
}

#[test]
fn a_change_in_an_embedded_expression_breaks_equality() {
    let shift = |amount: u32| {
        value(1, 8).left_shift(FieldElementExpression::Add(
            Box::new(FieldElementExpression::Identifier(Identifier::from("n"))),
            Box::new(FieldElementExpression::Number(FieldElement::from(amount))),
        ))
    };
    assert!(shift(1) == shift(1));
    assert!(shift(1) != shift(2));
    let select = |flag: bool| {
        UExpressionInner::IfElse(
            Box::new(BooleanExpression::Not(Box::new(BooleanExpression::Value(flag)))),
            Box::new(value(1, 8)),
            Box::new(value(2, 8)),
        )
        .annotate(8)
    };
    assert!(select(true) == select(true));
    assert!(select(true) != select(false));
}

#[test]
fn conversions_make_leaves() {
    assert!(UExpressionInner::from(42u128) == UExpressionInner::Value(42));
    assert!(
        UExpressionInner::from("answer")
            == UExpressionInner::Identifier(Identifier { id: "answer" })
    );
    assert_eq!(Identifier::from("answer").id, "answer");
}

#[test]
fn clones_are_equal_to_their_source() {
    let m = UMetadata { max: FieldElement::from(9u32), should_reduce: Some(false) };
    assert!(m.clone() == m);
    let f = FieldElementExpression::Pow(
        Box::new(FieldElementExpression::Identifier(Identifier::from("x"))),
        Box::new(value(3, 8)),
    );
    assert!(f.clone() == f);
    let b = BooleanExpression::FieldEq(Box::new(f.clone()), Box::new(f));
    assert!(b.clone() == b);
}

#[test]
fn equal_expressions_hash_alike() {
    let build = |max: FieldElement| {
        value(5, 8)
            .add(UExpressionInner::from("a").annotate(8))
            .metadata(UMetadata { max, should_reduce: None })
    };
    let a = build(FieldElement::from(300u32));
    let b = build(FieldElement::from_le_bytes(&[0x2c, 0x01, 0x00, 0x00]).unwrap());
    assert!(a == b);
    let mut ha = DefaultHasher::new();
    a.hash(&mut ha);
    let mut hb = DefaultHasher::new();
    b.hash(&mut hb);
    assert_eq!(ha.finish(), hb.finish());
}
