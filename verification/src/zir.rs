//! The typed intermediate representation: three algebras of expressions,
//! over unsigned integers, over booleans and over field elements, each of
//! which may hold expressions of the others. This file holds the boolean and
//! the field algebra; `uint` holds the unsigned integers.

pub mod identifier;
pub mod uint;

use crate::field::FieldElement;
use crate::zir::identifier::Identifier;
use crate::zir::uint::{UExpression, UExpressionView};
use vstd::prelude::*;
use vstd::std_specs::cmp::PartialEqSpec;

verus! {

/// An expression of type field.
#[derive(Debug, Hash)]
pub enum FieldElementExpression<'ast> {
    /// A constant of the field.
    Number(FieldElement),
    /// A variable of type field.
    Identifier(Identifier<'ast>),
    /// The sum of two field expressions.
    Add(Box<FieldElementExpression<'ast>>, Box<FieldElementExpression<'ast>>),
    /// The difference of two field expressions.
    Sub(Box<FieldElementExpression<'ast>>, Box<FieldElementExpression<'ast>>),
    /// The product of two field expressions.
    Mult(Box<FieldElementExpression<'ast>>, Box<FieldElementExpression<'ast>>),
    /// The quotient of two field expressions.
    Div(Box<FieldElementExpression<'ast>>, Box<FieldElementExpression<'ast>>),
    /// A field expression raised to an unsigned integer power.
    Pow(Box<FieldElementExpression<'ast>>, Box<UExpression<'ast>>),
    /// One of two field expressions, chosen by a condition.
    IfElse(
        Box<BooleanExpression<'ast>>,
        Box<FieldElementExpression<'ast>>,
        Box<FieldElementExpression<'ast>>,
    ),
}

/// An expression of type boolean.
#[derive(Debug, Hash)]
pub enum BooleanExpression<'ast> {
    /// A variable of type boolean.
    Identifier(Identifier<'ast>),
    /// A boolean constant.
    Value(bool),
    /// Whether the first field expression is less than the second.
    FieldLt(Box<FieldElementExpression<'ast>>, Box<FieldElementExpression<'ast>>),
    /// Whether the first field expression is at most the second.
    FieldLe(Box<FieldElementExpression<'ast>>, Box<FieldElementExpression<'ast>>),
    /// Whether the first field expression is at least the second.
    FieldGe(Box<FieldElementExpression<'ast>>, Box<FieldElementExpression<'ast>>),
    /// Whether the first field expression is greater than the second.
    FieldGt(Box<FieldElementExpression<'ast>>, Box<FieldElementExpression<'ast>>),
    /// Whether the first unsigned integer is less than the second.
    UintLt(Box<UExpression<'ast>>, Box<UExpression<'ast>>),
    /// Whether the first unsigned integer is at most the second.
    UintLe(Box<UExpression<'ast>>, Box<UExpression<'ast>>),
    /// Whether the first unsigned integer is at least the second.
    UintGe(Box<UExpression<'ast>>, Box<UExpression<'ast>>),
    /// Whether the first unsigned integer is greater than the second.
    UintGt(Box<UExpression<'ast>>, Box<UExpression<'ast>>),
    /// Whether two field expressions are equal.
    FieldEq(Box<FieldElementExpression<'ast>>, Box<FieldElementExpression<'ast>>),
    /// Whether two conditions are equal.
    BoolEq(Box<BooleanExpression<'ast>>, Box<BooleanExpression<'ast>>),
    /// Whether two unsigned integers are equal.
    UintEq(Box<UExpression<'ast>>, Box<UExpression<'ast>>),
    /// The disjunction of two conditions.
    Or(Box<BooleanExpression<'ast>>, Box<BooleanExpression<'ast>>),
    /// The conjunction of two conditions.
    And(Box<BooleanExpression<'ast>>, Box<BooleanExpression<'ast>>),
    /// The negation of a condition.
    Not(Box<BooleanExpression<'ast>>),
    /// One of two conditions, chosen by a third.
    IfElse(
        Box<BooleanExpression<'ast>>,
        Box<BooleanExpression<'ast>>,
        Box<BooleanExpression<'ast>>,
    ),
}

/// What a field expression is, apart from how it is stored: names are
/// their characters, constants are numbers.
pub enum FieldElementExpressionView {
    Number(nat),
    Identifier(Seq<char>),
    Add(Box<FieldElementExpressionView>, Box<FieldElementExpressionView>),
    Sub(Box<FieldElementExpressionView>, Box<FieldElementExpressionView>),
    Mult(Box<FieldElementExpressionView>, Box<FieldElementExpressionView>),
    Div(Box<FieldElementExpressionView>, Box<FieldElementExpressionView>),
    Pow(Box<FieldElementExpressionView>, Box<UExpressionView>),
    IfElse(
        Box<BooleanExpressionView>,
        Box<FieldElementExpressionView>,
        Box<FieldElementExpressionView>,
    ),
}

/// What a boolean expression is, apart from how it is stored.
pub enum BooleanExpressionView {
    Identifier(Seq<char>),
    Value(bool),
    FieldLt(Box<FieldElementExpressionView>, Box<FieldElementExpressionView>),
    FieldLe(Box<FieldElementExpressionView>, Box<FieldElementExpressionView>),
    FieldGe(Box<FieldElementExpressionView>, Box<FieldElementExpressionView>),
    FieldGt(Box<FieldElementExpressionView>, Box<FieldElementExpressionView>),
    UintLt(Box<UExpressionView>, Box<UExpressionView>),
    UintLe(Box<UExpressionView>, Box<UExpressionView>),
    UintGe(Box<UExpressionView>, Box<UExpressionView>),
    UintGt(Box<UExpressionView>, Box<UExpressionView>),
    FieldEq(Box<FieldElementExpressionView>, Box<FieldElementExpressionView>),
    BoolEq(Box<BooleanExpressionView>, Box<BooleanExpressionView>),
    UintEq(Box<UExpressionView>, Box<UExpressionView>),
    Or(Box<BooleanExpressionView>, Box<BooleanExpressionView>),
    And(Box<BooleanExpressionView>, Box<BooleanExpressionView>),
    Not(Box<BooleanExpressionView>),
    IfElse(Box<BooleanExpressionView>, Box<BooleanExpressionView>, Box<BooleanExpressionView>),
}

impl<'ast> FieldElementExpression<'ast> {
    /// The field expression as a mathematical tree.
    pub open spec fn tree(&self) -> FieldElementExpressionView
        decreases self,
    {
        match self {
            Self::Number(a0) => FieldElementExpressionView::Number(a0@),
            Self::Identifier(a0) => FieldElementExpressionView::Identifier(a0@),
            Self::Add(a0, a1) => FieldElementExpressionView::Add(
                Box::new(a0.tree()),
                Box::new(a1.tree()),
            ),
            Self::Sub(a0, a1) => FieldElementExpressionView::Sub(
                Box::new(a0.tree()),
                Box::new(a1.tree()),
            ),
            Self::Mult(a0, a1) => FieldElementExpressionView::Mult(
                Box::new(a0.tree()),
                Box::new(a1.tree()),
            ),
            Self::Div(a0, a1) => FieldElementExpressionView::Div(
                Box::new(a0.tree()),
                Box::new(a1.tree()),
            ),
            Self::Pow(a0, a1) => FieldElementExpressionView::Pow(
                Box::new(a0.tree()),
                Box::new(a1.tree()),
            ),
            Self::IfElse(a0, a1, a2) => FieldElementExpressionView::IfElse(
                Box::new(a0.tree()),
                Box::new(a1.tree()),
                Box::new(a2.tree()),
            ),
        }
    }
}

impl<'ast> FieldElementExpression<'ast> {
    /// Whether the two are built by the same operator from equal parts:
    /// equal names, equal constants, equal expressions.
    pub open spec fn same_operator_and_parts(&self, other: &Self) -> bool {
        match (self, other) {
            (Self::Number(a0), Self::Number(b0)) => a0@ == b0@,
            (Self::Identifier(a0), Self::Identifier(b0)) => a0@ == b0@,
            (Self::Add(a0, a1), Self::Add(b0, b1)) => a0@ == b0@ && a1@ == b1@,
            (Self::Sub(a0, a1), Self::Sub(b0, b1)) => a0@ == b0@ && a1@ == b1@,
            (Self::Mult(a0, a1), Self::Mult(b0, b1)) => a0@ == b0@ && a1@ == b1@,
            (Self::Div(a0, a1), Self::Div(b0, b1)) => a0@ == b0@ && a1@ == b1@,
            (Self::Pow(a0, a1), Self::Pow(b0, b1)) => a0@ == b0@ && a1@ == b1@,
            (Self::IfElse(a0, a1, a2), Self::IfElse(b0, b1, b2)) => {
                a0@ == b0@
                && a1@ == b1@
                && a2@ == b2@
            },
            _ => false,
        }
    }

    /// Two field expressions are equal exactly when they are built by the same operator
    /// from equal parts. Equality is thus structural all the way down: one
    /// differing leaf or operator anywhere in two trees makes them unequal.
    pub proof fn lemma_equal_iff_same_operator_and_parts(a: Self, b: Self)
        ensures
            a.eq_spec(&b) <==> a.same_operator_and_parts(&b),
    {
    }
}

impl<'ast> View for FieldElementExpression<'ast> {
    type V = FieldElementExpressionView;

    open spec fn view(&self) -> FieldElementExpressionView {
        self.tree()
    }
}

impl<'ast> vstd::std_specs::cmp::PartialEqSpecImpl for FieldElementExpression<'ast> {
    open spec fn obeys_eq_spec() -> bool {
        true
    }

    open spec fn eq_spec(&self, other: &Self) -> bool {
        self@ == other@
    }
}

impl<'ast> PartialEq for FieldElementExpression<'ast> {
    /// Whether the two are the same tree: built by the same operators, in
    /// the same places, from equal leaves.
    fn eq(&self, other: &Self) -> (r: bool)
        decreases self,
    {
        match (self, other) {
            (Self::Number(a0), Self::Number(b0)) => a0.eq(b0),
            (Self::Identifier(a0), Self::Identifier(b0)) => a0.eq(b0),
            (Self::Add(a0, a1), Self::Add(b0, b1)) => (**a0).eq(&**b0) && (**a1).eq(&**b1),
            (Self::Sub(a0, a1), Self::Sub(b0, b1)) => (**a0).eq(&**b0) && (**a1).eq(&**b1),
            (Self::Mult(a0, a1), Self::Mult(b0, b1)) => (**a0).eq(&**b0) && (**a1).eq(&**b1),
            (Self::Div(a0, a1), Self::Div(b0, b1)) => (**a0).eq(&**b0) && (**a1).eq(&**b1),
            (Self::Pow(a0, a1), Self::Pow(b0, b1)) => (**a0).eq(&**b0) && (**a1).eq(&**b1),
            (Self::IfElse(a0, a1, a2), Self::IfElse(b0, b1, b2)) => {
                (**a0).eq(&**b0)
                && (**a1).eq(&**b1)
                && (**a2).eq(&**b2)
            },
            _ => false,
        }
    }
}

impl<'ast> Eq for FieldElementExpression<'ast> {

}

impl<'ast> Clone for FieldElementExpression<'ast> {
    fn clone(&self) -> (r: Self)
        ensures
            r@ == self@,
        decreases self,
    {
        match self {
            Self::Number(a0) => Self::Number(a0.clone()),
            Self::Identifier(a0) => Self::Identifier(*a0),
            Self::Add(a0, a1) => Self::Add(Box::new((**a0).clone()), Box::new((**a1).clone())),
            Self::Sub(a0, a1) => Self::Sub(Box::new((**a0).clone()), Box::new((**a1).clone())),
            Self::Mult(a0, a1) => Self::Mult(Box::new((**a0).clone()), Box::new((**a1).clone())),
            Self::Div(a0, a1) => Self::Div(Box::new((**a0).clone()), Box::new((**a1).clone())),
            Self::Pow(a0, a1) => Self::Pow(Box::new((**a0).clone()), Box::new((**a1).clone())),
            Self::IfElse(a0, a1, a2) => Self::IfElse(
                Box::new((**a0).clone()),
                Box::new((**a1).clone()),
                Box::new((**a2).clone()),
            ),
        }
    }
}

impl<'ast> BooleanExpression<'ast> {
    /// The condition as a mathematical tree.
    pub open spec fn tree(&self) -> BooleanExpressionView
        decreases self,
    {
        match self {
            Self::Identifier(a0) => BooleanExpressionView::Identifier(a0@),
            Self::Value(a0) => BooleanExpressionView::Value(*a0),
            Self::FieldLt(a0, a1) => BooleanExpressionView::FieldLt(
                Box::new(a0.tree()),
                Box::new(a1.tree()),
            ),
            Self::FieldLe(a0, a1) => BooleanExpressionView::FieldLe(
                Box::new(a0.tree()),
                Box::new(a1.tree()),
            ),
            Self::FieldGe(a0, a1) => BooleanExpressionView::FieldGe(
                Box::new(a0.tree()),
                Box::new(a1.tree()),
            ),
            Self::FieldGt(a0, a1) => BooleanExpressionView::FieldGt(
                Box::new(a0.tree()),
                Box::new(a1.tree()),
            ),
            Self::UintLt(a0, a1) => BooleanExpressionView::UintLt(
                Box::new(a0.tree()),
                Box::new(a1.tree()),
            ),
            Self::UintLe(a0, a1) => BooleanExpressionView::UintLe(
                Box::new(a0.tree()),
                Box::new(a1.tree()),
            ),
            Self::UintGe(a0, a1) => BooleanExpressionView::UintGe(
                Box::new(a0.tree()),
                Box::new(a1.tree()),
            ),
            Self::UintGt(a0, a1) => BooleanExpressionView::UintGt(
                Box::new(a0.tree()),
                Box::new(a1.tree()),
            ),
            Self::FieldEq(a0, a1) => BooleanExpressionView::FieldEq(
                Box::new(a0.tree()),
                Box::new(a1.tree()),
            ),
            Self::BoolEq(a0, a1) => BooleanExpressionView::BoolEq(
                Box::new(a0.tree()),
                Box::new(a1.tree()),
            ),
            Self::UintEq(a0, a1) => BooleanExpressionView::UintEq(
                Box::new(a0.tree()),
                Box::new(a1.tree()),
            ),
            Self::Or(a0, a1) => BooleanExpressionView::Or(Box::new(a0.tree()), Box::new(a1.tree())),
            Self::And(a0, a1) => BooleanExpressionView::And(
                Box::new(a0.tree()),
                Box::new(a1.tree()),
            ),
            Self::Not(a0) => BooleanExpressionView::Not(Box::new(a0.tree())),
            Self::IfElse(a0, a1, a2) => BooleanExpressionView::IfElse(
                Box::new(a0.tree()),
                Box::new(a1.tree()),
                Box::new(a2.tree()),
            ),
        }
    }
}

impl<'ast> BooleanExpression<'ast> {
    /// Whether the two are built by the same operator from equal parts:
    /// equal names, equal constants, equal expressions.
    pub open spec fn same_operator_and_parts(&self, other: &Self) -> bool {
        match (self, other) {
            (Self::Identifier(a0), Self::Identifier(b0)) => a0@ == b0@,
            (Self::Value(a0), Self::Value(b0)) => a0 == b0,
            (Self::FieldLt(a0, a1), Self::FieldLt(b0, b1)) => a0@ == b0@ && a1@ == b1@,
            (Self::FieldLe(a0, a1), Self::FieldLe(b0, b1)) => a0@ == b0@ && a1@ == b1@,
            (Self::FieldGe(a0, a1), Self::FieldGe(b0, b1)) => a0@ == b0@ && a1@ == b1@,
            (Self::FieldGt(a0, a1), Self::FieldGt(b0, b1)) => a0@ == b0@ && a1@ == b1@,
            (Self::UintLt(a0, a1), Self::UintLt(b0, b1)) => a0@ == b0@ && a1@ == b1@,
            (Self::UintLe(a0, a1), Self::UintLe(b0, b1)) => a0@ == b0@ && a1@ == b1@,
            (Self::UintGe(a0, a1), Self::UintGe(b0, b1)) => a0@ == b0@ && a1@ == b1@,
            (Self::UintGt(a0, a1), Self::UintGt(b0, b1)) => a0@ == b0@ && a1@ == b1@,
            (Self::FieldEq(a0, a1), Self::FieldEq(b0, b1)) => a0@ == b0@ && a1@ == b1@,
            (Self::BoolEq(a0, a1), Self::BoolEq(b0, b1)) => a0@ == b0@ && a1@ == b1@,
            (Self::UintEq(a0, a1), Self::UintEq(b0, b1)) => a0@ == b0@ && a1@ == b1@,
            (Self::Or(a0, a1), Self::Or(b0, b1)) => a0@ == b0@ && a1@ == b1@,
            (Self::And(a0, a1), Self::And(b0, b1)) => a0@ == b0@ && a1@ == b1@,
            (Self::Not(a0), Self::Not(b0)) => a0@ == b0@,
            (Self::IfElse(a0, a1, a2), Self::IfElse(b0, b1, b2)) => {
                a0@ == b0@
                && a1@ == b1@
                && a2@ == b2@
            },
            _ => false,
        }
    }

    /// Two conditions are equal exactly when they are built by the same operator
    /// from equal parts. Equality is thus structural all the way down: one
    /// differing leaf or operator anywhere in two trees makes them unequal.
    pub proof fn lemma_equal_iff_same_operator_and_parts(a: Self, b: Self)
        ensures
            a.eq_spec(&b) <==> a.same_operator_and_parts(&b),
    {
    }
}

impl<'ast> View for BooleanExpression<'ast> {
    type V = BooleanExpressionView;

    open spec fn view(&self) -> BooleanExpressionView {
        self.tree()
    }
}

impl<'ast> vstd::std_specs::cmp::PartialEqSpecImpl for BooleanExpression<'ast> {
    open spec fn obeys_eq_spec() -> bool {
        true
    }

    open spec fn eq_spec(&self, other: &Self) -> bool {
        self@ == other@
    }
}

impl<'ast> PartialEq for BooleanExpression<'ast> {
    /// Whether the two are the same tree: built by the same operators, in
    /// the same places, from equal leaves.
    fn eq(&self, other: &Self) -> (r: bool)
        decreases self,
    {
        match (self, other) {
            (Self::Identifier(a0), Self::Identifier(b0)) => a0.eq(b0),
            (Self::Value(a0), Self::Value(b0)) => *a0 == *b0,
            (Self::FieldLt(a0, a1), Self::FieldLt(b0, b1)) => (**a0).eq(&**b0) && (**a1).eq(&**b1),
            (Self::FieldLe(a0, a1), Self::FieldLe(b0, b1)) => (**a0).eq(&**b0) && (**a1).eq(&**b1),
            (Self::FieldGe(a0, a1), Self::FieldGe(b0, b1)) => (**a0).eq(&**b0) && (**a1).eq(&**b1),
            (Self::FieldGt(a0, a1), Self::FieldGt(b0, b1)) => (**a0).eq(&**b0) && (**a1).eq(&**b1),
            (Self::UintLt(a0, a1), Self::UintLt(b0, b1)) => (**a0).eq(&**b0) && (**a1).eq(&**b1),
            (Self::UintLe(a0, a1), Self::UintLe(b0, b1)) => (**a0).eq(&**b0) && (**a1).eq(&**b1),
            (Self::UintGe(a0, a1), Self::UintGe(b0, b1)) => (**a0).eq(&**b0) && (**a1).eq(&**b1),
            (Self::UintGt(a0, a1), Self::UintGt(b0, b1)) => (**a0).eq(&**b0) && (**a1).eq(&**b1),
            (Self::FieldEq(a0, a1), Self::FieldEq(b0, b1)) => (**a0).eq(&**b0) && (**a1).eq(&**b1),
            (Self::BoolEq(a0, a1), Self::BoolEq(b0, b1)) => (**a0).eq(&**b0) && (**a1).eq(&**b1),
            (Self::UintEq(a0, a1), Self::UintEq(b0, b1)) => (**a0).eq(&**b0) && (**a1).eq(&**b1),
            (Self::Or(a0, a1), Self::Or(b0, b1)) => (**a0).eq(&**b0) && (**a1).eq(&**b1),
            (Self::And(a0, a1), Self::And(b0, b1)) => (**a0).eq(&**b0) && (**a1).eq(&**b1),
            (Self::Not(a0), Self::Not(b0)) => (**a0).eq(&**b0),
            (Self::IfElse(a0, a1, a2), Self::IfElse(b0, b1, b2)) => {
                (**a0).eq(&**b0)
                && (**a1).eq(&**b1)
                && (**a2).eq(&**b2)
            },
            _ => false,
        }
    }
}

impl<'ast> Eq for BooleanExpression<'ast> {

}

impl<'ast> Clone for BooleanExpression<'ast> {
    fn clone(&self) -> (r: Self)
        ensures
            r@ == self@,
        decreases self,
    {
        match self {
            Self::Identifier(a0) => Self::Identifier(*a0),
            Self::Value(a0) => Self::Value(*a0),
            Self::FieldLt(a0, a1) => Self::FieldLt(
                Box::new((**a0).clone()),
                Box::new((**a1).clone()),
            ),
            Self::FieldLe(a0, a1) => Self::FieldLe(
                Box::new((**a0).clone()),
                Box::new((**a1).clone()),
            ),
            Self::FieldGe(a0, a1) => Self::FieldGe(
                Box::new((**a0).clone()),
                Box::new((**a1).clone()),
            ),
            Self::FieldGt(a0, a1) => Self::FieldGt(
                Box::new((**a0).clone()),
                Box::new((**a1).clone()),
            ),
            Self::UintLt(a0, a1) => Self::UintLt(
                Box::new((**a0).clone()),
                Box::new((**a1).clone()),
            ),
            Self::UintLe(a0, a1) => Self::UintLe(
                Box::new((**a0).clone()),
                Box::new((**a1).clone()),
            ),
            Self::UintGe(a0, a1) => Self::UintGe(
                Box::new((**a0).clone()),
                Box::new((**a1).clone()),
            ),
            Self::UintGt(a0, a1) => Self::UintGt(
                Box::new((**a0).clone()),
                Box::new((**a1).clone()),
            ),
            Self::FieldEq(a0, a1) => Self::FieldEq(
                Box::new((**a0).clone()),
                Box::new((**a1).clone()),
            ),
            Self::BoolEq(a0, a1) => Self::BoolEq(
                Box::new((**a0).clone()),
                Box::new((**a1).clone()),
            ),
            Self::UintEq(a0, a1) => Self::UintEq(
                Box::new((**a0).clone()),
                Box::new((**a1).clone()),
            ),
            Self::Or(a0, a1) => Self::Or(Box::new((**a0).clone()), Box::new((**a1).clone())),
            Self::And(a0, a1) => Self::And(Box::new((**a0).clone()), Box::new((**a1).clone())),
            Self::Not(a0) => Self::Not(Box::new((**a0).clone())),
            Self::IfElse(a0, a1, a2) => Self::IfElse(
                Box::new((**a0).clone()),
                Box::new((**a1).clone()),
                Box::new((**a2).clone()),
            ),
        }
    }
}

} // verus!
