//! Unsigned integer expressions of a declared bit width, the bound that may
//! be attached to each, and the constructors that compose them.

use crate::field::{bit_length, FieldElement};
use crate::zir::identifier::Identifier;
use crate::zir::{
    BooleanExpression, BooleanExpressionView, FieldElementExpression, FieldElementExpressionView,
};
use vstd::prelude::*;
use vstd::std_specs::cmp::PartialEqSpec;
use vstd::std_specs::convert::FromSpecImpl;

verus! {

/// The declared width, in bits, of an unsigned integer expression.
pub type Bitwidth = usize;

/// What is known of the values an expression can take: an upper bound, and
/// whether the expression has to be reduced to its declared width. `None`
/// stands for a decision not taken yet.
#[derive(Debug, Hash)]
pub struct UMetadata {
    pub max: FieldElement,
    pub should_reduce: Option<bool>,
}

/// An unsigned integer expression with its declared width and, once it has
/// been computed, its bound.
#[derive(Debug, Hash)]
pub struct UExpression<'ast> {
    pub bitwidth: Bitwidth,
    pub metadata: Option<UMetadata>,
    pub inner: UExpressionInner<'ast>,
}

/// The node at the root of an unsigned integer expression.
#[derive(Debug, Hash)]
pub enum UExpressionInner<'ast> {
    /// A variable of an unsigned integer type.
    Identifier(Identifier<'ast>),
    /// An unsigned integer constant.
    Value(u128),
    /// The sum of two expressions.
    Add(Box<UExpression<'ast>>, Box<UExpression<'ast>>),
    /// The difference of two expressions.
    Sub(Box<UExpression<'ast>>, Box<UExpression<'ast>>),
    /// The product of two expressions.
    Mult(Box<UExpression<'ast>>, Box<UExpression<'ast>>),
    /// The bitwise exclusive or of two expressions.
    Xor(Box<UExpression<'ast>>, Box<UExpression<'ast>>),
    /// The bitwise conjunction of two expressions.
    And(Box<UExpression<'ast>>, Box<UExpression<'ast>>),
    /// The bitwise disjunction of two expressions.
    Or(Box<UExpression<'ast>>, Box<UExpression<'ast>>),
    /// An expression shifted left by an amount given as a field expression.
    LeftShift(Box<UExpression<'ast>>, Box<FieldElementExpression<'ast>>),
    /// An expression shifted right by an amount given as a field expression.
    RightShift(Box<UExpression<'ast>>, Box<FieldElementExpression<'ast>>),
    /// The bitwise complement of an expression.
    Not(Box<UExpression<'ast>>),
    /// One of two expressions, chosen by a condition.
    IfElse(Box<BooleanExpression<'ast>>, Box<UExpression<'ast>>, Box<UExpression<'ast>>),
}

/// What a bound is, apart from how it is stored: the maximum as a number.
pub struct UMetadataView {
    pub max: nat,
    pub should_reduce: Option<bool>,
}

/// What an unsigned integer expression is, apart from how it is stored.
pub struct UExpressionView {
    pub bitwidth: Bitwidth,
    pub metadata: Option<UMetadataView>,
    pub inner: UExpressionInnerView,
}

/// What a node is, apart from how it is stored: names are their characters.
pub enum UExpressionInnerView {
    Identifier(Seq<char>),
    Value(u128),
    Add(Box<UExpressionView>, Box<UExpressionView>),
    Sub(Box<UExpressionView>, Box<UExpressionView>),
    Mult(Box<UExpressionView>, Box<UExpressionView>),
    Xor(Box<UExpressionView>, Box<UExpressionView>),
    And(Box<UExpressionView>, Box<UExpressionView>),
    Or(Box<UExpressionView>, Box<UExpressionView>),
    LeftShift(Box<UExpressionView>, Box<FieldElementExpressionView>),
    RightShift(Box<UExpressionView>, Box<FieldElementExpressionView>),
    Not(Box<UExpressionView>),
    IfElse(Box<BooleanExpressionView>, Box<UExpressionView>, Box<UExpressionView>),
}

impl View for UMetadata {
    type V = UMetadataView;

    open spec fn view(&self) -> UMetadataView {
        UMetadataView { max: self.max@, should_reduce: self.should_reduce }
    }
}

impl vstd::std_specs::cmp::PartialEqSpecImpl for UMetadata {
    open spec fn obeys_eq_spec() -> bool {
        true
    }

    open spec fn eq_spec(&self, other: &Self) -> bool {
        self@ == other@
    }
}

impl PartialEq for UMetadata {
    /// Whether the two state the same maximum and the same decision.
    fn eq(&self, other: &Self) -> (r: bool) {
        self.max.eq(&other.max) && self.should_reduce == other.should_reduce
    }
}

impl Eq for UMetadata {

}

impl Clone for UMetadata {
    fn clone(&self) -> (r: Self)
        ensures
            r@ == self@,
    {
        UMetadata { max: self.max.clone(), should_reduce: self.should_reduce }
    }
}

impl<'ast> UExpression<'ast> {
    /// The expression as a mathematical tree.
    pub open spec fn tree(&self) -> UExpressionView
        decreases self,
    {
        UExpressionView {
            bitwidth: self.bitwidth,
            metadata: match self.metadata {
                Some(m) => Some(m@),
                None => None,
            },
            inner: self.inner.tree(),
        }
    }
}

impl<'ast> View for UExpression<'ast> {
    type V = UExpressionView;

    open spec fn view(&self) -> UExpressionView {
        self.tree()
    }
}

impl<'ast> vstd::std_specs::cmp::PartialEqSpecImpl for UExpression<'ast> {
    open spec fn obeys_eq_spec() -> bool {
        true
    }

    open spec fn eq_spec(&self, other: &Self) -> bool {
        self@ == other@
    }
}

impl<'ast> PartialEq for UExpression<'ast> {
    /// Whether the two declare the same width, carry equal bounds or none,
    /// and have equal nodes.
    fn eq(&self, other: &Self) -> (r: bool)
        decreases self,
    {
        self.bitwidth == other.bitwidth && self.metadata == other.metadata && self.inner.eq(
            &other.inner,
        )
    }
}

impl<'ast> Eq for UExpression<'ast> {

}

impl<'ast> Clone for UExpression<'ast> {
    fn clone(&self) -> (r: Self)
        ensures
            r@ == self@,
        decreases self,
    {
        let metadata = match &self.metadata {
            Some(m) => Some(m.clone()),
            None => None,
        };
        UExpression { bitwidth: self.bitwidth, metadata, inner: self.inner.clone() }
    }
}

impl<'ast> UExpressionInner<'ast> {
    /// The node as a mathematical tree.
    pub open spec fn tree(&self) -> UExpressionInnerView
        decreases self,
    {
        match self {
            Self::Identifier(a0) => UExpressionInnerView::Identifier(a0@),
            Self::Value(a0) => UExpressionInnerView::Value(*a0),
            Self::Add(a0, a1) => UExpressionInnerView::Add(
                Box::new(a0.tree()),
                Box::new(a1.tree()),
            ),
            Self::Sub(a0, a1) => UExpressionInnerView::Sub(
                Box::new(a0.tree()),
                Box::new(a1.tree()),
            ),
            Self::Mult(a0, a1) => UExpressionInnerView::Mult(
                Box::new(a0.tree()),
                Box::new(a1.tree()),
            ),
            Self::Xor(a0, a1) => UExpressionInnerView::Xor(
                Box::new(a0.tree()),
                Box::new(a1.tree()),
            ),
            Self::And(a0, a1) => UExpressionInnerView::And(
                Box::new(a0.tree()),
                Box::new(a1.tree()),
            ),
            Self::Or(a0, a1) => UExpressionInnerView::Or(Box::new(a0.tree()), Box::new(a1.tree())),
            Self::LeftShift(a0, a1) => UExpressionInnerView::LeftShift(
                Box::new(a0.tree()),
                Box::new(a1.tree()),
            ),
            Self::RightShift(a0, a1) => UExpressionInnerView::RightShift(
                Box::new(a0.tree()),
                Box::new(a1.tree()),
            ),
            Self::Not(a0) => UExpressionInnerView::Not(Box::new(a0.tree())),
            Self::IfElse(a0, a1, a2) => UExpressionInnerView::IfElse(
                Box::new(a0.tree()),
                Box::new(a1.tree()),
                Box::new(a2.tree()),
            ),
        }
    }
}

impl<'ast> UExpressionInner<'ast> {
    /// Whether the two are built by the same operator from equal parts:
    /// equal names, equal constants, equal expressions.
    pub open spec fn same_operator_and_parts(&self, other: &Self) -> bool {
        match (self, other) {
            (Self::Identifier(a0), Self::Identifier(b0)) => a0@ == b0@,
            (Self::Value(a0), Self::Value(b0)) => a0 == b0,
            (Self::Add(a0, a1), Self::Add(b0, b1)) => a0@ == b0@ && a1@ == b1@,
            (Self::Sub(a0, a1), Self::Sub(b0, b1)) => a0@ == b0@ && a1@ == b1@,
            (Self::Mult(a0, a1), Self::Mult(b0, b1)) => a0@ == b0@ && a1@ == b1@,
            (Self::Xor(a0, a1), Self::Xor(b0, b1)) => a0@ == b0@ && a1@ == b1@,
            (Self::And(a0, a1), Self::And(b0, b1)) => a0@ == b0@ && a1@ == b1@,
            (Self::Or(a0, a1), Self::Or(b0, b1)) => a0@ == b0@ && a1@ == b1@,
            (Self::LeftShift(a0, a1), Self::LeftShift(b0, b1)) => a0@ == b0@ && a1@ == b1@,
            (Self::RightShift(a0, a1), Self::RightShift(b0, b1)) => a0@ == b0@ && a1@ == b1@,
            (Self::Not(a0), Self::Not(b0)) => a0@ == b0@,
            (Self::IfElse(a0, a1, a2), Self::IfElse(b0, b1, b2)) => {
                a0@ == b0@
                && a1@ == b1@
                && a2@ == b2@
            },
            _ => false,
        }
    }

    /// Two nodes are equal exactly when they are built by the same operator
    /// from equal parts. Equality is thus structural all the way down: one
    /// differing leaf or operator anywhere in two trees makes them unequal.
    pub proof fn lemma_equal_iff_same_operator_and_parts(a: Self, b: Self)
        ensures
            a.eq_spec(&b) <==> a.same_operator_and_parts(&b),
    {
    }
}

impl<'ast> View for UExpressionInner<'ast> {
    type V = UExpressionInnerView;

    open spec fn view(&self) -> UExpressionInnerView {
        self.tree()
    }
}

impl<'ast> vstd::std_specs::cmp::PartialEqSpecImpl for UExpressionInner<'ast> {
    open spec fn obeys_eq_spec() -> bool {
        true
    }

    open spec fn eq_spec(&self, other: &Self) -> bool {
        self@ == other@
    }
}

impl<'ast> PartialEq for UExpressionInner<'ast> {
    /// Whether the two are the same tree: built by the same operators, in
    /// the same places, from equal leaves.
    fn eq(&self, other: &Self) -> (r: bool)
        decreases self,
    {
        match (self, other) {
            (Self::Identifier(a0), Self::Identifier(b0)) => a0.eq(b0),
            (Self::Value(a0), Self::Value(b0)) => *a0 == *b0,
            (Self::Add(a0, a1), Self::Add(b0, b1)) => (**a0).eq(&**b0) && (**a1).eq(&**b1),
            (Self::Sub(a0, a1), Self::Sub(b0, b1)) => (**a0).eq(&**b0) && (**a1).eq(&**b1),
            (Self::Mult(a0, a1), Self::Mult(b0, b1)) => (**a0).eq(&**b0) && (**a1).eq(&**b1),
            (Self::Xor(a0, a1), Self::Xor(b0, b1)) => (**a0).eq(&**b0) && (**a1).eq(&**b1),
            (Self::And(a0, a1), Self::And(b0, b1)) => (**a0).eq(&**b0) && (**a1).eq(&**b1),
            (Self::Or(a0, a1), Self::Or(b0, b1)) => (**a0).eq(&**b0) && (**a1).eq(&**b1),
            (Self::LeftShift(a0, a1), Self::LeftShift(b0, b1)) => {
                (**a0).eq(&**b0)
                && (**a1).eq(&**b1)
            },
            (Self::RightShift(a0, a1), Self::RightShift(b0, b1)) => {
                (**a0).eq(&**b0)
                && (**a1).eq(&**b1)
            },
            (Self::Not(a0), Self::Not(b0)) => (**a0).eq(&**b0),
            (Self::IfElse(a0, a1, a2), Self::IfElse(b0, b1, b2)) => {
                (**a0).eq(&**b0)
                && (**a1).eq(&**b1)
                && (**a2).eq(&**b2)
            },
            _ => false,
        }
    }
}

impl<'ast> Eq for UExpressionInner<'ast> {

}

impl<'ast> Clone for UExpressionInner<'ast> {
    fn clone(&self) -> (r: Self)
        ensures
            r@ == self@,
        decreases self,
    {
        match self {
            Self::Identifier(a0) => Self::Identifier(*a0),
            Self::Value(a0) => Self::Value(*a0),
            Self::Add(a0, a1) => Self::Add(Box::new((**a0).clone()), Box::new((**a1).clone())),
            Self::Sub(a0, a1) => Self::Sub(Box::new((**a0).clone()), Box::new((**a1).clone())),
            Self::Mult(a0, a1) => Self::Mult(Box::new((**a0).clone()), Box::new((**a1).clone())),
            Self::Xor(a0, a1) => Self::Xor(Box::new((**a0).clone()), Box::new((**a1).clone())),
            Self::And(a0, a1) => Self::And(Box::new((**a0).clone()), Box::new((**a1).clone())),
            Self::Or(a0, a1) => Self::Or(Box::new((**a0).clone()), Box::new((**a1).clone())),
            Self::LeftShift(a0, a1) => Self::LeftShift(
                Box::new((**a0).clone()),
                Box::new((**a1).clone()),
            ),
            Self::RightShift(a0, a1) => Self::RightShift(
                Box::new((**a0).clone()),
                Box::new((**a1).clone()),
            ),
            Self::Not(a0) => Self::Not(Box::new((**a0).clone())),
            Self::IfElse(a0, a1, a2) => Self::IfElse(
                Box::new((**a0).clone()),
                Box::new((**a1).clone()),
                Box::new((**a2).clone()),
            ),
        }
    }
}

impl UMetadata {
    /// A bound with the given maximum and no decision yet. The maximum is
    /// what the conversion of `max` into a field element returns: the
    /// element of that value for an unsigned integer, and `max` itself for
    /// a field element.
    pub fn with_max<U: Into<FieldElement>>(max: U) -> (r: Self)
        ensures
            call_ensures(U::into, (max,), r.max),
            r.should_reduce is None,
    {
        UMetadata { max: max.into(), should_reduce: None }
    }

    /// The least number of bits that can hold the maximum.
    pub fn bitwidth(&self) -> (r: u32)
        ensures
            r == bit_length(self.max@),
    {
        self.max.bits()
    }
}

impl<'ast> FromSpecImpl<u128> for UExpressionInner<'ast> {
    open spec fn obeys_from_spec() -> bool {
        true
    }

    open spec fn from_spec(e: u128) -> Self {
        UExpressionInner::Value(e)
    }
}

impl<'ast> From<u128> for UExpressionInner<'ast> {
    /// The constant `e`.
    fn from(e: u128) -> (r: Self) {
        UExpressionInner::Value(e)
    }
}

impl<'ast> FromSpecImpl<&'ast str> for UExpressionInner<'ast> {
    open spec fn obeys_from_spec() -> bool {
        true
    }

    open spec fn from_spec(e: &'ast str) -> Self {
        UExpressionInner::Identifier(Identifier { id: e })
    }
}

impl<'ast> From<&'ast str> for UExpressionInner<'ast> {
    /// The variable named `e`.
    fn from(e: &'ast str) -> (r: Self) {
        UExpressionInner::Identifier(Identifier::from(e))
    }
}

impl<'ast> UExpressionInner<'ast> {
    /// The expression of the given width with this node at its root and no
    /// bound attached.
    pub fn annotate(self, bitwidth: Bitwidth) -> (r: UExpression<'ast>)
        ensures
            r == (UExpression { bitwidth, metadata: None, inner: self }),
    {
        UExpression { metadata: None, bitwidth, inner: self }
    }
}

impl<'ast> UExpression<'ast> {
    /// The sum of two expressions of one width, at that width and with no
    /// bound attached.
    pub fn add(self, other: Self) -> (r: UExpression<'ast>)
        requires
            self.bitwidth == other.bitwidth,
        ensures
            r == (UExpression {
                bitwidth: self.bitwidth,
                metadata: None,
                inner: UExpressionInner::Add(Box::new(self), Box::new(other)),
            }),
    {
        let bitwidth = self.bitwidth;
        UExpressionInner::Add(Box::new(self), Box::new(other)).annotate(bitwidth)
    }

    /// The difference of two expressions of one width, at that width and with no
    /// bound attached.
    pub fn sub(self, other: Self) -> (r: UExpression<'ast>)
        requires
            self.bitwidth == other.bitwidth,
        ensures
            r == (UExpression {
                bitwidth: self.bitwidth,
                metadata: None,
                inner: UExpressionInner::Sub(Box::new(self), Box::new(other)),
            }),
    {
        let bitwidth = self.bitwidth;
        UExpressionInner::Sub(Box::new(self), Box::new(other)).annotate(bitwidth)
    }

    /// The product of two expressions of one width, at that width and with no
    /// bound attached.
    pub fn mult(self, other: Self) -> (r: UExpression<'ast>)
        requires
            self.bitwidth == other.bitwidth,
        ensures
            r == (UExpression {
                bitwidth: self.bitwidth,
                metadata: None,
                inner: UExpressionInner::Mult(Box::new(self), Box::new(other)),
            }),
    {
        let bitwidth = self.bitwidth;
        UExpressionInner::Mult(Box::new(self), Box::new(other)).annotate(bitwidth)
    }

    /// The bitwise exclusive or of two expressions of one width, at that width and with no
    /// bound attached.
    pub fn xor(self, other: Self) -> (r: UExpression<'ast>)
        requires
            self.bitwidth == other.bitwidth,
        ensures
            r == (UExpression {
                bitwidth: self.bitwidth,
                metadata: None,
                inner: UExpressionInner::Xor(Box::new(self), Box::new(other)),
            }),
    {
        let bitwidth = self.bitwidth;
        UExpressionInner::Xor(Box::new(self), Box::new(other)).annotate(bitwidth)
    }

    /// The bitwise disjunction of two expressions of one width, at that width and with no
    /// bound attached.
    pub fn or(self, other: Self) -> (r: UExpression<'ast>)
        requires
            self.bitwidth == other.bitwidth,
        ensures
            r == (UExpression {
                bitwidth: self.bitwidth,
                metadata: None,
                inner: UExpressionInner::Or(Box::new(self), Box::new(other)),
            }),
    {
        let bitwidth = self.bitwidth;
        UExpressionInner::Or(Box::new(self), Box::new(other)).annotate(bitwidth)
    }

    /// The bitwise conjunction of two expressions of one width, at that width and with no
    /// bound attached.
    pub fn and(self, other: Self) -> (r: UExpression<'ast>)
        requires
            self.bitwidth == other.bitwidth,
        ensures
            r == (UExpression {
                bitwidth: self.bitwidth,
                metadata: None,
                inner: UExpressionInner::And(Box::new(self), Box::new(other)),
            }),
    {
        let bitwidth = self.bitwidth;
        UExpressionInner::And(Box::new(self), Box::new(other)).annotate(bitwidth)
    }

    /// The expression shifted left by `by`. The amount is a field expression
    /// and carries no width; the result keeps the width of the expression.
    pub fn left_shift(self, by: FieldElementExpression<'ast>) -> (r: UExpression<'ast>)
        ensures
            r == (UExpression {
                bitwidth: self.bitwidth,
                metadata: None,
                inner: UExpressionInner::LeftShift(Box::new(self), Box::new(by)),
            }),
    {
        let bitwidth = self.bitwidth;
        UExpressionInner::LeftShift(Box::new(self), Box::new(by)).annotate(bitwidth)
    }

    /// The expression shifted right by `by`. The amount is a field expression
    /// and carries no width; the result keeps the width of the expression.
    pub fn right_shift(self, by: FieldElementExpression<'ast>) -> (r: UExpression<'ast>)
        ensures
            r == (UExpression {
                bitwidth: self.bitwidth,
                metadata: None,
                inner: UExpressionInner::RightShift(Box::new(self), Box::new(by)),
            }),
    {
        let bitwidth = self.bitwidth;
        UExpressionInner::RightShift(Box::new(self), Box::new(by)).annotate(bitwidth)
    }

    /// The same expression with its bound replaced by `metadata`.
    pub fn metadata(self, metadata: UMetadata) -> (r: UExpression<'ast>)
        ensures
            r == (UExpression {
                bitwidth: self.bitwidth,
                metadata: Some(metadata),
                inner: self.inner,
            }),
    {
        UExpression { metadata: Some(metadata), bitwidth: self.bitwidth, inner: self.inner }
    }

    /// The declared width.
    pub fn bitwidth(&self) -> (r: Bitwidth)
        ensures
            r == self.bitwidth,
    {
        self.bitwidth
    }

    /// The node at the root.
    pub fn as_inner(&self) -> (r: &UExpressionInner<'ast>)
        ensures
            *r == self.inner,
    {
        &self.inner
    }

    /// The node at the root, without the width and the bound.
    pub fn into_inner(self) -> (r: UExpressionInner<'ast>)
        ensures
            r == self.inner,
    {
        self.inner
    }
}

/// Each of the six binary operators can be applied to any two expressions
/// that declare the same width, and whatever it returns declares that width
/// and carries no bound.
pub proof fn lemma_operators_keep_the_width(a: UExpression, b: UExpression, r: UExpression)
    requires
        a.bitwidth == b.bitwidth,
    ensures
        call_requires(UExpression::add, (a, b)),
        call_requires(UExpression::sub, (a, b)),
        call_requires(UExpression::mult, (a, b)),
        call_requires(UExpression::xor, (a, b)),
        call_requires(UExpression::or, (a, b)),
        call_requires(UExpression::and, (a, b)),
        ({
            ||| call_ensures(UExpression::add, (a, b), r)
            ||| call_ensures(UExpression::sub, (a, b), r)
            ||| call_ensures(UExpression::mult, (a, b), r)
            ||| call_ensures(UExpression::xor, (a, b), r)
            ||| call_ensures(UExpression::or, (a, b), r)
            ||| call_ensures(UExpression::and, (a, b), r)
        }) ==> r.bitwidth == a.bitwidth && r.metadata is None,
{
}

/// Two expressions are equal exactly when they declare the same width,
/// carry bounds with the same maximum and the same decision or no bound at
/// all, and have equal nodes. With the law on nodes, a difference in a width
/// or a bound anywhere in two expressions thus makes them unequal.
pub proof fn lemma_expressions_equal_iff_parts_equal(a: UExpression, b: UExpression)
    ensures
        a.eq_spec(&b) <==> {
            &&& a.bitwidth == b.bitwidth
            &&& match (a.metadata, b.metadata) {
                (None, None) => true,
                (Some(m), Some(n)) => m.max@ == n.max@ && m.should_reduce == n.should_reduce,
                _ => false,
            }
            &&& a.inner.eq_spec(&b.inner)
        },
{
}

/// An expression that differs from another in its width alone, in its bound
/// alone or in its node alone is not equal to it.
pub proof fn lemma_one_change_breaks_equality(
    a: UExpression,
    bitwidth: Bitwidth,
    metadata: Option<UMetadata>,
    inner: UExpressionInner,
)
    ensures
        bitwidth != a.bitwidth ==> !a.eq_spec(
            &(UExpression { bitwidth, metadata: a.metadata, inner: a.inner }),
        ),
        !metadata.eq_spec(&a.metadata) ==> !a.eq_spec(
            &(UExpression { bitwidth: a.bitwidth, metadata, inner: a.inner }),
        ),
        !inner.eq_spec(&a.inner) ==> !a.eq_spec(
            &(UExpression { bitwidth: a.bitwidth, metadata: a.metadata, inner }),
        ),
{
}

/// A bound made from an unsigned integer needs exactly as many bits as the
/// integer has binary digits: whatever `with_max` returns for `v`, and
/// whatever `bitwidth` then returns for that bound, it is `bit_length(v)`.
/// The bound carries no decision.
pub proof fn lemma_with_max_bitwidth_u32(v: u32, m: UMetadata, bits: u32)
    requires
        call_ensures(UMetadata::with_max::<u32>, (v,), m),
        call_ensures(UMetadata::bitwidth, (&m,), bits),
    ensures
        m.max@ == v,
        m.should_reduce is None,
        bits == bit_length(v as nat),
{
}

/// The same for a `usize`.
pub proof fn lemma_with_max_bitwidth_usize(v: usize, m: UMetadata, bits: u32)
    requires
        call_ensures(UMetadata::with_max::<usize>, (v,), m),
        call_ensures(UMetadata::bitwidth, (&m,), bits),
    ensures
        m.max@ == v,
        m.should_reduce is None,
        bits == bit_length(v as nat),
{
}

/// The same for a `u128`.
pub proof fn lemma_with_max_bitwidth_u128(v: u128, m: UMetadata, bits: u32)
    requires
        call_ensures(UMetadata::with_max::<u128>, (v,), m),
        call_ensures(UMetadata::bitwidth, (&m,), bits),
    ensures
        m.max@ == v,
        m.should_reduce is None,
        bits == bit_length(v as nat),
{
}

/// A bound made from a field element has that element as its maximum and
/// needs as many bits as the element's value has binary digits.
pub proof fn lemma_with_max_bitwidth_field(v: FieldElement, m: UMetadata, bits: u32)
    requires
        call_ensures(UMetadata::with_max::<FieldElement>, (v,), m),
        call_ensures(UMetadata::bitwidth, (&m,), bits),
    ensures
        m.max == v,
        m.should_reduce is None,
        bits == bit_length(v@),
{
}

} // verus!
