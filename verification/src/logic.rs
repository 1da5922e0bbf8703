//! Boolean algebra on boolean terms, and the conditional selector.

use vstd::prelude::*;
use crate::term::{Bool, BoolTerm};

verus! {

/// Negation.
pub trait Not: Bool {
    /// The term that the rules derive: `Not(True) = False`, `Not(False) = True`.
    spec fn not_spec(self) -> Self;

    /// Resolves `Not(self)` in one step.
    fn not(&self) -> (r: Self)
        ensures
            r == self.not_spec(),
            r.holds() == !self.holds(),
    ;
}

/// Conjunction. Both operands are complete terms before the rule is chosen;
/// the right one is merely unused where the left one is `False`.
pub trait AndAlso: Bool {
    /// The term that the rules derive: `False` where `self` is `False`,
    /// otherwise `rhs`.
    spec fn and_also_spec(self, rhs: Self) -> Self;

    /// Resolves `AndAlso(self, rhs)` in one step.
    fn and_also(&self, rhs: &Self) -> (r: Self)
        ensures
            r == self.and_also_spec(*rhs),
            r.holds() == (self.holds() && rhs.holds()),
    ;
}

/// Disjunction. Both operands are complete terms before the rule is chosen;
/// the right one is merely unused where the left one is `True`.
pub trait OrElse: Bool {
    /// The term that the rules derive: `True` where `self` is `True`,
    /// otherwise `rhs`.
    spec fn or_else_spec(self, rhs: Self) -> Self;

    /// Resolves `OrElse(self, rhs)` in one step.
    fn or_else(&self, rhs: &Self) -> (r: Self)
        ensures
            r == self.or_else_spec(*rhs),
            r.holds() == (self.holds() || rhs.holds()),
    ;
}

/// Selection between the two members of a pair `(then, otherwise)` by a
/// boolean term.
pub trait If<C: Bool>: Sized {
    /// What is selected.
    type Result;

    /// The member that the rules select: the first where `cond` is `True`,
    /// the second where it is `False`.
    spec fn chosen(self, cond: C) -> Self::Result;

    /// Resolves `If(cond, then, otherwise)` in one step.
    fn select(self, cond: &C) -> (r: Self::Result)
        ensures
            r == self.chosen(*cond),
    ;
}

impl Not for BoolTerm {
    open spec fn not_spec(self) -> BoolTerm {
        match self {
            BoolTerm::True(_) => BoolTerm::falsity(),
            BoolTerm::False(_) => BoolTerm::truth(),
        }
    }

    fn not(&self) -> (r: BoolTerm) {
        match self {
            BoolTerm::True(_) => BoolTerm::falsity(),
            BoolTerm::False(_) => BoolTerm::truth(),
        }
    }
}

impl AndAlso for BoolTerm {
    open spec fn and_also_spec(self, rhs: BoolTerm) -> BoolTerm {
        match self {
            BoolTerm::False(_) => BoolTerm::falsity(),
            BoolTerm::True(_) => rhs,
        }
    }

    fn and_also(&self, rhs: &BoolTerm) -> (r: BoolTerm) {
        match self {
            BoolTerm::False(_) => BoolTerm::falsity(),
            BoolTerm::True(_) => *rhs,
        }
    }
}

impl OrElse for BoolTerm {
    open spec fn or_else_spec(self, rhs: BoolTerm) -> BoolTerm {
        match self {
            BoolTerm::True(_) => BoolTerm::truth(),
            BoolTerm::False(_) => rhs,
        }
    }

    fn or_else(&self, rhs: &BoolTerm) -> (r: BoolTerm) {
        match self {
            BoolTerm::True(_) => BoolTerm::truth(),
            BoolTerm::False(_) => *rhs,
        }
    }
}

impl<T> If<BoolTerm> for (T, T) {
    type Result = T;

    open spec fn chosen(self, cond: BoolTerm) -> T {
        match cond {
            BoolTerm::True(_) => self.0,
            BoolTerm::False(_) => self.1,
        }
    }

    fn select(self, cond: &BoolTerm) -> (r: T) {
        match cond {
            BoolTerm::True(_) => self.0,
            BoolTerm::False(_) => self.1,
        }
    }
}

/// Negating twice gives the term back.
pub proof fn law_double_negation(x: BoolTerm)
    ensures
        x.not_spec().not_spec() == x,
{
}

/// Conjunction has `True` as its identity on either side, is dominated by
/// `False` on either side, and is idempotent.
pub proof fn law_and_also(x: BoolTerm)
    ensures
        x.and_also_spec(BoolTerm::truth()) == x,
        BoolTerm::truth().and_also_spec(x) == x,
        x.and_also_spec(BoolTerm::falsity()) == BoolTerm::falsity(),
        BoolTerm::falsity().and_also_spec(x) == BoolTerm::falsity(),
        x.and_also_spec(x) == x,
{
}

/// Disjunction has `False` as its identity on either side, is dominated by
/// `True` on either side, and is idempotent.
pub proof fn law_or_else(x: BoolTerm)
    ensures
        x.or_else_spec(BoolTerm::falsity()) == x,
        BoolTerm::falsity().or_else_spec(x) == x,
        x.or_else_spec(BoolTerm::truth()) == BoolTerm::truth(),
        BoolTerm::truth().or_else_spec(x) == BoolTerm::truth(),
        x.or_else_spec(x) == x,
{
}

} // verus!
