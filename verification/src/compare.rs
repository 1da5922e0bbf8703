//! The comparator: structural equality and strict order on natural terms.

use vstd::prelude::*;
use crate::term::{Bool, BoolTerm, EvalError, Nat, NatTerm};

verus! {

/// Equality of two natural terms, as a boolean term.
pub trait Equals: Nat {
    /// The term that the rules derive: two zeros are equal, a zero and a
    /// successor are not, and two successors are equal where their inner
    /// terms are.
    spec fn equals_spec(self, rhs: Self) -> BoolTerm;

    /// How deep the derivation nests: one application of the recursive rule
    /// for each successor layer that both operands have.
    spec fn equals_depth(self, rhs: Self) -> nat;

    /// Resolves `Equals(self, rhs)`, or reports that the derivation would
    /// nest deeper than `limit`.
    fn equals(&self, rhs: &Self, limit: usize) -> (r: Result<BoolTerm, EvalError>)
        ensures
            r == (if self.equals_depth(*rhs) <= limit {
                Ok(self.equals_spec(*rhs))
            } else {
                Err(EvalError::DepthExceeded)
            }),
            r matches Ok(b) ==> b.holds() == (self.value() == rhs.value()),
            r is Ok <==> self.value() <= limit || rhs.value() <= limit,
    ;
}

/// Strict order of two natural terms, as a boolean term.
pub trait LessThan: Nat {
    /// The term that the rules derive: zero is less than every successor,
    /// nothing is less than zero, and a successor is less than another where
    /// their inner terms are so.
    spec fn less_than_spec(self, rhs: Self) -> BoolTerm;

    /// How deep the derivation nests: one application of the recursive rule
    /// for each successor layer that both operands have.
    spec fn less_than_depth(self, rhs: Self) -> nat;

    /// Resolves `LessThan(self, rhs)`, or reports that the derivation would
    /// nest deeper than `limit`.
    fn less_than(&self, rhs: &Self, limit: usize) -> (r: Result<BoolTerm, EvalError>)
        ensures
            r == (if self.less_than_depth(*rhs) <= limit {
                Ok(self.less_than_spec(*rhs))
            } else {
                Err(EvalError::DepthExceeded)
            }),
            r matches Ok(b) ==> b.holds() == (self.value() < rhs.value()),
            r is Ok <==> self.value() <= limit || rhs.value() <= limit,
    ;
}

/// The number of successor layers that two terms have in common.
pub open spec fn shared_layers(a: NatTerm, b: NatTerm) -> nat {
    if a.value() <= b.value() {
        a.value()
    } else {
        b.value()
    }
}

impl Equals for NatTerm {
    open spec fn equals_spec(self, rhs: NatTerm) -> BoolTerm
        decreases self,
    {
        match self {
            NatTerm::Zero(_) => match rhs {
                NatTerm::Zero(_) => BoolTerm::truth(),
                NatTerm::Succ(_) => BoolTerm::falsity(),
            },
            NatTerm::Succ(a) => match rhs {
                NatTerm::Zero(_) => BoolTerm::falsity(),
                NatTerm::Succ(b) => a.inner.equals_spec(*b.inner),
            },
        }
    }

    open spec fn equals_depth(self, rhs: NatTerm) -> nat {
        shared_layers(self, rhs)
    }

    fn equals(&self, rhs: &NatTerm, limit: usize) -> (r: Result<BoolTerm, EvalError>)
        decreases limit,
    {
        proof {
            lemma_equals_holds(*self, *rhs);
        }
        match self {
            NatTerm::Zero(_) => match rhs {
                NatTerm::Zero(_) => Ok(BoolTerm::truth()),
                NatTerm::Succ(_) => Ok(BoolTerm::falsity()),
            },
            NatTerm::Succ(a) => match rhs {
                NatTerm::Zero(_) => Ok(BoolTerm::falsity()),
                NatTerm::Succ(b) => {
                    assert(shared_layers(*self, *rhs) == 1 + shared_layers(*a.inner, *b.inner));
                    if limit == 0 {
                        Err(EvalError::DepthExceeded)
                    } else {
                        a.inner.equals(&b.inner, limit - 1)
                    }
                },
            },
        }
    }
}

impl LessThan for NatTerm {
    open spec fn less_than_spec(self, rhs: NatTerm) -> BoolTerm
        decreases self,
    {
        match self {
            NatTerm::Zero(_) => match rhs {
                NatTerm::Zero(_) => BoolTerm::falsity(),
                NatTerm::Succ(_) => BoolTerm::truth(),
            },
            NatTerm::Succ(a) => match rhs {
                NatTerm::Zero(_) => BoolTerm::falsity(),
                NatTerm::Succ(b) => a.inner.less_than_spec(*b.inner),
            },
        }
    }

    open spec fn less_than_depth(self, rhs: NatTerm) -> nat {
        shared_layers(self, rhs)
    }

    fn less_than(&self, rhs: &NatTerm, limit: usize) -> (r: Result<BoolTerm, EvalError>)
        decreases limit,
    {
        proof {
            lemma_less_than_holds(*self, *rhs);
        }
        match self {
            NatTerm::Zero(_) => match rhs {
                NatTerm::Zero(_) => Ok(BoolTerm::falsity()),
                NatTerm::Succ(_) => Ok(BoolTerm::truth()),
            },
            NatTerm::Succ(a) => match rhs {
                NatTerm::Zero(_) => Ok(BoolTerm::falsity()),
                NatTerm::Succ(b) => {
                    assert(shared_layers(*self, *rhs) == 1 + shared_layers(*a.inner, *b.inner));
                    if limit == 0 {
                        Err(EvalError::DepthExceeded)
                    } else {
                        a.inner.less_than(&b.inner, limit - 1)
                    }
                },
            },
        }
    }
}

/// The equality rules derive `True` exactly for terms that stand for the
/// same number.
pub proof fn lemma_equals_holds(a: NatTerm, b: NatTerm)
    ensures
        a.equals_spec(b).holds() == (a.value() == b.value()),
    decreases a,
{
    match a {
        NatTerm::Zero(_) => match b {
            NatTerm::Zero(_) => {},
            NatTerm::Succ(y) => {
                assert(y.inner.value() >= 0);
            },
        },
        NatTerm::Succ(x) => match b {
            NatTerm::Zero(_) => {
                assert(x.inner.value() >= 0);
            },
            NatTerm::Succ(y) => {
                lemma_equals_holds(*x.inner, *y.inner);
            },
        },
    }
}

/// The order rules derive `True` exactly where the first term stands for the
/// smaller number.
pub proof fn lemma_less_than_holds(a: NatTerm, b: NatTerm)
    ensures
        a.less_than_spec(b).holds() == (a.value() < b.value()),
    decreases a,
{
    match a {
        NatTerm::Zero(_) => match b {
            NatTerm::Zero(_) => {},
            NatTerm::Succ(y) => {
                assert(y.inner.value() >= 0);
            },
        },
        NatTerm::Succ(x) => match b {
            NatTerm::Zero(_) => {
                assert(x.inner.value() >= 0);
            },
            NatTerm::Succ(y) => {
                lemma_less_than_holds(*x.inner, *y.inner);
            },
        },
    }
}

/// Every term equals itself, and equality does not depend on the order of
/// its operands.
pub proof fn law_equals(a: NatTerm, b: NatTerm)
    ensures
        a.equals_spec(a) == BoolTerm::truth(),
        a.equals_spec(b) == b.equals_spec(a),
{
    lemma_equals_holds(a, a);
    lemma_equals_holds(a, b);
    lemma_equals_holds(b, a);
}

/// No term is less than itself, and of `LessThan(a, b)`, `Equals(a, b)` and
/// `LessThan(b, a)` exactly one is `True`.
pub proof fn law_trichotomy(a: NatTerm, b: NatTerm)
    ensures
        a.less_than_spec(a) == BoolTerm::falsity(),
        a.less_than_spec(b).holds() || a.equals_spec(b).holds() || b.less_than_spec(a).holds(),
        !(a.less_than_spec(b).holds() && a.equals_spec(b).holds()),
        !(a.less_than_spec(b).holds() && b.less_than_spec(a).holds()),
        !(a.equals_spec(b).holds() && b.less_than_spec(a).holds()),
{
    lemma_less_than_holds(a, a);
    lemma_less_than_holds(a, b);
    lemma_less_than_holds(b, a);
    lemma_equals_holds(a, b);
}

} // verus!
