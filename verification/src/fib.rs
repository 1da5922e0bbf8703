//! Fibonacci numbers.

use vstd::prelude::*;
use crate::arith::{lemma_minus_value, lemma_plus_value, lemma_pred_value, monus, Minus, Plus, Pred};
use crate::compare::{lemma_equals_holds, Equals};
use crate::depth::deeper;
use crate::term::{
    lemma_numeral_value, lemma_value_injective, numeral, BoolTerm, EvalError, Nat, NatTerm,
};

verus! {

/// The Fibonacci sequence from `0, 1, 1, 2, 3, 5`.
pub open spec fn fibonacci(n: nat) -> nat
    decreases n,
{
    if n == 0 {
        0
    } else if n == 1 {
        1
    } else {
        fibonacci((n - 1) as nat) + fibonacci((n - 2) as nat)
    }
}

/// The Fibonacci number at an index.
pub trait Fib: Nat {
    /// The term that the rules derive: `Fib(Zero) = Zero`, and `Fib(Succ(t))`
    /// is `One` where `Equals(t, Zero)` is `True`, otherwise what
    /// [`FibRecurse`] derives for `Succ(t)`.
    spec fn fib_spec(self) -> Self;

    /// How deep the derivation nests: each application of the recursive rule
    /// is one level above the deeper of the comparison and, where it goes
    /// on, the recurrence.
    spec fn fib_depth(self) -> nat;

    /// Resolves `Fib(self)`, or reports that the derivation would nest deeper
    /// than `limit`.
    fn fib(&self, limit: usize) -> (r: Result<Self, EvalError>)
        ensures
            r == (if self.fib_depth() <= limit {
                Ok(self.fib_spec())
            } else {
                Err(EvalError::DepthExceeded)
            }),
            r matches Ok(t) ==> t.value() == fibonacci(self.value()),
    ;
}

/// The recurrence behind [`Fib`]: the sum of the Fibonacci numbers one and
/// two places before an index.
pub trait FibRecurse: Nat {
    /// The term that the rule derives:
    /// `Plus(Fib(Pred(n)), Fib(Minus(n, Two)))`.
    spec fn fib_recurse_spec(self) -> Self;

    /// How deep the derivation nests: one level above the deepest of the
    /// subtraction, the two Fibonacci numbers and their sum.
    spec fn fib_recurse_depth(self) -> nat;

    /// Resolves the recurrence at `self`, or reports that the derivation
    /// would nest deeper than `limit`.
    fn fib_recurse(&self, limit: usize) -> (r: Result<Self, EvalError>)
        ensures
            r == (if self.fib_recurse_depth() <= limit {
                Ok(self.fib_recurse_spec())
            } else {
                Err(EvalError::DepthExceeded)
            }),
            r matches Ok(t) ==> t.value() == fibonacci(monus(self.value(), 1)) + fibonacci(
                monus(self.value(), 2),
            ),
    ;
}

impl Fib for NatTerm {
    open spec fn fib_spec(self) -> NatTerm
        decreases self.value(), 1nat,
    {
        match self {
            NatTerm::Zero(_) => NatTerm::zero(),
            NatTerm::Succ(a) => match a.inner.equals_spec(NatTerm::zero()) {
                BoolTerm::True(_) => NatTerm::zero().succ(),
                BoolTerm::False(_) => self.fib_recurse_spec(),
            },
        }
    }

    open spec fn fib_depth(self) -> nat
        decreases self.value(), 1nat,
    {
        match self {
            NatTerm::Zero(_) => 0,
            NatTerm::Succ(a) => 1 + deeper(
                a.inner.equals_depth(NatTerm::zero()),
                match a.inner.equals_spec(NatTerm::zero()) {
                    BoolTerm::True(_) => 0,
                    BoolTerm::False(_) => self.fib_recurse_depth(),
                },
            ),
        }
    }

    fn fib(&self, limit: usize) -> (r: Result<NatTerm, EvalError>)
        decreases limit,
    {
        proof {
            lemma_fib_value(*self);
        }
        match self {
            NatTerm::Zero(_) => Ok(NatTerm::zero()),
            NatTerm::Succ(a) => {
                if limit == 0 {
                    return Err(EvalError::DepthExceeded);
                }
                let first = match a.inner.equals(&NatTerm::zero(), limit - 1) {
                    Ok(b) => b,
                    Err(e) => {
                        return Err(e);
                    },
                };
                match first {
                    BoolTerm::True(_) => Ok(NatTerm::zero().succ()),
                    BoolTerm::False(_) => self.fib_recurse(limit - 1),
                }
            },
        }
    }
}

impl FibRecurse for NatTerm {
    /// For `Zero` both Fibonacci numbers are those of `Zero`, and so is
    /// their sum.
    open spec fn fib_recurse_spec(self) -> NatTerm
        decreases self.value(), 0nat,
    {
        match self {
            NatTerm::Zero(_) => NatTerm::zero(),
            NatTerm::Succ(a) => {
                proof {
                    assert(self.value() == 1 + a.inner.value());
                    lemma_minus_value(self, numeral(2));
                    lemma_numeral_value(2);
                }
                self.pred_spec().fib_spec().plus_spec(self.minus_spec(numeral(2)).fib_spec())
            },
        }
    }

    /// For `Zero` only the subtraction nests.
    open spec fn fib_recurse_depth(self) -> nat
        decreases self.value(), 0nat,
    {
        match self {
            NatTerm::Zero(_) => 1 + self.minus_depth(numeral(2)),
            NatTerm::Succ(a) => {
                proof {
                    assert(self.value() == 1 + a.inner.value());
                    lemma_minus_value(self, numeral(2));
                    lemma_numeral_value(2);
                }
                1 + deeper(
                    self.minus_depth(numeral(2)),
                    deeper(
                        deeper(
                            self.pred_spec().fib_depth(),
                            self.minus_spec(numeral(2)).fib_depth(),
                        ),
                        self.pred_spec().fib_spec().plus_depth(
                            self.minus_spec(numeral(2)).fib_spec(),
                        ),
                    ),
                )
            },
        }
    }

    fn fib_recurse(&self, limit: usize) -> (r: Result<NatTerm, EvalError>)
        decreases limit,
    {
        proof {
            lemma_fib_recurse_value(*self);
        }
        if limit == 0 {
            return Err(EvalError::DepthExceeded);
        }
        let one_before = self.pred();
        let two_before = match self.minus(&NatTerm::two(), limit - 1) {
            Ok(t) => t,
            Err(e) => {
                return Err(e);
            },
        };
        let older = match one_before.fib(limit - 1) {
            Ok(t) => t,
            Err(e) => {
                return Err(e);
            },
        };
        let oldest = match two_before.fib(limit - 1) {
            Ok(t) => t,
            Err(e) => {
                return Err(e);
            },
        };
        older.plus(&oldest, limit - 1)
    }
}

/// The Fibonacci rules derive the term of the Fibonacci number.
pub proof fn lemma_fib_value(a: NatTerm)
    ensures
        a.fib_spec().value() == fibonacci(a.value()),
    decreases a.value(), 1nat,
{
    match a {
        NatTerm::Zero(_) => {},
        NatTerm::Succ(x) => {
            assert(a.value() == 1 + x.inner.value());
            lemma_equals_holds(*x.inner, NatTerm::zero());
            if x.inner.value() == 0 {
                assert(NatTerm::zero().succ().value() == 1 + NatTerm::zero().value());
            } else {
                lemma_fib_recurse_value(a);
            }
        },
    }
}

/// The recurrence rule derives the term of the sum of the Fibonacci numbers
/// one and two places before, where an index that would fall below zero
/// counts as zero.
pub proof fn lemma_fib_recurse_value(a: NatTerm)
    ensures
        a.fib_recurse_spec().value() == fibonacci(monus(a.value(), 1)) + fibonacci(
            monus(a.value(), 2),
        ),
    decreases a.value(), 0nat,
{
    match a {
        NatTerm::Zero(_) => {},
        NatTerm::Succ(x) => {
            assert(a.value() == 1 + x.inner.value());
            lemma_numeral_value(2);
            lemma_pred_value(a);
            lemma_minus_value(a, numeral(2));
            lemma_fib_value(a.pred_spec());
            lemma_fib_value(a.minus_spec(numeral(2)));
            lemma_plus_value(a.pred_spec().fib_spec(), a.minus_spec(numeral(2)).fib_spec());
        },
    }
}

/// From the third term on, each Fibonacci term is the sum of the two before
/// it: `Fib(Succ(Succ(t))) = Plus(Fib(Succ(t)), Fib(t))`.
pub proof fn law_fib_recurrence(t: NatTerm)
    ensures
        t.succ().succ().fib_spec() == t.succ().fib_spec().plus_spec(t.fib_spec()),
{
    let n = t.succ().succ();
    assert(n.minus_spec(numeral(2)) == t) by {
        assert(n.value() == 1 + t.succ().value());
        assert(t.succ().value() == 1 + t.value());
        lemma_numeral_value(2);
        lemma_minus_value(n, numeral(2));
        lemma_value_injective(n.minus_spec(numeral(2)), t);
    }
    assert(n.pred_spec() == t.succ());
    assert(t.succ().equals_spec(NatTerm::zero()) == BoolTerm::falsity());
}

} // verus!
