//! Remainders by repeated subtraction.

use vstd::prelude::*;
use vstd::arithmetic::div_mod::{
    lemma_basic_div, lemma_div_plus_one, lemma_div_pos_is_pos, lemma_mod_sub_multiples_vanish,
    lemma_small_mod,
};
use crate::arith::{lemma_minus_value, Minus};
use crate::compare::{lemma_less_than_holds, LessThan};
use crate::depth::deeper;
use crate::term::{lemma_zero_value, BoolTerm, EvalError, Nat, NatTerm};

verus! {

/// The remainder of a division.
///
/// A nonzero term has no remainder by `Zero`: subtracting `Zero` changes
/// nothing and nothing is less than `Zero`, so the recursive rule asks the
/// query it was asked, without end. No limit is deep enough for that
/// derivation, and the evaluation always ends in
/// [`EvalError::DepthExceeded`].
pub trait Mod: Nat {
    /// The term that the rules derive: `Mod(Zero, b) = Zero`, and
    /// `Mod(a, b)` for a successor `a` is `a` where `LessThan(a, b)` is
    /// `True`, otherwise `Mod(Minus(a, b), b)`.
    ///
    /// It says nothing where `self` is a successor and `rhs` is `Zero`.
    spec fn mod_spec(self, rhs: Self) -> Self;

    /// How deep the derivation nests: each application of the recursive rule
    /// is one level above the deepest of the difference, the comparison and,
    /// where it goes on, the remainder of the difference.
    ///
    /// It says nothing where `self` is a successor and `rhs` is `Zero`.
    spec fn mod_depth(self, rhs: Self) -> nat;

    /// Resolves `Mod(self, rhs)`, or reports that the derivation would nest
    /// deeper than `limit`, which it does under every limit where `self` is
    /// not `Zero` and `rhs` is.
    fn modulo(&self, rhs: &Self, limit: usize) -> (r: Result<Self, EvalError>)
        ensures
            r == (if (self.value() == 0 || rhs.value() != 0) && self.mod_depth(*rhs) <= limit {
                Ok(self.mod_spec(*rhs))
            } else {
                Err(EvalError::DepthExceeded)
            }),
            r matches Ok(t) ==> t.value() == (if rhs.value() == 0 {
                0
            } else {
                self.value() % rhs.value()
            }),
            r is Ok <==> self.value() == 0 || (rhs.value() != 0 && rhs.value() + (self.value() - 1)
                / (rhs.value() as int) < limit),
    ;
}

impl Mod for NatTerm {
    open spec fn mod_spec(self, rhs: NatTerm) -> NatTerm
        decreases self.value(),
    {
        match self {
            NatTerm::Zero(_) => NatTerm::zero(),
            NatTerm::Succ(a) => if rhs.value() == 0 {
                arbitrary()
            } else {
                match self.less_than_spec(rhs) {
                    BoolTerm::True(_) => self,
                    BoolTerm::False(_) => {
                        proof {
                            lemma_minus_value(self, rhs);
                            assert(self.value() == 1 + a.inner.value());
                        }
                        self.minus_spec(rhs).mod_spec(rhs)
                    },
                }
            },
        }
    }

    open spec fn mod_depth(self, rhs: NatTerm) -> nat
        decreases self.value(),
    {
        match self {
            NatTerm::Zero(_) => 0,
            NatTerm::Succ(a) => if rhs.value() == 0 {
                arbitrary()
            } else {
                1 + deeper(
                    deeper(self.minus_depth(rhs), self.less_than_depth(rhs)),
                    match self.less_than_spec(rhs) {
                        BoolTerm::True(_) => 0,
                        BoolTerm::False(_) => {
                            proof {
                                lemma_minus_value(self, rhs);
                                assert(self.value() == 1 + a.inner.value());
                            }
                            self.minus_spec(rhs).mod_depth(rhs)
                        },
                    },
                )
            },
        }
    }

    fn modulo(&self, rhs: &NatTerm, limit: usize) -> (r: Result<NatTerm, EvalError>)
        decreases limit,
    {
        proof {
            lemma_zero_value(*self);
            if rhs.value() != 0 {
                lemma_mod_value(*self, *rhs);
                lemma_mod_depth(*self, *rhs);
            }
        }
        match self {
            NatTerm::Zero(_) => Ok(NatTerm::zero()),
            NatTerm::Succ(_) => {
                if limit == 0 {
                    return Err(EvalError::DepthExceeded);
                }
                let difference = match self.minus(rhs, limit - 1) {
                    Ok(t) => t,
                    Err(e) => {
                        return Err(e);
                    },
                };
                let below = match self.less_than(rhs, limit - 1) {
                    Ok(b) => b,
                    Err(e) => {
                        return Err(e);
                    },
                };
                match below {
                    BoolTerm::True(_) => Ok(self.clone()),
                    BoolTerm::False(_) => difference.modulo(rhs, limit - 1),
                }
            },
        }
    }
}

/// By a nonzero term, the remainder rules derive the term of the remainder.
pub proof fn lemma_mod_value(a: NatTerm, b: NatTerm)
    requires
        b.value() != 0,
    ensures
        a.mod_spec(b).value() == a.value() % b.value(),
    decreases a.value(),
{
    let n = a.value();
    let m = b.value();
    match a {
        NatTerm::Zero(_) => {
            lemma_small_mod(0, m);
        },
        NatTerm::Succ(_) => {
            lemma_less_than_holds(a, b);
            if n < m {
                lemma_small_mod(n, m);
            } else {
                lemma_minus_value(a, b);
                lemma_mod_value(a.minus_spec(b), b);
                lemma_mod_sub_multiples_vanish(n as int, m as int);
            }
        },
    }
}

/// By a nonzero term, the derivation of the remainder of a nonzero term is
/// as deep as the divisor is large, and one level deeper for every
/// subtraction and for the comparison that ends it.
pub proof fn lemma_mod_depth(a: NatTerm, b: NatTerm)
    requires
        b.value() != 0,
    ensures
        a.mod_depth(b) == (if a.value() == 0 {
            0
        } else {
            b.value() + (a.value() - 1) / (b.value() as int) + 1
        }),
    decreases a.value(),
{
    let n = a.value() as int;
    let m = b.value() as int;
    lemma_zero_value(a);
    match a {
        NatTerm::Zero(_) => {},
        NatTerm::Succ(_) => {
            lemma_less_than_holds(a, b);
            lemma_minus_value(a, b);
            assert(a.less_than_depth(b) <= m);
            if n <= m {
                lemma_basic_div(n - 1, m);
                lemma_zero_value(a.minus_spec(b));
                assert(n == m ==> a.minus_spec(b).mod_depth(b) == 0);
            } else {
                lemma_mod_depth(a.minus_spec(b), b);
                lemma_div_plus_one(n - m - 1, m);
                lemma_div_pos_is_pos(n - m - 1, m);
                assert(m + (n - m - 1) == n - 1);
                assert(a.mod_depth(b) == 1 + a.minus_spec(b).mod_depth(b));
            }
        },
    }
}

/// By a nonzero term, the remainder is strictly less than the divisor.
pub proof fn law_mod_below_divisor(a: NatTerm, b: NatTerm)
    requires
        b.value() != 0,
    ensures
        a.mod_spec(b).value() < b.value(),
        a.mod_spec(b).less_than_spec(b) == BoolTerm::truth(),
{
    lemma_mod_value(a, b);
    assert(a.value() % b.value() < b.value()) by (nonlinear_arith)
        requires
            b.value() > 0,
    ;
    lemma_less_than_holds(a.mod_spec(b), b);
}

} // verus!
