//! Factorials.

use vstd::prelude::*;
use vstd::arithmetic::mul::lemma_mul_is_commutative;
use crate::arith::{lemma_times_value, Times};
use crate::depth::deeper;
use crate::term::{EvalError, Nat, NatTerm};

verus! {

/// The product of the numbers from one to `n`.
pub open spec fn factorial(n: nat) -> nat
    decreases n,
{
    if n == 0 {
        1
    } else {
        n * factorial((n - 1) as nat)
    }
}

/// The factorial. Its terms grow faster than those of any other operation
/// here, and so does the depth of its derivations.
pub trait Fact: Nat {
    /// The term that the rules derive: `Fact(Zero) = One` and
    /// `Fact(Succ(a)) = Times(Fact(a), Succ(a))`.
    spec fn fact_spec(self) -> Self;

    /// How deep the derivation nests: each application of the recursive rule
    /// is one level above the deeper of the factorial and the product it
    /// asks for.
    spec fn fact_depth(self) -> nat;

    /// Resolves `Fact(self)`, or reports that the derivation would nest
    /// deeper than `limit`.
    fn fact(&self, limit: usize) -> (r: Result<Self, EvalError>)
        ensures
            r == (if self.fact_depth() <= limit {
                Ok(self.fact_spec())
            } else {
                Err(EvalError::DepthExceeded)
            }),
            r matches Ok(t) ==> t.value() == factorial(self.value()),
    ;
}

impl Fact for NatTerm {
    open spec fn fact_spec(self) -> NatTerm
        decreases self,
    {
        match self {
            NatTerm::Zero(_) => NatTerm::zero().succ(),
            NatTerm::Succ(a) => a.inner.fact_spec().times_spec(self),
        }
    }

    open spec fn fact_depth(self) -> nat
        decreases self,
    {
        match self {
            NatTerm::Zero(_) => 0,
            NatTerm::Succ(a) => 1 + deeper(
                a.inner.fact_depth(),
                a.inner.fact_spec().times_depth(self),
            ),
        }
    }

    fn fact(&self, limit: usize) -> (r: Result<NatTerm, EvalError>)
        decreases limit,
    {
        proof {
            lemma_fact_value(*self);
        }
        match self {
            NatTerm::Zero(_) => Ok(NatTerm::zero().succ()),
            NatTerm::Succ(a) => {
                if limit == 0 {
                    Err(EvalError::DepthExceeded)
                } else {
                    match a.inner.fact(limit - 1) {
                        Ok(t) => t.times(self, limit - 1),
                        Err(e) => Err(e),
                    }
                }
            },
        }
    }
}

/// The factorial rules derive the term of the factorial.
pub proof fn lemma_fact_value(a: NatTerm)
    ensures
        a.fact_spec().value() == factorial(a.value()),
    decreases a,
{
    match a {
        NatTerm::Zero(_) => {
            assert(NatTerm::zero().succ().value() == 1 + NatTerm::zero().value());
        },
        NatTerm::Succ(x) => {
            lemma_fact_value(*x.inner);
            lemma_times_value(x.inner.fact_spec(), a);
            assert(a.value() == 1 + x.inner.value());
            lemma_mul_is_commutative(factorial(x.inner.value()) as int, a.value() as int);
        },
    }
}

} // verus!
