//! Successor arithmetic: addition, predecessor, saturating subtraction and
//! multiplication.

use vstd::prelude::*;
use vstd::arithmetic::mul::{
    lemma_mul_is_associative,
    lemma_mul_is_commutative,
    lemma_mul_is_distributive_add,
};
use crate::depth::deeper;
use crate::term::{lemma_value_injective, EvalError, Nat, NatTerm};

verus! {

/// Subtraction on natural numbers that stops at zero.
pub open spec fn monus(a: nat, b: nat) -> nat {
    if a >= b {
        (a - b) as nat
    } else {
        0
    }
}

/// Addition.
pub trait Plus: Nat {
    /// The term that the rules derive: `Plus(Zero, b) = b` and
    /// `Plus(Succ(a), b) = Succ(Plus(a, b))`.
    spec fn plus_spec(self, rhs: Self) -> Self;

    /// How deep the derivation nests: one application of the recursive rule
    /// for each successor layer of `self`.
    spec fn plus_depth(self, rhs: Self) -> nat;

    /// Resolves `Plus(self, rhs)`, or reports that the derivation would nest
    /// deeper than `limit`.
    fn plus(&self, rhs: &Self, limit: usize) -> (r: Result<Self, EvalError>)
        ensures
            r == (if self.plus_depth(*rhs) <= limit {
                Ok(self.plus_spec(*rhs))
            } else {
                Err(EvalError::DepthExceeded)
            }),
            r matches Ok(t) ==> t.value() == self.value() + rhs.value(),
            r is Ok <==> self.value() <= limit,
    ;
}

/// Saturating decrement.
pub trait Pred: Nat {
    /// The term that the rules derive: `Pred(Zero) = Zero` and
    /// `Pred(Succ(a)) = a`.
    spec fn pred_spec(self) -> Self;

    /// Resolves `Pred(self)` in one step.
    fn pred(&self) -> (r: Self)
        ensures
            r == self.pred_spec(),
            r.value() == monus(self.value(), 1),
    ;
}

/// Saturating subtraction: it stops at `Zero`.
pub trait Minus: Nat {
    /// The term that the rules derive: `Minus(a, Zero) = a` and
    /// `Minus(a, Succ(b)) = Pred(Minus(a, b))`.
    spec fn minus_spec(self, rhs: Self) -> Self;

    /// How deep the derivation nests: one application of the recursive rule
    /// for each successor layer of `rhs`.
    spec fn minus_depth(self, rhs: Self) -> nat;

    /// Resolves `Minus(self, rhs)`, or reports that the derivation would nest
    /// deeper than `limit`.
    fn minus(&self, rhs: &Self, limit: usize) -> (r: Result<Self, EvalError>)
        ensures
            r == (if self.minus_depth(*rhs) <= limit {
                Ok(self.minus_spec(*rhs))
            } else {
                Err(EvalError::DepthExceeded)
            }),
            r matches Ok(t) ==> t.value() == monus(self.value(), rhs.value()),
            r is Ok <==> rhs.value() <= limit,
    ;
}

/// Multiplication.
pub trait Times: Nat {
    /// The term that the rules derive: `Times(Zero, b) = Zero` and
    /// `Times(Succ(a), b) = Plus(Times(a, b), b)`.
    spec fn times_spec(self, rhs: Self) -> Self;

    /// How deep the derivation nests: each application of the recursive rule
    /// is one level above the deeper of the product and the sum it asks for.
    spec fn times_depth(self, rhs: Self) -> nat;

    /// Resolves `Times(self, rhs)`, or reports that the derivation would nest
    /// deeper than `limit`.
    fn times(&self, rhs: &Self, limit: usize) -> (r: Result<Self, EvalError>)
        ensures
            r == (if self.times_depth(*rhs) <= limit {
                Ok(self.times_spec(*rhs))
            } else {
                Err(EvalError::DepthExceeded)
            }),
            r matches Ok(t) ==> t.value() == self.value() * rhs.value(),
            r is Ok <==> self.value() == 0 || (self.value() <= limit && (self.value() - 1)
                * rhs.value() < limit),
    ;
}

impl Plus for NatTerm {
    open spec fn plus_spec(self, rhs: NatTerm) -> NatTerm
        decreases self,
    {
        match self {
            NatTerm::Zero(_) => rhs,
            NatTerm::Succ(a) => a.inner.plus_spec(rhs).succ(),
        }
    }

    open spec fn plus_depth(self, rhs: NatTerm) -> nat {
        self.value()
    }

    fn plus(&self, rhs: &NatTerm, limit: usize) -> (r: Result<NatTerm, EvalError>)
        decreases limit,
    {
        proof {
            lemma_plus_value(*self, *rhs);
        }
        match self {
            NatTerm::Zero(_) => Ok(rhs.clone()),
            NatTerm::Succ(a) => {
                assert(self.value() == 1 + a.inner.value());
                if limit == 0 {
                    Err(EvalError::DepthExceeded)
                } else {
                    match a.inner.plus(rhs, limit - 1) {
                        Ok(t) => Ok(t.succ()),
                        Err(e) => Err(e),
                    }
                }
            },
        }
    }
}

impl Pred for NatTerm {
    open spec fn pred_spec(self) -> NatTerm {
        match self {
            NatTerm::Zero(_) => NatTerm::zero(),
            NatTerm::Succ(a) => *a.inner,
        }
    }

    fn pred(&self) -> (r: NatTerm) {
        match self {
            NatTerm::Zero(_) => NatTerm::zero(),
            NatTerm::Succ(a) => {
                assert(self.value() == 1 + a.inner.value());
                (&*a.inner).clone()
            },
        }
    }
}

impl Minus for NatTerm {
    open spec fn minus_spec(self, rhs: NatTerm) -> NatTerm
        decreases rhs,
    {
        match rhs {
            NatTerm::Zero(_) => self,
            NatTerm::Succ(b) => self.minus_spec(*b.inner).pred_spec(),
        }
    }

    open spec fn minus_depth(self, rhs: NatTerm) -> nat {
        rhs.value()
    }

    fn minus(&self, rhs: &NatTerm, limit: usize) -> (r: Result<NatTerm, EvalError>)
        decreases limit,
    {
        proof {
            lemma_minus_value(*self, *rhs);
        }
        match rhs {
            NatTerm::Zero(_) => Ok(self.clone()),
            NatTerm::Succ(b) => {
                assert(rhs.value() == 1 + b.inner.value());
                if limit == 0 {
                    Err(EvalError::DepthExceeded)
                } else {
                    match self.minus(&b.inner, limit - 1) {
                        Ok(t) => Ok(t.pred()),
                        Err(e) => Err(e),
                    }
                }
            },
        }
    }
}

impl Times for NatTerm {
    open spec fn times_spec(self, rhs: NatTerm) -> NatTerm
        decreases self,
    {
        match self {
            NatTerm::Zero(_) => NatTerm::zero(),
            NatTerm::Succ(a) => a.inner.times_spec(rhs).plus_spec(rhs),
        }
    }

    open spec fn times_depth(self, rhs: NatTerm) -> nat
        decreases self,
    {
        match self {
            NatTerm::Zero(_) => 0,
            NatTerm::Succ(a) => 1 + deeper(
                a.inner.times_depth(rhs),
                a.inner.times_spec(rhs).plus_depth(rhs),
            ),
        }
    }

    fn times(&self, rhs: &NatTerm, limit: usize) -> (r: Result<NatTerm, EvalError>)
        decreases limit,
    {
        proof {
            lemma_times_value(*self, *rhs);
            lemma_times_depth(*self, *rhs);
        }
        match self {
            NatTerm::Zero(_) => Ok(NatTerm::zero()),
            NatTerm::Succ(a) => {
                if limit == 0 {
                    Err(EvalError::DepthExceeded)
                } else {
                    match a.inner.times(rhs, limit - 1) {
                        Ok(t) => t.plus(rhs, limit - 1),
                        Err(e) => Err(e),
                    }
                }
            },
        }
    }
}

/// The addition rules derive the term of the sum.
pub proof fn lemma_plus_value(a: NatTerm, b: NatTerm)
    ensures
        a.plus_spec(b).value() == a.value() + b.value(),
    decreases a,
{
    match a {
        NatTerm::Zero(_) => {},
        NatTerm::Succ(x) => {
            lemma_plus_value(*x.inner, b);
        },
    }
}

/// The predecessor rules derive the term of the number before, and `Zero`
/// for `Zero`.
pub proof fn lemma_pred_value(a: NatTerm)
    ensures
        a.pred_spec().value() == monus(a.value(), 1),
{
    match a {
        NatTerm::Zero(_) => {},
        NatTerm::Succ(x) => {
            assert(a.value() == 1 + x.inner.value());
        },
    }
}

/// The subtraction rules derive the term of the difference, and `Zero`
/// where the second operand is the larger.
pub proof fn lemma_minus_value(a: NatTerm, b: NatTerm)
    ensures
        a.minus_spec(b).value() == monus(a.value(), b.value()),
    decreases b,
{
    match b {
        NatTerm::Zero(_) => {},
        NatTerm::Succ(y) => {
            lemma_minus_value(a, *y.inner);
            lemma_pred_value(a.minus_spec(*y.inner));
            assert(b.value() == 1 + y.inner.value());
        },
    }
}

/// The multiplication rules derive the term of the product.
pub proof fn lemma_times_value(a: NatTerm, b: NatTerm)
    ensures
        a.times_spec(b).value() == a.value() * b.value(),
    decreases a,
{
    match a {
        NatTerm::Zero(_) => {
            assert(0 * b.value() == 0);
        },
        NatTerm::Succ(x) => {
            lemma_times_value(*x.inner, b);
            lemma_plus_value(x.inner.times_spec(b), b);
            let n = x.inner.value();
            let m = b.value();
            assert(a.value() == 1 + n);
            assert((1 + n) * m == n * m + m) by (nonlinear_arith);
        },
    }
}

/// The derivation of a product with a nonzero first operand is one level
/// deeper than the larger of two numbers: the first operand less one, and
/// that number times the second operand.
pub proof fn lemma_times_depth(a: NatTerm, b: NatTerm)
    ensures
        a.times_depth(b) == (if a.value() == 0 {
            0
        } else {
            1 + deeper((a.value() - 1) as nat, ((a.value() - 1) * b.value()) as nat)
        }),
    decreases a,
{
    match a {
        NatTerm::Zero(_) => {},
        NatTerm::Succ(x) => {
            lemma_times_depth(*x.inner, b);
            lemma_times_value(*x.inner, b);
            let n = x.inner.value();
            let m = b.value();
            assert(a.value() == 1 + n);
            if n > 0 {
                assert((n - 1) * m + m == n * m && 0 <= (n - 1) * m && (m == 0 ==> (n - 1) * m
                    == 0)) by (nonlinear_arith)
                    requires
                        n > 0,
                        m >= 0,
                ;
            } else {
                assert(n * m == 0) by (nonlinear_arith)
                    requires
                        n == 0,
                ;
            }
        },
    }
}

/// Adding `Zero` on the right leaves a term as it is, and addition is
/// commutative and associative.
pub proof fn law_plus(a: NatTerm, b: NatTerm, c: NatTerm)
    ensures
        a.plus_spec(NatTerm::zero()) == a,
        a.plus_spec(b) == b.plus_spec(a),
        a.plus_spec(b).plus_spec(c) == a.plus_spec(b.plus_spec(c)),
{
    lemma_plus_value(a, NatTerm::zero());
    lemma_value_injective(a.plus_spec(NatTerm::zero()), a);
    lemma_plus_value(a, b);
    lemma_plus_value(b, a);
    lemma_value_injective(a.plus_spec(b), b.plus_spec(a));
    lemma_plus_value(a.plus_spec(b), c);
    lemma_plus_value(b, c);
    lemma_plus_value(a, b.plus_spec(c));
    lemma_value_injective(a.plus_spec(b).plus_spec(c), a.plus_spec(b.plus_spec(c)));
}

/// A term minus itself is `Zero`, and so is a term minus any term that is
/// not smaller.
pub proof fn law_minus(a: NatTerm, b: NatTerm)
    ensures
        a.minus_spec(a) == NatTerm::zero(),
        a.value() <= b.value() ==> a.minus_spec(b) == NatTerm::zero(),
{
    lemma_minus_value(a, a);
    lemma_value_injective(a.minus_spec(a), NatTerm::zero());
    if a.value() <= b.value() {
        lemma_minus_value(a, b);
        lemma_value_injective(a.minus_spec(b), NatTerm::zero());
    }
}

/// The predecessor of `Zero` is `Zero`, and the predecessor of a successor
/// is the term inside it.
pub proof fn law_pred(a: NatTerm)
    ensures
        NatTerm::zero().pred_spec() == NatTerm::zero(),
        a.succ().pred_spec() == a,
{
}

/// Multiplying by `Zero` on the right gives `Zero`, and multiplication is
/// commutative, associative and distributes over addition.
pub proof fn law_times(a: NatTerm, b: NatTerm, c: NatTerm)
    ensures
        a.times_spec(NatTerm::zero()) == NatTerm::zero(),
        a.times_spec(b) == b.times_spec(a),
        a.times_spec(b).times_spec(c) == a.times_spec(b.times_spec(c)),
        a.times_spec(b.plus_spec(c)) == a.times_spec(b).plus_spec(a.times_spec(c)),
        a.plus_spec(b).times_spec(c) == a.times_spec(c).plus_spec(b.times_spec(c)),
{
    let x = a.value() as int;
    let y = b.value() as int;
    let z = c.value() as int;
    lemma_times_value(a, NatTerm::zero());
    assert(x * 0 == 0);
    lemma_value_injective(a.times_spec(NatTerm::zero()), NatTerm::zero());

    lemma_times_value(a, b);
    lemma_times_value(b, a);
    lemma_mul_is_commutative(x, y);
    lemma_value_injective(a.times_spec(b), b.times_spec(a));

    lemma_times_value(a.times_spec(b), c);
    lemma_times_value(b, c);
    lemma_times_value(a, b.times_spec(c));
    lemma_mul_is_associative(x, y, z);
    lemma_value_injective(a.times_spec(b).times_spec(c), a.times_spec(b.times_spec(c)));

    lemma_plus_value(b, c);
    lemma_times_value(a, b.plus_spec(c));
    lemma_times_value(a, c);
    lemma_plus_value(a.times_spec(b), a.times_spec(c));
    lemma_mul_is_distributive_add(x, y, z);
    lemma_value_injective(
        a.times_spec(b.plus_spec(c)),
        a.times_spec(b).plus_spec(a.times_spec(c)),
    );

    lemma_plus_value(a, b);
    lemma_times_value(a.plus_spec(b), c);
    lemma_plus_value(a.times_spec(c), b.times_spec(c));
    assert((x + y) * z == x * z + y * z) by (nonlinear_arith);
    lemma_value_injective(
        a.plus_spec(b).times_spec(c),
        a.times_spec(c).plus_spec(b.times_spec(c)),
    );
}

} // verus!
