//! The term model: unary naturals and the two truth values.

use vstd::prelude::*;

verus! {

/// The natural term without any successor layer.
#[derive(Clone, Copy, Debug, PartialEq, Eq)]
pub struct Zero {}

/// One successor layer around a natural term.
#[derive(Debug, PartialEq, Eq)]
pub struct Succ {
    pub inner: Box<NatTerm>,
}

/// A natural number in unary notation: zero, or the successor of a natural
/// term. The number it stands for is the count of its successor layers.
#[derive(Debug, PartialEq, Eq)]
pub enum NatTerm {
    Zero(Zero),
    Succ(Succ),
}

/// The true term.
#[derive(Clone, Copy, Debug, PartialEq, Eq)]
pub struct True {}

/// The false term.
#[derive(Clone, Copy, Debug, PartialEq, Eq)]
pub struct False {}

/// A truth value as a term.
#[derive(Clone, Copy, Debug, PartialEq, Eq)]
pub enum BoolTerm {
    True(True),
    False(False),
}

/// Why an evaluation gave no term.
#[derive(Clone, Copy, Debug, PartialEq, Eq)]
pub enum EvalError {
    /// The derivation would nest deeper than the limit the caller set.
    DepthExceeded,
}

/// What every natural term has: the number it stands for.
pub trait Nat: Sized {
    spec fn value(&self) -> nat;
}

/// What every boolean term has: the truth value it stands for.
pub trait Bool: Sized {
    spec fn holds(&self) -> bool;
}

impl Nat for Zero {
    open spec fn value(&self) -> nat {
        0
    }
}

impl Nat for Succ {
    open spec fn value(&self) -> nat {
        1 + self.inner.value()
    }
}

impl Nat for NatTerm {
    open spec fn value(&self) -> nat
        decreases self,
    {
        match self {
            NatTerm::Zero(_) => 0,
            NatTerm::Succ(s) => 1 + s.inner.value(),
        }
    }
}

impl Bool for True {
    open spec fn holds(&self) -> bool {
        true
    }
}

impl Bool for False {
    open spec fn holds(&self) -> bool {
        false
    }
}

impl Bool for BoolTerm {
    open spec fn holds(&self) -> bool {
        self is True
    }
}

/// The unary numeral of `n`: `n` successor layers around zero.
pub open spec fn numeral(n: nat) -> NatTerm
    decreases n,
{
    if n == 0 {
        NatTerm::Zero(Zero {})
    } else {
        NatTerm::Succ(Succ { inner: Box::new(numeral((n - 1) as nat)) })
    }
}

/// Only `Zero` stands for zero.
pub proof fn lemma_zero_value(t: NatTerm)
    ensures
        (t.value() == 0) == (t is Zero),
{
    match t {
        NatTerm::Zero(_) => {},
        NatTerm::Succ(s) => {
            assert(t.value() == 1 + s.inner.value());
        },
    }
}

/// A numeral stands for the number it was written for.
pub proof fn lemma_numeral_value(n: nat)
    ensures
        numeral(n).value() == n,
    decreases n,
{
    if n > 0 {
        lemma_numeral_value((n - 1) as nat);
    }
}

/// Every natural term is the numeral of the number it stands for.
pub proof fn lemma_term_is_numeral(t: NatTerm)
    ensures
        numeral(t.value()) == t,
    decreases t,
{
    match t {
        NatTerm::Zero(_) => {},
        NatTerm::Succ(s) => {
            lemma_term_is_numeral(*s.inner);
        },
    }
}

/// Two natural terms that stand for the same number are the same term.
pub proof fn lemma_value_injective(a: NatTerm, b: NatTerm)
    requires
        a.value() == b.value(),
    ensures
        a == b,
{
    lemma_term_is_numeral(a);
    lemma_term_is_numeral(b);
}

impl NatTerm {
    /// `Zero` in contracts.
    pub open spec fn spec_zero() -> NatTerm {
        NatTerm::Zero(Zero {})
    }

    /// The term `Zero`.
    #[verifier::when_used_as_spec(spec_zero)]
    pub fn zero() -> (t: NatTerm)
        ensures
            t == NatTerm::zero(),
    {
        NatTerm::Zero(Zero {})
    }

    /// The successor of `self` in contracts.
    pub open spec fn spec_succ(self) -> NatTerm {
        NatTerm::Succ(Succ { inner: Box::new(self) })
    }

    /// The successor of `self`.
    #[verifier::when_used_as_spec(spec_succ)]
    pub fn succ(self) -> (t: NatTerm)
        ensures
            t == self.succ(),
    {
        NatTerm::Succ(Succ { inner: Box::new(self) })
    }

    /// The term `One`.
    pub fn one() -> (t: NatTerm)
        ensures
            t == numeral(1),
    {
        proof {
            reveal_with_fuel(numeral, 2);
        }
        NatTerm::zero().succ()
    }

    /// The term `Two`.
    pub fn two() -> (t: NatTerm)
        ensures
            t == numeral(2),
    {
        NatTerm::one().succ()
    }

    /// The term `Three`.
    pub fn three() -> (t: NatTerm)
        ensures
            t == numeral(3),
    {
        NatTerm::two().succ()
    }

    /// The term `Four`.
    pub fn four() -> (t: NatTerm)
        ensures
            t == numeral(4),
    {
        NatTerm::three().succ()
    }

    /// The term `Five`.
    pub fn five() -> (t: NatTerm)
        ensures
            t == numeral(5),
    {
        NatTerm::four().succ()
    }

    /// The term `Six`.
    pub fn six() -> (t: NatTerm)
        ensures
            t == numeral(6),
    {
        NatTerm::five().succ()
    }

    /// The term `Seven`.
    pub fn seven() -> (t: NatTerm)
        ensures
            t == numeral(7),
    {
        NatTerm::six().succ()
    }

    /// The term `Eight`.
    pub fn eight() -> (t: NatTerm)
        ensures
            t == numeral(8),
    {
        NatTerm::seven().succ()
    }

    /// The term `Nine`.
    pub fn nine() -> (t: NatTerm)
        ensures
            t == numeral(9),
    {
        NatTerm::eight().succ()
    }

    /// The term `Ten`.
    pub fn ten() -> (t: NatTerm)
        ensures
            t == numeral(10),
    {
        NatTerm::nine().succ()
    }
}

impl BoolTerm {
    /// `True` in contracts.
    pub open spec fn spec_truth() -> BoolTerm {
        BoolTerm::True(True {})
    }

    /// The term `True`.
    #[verifier::when_used_as_spec(spec_truth)]
    pub fn truth() -> (t: BoolTerm)
        ensures
            t == BoolTerm::truth(),
    {
        BoolTerm::True(True {})
    }

    /// `False` in contracts.
    pub open spec fn spec_falsity() -> BoolTerm {
        BoolTerm::False(False {})
    }

    /// The term `False`.
    #[verifier::when_used_as_spec(spec_falsity)]
    pub fn falsity() -> (t: BoolTerm)
        ensures
            t == BoolTerm::falsity(),
    {
        BoolTerm::False(False {})
    }
}

impl Clone for NatTerm {
    /// Rebuilds the term layer by layer.
    fn clone(&self) -> (copy: Self)
        ensures
            copy == *self,
    {
        let mut copy = NatTerm::zero();
        let mut rest: &NatTerm = self;
        loop
            invariant
                copy.value() + rest.value() == self.value(),
            ensures
                copy.value() == self.value(),
            decreases rest.value(),
        {
            match rest {
                NatTerm::Zero(_) => {
                    break ;
                },
                NatTerm::Succ(s) => {
                    copy = copy.succ();
                    rest = &*s.inner;
                },
            }
        }
        proof {
            lemma_value_injective(copy, *self);
        }
        copy
    }
}

impl Clone for Succ {
    fn clone(&self) -> (copy: Self)
        ensures
            copy == *self,
    {
        Succ { inner: Box::new((&*self.inner).clone()) }
    }
}

} // verus!
