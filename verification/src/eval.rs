//! Reification: from a resolved term to the native value it stands for.

use vstd::prelude::*;
use crate::term::{Bool, BoolTerm, False, Nat, NatTerm, Succ, True, Zero};

verus! {

/// The way out of the term model: a natural term becomes a `usize`, a
/// boolean term a `bool`.
pub trait Eval {
    /// The native type of the value.
    type Output;

    /// Whether the native type can hold what the term stands for.
    spec fn representable(&self) -> bool;

    /// The native value that the term stands for.
    spec fn native(&self) -> Self::Output;

    /// The native value of the term.
    fn eval(&self) -> (out: Self::Output)
        requires
            self.representable(),
        ensures
            out == self.native(),
    ;
}

impl Eval for Zero {
    type Output = usize;

    open spec fn representable(&self) -> bool {
        true
    }

    open spec fn native(&self) -> usize {
        0
    }

    fn eval(&self) -> (out: usize) {
        0
    }
}

impl Eval for Succ {
    type Output = usize;

    open spec fn representable(&self) -> bool {
        self.value() <= usize::MAX
    }

    open spec fn native(&self) -> usize {
        self.value() as usize
    }

    fn eval(&self) -> (out: usize) {
        1 + self.inner.eval()
    }
}

impl Eval for NatTerm {
    type Output = usize;

    open spec fn representable(&self) -> bool {
        self.value() <= usize::MAX
    }

    open spec fn native(&self) -> usize {
        self.value() as usize
    }

    /// Counts the successor layers.
    fn eval(&self) -> (out: usize) {
        let mut out: usize = 0;
        let mut rest: &NatTerm = self;
        loop
            invariant
                out + rest.value() == self.value(),
                self.value() <= usize::MAX,
            ensures
                out == self.value(),
            decreases rest.value(),
        {
            match rest {
                NatTerm::Zero(_) => {
                    break ;
                },
                NatTerm::Succ(s) => {
                    assert(rest.value() == 1 + s.inner.value());
                    out = out + 1;
                    rest = &*s.inner;
                },
            }
        }
        out
    }
}

impl Eval for True {
    type Output = bool;

    open spec fn representable(&self) -> bool {
        true
    }

    open spec fn native(&self) -> bool {
        true
    }

    fn eval(&self) -> (out: bool) {
        true
    }
}

impl Eval for False {
    type Output = bool;

    open spec fn representable(&self) -> bool {
        true
    }

    open spec fn native(&self) -> bool {
        false
    }

    fn eval(&self) -> (out: bool) {
        false
    }
}

impl Eval for BoolTerm {
    type Output = bool;

    open spec fn representable(&self) -> bool {
        true
    }

    open spec fn native(&self) -> bool {
        self.holds()
    }

    fn eval(&self) -> (out: bool) {
        match self {
            BoolTerm::True(t) => t.eval(),
            BoolTerm::False(f) => f.eval(),
        }
    }
}

} // verus!
