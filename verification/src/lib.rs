//! A symbolic evaluator over unary natural terms and boolean terms.
//!
//! Numbers are nested successor layers around zero, truth values are two
//! nullary terms, and every operation is resolved by structural rules on the
//! shape of its operands. Each operation is a trait that states the rule it
//! follows, how deep its derivation nests, and what the derived term stands
//! for; the term types implement them by explicit case analysis.

pub mod arith;
pub mod compare;
pub mod depth;
pub mod eval;
pub mod fact;
pub mod fib;
pub mod logic;
pub mod modulo;
pub mod term;

pub use arith::{Minus, Plus, Pred, Times};
pub use compare::{Equals, LessThan};
pub use eval::Eval;
pub use fact::Fact;
pub use fib::{Fib, FibRecurse};
pub use logic::{AndAlso, If, Not, OrElse};
pub use modulo::Mod;
pub use term::{Bool, BoolTerm, EvalError, False, Nat, NatTerm, Succ, True, Zero};
