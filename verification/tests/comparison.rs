use trait_eval::{BoolTerm, Equals, Eval, EvalError, LessThan, NatTerm};

const DEEP: usize = 10_000;

fn unary(n: usize) -> NatTerm {
    let mut t = NatTerm::zero();
    for _ in 0..n {
        t = t.succ();
    }
    t
}

#[test]
fn less_than_three_five_is_true() {
    let r = NatTerm::three().less_than(&NatTerm::five(), DEEP).unwrap();
    assert_eq!(r.eval(), true);
    assert_eq!(r, BoolTerm::truth());
}

#[test]
fn less_than_five_five_is_false() {
    let r = NatTerm::five().less_than(&NatTerm::five(), DEEP).unwrap();
    assert_eq!(r.eval(), false);
    assert_eq!(r, BoolTerm::falsity());
}

#[test]
fn less_than_ten_five_is_false() {
    assert_eq!(NatTerm::ten().less_than(&NatTerm::five(), DEEP).unwrap().eval(), false);
}

#[test]
fn less_than_base_cases() {
    let zero = NatTerm::zero();
    let one = NatTerm::one();
    assert_eq!(zero.less_than(&zero, 0), Ok(BoolTerm::falsity()));
    assert_eq!(zero.less_than(&one, 0), Ok(BoolTerm::truth()));
    assert_eq!(one.less_than(&zero, 0), Ok(BoolTerm::falsity()));
}

#[test]
fn equals_base_cases() {
    let zero = NatTerm::zero();
    let one = NatTerm::one();
    assert_eq!(zero.equals(&zero, 0), Ok(BoolTerm::truth()));
    assert_eq!(zero.equals(&one, 0), Ok(BoolTerm::falsity()));
    assert_eq!(one.equals(&zero, 0), Ok(BoolTerm::falsity()));
}

#[test]
fn equals_examples() {
    assert_eq!(NatTerm::four().equals(&NatTerm::four(), DEEP).unwrap().eval(), true);
    assert_eq!(NatTerm::three().equals(&NatTerm::three(), DEEP).unwrap().eval(), true);
    assert_eq!(NatTerm::zero().equals(&NatTerm::one(), DEEP).unwrap().eval(), false);
}

#[test]
fn equals_is_reflexive_and_symmetric_on_small_terms() {
    for a in 0..10 {
        assert_eq!(unary(a).equals(&unary(a), DEEP), Ok(BoolTerm::truth()));
        for b in 0..10 {
            assert_eq!(unary(a).equals(&unary(b), DEEP), unary(b).equals(&unary(a), DEEP));
            assert_eq!(unary(a).equals(&unary(b), DEEP).unwrap().eval(), a == b);
        }
    }
}

#[test]
fn less_than_is_irreflexive_on_small_terms() {
    for a in 0..10 {
        assert_eq!(unary(a).less_than(&unary(a), DEEP), Ok(BoolTerm::falsity()));
    }
}

#[test]
fn exactly_one_of_less_equal_greater_holds() {
    for a in 0..10 {
        for b in 0..10 {
            let less = unary(a).less_than(&unary(b), DEEP).unwrap().eval();
            let equal = unary(a).equals(&unary(b), DEEP).unwrap().eval();
            let greater = unary(b).less_than(&unary(a), DEEP).unwrap().eval();
            let count = [less, equal, greater].iter().filter(|x| **x).count();
            assert_eq!(count, 1);
            assert_eq!(less, a < b);
            assert_eq!(greater, b < a);
        }
    }
}

#[test]
fn comparisons_resolve_exactly_up_to_their_shared_layers() {
    let three = NatTerm::three();
    let five = NatTerm::five();
    assert_eq!(three.less_than(&five, 3), Ok(BoolTerm::truth()));
    assert_eq!(three.less_than(&five, 2), Err(EvalError::DepthExceeded));
    assert_eq!(five.less_than(&three, 3), Ok(BoolTerm::falsity()));
    assert_eq!(five.less_than(&three, 2), Err(EvalError::DepthExceeded));
    assert_eq!(three.equals(&five, 3), Ok(BoolTerm::falsity()));
    assert_eq!(three.equals(&five, 2), Err(EvalError::DepthExceeded));
    assert_eq!(five.equals(&five, 5), Ok(BoolTerm::truth()));
    assert_eq!(five.equals(&five, 4), Err(EvalError::DepthExceeded));
}
