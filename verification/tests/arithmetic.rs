use trait_eval::{Eval, EvalError, Minus, NatTerm, Plus, Pred, Times};

const DEEP: usize = 10_000;

fn unary(n: usize) -> NatTerm {
    let mut t = NatTerm::zero();
    for _ in 0..n {
        t = t.succ();
    }
    t
}

fn plus(a: usize, b: usize) -> usize {
    unary(a).plus(&unary(b), DEEP).unwrap().eval()
}

fn minus(a: usize, b: usize) -> usize {
    unary(a).minus(&unary(b), DEEP).unwrap().eval()
}

fn times(a: usize, b: usize) -> usize {
    unary(a).times(&unary(b), DEEP).unwrap().eval()
}

#[test]
fn plus_four_three_is_seven() {
    let sum = NatTerm::four().plus(&NatTerm::three(), DEEP).unwrap();
    assert_eq!(sum.eval(), 7);
    assert_eq!(sum, NatTerm::seven());
}

#[test]
fn plus_examples() {
    assert_eq!(plus(7, 1), 8);
    assert_eq!(plus(3, 3), 6);
    assert_eq!(plus(2, 3), 5);
}

#[test]
fn plus_zero_on_the_left_gives_the_right_operand() {
    assert_eq!(NatTerm::zero().plus(&NatTerm::nine(), 0), Ok(NatTerm::nine()));
}

#[test]
fn plus_zero_on_the_right_gives_the_left_operand() {
    for a in 0..12 {
        assert_eq!(unary(a).plus(&NatTerm::zero(), DEEP), Ok(unary(a)));
    }
}

#[test]
fn plus_is_commutative_and_associative_on_small_terms() {
    for a in 0..6 {
        for b in 0..6 {
            assert_eq!(unary(a).plus(&unary(b), DEEP), unary(b).plus(&unary(a), DEEP));
            for c in 0..6 {
                let left = unary(a).plus(&unary(b), DEEP).unwrap().plus(&unary(c), DEEP);
                let right = unary(a).plus(&unary(b).plus(&unary(c), DEEP).unwrap(), DEEP);
                assert_eq!(left, right);
            }
        }
    }
}

#[test]
fn plus_resolves_exactly_up_to_the_layers_of_its_first_operand() {
    let five = NatTerm::five();
    let two = NatTerm::two();
    assert_eq!(five.plus(&two, 5), Ok(NatTerm::seven()));
    assert_eq!(five.plus(&two, 4), Err(EvalError::DepthExceeded));
    assert_eq!(five.plus(&two, 0), Err(EvalError::DepthExceeded));
    assert_eq!(two.plus(&five, 2), Ok(NatTerm::seven()));
    assert_eq!(two.plus(&five, 1), Err(EvalError::DepthExceeded));
}

#[test]
fn plus_leaves_its_operands_as_they_were() {
    let a = NatTerm::four();
    let b = NatTerm::three();
    let _ = a.plus(&b, DEEP);
    assert_eq!(a, NatTerm::four());
    assert_eq!(b, NatTerm::three());
}

#[test]
fn pred_of_zero_is_zero() {
    assert_eq!(NatTerm::zero().pred(), NatTerm::zero());
    assert_eq!(NatTerm::zero().pred().eval(), 0);
}

#[test]
fn pred_of_one_to_ten() {
    for n in 1..=10 {
        assert_eq!(unary(n).pred().eval(), n - 1);
    }
}

#[test]
fn pred_of_a_successor_is_the_term_inside() {
    for n in 0..10 {
        assert_eq!(unary(n).succ().pred(), unary(n));
    }
}

#[test]
fn minus_examples() {
    assert_eq!(minus(10, 3), 7);
    assert_eq!(minus(7, 1), 6);
    assert_eq!(minus(3, 3), 0);
    assert_eq!(minus(2, 3), 0);
}

#[test]
fn minus_zero_gives_the_first_operand() {
    assert_eq!(NatTerm::eight().minus(&NatTerm::zero(), 0), Ok(NatTerm::eight()));
}

#[test]
fn minus_itself_is_zero() {
    for a in 0..12 {
        assert_eq!(unary(a).minus(&unary(a), DEEP), Ok(NatTerm::zero()));
    }
}

#[test]
fn minus_saturates_at_zero() {
    for a in 0..8 {
        for b in a..10 {
            assert_eq!(unary(a).minus(&unary(b), DEEP), Ok(NatTerm::zero()));
        }
    }
}

#[test]
fn minus_resolves_exactly_up_to_the_layers_of_its_second_operand() {
    let ten = NatTerm::ten();
    let three = NatTerm::three();
    assert_eq!(ten.minus(&three, 3), Ok(NatTerm::seven()));
    assert_eq!(ten.minus(&three, 2), Err(EvalError::DepthExceeded));
    assert_eq!(three.minus(&ten, 10), Ok(NatTerm::zero()));
    assert_eq!(three.minus(&ten, 9), Err(EvalError::DepthExceeded));
}

#[test]
fn times_six_seven_is_forty_two() {
    let product = NatTerm::six().times(&NatTerm::seven(), DEEP).unwrap();
    assert_eq!(product.eval(), 42);
    assert_eq!(product, unary(42));
}

#[test]
fn times_examples() {
    assert_eq!(times(4, 3), 12);
    assert_eq!(times(7, 1), 7);
    assert_eq!(times(3, 3), 9);
    assert_eq!(times(2, 3), 6);
}

#[test]
fn times_zero_on_either_side_is_zero() {
    for a in 0..10 {
        assert_eq!(unary(a).times(&NatTerm::zero(), DEEP), Ok(NatTerm::zero()));
        assert_eq!(NatTerm::zero().times(&unary(a), 0), Ok(NatTerm::zero()));
    }
}

#[test]
fn times_is_commutative_and_associative_on_small_terms() {
    for a in 0..5 {
        for b in 0..5 {
            assert_eq!(unary(a).times(&unary(b), DEEP), unary(b).times(&unary(a), DEEP));
            for c in 0..5 {
                let left = unary(a).times(&unary(b), DEEP).unwrap().times(&unary(c), DEEP);
                let right = unary(a).times(&unary(b).times(&unary(c), DEEP).unwrap(), DEEP);
                assert_eq!(left, right);
            }
        }
    }
}

#[test]
fn times_distributes_over_plus_on_small_terms() {
    for a in 0..5 {
        for b in 0..5 {
            for c in 0..5 {
                let sum = unary(b).plus(&unary(c), DEEP).unwrap();
                let left = unary(a).times(&sum, DEEP).unwrap();
                let ab = unary(a).times(&unary(b), DEEP).unwrap();
                let ac = unary(a).times(&unary(c), DEEP).unwrap();
                assert_eq!(left, ab.plus(&ac, DEEP).unwrap());
                assert_eq!(left.eval(), a * (b + c));
            }
        }
    }
}

#[test]
fn times_resolves_exactly_up_to_its_depth() {
    assert_eq!(unary(2).times(&unary(3), 4), Ok(unary(6)));
    assert_eq!(unary(2).times(&unary(3), 3), Err(EvalError::DepthExceeded));
    assert_eq!(unary(6).times(&unary(7), 36), Ok(unary(42)));
    assert_eq!(unary(6).times(&unary(7), 35), Err(EvalError::DepthExceeded));
    assert_eq!(unary(3).times(&unary(5), 11), Ok(unary(15)));
    assert_eq!(unary(3).times(&unary(5), 10), Err(EvalError::DepthExceeded));
}

#[test]
fn times_by_zero_is_as_deep_as_its_first_operand() {
    assert_eq!(unary(4).times(&unary(0), 4), Ok(unary(0)));
    assert_eq!(unary(4).times(&unary(0), 3), Err(EvalError::DepthExceeded));
    assert_eq!(unary(1).times(&unary(9), 1), Ok(unary(9)));
    assert_eq!(unary(1).times(&unary(9), 0), Err(EvalError::DepthExceeded));
}

#[test]
fn two_plus_two_minus_one_is_three() {
    let four = NatTerm::two().plus(&NatTerm::two(), DEEP).unwrap();
    assert_eq!(four, NatTerm::four());
    let three = four.minus(&NatTerm::one(), DEEP).unwrap();
    assert_eq!(three, NatTerm::three());
}
