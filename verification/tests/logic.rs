use trait_eval::{AndAlso, BoolTerm, Eval, If, NatTerm, Not, OrElse};

fn both() -> [BoolTerm; 2] {
    [BoolTerm::truth(), BoolTerm::falsity()]
}

#[test]
fn not_swaps_the_two_terms() {
    assert_eq!(BoolTerm::truth().not().eval(), false);
    assert_eq!(BoolTerm::falsity().not().eval(), true);
    assert_eq!(BoolTerm::truth().not(), BoolTerm::falsity());
    assert_eq!(BoolTerm::falsity().not(), BoolTerm::truth());
}

#[test]
fn not_twice_gives_the_term_back() {
    for x in both() {
        assert_eq!(x.not().not(), x);
    }
}

#[test]
fn and_also_truth_table() {
    let t = BoolTerm::truth();
    let f = BoolTerm::falsity();
    assert_eq!(f.and_also(&f).eval(), false);
    assert_eq!(f.and_also(&t).eval(), false);
    assert_eq!(t.and_also(&f).eval(), false);
    assert_eq!(t.and_also(&t).eval(), true);
}

#[test]
fn or_else_truth_table() {
    let t = BoolTerm::truth();
    let f = BoolTerm::falsity();
    assert_eq!(f.or_else(&f).eval(), false);
    assert_eq!(f.or_else(&t).eval(), true);
    assert_eq!(t.or_else(&f).eval(), true);
    assert_eq!(t.or_else(&t).eval(), true);
}

#[test]
fn and_also_identity_domination_idempotence() {
    let t = BoolTerm::truth();
    let f = BoolTerm::falsity();
    for x in both() {
        assert_eq!(x.and_also(&t), x);
        assert_eq!(t.and_also(&x), x);
        assert_eq!(x.and_also(&f), f);
        assert_eq!(f.and_also(&x), f);
        assert_eq!(x.and_also(&x), x);
    }
}

#[test]
fn or_else_identity_domination_idempotence() {
    let t = BoolTerm::truth();
    let f = BoolTerm::falsity();
    for x in both() {
        assert_eq!(x.or_else(&f), x);
        assert_eq!(f.or_else(&x), x);
        assert_eq!(x.or_else(&t), t);
        assert_eq!(t.or_else(&x), t);
        assert_eq!(x.or_else(&x), x);
    }
}

#[test]
fn select_by_true_gives_the_first() {
    let r = (NatTerm::three(), NatTerm::four()).select(&BoolTerm::truth());
    assert_eq!(r.eval(), 3);
}

#[test]
fn select_by_false_gives_the_second() {
    let r = (NatTerm::three(), NatTerm::four()).select(&BoolTerm::falsity());
    assert_eq!(r.eval(), 4);
}

#[test]
fn select_works_on_any_kind_of_pair() {
    assert_eq!(("then", "else").select(&BoolTerm::truth()), "then");
    assert_eq!((1u8, 2u8).select(&BoolTerm::falsity()), 2);
    let chosen = (BoolTerm::falsity(), BoolTerm::truth()).select(&BoolTerm::falsity());
    assert_eq!(chosen, BoolTerm::truth());
}

#[test]
fn select_by_a_compound_condition() {
    let cond = BoolTerm::truth().and_also(&BoolTerm::falsity().not());
    assert_eq!((String::from("yes"), String::from("no")).select(&cond), "yes");
    let cond = BoolTerm::falsity().or_else(&BoolTerm::truth().not());
    assert_eq!((String::from("yes"), String::from("no")).select(&cond), "no");
}
