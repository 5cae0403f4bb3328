use symdiff::expr::var::var;
use symdiff::expr::Expr;
use symdiff::tags::{A, B, C};

fn zero() -> Expr {
    Expr::zero()
}

fn one() -> Expr {
    Expr::one()
}

#[test]
fn reduce_add_rules() {
    let x = var(5, A);
    assert_eq!(x.clone().add(zero()).reduce(), x);
    assert_eq!(zero().add(x.clone()).reduce(), x);
    assert_eq!(zero().add(zero()).reduce(), zero());
    assert_eq!(one().add(zero()).reduce(), one());
    assert_eq!(zero().add(one()).reduce(), one());
    // One + One stays symbolic: identity elements are never folded to 2.
    assert_eq!(one().add(one()).reduce(), one().add(one()));
}

#[test]
fn reduce_sub_rules() {
    let x = var(5, A);
    assert_eq!(x.clone().sub(zero()).reduce(), x);
    assert_eq!(zero().sub(x.clone()).reduce(), x.clone().neg());
    assert_eq!(zero().sub(zero()).reduce(), zero());
    assert_eq!(one().sub(zero()).reduce(), one());
    assert_eq!(zero().sub(one()).reduce(), one().neg());
    assert_eq!(one().sub(one()).reduce(), zero());
    // The flagged rule: One - One evaluates as Zero does.
    assert_eq!(one().sub(one()).eval(), zero().eval());
}

#[test]
fn reduce_mul_rules() {
    let x = var(5, A);
    assert_eq!(x.clone().mul(one()).reduce(), x);
    assert_eq!(one().mul(x.clone()).reduce(), x);
    assert_eq!(x.clone().mul(zero()).reduce(), zero());
    assert_eq!(zero().mul(x.clone()).reduce(), zero());
    assert_eq!(zero().mul(zero()).reduce(), zero());
    assert_eq!(zero().mul(one()).reduce(), zero());
    assert_eq!(one().mul(zero()).reduce(), zero());
    assert_eq!(one().mul(one()).reduce(), one());
}

#[test]
fn reduce_div_rules() {
    let x = var(5, A);
    assert_eq!(x.clone().div(one()).reduce(), x.clone());
    assert_eq!(one().div(x.clone()).reduce(), one().div(x.clone()));
    assert_eq!(one().div(one()).reduce(), one().div(one()));
    assert_eq!(zero().div(one()).reduce(), zero());
    assert_eq!(zero().div(x.clone()).reduce(), zero());
}

#[test]
fn reduce_div_by_zero_passes_through_unchanged() {
    // No rule covers a quotient whose denominator reduces to Zero; such a
    // tree is returned as it came in, children included.
    let x = var(5, A);
    let w = x.clone().div(zero());
    assert_eq!(w.reduce(), x.clone().div(zero()));
    let deep = x.clone().add(zero()).div(one().mul(zero()));
    assert_eq!(deep.reduce(), x.clone().add(zero()).div(one().mul(zero())));
    assert_eq!(zero().div(zero()).reduce(), zero().div(zero()));
    assert_eq!(one().div(zero()).reduce(), one().div(zero()));
}

#[test]
fn reduce_neg_rules() {
    assert_eq!(zero().neg().reduce(), zero());
    assert_eq!(one().neg().reduce(), one().neg());
    let x = var(5, A);
    assert_eq!(x.clone().neg().reduce(), x.neg());
}

#[test]
fn reduce_terminal_and_uncovered_kinds() {
    let x = var(5, A);
    assert_eq!(x.clone().reduce(), x.clone());
    assert_eq!(zero().reduce(), zero());
    assert_eq!(one().reduce(), one());
    // Kinds without rules pass through unchanged.
    let w = x.clone().bitand(var(3, B));
    assert_eq!(w.reduce(), x.clone().bitand(var(3, B)));
    let n = x.clone().not();
    assert_eq!(n.reduce(), x.not());
}

#[test]
fn reduce_recurses_into_children() {
    let x = var(5, A);
    let y = var(7, B);
    // (x + 0) * (1 * y) reduces to x * y.
    let w = x.clone().add(zero()).mul(one().mul(y.clone()));
    assert_eq!(w.reduce(), x.mul(y));
}

#[test]
fn reduce_is_idempotent() {
    let x = var(5, A);
    let y = var(7, B);
    let z = var(-2, C);
    let trees = [
        x.clone().add(zero()).mul(one().mul(y.clone())),
        zero().sub(x.clone().mul(y.clone())).div(z.clone()),
        x.clone().div(zero()),
        one().add(one()),
        x.clone().add(y.clone()).sub(one().mul(z.clone())),
    ];
    for w in trees {
        let once = w.reduce();
        assert_eq!(once.reduce(), once);
    }
}

#[test]
fn reduce_preserves_the_value() {
    let x = var(5, A);
    let y = var(7, B);
    let z = var(-2, C);
    let trees = [
        x.clone().add(zero()).mul(one().mul(y.clone())),
        zero().sub(x.clone().mul(y.clone())).div(z.clone()),
        x.clone().sub(y.clone()).add(one()).mul(z.clone()),
        one().add(zero()).div(x.clone()),
    ];
    for w in trees {
        assert_eq!(w.reduce().eval(), w.eval());
    }
}

#[test]
fn reduce_confluence_on_overlapping_subtrees() {
    // Reducing an inner sub-tree first, then the whole, agrees with reducing
    // the whole tree at once.
    let x = var(5, A);
    let whole = x.clone().add(zero()).mul(one().mul(var(7, B)));
    let at_once = whole.reduce();
    let staged = x.add(zero()).reduce().mul(one().mul(var(7, B)).reduce()).reduce();
    assert_eq!(at_once, staged);
}
