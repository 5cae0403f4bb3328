use symdiff::expr::deriv::{DerivError, OpKind};
use symdiff::expr::var::{var, Var};
use symdiff::expr::{Expr, Tree};
use symdiff::ident::Ident;
use symdiff::tags::{A, B, X, Y, Z};

#[test]
fn expr() {
    let x = var(8, X);
    let y = var(2, Y);
    let z = var(-1, Z);

    let w = x.clone().add(y.mul(x)).div(z);
    assert_eq!(w.eval(), -24);

    let w_dy = w.deriv(Y).unwrap();
    assert_eq!(w_dy.eval(), -8);

    let w_dz = w.deriv(Z).unwrap();
    assert_eq!(w_dz.eval(), -24);
}

#[test]
fn eval_leaf_and_identities() {
    assert_eq!(var(42, A).eval(), 42);
    assert_eq!(Expr::zero().eval(), 0);
    assert_eq!(Expr::one().eval(), 1);
}

#[test]
fn eval_each_operator() {
    assert_eq!(var(5, A).neg().eval(), -5);
    assert_eq!(var(5, A).not().eval(), !5i64);
    assert_eq!(var(6, A).add(var(3, B)).eval(), 9);
    assert_eq!(var(6, A).sub(var(3, B)).eval(), 3);
    assert_eq!(var(6, A).mul(var(3, B)).eval(), 18);
    assert_eq!(var(6, A).div(var(3, B)).eval(), 2);
    assert_eq!(var(6, A).bitand(var(3, B)).eval(), 6 & 3);
    assert_eq!(var(6, A).bitor(var(3, B)).eval(), 6 | 3);
    assert_eq!(var(6, A).bitxor(var(3, B)).eval(), 6 ^ 3);
    assert_eq!(var(3, A).shl(var(2, B)).eval(), 12);
    assert_eq!(var(-8, A).shr(var(1, B)).eval(), -4);
    assert_eq!(var(7, A).rem(var(-2, B)).eval(), 1);
}

#[test]
fn eval_division_truncates_toward_zero() {
    assert_eq!(var(-7, A).div(var(2, B)).eval(), -3);
    assert_eq!(var(7, A).div(var(-2, B)).eval(), -3);
    assert_eq!(var(-7, A).div(var(-2, B)).eval(), 3);
    assert_eq!(var(-7, A).rem(var(2, B)).eval(), -1);
    assert_eq!(var(7, A).rem(var(2, B)).eval(), 1);
}

#[test]
fn deriv_selects_the_right_variable() {
    // The derivative of a leaf is One exactly on its own tag, Zero on any
    // other, whatever value the leaf carries.
    for v in [-3i64, 0, 7, 1000] {
        let d_same = var(v, X).deriv(X).unwrap();
        assert_eq!(d_same, Expr(Tree::One));
        let d_other = var(v, X).deriv(Y).unwrap();
        assert_eq!(d_other, Expr(Tree::Zero));
    }
}

#[test]
fn deriv_is_already_simplified() {
    // d/dy (x + y*x) = x: the eager per-site reduction collapses the
    // intermediate sum and products down to the bare leaf.
    let x = var(8, X);
    let y = var(2, Y);
    let s = x.clone().add(y.mul(x));
    let ds = s.deriv(Y).unwrap();
    assert_eq!(ds, var(8, X));
}

#[test]
fn deriv_of_constants_is_zero() {
    assert_eq!(Expr::zero().deriv(X).unwrap(), Expr(Tree::Zero));
    assert_eq!(Expr::one().deriv(X).unwrap(), Expr(Tree::Zero));
}

#[test]
fn deriv_matches_finite_differences() {
    // (x + y*x) / z is linear in y, so the forward difference in y is exact.
    let build = |xv: i64, yv: i64, zv: i64| {
        let x = var(xv, X);
        let y = var(yv, Y);
        let z = var(zv, Z);
        x.clone().add(y.mul(x)).div(z)
    };
    for (xv, yv, zv) in [(8, 2, -1), (6, 1, 2), (-4, 5, 2), (10, 0, 5)] {
        let w = build(xv, yv, zv);
        let diff = build(xv, yv + 1, zv).eval() - w.eval();
        assert_eq!(w.deriv(Y).unwrap().eval(), diff);
    }
    // x - y is linear in both variables.
    for (xv, yv) in [(3, 9), (-2, 4)] {
        let w = var(xv, X).sub(var(yv, Y));
        let dx = var(xv + 1, X).sub(var(yv, Y)).eval() - w.eval();
        let dy = var(xv, X).sub(var(yv + 1, Y)).eval() - w.eval();
        assert_eq!(w.deriv(X).unwrap().eval(), dx);
        assert_eq!(w.deriv(Y).unwrap().eval(), dy);
    }
}

#[test]
fn deriv_refused_for_each_uncovered_kind() {
    let t = |e: Result<Expr, DerivError>| e.unwrap_err().kind;
    assert_eq!(t(var(1, A).not().deriv(X)), OpKind::Not);
    assert_eq!(t(var(1, A).bitand(var(2, B)).deriv(X)), OpKind::BitAnd);
    assert_eq!(t(var(1, A).bitor(var(2, B)).deriv(X)), OpKind::BitOr);
    assert_eq!(t(var(1, A).bitxor(var(2, B)).deriv(X)), OpKind::BitXor);
    assert_eq!(t(var(1, A).shl(var(2, B)).deriv(X)), OpKind::Shl);
    assert_eq!(t(var(1, A).shr(var(2, B)).deriv(X)), OpKind::Shr);
    assert_eq!(t(var(1, A).rem(var(2, B)).deriv(X)), OpKind::Rem);
}

#[test]
fn deriv_refused_deep_in_a_tree() {
    // The uncovered node hides under arithmetic the rules do cover.
    let w = var(1, A).add(var(2, B).rem(var(3, X)));
    assert_eq!(w.deriv(X).unwrap_err(), DerivError { kind: OpKind::Rem });
}

#[test]
fn var_construction() {
    let v = Var::new(9, Ident::Bit1);
    assert_eq!(v.value, 9);
    assert_eq!(v.tag, Ident::Bit1);
    let d = Var::default();
    assert_eq!(d.value, 0);
    assert_eq!(d.tag, Ident::Bit0);
    assert_eq!(var(9, A), Expr(Tree::Leaf(Var::new(9, Ident::Bit0))));
}
