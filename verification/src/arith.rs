//! Truncating division and remainder on `i64`.
//!
//! In specifications, `/` and `%` on `int` are Euclidean; Rust's `/` and `%`
//! on signed integers round toward zero instead.  `tdiv` and `trem` state the
//! rounded-toward-zero operations over `int`, and the executable functions
//! compute them, dividing only by positive numbers so that each branch is a
//! case the verifier relates to the Euclidean operations directly.

use vstd::arithmetic::div_mod::{
    lemma_basic_div, lemma_div_by_self, lemma_div_decreases, lemma_div_nonincreasing,
    lemma_div_pos_is_pos, lemma_mod_self_0, lemma_small_mod,
};
use vstd::prelude::*;

verus! {

/// Whether a mathematical integer fits in `i64`.
pub open spec fn in_i64(x: int) -> bool {
    i64::MIN <= x <= i64::MAX
}

/// Division rounded toward zero, as Rust's `/` computes it on signed
/// integers.  Division by zero is given the junk value 0; callers exclude it.
pub open spec fn tdiv(a: int, b: int) -> int {
    if b == 0 {
        0
    } else if a >= 0 {
        if b > 0 {
            a / b
        } else {
            -(a / (-b))
        }
    } else {
        if b > 0 {
            -((-a) / b)
        } else {
            (-a) / (-b)
        }
    }
}

/// Remainder with the dividend's sign, as Rust's `%` computes it on signed
/// integers.  Remainder by zero is given the junk value `a`; callers exclude
/// it.
pub open spec fn trem(a: int, b: int) -> int {
    let m = if b > 0 {
        b
    } else {
        -b
    };
    if b == 0 {
        a
    } else if a >= 0 {
        a % m
    } else {
        -((-a) % m)
    }
}

/// Dividing by one changes nothing, and a zero dividend yields zero.
pub proof fn lemma_tdiv_basics(a: int, b: int)
    ensures
        tdiv(a, 1) == a,
        b != 0 ==> tdiv(0, b) == 0,
{
    assert(a >= 0 ==> a / 1 == a);
    assert(a < 0 ==> (-a) / 1 == -a);
    if b != 0 {
        let m = if b > 0 {
            b
        } else {
            -b
        };
        lemma_basic_div(0, m);
    }
}

/// The magnitude of a truncating quotient never exceeds the dividend's.
pub proof fn lemma_tdiv_in_range(a: int, b: int)
    requires
        in_i64(a),
        in_i64(b),
        b != 0,
        !(a == i64::MIN && b == -1),
    ensures
        in_i64(tdiv(a, b)),
{
    let n = if a >= 0 {
        a
    } else {
        -a
    };
    let m = if b > 0 {
        b
    } else {
        -b
    };
    lemma_div_pos_is_pos(n, m);
    lemma_div_nonincreasing(n, m);
    if n == -(i64::MIN as int) && m >= 2 {
        lemma_div_decreases(n, m);
    }
}

/// A truncating remainder lies strictly between `-|b|` and `|b|`.
pub proof fn lemma_trem_in_range(a: int, b: int)
    requires
        in_i64(a),
        in_i64(b),
        b != 0,
    ensures
        in_i64(trem(a, b)),
{
    let n = if a >= 0 {
        a
    } else {
        -a
    };
    let m = if b > 0 {
        b
    } else {
        -b
    };
    assert(0 <= n % m < m) by {
        vstd::arithmetic::div_mod::lemma_mod_bound(n, m);
    }
}

/// Truncating division on `i64`, with Rust's `/` overflow case excluded.
pub fn div_i64(a: i64, b: i64) -> (q: i64)
    requires
        b != 0,
        !(a == i64::MIN && b == -1),
    ensures
        q as int == tdiv(a as int, b as int),
{
    if b > 0 {
        a / b
    } else if b == i64::MIN {
        proof {
            let m = -(i64::MIN as int);
            if a as int >= 0 {
                lemma_basic_div(a as int, m);
            } else if a != i64::MIN {
                lemma_basic_div(-(a as int), m);
            } else {
                lemma_div_by_self(m);
            }
        }
        if a == i64::MIN {
            1
        } else {
            0
        }
    } else {
        let nb = -b;
        let q0 = a / nb;
        proof {
            if a < 0 {
                lemma_div_pos_is_pos(-(a as int), nb as int);
                lemma_div_nonincreasing(-(a as int), nb as int);
                if a == i64::MIN {
                    lemma_div_decreases(-(a as int), nb as int);
                }
            }
        }
        -q0
    }
}

/// Truncating remainder on `i64`, with Rust's `%` overflow case excluded.
pub fn rem_i64(a: i64, b: i64) -> (r: i64)
    requires
        b != 0,
        !(a == i64::MIN && b == -1),
    ensures
        r as int == trem(a as int, b as int),
{
    if b > 0 {
        a % b
    } else if b == i64::MIN {
        proof {
            let m = -(i64::MIN as int);
            if a as int >= 0 {
                lemma_small_mod(a as nat, m as nat);
            } else if a != i64::MIN {
                lemma_small_mod((-(a as int)) as nat, m as nat);
            } else {
                lemma_mod_self_0(m);
            }
        }
        if a == i64::MIN {
            0
        } else {
            a
        }
    } else {
        let nb = -b;
        a % nb
    }
}

} // verus!
