use vstd::prelude::*;
use vstd::arithmetic::div_mod::{
    lemma_fundamental_div_mod, lemma_fundamental_div_mod_converse_div, lemma_mod_bound,
};
use vstd::arithmetic::mul::lemma_mul_is_commutative;

verus! {

/// `⌊x / y⌋` is the greatest multiple count of `y` that does not exceed `x`.
pub proof fn lemma_floor_div_bounds(x: int, y: int)
    requires
        y > 0,
    ensures
        (x / y) * y <= x < (x / y) * y + y,
{
    lemma_fundamental_div_mod(x, y);
    lemma_mod_bound(x, y);
    lemma_mul_is_commutative(x / y, y);
}

/// Floor division `⌊x / y⌋` for a positive divisor (rounds towards negative infinity).
pub fn floor_div(x: i32, y: i32) -> (r: i32)
    requires
        y > 0,
    ensures
        r as int == (x as int) / (y as int),
        r * y <= x < r * y + y,
{
    if x >= 0 {
        let q: i32 = x / y;
        proof {
            lemma_floor_div_bounds(x as int, y as int);
        }
        q
    } else {
        let a: i32 = -(x + 1);
        let q: i32 = a / y;
        proof {
            lemma_fundamental_div_mod(a as int, y as int);
            let r = a as int % y as int;
            assert(x as int == (-q - 1) * y + (y - r - 1)) by (nonlinear_arith)
                requires
                    a as int == y * q + r,
                    x as int == -(a as int) - 1;
            lemma_fundamental_div_mod_converse_div(x as int, y as int, -q - 1, y - r - 1);
        }
        proof {
            lemma_floor_div_bounds(x as int, y as int);
        }
        -q - 1
    }
}

} // verus!
