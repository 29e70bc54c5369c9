//! Counters that wrap around at their width.

use vstd::arithmetic::div_mod::{
    lemma_fundamental_div_mod, lemma_fundamental_div_mod_converse, lemma_mod_bound,
};
use vstd::prelude::*;

verus! {

/// A count that wraps around at `m` goes on by a step as the remainder does.
pub proof fn lemma_wraps_on(total: int, step: int, m: int)
    requires
        -m < step < m,
    ensures
        (total + step) % m == (if total % m + step >= m {
            total % m + step - m
        } else if total % m + step < 0 {
            total % m + step + m
        } else {
            total % m + step
        }),
{
    lemma_mod_bound(total, m);
    lemma_fundamental_div_mod(total, m);
    let q: int = total / m;
    let r: int = total % m;
    assert(m * q == q * m) by (nonlinear_arith);
    if r + step >= m {
        assert((q + 1) * m == q * m + m) by (nonlinear_arith);
        lemma_fundamental_div_mod_converse(total + step, m, q + 1, r + step - m);
    } else if r + step < 0 {
        assert((q - 1) * m == q * m - m) by (nonlinear_arith);
        lemma_fundamental_div_mod_converse(total + step, m, q - 1, r + step + m);
    } else {
        lemma_fundamental_div_mod_converse(total + step, m, q, r + step);
    }
}

} // verus!
