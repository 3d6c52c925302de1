//! Integer arithmetic of the fixed-point formats: division that rounds
//! toward minus infinity, whatever the sign of the dividend.

use vstd::prelude::*;
use vstd::arithmetic::div_mod::{
    lemma_fundamental_div_mod, lemma_fundamental_div_mod_converse, lemma_mod_bound,
};

verus! {

/// `a / b` rounded toward minus infinity, for a positive `b`.
pub fn floor_div(a: i128, b: i128) -> (q: i128)
    requires
        0 < b,
        -0x4000_0000_0000_0000_0000_0000_0000_0000 < a < 0x4000_0000_0000_0000_0000_0000_0000_0000,
        b < 0x4000_0000_0000_0000_0000_0000_0000_0000,
    ensures
        q == a as int / b as int,
        a >= 0 ==> 0 <= q <= a,
        a < 0 ==> a <= q < 0,
{
    if a >= 0 {
        proof {
            lemma_fundamental_div_mod(a as int, b as int);
            lemma_mod_bound(a as int, b as int);
            let q0 = a as int / b as int;
            let r0 = a as int % b as int;
            assert(0 <= q0 <= a) by (nonlinear_arith)
                requires
                    a as int == b as int * q0 + r0,
                    0 <= r0 < b,
                    a >= 0,
                    b > 0,
            ;
        }
        a / b
    } else {
        let n: i128 = -a;
        let q0: i128 = n / b;
        let r0: i128 = n % b;
        proof {
            lemma_fundamental_div_mod(n as int, b as int);
            lemma_mod_bound(n as int, b as int);
            assert(n as int == b as int * q0 as int + r0 as int);
            assert(q0 >= 0) by (nonlinear_arith)
                requires
                    n as int == b as int * q0 as int + r0 as int,
                    0 <= r0 < b,
                    n >= 0,
                    b > 0,
            ;
            assert(q0 <= n) by (nonlinear_arith)
                requires
                    n as int == b as int * q0 as int + r0 as int,
                    0 <= r0 < b,
                    q0 >= 0,
                    b > 0,
            ;
        }
        if r0 == 0 {
            proof {
                assert(a as int == (-q0 as int) * b as int + 0) by (nonlinear_arith)
                    requires
                        n as int == b as int * q0 as int + r0 as int,
                        r0 == 0,
                        a as int == -(n as int),
                ;
                lemma_fundamental_div_mod_converse(a as int, b as int, -q0 as int, 0);
            }
            proof {
                assert(q0 >= 1) by (nonlinear_arith)
                    requires
                        n as int == b as int * q0 as int + r0 as int,
                        r0 == 0,
                        n > 0,
                        b > 0,
                        q0 >= 0,
                ;
            }
            -q0
        } else {
            proof {
                assert(q0 + 1 <= n) by (nonlinear_arith)
                    requires
                        n as int == b as int * q0 as int + r0 as int,
                        0 < r0 < b,
                        q0 >= 0,
                        b > 0,
                ;
                assert(a as int == (-q0 as int - 1) * b as int + (b as int - r0 as int))
                    by (nonlinear_arith)
                    requires
                        n as int == b as int * q0 as int + r0 as int,
                        a as int == -(n as int),
                ;
                lemma_fundamental_div_mod_converse(
                    a as int,
                    b as int,
                    -q0 as int - 1,
                    b as int - r0 as int,
                );
            }
            -q0 - 1
        }
    }
}

/// `a` modulo a positive `m`, never negative.
pub fn floor_mod(a: i128, m: i128) -> (r: i128)
    requires
        0 < m < 0x4000_0000_0000_0000,
        -0x4000_0000_0000_0000_0000_0000_0000_0000 < a < 0x4000_0000_0000_0000_0000_0000_0000_0000,
    ensures
        r == a as int % m as int,
        0 <= r < m,
{
    let q = floor_div(a, m);
    proof {
        lemma_fundamental_div_mod(a as int, m as int);
        lemma_mod_bound(a as int, m as int);
        let rem = a as int % m as int;
        assert(q as int * m as int == a as int - rem) by (nonlinear_arith)
            requires
                a as int == m as int * q as int + rem,
        ;
    }
    a - q * m
}

/// The product of two bounded factors, exact.
pub fn wide_product(a: i128, b: i128) -> (r: i128)
    requires
        -0x2_0000_0000 <= a <= 0x2_0000_0000,
        -0x4_0000_0000_0000_0000 <= b <= 0x4_0000_0000_0000_0000,
    ensures
        r == a * b,
        -0x8_0000_0000_0000_0000_0000_0000 <= r <= 0x8_0000_0000_0000_0000_0000_0000,
{
    assert(-0x8_0000_0000_0000_0000_0000_0000 <= a * b <= 0x8_0000_0000_0000_0000_0000_0000)
        by (nonlinear_arith)
        requires
            -0x2_0000_0000 <= a <= 0x2_0000_0000,
            -0x4_0000_0000_0000_0000 <= b <= 0x4_0000_0000_0000_0000,
    ;
    a * b
}

} // verus!
