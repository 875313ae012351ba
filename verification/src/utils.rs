//! Mapping a continuous 2D position to discrete grid coordinates.
//!
//! Positions and the tile size are measured in the same integer subunit
//! (for example tenths of a pixel), so that the cell coordinate is the
//! floor of the position divided by the tile size. No bounds clamping is
//! performed: the caller must validate the result against the grid
//! dimensions before using it as an index.

use vstd::prelude::*;

use vstd::arithmetic::div_mod::lemma_fundamental_div_mod;
use vstd::arithmetic::div_mod::lemma_fundamental_div_mod_converse;
use vstd::arithmetic::mul::lemma_mul_inequality;
use vstd::arithmetic::mul::lemma_mul_is_distributive_add_other_way;
use vstd::arithmetic::mul::lemma_mul_unary_negation;

verus! {

/// Floor division of `a` by a positive divisor `b`: the unique `q` with
/// `q*b <= a < (q+1)*b`. For a positive divisor this coincides with
/// mathematical integer division, which rounds toward negative infinity.
pub fn floor_div(a: i64, b: i64) -> (q: i64)
    requires
        1 <= b,
    ensures
        q == a as int / b as int,
{
    let t: u64 = b as u64;
    if a >= 0 {
        let n: u64 = a as u64;
        let k: u64 = n / t;
        let s: u64 = n % t;
        proof {
            lemma_fundamental_div_mod(n as int, t as int);
            assert((k as int) * (b as int) == (b as int) * (k as int)) by (nonlinear_arith);
            lemma_fundamental_div_mod_converse(a as int, b as int, k as int, s as int);
            lemma_mul_inequality(1, t as int, k as int);
            assert(k <= n);
        }
        k as i64
    } else {
        let n: u64 = ((-(a + 1)) as u64) + 1;
        let k: u64 = n / t;
        let s: u64 = n % t;
        proof {
            lemma_fundamental_div_mod(n as int, t as int);
            assert(n as int == (k as int) * (t as int) + s as int) by {
                assert(t as int * (k as int) == k as int * (t as int)) by (nonlinear_arith);
            }
        }
        if s == 0 {
            proof {
                assert(k >= 1) by {
                    if k == 0 {
                        assert(n as int == (0) * (t as int) + s as int);
                    }
                }
            }
            let q: i64 = -((k - 1) as i64) - 1;
            proof {
                lemma_mul_inequality(1, t as int, k as int);
                assert(k <= n);
                lemma_mul_unary_negation(k as int, t as int);
                assert((q as int) * (b as int) == -((k as int) * (t as int)));
                lemma_fundamental_div_mod_converse(a as int, b as int, q as int, 0);
            }
            q
        } else {
            let r: u64 = t - s;
            proof {
                assert(t >= 2);
                lemma_mul_inequality(2, t as int, k as int);
                assert((t as int) * (k as int) == (k as int) * (t as int)) by (nonlinear_arith);
                assert(2 * (k as int) <= n as int);
                assert(k < 0x8000000000000000);
            }
            let q: i64 = -(k as i64) - 1;
            proof {
                lemma_mul_is_distributive_add_other_way(t as int, k as int, 1);
                lemma_mul_unary_negation((k as int) + 1, t as int);
                assert((q as int) * (b as int) == -(((k as int) + 1) * (t as int)));
                assert(a as int == (q as int) * (b as int) + r as int);
                lemma_fundamental_div_mod_converse(a as int, b as int, q as int, r as int);
            }
            q
        }
    }
}

/// Maps a continuous position to the grid cell containing it:
/// `(floor(x / tile_size), floor(y / tile_size))`. The result may lie
/// outside the grid; it is never clamped or wrapped.
pub fn get_cell_from_position(position: (i64, i64), tile_size: i64) -> (cell: (i64, i64))
    requires
        1 <= tile_size,
    ensures
        cell.0 == position.0 as int / tile_size as int,
        cell.1 == position.1 as int / tile_size as int,
{
    (floor_div(position.0, tile_size), floor_div(position.1, tile_size))
}

} // verus!
