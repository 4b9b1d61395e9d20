//! Alignment arithmetic shared by the layout and relocation code.

use vstd::prelude::*;

verus! {

use vstd::arithmetic::div_mod::{lemma_fundamental_div_mod, lemma_mod_multiples_basic};
use vstd::arithmetic::power::{lemma_pow_adds, lemma_pow_positive};
use vstd::arithmetic::power2::{is_pow2, is_pow2_equiv, lemma_pow2_strictly_increases};

/// A coarser power-of-two alignment is a multiple of a finer one.
pub proof fn lemma_pow2_divides(a: int, b: int)
    requires
        is_pow2(a),
        is_pow2(b),
        a <= b,
    ensures
        b % a == 0,
        b / a >= 1,
        b == (b / a) * a,
{
    is_pow2_equiv(a);
    is_pow2_equiv(b);
    let i = choose|i: nat| vstd::arithmetic::power::pow(2, i) == a;
    let j = choose|j: nat| vstd::arithmetic::power::pow(2, j) == b;
    lemma_pow_positive(2, i);
    lemma_pow_positive(2, j);
    if j < i {
        lemma_pow2_strictly_increases(j, i);
        assert(vstd::arithmetic::power2::pow2(j) < vstd::arithmetic::power2::pow2(i));
        assert(false);
    }
    lemma_pow_adds(2, i, (j - i) as nat);
    lemma_pow_positive(2, (j - i) as nat);
    let k = vstd::arithmetic::power::pow(2, (j - i) as nat);
    assert(b == a * k);
    lemma_mod_multiples_basic(k, a);
    lemma_fundamental_div_mod(b, a);
    assert(a * k == k * a) by (nonlinear_arith);
    assert(b / a == k) by {
        vstd::arithmetic::div_mod::lemma_div_multiples_vanish(k, a);
    }
    assert(k >= 1);
    assert(b == (b / a) * a) by (nonlinear_arith)
        requires
            b % a == 0,
            a > 0,
            b == k * a,
            b / a == k,
    ;
}

/// A power of two is positive.
pub proof fn lemma_is_pow2_pos(a: int)
    requires
        is_pow2(a),
    ensures
        a >= 1,
{
    reveal(vstd::arithmetic::power2::is_pow2);
}

/// The mandatory stack alignment, 16, is a power of two.
pub proof fn lemma_is_pow2_sixteen()
    ensures
        is_pow2(16),
{
    reveal_with_fuel(vstd::arithmetic::power2::is_pow2, 6);
}

/// Anything aligned to a coarser power-of-two boundary is aligned to a
/// finer one as well.
pub proof fn lemma_aligned_to_finer(x: int, a: int, b: int)
    requires
        is_pow2(a),
        is_pow2(b),
        a <= b,
        x % b == 0,
        x >= 0,
    ensures
        x % a == 0,
{
    lemma_pow2_divides(a, b);
    assert(a > 0 && b > 0) by {
        reveal(vstd::arithmetic::power2::is_pow2);
    }
    let m = x / b;
    lemma_fundamental_div_mod(x, b);
    let k = b / a;
    assert(x == b * m);
    assert(b == k * a);
    assert((k * a) * m == (m * k) * a) by (nonlinear_arith);
    lemma_mod_multiples_basic(m * k, a);
}

/// The least multiple of `b` at or above `x`.
pub open spec fn align_up(x: int, b: int) -> int {
    ((x + b - 1) / b) * b
}

/// Round `addr` up to the next multiple of `boundary` (the least multiple of
/// `boundary` that is not below `addr`).
pub fn round_up(addr: usize, boundary: usize) -> (r: usize)
    requires
        boundary > 0,
        addr + boundary <= usize::MAX,
    ensures
        r == align_up(addr as int, boundary as int),
        r as int % boundary as int == 0,
        addr <= r < addr + boundary,
{
    let rem = addr % boundary;
    if rem == 0 {
        let q = addr / boundary;
        proof {
            lemma_fundamental_div_mod(addr as int, boundary as int);
            vstd::arithmetic::div_mod::lemma_div_multiples_vanish_fancy(
                q as int,
                boundary as int - 1,
                boundary as int,
            );
            assert(addr as int + boundary - 1 == boundary as int * q as int + (boundary as int
                - 1));
            assert(align_up(addr as int, boundary as int) == q as int * boundary as int);
            assert(q as int * boundary as int == boundary as int * q as int) by (nonlinear_arith);
        }
        addr
    } else {
        let q = addr / boundary;
        proof {
            lemma_fundamental_div_mod(addr as int, boundary as int);
            vstd::arithmetic::div_mod::lemma_div_multiples_vanish_fancy(
                q as int + 1,
                rem as int - 1,
                boundary as int,
            );
            assert(boundary as int * (q as int + 1) == boundary as int * q as int
                + boundary as int) by (nonlinear_arith);
            assert(addr as int + boundary - 1 == boundary as int * (q as int + 1) + (rem as int
                - 1));
            assert(align_up(addr as int, boundary as int) == (q as int + 1) * boundary as int);
            assert((q as int + 1) * boundary as int == boundary as int * q as int + boundary as int)
                by (nonlinear_arith);
            lemma_mod_multiples_basic(q as int + 1, boundary as int);
        }
        (q + 1) * boundary
    }
}

/// Round `addr` down to the previous multiple of `boundary` (the greatest
/// multiple of `boundary` that is not above `addr`).
pub fn round_down(addr: usize, boundary: usize) -> (r: usize)
    requires
        boundary > 0,
    ensures
        r as int % boundary as int == 0,
        r <= addr < r + boundary,
{
    let rem = addr % boundary;
    proof {
        lemma_fundamental_div_mod(addr as int, boundary as int);
        let q = addr as int / boundary as int;
        lemma_mod_multiples_basic(q, boundary as int);
        assert(q * boundary as int == boundary as int * q) by (nonlinear_arith);
    }
    addr - rem
}

/// Round `addr` down to the previous multiple of `boundary`, for the
/// 64-bit address arithmetic of the relocation pass.
pub fn round_down_u64(addr: u64, boundary: u64) -> (r: u64)
    requires
        boundary > 0,
    ensures
        r == addr as int - addr as int % boundary as int,
        r as int % boundary as int == 0,
        r <= addr < r + boundary,
{
    let rem = addr % boundary;
    proof {
        lemma_fundamental_div_mod(addr as int, boundary as int);
        let q = addr as int / boundary as int;
        lemma_mod_multiples_basic(q, boundary as int);
        assert(q * boundary as int == boundary as int * q) by (nonlinear_arith);
    }
    addr - rem
}

/// The larger of two sizes or alignments.
pub fn max_usize(a: usize, b: usize) -> (r: usize)
    ensures
        r == if a >= b { a as int } else { b as int },
        r >= a && r >= b,
{
    if a >= b {
        a
    } else {
        b
    }
}

} // verus!
