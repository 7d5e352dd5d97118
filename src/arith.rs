//! Two's-complement 64-bit arithmetic: wraparound addition and exponentiation.
use vstd::arithmetic::div_mod::{lemma_mul_mod_noop_left, lemma_mul_mod_noop_right};
use vstd::arithmetic::power::{lemma_pow_adds, lemma_pow_mod_noop, lemma_pow_multiplies, lemma_square_is_pow2, pow};
use vstd::prelude::*;

verus! {

/// The number of distinct 64-bit values.
pub open spec fn modulus() -> int {
    0x1_0000_0000_0000_0000
}

/// Reduces an integer into the range of `i64`, keeping it congruent modulo 2^64.
pub open spec fn wrap64(x: int) -> int {
    vstd::wrapping::i64_specs::signed_crop(x) as int
}

/// `n` raised to the non-negative power `p`, wrapped into `i64`.
pub open spec fn pow_wrapped(n: int, p: nat) -> int {
    wrap64(pow(n, p))
}

proof fn lemma_wrap_range(x: int)
    ensures
        wrap64(x) % modulus() == x % modulus(),
        i64::MIN <= wrap64(x) <= i64::MAX,
{
}

proof fn lemma_wrap_congruent(x: int, y: int)
    requires
        x % modulus() == y % modulus(),
    ensures
        wrap64(x) == wrap64(y),
{
}

/// An `i64` is its own wrapped value.
pub proof fn lemma_wrap_id(x: i64)
    ensures
        wrap64(x as int) == x,
{
}

/// Wrapping a factor first does not change the wrapped product.
proof fn lemma_wrap_mul_left(x: int, y: int)
    ensures
        wrap64(wrap64(x) * y) == wrap64(x * y),
{
    let m = modulus();
    lemma_wrap_range(x);
    lemma_mul_mod_noop_left(wrap64(x), y, m);
    lemma_mul_mod_noop_left(x, y, m);
    lemma_wrap_congruent(wrap64(x) * y, x * y);
}

/// Wrapping the base of a power first does not change the wrapped product.
proof fn lemma_wrap_pow_base(c: int, x: int, k: nat)
    ensures
        wrap64(c * pow(wrap64(x), k)) == wrap64(c * pow(x, k)),
{
    let m = modulus();
    lemma_wrap_range(x);
    lemma_pow_mod_noop(wrap64(x), k, m);
    lemma_pow_mod_noop(x, k, m);
    lemma_mul_mod_noop_right(c, pow(wrap64(x), k), m);
    lemma_mul_mod_noop_right(c, pow(x, k), m);
    lemma_wrap_congruent(c * pow(wrap64(x), k), c * pow(x, k));
}

/// Addition with wraparound.
pub fn add_wrapping(l: i64, r: i64) -> (s: i64)
    ensures
        s == wrap64(l + r),
{
    l.wrapping_add(r)
}

/// `base` to the power `exp` with wraparound, by repeated squaring.
pub fn pow_wrapping(base: i64, exp: u64) -> (r: i64)
    ensures
        r == pow_wrapped(base as int, exp as nat),
{
    let mut acc: i64 = 1;
    let mut b: i64 = base;
    let mut e: u64 = exp;
    while e > 0
        invariant
            wrap64(acc * pow(b as int, e as nat)) == pow_wrapped(base as int, exp as nat),
        decreases e,
    {
        let ghost (acc0, b0, e0) = (acc as int, b as int, e as nat);
        let half: u64 = e / 2;
        proof {
            lemma_square_is_pow2(b0);
            lemma_pow_multiplies(b0, 2, half as nat);
            if e0 % 2 == 1 {
                lemma_pow_adds(b0, 1, 2 * half as nat);
                assert(pow(b0, 1) == b0) by {
                    reveal_with_fuel(pow, 2);
                }
                assert(pow(b0, e0) == b0 * pow(b0 * b0, half as nat));
                assert(acc0 * pow(b0, e0) == (acc0 * b0) * pow(b0 * b0, half as nat)) by (nonlinear_arith)
                    requires
                        pow(b0, e0) == b0 * pow(b0 * b0, half as nat),
                ;
                lemma_wrap_mul_left(acc0 * b0, pow(b0 * b0, half as nat));
                lemma_wrap_pow_base(wrap64(acc0 * b0), b0 * b0, half as nat);
            } else {
                assert(pow(b0, e0) == pow(b0 * b0, half as nat));
                lemma_wrap_pow_base(acc0, b0 * b0, half as nat);
            }
        }
        if e % 2 == 1 {
            acc = acc.wrapping_mul(b);
        }
        b = b.wrapping_mul(b);
        e = half;
    }
    proof {
        lemma_wrap_id(acc);
        assert(pow(b as int, 0) == 1) by {
            reveal_with_fuel(pow, 1);
        }
    }
    acc
}

} // verus!
