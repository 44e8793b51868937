//! The machine word and its arithmetic: two's-complement wrapping and
//! division that truncates toward zero.

use vstd::prelude::*;

verus! {

/// A signed 64-bit machine word. Data values and memory addresses are both words.
pub type Word = i64;

/// The number of distinct words, `2^64`.
pub open spec fn modulus() -> int {
    0x1_0000_0000_0000_0000
}

/// The word that is congruent to `x` modulo `2^64`: what two's-complement
/// arithmetic keeps of a mathematical result.
pub open spec fn wrap(x: int) -> Word {
    let low = x % modulus();
    if low > i64::MAX {
        (low - modulus()) as Word
    } else {
        low as Word
    }
}

/// The quotient of `a` by `b`, rounded toward zero.
pub open spec fn quotient(a: int, b: int) -> int {
    if a >= 0 {
        a / b
    } else {
        -((-a) / b)
    }
}

/// The remainder that goes with [`quotient`]: it has the sign of `a`.
pub open spec fn remainder(a: int, b: int) -> int {
    if a >= 0 {
        a % b
    } else {
        -((-a) % b)
    }
}

/// The magnitude of an integer.
pub open spec fn magnitude(x: int) -> int {
    if x >= 0 {
        x
    } else {
        -x
    }
}

/// `wrap` keeps every value that already is a word.
pub proof fn lemma_wrap_in_range(x: int)
    requires
        i64::MIN <= x <= i64::MAX,
    ensures
        wrap(x) == x,
{
}

/// `wrap(x)` differs from `x` by a multiple of `2^64`.
pub proof fn lemma_wrap_congruent(x: int)
    ensures
        (wrap(x) - x) % modulus() == 0,
{
}

/// Quotient and remainder recompose the dividend, the remainder is smaller in
/// magnitude than the divisor, and it is zero or has the sign of the dividend.
pub proof fn lemma_quotient_remainder(a: int, b: int)
    requires
        b != 0,
    ensures
        a == b * quotient(a, b) + remainder(a, b),
        -magnitude(b) < remainder(a, b) < magnitude(b),
        a >= 0 ==> remainder(a, b) >= 0,
        a <= 0 ==> remainder(a, b) <= 0,
{
    let n = if a >= 0 { a } else { -a };
    vstd::arithmetic::div_mod::lemma_fundamental_div_mod(n, b);
    if b > 0 {
        vstd::arithmetic::div_mod::lemma_mod_bound(n, b);
    } else {
        vstd::arithmetic::div_mod::lemma_mod_bound(n, -b);
        assert(n % b == n % (-b)) by (nonlinear_arith)
            requires
                b < 0,
        ;
    }
    assert(b * (-(n / b)) == -(b * (n / b))) by (nonlinear_arith);
    if a == 0 {
        vstd::arithmetic::div_mod::lemma_small_mod(0, magnitude(b) as nat);
        assert(0int % b == 0int % magnitude(b)) by (nonlinear_arith)
            requires
                b != 0,
        ;
    }
}

/// `a + b` in two's complement.
pub fn wrapping_sum(a: Word, b: Word) -> (r: Word)
    ensures
        r == wrap(a + b),
{
    a.wrapping_add(b)
}

/// `a - b` in two's complement.
pub fn wrapping_difference(a: Word, b: Word) -> (r: Word)
    ensures
        r == wrap(a - b),
{
    a.wrapping_sub(b)
}

/// `a * b` in two's complement.
pub fn wrapping_product(a: Word, b: Word) -> (r: Word)
    ensures
        r == wrap(a * b),
{
    a.wrapping_mul(b)
}

/// Quotient and remainder of `a` by a non-zero `b`, rounded toward zero, each
/// in two's complement: the one quotient that is no word, `2^63`, wraps to
/// `i64::MIN`.
pub fn wrapping_division(a: Word, b: Word) -> (r: (Word, Word))
    requires
        b != 0,
    ensures
        r.0 == wrap(quotient(a as int, b as int)),
        r.1 == wrap(remainder(a as int, b as int)),
{
    proof {
        lemma_quotient_remainder(a as int, b as int);
    }
    if a == i64::MIN && b == -1 {
        let ghost q = quotient(a as int, b as int);
        assert(b * q == -q) by (nonlinear_arith)
            requires
                b == -1,
        ;
        (i64::MIN, 0)
    } else {
        assert(i64::MIN <= quotient(a as int, b as int) <= i64::MAX) by (nonlinear_arith)
            requires
                b != 0,
                !(a == i64::MIN && b == -1),
                i64::MIN <= a <= i64::MAX,
                i64::MIN <= b <= i64::MAX,
                a == b * quotient(a as int, b as int) + remainder(a as int, b as int),
                -magnitude(b as int) < remainder(a as int, b as int) < magnitude(b as int),
                a >= 0 ==> remainder(a as int, b as int) >= 0,
                a <= 0 ==> remainder(a as int, b as int) <= 0,
        ;
        (a / b, a % b)
    }
}

} // verus!
