//! Two's-complement fixed-point arithmetic, stated over the mathematical integers.
//!
//! The compensation formulas are written for machine words of a fixed width: products and sums
//! wrap, right shifts round toward negative infinity, and the one division rounds toward zero.
//! This module names those behaviours as functions on `int` and proves that the machine
//! operations compute them.

use vstd::prelude::*;
use vstd::arithmetic::div_mod::{
    lemma_add_mod_noop, lemma_mod_sub_multiples_vanish, lemma_mod_twice,
    lemma_mul_mod_noop_general, lemma_sub_mod_noop,
};

verus! {

/// The value a 32-bit signed word holds after `x` was computed in it: the one integer in
/// `[-2^31, 2^31)` that differs from `x` by a multiple of `2^32`.
#[verifier::opaque]
pub open spec fn wrap_i32(x: int) -> int {
    let low = x % 0x1_0000_0000;
    if low >= 0x8000_0000 {
        low - 0x1_0000_0000
    } else {
        low
    }
}

/// The value a 64-bit signed word holds after `x` was computed in it: the one integer in
/// `[-2^63, 2^63)` that differs from `x` by a multiple of `2^64`.
#[verifier::opaque]
pub open spec fn wrap_i64(x: int) -> int {
    let low = x % 0x1_0000_0000_0000_0000;
    if low >= 0x8000_0000_0000_0000 {
        low - 0x1_0000_0000_0000_0000
    } else {
        low
    }
}

/// The quotient of `a` by `b` rounded toward zero, for `b != 0`.
pub open spec fn trunc_div(a: int, b: int) -> int {
    if a >= 0 {
        if b > 0 {
            a / b
        } else {
            -(a / (-b))
        }
    } else {
        if b > 0 {
            -((-a) / b)
        } else {
            (-a) / (-b)
        }
    }
}

/// `x` limited to the interval `[low, high]`.
pub open spec fn clamp(x: int, low: int, high: int) -> int {
    if x < low {
        low
    } else if x > high {
        high
    } else {
        x
    }
}

/// A wrapped value fits a 32-bit signed word, and a value that fits is left as it is.
pub proof fn lemma_wrap_i32_range(x: int)
    ensures
        i32::MIN <= wrap_i32(x) <= i32::MAX,
        i32::MIN <= x <= i32::MAX ==> wrap_i32(x) == x,
{
    reveal(wrap_i32);
}

/// A wrapped value fits a 64-bit signed word, and a value that fits is left as it is.
pub proof fn lemma_wrap_i64_range(x: int)
    ensures
        i64::MIN <= wrap_i64(x) <= i64::MAX,
        i64::MIN <= x <= i64::MAX ==> wrap_i64(x) == x,
{
    reveal(wrap_i64);
}

/// A wrapped value differs from the value by a multiple of `2^32`, and two values that
/// differ by such a multiple wrap to the same word.
pub proof fn lemma_wrap_i32_residue(a: int, b: int)
    ensures
        wrap_i32(a) % 0x1_0000_0000 == a % 0x1_0000_0000,
        a % 0x1_0000_0000 == b % 0x1_0000_0000 ==> wrap_i32(a) == wrap_i32(b),
{
    reveal(wrap_i32);
    lemma_mod_twice(a, 0x1_0000_0000);
    lemma_mod_sub_multiples_vanish(a % 0x1_0000_0000, 0x1_0000_0000);
}

/// A wrapped value differs from the value by a multiple of `2^64`, and two values that
/// differ by such a multiple wrap to the same word.
pub proof fn lemma_wrap_i64_residue(a: int, b: int)
    ensures
        wrap_i64(a) % 0x1_0000_0000_0000_0000 == a % 0x1_0000_0000_0000_0000,
        a % 0x1_0000_0000_0000_0000 == b % 0x1_0000_0000_0000_0000 ==> wrap_i64(a) == wrap_i64(b),
{
    reveal(wrap_i64);
    lemma_mod_twice(a, 0x1_0000_0000_0000_0000);
    lemma_mod_sub_multiples_vanish(a % 0x1_0000_0000_0000_0000, 0x1_0000_0000_0000_0000);
}

/// A wrapped sum or difference depends on its terms only up to multiples of `2^32`.
pub proof fn lemma_wrap_i32_add(a: int, b: int)
    ensures
        wrap_i32(wrap_i32(a) + b) == wrap_i32(a + b),
        wrap_i32(a + wrap_i32(b)) == wrap_i32(a + b),
        wrap_i32(wrap_i32(a) - b) == wrap_i32(a - b),
        wrap_i32(a - wrap_i32(b)) == wrap_i32(a - b),
{
    let m = 0x1_0000_0000;
    lemma_wrap_i32_residue(a, a);
    lemma_wrap_i32_residue(b, b);
    lemma_add_mod_noop(a, b, m);
    lemma_add_mod_noop(wrap_i32(a), b, m);
    lemma_add_mod_noop(a, wrap_i32(b), m);
    lemma_sub_mod_noop(a, b, m);
    lemma_sub_mod_noop(wrap_i32(a), b, m);
    lemma_sub_mod_noop(a, wrap_i32(b), m);
    lemma_wrap_i32_residue(wrap_i32(a) + b, a + b);
    lemma_wrap_i32_residue(a + wrap_i32(b), a + b);
    lemma_wrap_i32_residue(wrap_i32(a) - b, a - b);
    lemma_wrap_i32_residue(a - wrap_i32(b), a - b);
}

/// A wrapped sum or difference depends on its terms only up to multiples of `2^64`.
pub proof fn lemma_wrap_i64_add(a: int, b: int)
    ensures
        wrap_i64(wrap_i64(a) + b) == wrap_i64(a + b),
        wrap_i64(a + wrap_i64(b)) == wrap_i64(a + b),
        wrap_i64(wrap_i64(a) - b) == wrap_i64(a - b),
        wrap_i64(a - wrap_i64(b)) == wrap_i64(a - b),
{
    let m = 0x1_0000_0000_0000_0000;
    lemma_wrap_i64_residue(a, a);
    lemma_wrap_i64_residue(b, b);
    lemma_add_mod_noop(a, b, m);
    lemma_add_mod_noop(wrap_i64(a), b, m);
    lemma_add_mod_noop(a, wrap_i64(b), m);
    lemma_sub_mod_noop(a, b, m);
    lemma_sub_mod_noop(wrap_i64(a), b, m);
    lemma_sub_mod_noop(a, wrap_i64(b), m);
    lemma_wrap_i64_residue(wrap_i64(a) + b, a + b);
    lemma_wrap_i64_residue(a + wrap_i64(b), a + b);
    lemma_wrap_i64_residue(wrap_i64(a) - b, a - b);
    lemma_wrap_i64_residue(a - wrap_i64(b), a - b);
}

/// A wrapped product depends on its factors only up to multiples of `2^32`.
pub proof fn lemma_wrap_i32_mul(a: int, b: int)
    ensures
        wrap_i32(wrap_i32(a) * b) == wrap_i32(a * b),
        wrap_i32(a * wrap_i32(b)) == wrap_i32(a * b),
{
    let m = 0x1_0000_0000;
    lemma_wrap_i32_residue(a, a);
    lemma_wrap_i32_residue(b, b);
    lemma_mul_mod_noop_general(a, b, m);
    lemma_mul_mod_noop_general(wrap_i32(a), b, m);
    lemma_mul_mod_noop_general(a, wrap_i32(b), m);
    lemma_wrap_i32_residue(wrap_i32(a) * b, a * b);
    lemma_wrap_i32_residue(a * wrap_i32(b), a * b);
}

/// A wrapped product depends on its factors only up to multiples of `2^64`.
pub proof fn lemma_wrap_i64_mul(a: int, b: int)
    ensures
        wrap_i64(wrap_i64(a) * b) == wrap_i64(a * b),
        wrap_i64(a * wrap_i64(b)) == wrap_i64(a * b),
{
    let m = 0x1_0000_0000_0000_0000;
    lemma_wrap_i64_residue(a, a);
    lemma_wrap_i64_residue(b, b);
    lemma_mul_mod_noop_general(a, b, m);
    lemma_mul_mod_noop_general(wrap_i64(a), b, m);
    lemma_mul_mod_noop_general(a, wrap_i64(b), m);
    lemma_wrap_i64_residue(wrap_i64(a) * b, a * b);
    lemma_wrap_i64_residue(a * wrap_i64(b), a * b);
}

/// The wrapping operations of a 32-bit signed word compute the wrapped results.
pub proof fn lemma_wrapping_i32(a: i32, b: i32)
    ensures
        a.wrapping_add(b) == wrap_i32(a + b),
        a.wrapping_sub(b) == wrap_i32(a - b),
        a.wrapping_mul(b) == wrap_i32(a * b),
{
    reveal(wrap_i32);
}

/// The wrapping operations of a 64-bit signed word compute the wrapped results.
pub proof fn lemma_wrapping_i64(a: i64, b: i64)
    ensures
        a.wrapping_add(b) == wrap_i64(a + b),
        a.wrapping_sub(b) == wrap_i64(a - b),
        a.wrapping_mul(b) == wrap_i64(a * b),
{
    reveal(wrap_i64);
}

/// An arithmetic right shift of a 32-bit word is a division that rounds down.
pub proof fn lemma_shr_i32(x: i32)
    by (bit_vector)
    ensures
        x >> 3 == x / 8,
        x >> 4 == x / 16,
        x >> 7 == x / 128,
        x >> 8 == x / 256,
        x >> 10 == x / 1024,
        x >> 11 == x / 2048,
        x >> 12 == x / 4096,
        x >> 14 == x / 16384,
        x >> 15 == x / 32768,
{
}

/// An arithmetic right shift of a 64-bit word is a division that rounds down.
pub proof fn lemma_shr_i64(x: i64)
    by (bit_vector)
    ensures
        x >> 8 == x / 256,
        x >> 13 == x / 8192,
        x >> 19 == x / 524288,
        x >> 25 == x / 33554432,
        x >> 33 == x / 0x2_0000_0000,
{
}

/// A left shift of a 32-bit word is a multiplication that wraps.
pub proof fn lemma_shl_i32(x: i32)
    ensures
        x << 1 == wrap_i32(x * 2),
        x << 14 == wrap_i32(x * 16384),
        x << 20 == wrap_i32(x * 1048576),
{
    reveal(wrap_i32);
    assert(x << 1 == wrap_i32(x * 2)) by (bit_vector);
    assert(x << 14 == wrap_i32(x * 16384)) by (bit_vector);
    assert(x << 20 == wrap_i32(x * 1048576)) by (bit_vector);
}

/// A left shift of a 64-bit word is a multiplication that wraps.
pub proof fn lemma_shl_i64(x: i64)
    ensures
        x << 4 == wrap_i64(x * 16),
        x << 12 == wrap_i64(x * 4096),
        x << 17 == wrap_i64(x * 131072),
        x << 31 == wrap_i64(x * 0x8000_0000),
        x << 35 == wrap_i64(x * 0x8_0000_0000),
{
    reveal(wrap_i64);
    assert(x << 4 == wrap_i64(x * 16)) by (bit_vector);
    assert(x << 12 == wrap_i64(x * 4096)) by (bit_vector);
    assert(x << 17 == wrap_i64(x * 131072)) by (bit_vector);
    assert(x << 31 == wrap_i64(x * 0x8000_0000)) by (bit_vector);
    assert(x << 35 == wrap_i64(x * 0x8_0000_0000)) by (bit_vector);
}

/// Narrowing a 64-bit signed word to an unsigned 32-bit word keeps its low 32 bits.
pub proof fn lemma_low_word(x: i64)
    by (bit_vector)
    ensures
        x as u32 == x % 0x1_0000_0000,
{
}

} // verus!
