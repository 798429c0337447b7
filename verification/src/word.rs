//! The `Word` value type and its arithmetic rules.
//!
//! Every stack slot and memory cell holds exactly one `Word`, a fixed-width
//! 64-bit signed integer. `WORD_MAX` is the largest representable value.
//!
//! The arithmetic rules are deliberately asymmetric, a documented quirk of
//! the engine's design:
//! - addition and multiplication are reduced by the remainder modulo
//!   `WORD_MAX` (truncated, keeping the sign of the mathematical result);
//! - subtraction is *not* reduced: a difference outside the representable
//!   range is a fault (`ArithmeticUnderflow`), never wrapped;
//! - division truncates toward zero and faults on a zero divisor; the one
//!   quotient that exceeds `WORD_MAX` (the minimum word divided by minus
//!   one) is likewise a fault rather than a wrapped value.
use crate::VmError;
use vstd::prelude::*;

verus! {

/// The fixed-width signed integer type all values are represented as.
pub type Word = i64;

/// The maximum value representable by `Word`; the modulus of ADD and MUL.
pub const WORD_MAX: Word = i64::MAX;

/// The remainder of `x` modulo `WORD_MAX`, truncated toward zero: the
/// result keeps the sign of `x` and its magnitude is below `WORD_MAX`.
pub open spec fn wrap_word(x: int) -> int {
    if x >= 0 {
        x % (WORD_MAX as int)
    } else {
        -((-x) % (WORD_MAX as int))
    }
}

/// The quotient of `a` divided by `b`, truncated toward zero.
pub open spec fn word_quot(a: int, b: int) -> int
    recommends
        b != 0,
{
    let q = (vstd::math::abs(a) / vstd::math::abs(b)) as int;
    if (a >= 0) == (b >= 0) {
        q
    } else {
        -q
    }
}

/// The remainder modulo `WORD_MAX` of a value no larger in magnitude than
/// a product of two words, computed exactly.
fn wrap_i128(s: i128) -> (r: Word)
    requires
        s > i128::MIN,
    ensures
        r as int == wrap_word(s as int),
{
    if s >= 0 {
        let m: u128 = (s as u128) % (WORD_MAX as u128);
        m as i64
    } else {
        let m: u128 = ((-s) as u128) % (WORD_MAX as u128);
        -(m as i64)
    }
}

/// The sum of `a` and `b`, reduced modulo `WORD_MAX`.
pub fn word_add(a: Word, b: Word) -> (r: Word)
    ensures
        r as int == wrap_word(a + b),
{
    let s: i128 = a as i128 + b as i128;
    wrap_i128(s)
}

/// The product of `a` and `b`, reduced modulo `WORD_MAX`.
pub fn word_mul(a: Word, b: Word) -> (r: Word)
    ensures
        r as int == wrap_word(a * b),
{
    proof {
        assert((a as int) * (b as int) <= 0x8000_0000_0000_0000 * 0x8000_0000_0000_0000 && (
        a as int) * (b as int) >= -(0x8000_0000_0000_0000 * 0x8000_0000_0000_0000))
            by (nonlinear_arith)
            requires
                -0x8000_0000_0000_0000 <= a as int <= 0x7fff_ffff_ffff_ffff,
                -0x8000_0000_0000_0000 <= b as int <= 0x7fff_ffff_ffff_ffff,
        ;
    }
    let p: i128 = (a as i128) * (b as i128);
    wrap_i128(p)
}

/// The difference `a - b`, *not* reduced: a result outside the
/// representable range of `Word` is an `ArithmeticUnderflow` fault.
pub fn word_sub(a: Word, b: Word) -> (r: Result<Word, VmError>)
    ensures
        i64::MIN <= a - b <= i64::MAX ==> r == Ok::<Word, VmError>((a - b) as i64),
        !(i64::MIN <= a - b <= i64::MAX) ==> r == Err::<Word, VmError>(
            VmError::ArithmeticUnderflow,
        ),
{
    let d: i128 = a as i128 - b as i128;
    if d < i64::MIN as i128 || d > i64::MAX as i128 {
        Err(VmError::ArithmeticUnderflow)
    } else {
        Ok(d as i64)
    }
}

/// The quotient of `a` divided by `b`, truncated toward zero. A zero
/// divisor is a `DivisionByZero` fault; the one quotient that does not fit
/// a `Word` (the minimum word divided by minus one) is an
/// `ArithmeticUnderflow` fault.
pub fn word_div(a: Word, b: Word) -> (r: Result<Word, VmError>)
    ensures
        b == 0 ==> r == Err::<Word, VmError>(VmError::DivisionByZero),
        b != 0 && word_quot(a as int, b as int) <= i64::MAX ==> r == Ok::<Word, VmError>(
            word_quot(a as int, b as int) as i64,
        ),
        b != 0 && word_quot(a as int, b as int) > i64::MAX ==> r == Err::<Word, VmError>(
            VmError::ArithmeticUnderflow,
        ),
{
    if b == 0 {
        return Err(VmError::DivisionByZero);
    }
    let am: u64 = if a >= 0 {
        a as u64
    } else {
        (-(a as i128)) as u64
    };
    let bm: u64 = if b >= 0 {
        b as u64
    } else {
        (-(b as i128)) as u64
    };
    let q: u64 = am / bm;
    if (a >= 0) == (b >= 0) {
        if q > i64::MAX as u64 {
            Err(VmError::ArithmeticUnderflow)
        } else {
            Ok(q as i64)
        }
    } else {
        let qi: i128 = -(q as i128);
        Ok(qi as i64)
    }
}

} // verus!
