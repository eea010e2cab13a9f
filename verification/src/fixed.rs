//! Fixed-point numbers: an `i64` that counts parts of `1 / ONE`.

use vstd::prelude::*;

verus! {

/// The number 1.0.
pub const ONE: i64 = 0x100_0000;

/// The size of a number without its sign.
pub open spec fn magnitude(a: int) -> int {
    if a < 0 {
        -a
    } else {
        a
    }
}

/// The product of two fixed-point numbers, rounded toward zero.
pub open spec fn product(a: int, b: int) -> int {
    let size = magnitude(a) * magnitude(b) / (ONE as int);
    if (a < 0) != (b < 0) {
        -size
    } else {
        size
    }
}

/// The product of two fixed-point numbers, or `None` where it is too large
/// for an `i64`.
pub fn times(a: i64, b: i64) -> (out: Option<i64>)
    ensures
        out == if i64::MIN <= product(a as int, b as int) <= i64::MAX {
            Some(product(a as int, b as int) as i64)
        } else {
            None
        },
{
    let wide_a: i128 = a as i128;
    let wide_b: i128 = b as i128;
    let size_a: u128 = if a < 0 { (-wide_a) as u128 } else { wide_a as u128 };
    let size_b: u128 = if b < 0 { (-wide_b) as u128 } else { wide_b as u128 };
    assert(size_a * size_b <= 0x8000_0000_0000_0000 * 0x8000_0000_0000_0000) by (nonlinear_arith)
        requires
            size_a <= 0x8000_0000_0000_0000,
            size_b <= 0x8000_0000_0000_0000,
    ;
    let size: u128 = size_a * size_b / (ONE as u128);
    if (a < 0) != (b < 0) {
        if size <= 0x8000_0000_0000_0000 {
            Some((-(size as i128)) as i64)
        } else {
            None
        }
    } else {
        if size <= 0x7fff_ffff_ffff_ffff {
            Some(size as i64)
        } else {
            None
        }
    }
}

} // verus!
