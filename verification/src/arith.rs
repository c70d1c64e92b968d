//! Arithmetic on sizes that come from bytes nobody vouches for.
//!
//! A size computed from an untrusted count must not wrap around: a sum or a
//! product that does not fit is reported, never shortened.

use crate::error::{DeserializeError, DeserializeErrorView};
use vstd::prelude::*;

verus! {

/// Checks that the given slice has at least `at_least_len` items; `what`
/// says what the slice holds.
pub fn check_slice_len<T>(slice: &[T], at_least_len: usize, what: &'static str) -> (r: Result<
    (),
    DeserializeError,
>)
    ensures
        match r {
            Ok(_) => slice@.len() >= at_least_len,
            Err(e) => slice@.len() < at_least_len && e@ == (DeserializeErrorView::BufferTooSmall {
                what: what@,
            }),
        },
{
    if slice.len() < at_least_len {
        return Err(DeserializeError::buffer_too_small(what));
    }
    Ok(())
}

/// Multiplies the given numbers; `what` says what the product is.
pub fn mul(a: usize, b: usize, what: &'static str) -> (r: Result<usize, DeserializeError>)
    ensures
        match r {
            Ok(c) => c == a * b,
            Err(e) => a * b > usize::MAX && e@ == (DeserializeErrorView::ArithmeticOverflow {
                what: what@,
            }),
        },
{
    match a.checked_mul(b) {
        Some(c) => Ok(c),
        None => Err(DeserializeError::arithmetic_overflow(what)),
    }
}

/// Adds the given numbers; `what` says what the sum is.
pub fn add(a: usize, b: usize, what: &'static str) -> (r: Result<usize, DeserializeError>)
    ensures
        match r {
            Ok(c) => c == a + b,
            Err(e) => a + b > usize::MAX && e@ == (DeserializeErrorView::ArithmeticOverflow {
                what: what@,
            }),
        },
{
    match a.checked_add(b) {
        Some(c) => Ok(c),
        None => Err(DeserializeError::arithmetic_overflow(what)),
    }
}

/// Shifts `a` left by `b` bits; `what` says what the result is. The shift
/// is refused where `b` is not below the number of bits of a `usize`; bits
/// of `a` that a smaller shift pushes out at the top are dropped.
pub fn shl(a: usize, b: usize, what: &'static str) -> (r: Result<usize, DeserializeError>)
    ensures
        match r {
            Ok(c) => b < usize::BITS && c == a << b,
            Err(e) => b >= usize::BITS && e@ == (DeserializeErrorView::ArithmeticOverflow {
                what: what@,
            }),
        },
{
    if b >= usize::BITS as usize {
        return Err(DeserializeError::arithmetic_overflow(what));
    }
    Ok(a << b)
}

} // verus!
