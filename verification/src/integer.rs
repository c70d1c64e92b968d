//! Reading integers of 16, 32 and 64 bits.
//!
//! Integers are always read in the byte order of the machine: whoever wrote
//! the bytes chose the order, and a reader finds out from the byte order
//! marker of the header whether the choice suits it. Each width has a read
//! that asks for a buffer that is long enough, a read that checks the
//! length, and a read that also checks that the number fits in a `usize`.

use crate::endian::{
    bytes_of,
    lemma_bytes_of_len,
    lemma_value_of_bytes_of,
    native_order,
    u16_from_ne_bytes,
    u32_from_ne_bytes,
    u64_from_ne_bytes,
    value_of,
};
use crate::error::{outcome, DeserializeError, DeserializeErrorView};
use vstd::arithmetic::power::pow;
use vstd::prelude::*;

verus! {

/// The number that the first `width` of the given bytes spell in the byte
/// order of the machine.
pub open spec fn native_value(bytes: Seq<u8>, width: nat) -> nat {
    value_of(native_order(), bytes.take(width as int))
}

/// A number below `256^width` that was written as `width` bytes in the byte
/// order of the machine is read back as it was, whatever follows it.
pub proof fn lemma_read_what_was_written(n: nat, width: nat, rest: Seq<u8>)
    requires
        n < pow(256, width),
    ensures
        native_value(bytes_of(native_order(), n, width) + rest, width) == n,
{
    let written = bytes_of(native_order(), n, width);
    lemma_bytes_of_len(native_order(), n, width);
    lemma_value_of_bytes_of(native_order(), n, width);
    assert((written + rest).take(width as int) =~= written);
}

/// Reads a `u16` from the start of the given slice, which has at least two
/// bytes.
pub fn read_u16(slice: &[u8]) -> (n: u16)
    requires
        slice@.len() >= 2,
    ensures
        n == native_value(slice@, 2),
{
    let bytes: [u8; 2] = [slice[0], slice[1]];
    assert(bytes@ =~= slice@.take(2));
    u16_from_ne_bytes(bytes)
}

/// Reads a `u32` from the start of the given slice, which has at least four
/// bytes.
pub fn read_u32(slice: &[u8]) -> (n: u32)
    requires
        slice@.len() >= 4,
    ensures
        n == native_value(slice@, 4),
{
    let bytes: [u8; 4] = [slice[0], slice[1], slice[2], slice[3]];
    assert(bytes@ =~= slice@.take(4));
    u32_from_ne_bytes(bytes)
}

/// Reads a `u64` from the start of the given slice, which has at least eight
/// bytes.
pub fn read_u64(slice: &[u8]) -> (n: u64)
    requires
        slice@.len() >= 8,
    ensures
        n == native_value(slice@, 8),
{
    let bytes: [u8; 8] = [
        slice[0],
        slice[1],
        slice[2],
        slice[3],
        slice[4],
        slice[5],
        slice[6],
        slice[7],
    ];
    assert(bytes@ =~= slice@.take(8));
    u64_from_ne_bytes(bytes)
}

/// Reads a `u16` from the start of the given slice, if the slice has two
/// bytes; `what` says what the number is. Returns the number and how many
/// bytes were read.
pub fn try_read_u16(slice: &[u8], what: &'static str) -> (r: Result<(u16, usize), DeserializeError>)
    ensures
        match r {
            Ok((n, nread)) => slice@.len() >= 2 && n == native_value(slice@, 2) && nread == 2,
            Err(e) => slice@.len() < 2 && e@ == (DeserializeErrorView::BufferTooSmall {
                what: what@,
            }),
        },
{
    if slice.len() < 2 {
        return Err(DeserializeError::buffer_too_small(what));
    }
    Ok((read_u16(slice), 2))
}

/// Reads a `u32` from the start of the given slice, if the slice has four
/// bytes; `what` says what the number is. Returns the number and how many
/// bytes were read.
pub fn try_read_u32(slice: &[u8], what: &'static str) -> (r: Result<(u32, usize), DeserializeError>)
    ensures
        match r {
            Ok((n, nread)) => slice@.len() >= 4 && n == native_value(slice@, 4) && nread == 4,
            Err(e) => slice@.len() < 4 && e@ == (DeserializeErrorView::BufferTooSmall {
                what: what@,
            }),
        },
{
    if slice.len() < 4 {
        return Err(DeserializeError::buffer_too_small(what));
    }
    Ok((read_u32(slice), 4))
}

/// Reads a `u64` from the start of the given slice, if the slice has eight
/// bytes; `what` says what the number is. Returns the number and how many
/// bytes were read.
pub fn try_read_u64(slice: &[u8], what: &'static str) -> (r: Result<(u64, usize), DeserializeError>)
    ensures
        match r {
            Ok((n, nread)) => slice@.len() >= 8 && n == native_value(slice@, 8) && nread == 8,
            Err(e) => slice@.len() < 8 && e@ == (DeserializeErrorView::BufferTooSmall {
                what: what@,
            }),
        },
{
    if slice.len() < 8 {
        return Err(DeserializeError::buffer_too_small(what));
    }
    Ok((read_u64(slice), 8))
}

/// What a read of `width` bytes as a `usize` gives on the given bytes: the
/// number and the width, or the reason why not.
pub open spec fn spec_read_as_usize(bytes: Seq<u8>, width: nat, what: Seq<char>) -> Result<
    (usize, usize),
    DeserializeErrorView,
> {
    if bytes.len() < width {
        Err(DeserializeErrorView::BufferTooSmall { what })
    } else if native_value(bytes, width) > usize::MAX {
        Err(DeserializeErrorView::InvalidUsize { what })
    } else {
        Ok((native_value(bytes, width) as usize, width as usize))
    }
}

/// Reads a `u16` as a `usize` from the start of the given slice; `what`
/// says what the number is. Returns the number and how many bytes were read.
pub fn try_read_u16_as_usize(slice: &[u8], what: &'static str) -> (r: Result<
    (usize, usize),
    DeserializeError,
>)
    ensures
        outcome(r) == spec_read_as_usize(slice@, 2, what@),
{
    match try_read_u16(slice, what) {
        Ok((n, nread)) => Ok((n as usize, nread)),
        Err(e) => Err(e),
    }
}

/// Reads a `u32` as a `usize` from the start of the given slice; `what`
/// says what the number is. Returns the number and how many bytes were read.
pub fn try_read_u32_as_usize(slice: &[u8], what: &'static str) -> (r: Result<
    (usize, usize),
    DeserializeError,
>)
    ensures
        outcome(r) == spec_read_as_usize(slice@, 4, what@),
{
    match try_read_u32(slice, what) {
        Ok((n, nread)) => match usize::try_from(n) {
            Ok(n) => Ok((n, nread)),
            Err(_) => Err(DeserializeError::invalid_usize(what)),
        },
        Err(e) => Err(e),
    }
}

/// Reads a `u64` as a `usize` from the start of the given slice; `what`
/// says what the number is. Returns the number and how many bytes were read.
pub fn try_read_u64_as_usize(slice: &[u8], what: &'static str) -> (r: Result<
    (usize, usize),
    DeserializeError,
>)
    ensures
        outcome(r) == spec_read_as_usize(slice@, 8, what@),
{
    match try_read_u64(slice, what) {
        Ok((n, nread)) => match usize::try_from(n) {
            Ok(n) => Ok((n, nread)),
            Err(_) => Err(DeserializeError::invalid_usize(what)),
        },
        Err(e) => Err(e),
    }
}

} // verus!
