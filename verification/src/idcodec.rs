//! Reading and writing identifiers of patterns and of states.
//!
//! An identifier is written as the four bytes of its value. A read checks
//! the value against the bound of the identifiers, unless the caller vouches
//! for the bytes.

use crate::endian::{bytes_of, overwrite, Endian};
use crate::error::{DeserializeError, DeserializeErrorView};
use crate::id::{PatternID, StateID, ID_MAX};
use crate::integer::native_value;
use vstd::prelude::*;

verus! {

/// What reading a pattern identifier from the start of `bytes` gives, but
/// for the identifier itself: its value and the number of bytes read, or
/// the reason why not.
pub open spec fn spec_read_pattern_id(bytes: Seq<u8>, what: Seq<char>) -> Result<
    (u32, usize),
    DeserializeErrorView,
> {
    if bytes.len() < 4 {
        Err(DeserializeErrorView::BufferTooSmall { what })
    } else if native_value(bytes, 4) > ID_MAX {
        Err(DeserializeErrorView::PatternID { attempted: native_value(bytes, 4) as u64, what })
    } else {
        Ok((native_value(bytes, 4) as u32, 4))
    }
}

/// What reading a state identifier from the start of `bytes` gives, but for
/// the identifier itself: its value and the number of bytes read, or the
/// reason why not.
pub open spec fn spec_read_state_id(bytes: Seq<u8>, what: Seq<char>) -> Result<
    (u32, usize),
    DeserializeErrorView,
> {
    if bytes.len() < 4 {
        Err(DeserializeErrorView::BufferTooSmall { what })
    } else if native_value(bytes, 4) > ID_MAX {
        Err(DeserializeErrorView::StateID { attempted: native_value(bytes, 4) as u64, what })
    } else {
        Ok((native_value(bytes, 4) as u32, 4))
    }
}

/// The result of reading a pattern identifier, with the identifier
/// replaced by its value and the error by what it says.
pub open spec fn pattern_id_outcome(r: Result<(PatternID, usize), DeserializeError>) -> Result<
    (u32, usize),
    DeserializeErrorView,
> {
    match r {
        Ok((pid, nread)) => Ok((pid@, nread)),
        Err(e) => Err(e@),
    }
}

/// The result of reading a state identifier, with the identifier replaced
/// by its value and the error by what it says.
pub open spec fn state_id_outcome(r: Result<(StateID, usize), DeserializeError>) -> Result<
    (u32, usize),
    DeserializeErrorView,
> {
    match r {
        Ok((sid, nread)) => Ok((sid@, nread)),
        Err(e) => Err(e@),
    }
}

fn first_four(slice: &[u8]) -> (bytes: [u8; 4])
    requires
        slice@.len() >= 4,
    ensures
        bytes@ == slice@.take(4),
{
    let bytes: [u8; 4] = [slice[0], slice[1], slice[2], slice[3]];
    assert(bytes@ =~= slice@.take(4));
    bytes
}

/// Reads a pattern identifier from the start of the given slice, if the
/// slice has four bytes and their value is within the bound; `what` says
/// what the identifier is. Returns the identifier and how many bytes were
/// read.
pub fn try_read_pattern_id(slice: &[u8], what: &'static str) -> (r: Result<
    (PatternID, usize),
    DeserializeError,
>)
    ensures
        pattern_id_outcome(r) == spec_read_pattern_id(slice@, what@),
{
    if slice.len() < PatternID::SIZE {
        return Err(DeserializeError::buffer_too_small(what));
    }
    read_pattern_id(slice, what)
}

/// Reads a pattern identifier from the start of the given slice, which has
/// at least four bytes, if their value is within the bound; `what` says
/// what the identifier is. Returns the identifier and how many bytes were
/// read.
pub fn read_pattern_id(slice: &[u8], what: &'static str) -> (r: Result<
    (PatternID, usize),
    DeserializeError,
>)
    requires
        slice@.len() >= 4,
    ensures
        pattern_id_outcome(r) == spec_read_pattern_id(slice@, what@),
{
    match PatternID::from_ne_bytes(first_four(slice)) {
        Ok(pid) => Ok((pid, PatternID::SIZE)),
        Err(err) => Err(DeserializeError::pattern_id_error(err, what)),
    }
}

/// Reads a pattern identifier from the start of the given slice, which has
/// at least four bytes, without checking its value against the bound.
/// Returns the identifier and how many bytes were read.
pub fn read_pattern_id_unchecked(slice: &[u8]) -> (r: (PatternID, usize))
    requires
        slice@.len() >= 4,
    ensures
        r.0@ == native_value(slice@, 4),
        r.1 == 4,
{
    (PatternID::from_ne_bytes_unchecked(first_four(slice)), PatternID::SIZE)
}

/// Writes the given pattern identifier at the start of `dst`, which has at
/// least four bytes, in the byte order that `E` stands for. Returns the
/// number of bytes written.
pub fn write_pattern_id<E: Endian>(pid: PatternID, dst: &mut [u8]) -> (nwrite: usize)
    requires
        old(dst)@.len() >= 4,
    ensures
        nwrite == 4,
        final(dst)@ == overwrite(old(dst)@, bytes_of(E::order(), pid@ as nat, 4)),
{
    E::write_u32(pid.as_u32(), dst);
    PatternID::SIZE
}

/// Reads a state identifier from the start of the given slice, if the slice
/// has four bytes and their value is within the bound; `what` says what the
/// identifier is. Returns the identifier and how many bytes were read.
pub fn try_read_state_id(slice: &[u8], what: &'static str) -> (r: Result<
    (StateID, usize),
    DeserializeError,
>)
    ensures
        state_id_outcome(r) == spec_read_state_id(slice@, what@),
{
    if slice.len() < StateID::SIZE {
        return Err(DeserializeError::buffer_too_small(what));
    }
    read_state_id(slice, what)
}

/// Reads a state identifier from the start of the given slice, which has at
/// least four bytes, if their value is within the bound; `what` says what
/// the identifier is. Returns the identifier and how many bytes were read.
pub fn read_state_id(slice: &[u8], what: &'static str) -> (r: Result<
    (StateID, usize),
    DeserializeError,
>)
    requires
        slice@.len() >= 4,
    ensures
        state_id_outcome(r) == spec_read_state_id(slice@, what@),
{
    match StateID::from_ne_bytes(first_four(slice)) {
        Ok(sid) => Ok((sid, StateID::SIZE)),
        Err(err) => Err(DeserializeError::state_id_error(err, what)),
    }
}

/// Reads a state identifier from the start of the given slice, which has at
/// least four bytes, without checking its value against the bound. Returns
/// the identifier and how many bytes were read.
pub fn read_state_id_unchecked(slice: &[u8]) -> (r: (StateID, usize))
    requires
        slice@.len() >= 4,
    ensures
        r.0@ == native_value(slice@, 4),
        r.1 == 4,
{
    (StateID::from_ne_bytes_unchecked(first_four(slice)), StateID::SIZE)
}

/// Writes the given state identifier at the start of `dst`, which has at
/// least four bytes, in the byte order that `E` stands for. Returns the
/// number of bytes written.
pub fn write_state_id<E: Endian>(sid: StateID, dst: &mut [u8]) -> (nwrite: usize)
    requires
        old(dst)@.len() >= 4,
    ensures
        nwrite == 4,
        final(dst)@ == overwrite(old(dst)@, bytes_of(E::order(), sid@ as nat, 4)),
{
    E::write_u32(sid.as_u32(), dst);
    StateID::SIZE
}

} // verus!
