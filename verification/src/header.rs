//! The pieces that every serialized object starts with.
//!
//! An object starts with a label that says what kind of object it is, a
//! marker that tells the byte order it was written in, and the version of
//! its format. The label is text that ends with a NUL byte and is followed
//! by as many more NUL bytes as bring its length to a multiple of four, so
//! that what comes after it stays aligned.

use crate::endian::{
    be_bytes,
    be_value,
    bytes_of,
    le_bytes,
    lemma_bytes_of_len,
    le_value,
    native_order,
    overwrite,
    ByteOrder,
    Endian,
};
use crate::error::{outcome, DeserializeError, DeserializeErrorView, SerializeError};
use crate::integer::{lemma_read_what_was_written, native_value, try_read_u32};
use vstd::arithmetic::power::pow;
use vstd::prelude::*;
use vstd::string::StringSliceAdditionalSpecFns;

verus! {

/// The number that, written as 32 bits, marks the byte order of an object.
/// Read in the other byte order it is another number.
pub const ENDIANNESS_MARKER: u32 = 0xFEFF;

/// The number of bytes to add to a length of `n` bytes to reach the next
/// multiple of four: `(4 - n mod 4) mod 4`.
pub open spec fn spec_padding_len(n: nat) -> nat {
    ((4 - n % 4) % 4) as nat
}

/// Whether the bytes can be the text of a label: there are at most 255 of
/// them and none is NUL.
pub open spec fn valid_label(label: Seq<u8>) -> bool {
    label.len() <= 255 && forall|i: int| 0 <= i < label.len() ==> label[i] != 0
}

/// The number of bytes that a label with a text of `n` bytes is written as:
/// the text and its NUL byte, rounded up to a multiple of four.
pub open spec fn label_len(n: nat) -> nat {
    n + 1 + spec_padding_len(n + 1)
}

/// The bytes that a label with the given text is written as: the text, then
/// NUL bytes up to the label's length.
pub open spec fn label_bytes(label: Seq<u8>) -> Seq<u8> {
    label + Seq::new((label_len(label.len()) - label.len()) as nat, |i: int| 0u8)
}

/// The part of `bytes` in which the end of a label is looked for: the first
/// 256 bytes.
pub open spec fn label_scan(bytes: Seq<u8>) -> Seq<u8> {
    if bytes.len() <= 256 {
        bytes
    } else {
        bytes.take(256)
    }
}

/// What reading the label `expected` from the start of `bytes` gives: the
/// number of bytes that the label takes, or the reason why not.
pub open spec fn spec_read_label(bytes: Seq<u8>, expected: &str) -> Result<
    usize,
    DeserializeErrorView,
> {
    match label_scan(bytes).index_of_first(0u8) {
        None => Err(
            DeserializeErrorView::Generic {
                msg: "could not find NUL terminated label at start of serialized object"@,
            },
        ),
        Some(nul) => if bytes.len() < label_len(nul as nat) {
            Err(
                DeserializeErrorView::Generic {
                    msg: "could not find properly sized label at start of serialized object"@,
                },
            )
        } else if expected.spec_bytes() != bytes.take(nul) {
            Err(DeserializeErrorView::LabelMismatch { expected: expected@ })
        } else {
            Ok(label_len(nul as nat) as usize)
        },
    }
}

/// What reading the byte order marker from the start of `bytes` gives.
pub open spec fn spec_read_endianness_check(bytes: Seq<u8>) -> Result<
    usize,
    DeserializeErrorView,
> {
    if bytes.len() < 4 {
        Err(DeserializeErrorView::BufferTooSmall { what: "endianness check"@ })
    } else if native_value(bytes, 4) != ENDIANNESS_MARKER {
        Err(
            DeserializeErrorView::EndianMismatch {
                expected: ENDIANNESS_MARKER,
                found: native_value(bytes, 4) as u32,
            },
        )
    } else {
        Ok(4)
    }
}

/// What reading the version `expected` from the start of `bytes` gives.
pub open spec fn spec_read_version(bytes: Seq<u8>, expected: u32) -> Result<
    usize,
    DeserializeErrorView,
> {
    if bytes.len() < 4 {
        Err(DeserializeErrorView::BufferTooSmall { what: "version"@ })
    } else if native_value(bytes, 4) != expected {
        Err(
            DeserializeErrorView::VersionMismatch {
                expected,
                found: native_value(bytes, 4) as u32,
            },
        )
    } else {
        Ok(4)
    }
}

/// A label that was written is read back, whatever follows it, and reading
/// it takes the bytes that writing it gave.
pub proof fn lemma_label_round_trip(label: &str, rest: Seq<u8>)
    requires
        valid_label(label.spec_bytes()),
    ensures
        spec_read_label(label_bytes(label.spec_bytes()) + rest, label) == Ok::<
            usize,
            DeserializeErrorView,
        >(label_len(label.spec_bytes().len()) as usize),
        label_len(label.spec_bytes().len()) <= usize::MAX,
{
    let text = label.spec_bytes();
    let bytes = label_bytes(text) + rest;
    let scan = label_scan(bytes);
    let end = text.len() as int;
    assert(scan[end] == 0);
    assert(forall|j: int| 0 <= j < end ==> scan[j] == text[j]);
    scan.index_of_first_ensures(0u8);
    assert(scan.contains(0u8));
    assert(scan.index_of_first(0u8) == Some(end));
    assert(bytes.take(end) =~= text);
}

/// The byte order marker tells the orders apart: written in the byte order
/// of the machine it is read as itself, and written in the other order it
/// is read as another number and refused, whatever follows it.
pub proof fn lemma_endianness_check(order: ByteOrder, rest: Seq<u8>)
    ensures
        spec_read_endianness_check(bytes_of(order, ENDIANNESS_MARKER as nat, 4) + rest) == if order
            == native_order() {
            Ok::<usize, DeserializeErrorView>(4)
        } else {
            Err::<usize, DeserializeErrorView>(
                DeserializeErrorView::EndianMismatch {
                    expected: ENDIANNESS_MARKER,
                    found: 0xFFFE_0000,
                },
            )
        },
{
    reveal_with_fuel(le_bytes, 5);
    reveal_with_fuel(be_bytes, 5);
    reveal_with_fuel(le_value, 5);
    reveal_with_fuel(be_value, 5);
    let little = seq![0xFFu8, 0xFE, 0, 0];
    let big = seq![0u8, 0, 0xFE, 0xFF];
    assert(le_bytes(0xFEFF, 4) =~= little);
    assert(be_bytes(0xFEFF, 4) =~= big);
    assert((little + rest).take(4) =~= little);
    assert((big + rest).take(4) =~= big);
    assert(le_value(little) == 0xFEFF);
    assert(be_value(big) == 0xFEFF);
    assert(le_value(big) == 0xFFFE_0000);
    assert(be_value(little) == 0xFFFE_0000);
}

/// A version number that was written in the byte order of the machine is
/// read as itself, whatever follows it: reading succeeds where it is the
/// version asked for, and reports both versions where it is not.
pub proof fn lemma_version_round_trip(version: u32, expected: u32, rest: Seq<u8>)
    ensures
        spec_read_version(bytes_of(native_order(), version as nat, 4) + rest, expected)
            == if version == expected {
            Ok::<usize, DeserializeErrorView>(4)
        } else {
            Err::<usize, DeserializeErrorView>(
                DeserializeErrorView::VersionMismatch { expected, found: version },
            )
        },
{
    assert(pow(256, 4) == 0x1_0000_0000) by {
        reveal_with_fuel(pow, 5);
    }
    lemma_read_what_was_written(version as nat, 4, rest);
    lemma_bytes_of_len(native_order(), version as nat, 4);
}

/// Returns the number of additional bytes required to make the given length
/// a multiple of 4.
pub fn padding_len(non_padding_len: usize) -> (padding: usize)
    ensures
        padding == spec_padding_len(non_padding_len as nat),
        padding <= 3,
        (non_padding_len + padding) % 4 == 0,
{
    (4 - (non_padding_len % 4)) % 4
}

/// Tells whether the text can be the text of a label.
pub fn is_valid_label(label: &str) -> (valid: bool)
    ensures
        valid == valid_label(label.spec_bytes()),
{
    let bytes = label.as_bytes();
    if bytes.len() > 255 {
        return false;
    }
    let mut i: usize = 0;
    while i < bytes.len()
        invariant
            i <= bytes@.len() <= 255,
            bytes@ == label.spec_bytes(),
            forall|j: int| 0 <= j < i ==> bytes@[j] != 0,
        decreases bytes@.len() - i,
    {
        if bytes[i] == 0 {
            assert(bytes@[i as int] == 0);
            return false;
        }
        i = i + 1;
    }
    true
}

/// Returns the total number of bytes, padding included, that the given
/// label is written as.
pub fn write_label_len(label: &str) -> (len: usize)
    requires
        valid_label(label.spec_bytes()),
    ensures
        len == label_len(label.spec_bytes().len()),
        len % 4 == 0,
{
    let label_len = label.len() + 1;
    label_len + padding_len(label_len)
}

/// Writes the given label at the start of `dst`: its text, a NUL byte, and
/// NUL bytes up to a multiple of four. Returns the number of bytes written.
/// A destination that is too small is left as it was.
pub fn write_label(label: &str, dst: &mut [u8]) -> (r: Result<usize, SerializeError>)
    requires
        valid_label(label.spec_bytes()),
    ensures
        match r {
            Ok(nwrite) => nwrite == label_len(label.spec_bytes().len()) && final(dst)@
                == overwrite(old(dst)@, label_bytes(label.spec_bytes())),
            Err(e) => old(dst)@.len() < label_len(label.spec_bytes().len()) && e.what()
                == "label"@ && final(dst)@ == old(dst)@,
        },
{
    let nwrite = write_label_len(label);
    if dst.len() < nwrite {
        return Err(SerializeError::buffer_too_small("label"));
    }
    let text = label.as_bytes();
    let ghost target = label_bytes(text@);
    let mut i: usize = 0;
    while i < nwrite
        invariant
            i <= nwrite <= dst@.len(),
            nwrite == target.len(),
            text@.len() < nwrite,
            target == label_bytes(text@),
            dst@.len() == old(dst)@.len(),
            dst@.take(i as int) == target.take(i as int),
            dst@.skip(i as int) == old(dst)@.skip(i as int),
        decreases nwrite - i,
    {
        let ghost before = dst@;
        let byte: u8 = if i < text.len() {
            text[i]
        } else {
            0
        };
        dst[i] = byte;
        proof {
            assert(target[i as int] == byte);
            assert(dst@.take(i + 1) =~= before.take(i as int).push(byte));
            assert(target.take(i + 1) =~= target.take(i as int).push(byte));
            assert(dst@.skip(i + 1) =~= before.skip(i as int).skip(1));
            assert(old(dst)@.skip(i + 1) =~= old(dst)@.skip(i as int).skip(1));
        }
        i = i + 1;
    }
    proof {
        assert(target.take(nwrite as int) =~= target);
        assert(dst@ =~= dst@.take(nwrite as int) + dst@.skip(nwrite as int));
    }
    Ok(nwrite)
}

/// Reads the label `expected_label` from the start of the given slice: its
/// text, the NUL byte that ends it within the first 256 bytes, and the
/// padding. Returns the number of bytes read.
pub fn read_label(slice: &[u8], expected_label: &'static str) -> (r: Result<
    usize,
    DeserializeError,
>)
    ensures
        outcome(r) == spec_read_label(slice@, expected_label),
{
    let limit: usize = if slice.len() < 256 {
        slice.len()
    } else {
        256
    };
    let ghost scan = label_scan(slice@);
    let mut nul: usize = 0;
    while nul < limit && slice[nul] != 0
        invariant
            nul <= limit,
            limit == scan.len(),
            limit <= slice@.len(),
            scan == label_scan(slice@),
            forall|j: int| 0 <= j < nul ==> scan[j] != 0,
        decreases limit - nul,
    {
        nul = nul + 1;
    }
    proof {
        scan.index_of_first_ensures(0u8);
        if nul < limit {
            assert(scan[nul as int] == 0);
            assert(scan.contains(0u8));
        }
    }
    if nul == limit {
        return Err(
            DeserializeError::generic(
                "could not find NUL terminated label at start of serialized object",
            ),
        );
    }
    assert(scan.index_of_first(0u8) == Some(nul as int));
    let len = nul + 1 + padding_len(nul + 1);
    if slice.len() < len {
        return Err(
            DeserializeError::generic(
                "could not find properly sized label at start of serialized object",
            ),
        );
    }
    let expected = expected_label.as_bytes();
    if expected.len() != nul {
        assert(expected@.len() != slice@.take(nul as int).len());
        return Err(DeserializeError::label_mismatch(expected_label));
    }
    let mut i: usize = 0;
    while i < nul
        invariant
            i <= nul <= slice@.len(),
            expected@ == expected_label.spec_bytes(),
            expected@.len() == nul,
            label_scan(slice@).index_of_first(0u8) == Some(nul as int),
            slice@.len() >= label_len(nul as nat),
            forall|j: int| 0 <= j < i ==> expected@[j] == slice@[j],
        decreases nul - i,
    {
        if expected[i] != slice[i] {
            assert(expected@[i as int] != slice@.take(nul as int)[i as int]);
            return Err(DeserializeError::label_mismatch(expected_label));
        }
        i = i + 1;
    }
    assert(expected@ =~= slice@.take(nul as int));
    Ok(len)
}

/// Returns the number of bytes that the byte order marker is written as.
pub fn write_endianness_check_len() -> (len: usize)
    ensures
        len == 4,
{
    4
}

/// Writes the byte order marker at the start of `dst` in the byte order
/// that `E` stands for. Returns the number of bytes written. A destination
/// that is too small is left as it was.
pub fn write_endianness_check<E: Endian>(dst: &mut [u8]) -> (r: Result<usize, SerializeError>)
    ensures
        match r {
            Ok(nwrite) => nwrite == 4 && old(dst)@.len() >= 4 && final(dst)@ == overwrite(
                old(dst)@,
                bytes_of(E::order(), ENDIANNESS_MARKER as nat, 4),
            ),
            Err(e) => old(dst)@.len() < 4 && e.what() == "endianness check"@ && final(dst)@
                == old(dst)@,
        },
{
    let nwrite = write_endianness_check_len();
    if dst.len() < nwrite {
        return Err(SerializeError::buffer_too_small("endianness check"));
    }
    E::write_u32(ENDIANNESS_MARKER, dst);
    Ok(nwrite)
}

/// Reads the byte order marker from the start of the given slice and
/// confirms that the object was written in the byte order of the machine.
/// Returns the number of bytes read.
pub fn read_endianness_check(slice: &[u8]) -> (r: Result<usize, DeserializeError>)
    ensures
        outcome(r) == spec_read_endianness_check(slice@),
{
    let (n, nread) = match try_read_u32(slice, "endianness check") {
        Ok(read) => read,
        Err(e) => return Err(e),
    };
    if n != ENDIANNESS_MARKER {
        return Err(DeserializeError::endian_mismatch(ENDIANNESS_MARKER, n));
    }
    Ok(nread)
}

/// Returns the number of bytes that a version number is written as.
pub fn write_version_len() -> (len: usize)
    ensures
        len == 4,
{
    4
}

/// Writes the given version number at the start of `dst` in the byte order
/// that `E` stands for. Returns the number of bytes written. A destination
/// that is too small is left as it was.
pub fn write_version<E: Endian>(version: u32, dst: &mut [u8]) -> (r: Result<usize, SerializeError>)
    ensures
        match r {
            Ok(nwrite) => nwrite == 4 && old(dst)@.len() >= 4 && final(dst)@ == overwrite(
                old(dst)@,
                bytes_of(E::order(), version as nat, 4),
            ),
            Err(e) => old(dst)@.len() < 4 && e.what() == "version number"@ && final(dst)@ == old(
                dst,
            )@,
        },
{
    let nwrite = write_version_len();
    if dst.len() < nwrite {
        return Err(SerializeError::buffer_too_small("version number"));
    }
    E::write_u32(version, dst);
    Ok(nwrite)
}

/// Reads a version number from the start of the given slice and confirms
/// that it is `expected_version`. Returns the number of bytes read.
pub fn read_version(slice: &[u8], expected_version: u32) -> (r: Result<usize, DeserializeError>)
    ensures
        outcome(r) == spec_read_version(slice@, expected_version),
{
    let (n, nread) = match try_read_u32(slice, "version") {
        Ok(read) => read,
        Err(e) => return Err(e),
    };
    if n != expected_version {
        return Err(DeserializeError::version_mismatch(expected_version, n));
    }
    Ok(nread)
}

} // verus!
