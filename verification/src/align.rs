//! Alignment of buffers, and the padding that restores it.
//!
//! Bytes can be taken for a sequence of wider items only where they start at
//! an address that is a multiple of the items' alignment. Where a buffer
//! starts is for the allocator to say, so what is decided here is decided
//! for every address: [`check_address`] and [`padding_for_address`] take
//! the address as a number.

use crate::error::{DeserializeError, DeserializeErrorView};
use vstd::arithmetic::power2::is_pow2;
use vstd::layout::align_of;
use vstd::prelude::*;

verus! {

/// Whether the error says that some address is no multiple of `alignment`,
/// and the address it names is indeed none.
pub open spec fn is_alignment_mismatch(error: DeserializeErrorView, alignment: nat) -> bool {
    match error {
        DeserializeErrorView::AlignmentMismatch { alignment: required, address } => required
            == alignment && address as nat % alignment != 0,
        _ => false,
    }
}

/// The number of bytes from `address` to the next multiple of eight behind
/// it, or zero where `address` is a multiple of `alignment` already.
pub open spec fn spec_padding_for_address(address: nat, alignment: nat) -> nat {
    if address % alignment == 0 {
        0
    } else {
        (8 - address % 8) as nat
    }
}

/// `<[u8]>::as_ptr`, and the pointer taken as a number: the address at
/// which the slice starts. Nothing is claimed of the address.
#[verifier::external_body]
fn address_of(slice: &[u8]) -> (address: usize) {
    slice.as_ptr() as usize
}

/// Checks that `address` is a multiple of `alignment`.
pub fn check_address(address: usize, alignment: usize) -> (r: Result<(), DeserializeError>)
    requires
        alignment > 0,
    ensures
        match r {
            Ok(_) => address % alignment == 0,
            Err(e) => address % alignment != 0 && e@ == (DeserializeErrorView::AlignmentMismatch {
                alignment,
                address,
            }),
        },
{
    if address % alignment == 0 {
        return Ok(());
    }
    Err(DeserializeError::alignment_mismatch(alignment, address))
}

/// Checks that the given slice starts at an address that is a multiple of
/// the alignment of `T`. That is needed before the bytes are taken for
/// items of type `T`; it is not enough.
///
/// Where a slice starts is no property of the bytes in it, so the contract
/// says what holds wherever it starts: a type of alignment 1 is always
/// accepted, and a refusal names the alignment of `T` and an address that is
/// no multiple of it. What is returned for each address is what
/// [`check_address`] returns for it.
pub fn check_alignment<T>(slice: &[u8]) -> (r: Result<(), DeserializeError>)
    ensures
        align_of::<T>() == 1 ==> r is Ok,
        match r {
            Ok(_) => true,
            Err(e) => is_alignment_mismatch(e@, align_of::<T>()),
        },
{
    broadcast use vstd::layout::align_nonzero;

    let alignment = core::mem::align_of::<T>();
    let address = address_of(slice);
    check_address(address, alignment)
}

/// Returns the number of NUL bytes at the start of the given slice, up to
/// seven of them.
pub fn skip_initial_padding(slice: &[u8]) -> (nread: usize)
    ensures
        nread <= 7,
        nread <= slice@.len(),
        forall|i: int| 0 <= i < nread ==> slice@[i] == 0,
        nread < 7 && nread < slice@.len() ==> slice@[nread as int] != 0,
{
    let mut nread: usize = 0;
    while nread < 7 && nread < slice.len() && slice[nread] == 0
        invariant
            nread <= 7,
            nread <= slice@.len(),
            forall|i: int| 0 <= i < nread ==> slice@[i] == 0,
        decreases 7 - nread,
    {
        nread = nread + 1;
    }
    nread
}

/// Returns the number of bytes to skip from `address` to reach a multiple
/// of `alignment`, which is 1, 2, 4 or 8: none where `address` is such a
/// multiple, else as many as lead to the next multiple of eight.
pub fn padding_for_address(address: usize, alignment: usize) -> (padding: usize)
    requires
        alignment == 1 || alignment == 2 || alignment == 4 || alignment == 8,
    ensures
        padding == spec_padding_for_address(address as nat, alignment as nat),
        padding <= 7,
        (address + padding) % (alignment as int) == 0,
{
    if address % alignment == 0 {
        return 0;
    }
    8 - address % 8
}

/// Allocates a buffer of `size` NUL bytes behind as many NUL bytes of
/// padding as make the rest start at a multiple of the alignment of `T`,
/// which is at most 8. Returns the buffer and the number of padding bytes.
///
/// The buffer is allocated with room for the most padding and then cut to
/// its length, so that the address from which the padding is computed is
/// the address at which the buffer stays.
pub fn alloc_aligned_buffer<T>(size: usize) -> (r: (Vec<u8>, usize))
    requires
        align_of::<T>() <= 8,
        size + 7 <= usize::MAX,
    ensures
        r.1 <= 7,
        r.0@.len() == size + r.1,
        forall|i: int| 0 <= i < r.0@.len() ==> r.0@[i] == 0,
        align_of::<T>() == 1 ==> r.1 == 0,
{
    broadcast use vstd::layout::align_properties;

    let mut buf: Vec<u8> = vec![0u8; size + 7];
    let align = core::mem::align_of::<T>();
    proof {
        reveal_with_fuel(is_pow2, 5);
    }
    let address = address_of(buf.as_slice());
    let padding = padding_for_address(address, align);
    buf.truncate(size + padding);
    (buf, padding)
}

} // verus!
