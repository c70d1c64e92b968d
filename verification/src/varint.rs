//! Integers of variable length.
//!
//! A number is written in groups of seven bits, the lowest group first. Each
//! byte holds one group in its low bits; its high bit says whether another
//! byte follows. A `u64` takes between one and ten bytes.

use crate::error::{outcome, DeserializeError, DeserializeErrorView, SerializeError};
use vstd::arithmetic::power2::{lemma2_to64, lemma2_to64_rest, lemma_pow2_adds, pow2};
use vstd::bits::{
    lemma_u64_mul_pow2_le_max_iff_max_shr,
    lemma_u64_pow2_no_overflow,
    lemma_u64_shl_is_mul,
};
use vstd::prelude::*;

verus! {

/// The bytes that `n` is written as.
pub open spec fn varint_bytes(n: nat) -> Seq<u8>
    decreases n,
{
    if n < 128 {
        seq![n as u8]
    } else {
        seq![(n % 128 + 128) as u8] + varint_bytes(n / 128)
    }
}

/// The number at the start of `bytes` and the count of the bytes that it
/// takes, where one of the first `limit` bytes ends a number.
pub open spec fn varint_decode(bytes: Seq<u8>, limit: nat) -> Option<(nat, nat)>
    decreases limit,
{
    if limit == 0 || bytes.len() == 0 {
        None
    } else if bytes[0] < 128 {
        Some((bytes[0] as nat, 1))
    } else {
        match varint_decode(bytes.skip(1), (limit - 1) as nat) {
            Some((high, count)) => Some(((bytes[0] - 128) as nat + 128 * high, count + 1)),
            None => None,
        }
    }
}

/// What reading a variable-length `u64` from the start of `bytes` gives:
/// the number and the count of its bytes, where one of the first ten bytes
/// ends a number and the number fits in 64 bits.
pub open spec fn spec_read_varu64(bytes: Seq<u8>, what: Seq<char>) -> Result<
    (u64, usize),
    DeserializeErrorView,
> {
    match varint_decode(bytes, 10) {
        Some((value, count)) => if value <= u64::MAX {
            Ok((value as u64, count as usize))
        } else {
            Err(DeserializeErrorView::InvalidVarint { what })
        },
        None => Err(DeserializeErrorView::InvalidVarint { what }),
    }
}

/// What reading a variable-length `usize` from the start of `bytes` gives.
pub open spec fn spec_read_varu64_as_usize(bytes: Seq<u8>, what: Seq<char>) -> Result<
    (usize, usize),
    DeserializeErrorView,
> {
    match spec_read_varu64(bytes, what) {
        Ok((value, count)) => if value <= usize::MAX {
            Ok((value as usize, count))
        } else {
            Err(DeserializeErrorView::InvalidUsize { what })
        },
        Err(e) => Err(e),
    }
}

/// A number below `128^k` is written as at most `k` bytes, and as at least
/// one.
pub proof fn lemma_varint_bytes_len(n: nat, k: nat)
    requires
        k >= 1,
        n < pow2(7 * k),
    ensures
        1 <= varint_bytes(n).len() <= k,
    decreases k,
{
    if n >= 128 {
        lemma2_to64();
        if k == 1 {
            assert(pow2(7) == 128);
        } else {
            lemma_pow2_adds(7, (7 * (k - 1)) as nat);
            assert(pow2(7 * k) == 128 * pow2((7 * (k - 1)) as nat));
            lemma_varint_bytes_len(n / 128, (k - 1) as nat);
        }
    }
}

/// A `u64` is written as between one and ten bytes.
pub proof fn lemma_varint_bytes_len_u64(n: u64)
    ensures
        1 <= varint_bytes(n as nat).len() <= 10,
{
    lemma2_to64();
    lemma2_to64_rest();
    lemma_pow2_adds(64, 6);
    assert(pow2(64) == 0x1_0000_0000_0000_0000);
    assert(pow2(6) == 64);
    lemma_varint_bytes_len(n as nat, 10);
}

/// Decoding what a number was written as, whatever follows it, gives the
/// number and the count of the bytes it was written as, provided that the
/// count is within the limit.
pub proof fn lemma_varint_decode_bytes(n: nat, rest: Seq<u8>, limit: nat)
    requires
        varint_bytes(n).len() <= limit,
    ensures
        varint_decode(varint_bytes(n) + rest, limit) == Some((n, varint_bytes(n).len())),
    decreases n,
{
    let encoded = varint_bytes(n);
    if n >= 128 {
        let tail = varint_bytes(n / 128);
        assert(encoded.len() == 1 + tail.len());
        assert((encoded + rest).skip(1) =~= tail + rest);
        lemma_varint_decode_bytes(n / 128, rest, (limit - 1) as nat);
        assert((encoded + rest)[0] == (n % 128 + 128) as u8);
    } else {
        assert((encoded + rest)[0] == n as u8);
    }
}

/// Reading back what a `u64` was written as, whatever follows it, gives the
/// number and the count of the bytes it was written as.
pub proof fn lemma_varint_round_trip(n: u64, rest: Seq<u8>, what: Seq<char>)
    ensures
        spec_read_varu64(varint_bytes(n as nat) + rest, what) == Ok::<
            (u64, usize),
            DeserializeErrorView,
        >((n, varint_bytes(n as nat).len() as usize)),
{
    lemma_varint_bytes_len_u64(n);
    lemma_varint_decode_bytes(n as nat, rest, 10);
}

/// Returns the number of bytes that `n` is written as.
pub fn write_varu64_len(n: u64) -> (len: usize)
    ensures
        len == varint_bytes(n as nat).len(),
        1 <= len <= 10,
{
    proof {
        lemma_varint_bytes_len_u64(n);
    }
    let mut rest: u64 = n;
    let mut i: usize = 0;
    while rest >= 128
        invariant
            varint_bytes(n as nat).len() == i + varint_bytes(rest as nat).len(),
            varint_bytes(n as nat).len() <= 10,
        decreases rest,
    {
        rest = rest / 128;
        i = i + 1;
    }
    i + 1
}

/// Writes `n` at the start of `dst` and returns the number of bytes
/// written; `what` says what the number is. Where `dst` is too small, it is
/// filled with the bytes that fit.
pub fn write_varu64(n: u64, what: &'static str, dst: &mut [u8]) -> (r: Result<
    usize,
    SerializeError,
>)
    ensures
        match r {
            Ok(nwrite) => nwrite == varint_bytes(n as nat).len() && final(dst)@ == varint_bytes(
                n as nat,
            ) + old(dst)@.skip(nwrite as int),
            Err(e) => old(dst)@.len() < varint_bytes(n as nat).len() && e.what() == what@
                && final(dst)@ == varint_bytes(n as nat).take(old(dst)@.len() as int),
        },
{
    let ghost encoded = varint_bytes(n as nat);
    let mut rest: u64 = n;
    let mut i: usize = 0;
    while rest >= 128
        invariant
            i <= dst@.len(),
            dst@.len() == old(dst)@.len(),
            encoded == varint_bytes(n as nat),
            encoded == dst@.take(i as int) + varint_bytes(rest as nat),
            dst@.skip(i as int) == old(dst)@.skip(i as int),
        decreases rest,
    {
        if i >= dst.len() {
            assert(dst@ =~= encoded.take(dst@.len() as int));
            return Err(SerializeError::buffer_too_small(what));
        }
        let ghost before = dst@;
        let byte: u8 = (rest % 128 + 128) as u8;
        dst[i] = byte;
        proof {
            let tail = varint_bytes((rest / 128) as nat);
            assert(dst@.take(i + 1) =~= before.take(i as int).push(byte));
            assert(before.take(i as int) + (seq![byte] + tail) =~= before.take(i as int).push(byte)
                + tail);
            assert(dst@.skip(i + 1) =~= before.skip(i as int).skip(1));
            assert(old(dst)@.skip(i + 1) =~= old(dst)@.skip(i as int).skip(1));
        }
        rest = rest / 128;
        i = i + 1;
    }
    if i >= dst.len() {
        assert(dst@ =~= encoded.take(dst@.len() as int));
        return Err(SerializeError::buffer_too_small(what));
    }
    let ghost before = dst@;
    dst[i] = rest as u8;
    proof {
        assert(dst@.take(i + 1) =~= before.take(i as int).push(rest as u8));
        assert(before.take(i as int) + seq![rest as u8] =~= before.take(i as int).push(rest as u8));
        assert(dst@.skip(i + 1) =~= before.skip(i as int).skip(1));
        assert(old(dst)@.skip(i + 1) =~= old(dst)@.skip(i as int).skip(1));
        assert(dst@ =~= dst@.take(i + 1) + dst@.skip(i + 1));
    }
    Ok(i + 1)
}

/// What the bytes from index `i` on add to a number whose first `i` bytes
/// made `low`: the groups that follow count from `scale` upwards.
spec fn resume(low: nat, scale: nat, i: nat, rest: Option<(nat, nat)>) -> Option<(nat, nat)> {
    match rest {
        Some((high, count)) => Some((low + scale * high, count + i)),
        None => None,
    }
}

proof fn lemma_resume_step(low: nat, scale: nat, i: nat, group: nat, rest: Option<(nat, nat)>)
    ensures
        resume(
            low,
            scale,
            i,
            match rest {
                Some((high, count)) => Some((group + 128 * high, count + 1)),
                None => None,
            },
        ) == resume(low + group * scale, 128 * scale, i + 1, rest),
{
    match rest {
        Some((high, count)) => {
            assert(low + scale * (group + 128 * high) == (low + group * scale) + (128 * scale)
                * high) by (nonlinear_arith);
        },
        None => {},
    }
}

/// Reads a variable-length `u64` from the start of the given slice; `what`
/// says what the number is. Returns the number and how many bytes were read.
pub fn read_varu64(slice: &[u8], what: &'static str) -> (r: Result<(u64, usize), DeserializeError>)
    ensures
        outcome(r) == spec_read_varu64(slice@, what@),
{
    let limit: usize = if slice.len() < 10 {
        slice.len()
    } else {
        10
    };
    let mut n: u64 = 0;
    let mut shift: u64 = 0;
    let mut i: usize = 0;
    proof {
        lemma2_to64();
        assert(slice@.skip(0) =~= slice@);
    }
    while i < limit
        invariant
            i <= limit <= 10,
            limit <= slice@.len(),
            limit == 10 || limit == slice@.len(),
            shift == 7 * i,
            n < pow2(shift as nat),
            varint_decode(slice@, 10) == resume(
                n as nat,
                pow2(shift as nat),
                i as nat,
                varint_decode(slice@.skip(i as int), (10 - i) as nat),
            ),
        decreases limit - i,
    {
        let b: u8 = slice[i];
        let ghost scale = pow2(shift as nat);
        let ghost after = varint_decode(slice@.skip(i + 1), (10 - i - 1) as nat);
        let group: u64 = if b < 128 {
            b as u64
        } else {
            (b - 128) as u64
        };
        proof {
            assert(slice@.skip(i as int)[0] == b);
            assert(slice@.skip(i as int).skip(1) =~= slice@.skip(i + 1));
            lemma2_to64();
            lemma_u64_pow2_no_overflow(shift as nat);
            lemma_u64_mul_pow2_le_max_iff_max_shr(group, shift, u64::MAX);
            lemma_u64_shl_is_mul(1, shift);
            lemma_pow2_adds(7, shift as nat);
            assert(pow2((shift + 7) as nat) == 128 * scale);
            assert(scale * group == group * scale) by (nonlinear_arith);
            if b >= 128 {
                lemma_resume_step(n as nat, scale, i as nat, group as nat, after);
            } else {
                assert(varint_decode(slice@.skip(i as int), (10 - i) as nat) == Some(
                    (group as nat, 1nat),
                ));
                assert(varint_decode(slice@, 10) == Some(
                    ((n + scale * group) as nat, (1 + i) as nat),
                ));
            }
        }
        if group > (u64::MAX >> shift) {
            proof {
                if b >= 128 {
                    match after {
                        Some((high, count)) => {
                            assert((n + group * scale) + (128 * scale) * high >= group * scale)
                                by (nonlinear_arith);
                        },
                        None => {},
                    }
                }
            }
            return Err(DeserializeError::invalid_varint(what));
        }
        let part: u64 = group << shift;
        proof {
            lemma_u64_shl_is_mul(group, shift);
            assert(n | part == n + part) by (bit_vector)
                requires
                    shift < 64,
                    n < (1u64 << shift),
                    part == group << shift,
            ;
        }
        if b < 128 {
            return Ok((n | part, i + 1));
        }
        n = n | part;
        proof {
            assert(n < 128 * scale) by (nonlinear_arith)
                requires
                    n == (n - group * scale) + group * scale,
                    n - group * scale < scale,
                    group <= 127,
                    scale > 0,
            ;
        }
        shift = shift + 7;
        i = i + 1;
    }
    Err(DeserializeError::invalid_varint(what))
}

/// Reads a variable-length `u64` as a `usize` from the start of the given
/// slice; `what` says what the number is. Returns the number and how many
/// bytes were read.
pub fn read_varu64_as_usize(slice: &[u8], what: &'static str) -> (r: Result<
    (usize, usize),
    DeserializeError,
>)
    ensures
        outcome(r) == spec_read_varu64_as_usize(slice@, what@),
{
    match read_varu64(slice, what) {
        Ok((n, nread)) => match usize::try_from(n) {
            Ok(n) => Ok((n, nread)),
            Err(_) => Err(DeserializeError::invalid_usize(what)),
        },
        Err(e) => Err(e),
    }
}

} // verus!
