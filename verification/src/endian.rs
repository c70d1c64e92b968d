//! Byte orders, and the bytes of fixed-width integers in each of them.
//!
//! Integers are written in an order that the caller selects by a type
//! ([`LE`], [`BE`] or [`NE`]) and are always read in the order of the machine
//! that runs the code. What a sequence of bytes means as a number, and which
//! bytes a number is written as, is stated once, for any width, by
//! [`value_of`] and [`bytes_of`].

use vstd::prelude::*;
use vstd::arithmetic::power::pow;

verus! {

/// The order in which the bytes of an integer follow each other.
#[derive(Clone, Copy, Debug, PartialEq, Eq, Structural)]
pub enum ByteOrder {
    /// Least significant byte first.
    Little,
    /// Most significant byte first.
    Big,
}

/// The byte order of the machine that runs the code.
pub open spec fn native_order() -> ByteOrder {
    match vstd::endian::endianness() {
        vstd::endian::Endian::Little => ByteOrder::Little,
        vstd::endian::Endian::Big => ByteOrder::Big,
    }
}

/// The number that `bytes` spell in base 256, least significant byte first.
pub open spec fn le_value(bytes: Seq<u8>) -> nat
    decreases bytes.len(),
{
    if bytes.len() == 0 {
        0
    } else {
        bytes[0] as nat + 256 * le_value(bytes.skip(1))
    }
}

/// The number that `bytes` spell in base 256, most significant byte first.
pub open spec fn be_value(bytes: Seq<u8>) -> nat
    decreases bytes.len(),
{
    if bytes.len() == 0 {
        0
    } else {
        256 * be_value(bytes.drop_last()) + bytes.last() as nat
    }
}

/// The number that `bytes` spell in the given order.
pub open spec fn value_of(order: ByteOrder, bytes: Seq<u8>) -> nat {
    match order {
        ByteOrder::Little => le_value(bytes),
        ByteOrder::Big => be_value(bytes),
    }
}

/// The `width` low base-256 digits of `n`, least significant first.
pub open spec fn le_bytes(n: nat, width: nat) -> Seq<u8>
    decreases width,
{
    if width == 0 {
        Seq::empty()
    } else {
        seq![(n % 256) as u8] + le_bytes(n / 256, (width - 1) as nat)
    }
}

/// The `width` low base-256 digits of `n`, most significant first.
pub open spec fn be_bytes(n: nat, width: nat) -> Seq<u8>
    decreases width,
{
    if width == 0 {
        Seq::empty()
    } else {
        be_bytes(n / 256, (width - 1) as nat).push((n % 256) as u8)
    }
}

/// The `width` bytes that `n` is written as in the given order.
pub open spec fn bytes_of(order: ByteOrder, n: nat, width: nat) -> Seq<u8> {
    match order {
        ByteOrder::Little => le_bytes(n, width),
        ByteOrder::Big => be_bytes(n, width),
    }
}

/// What a buffer that held `dst` holds once `src` has been written at its
/// start: `src`, then the bytes of `dst` that `src` did not reach.
pub open spec fn overwrite(dst: Seq<u8>, src: Seq<u8>) -> Seq<u8> {
    src + dst.skip(src.len() as int)
}

/// A number is written as exactly `width` bytes.
pub proof fn lemma_bytes_of_len(order: ByteOrder, n: nat, width: nat)
    ensures
        bytes_of(order, n, width).len() == width,
    decreases width,
{
    if width > 0 {
        lemma_bytes_of_len(order, n / 256, (width - 1) as nat);
    }
}

/// Reading back, in the same order, the `width` bytes that a number below
/// `256^width` was written as gives the number.
pub proof fn lemma_value_of_bytes_of(order: ByteOrder, n: nat, width: nat)
    requires
        n < pow(256, width),
    ensures
        value_of(order, bytes_of(order, n, width)) == n,
    decreases width,
{
    reveal(pow);
    if width > 0 {
        let rest = (width - 1) as nat;
        assert(pow(256, width) == 256 * pow(256, rest));
        lemma_value_of_bytes_of(order, n / 256, rest);
        match order {
            ByteOrder::Little => {
                let tail = le_bytes(n / 256, rest);
                assert(le_bytes(n, width).skip(1) =~= tail);
            },
            ByteOrder::Big => {
                let head = be_bytes(n / 256, rest);
                assert(be_bytes(n, width).drop_last() =~= head);
            },
        }
    }
}

/// Writing the number that bytes spell, in the same order and at the same
/// width, gives the bytes back.
pub proof fn lemma_bytes_of_value_of(order: ByteOrder, bytes: Seq<u8>)
    ensures
        bytes_of(order, value_of(order, bytes), bytes.len()) == bytes,
    decreases bytes.len(),
{
    if bytes.len() > 0 {
        match order {
            ByteOrder::Little => {
                lemma_bytes_of_value_of(order, bytes.skip(1));
                assert(seq![bytes[0]] + bytes.skip(1) =~= bytes);
            },
            ByteOrder::Big => {
                lemma_bytes_of_value_of(order, bytes.drop_last());
                assert(bytes.drop_last().push(bytes.last()) =~= bytes);
            },
        }
    } else {
        assert(bytes =~= Seq::<u8>::empty());
    }
}

/// `u16::from_ne_bytes`: the number that two bytes spell in the byte order
/// of the machine. That std reads the first byte as the low one on a
/// little-endian machine and as the high one on a big-endian machine is
/// taken from its documentation, not proved.
#[verifier::external_body]
pub(crate) fn u16_from_ne_bytes(bytes: [u8; 2]) -> (n: u16)
    ensures
        n as nat == value_of(native_order(), bytes@),
{
    u16::from_ne_bytes(bytes)
}

/// `u32::from_ne_bytes`: the number that four bytes spell in the byte order
/// of the machine, as std's documentation describes it; not proved.
#[verifier::external_body]
pub(crate) fn u32_from_ne_bytes(bytes: [u8; 4]) -> (n: u32)
    ensures
        n as nat == value_of(native_order(), bytes@),
{
    u32::from_ne_bytes(bytes)
}

/// `u64::from_ne_bytes`: the number that eight bytes spell in the byte order
/// of the machine, as std's documentation describes it; not proved.
#[verifier::external_body]
pub(crate) fn u64_from_ne_bytes(bytes: [u8; 8]) -> (n: u64)
    ensures
        n as nat == value_of(native_order(), bytes@),
{
    u64::from_ne_bytes(bytes)
}

/// Returns the byte order of the machine that runs the code.
pub fn native_byte_order() -> (order: ByteOrder)
    ensures
        order == native_order(),
{
    let probe: [u8; 2] = [1, 0];
    let n = u16_from_ne_bytes(probe);
    proof {
        reveal_with_fuel(le_value, 3);
        reveal_with_fuel(be_value, 3);
        assert(probe@.skip(1) =~= seq![0u8]);
        assert(probe@.drop_last() =~= seq![1u8]);
    }
    if n == 1 {
        ByteOrder::Little
    } else {
        ByteOrder::Big
    }
}

/// Writes the `width` low bytes of `n` at the start of `dst`, least
/// significant byte first.
fn write_le(n: u64, width: usize, dst: &mut [u8])
    requires
        width <= old(dst)@.len(),
    ensures
        final(dst)@ == overwrite(old(dst)@, le_bytes(n as nat, width as nat)),
{
    let mut rest: u64 = n;
    let mut i: usize = 0;
    while i < width
        invariant
            i <= width <= dst@.len(),
            dst@.len() == old(dst)@.len(),
            dst@.skip(i as int) == old(dst)@.skip(i as int),
            le_bytes(n as nat, width as nat) == dst@.take(i as int) + le_bytes(
                rest as nat,
                (width - i) as nat,
            ),
        decreases width - i,
    {
        let ghost before = dst@;
        dst[i] = (rest % 256) as u8;
        proof {
            let digit = (rest % 256) as u8;
            let tail = le_bytes((rest / 256) as nat, (width - i - 1) as nat);
            assert(dst@.take(i + 1) =~= before.take(i as int).push(digit));
            assert(before.take(i as int) + (seq![digit] + tail) =~= before.take(i as int).push(
                digit,
            ) + tail);
            assert(dst@.skip(i + 1) =~= before.skip(i as int).skip(1));
            assert(old(dst)@.skip(i + 1) =~= old(dst)@.skip(i as int).skip(1));
        }
        rest = rest / 256;
        i = i + 1;
    }
    proof {
        lemma_bytes_of_len(ByteOrder::Little, n as nat, width as nat);
        assert(le_bytes(rest as nat, 0) =~= Seq::<u8>::empty());
        assert(dst@ =~= overwrite(old(dst)@, le_bytes(n as nat, width as nat)));
    }
}

/// Writes the `width` low bytes of `n` at the start of `dst`, most
/// significant byte first.
fn write_be(n: u64, width: usize, dst: &mut [u8])
    requires
        width <= old(dst)@.len(),
    ensures
        final(dst)@ == overwrite(old(dst)@, be_bytes(n as nat, width as nat)),
{
    let mut rest: u64 = n;
    let mut i: usize = width;
    while i > 0
        invariant
            i <= width <= dst@.len(),
            dst@.len() == old(dst)@.len(),
            dst@.take(i as int) == old(dst)@.take(i as int),
            dst@.skip(width as int) == old(dst)@.skip(width as int),
            be_bytes(n as nat, width as nat) == be_bytes(rest as nat, i as nat) + dst@.subrange(
                i as int,
                width as int,
            ),
        decreases i,
    {
        let ghost before = dst@;
        i = i - 1;
        dst[i] = (rest % 256) as u8;
        proof {
            let digit = (rest % 256) as u8;
            let head = be_bytes((rest / 256) as nat, i as nat);
            assert(dst@.subrange(i as int, width as int) =~= seq![digit] + before.subrange(
                i + 1,
                width as int,
            ));
            assert(head.push(digit) + before.subrange(i + 1, width as int) =~= head + (seq![digit]
                + before.subrange(i + 1, width as int)));
            assert(dst@.take(i as int) =~= before.take(i + 1).take(i as int));
            assert(old(dst)@.take(i as int) =~= old(dst)@.take(i + 1).take(i as int));
            assert(dst@.skip(width as int) =~= before.skip(width as int));
        }
        rest = rest / 256;
    }
    proof {
        lemma_bytes_of_len(ByteOrder::Big, n as nat, width as nat);
        assert(be_bytes(rest as nat, 0) =~= Seq::<u8>::empty());
        assert(dst@ =~= overwrite(old(dst)@, be_bytes(n as nat, width as nat)));
    }
}

/// Writes the `width` low bytes of `n` at the start of `dst` in the given
/// order.
fn write_in(order: ByteOrder, n: u64, width: usize, dst: &mut [u8])
    requires
        width <= old(dst)@.len(),
    ensures
        final(dst)@ == overwrite(old(dst)@, bytes_of(order, n as nat, width as nat)),
{
    match order {
        ByteOrder::Little => write_le(n, width, dst),
        ByteOrder::Big => write_be(n, width, dst),
    }
}

/// Writing integers in one byte order.
///
/// Each method overwrites the first bytes of the destination with the bytes
/// of the integer and leaves the rest of it alone. The destination must be
/// at least as long as the integer is wide.
pub trait Endian {
    /// The byte order that this type writes in.
    spec fn order() -> ByteOrder;

    /// Writes a `u16` at the start of the destination.
    fn write_u16(n: u16, dst: &mut [u8])
        requires
            old(dst)@.len() >= 2,
        ensures
            final(dst)@ == overwrite(old(dst)@, bytes_of(Self::order(), n as nat, 2)),
    ;

    /// Writes a `u32` at the start of the destination.
    fn write_u32(n: u32, dst: &mut [u8])
        requires
            old(dst)@.len() >= 4,
        ensures
            final(dst)@ == overwrite(old(dst)@, bytes_of(Self::order(), n as nat, 4)),
    ;

    /// Writes a `u64` at the start of the destination.
    fn write_u64(n: u64, dst: &mut [u8])
        requires
            old(dst)@.len() >= 8,
        ensures
            final(dst)@ == overwrite(old(dst)@, bytes_of(Self::order(), n as nat, 8)),
    ;
}

/// Little endian writing.
pub struct LE;

/// Big endian writing.
pub struct BE;

/// Writing in the byte order of the machine that runs the code.
pub struct NE;

impl Endian for LE {
    open spec fn order() -> ByteOrder {
        ByteOrder::Little
    }

    fn write_u16(n: u16, dst: &mut [u8]) {
        write_le(n as u64, 2, dst)
    }

    fn write_u32(n: u32, dst: &mut [u8]) {
        write_le(n as u64, 4, dst)
    }

    fn write_u64(n: u64, dst: &mut [u8]) {
        write_le(n, 8, dst)
    }
}

impl Endian for BE {
    open spec fn order() -> ByteOrder {
        ByteOrder::Big
    }

    fn write_u16(n: u16, dst: &mut [u8]) {
        write_be(n as u64, 2, dst)
    }

    fn write_u32(n: u32, dst: &mut [u8]) {
        write_be(n as u64, 4, dst)
    }

    fn write_u64(n: u64, dst: &mut [u8]) {
        write_be(n, 8, dst)
    }
}

impl Endian for NE {
    open spec fn order() -> ByteOrder {
        native_order()
    }

    fn write_u16(n: u16, dst: &mut [u8]) {
        write_in(native_byte_order(), n as u64, 2, dst)
    }

    fn write_u32(n: u32, dst: &mut [u8]) {
        write_in(native_byte_order(), n as u64, 4, dst)
    }

    fn write_u64(n: u64, dst: &mut [u8]) {
        write_in(native_byte_order(), n, 8, dst)
    }
}

} // verus!
