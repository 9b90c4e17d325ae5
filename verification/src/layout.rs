//! The byte layout of the time prefix: four bytes of sub-second nanoseconds,
//! then eight bytes of whole seconds, both little-endian.

use byteorder::{ByteOrder, LittleEndian};
use vstd::prelude::*;

verus! {

/// Number of bytes that the time prefix takes at the head of the raw buffer.
pub const TIME_PREFIX_BYTES: usize = 12;

/// An instant as the nonce layout sees it: whole seconds since the Unix epoch
/// and the nanoseconds that have passed since that second began.
#[derive(Clone, Copy, Debug, PartialEq, Eq, Structural)]
pub struct Timestamp {
    pub secs: i64,
    pub nanos: u32,
}

/// The `width` low bytes of `value`, least significant first. A negative
/// value comes out in two's complement, since division rounds down and the
/// remainder is never negative.
pub open spec fn le_bytes(value: int, width: nat) -> Seq<u8>
    decreases width,
{
    if width == 0 {
        Seq::empty()
    } else {
        seq![(value % 256) as u8] + le_bytes(value / 256, (width - 1) as nat)
    }
}

/// The twelve bytes that stand for `stamp`: nanoseconds first, seconds after.
pub open spec fn time_prefix(stamp: Timestamp) -> Seq<u8> {
    le_bytes(stamp.nanos as int, 4) + le_bytes(stamp.secs as int, 8)
}

/// `le_bytes` yields exactly `width` bytes.
pub proof fn lemma_le_bytes_len(value: int, width: nat)
    ensures
        le_bytes(value, width).len() == width,
    decreases width,
{
    if width > 0 {
        lemma_le_bytes_len(value / 256, (width - 1) as nat);
    }
}

/// The time prefix has twelve bytes.
pub proof fn lemma_time_prefix_len(stamp: Timestamp)
    ensures
        time_prefix(stamp).len() == TIME_PREFIX_BYTES,
{
    lemma_le_bytes_len(stamp.nanos as int, 4);
    lemma_le_bytes_len(stamp.secs as int, 8);
}

/// Equal bytes mean equal lowest bytes and equal bytes above them.
pub proof fn lemma_le_bytes_step(first: int, second: int, width: nat)
    requires
        width > 0,
        le_bytes(first, width) == le_bytes(second, width),
    ensures
        first % 256 == second % 256,
        le_bytes(first / 256, (width - 1) as nat) == le_bytes(second / 256, (width - 1) as nat),
{
    let a = le_bytes(first, width);
    let b = le_bytes(second, width);
    lemma_le_bytes_len(first / 256, (width - 1) as nat);
    lemma_le_bytes_len(second / 256, (width - 1) as nat);
    assert(a[0] == (first % 256) as u8);
    assert(b[0] == (second % 256) as u8);
    assert(a.subrange(1, width as int) == le_bytes(first / 256, (width - 1) as nat));
    assert(b.subrange(1, width as int) == le_bytes(second / 256, (width - 1) as nat));
}

/// Four bytes settle a value between zero and `u32::MAX`: two such values
/// with the same bytes are the same value.
pub proof fn lemma_le_bytes_settle_u32(first: u32, second: u32)
    requires
        le_bytes(first as int, 4) == le_bytes(second as int, 4),
    ensures
        first == second,
{
    let a0 = first as int;
    let b0 = second as int;
    let (a1, b1) = (a0 / 256, b0 / 256);
    let (a2, b2) = (a1 / 256, b1 / 256);
    let (a3, b3) = (a2 / 256, b2 / 256);
    lemma_le_bytes_step(a0, b0, 4);
    lemma_le_bytes_step(a1, b1, 3);
    lemma_le_bytes_step(a2, b2, 2);
    lemma_le_bytes_step(a3, b3, 1);
    assert(0 <= a3 < 256 && 0 <= b3 < 256);
    assert(a3 == b3);
    assert(a2 == b2);
    assert(a1 == b1);
}

/// Eight bytes settle a value in the range of `i64`: two such values with the
/// same bytes are the same value, whatever their signs.
pub proof fn lemma_le_bytes_settle_i64(first: i64, second: i64)
    requires
        le_bytes(first as int, 8) == le_bytes(second as int, 8),
    ensures
        first == second,
{
    let a0 = first as int;
    let b0 = second as int;
    let (a1, b1) = (a0 / 256, b0 / 256);
    let (a2, b2) = (a1 / 256, b1 / 256);
    let (a3, b3) = (a2 / 256, b2 / 256);
    let (a4, b4) = (a3 / 256, b3 / 256);
    let (a5, b5) = (a4 / 256, b4 / 256);
    let (a6, b6) = (a5 / 256, b5 / 256);
    let (a7, b7) = (a6 / 256, b6 / 256);
    lemma_le_bytes_step(a0, b0, 8);
    lemma_le_bytes_step(a1, b1, 7);
    lemma_le_bytes_step(a2, b2, 6);
    lemma_le_bytes_step(a3, b3, 5);
    lemma_le_bytes_step(a4, b4, 4);
    lemma_le_bytes_step(a5, b5, 3);
    lemma_le_bytes_step(a6, b6, 2);
    lemma_le_bytes_step(a7, b7, 1);
    assert(-0x80_0000_0000_0000 <= a1 < 0x80_0000_0000_0000);
    assert(-0x80_0000_0000_0000 <= b1 < 0x80_0000_0000_0000);
    assert(-0x8000_0000_0000 <= a2 < 0x8000_0000_0000);
    assert(-0x8000_0000_0000 <= b2 < 0x8000_0000_0000);
    assert(-0x80_0000_0000 <= a3 < 0x80_0000_0000);
    assert(-0x80_0000_0000 <= b3 < 0x80_0000_0000);
    assert(-0x8000_0000 <= a4 < 0x8000_0000);
    assert(-0x8000_0000 <= b4 < 0x8000_0000);
    assert(-0x80_0000 <= a5 < 0x80_0000);
    assert(-0x80_0000 <= b5 < 0x80_0000);
    assert(-0x8000 <= a6 < 0x8000);
    assert(-0x8000 <= b6 < 0x8000);
    assert(-0x80 <= a7 < 0x80);
    assert(-0x80 <= b7 < 0x80);
    assert(a7 == b7);
    assert(a6 == b6);
    assert(a5 == b5);
    assert(a4 == b4);
    assert(a3 == b3);
    assert(a2 == b2);
    assert(a1 == b1);
}

/// The time prefix settles the instant: two instants with the same twelve
/// bytes are the same instant.
pub proof fn lemma_time_prefix_settles(first: Timestamp, second: Timestamp)
    requires
        time_prefix(first) == time_prefix(second),
    ensures
        first == second,
{
    lemma_le_bytes_len(first.nanos as int, 4);
    lemma_le_bytes_len(second.nanos as int, 4);
    lemma_le_bytes_len(first.secs as int, 8);
    lemma_le_bytes_len(second.secs as int, 8);
    let p = time_prefix(first);
    let q = time_prefix(second);
    assert(le_bytes(first.nanos as int, 4) == p.subrange(0, 4));
    assert(le_bytes(second.nanos as int, 4) == q.subrange(0, 4));
    assert(le_bytes(first.secs as int, 8) == p.subrange(4, 12));
    assert(le_bytes(second.secs as int, 8) == q.subrange(4, 12));
    lemma_le_bytes_settle_u32(first.nanos, second.nanos);
    lemma_le_bytes_settle_i64(first.secs, second.secs);
}

/// The raw bytes settle their parts: where a time prefix followed by random
/// bytes equals another time prefix followed by other random bytes, the
/// instants are the same and so are the random bytes.
pub proof fn lemma_raw_bytes_settle_parts(
    first: Timestamp,
    first_random: Seq<u8>,
    second: Timestamp,
    second_random: Seq<u8>,
)
    requires
        time_prefix(first) + first_random == time_prefix(second) + second_random,
    ensures
        first == second,
        first_random == second_random,
{
    lemma_le_bytes_len(first.nanos as int, 4);
    lemma_le_bytes_len(second.nanos as int, 4);
    lemma_le_bytes_len(first.secs as int, 8);
    lemma_le_bytes_len(second.secs as int, 8);
    let a = time_prefix(first) + first_random;
    let b = time_prefix(second) + second_random;
    assert(time_prefix(first) == a.subrange(0, 12));
    assert(time_prefix(second) == b.subrange(0, 12));
    assert(first_random == a.subrange(12, a.len() as int));
    assert(second_random == b.subrange(12, b.len() as int));
    lemma_time_prefix_settles(first, second);
}

/// Trusted: `byteorder::LittleEndian::write_u32`. It overwrites the four
/// bytes of `buf` that start at `at` with `n`, least significant byte first,
/// and touches nothing else, so the length stays. byteorder panics when fewer
/// than four bytes are left, which the precondition rules out.
#[verifier::external_body]
fn write_u32_le(buf: &mut Vec<u8>, at: usize, n: u32)
    requires
        at + 4 <= old(buf)@.len(),
    ensures
        final(buf)@.len() == old(buf)@.len(),
        final(buf)@ == old(buf)@.subrange(0, at as int) + le_bytes(n as int, 4) + old(
            buf,
        )@.subrange(at + 4, old(buf)@.len() as int),
{
    LittleEndian::write_u32(&mut buf[at..], n)
}

/// Trusted: `byteorder::LittleEndian::write_i64`. It overwrites the eight
/// bytes of `buf` that start at `at` with the two's complement form of `n`,
/// least significant byte first, and touches nothing else, so the length
/// stays. byteorder panics when fewer than eight bytes are left, which the
/// precondition rules out.
#[verifier::external_body]
fn write_i64_le(buf: &mut Vec<u8>, at: usize, n: i64)
    requires
        at + 8 <= old(buf)@.len(),
    ensures
        final(buf)@.len() == old(buf)@.len(),
        final(buf)@ == old(buf)@.subrange(0, at as int) + le_bytes(n as int, 8) + old(
            buf,
        )@.subrange(at + 8, old(buf)@.len() as int),
{
    LittleEndian::write_i64(&mut buf[at..], n)
}

/// Lays `stamp` out as the twelve-byte time prefix.
pub fn time_prefix_bytes(stamp: Timestamp) -> (raw: Vec<u8>)
    ensures
        raw@ == time_prefix(stamp),
        raw@.len() == TIME_PREFIX_BYTES,
{
    let mut raw: Vec<u8> = vec![0u8; TIME_PREFIX_BYTES];
    write_u32_le(&mut raw, 0, stamp.nanos);
    write_i64_le(&mut raw, 4, stamp.secs);
    proof {
        lemma_le_bytes_len(stamp.nanos as int, 4);
        lemma_le_bytes_len(stamp.secs as int, 8);
    }
    raw
}

} // verus!
