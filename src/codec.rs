//! Little-endian reads and writes over the fixed-size report buffers.
use byteorder::{ByteOrder, LittleEndian};
use vstd::prelude::*;

verus! {

/// Length in bytes of each report buffer.
pub const REPORT_SIZE: usize = 32;

/// The 16-bit little-endian value stored at `at`.
pub open spec fn le16(b: Seq<u8>, at: int) -> u16 {
    (b[at] as int + 256 * b[at + 1] as int) as u16
}

/// `b` with the 16-bit value `v` written little-endian at `at`.
pub open spec fn put16(b: Seq<u8>, at: int, v: u16) -> Seq<u8> {
    b.update(at, (v % 256) as u8).update(at + 1, (v / 256) as u8)
}

/// `b` with the 32-bit value `v` written little-endian at `at`.
pub open spec fn put32(b: Seq<u8>, at: int, v: u32) -> Seq<u8> {
    b.update(at, (v % 256) as u8).update(at + 1, ((v / 256) % 256) as u8).update(
        at + 2,
        ((v / 65536) % 256) as u8,
    ).update(at + 3, (v / 16777216) as u8)
}

/// Relies on byteorder's `LittleEndian::read_u16`: it decodes the first two bytes
/// of the slice, low byte first.
#[verifier::external_body]
pub(crate) fn read_u16_le(buf: &[u8; REPORT_SIZE], at: usize) -> (r: u16)
    requires
        at + 2 <= REPORT_SIZE,
    ensures
        r == le16(buf@, at as int),
{
    LittleEndian::read_u16(&buf[at..])
}

/// Relies on byteorder's `LittleEndian::write_u16`: it stores the value in the
/// first two bytes of the slice, low byte first, and touches no other byte.
#[verifier::external_body]
pub(crate) fn write_u16_le(buf: &mut [u8; REPORT_SIZE], at: usize, n: u16)
    requires
        at + 2 <= REPORT_SIZE,
    ensures
        final(buf)@ == put16(old(buf)@, at as int, n),
{
    LittleEndian::write_u16(&mut buf[at..], n)
}

/// Relies on byteorder's `LittleEndian::write_u32`: it stores the value in the
/// first four bytes of the slice, low byte first, and touches no other byte.
#[verifier::external_body]
pub(crate) fn write_u32_le(buf: &mut [u8; REPORT_SIZE], at: usize, n: u32)
    requires
        at + 4 <= REPORT_SIZE,
    ensures
        final(buf)@ == put32(old(buf)@, at as int, n),
{
    LittleEndian::write_u32(&mut buf[at..], n)
}

/// Sets every byte of the buffer to `v`.
pub fn fill(buf: &mut [u8; REPORT_SIZE], v: u8)
    ensures
        final(buf)@ == Seq::new(REPORT_SIZE as nat, |j: int| v),
{
    let mut i: usize = 0;
    while i < REPORT_SIZE
        invariant
            i <= REPORT_SIZE,
            forall|j: int| 0 <= j < i ==> buf@[j] == v,
        decreases REPORT_SIZE - i,
    {
        buf[i] = v;
        i += 1;
    }
    assert(buf@ =~= Seq::new(REPORT_SIZE as nat, |j: int| v));
}

/// Sets the bytes in `[from, to)` to `v`, leaving the others as they are.
pub fn fill_range(buf: &mut [u8; REPORT_SIZE], from: usize, to: usize, v: u8)
    requires
        from <= to <= REPORT_SIZE,
    ensures
        final(buf)@ == Seq::new(
            REPORT_SIZE as nat,
            |j: int| if from <= j < to { v } else { old(buf)@[j] },
        ),
{
    let mut i: usize = from;
    while i < to
        invariant
            from <= i <= to <= REPORT_SIZE,
            buf@.len() == REPORT_SIZE,
            forall|j: int| from <= j < i ==> buf@[j] == v,
            forall|j: int| 0 <= j < REPORT_SIZE && !(from <= j < i) ==> buf@[j] == old(buf)@[j],
        decreases to - i,
    {
        buf[i] = v;
        i += 1;
    }
    assert(buf@ =~= Seq::new(
        REPORT_SIZE as nat,
        |j: int| if from <= j < to { v } else { old(buf)@[j] },
    ));
}

} // verus!
