//! The fixed-width encoding of a handle inside a byte buffer: eight bytes,
//! most significant first, as used when a handle travels inside a record or a
//! sequence rather than as a direct call argument.
use vstd::prelude::*;

verus! {

/// The number of bytes that one handle occupies in a buffer.
pub const HANDLE_WIDTH: usize = 8;

/// The eight bytes of `v`, most significant first.
pub open spec fn be_bytes(v: u64) -> Seq<u8> {
    seq![
        (v >> 56u64) as u8,
        (v >> 48u64) as u8,
        (v >> 40u64) as u8,
        (v >> 32u64) as u8,
        (v >> 24u64) as u8,
        (v >> 16u64) as u8,
        (v >> 8u64) as u8,
        v as u8,
    ]
}

/// The integer that the first eight bytes of `s` spell, most significant first.
pub open spec fn be_value(s: Seq<u8>) -> u64
    recommends
        s.len() >= 8,
{
    ((s[0] as u64) << 56u64) | ((s[1] as u64) << 48u64) | ((s[2] as u64) << 40u64) | ((
    s[3] as u64) << 32u64) | ((s[4] as u64) << 24u64) | ((s[5] as u64) << 16u64) | ((
    s[6] as u64) << 8u64) | (s[7] as u64)
}

/// Why a buffer could not be read.
#[derive(Debug, PartialEq, Eq, Structural, Clone, Copy)]
pub enum WireError {
    /// Fewer bytes remained than the value needs.
    BufferUnderrun { needed: usize, remaining: usize },
}

/// Relies on `bytes::BufMut::put_u64` for `Vec<u8>`: it appends the eight
/// big-endian bytes of `v`; it panics only when the vector's length would
/// pass `isize::MAX`.
#[verifier::external_body]
fn put_u64(buf: &mut Vec<u8>, v: u64)
    requires
        old(buf)@.len() + 8 <= isize::MAX,
    ensures
        final(buf)@ == old(buf)@ + be_bytes(v),
{
    uniffi::deps::bytes::BufMut::put_u64(buf, v)
}

/// Relies on `uniffi::check_remaining`: it fails exactly when fewer than
/// `n` bytes remain in `buf` from `pos` on.
#[verifier::external_body]
fn check_remaining(buf: &[u8], pos: usize, n: usize) -> (r: bool)
    requires
        pos <= buf@.len(),
    ensures
        r <==> buf@.len() - pos >= n,
{
    uniffi::check_remaining(&buf[pos..], n).is_ok()
}

/// Relies on `bytes::Buf::get_u64` for `&[u8]`: it reads eight bytes as a
/// big-endian integer; it panics when fewer remain.
#[verifier::external_body]
fn get_u64(buf: &[u8], pos: usize) -> (r: u64)
    requires
        pos + 8 <= buf@.len(),
    ensures
        r == be_value(buf@.subrange(pos as int, pos + 8)),
{
    let mut rest: &[u8] = &buf[pos..];
    uniffi::deps::bytes::Buf::get_u64(&mut rest)
}

/// Appends the encoding of handle `h` to `buf`.
pub fn write_handle(h: u64, buf: &mut Vec<u8>)
    requires
        old(buf)@.len() + 8 <= isize::MAX,
    ensures
        final(buf)@ == old(buf)@ + be_bytes(h),
        final(buf)@.len() == old(buf)@.len() + 8,
{
    put_u64(buf, h);
}

/// Reads a handle from `buf` at `pos`, returning it with the position just
/// past it. Fails, reading nothing, when fewer than eight bytes remain.
pub fn try_read_handle(buf: &[u8], pos: usize) -> (r: Result<(u64, usize), WireError>)
    requires
        pos <= buf@.len(),
    ensures
        buf@.len() - pos >= 8 ==> r == Ok::<(u64, usize), WireError>(
            (be_value(buf@.subrange(pos as int, pos + 8)), (pos + 8) as usize),
        ),
        buf@.len() - pos < 8 ==> r == Err::<(u64, usize), WireError>(
            WireError::BufferUnderrun { needed: 8, remaining: (buf@.len() - pos) as usize },
        ),
{
    let len = buf.len();
    if !check_remaining(buf, pos, HANDLE_WIDTH) {
        return Err(WireError::BufferUnderrun { needed: HANDLE_WIDTH, remaining: len - pos });
    }
    let v = get_u64(buf, pos);
    Ok((v, pos + HANDLE_WIDTH))
}

/// Decoding the eight bytes of a handle gives the handle back.
pub proof fn lemma_be_round_trip(v: u64)
    ensures
        be_value(be_bytes(v)) == v,
{
    assert(((((v >> 56u64) as u8) as u64) << 56u64) | ((((v >> 48u64) as u8) as u64) << 48u64)
        | ((((v >> 40u64) as u8) as u64) << 40u64) | ((((v >> 32u64) as u8) as u64) << 32u64)
        | ((((v >> 24u64) as u8) as u64) << 24u64) | ((((v >> 16u64) as u8) as u64) << 16u64)
        | ((((v >> 8u64) as u8) as u64) << 8u64) | ((v as u8) as u64) == v) by (bit_vector);
}

/// Writing a handle and then reading at the old end of the buffer gives the
/// same handle back, and stops exactly after the bytes written.
pub proof fn lemma_write_then_read(before: Seq<u8>, h: u64)
    ensures
        be_value((before + be_bytes(h)).subrange(before.len() as int, before.len() + 8int)) == h,
{
    let s = before + be_bytes(h);
    assert(s.subrange(before.len() as int, before.len() + 8int) =~= be_bytes(h));
    lemma_be_round_trip(h);
}

/// The four bytes of `v`, most significant first.
pub open spec fn be32_bytes(v: u32) -> Seq<u8> {
    seq![(v >> 24u32) as u8, (v >> 16u32) as u8, (v >> 8u32) as u8, v as u8]
}

/// The integer that the first four bytes of `s` spell, most significant first.
pub open spec fn be32_value(s: Seq<u8>) -> u32
    recommends
        s.len() >= 4,
{
    ((s[0] as u32) << 24u32) | ((s[1] as u32) << 16u32) | ((s[2] as u32) << 8u32) | (s[3] as u32)
}

/// Relies on `bytes::BufMut::put_u32` for `Vec<u8>`: it appends the four
/// big-endian bytes of `v`; it panics only when the vector's length would
/// pass `isize::MAX`.
#[verifier::external_body]
fn put_u32(buf: &mut Vec<u8>, v: u32)
    requires
        old(buf)@.len() + 4 <= isize::MAX,
    ensures
        final(buf)@ == old(buf)@ + be32_bytes(v),
{
    uniffi::deps::bytes::BufMut::put_u32(buf, v)
}

/// Relies on `bytes::Buf::get_u32` for `&[u8]`: it reads four bytes as a
/// big-endian integer; it panics when fewer remain.
#[verifier::external_body]
fn get_u32(buf: &[u8], pos: usize) -> (r: u32)
    requires
        pos + 4 <= buf@.len(),
    ensures
        r == be32_value(buf@.subrange(pos as int, pos + 4)),
{
    let mut rest: &[u8] = &buf[pos..];
    uniffi::deps::bytes::Buf::get_u32(&mut rest)
}

/// Appends the encoding of a `u32` field to `buf`.
pub fn write_u32(v: u32, buf: &mut Vec<u8>)
    requires
        old(buf)@.len() + 4 <= isize::MAX,
    ensures
        final(buf)@ == old(buf)@ + be32_bytes(v),
{
    put_u32(buf, v);
}

/// Reads a `u32` field from `buf` at `pos`, returning it with the position
/// just past it. Fails, reading nothing, when fewer than four bytes remain.
pub fn try_read_u32(buf: &[u8], pos: usize) -> (r: Result<(u32, usize), WireError>)
    requires
        pos <= buf@.len(),
    ensures
        buf@.len() - pos >= 4 ==> r == Ok::<(u32, usize), WireError>(
            (be32_value(buf@.subrange(pos as int, pos + 4)), (pos + 4) as usize),
        ),
        buf@.len() - pos < 4 ==> r == Err::<(u32, usize), WireError>(
            WireError::BufferUnderrun { needed: 4, remaining: (buf@.len() - pos) as usize },
        ),
{
    let len = buf.len();
    if !check_remaining(buf, pos, 4) {
        return Err(WireError::BufferUnderrun { needed: 4, remaining: len - pos });
    }
    let v = get_u32(buf, pos);
    Ok((v, pos + 4))
}

/// Decoding the four bytes of a `u32` gives it back.
pub proof fn lemma_be32_round_trip(v: u32)
    ensures
        be32_value(be32_bytes(v)) == v,
{
    assert(((((v >> 24u32) as u8) as u32) << 24u32) | ((((v >> 16u32) as u8) as u32) << 16u32)
        | ((((v >> 8u32) as u8) as u32) << 8u32) | ((v as u8) as u32) == v) by (bit_vector);
}

} // verus!
