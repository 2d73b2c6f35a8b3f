//! Fixed-width integers on the wire.
//!
//! Wayland sends every integer in the byte order of the machine, since both
//! ends of the socket run on the same host. The definitions below spell
//! out both orders and pick one by [`vstd::endian::endianness`], which stands
//! for the order of the hardware the code runs on.

use vstd::prelude::*;
use vstd::endian::{endianness, Endian};
use crate::protocol::error::{error_view, WlError, WlErrorView};

verus! {

/// The two bytes of `v`, least significant first.
pub open spec fn u16_le_bytes(v: u16) -> Seq<u8> {
    seq![(v % 256) as u8, (v / 256) as u8]
}

/// The two bytes of `v`, most significant first.
pub open spec fn u16_be_bytes(v: u16) -> Seq<u8> {
    seq![(v / 256) as u8, (v % 256) as u8]
}

/// The number whose least significant byte is `b[0]`.
pub open spec fn u16_from_le_bytes(b: Seq<u8>) -> u16
    recommends
        b.len() == 2,
{
    (b[0] + 256 * b[1]) as u16
}

/// The number whose most significant byte is `b[0]`.
pub open spec fn u16_from_be_bytes(b: Seq<u8>) -> u16
    recommends
        b.len() == 2,
{
    (256 * b[0] + b[1]) as u16
}

/// The four bytes of `v`, least significant first.
pub open spec fn u32_le_bytes(v: u32) -> Seq<u8> {
    seq![
        (v % 256) as u8,
        (v / 256 % 256) as u8,
        (v / 65536 % 256) as u8,
        (v / 16777216) as u8,
    ]
}

/// The four bytes of `v`, most significant first.
pub open spec fn u32_be_bytes(v: u32) -> Seq<u8> {
    seq![
        (v / 16777216) as u8,
        (v / 65536 % 256) as u8,
        (v / 256 % 256) as u8,
        (v % 256) as u8,
    ]
}

/// The number whose least significant byte is `b[0]`.
pub open spec fn u32_from_le_bytes(b: Seq<u8>) -> u32
    recommends
        b.len() == 4,
{
    (b[0] + 256 * b[1] + 65536 * b[2] + 16777216 * b[3]) as u32
}

/// The number whose most significant byte is `b[0]`.
pub open spec fn u32_from_be_bytes(b: Seq<u8>) -> u32
    recommends
        b.len() == 4,
{
    (16777216 * b[0] + 65536 * b[1] + 256 * b[2] + b[3]) as u32
}

/// How a 16-bit number lies on the wire: in the machine's byte order.
pub open spec fn u16_wire(v: u16) -> Seq<u8> {
    match endianness() {
        Endian::Little => u16_le_bytes(v),
        Endian::Big => u16_be_bytes(v),
    }
}

/// The 16-bit number that two bytes of the wire stand for.
pub open spec fn u16_unwire(b: Seq<u8>) -> u16
    recommends
        b.len() == 2,
{
    match endianness() {
        Endian::Little => u16_from_le_bytes(b),
        Endian::Big => u16_from_be_bytes(b),
    }
}

/// How a 32-bit number lies on the wire: in the machine's byte order.
pub open spec fn u32_wire(v: u32) -> Seq<u8> {
    match endianness() {
        Endian::Little => u32_le_bytes(v),
        Endian::Big => u32_be_bytes(v),
    }
}

/// The 32-bit number that four bytes of the wire stand for.
pub open spec fn u32_unwire(b: Seq<u8>) -> u32
    recommends
        b.len() == 4,
{
    match endianness() {
        Endian::Little => u32_from_le_bytes(b),
        Endian::Big => u32_from_be_bytes(b),
    }
}

/// Reading back what was written gives the number that was written.
pub proof fn lemma_u16_wire_round_trip(v: u16)
    ensures
        u16_wire(v).len() == 2,
        u16_unwire(u16_wire(v)) == v,
{
    assert(v == 256 * (v / 256) + v % 256);
    assert(u16_from_le_bytes(u16_le_bytes(v)) == v);
    assert(u16_from_be_bytes(u16_be_bytes(v)) == v);
}

/// Two bytes are the wire form of the number they are read as.
pub proof fn lemma_u16_unwire_round_trip(b: Seq<u8>)
    requires
        b.len() == 2,
    ensures
        u16_wire(u16_unwire(b)) == b,
{
    let le = b[0] + 256 * b[1];
    let be = 256 * b[0] + b[1];
    assert(le / 256 == b[1] && le % 256 == b[0]);
    assert(be / 256 == b[0] && be % 256 == b[1]);
    assert(u16_wire(u16_unwire(b)) =~= b);
}

/// Reading back what was written gives the number that was written.
pub proof fn lemma_u32_wire_round_trip(v: u32)
    ensures
        u32_wire(v).len() == 4,
        u32_unwire(u32_wire(v)) == v,
{
    lemma_u32_sum_of_digits(v);
    assert(u32_from_le_bytes(u32_le_bytes(v)) == v);
    assert(u32_from_be_bytes(u32_be_bytes(v)) == v);
}

/// A number is the sum of its base-256 digits, each below 256.
proof fn lemma_u32_sum_of_digits(v: u32)
    ensures
        v % 256 + 256 * (v / 256 % 256) + 65536 * (v / 65536 % 256) + 16777216 * (v / 16777216)
            == v,
        v / 16777216 < 256,
{
    let hi = v / 256;
    let top = hi / 256;
    assert(v == 256 * hi + v % 256);
    assert(hi == 256 * top + hi % 256);
    assert(top == 256 * (top / 256) + top % 256);
    assert(top == v / 65536);
    assert(top / 256 == v / 16777216);
}

/// Four bytes are the wire form of the number they are read as.
pub proof fn lemma_u32_unwire_round_trip(b: Seq<u8>)
    requires
        b.len() == 4,
    ensures
        u32_wire(u32_unwire(b)) == b,
{
    lemma_u32_digits(b[0], b[1], b[2], b[3]);
    lemma_u32_digits(b[3], b[2], b[1], b[0]);
    assert(u32_wire(u32_unwire(b)) =~= b);
}

/// The base-256 digits of a number built from four bytes are those bytes.
proof fn lemma_u32_digits(b0: u8, b1: u8, b2: u8, b3: u8)
    ensures
        ({
            let v = b0 + 256 * b1 + 65536 * b2 + 16777216 * b3;
            &&& 0 <= v <= u32::MAX
            &&& v % 256 == b0
            &&& v / 256 % 256 == b1
            &&& v / 65536 % 256 == b2
            &&& v / 16777216 == b3
        }),
{
    let v = b0 + 256 * b1 + 65536 * b2 + 16777216 * b3;
    let hi = b1 + 256 * b2 + 65536 * b3;
    let top = b2 + 256 * b3;
    assert(v == 256 * hi + b0);
    assert(hi == 256 * top + b1);
    assert(v / 256 == hi && v % 256 == b0);
    assert(hi / 256 == top && hi % 256 == b1);
    assert(v / 65536 == top) by {
        assert(v == 65536 * top + (256 * b1 + b0));
    }
    assert(top / 256 == b3 && top % 256 == b2);
    assert(v / 16777216 == b3) by {
        assert(v == 16777216 * b3 + (65536 * b2 + 256 * b1 + b0));
    }
}

/// `u16::to_ne_bytes`: the two bytes that hold `v` in memory, which on a
/// little-endian machine start with the least significant byte and on a
/// big-endian machine with the most significant one.
#[verifier::external_body]
fn u16_to_ne_bytes(v: u16) -> (bytes: [u8; 2])
    ensures
        bytes@ == u16_wire(v),
{
    v.to_ne_bytes()
}

/// `u16::from_ne_bytes`: the number that two bytes of memory hold, read in
/// the machine's byte order.
#[verifier::external_body]
fn u16_from_ne_bytes(bytes: [u8; 2]) -> (v: u16)
    ensures
        v == u16_unwire(bytes@),
{
    u16::from_ne_bytes(bytes)
}

/// `u32::to_ne_bytes`: the four bytes that hold `v` in memory, which on a
/// little-endian machine start with the least significant byte and on a
/// big-endian machine with the most significant one.
#[verifier::external_body]
fn u32_to_ne_bytes(v: u32) -> (bytes: [u8; 4])
    ensures
        bytes@ == u32_wire(v),
{
    v.to_ne_bytes()
}

/// `u32::from_ne_bytes`: the number that four bytes of memory hold, read in
/// the machine's byte order.
#[verifier::external_body]
fn u32_from_ne_bytes(bytes: [u8; 4]) -> (v: u32)
    ensures
        v == u32_unwire(bytes@),
{
    u32::from_ne_bytes(bytes)
}

/// Appends the wire form of a 16-bit number to `out`.
pub fn put_u16(out: &mut Vec<u8>, v: u16)
    ensures
        final(out)@ == old(out)@ + u16_wire(v),
{
    let bytes = u16_to_ne_bytes(v);
    out.push(bytes[0]);
    out.push(bytes[1]);
    assert(out@ =~= old(out)@ + u16_wire(v));
}

/// Appends the wire form of a 32-bit number to `out`.
pub fn put_u32(out: &mut Vec<u8>, v: u32)
    ensures
        final(out)@ == old(out)@ + u32_wire(v),
{
    let bytes = u32_to_ne_bytes(v);
    out.push(bytes[0]);
    out.push(bytes[1]);
    out.push(bytes[2]);
    out.push(bytes[3]);
    assert(out@ =~= old(out)@ + u32_wire(v));
}

/// What [`get_u16`] returns for the bytes `buf` read at offset `at`.
pub open spec fn spec_get_u16(buf: Seq<u8>, at: int) -> Result<u16, WlErrorView> {
    if at + 2 <= buf.len() {
        Ok(u16_unwire(buf.subrange(at, at + 2)))
    } else {
        Err(WlErrorView::TruncatedBuffer)
    }
}

/// What [`get_u32`] returns for the bytes `buf` read at offset `at`.
pub open spec fn spec_get_u32(buf: Seq<u8>, at: int) -> Result<u32, WlErrorView> {
    if at + 4 <= buf.len() {
        Ok(u32_unwire(buf.subrange(at, at + 4)))
    } else {
        Err(WlErrorView::TruncatedBuffer)
    }
}

/// Reads the 16-bit number that starts at offset `at`, or reports that the
/// buffer ends before it does.
pub fn get_u16(buf: &[u8], at: usize) -> (r: Result<u16, WlError>)
    ensures
        error_view(r) == spec_get_u16(buf@, at as int),
{
    if buf.len() < 2 || at > buf.len() - 2 {
        return Err(WlError::TruncatedBuffer);
    }
    let bytes: [u8; 2] = [buf[at], buf[at + 1]];
    assert(bytes@ =~= buf@.subrange(at as int, at + 2));
    Ok(u16_from_ne_bytes(bytes))
}

/// Reads the 32-bit number that starts at offset `at`, or reports that the
/// buffer ends before it does.
pub fn get_u32(buf: &[u8], at: usize) -> (r: Result<u32, WlError>)
    ensures
        error_view(r) == spec_get_u32(buf@, at as int),
{
    if buf.len() < 4 || at > buf.len() - 4 {
        return Err(WlError::TruncatedBuffer);
    }
    let bytes: [u8; 4] = [buf[at], buf[at + 1], buf[at + 2], buf[at + 3]];
    assert(bytes@ =~= buf@.subrange(at as int, at + 4));
    Ok(u32_from_ne_bytes(bytes))
}

/// The 32 bits that hold a signed number, read as an unsigned one: the
/// number itself where it is not negative, and 2^32 more where it is.
pub open spec fn i32_bits(v: i32) -> u32 {
    if v >= 0 {
        v as u32
    } else {
        (v + 0x1_0000_0000) as u32
    }
}

/// The signed number that 32 bits hold.
pub open spec fn i32_of_bits(bits: u32) -> i32 {
    if bits < 0x8000_0000 {
        bits as i32
    } else {
        (bits - 0x1_0000_0000) as i32
    }
}

/// How a signed 32-bit number lies on the wire.
pub open spec fn i32_wire(v: i32) -> Seq<u8> {
    u32_wire(i32_bits(v))
}

/// The signed 32-bit number that four bytes of the wire stand for.
pub open spec fn i32_unwire(b: Seq<u8>) -> i32
    recommends
        b.len() == 4,
{
    i32_of_bits(u32_unwire(b))
}

/// Reading back what was written gives the number that was written.
pub proof fn lemma_i32_wire_round_trip(v: i32)
    ensures
        i32_wire(v).len() == 4,
        i32_unwire(i32_wire(v)) == v,
{
    lemma_u32_wire_round_trip(i32_bits(v));
}

/// The wire form of an unsigned 32-bit number, as four bytes of their own.
/// Object ids, new ids and enumerated values go out the same way.
pub fn u32_to_bytes(v: u32) -> (out: Vec<u8>)
    ensures
        out@ == u32_wire(v),
{
    let mut out: Vec<u8> = Vec::new();
    put_u32(&mut out, v);
    out
}

/// Reads an unsigned 32-bit number from the first four bytes of `buf`, or
/// reports that `buf` is shorter than that.
pub fn u32_from_bytes(buf: &[u8]) -> (r: Result<u32, WlError>)
    ensures
        error_view(r) == spec_get_u32(buf@, 0),
{
    get_u32(buf, 0)
}

/// The wire form of a signed 32-bit number, as four bytes of their own.
pub fn i32_to_bytes(v: i32) -> (out: Vec<u8>)
    ensures
        out@ == i32_wire(v),
{
    let bits: u32 = #[verifier::truncate]
    (v as u32);
    assert(bits == i32_bits(v)) by (bit_vector)
        requires
            bits == v as u32,
    ;
    u32_to_bytes(bits)
}

/// What [`i32_from_bytes`] returns for the bytes `buf`.
pub open spec fn spec_get_i32(buf: Seq<u8>, at: int) -> Result<i32, WlErrorView> {
    match spec_get_u32(buf, at) {
        Ok(bits) => Ok(i32_of_bits(bits)),
        Err(e) => Err(e),
    }
}

/// Reads a signed 32-bit number from the first four bytes of `buf`, or
/// reports that `buf` is shorter than that.
pub fn i32_from_bytes(buf: &[u8]) -> (r: Result<i32, WlError>)
    ensures
        error_view(r) == spec_get_i32(buf@, 0),
{
    match get_u32(buf, 0) {
        Ok(bits) => {
            let v: i32 = #[verifier::truncate]
            (bits as i32);
            assert(v == i32_of_bits(bits)) by (bit_vector)
                requires
                    v == bits as i32,
            ;
            Ok(v)
        },
        Err(e) => Err(e),
    }
}

} // verus!
