//! Fixed-width byte extraction and the little-endian reading and spelling of
//! numbers.
//!
//! The arithmetic that joins bytes into a number and splits a number into
//! bytes sits in opaque functions ([`join16`], [`join32`], [`byte_of`]), and so
//! does the failure of a short read ([`missing`]): proofs about whole datagrams
//! go by the lemmas of this module and `reveal` a definition only where they
//! need the numbers themselves.

use vstd::prelude::*;

verus! {

/// The one way a decode fails: a slice handed to the extractor does not have
/// the width that the field needs.
#[derive(Clone, Copy, Debug, PartialEq, Eq, Structural)]
pub struct LengthMismatch {
    /// The width that was asked for, in bytes.
    pub expected: usize,
    /// The length of the slice that was given.
    pub actual: usize,
}

/// An IEEE-754 binary32 number, held as its 32-bit pattern: bit 31 is the
/// sign, bits 30 to 23 the exponent, bits 22 to 0 the fraction.
#[derive(Clone, Copy, Debug, PartialEq, Eq, Structural)]
pub struct Binary32 {
    pub bits: u32,
}

/// What the extractor answers for a slice of `len` bytes where `width` were
/// asked for.
pub open spec fn mismatch(width: nat, len: nat) -> LengthMismatch {
    LengthMismatch { expected: width as usize, actual: len as usize }
}

/// How many bytes of the span `[offset, offset + width)` a buffer of `len`
/// bytes holds.
pub open spec fn present(len: nat, offset: nat, width: nat) -> nat {
    if len <= offset {
        0
    } else if len - offset < width {
        (len - offset) as nat
    } else {
        width
    }
}

/// The part of `b` that lies in the span `[offset, offset + width)`.
pub open spec fn window(b: Seq<u8>, offset: nat, width: nat) -> Seq<u8> {
    let lo = if offset <= b.len() {
        offset
    } else {
        b.len()
    };
    b.subrange(lo as int, (lo + present(b.len(), offset, width)) as int)
}

/// The failure of reading a field of `width` bytes at `offset` from a buffer
/// of `len` bytes that does not hold the field whole.
#[verifier::opaque]
pub open spec fn missing(len: nat, offset: nat, width: nat) -> LengthMismatch {
    mismatch(width, present(len, offset, width))
}

/// The unsigned number with low byte `b0` and high byte `b1`.
#[verifier::opaque]
pub open spec fn join16(b0: u8, b1: u8) -> u16 {
    (b0 as int + 0x100 * (b1 as int)) as u16
}

/// The unsigned number with the bytes `b0` to `b3`, from the lowest up.
#[verifier::opaque]
pub open spec fn join32(b0: u8, b1: u8, b2: u8, b3: u8) -> u32 {
    (b0 as int + 0x100 * (b1 as int) + 0x1_0000 * (b2 as int) + 0x100_0000 * (b3 as int)) as u32
}

/// Byte `n` of `x`, counted from the least significant one.
#[verifier::opaque]
pub open spec fn byte_of(x: u32, n: nat) -> u8 {
    if n == 0 {
        (x % 0x100) as u8
    } else if n == 1 {
        (x / 0x100 % 0x100) as u8
    } else if n == 2 {
        (x / 0x1_0000 % 0x100) as u8
    } else {
        (x / 0x100_0000 % 0x100) as u8
    }
}

/// The signed number whose 8-bit two's-complement pattern is `u`.
pub open spec fn signed8(u: u8) -> i8 {
    if u < 0x80 {
        u as i8
    } else {
        (u - 0x100) as i8
    }
}

/// The signed number whose 32-bit two's-complement pattern is `u`.
pub open spec fn signed32(u: u32) -> i32 {
    if u < 0x8000_0000 {
        u as i32
    } else {
        (u - 0x1_0000_0000) as i32
    }
}

/// The 8-bit two's-complement pattern of `i`.
pub open spec fn pattern8(i: i8) -> u8 {
    if i >= 0 {
        i as u8
    } else {
        (i + 0x100) as u8
    }
}

/// The 32-bit two's-complement pattern of `i`.
pub open spec fn pattern32(i: i32) -> u32 {
    if i >= 0 {
        i as u32
    } else {
        (i + 0x1_0000_0000) as u32
    }
}

/// The unsigned number that two bytes spell, least significant byte first.
pub open spec fn u16_le(b: Seq<u8>) -> u16
    recommends
        b.len() == 2,
{
    join16(b[0], b[1])
}

/// The unsigned number that four bytes spell, least significant byte first.
pub open spec fn u32_le(b: Seq<u8>) -> u32
    recommends
        b.len() == 4,
{
    join32(b[0], b[1], b[2], b[3])
}

/// The two bytes that spell `x`, least significant byte first.
pub open spec fn u16_bytes(x: u16) -> Seq<u8> {
    seq![byte_of(x as u32, 0), byte_of(x as u32, 1)]
}

/// The four bytes that spell `x`, least significant byte first.
pub open spec fn u32_bytes(x: u32) -> Seq<u8> {
    seq![byte_of(x, 0), byte_of(x, 1), byte_of(x, 2), byte_of(x, 3)]
}

/// The byte at `offset`.
pub open spec fn u8_at(b: Seq<u8>, offset: int) -> u8 {
    b[offset]
}

/// The byte at `offset`, read as a signed number.
pub open spec fn i8_at(b: Seq<u8>, offset: int) -> i8 {
    signed8(b[offset])
}

/// The two bytes from `offset` on, read as an unsigned little-endian number.
pub open spec fn u16_at(b: Seq<u8>, offset: int) -> u16 {
    u16_le(b.subrange(offset, offset + 2))
}

/// The four bytes from `offset` on, read as an unsigned little-endian number.
pub open spec fn u32_at(b: Seq<u8>, offset: int) -> u32 {
    u32_le(b.subrange(offset, offset + 4))
}

/// The four bytes from `offset` on, read as a signed little-endian number.
pub open spec fn i32_at(b: Seq<u8>, offset: int) -> i32 {
    signed32(u32_at(b, offset))
}

/// The four bytes from `offset` on, read as a little-endian binary32 pattern.
pub open spec fn binary32_at(b: Seq<u8>, offset: int) -> Binary32 {
    Binary32 { bits: u32_at(b, offset) }
}

/// An 8-bit signed number and its two's-complement pattern determine each
/// other.
pub proof fn lemma_signed8(u: u8, i: i8)
    ensures
        signed8(pattern8(i)) == i,
        pattern8(signed8(u)) == u,
{
}

/// A 32-bit signed number and its two's-complement pattern determine each
/// other.
pub proof fn lemma_signed32(u: u32, i: i32)
    ensures
        signed32(pattern32(i)) == i,
        pattern32(signed32(u)) == u,
{
}

/// Reading the two bytes that spell `x` gives `x` back.
pub proof fn lemma_u16_le_of_bytes(x: u16)
    ensures
        u16_bytes(x).len() == 2,
        u16_le(u16_bytes(x)) == x,
{
    reveal(join16);
    reveal(byte_of);
}

/// Reading the four bytes that spell `x` gives `x` back.
pub proof fn lemma_u32_le_of_bytes(x: u32)
    ensures
        u32_bytes(x).len() == 4,
        u32_le(u32_bytes(x)) == x,
{
    reveal(join32);
    reveal(byte_of);
}

/// Spelling the number that two bytes were read as gives the bytes back.
pub proof fn lemma_u16_bytes_of_le(b: Seq<u8>)
    requires
        b.len() == 2,
    ensures
        u16_bytes(u16_le(b)) == b,
{
    reveal(join16);
    reveal(byte_of);
    assert(u16_bytes(u16_le(b)) =~= b);
}

/// Spelling the number that four bytes were read as gives the bytes back.
pub proof fn lemma_u32_bytes_of_le(b: Seq<u8>)
    requires
        b.len() == 4,
    ensures
        u32_bytes(u32_le(b)) == b,
{
    reveal(join32);
    reveal(byte_of);
    let b0 = b[0] as int;
    let b1 = b[1] as int;
    let b2 = b[2] as int;
    let b3 = b[3] as int;
    let x = b0 + 0x100 * b1 + 0x1_0000 * b2 + 0x100_0000 * b3;
    assert(x % 0x100 == b0 && x / 0x100 == b1 + 0x100 * b2 + 0x1_0000 * b3);
    assert(x / 0x100 % 0x100 == b1 && x / 0x1_0000 == b2 + 0x100 * b3);
    assert(x / 0x1_0000 % 0x100 == b2 && x / 0x100_0000 == b3);
    assert(u32_bytes(u32_le(b)) =~= b);
}

/// Reinterprets a slice of exactly one byte as an array.
pub fn get8(a: &[u8]) -> (r: Result<[u8; 1], LengthMismatch>)
    ensures
        a@.len() == 1 ==> r is Ok && r->Ok_0@ == a@,
        a@.len() != 1 ==> r == Err::<[u8; 1], LengthMismatch>(mismatch(1, a@.len())),
{
    if a.len() == 1 {
        let out = [a[0]];
        assert(out@ =~= a@);
        Ok(out)
    } else {
        Err(LengthMismatch { expected: 1, actual: a.len() })
    }
}

/// Reinterprets a slice of exactly two bytes as an array, in the same order.
pub fn get16(a: &[u8]) -> (r: Result<[u8; 2], LengthMismatch>)
    ensures
        a@.len() == 2 ==> r is Ok && r->Ok_0@ == a@,
        a@.len() != 2 ==> r == Err::<[u8; 2], LengthMismatch>(mismatch(2, a@.len())),
{
    if a.len() == 2 {
        let out = [a[0], a[1]];
        assert(out@ =~= a@);
        Ok(out)
    } else {
        Err(LengthMismatch { expected: 2, actual: a.len() })
    }
}

/// Reinterprets a slice of exactly four bytes as an array, in the same order.
pub fn get32(a: &[u8]) -> (r: Result<[u8; 4], LengthMismatch>)
    ensures
        a@.len() == 4 ==> r is Ok && r->Ok_0@ == a@,
        a@.len() != 4 ==> r == Err::<[u8; 4], LengthMismatch>(mismatch(4, a@.len())),
{
    if a.len() == 4 {
        let out = [a[0], a[1], a[2], a[3]];
        assert(out@ =~= a@);
        Ok(out)
    } else {
        Err(LengthMismatch { expected: 4, actual: a.len() })
    }
}

/// Reads one byte as an unsigned number.
pub fn u8_from_le(bytes: [u8; 1]) -> (r: u8)
    ensures
        r == bytes@[0],
{
    bytes[0]
}

/// Reads one byte as a signed number in two's complement.
pub fn i8_from_le(bytes: [u8; 1]) -> (r: i8)
    ensures
        r == signed8(bytes@[0]),
{
    let u: u8 = bytes[0];
    assert(#[verifier::truncate] (u as i8) == signed8(u)) by (bit_vector);
    #[verifier::truncate]
    (u as i8)
}

/// Reads two bytes as an unsigned little-endian number.
pub fn u16_from_le(bytes: [u8; 2]) -> (r: u16)
    ensures
        r == u16_le(bytes@),
{
    proof {
        reveal(join16);
    }
    bytes[0] as u16 + 0x100 * (bytes[1] as u16)
}

/// Reads four bytes as an unsigned little-endian number.
pub fn u32_from_le(bytes: [u8; 4]) -> (r: u32)
    ensures
        r == u32_le(bytes@),
{
    proof {
        reveal(join32);
    }
    bytes[0] as u32 + 0x100 * (bytes[1] as u32) + 0x1_0000 * (bytes[2] as u32) + 0x100_0000 * (
    bytes[3] as u32)
}

/// Reads four bytes as a signed little-endian number in two's complement.
pub fn i32_from_le(bytes: [u8; 4]) -> (r: i32)
    ensures
        r == signed32(u32_le(bytes@)),
{
    let u: u32 = u32_from_le(bytes);
    assert(#[verifier::truncate] (u as i32) == signed32(u)) by (bit_vector);
    #[verifier::truncate]
    (u as i32)
}

/// Borrows the bytes of `buffer` that lie in `[offset, offset + width)`; where
/// the buffer ends earlier, the slice is shorter than `width`.
pub fn field_bytes(buffer: &[u8], offset: usize, width: usize) -> (w: &[u8])
    ensures
        w@ == window(buffer@, offset as nat, width as nat),
{
    let len = buffer.len();
    let lo = if offset <= len {
        offset
    } else {
        len
    };
    let hi = if len - lo < width {
        len
    } else {
        lo + width
    };
    vstd::slice::slice_subrange(buffer, lo, hi)
}

/// Reads the unsigned 8-bit field at `offset`.
pub fn read_u8(buffer: &[u8], offset: usize) -> (r: Result<u8, LengthMismatch>)
    ensures
        offset + 1 <= buffer@.len() ==> r == Ok::<u8, LengthMismatch>(
            u8_at(buffer@, offset as int),
        ),
        offset + 1 > buffer@.len() ==> r == Err::<u8, LengthMismatch>(
            missing(buffer@.len(), offset as nat, 1),
        ),
{
    proof {
        reveal(missing);
    }
    Ok(u8_from_le(get8(field_bytes(buffer, offset, 1))?))
}

/// Reads the signed 8-bit field at `offset`.
pub fn read_i8(buffer: &[u8], offset: usize) -> (r: Result<i8, LengthMismatch>)
    ensures
        offset + 1 <= buffer@.len() ==> r == Ok::<i8, LengthMismatch>(
            i8_at(buffer@, offset as int),
        ),
        offset + 1 > buffer@.len() ==> r == Err::<i8, LengthMismatch>(
            missing(buffer@.len(), offset as nat, 1),
        ),
{
    proof {
        reveal(missing);
    }
    Ok(i8_from_le(get8(field_bytes(buffer, offset, 1))?))
}

/// Reads the unsigned 16-bit field at `offset`.
pub fn read_u16(buffer: &[u8], offset: usize) -> (r: Result<u16, LengthMismatch>)
    ensures
        offset + 2 <= buffer@.len() ==> r == Ok::<u16, LengthMismatch>(
            u16_at(buffer@, offset as int),
        ),
        offset + 2 > buffer@.len() ==> r == Err::<u16, LengthMismatch>(
            missing(buffer@.len(), offset as nat, 2),
        ),
{
    proof {
        reveal(missing);
    }
    Ok(u16_from_le(get16(field_bytes(buffer, offset, 2))?))
}

/// Reads the unsigned 32-bit field at `offset`.
pub fn read_u32(buffer: &[u8], offset: usize) -> (r: Result<u32, LengthMismatch>)
    ensures
        offset + 4 <= buffer@.len() ==> r == Ok::<u32, LengthMismatch>(
            u32_at(buffer@, offset as int),
        ),
        offset + 4 > buffer@.len() ==> r == Err::<u32, LengthMismatch>(
            missing(buffer@.len(), offset as nat, 4),
        ),
{
    proof {
        reveal(missing);
    }
    Ok(u32_from_le(get32(field_bytes(buffer, offset, 4))?))
}

/// Reads the signed 32-bit field at `offset`.
pub fn read_i32(buffer: &[u8], offset: usize) -> (r: Result<i32, LengthMismatch>)
    ensures
        offset + 4 <= buffer@.len() ==> r == Ok::<i32, LengthMismatch>(
            i32_at(buffer@, offset as int),
        ),
        offset + 4 > buffer@.len() ==> r == Err::<i32, LengthMismatch>(
            missing(buffer@.len(), offset as nat, 4),
        ),
{
    proof {
        reveal(missing);
    }
    Ok(i32_from_le(get32(field_bytes(buffer, offset, 4))?))
}

/// Reads the binary32 field at `offset`.
pub fn read_binary32(buffer: &[u8], offset: usize) -> (r: Result<Binary32, LengthMismatch>)
    ensures
        offset + 4 <= buffer@.len() ==> r == Ok::<Binary32, LengthMismatch>(
            binary32_at(buffer@, offset as int),
        ),
        offset + 4 > buffer@.len() ==> r == Err::<Binary32, LengthMismatch>(
            missing(buffer@.len(), offset as nat, 4),
        ),
{
    proof {
        reveal(missing);
    }
    Ok(Binary32 { bits: u32_from_le(get32(field_bytes(buffer, offset, 4))?) })
}

/// Appends the byte `x`.
pub fn write_u8(out: &mut Vec<u8>, x: u8)
    ensures
        final(out)@ == old(out)@ + seq![x],
{
    out.push(x);
    assert(out@ =~= old(out)@ + seq![x]);
}

/// Appends the two's-complement pattern of `x`.
pub fn write_i8(out: &mut Vec<u8>, x: i8)
    ensures
        final(out)@ == old(out)@ + seq![pattern8(x)],
{
    assert(#[verifier::truncate] (x as u8) == pattern8(x)) by (bit_vector);
    write_u8(out, #[verifier::truncate] (x as u8));
}

/// Appends the two bytes of `x`, least significant byte first.
pub fn write_u16(out: &mut Vec<u8>, x: u16)
    ensures
        final(out)@ == old(out)@ + u16_bytes(x),
{
    proof {
        reveal(byte_of);
    }
    out.push((x % 0x100) as u8);
    out.push((x / 0x100) as u8);
    assert(out@ =~= old(out)@ + u16_bytes(x));
}

/// Appends the four bytes of `x`, least significant byte first.
pub fn write_u32(out: &mut Vec<u8>, x: u32)
    ensures
        final(out)@ == old(out)@ + u32_bytes(x),
{
    proof {
        reveal(byte_of);
    }
    out.push((x % 0x100) as u8);
    out.push((x / 0x100 % 0x100) as u8);
    out.push((x / 0x1_0000 % 0x100) as u8);
    out.push((x / 0x100_0000) as u8);
    assert(out@ =~= old(out)@ + u32_bytes(x));
}

/// Appends the four bytes of the two's-complement pattern of `x`, least
/// significant byte first.
pub fn write_i32(out: &mut Vec<u8>, x: i32)
    ensures
        final(out)@ == old(out)@ + u32_bytes(pattern32(x)),
{
    assert(#[verifier::truncate] (x as u32) == pattern32(x)) by (bit_vector);
    write_u32(out, #[verifier::truncate] (x as u32));
}

/// Appends the four bytes of the pattern of `x`, least significant byte first.
pub fn write_binary32(out: &mut Vec<u8>, x: Binary32)
    ensures
        final(out)@ == old(out)@ + u32_bytes(x.bits),
{
    write_u32(out, x.bits);
}

} // verus!
