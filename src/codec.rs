//! Little-endian integers and length-prefixed UTF-8 strings, the two building
//! blocks of the record layout and of the instruction payloads.

use vstd::prelude::*;
use vstd::utf8::*;
use crate::errors::{AgentMailProgramError, ProgramError};

verus! {

/// The four little-endian bytes of `n`.
pub open spec fn u32_le_bytes(n: u32) -> Seq<u8> {
    seq![(n % 256) as u8, (n / 256 % 256) as u8, (n / 65536 % 256) as u8, (n / 16777216) as u8]
}

/// The number whose little-endian bytes are `b[0..4]`.
pub open spec fn u32_from_le(b: Seq<u8>) -> u32 {
    (b[0] as int + b[1] as int * 256 + b[2] as int * 65536 + b[3] as int * 16777216) as u32
}

/// The eight little-endian bytes of `v`.
pub open spec fn u64_le_bytes(v: u64) -> Seq<u8> {
    seq![
        (v % 256) as u8,
        (v / 256 % 256) as u8,
        (v / 65536 % 256) as u8,
        (v / 16777216 % 256) as u8,
        (v / 4294967296 % 256) as u8,
        (v / 1099511627776 % 256) as u8,
        (v / 281474976710656 % 256) as u8,
        (v / 72057594037927936) as u8,
    ]
}

/// The number whose little-endian bytes are `b[0..8]`.
pub open spec fn u64_from_le(b: Seq<u8>) -> u64 {
    (b[0] as int + b[1] as int * 256 + b[2] as int * 65536 + b[3] as int * 16777216 + b[4] as int
        * 4294967296 + b[5] as int * 1099511627776 + b[6] as int * 281474976710656 + b[7] as int
        * 72057594037927936) as u64
}

/// Two's complement: the unsigned number with the same bits as `x`.
pub open spec fn i64_bits(x: i64) -> u64 {
    if x >= 0 {
        x as u64
    } else {
        (x + 18446744073709551616) as u64
    }
}

/// Two's complement: the signed number with the same bits as `v`.
pub open spec fn i64_from_bits(v: u64) -> i64 {
    if v < 9223372036854775808 {
        v as i64
    } else {
        (v - 18446744073709551616) as i64
    }
}

/// The eight little-endian bytes of the signed number `x`.
pub open spec fn i64_le_bytes(x: i64) -> Seq<u8> {
    u64_le_bytes(i64_bits(x))
}

/// The signed number whose little-endian bytes are `b[0..8]`.
pub open spec fn i64_from_le(b: Seq<u8>) -> i64 {
    i64_from_bits(u64_from_le(b))
}

/// `n` zero bytes.
pub open spec fn zeros(n: nat) -> Seq<u8> {
    Seq::new(n, |_i: int| 0u8)
}

/// A string stored in a field of `4 + cap` bytes: its UTF-8 length as four
/// little-endian bytes, its bytes, then zeros up to the capacity.
pub open spec fn str_field(s: Seq<char>, cap: nat) -> Seq<u8> {
    let b = encode_utf8(s);
    u32_le_bytes(b.len() as u32) + b + zeros((cap - b.len()) as nat)
}

/// Reads a length-prefixed UTF-8 string at `off`: the error when the bytes
/// run out, when the length is over `cap` (checked before the bytes are
/// touched) or when the bytes are not UTF-8; else the characters and the
/// offset just past them.
pub open spec fn spec_read_str(data: Seq<u8>, off: int, cap: int, too_long: ProgramError) -> Result<
    (Seq<char>, int),
    ProgramError,
> {
    if data.len() < off + 4 {
        Err(ProgramError::InvalidInstructionData)
    } else {
        let n = u32_from_le(data.subrange(off, off + 4)) as int;
        if n > cap {
            Err(too_long)
        } else if data.len() < off + 4 + n {
            Err(ProgramError::InvalidInstructionData)
        } else if !valid_utf8(data.subrange(off + 4, off + 4 + n)) {
            Err(AgentMailProgramError::InvalidUtf8.spec_into())
        } else {
            Ok((decode_utf8(data.subrange(off + 4, off + 4 + n)), off + 4 + n))
        }
    }
}

/// Decoding the bytes of `n` gives `n` back.
pub proof fn lemma_u32_round_trip(n: u32)
    ensures
        u32_from_le(u32_le_bytes(n)) == n,
{
    let b = u32_le_bytes(n);
    assert(b[0] as int + b[1] as int * 256 + b[2] as int * 65536 + b[3] as int * 16777216
        == n as int);
}

/// Decoding the bytes of `v` gives `v` back.
pub proof fn lemma_u64_round_trip(v: u64)
    ensures
        u64_from_le(u64_le_bytes(v)) == v,
{
    let b = u64_le_bytes(v);
    assert((v % 256) as u8 as u64 + ((v / 256 % 256) as u8 as u64) * 256 + ((v / 65536 % 256) as u8
        as u64) * 65536 + ((v / 16777216 % 256) as u8 as u64) * 16777216 + ((v / 4294967296
        % 256) as u8 as u64) * 4294967296 + ((v / 1099511627776 % 256) as u8 as u64)
        * 1099511627776 + ((v / 281474976710656 % 256) as u8 as u64) * 281474976710656 + ((v
        / 72057594037927936) as u8 as u64) * 72057594037927936 == v) by (bit_vector);
    assert(b[0] as int + b[1] as int * 256 + b[2] as int * 65536 + b[3] as int * 16777216
        + b[4] as int * 4294967296 + b[5] as int * 1099511627776 + b[6] as int * 281474976710656
        + b[7] as int * 72057594037927936 == v as int);
}

/// Decoding the bytes of `x` gives `x` back.
pub proof fn lemma_i64_round_trip(x: i64)
    ensures
        i64_from_le(i64_le_bytes(x)) == x,
{
    lemma_u64_round_trip(i64_bits(x));
}

/// Appends `src` to `out`.
pub fn push_bytes(out: &mut Vec<u8>, src: &[u8])
    requires
        old(out)@.len() + src@.len() <= usize::MAX,
    ensures
        final(out)@ == old(out)@ + src@,
{
    let mut i: usize = 0;
    while i < src.len()
        invariant
            i <= src@.len(),
            out@ == old(out)@ + src@.subrange(0, i as int),
            old(out)@.len() + src@.len() <= usize::MAX,
        decreases src@.len() - i,
    {
        out.push(src[i]);
        i = i + 1;
        assert(out@ =~= old(out)@ + src@.subrange(0, i as int));
    }
    assert(src@.subrange(0, src@.len() as int) =~= src@);
}

/// Appends `n` zero bytes to `out`.
pub fn push_zeros(out: &mut Vec<u8>, n: usize)
    requires
        old(out)@.len() + n <= usize::MAX,
    ensures
        final(out)@ == old(out)@ + zeros(n as nat),
{
    let mut i: usize = 0;
    while i < n
        invariant
            i <= n,
            out@ == old(out)@ + zeros(i as nat),
            old(out)@.len() + n <= usize::MAX,
        decreases n - i,
    {
        out.push(0u8);
        i = i + 1;
        assert(out@ =~= old(out)@ + zeros(i as nat));
    }
}

/// Appends the four little-endian bytes of `n` to `out`.
pub fn push_u32_le(out: &mut Vec<u8>, n: u32)
    requires
        old(out)@.len() + 4 <= usize::MAX,
    ensures
        final(out)@ == old(out)@ + u32_le_bytes(n),
{
    out.push((n % 256) as u8);
    out.push((n / 256 % 256) as u8);
    out.push((n / 65536 % 256) as u8);
    out.push((n / 16777216) as u8);
    assert(out@ =~= old(out)@ + u32_le_bytes(n));
}

/// Appends the eight little-endian bytes of the signed number `x` to `out`.
pub fn push_i64_le(out: &mut Vec<u8>, x: i64)
    requires
        old(out)@.len() + 8 <= usize::MAX,
    ensures
        final(out)@ == old(out)@ + i64_le_bytes(x),
{
    let v: u64 = if x >= 0 {
        x as u64
    } else {
        ((x + 9223372036854775807 + 1) as u64) + 9223372036854775808
    };
    assert(v == i64_bits(x));
    out.push((v % 256) as u8);
    out.push((v / 256 % 256) as u8);
    out.push((v / 65536 % 256) as u8);
    out.push((v / 16777216 % 256) as u8);
    out.push((v / 4294967296 % 256) as u8);
    out.push((v / 1099511627776 % 256) as u8);
    out.push((v / 281474976710656 % 256) as u8);
    out.push((v / 72057594037927936) as u8);
    assert(out@ =~= old(out)@ + i64_le_bytes(x));
}

/// Reads four little-endian bytes at `off`.
pub fn read_u32_le(data: &[u8], off: usize) -> (r: u32)
    requires
        off + 4 <= data@.len(),
    ensures
        r == u32_from_le(data@.subrange(off as int, off + 4)),
{
    let b0 = data[off] as u32;
    let b1 = data[off + 1] as u32;
    let b2 = data[off + 2] as u32;
    let b3 = data[off + 3] as u32;
    let r = b0 + b1 * 256 + b2 * 65536 + b3 * 16777216;
    let ghost b = data@.subrange(off as int, off + 4);
    assert(b[0] == data@[off as int] && b[1] == data@[off + 1] && b[2] == data@[off + 2] && b[3]
        == data@[off + 3]);
    r
}

/// Reads the signed number whose eight little-endian bytes start at `off`.
pub fn read_i64_le(data: &[u8], off: usize) -> (r: i64)
    requires
        off + 8 <= data@.len(),
    ensures
        r == i64_from_le(data@.subrange(off as int, off + 8)),
{
    let v: u64 = data[off] as u64 + data[off + 1] as u64 * 256 + data[off + 2] as u64 * 65536
        + data[off + 3] as u64 * 16777216 + data[off + 4] as u64 * 4294967296 + data[off + 5] as u64
        * 1099511627776 + data[off + 6] as u64 * 281474976710656 + data[off + 7] as u64
        * 72057594037927936;
    let ghost b = data@.subrange(off as int, off + 8);
    assert(b[0] == data@[off as int] && b[1] == data@[off + 1] && b[2] == data@[off + 2] && b[3]
        == data@[off + 3] && b[4] == data@[off + 4] && b[5] == data@[off + 5] && b[6] == data@[off
        + 6] && b[7] == data@[off + 7]);
    assert(v == u64_from_le(b));
    if v < 9223372036854775808 {
        v as i64
    } else {
        ((v - 9223372036854775808) as i64) - 9223372036854775807 - 1
    }
}

/// Relies on `String::from_utf8`: it accepts exactly the byte strings that
/// are valid UTF-8, and the string it returns holds the characters that they
/// encode.
#[verifier::external_body]
fn string_from_utf8(bytes: &[u8]) -> (r: Option<String>)
    ensures
        r is Some <==> valid_utf8(bytes@),
        r matches Some(s) ==> s@ == decode_utf8(bytes@),
{
    String::from_utf8(bytes.to_vec()).ok()
}

/// Reads a length-prefixed UTF-8 string at `off`, checking the length
/// against `cap` before it takes any byte of the string.
pub fn read_str(data: &[u8], off: usize, cap: usize, too_long: ProgramError) -> (r: Result<
    (String, usize),
    ProgramError,
>)
    requires
        off <= data@.len(),
    ensures
        match spec_read_str(data@, off as int, cap as int, too_long) {
            Ok((s, next)) => r matches Ok((t, n)) && t@ == s && n == next,
            Err(e) => r == Err::<(String, usize), ProgramError>(e),
        },
{
    if data.len() - off < 4 {
        return Err(ProgramError::InvalidInstructionData);
    }
    let n = read_u32_le(data, off) as usize;
    if n > cap {
        return Err(too_long);
    }
    if data.len() - off - 4 < n {
        return Err(ProgramError::InvalidInstructionData);
    }
    let start = off + 4;
    let bytes = &data[start..start + n];
    match string_from_utf8(bytes) {
        Some(s) => Ok((s, start + n)),
        None => Err(AgentMailProgramError::InvalidUtf8.into()),
    }
}

/// Appends `s` as a field of `4 + cap` bytes: length prefix, bytes, zeros.
pub fn push_str_field(out: &mut Vec<u8>, s: &str, cap: usize)
    requires
        encode_utf8(s@).len() <= cap,
        old(out)@.len() + 4 + cap <= usize::MAX,
        cap <= u32::MAX,
    ensures
        final(out)@ == old(out)@ + str_field(s@, cap as nat),
{
    let b = s.as_bytes();
    assert(b@ == encode_utf8(s@));
    let n = b.len();
    push_u32_le(out, n as u32);
    push_bytes(out, b);
    push_zeros(out, cap - n);
    assert(out@ =~= old(out)@ + str_field(s@, cap as nat));
}

} // verus!
