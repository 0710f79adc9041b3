//! Byte-walker primitives: each parser reads a value at `offset`, advances
//! `offset` past the consumed bytes on success, and leaves `offset` untouched
//! on failure.  The producer format is tightly packed little-endian with no
//! alignment or padding.

use vstd::prelude::*;
use vstd::utf8::{valid_utf8, decode_utf8};

verus! {

/// Why a byte-walker parse failed.
#[derive(Clone, Copy, Debug, PartialEq, Eq, Structural)]
pub enum ParseError {
    /// Fewer bytes remain than the value needs.
    Insufficient,
    /// A length-prefixed string region is not valid UTF-8.
    InvalidUtf8,
    /// A one-byte tag holds a value outside its legal range.
    InvalidDiscriminant,
}

/// Little-endian value of a byte string: the first byte is least significant.
pub open spec fn le_bytes(b: Seq<u8>) -> nat
    decreases b.len(),
{
    if b.len() == 0 {
        0
    } else {
        b[0] as nat + 256 * le_bytes(b.drop_first())
    }
}

/// One unfolding step of `le_bytes`, phrased over `subrange` so callers can
/// walk a window byte by byte.
pub proof fn lemma_le_bytes_unfold(b: Seq<u8>)
    requires
        b.len() > 0,
    ensures
        le_bytes(b) == b[0] + 256 * le_bytes(b.subrange(1, b.len() as int)),
{
    assert(b.drop_first() =~= b.subrange(1, b.len() as int));
}

/// The signed reading of a 4-byte little-endian window (two's complement).
pub open spec fn le_i32_value(b: Seq<u8>) -> int {
    if le_bytes(b) < 0x8000_0000 {
        le_bytes(b) as int
    } else {
        le_bytes(b) - 0x1_0000_0000
    }
}

/// Parse one byte.
pub fn parse_u8(data: &[u8], offset: &mut usize) -> (r: Result<u8, ParseError>)
    ensures
        match r {
            Ok(v) => *old(offset) + 1 <= data@.len()
                && *final(offset) == *old(offset) + 1
                && v == data@[*old(offset) as int],
            Err(e) => e == ParseError::Insufficient
                && *old(offset) + 1 > data@.len()
                && *final(offset) == *old(offset),
        },
{
    if data.len() < 1 || data.len() - 1 < *offset {
        return Err(ParseError::Insufficient);
    }
    let v = data[*offset];
    *offset = *offset + 1;
    Ok(v)
}

/// Parse one byte as a flag: any non-zero byte is `true`.
pub fn parse_bool(data: &[u8], offset: &mut usize) -> (r: Result<bool, ParseError>)
    ensures
        match r {
            Ok(v) => *old(offset) + 1 <= data@.len()
                && *final(offset) == *old(offset) + 1
                && v == (data@[*old(offset) as int] != 0),
            Err(e) => e == ParseError::Insufficient
                && *old(offset) + 1 > data@.len()
                && *final(offset) == *old(offset),
        },
{
    match parse_u8(data, offset) {
        Ok(b) => Ok(b != 0),
        Err(e) => Err(e),
    }
}

/// Parse a `u16` from 2 little-endian bytes.
pub fn parse_u16(data: &[u8], offset: &mut usize) -> (r: Result<u16, ParseError>)
    ensures
        match r {
            Ok(v) => *old(offset) + 2 <= data@.len()
                && *final(offset) == *old(offset) + 2
                && v as nat == le_bytes(data@.subrange(*old(offset) as int, *old(offset) + 2)),
            Err(e) => e == ParseError::Insufficient
                && *old(offset) + 2 > data@.len()
                && *final(offset) == *old(offset),
        },
{
    if data.len() < 2 || data.len() - 2 < *offset {
        return Err(ParseError::Insufficient);
    }
    let o = *offset;
    let b0 = data[o] as u16;
    let b1 = data[o + 1] as u16;
    let v = b0 + b1 * 256;
    proof {
        let ghost s = data@.subrange(o as int, o + 2);
        lemma_le_bytes_unfold(s);
        assert(s.subrange(1, 2) =~= data@.subrange(o + 1, o + 2));
        lemma_le_bytes_unfold(data@.subrange(o + 1, o + 2));
        assert(data@.subrange(o + 1, o + 2).subrange(1, 1) =~= Seq::<u8>::empty());
    }
    *offset = o + 2;
    Ok(v)
}

/// Parse a `u32` from 4 little-endian bytes.
pub fn parse_u32(data: &[u8], offset: &mut usize) -> (r: Result<u32, ParseError>)
    ensures
        match r {
            Ok(v) => *old(offset) + 4 <= data@.len()
                && *final(offset) == *old(offset) + 4
                && v as nat == le_bytes(data@.subrange(*old(offset) as int, *old(offset) + 4)),
            Err(e) => e == ParseError::Insufficient
                && *old(offset) + 4 > data@.len()
                && *final(offset) == *old(offset),
        },
{
    if data.len() < 4 || data.len() - 4 < *offset {
        return Err(ParseError::Insufficient);
    }
    let o = *offset;
    let b0 = data[o] as u32;
    let b1 = data[o + 1] as u32;
    let b2 = data[o + 2] as u32;
    let b3 = data[o + 3] as u32;
    let v = b0 + 256 * (b1 + 256 * (b2 + 256 * b3));
    proof {
        lemma_le_bytes_unfold(data@.subrange(o as int, o + 4));
        assert(data@.subrange(o as int, o + 4).subrange(1, 4) =~= data@.subrange(o + 1, o + 4));
        lemma_le_bytes_unfold(data@.subrange(o + 1, o + 4));
        assert(data@.subrange(o + 1, o + 4).subrange(1, 3) =~= data@.subrange(o + 2, o + 4));
        lemma_le_bytes_unfold(data@.subrange(o + 2, o + 4));
        assert(data@.subrange(o + 2, o + 4).subrange(1, 2) =~= data@.subrange(o + 3, o + 4));
        lemma_le_bytes_unfold(data@.subrange(o + 3, o + 4));
        assert(data@.subrange(o + 3, o + 4).subrange(1, 1) =~= Seq::<u8>::empty());
    }
    *offset = o + 4;
    Ok(v)
}

/// Parse a `u64` from 8 little-endian bytes.
pub fn parse_u64(data: &[u8], offset: &mut usize) -> (r: Result<u64, ParseError>)
    ensures
        match r {
            Ok(v) => *old(offset) + 8 <= data@.len()
                && *final(offset) == *old(offset) + 8
                && v as nat == le_bytes(data@.subrange(*old(offset) as int, *old(offset) + 8)),
            Err(e) => e == ParseError::Insufficient
                && *old(offset) + 8 > data@.len()
                && *final(offset) == *old(offset),
        },
{
    if data.len() < 8 || data.len() - 8 < *offset {
        return Err(ParseError::Insufficient);
    }
    let o = *offset;
    let b0 = data[o] as u64;
    let b1 = data[o + 1] as u64;
    let b2 = data[o + 2] as u64;
    let b3 = data[o + 3] as u64;
    let b4 = data[o + 4] as u64;
    let b5 = data[o + 5] as u64;
    let b6 = data[o + 6] as u64;
    let b7 = data[o + 7] as u64;
    let v = b0 + 256 * (b1 + 256 * (b2 + 256 * (b3 + 256 * (b4 + 256 * (b5 + 256 * (b6 + 256
        * b7))))));
    proof {
        lemma_le_bytes_unfold(data@.subrange(o as int, o + 8));
        assert(data@.subrange(o as int, o + 8).subrange(1, 8) =~= data@.subrange(o + 1, o + 8));
        lemma_le_bytes_unfold(data@.subrange(o + 1, o + 8));
        assert(data@.subrange(o + 1, o + 8).subrange(1, 7) =~= data@.subrange(o + 2, o + 8));
        lemma_le_bytes_unfold(data@.subrange(o + 2, o + 8));
        assert(data@.subrange(o + 2, o + 8).subrange(1, 6) =~= data@.subrange(o + 3, o + 8));
        lemma_le_bytes_unfold(data@.subrange(o + 3, o + 8));
        assert(data@.subrange(o + 3, o + 8).subrange(1, 5) =~= data@.subrange(o + 4, o + 8));
        lemma_le_bytes_unfold(data@.subrange(o + 4, o + 8));
        assert(data@.subrange(o + 4, o + 8).subrange(1, 4) =~= data@.subrange(o + 5, o + 8));
        lemma_le_bytes_unfold(data@.subrange(o + 5, o + 8));
        assert(data@.subrange(o + 5, o + 8).subrange(1, 3) =~= data@.subrange(o + 6, o + 8));
        lemma_le_bytes_unfold(data@.subrange(o + 6, o + 8));
        assert(data@.subrange(o + 6, o + 8).subrange(1, 2) =~= data@.subrange(o + 7, o + 8));
        lemma_le_bytes_unfold(data@.subrange(o + 7, o + 8));
        assert(data@.subrange(o + 7, o + 8).subrange(1, 1) =~= Seq::<u8>::empty());
    }
    *offset = o + 8;
    Ok(v)
}

/// Parse an `i32` from 4 little-endian bytes (two's complement).
pub fn parse_i32(data: &[u8], offset: &mut usize) -> (r: Result<i32, ParseError>)
    ensures
        match r {
            Ok(v) => *old(offset) + 4 <= data@.len()
                && *final(offset) == *old(offset) + 4
                && v as int == le_i32_value(
                    data@.subrange(*old(offset) as int, *old(offset) + 4),
                ),
            Err(e) => e == ParseError::Insufficient
                && *old(offset) + 4 > data@.len()
                && *final(offset) == *old(offset),
        },
{
    let u = parse_u32(data, offset)?;
    let v: i32 = if u < 0x8000_0000 {
        u as i32
    } else {
        ((u as i64) - 0x1_0000_0000) as i32
    };
    Ok(v)
}

/// Parse a `u128` from 16 little-endian bytes.
pub fn parse_u128(data: &[u8], offset: &mut usize) -> (r: Result<u128, ParseError>)
    ensures
        match r {
            Ok(v) => *old(offset) + 16 <= data@.len()
                && *final(offset) == *old(offset) + 16
                && v as nat == le_bytes(data@.subrange(*old(offset) as int, *old(offset) + 16)),
            Err(e) => e == ParseError::Insufficient
                && *old(offset) + 16 > data@.len()
                && *final(offset) == *old(offset),
        },
{
    if data.len() < 16 || data.len() - 16 < *offset {
        return Err(ParseError::Insufficient);
    }
    let ghost o0 = *offset;
    let lo = parse_u64(data, offset).unwrap();
    let hi = parse_u64(data, offset).unwrap();
    let v = lo as u128 + (hi as u128) * 0x1_0000_0000_0000_0000;
    proof {
        reveal_with_fuel(pow256, 9);
        assert(pow256(8) == 0x1_0000_0000_0000_0000);
        lemma_le_bytes_split(data@.subrange(o0 as int, o0 + 16), 8);
        assert(data@.subrange(o0 as int, o0 + 16).subrange(0, 8) =~= data@.subrange(
            o0 as int,
            o0 + 8,
        ));
        assert(data@.subrange(o0 as int, o0 + 16).subrange(8, 16) =~= data@.subrange(
            o0 + 8,
            o0 + 16,
        ));
        assert(le_bytes(data@.subrange(o0 as int, o0 + 16)) == lo as nat + 0x1_0000_0000_0000_0000
            * (hi as nat));
        assert(v as nat == lo as nat + 0x1_0000_0000_0000_0000 * (hi as nat));
    }
    Ok(v)
}

/// Splitting a little-endian window at byte `k` weights the upper part by `256^k`.
pub proof fn lemma_le_bytes_split(b: Seq<u8>, k: int)
    requires
        0 <= k <= b.len(),
    ensures
        le_bytes(b) == le_bytes(b.subrange(0, k)) + pow256(k as nat) * le_bytes(
            b.subrange(k, b.len() as int),
        ),
    decreases k,
{
    if k == 0 {
        assert(b.subrange(0, 0) =~= Seq::<u8>::empty());
        assert(b.subrange(0, b.len() as int) =~= b);
        assert(le_bytes(b.subrange(0, 0)) == 0);
        assert(pow256(0) == 1);
        assert(le_bytes(b) == le_bytes(b.subrange(0, k)) + pow256(k as nat) * le_bytes(
            b.subrange(k, b.len() as int),
        )) by (nonlinear_arith)
            requires
                le_bytes(b.subrange(0, k)) == 0,
                pow256(k as nat) == 1,
                b.subrange(k, b.len() as int) =~= b,
        ;
    } else {
        let tail = b.subrange(1, b.len() as int);
        let low = b.subrange(0, k);
        let high = b.subrange(k, b.len() as int);
        lemma_le_bytes_unfold(b);
        lemma_le_bytes_split(tail, k - 1);
        assert(tail.subrange(0, k - 1) =~= low.subrange(1, k));
        assert(tail.subrange(k - 1, tail.len() as int) =~= high);
        lemma_le_bytes_unfold(low);
        assert(le_bytes(b) == b[0] + 256 * (le_bytes(low.subrange(1, k)) + pow256((k - 1) as nat)
            * le_bytes(high)));
        assert(256 * (le_bytes(low.subrange(1, k)) + pow256((k - 1) as nat) * le_bytes(high)) == 256
            * le_bytes(low.subrange(1, k)) + 256 * (pow256((k - 1) as nat) * le_bytes(high)));
        assert(256 * (pow256((k - 1) as nat) * le_bytes(high)) == pow256(k as nat) * le_bytes(high))
            by (nonlinear_arith)
            requires
                pow256(k as nat) == 256 * pow256((k - 1) as nat),
        ;
        assert(le_bytes(low) == b[0] + 256 * le_bytes(low.subrange(1, k)));
        assert(le_bytes(b) == le_bytes(low) + pow256(k as nat) * le_bytes(high));
    }
}

/// `256^n`.
pub open spec fn pow256(n: nat) -> nat
    decreases n,
{
    if n == 0 {
        1
    } else {
        256 * pow256((n - 1) as nat)
    }
}

/// Copy `n` bytes of `data` starting at `start` into a fresh vector.
pub fn copy_range(data: &[u8], start: usize, n: usize) -> (r: Vec<u8>)
    requires
        start + n <= data@.len(),
    ensures
        r@ == data@.subrange(start as int, start + n),
{
    let len = data.len();
    let mut out: Vec<u8> = Vec::new();
    let mut i: usize = 0;
    while i < n
        invariant
            len == data@.len(),
            start + n <= len,
            i <= n,
            out@ =~= data@.subrange(start as int, start + i),
        decreases n - i,
    {
        out.push(data[start + i]);
        assert(out@ =~= data@.subrange(start as int, start + i + 1));
        i = i + 1;
    }
    proof {
        assert(out@ =~= data@.subrange(start as int, start + n));
    }
    out
}

/// Whether `data` begins with the bytes of `prefix`.
pub fn starts_with(data: &[u8], prefix: &Vec<u8>) -> (r: bool)
    ensures
        r == (data@.len() >= prefix@.len() && data@.subrange(0, prefix@.len() as int) == prefix@),
{
    let m = prefix.len();
    if data.len() < m {
        return false;
    }
    let mut i: usize = 0;
    while i < m
        invariant
            m == prefix@.len(),
            m <= data@.len(),
            i <= m,
            forall|j: int| 0 <= j < i ==> data@[j] == prefix@[j],
        decreases m - i,
    {
        if data[i] != prefix[i] {
            proof {
                assert(data@.subrange(0, m as int)[i as int] != prefix@[i as int]);
            }
            return false;
        }
        i = i + 1;
    }
    proof {
        assert(data@.subrange(0, m as int) =~= prefix@);
    }
    true
}

/// Relies on `String::from_utf8`: it succeeds exactly on valid UTF-8 input and
/// the returned string holds that input's decoding.
#[verifier::external_body]
pub fn string_from_utf8(bytes: Vec<u8>) -> (r: Option<String>)
    ensures
        r is Some <==> valid_utf8(bytes@),
        r matches Some(s) ==> s@ == decode_utf8(bytes@),
{
    String::from_utf8(bytes).ok()
}

/// What parsing a length-prefixed UTF-8 string at `o` yields: a `u32`
/// little-endian byte count, then that many bytes of UTF-8.
pub open spec fn sp_parse_string(data: Seq<u8>, o: nat) -> Result<(Seq<char>, nat), ParseError> {
    if o + 4 > data.len() {
        Err(ParseError::Insufficient)
    } else {
        let n = le_bytes(data.subrange(o as int, o as int + 4));
        if o + 4 + n > data.len() {
            Err(ParseError::Insufficient)
        } else {
            let chunk = data.subrange(o as int + 4, o as int + 4 + n);
            if valid_utf8(chunk) {
                Ok((decode_utf8(chunk), o + 4 + n))
            } else {
                Err(ParseError::InvalidUtf8)
            }
        }
    }
}

/// Parse a string: `u32` little-endian length, then that many UTF-8 bytes.
pub fn parse_string(data: &[u8], offset: &mut usize) -> (r: Result<String, ParseError>)
    ensures
        match r {
            Ok(s) => sp_parse_string(data@, *old(offset) as nat) matches Ok(p) && s@ == p.0
                && *final(offset) == p.1,
            Err(e) => sp_parse_string(data@, *old(offset) as nat) == Err::<(Seq<char>, nat),
                ParseError,
            >(e) && *final(offset) == *old(offset),
        },
{
    let mut cursor: usize = *offset;
    let len32 = match parse_u32(data, &mut cursor) {
        Ok(v) => v,
        Err(e) => {
            return Err(e);
        },
    };
    let str_len = len32 as usize;
    if data.len() - cursor < str_len {
        return Err(ParseError::Insufficient);
    }
    let chunk = copy_range(data, cursor, str_len);
    match string_from_utf8(chunk) {
        Some(s) => {
            *offset = cursor + str_len;
            Ok(s)
        },
        None => Err(ParseError::InvalidUtf8),
    }
}

/// What parsing an optional `u64` at `o` yields: a one-byte tag, `0` for
/// nothing, `1` followed by 8 little-endian bytes for a value.
pub open spec fn sp_parse_option_u64(data: Seq<u8>, o: nat) -> Result<
    (Option<u64>, nat),
    ParseError,
> {
    if o + 1 > data.len() {
        Err(ParseError::Insufficient)
    } else if data[o as int] == 0 {
        Ok((None, o + 1))
    } else if data[o as int] == 1 {
        if o + 9 > data.len() {
            Err(ParseError::Insufficient)
        } else {
            Ok((Some(le_bytes(data.subrange(o as int + 1, o as int + 9)) as u64), o + 9))
        }
    } else {
        Err(ParseError::InvalidDiscriminant)
    }
}

/// Parse an optional `u64`: tag byte `0` means absent, `1` means a `u64`
/// follows; any other tag is rejected.
pub fn parse_option_u64(data: &[u8], offset: &mut usize) -> (r: Result<Option<u64>, ParseError>)
    ensures
        match r {
            Ok(v) => sp_parse_option_u64(data@, *old(offset) as nat) matches Ok(p) && v == p.0
                && *final(offset) == p.1,
            Err(e) => sp_parse_option_u64(data@, *old(offset) as nat) == Err::<(Option<u64>, nat),
                ParseError,
            >(e) && *final(offset) == *old(offset),
        },
{
    let mut cursor: usize = *offset;
    let tag = match parse_u8(data, &mut cursor) {
        Ok(v) => v,
        Err(e) => {
            return Err(e);
        },
    };
    match tag {
        0 => {
            *offset = cursor;
            Ok(None)
        },
        1 => {
            let v = match parse_u64(data, &mut cursor) {
                Ok(v) => v,
                Err(e) => {
                    return Err(e);
                },
            };
            proof {
                assert(le_bytes(data@.subrange(*old(offset) + 1, *old(offset) + 9)) == v as nat);
            }
            *offset = cursor;
            Ok(Some(v))
        },
        _ => Err(ParseError::InvalidDiscriminant),
    }
}

/// Parse a 32-byte on-chain address.
pub fn parse_pubkey(data: &[u8], offset: &mut usize) -> (r: Result<crate::Pubkey, ParseError>)
    ensures
        match r {
            Ok(k) => *old(offset) + 32 <= data@.len()
                && *final(offset) == *old(offset) + 32
                && k@ == data@.subrange(*old(offset) as int, *old(offset) + 32),
            Err(e) => e == ParseError::Insufficient
                && *old(offset) + 32 > data@.len()
                && *final(offset) == *old(offset),
        },
{
    if data.len() < 32 || data.len() - 32 < *offset {
        return Err(ParseError::Insufficient);
    }
    let k = copy_range(data, *offset, 32);
    *offset = *offset + 32;
    Ok(k)
}

/// Parse a counted list: a `u32` little-endian element count, then that many
/// elements, each read by `element_parser` from the offset where the previous
/// element ended.  `element_parser` takes a cursor and returns the parsed
/// element with the cursor past it.
pub fn parse_vec<T, F: Fn(&[u8], usize) -> Result<(T, usize), ParseError>>(
    data: &[u8],
    offset: &mut usize,
    element_parser: F,
) -> (r: Result<Vec<T>, ParseError>)
    requires
        forall|o: usize| #[trigger] call_requires(element_parser, (data, o)),
    ensures
        r matches Ok(v) ==> {
            &&& *old(offset) + 4 <= data@.len()
            &&& v@.len() == le_bytes(data@.subrange(*old(offset) as int, *old(offset) + 4))
            &&& exists|offs: Seq<usize>|
                {
                    &&& offs.len() == v@.len() + 1
                    &&& offs[0] == *old(offset) + 4
                    &&& *final(offset) == offs[v@.len() as int]
                    &&& forall|i: int|
                        0 <= i < v@.len() ==> #[trigger] call_ensures(
                            element_parser,
                            (data, offs[i]),
                            Ok((v@[i], offs[i + 1])),
                        )
                }
        },
        r is Err ==> *final(offset) == *old(offset),
{
    let mut cursor: usize = *offset;
    let count32 = match parse_u32(data, &mut cursor) {
        Ok(v) => v,
        Err(e) => {
            return Err(e);
        },
    };
    let count = count32 as usize;
    let mut out: Vec<T> = Vec::new();
    let ghost mut offs: Seq<usize> = seq![cursor];
    let mut i: usize = 0;
    while i < count
        invariant
            forall|o: usize| #[trigger] call_requires(element_parser, (data, o)),
            i <= count,
            out@.len() == i,
            offs.len() == i + 1,
            offs[0] == *old(offset) + 4,
            cursor == offs[i as int],
            forall|j: int|
                0 <= j < i ==> #[trigger] call_ensures(
                    element_parser,
                    (data, offs[j]),
                    Ok((out@[j], offs[j + 1])),
                ),
        decreases count - i,
    {
        match element_parser(data, cursor) {
            Ok((t, next)) => {
                out.push(t);
                cursor = next;
                proof {
                    offs = offs.push(next);
                }
            },
            Err(e) => {
                return Err(e);
            },
        }
        i = i + 1;
    }
    *offset = cursor;
    Ok(out)
}

/// Parse a counted list of `u64` values.
pub fn parse_vec_u64(data: &[u8], offset: &mut usize) -> (r: Result<Vec<u64>, ParseError>)
    ensures
        match r {
            Ok(v) => {
                let o = *old(offset) as int;
                let n = le_bytes(data@.subrange(o, o + 4)) as int;
                &&& *old(offset) + 4 + 8 * n <= data@.len()
                &&& v@.len() == n
                &&& *final(offset) == o + 4 + 8 * n
                &&& forall|i: int|
                    0 <= i < n ==> #[trigger] v@[i] as nat == le_bytes(
                        data@.subrange(o + 4 + 8 * i, o + 4 + 8 * i + 8),
                    )
            },
            Err(e) => {
                let o = *old(offset) as int;
                &&& e == ParseError::Insufficient
                &&& *final(offset) == *old(offset)
                &&& (o + 4 > data@.len() || o + 4 + 8 * le_bytes(data@.subrange(o, o + 4))
                    > data@.len())
            },
        },
{
    let mut cursor: usize = *offset;
    let count32 = match parse_u32(data, &mut cursor) {
        Ok(v) => v,
        Err(e) => {
            return Err(e);
        },
    };
    let count = count32 as usize;
    let mut out: Vec<u64> = Vec::new();
    let mut i: usize = 0;
    while i < count
        invariant
            *old(offset) + 4 <= data@.len(),
            count == le_bytes(data@.subrange(*old(offset) as int, *old(offset) + 4)),
            i <= count,
            out@.len() == i,
            cursor == *old(offset) + 4 + 8 * i,
            cursor <= data@.len(),
            forall|j: int|
                0 <= j < i ==> #[trigger] out@[j] as nat == le_bytes(
                    data@.subrange(
                        *old(offset) + 4 + 8 * j,
                        *old(offset) + 4 + 8 * j + 8,
                    ),
                ),
        decreases count - i,
    {
        match parse_u64(data, &mut cursor) {
            Ok(v) => {
                out.push(v);
            },
            Err(_) => {
                proof {
                    assert(*old(offset) + 4 + 8 * count >= cursor + 8);
                }
                return Err(ParseError::Insufficient);
            },
        }
        i = i + 1;
    }
    *offset = cursor;
    Ok(out)
}

/// Parse a counted list of `u32` values.
pub fn parse_vec_u32(data: &[u8], offset: &mut usize) -> (r: Result<Vec<u32>, ParseError>)
    ensures
        match r {
            Ok(v) => {
                let o = *old(offset) as int;
                let n = le_bytes(data@.subrange(o, o + 4)) as int;
                &&& *old(offset) + 4 + 4 * n <= data@.len()
                &&& v@.len() == n
                &&& *final(offset) == o + 4 + 4 * n
                &&& forall|i: int|
                    0 <= i < n ==> #[trigger] v@[i] as nat == le_bytes(
                        data@.subrange(o + 4 + 4 * i, o + 4 + 4 * i + 4),
                    )
            },
            Err(e) => {
                let o = *old(offset) as int;
                &&& e == ParseError::Insufficient
                &&& *final(offset) == *old(offset)
                &&& (o + 4 > data@.len() || o + 4 + 4 * le_bytes(data@.subrange(o, o + 4))
                    > data@.len())
            },
        },
{
    let mut cursor: usize = *offset;
    let count32 = match parse_u32(data, &mut cursor) {
        Ok(v) => v,
        Err(e) => {
            return Err(e);
        },
    };
    let count = count32 as usize;
    let mut out: Vec<u32> = Vec::new();
    let mut i: usize = 0;
    while i < count
        invariant
            *old(offset) + 4 <= data@.len(),
            count == le_bytes(data@.subrange(*old(offset) as int, *old(offset) + 4)),
            i <= count,
            out@.len() == i,
            cursor == *old(offset) + 4 + 4 * i,
            cursor <= data@.len(),
            forall|j: int|
                0 <= j < i ==> #[trigger] out@[j] as nat == le_bytes(
                    data@.subrange(
                        *old(offset) + 4 + 4 * j,
                        *old(offset) + 4 + 4 * j + 4,
                    ),
                ),
        decreases count - i,
    {
        match parse_u32(data, &mut cursor) {
            Ok(v) => {
                out.push(v);
            },
            Err(_) => {
                proof {
                    assert(*old(offset) + 4 + 4 * count >= cursor + 4);
                }
                return Err(ParseError::Insufficient);
            },
        }
        i = i + 1;
    }
    *offset = cursor;
    Ok(out)
}

/// Parse a counted list of `u16` values.
pub fn parse_vec_u16(data: &[u8], offset: &mut usize) -> (r: Result<Vec<u16>, ParseError>)
    ensures
        match r {
            Ok(v) => {
                let o = *old(offset) as int;
                let n = le_bytes(data@.subrange(o, o + 4)) as int;
                &&& *old(offset) + 4 + 2 * n <= data@.len()
                &&& v@.len() == n
                &&& *final(offset) == o + 4 + 2 * n
                &&& forall|i: int|
                    0 <= i < n ==> #[trigger] v@[i] as nat == le_bytes(
                        data@.subrange(o + 4 + 2 * i, o + 4 + 2 * i + 2),
                    )
            },
            Err(e) => {
                let o = *old(offset) as int;
                &&& e == ParseError::Insufficient
                &&& *final(offset) == *old(offset)
                &&& (o + 4 > data@.len() || o + 4 + 2 * le_bytes(data@.subrange(o, o + 4))
                    > data@.len())
            },
        },
{
    let mut cursor: usize = *offset;
    let count32 = match parse_u32(data, &mut cursor) {
        Ok(v) => v,
        Err(e) => {
            return Err(e);
        },
    };
    let count = count32 as usize;
    let mut out: Vec<u16> = Vec::new();
    let mut i: usize = 0;
    while i < count
        invariant
            *old(offset) + 4 <= data@.len(),
            count == le_bytes(data@.subrange(*old(offset) as int, *old(offset) + 4)),
            i <= count,
            out@.len() == i,
            cursor == *old(offset) + 4 + 2 * i,
            cursor <= data@.len(),
            forall|j: int|
                0 <= j < i ==> #[trigger] out@[j] as nat == le_bytes(
                    data@.subrange(
                        *old(offset) + 4 + 2 * j,
                        *old(offset) + 4 + 2 * j + 2,
                    ),
                ),
        decreases count - i,
    {
        match parse_u16(data, &mut cursor) {
            Ok(v) => {
                out.push(v);
            },
            Err(_) => {
                proof {
                    assert(*old(offset) + 4 + 2 * count >= cursor + 2);
                }
                return Err(ParseError::Insufficient);
            },
        }
        i = i + 1;
    }
    *offset = cursor;
    Ok(out)
}

/// Parse a counted list of raw bytes.
pub fn parse_vec_u8(data: &[u8], offset: &mut usize) -> (r: Result<Vec<u8>, ParseError>)
    ensures
        match r {
            Ok(v) => {
                let o = *old(offset) as int;
                let n = le_bytes(data@.subrange(o, o + 4)) as int;
                &&& *old(offset) + 4 + n <= data@.len()
                &&& v@ == data@.subrange(o + 4, o + 4 + n)
                &&& *final(offset) == o + 4 + n
            },
            Err(e) => {
                let o = *old(offset) as int;
                &&& e == ParseError::Insufficient
                &&& *final(offset) == *old(offset)
                &&& (o + 4 > data@.len() || o + 4 + le_bytes(data@.subrange(o, o + 4))
                    > data@.len())
            },
        },
{
    let mut cursor: usize = *offset;
    let count32 = match parse_u32(data, &mut cursor) {
        Ok(v) => v,
        Err(e) => {
            return Err(e);
        },
    };
    let count = count32 as usize;
    if data.len() - cursor < count {
        return Err(ParseError::Insufficient);
    }
    let out = copy_range(data, cursor, count);
    *offset = cursor + count;
    Ok(out)
}

/// What parsing `n` consecutive length-prefixed strings at `o` yields.
pub open spec fn sp_parse_strings(data: Seq<u8>, o: nat, n: nat) -> Result<
    (Seq<Seq<char>>, nat),
    ParseError,
>
    decreases n,
{
    if n == 0 {
        Ok((Seq::empty(), o))
    } else {
        match sp_parse_string(data, o) {
            Ok((s, o2)) => match sp_parse_strings(data, o2, (n - 1) as nat) {
                Ok((rest, o3)) => Ok((seq![s] + rest, o3)),
                Err(e) => Err(e),
            },
            Err(e) => Err(e),
        }
    }
}

/// Parse a counted list of length-prefixed strings.
pub fn parse_vec_string(data: &[u8], offset: &mut usize) -> (r: Result<Vec<String>, ParseError>)
    ensures
        ({
            let o = *old(offset) as nat;
            match r {
                Ok(v) => o + 4 <= data@.len() && (sp_parse_strings(
                    data@,
                    o + 4,
                    le_bytes(data@.subrange(o as int, o as int + 4)),
                ) matches Ok(p) && v@.map_values(|s: String| s@) == p.0 && *final(offset) == p.1),
                Err(e) => *final(offset) == *old(offset) && (o + 4 > data@.len()
                    || sp_parse_strings(
                    data@,
                    o + 4,
                    le_bytes(data@.subrange(o as int, o as int + 4)),
                ) == Err::<(Seq<Seq<char>>, nat), ParseError>(e)),
            }
        }),
{
    let mut cursor: usize = *offset;
    let count32 = match parse_u32(data, &mut cursor) {
        Ok(v) => v,
        Err(e) => {
            return Err(e);
        },
    };
    let count = count32 as usize;
    let mut out: Vec<String> = Vec::new();
    let mut i: usize = 0;
    while i < count
        invariant
            *old(offset) + 4 <= data@.len(),
            count == le_bytes(data@.subrange(*old(offset) as int, *old(offset) + 4)),
            i <= count,
            out@.len() == i,
            match sp_parse_strings(data@, cursor as nat, (count - i) as nat) {
                Ok((rest, o3)) => sp_parse_strings(data@, *old(offset) as nat + 4, count as nat)
                    == Ok::<(Seq<Seq<char>>, nat), ParseError>((
                    out@.map_values(|s: String| s@) + rest,
                    o3,
                )),
                Err(e) => sp_parse_strings(data@, *old(offset) as nat + 4, count as nat) == Err::<
                    (Seq<Seq<char>>, nat),
                    ParseError,
                >(e),
            },
        decreases count - i,
    {
        let ghost pre = out@.map_values(|s: String| s@);
        let ghost cur0 = cursor as nat;
        match parse_string(data, &mut cursor) {
            Ok(s) => {
                out.push(s);
                proof {
                    assert(out@.map_values(|s: String| s@) =~= pre + seq![s@]);
                    if let Ok((rest, o3)) = sp_parse_strings(
                        data@,
                        cursor as nat,
                        (count - i - 1) as nat,
                    ) {
                        assert((pre + seq![s@]) + rest =~= pre + (seq![s@] + rest));
                    }
                }
            },
            Err(e) => {
                return Err(e);
            },
        }
        i = i + 1;
    }
    *offset = cursor;
    proof {
        assert(sp_parse_strings(data@, cursor as nat, 0) == Ok::<
            (Seq<Seq<char>>, nat),
            ParseError,
        >((Seq::<Seq<char>>::empty(), cursor as nat)));
        assert(out@.map_values(|s: String| s@) + Seq::<Seq<char>>::empty() =~= out@.map_values(
            |s: String| s@,
        ));
    }
    Ok(out)
}

/// Parse a counted list of 32-byte addresses.
pub fn parse_vec_pubkey(data: &[u8], offset: &mut usize) -> (r: Result<
    Vec<crate::Pubkey>,
    ParseError,
>)
    ensures
        match r {
            Ok(v) => {
                let o = *old(offset) as int;
                let n = le_bytes(data@.subrange(o, o + 4)) as int;
                &&& *old(offset) + 4 + 32 * n <= data@.len()
                &&& v@.len() == n
                &&& *final(offset) == o + 4 + 32 * n
                &&& forall|i: int|
                    0 <= i < n ==> #[trigger] v@[i]@ == data@.subrange(
                        o + 4 + 32 * i,
                        o + 4 + 32 * i + 32,
                    )
            },
            Err(e) => {
                let o = *old(offset) as int;
                &&& e == ParseError::Insufficient
                &&& *final(offset) == *old(offset)
                &&& (o + 4 > data@.len() || o + 4 + 32 * le_bytes(data@.subrange(o, o + 4))
                    > data@.len())
            },
        },
{
    let mut cursor: usize = *offset;
    let count32 = match parse_u32(data, &mut cursor) {
        Ok(v) => v,
        Err(e) => {
            return Err(e);
        },
    };
    let count = count32 as usize;
    let mut out: Vec<crate::Pubkey> = Vec::new();
    let mut i: usize = 0;
    while i < count
        invariant
            *old(offset) + 4 <= data@.len(),
            count == le_bytes(data@.subrange(*old(offset) as int, *old(offset) + 4)),
            i <= count,
            out@.len() == i,
            cursor == *old(offset) + 4 + 32 * i,
            cursor <= data@.len(),
            forall|j: int|
                0 <= j < i ==> #[trigger] out@[j]@ == data@.subrange(
                    *old(offset) + 4 + 32 * j,
                    *old(offset) + 4 + 32 * j + 32,
                ),
        decreases count - i,
    {
        match parse_pubkey(data, &mut cursor) {
            Ok(k) => {
                out.push(k);
            },
            Err(_) => {
                proof {
                    assert(*old(offset) + 4 + 32 * count >= cursor + 32);
                }
                return Err(ParseError::Insufficient);
            },
        }
        i = i + 1;
    }
    *offset = cursor;
    Ok(out)
}

} // verus!
