//! The entry wire format: a reconstructed block payload is a counted list
//! of entries, each carrying a hash count, a 32-byte hash, and a counted
//! list of versioned transactions.  Transactions use the compact-u16
//! ("short-vec") count encoding for their variable-length lists; a v0
//! message is marked by a version byte with the high bit set.  Counts are
//! 8-byte little-endian; everything is tightly packed.

use vstd::prelude::*;
use crate::bytes::{le_bytes, ParseError, copy_range};
use crate::txn::{
    MessageHeader, CompiledInstruction, MessageAddressTableLookup, VersionedTransaction,
};

verus! {

/// One ledger entry: a proof-of-history hash count and hash, and the
/// transactions recorded under it.
#[derive(Clone, Debug)]
pub struct Entry {
    pub num_hashes: u64,
    pub hash: Vec<u8>,
    pub transactions: Vec<VersionedTransaction>,
}

/// The most transactions one entry, or entries one payload, may declare;
/// larger counts are rejected as malformed rather than allocated.
pub const MAX_WIRE_COUNT: u64 = 0x0010_0000;

/// What parsing a compact-u16 count at `o` yields: up to three bytes, seven
/// value bits each, least significant group first.  A third byte above 3
/// overflows, a continuation on the third byte runs too long, and a
/// redundant zero continuation byte is rejected.
pub open spec fn sp_parse_short_u16(d: Seq<u8>, o: nat) -> Result<(u16, nat), ParseError> {
    if o + 1 > d.len() {
        Err(ParseError::Insufficient)
    } else if d[o as int] & 0x80 == 0 {
        Ok(((d[o as int] & 0x7f) as u16, o + 1))
    } else if o + 2 > d.len() {
        Err(ParseError::Insufficient)
    } else if d[o as int + 1] == 0 {
        Err(ParseError::InvalidDiscriminant)
    } else if d[o as int + 1] & 0x80 == 0 {
        Ok(
            (
                ((d[o as int] & 0x7f) as u16 + (d[o as int + 1] & 0x7f) as u16 * 0x80) as u16,
                o + 2,
            ),
        )
    } else if o + 3 > d.len() {
        Err(ParseError::Insufficient)
    } else if d[o as int + 2] == 0 || d[o as int + 2] > 3 {
        Err(ParseError::InvalidDiscriminant)
    } else {
        Ok(
            (
                ((d[o as int] & 0x7f) as u16 + (d[o as int + 1] & 0x7f) as u16 * 0x80 + d[
                    o as int + 2
                ] as u16 * 0x4000) as u16,
                o + 3,
            ),
        )
    }
}

/// Parse a compact-u16 count.
pub fn parse_short_u16(data: &[u8], offset: &mut usize) -> (r: Result<u16, ParseError>)
    ensures
        match r {
            Ok(v) => sp_parse_short_u16(data@, *old(offset) as nat) matches Ok(p) && v == p.0
                && p.1 == *final(offset),
            Err(e) => sp_parse_short_u16(data@, *old(offset) as nat) == Err::<
                (u16, nat),
                ParseError,
            >(e) && *old(offset) == *final(offset),
        },
{
    let o = *offset;
    if data.len() < 1 || data.len() - 1 < o {
        return Err(ParseError::Insufficient);
    }
    let b0 = data[o];
    if b0 & 0x80 == 0 {
        *offset = o + 1;
        return Ok((b0 & 0x7f) as u16);
    }
    if data.len() < 2 || data.len() - 2 < o {
        return Err(ParseError::Insufficient);
    }
    let b1 = data[o + 1];
    if b1 == 0 {
        return Err(ParseError::InvalidDiscriminant);
    }
    if b1 & 0x80 == 0 {
        let v = (b0 & 0x7f) as u16 + (b1 & 0x7f) as u16 * 0x80;
        proof {
            assert((b0 & 0x7f) < 0x80 && (b1 & 0x7f) < 0x80) by (bit_vector);
        }
        *offset = o + 2;
        return Ok(v);
    }
    if data.len() < 3 || data.len() - 3 < o {
        return Err(ParseError::Insufficient);
    }
    let b2 = data[o + 2];
    if b2 == 0 || b2 > 3 {
        return Err(ParseError::InvalidDiscriminant);
    }
    proof {
        assert((b0 & 0x7f) < 0x80 && (b1 & 0x7f) < 0x80) by (bit_vector);
    }
    let v = (b0 & 0x7f) as u16 + (b1 & 0x7f) as u16 * 0x80 + b2 as u16 * 0x4000;
    *offset = o + 3;
    Ok(v)
}

/// What parsing a compact-u16-counted list of `width`-byte blocks at `o`
/// yields.
pub open spec fn sp_parse_blocks(d: Seq<u8>, o: nat, width: nat) -> Result<
    (Seq<Seq<u8>>, nat),
    ParseError,
> {
    match sp_parse_short_u16(d, o) {
        Ok((n, o2)) => if o2 + width * (n as nat) <= d.len() {
            Ok(
                (
                    Seq::new(n as nat, |i: int| d.subrange(o2 + width * i, o2 + width * i + width)),
                    o2 + width * (n as nat),
                ),
            )
        } else {
            Err(ParseError::Insufficient)
        },
        Err(e) => Err(e),
    }
}

/// Parse a compact-u16-counted list of fixed-size byte blocks.
fn parse_short_vec_blocks(data: &[u8], offset: &mut usize, width: usize) -> (r: Result<
    Vec<Vec<u8>>,
    ParseError,
>)
    requires
        1 <= width <= 64,
    ensures
        match r {
            Ok(v) => sp_parse_blocks(data@, *old(offset) as nat, width as nat) matches Ok(p)
                && v@.map_values(|b: Vec<u8>| b@) == p.0 && p.1 == *final(offset),
            Err(e) => sp_parse_blocks(data@, *old(offset) as nat, width as nat) == Err::<
                (Seq<Seq<u8>>, nat),
                ParseError,
            >(e) && *old(offset) == *final(offset),
        },
{
    let mut cursor: usize = *offset;
    let count16 = match parse_short_u16(data, &mut cursor) {
        Ok(v) => v,
        Err(e) => {
            return Err(e);
        },
    };
    let count = count16 as usize;
    let ghost o2 = cursor as nat;
    let mut out: Vec<Vec<u8>> = Vec::new();
    let mut i: usize = 0;
    while i < count
        invariant
            1 <= width <= 64,
            i <= count,
            count == count16 as int,
            sp_parse_short_u16(data@, *old(offset) as nat) == Ok::<(u16, nat), ParseError>(
                (count16, o2),
            ),
            *offset == *old(offset),
            cursor == o2 + width * i,
            cursor <= data@.len(),
            out@.len() == i,
            forall|j: int|
                0 <= j < i ==> (#[trigger] out@[j])@ == data@.subrange(
                    o2 + width * j,
                    o2 + width * j + width,
                ),
        decreases count - i,
    {
        if data.len() < width || data.len() - width < cursor {
            proof {
                assert(o2 + width * count >= cursor + width) by (nonlinear_arith)
                    requires
                        cursor == o2 + width * i,
                        i < count,
                        width >= 1,
                ;
            }
            return Err(ParseError::Insufficient);
        }
        out.push(copy_range(data, cursor, width));
        cursor = cursor + width;
        proof {
            assert(width * (i + 1) == width * i + width) by (nonlinear_arith);
        }
        i = i + 1;
    }
    *offset = cursor;
    proof {
        if let Ok((blocks, oend)) = sp_parse_blocks(data@, *old(offset) as nat, width as nat) {
            assert(out@.map_values(|b: Vec<u8>| b@) =~= blocks);
        }
    }
    Ok(out)
}

/// What parsing a compact-u16-counted byte list at `o` yields.
pub open spec fn sp_parse_svbytes(d: Seq<u8>, o: nat) -> Result<(Seq<u8>, nat), ParseError> {
    match sp_parse_short_u16(d, o) {
        Ok((n, o2)) => if o2 + n <= d.len() {
            Ok((d.subrange(o2 as int, o2 as int + n), o2 + (n as nat)))
        } else {
            Err(ParseError::Insufficient)
        },
        Err(e) => Err(e),
    }
}

/// Parse a compact-u16-counted list of raw bytes.
fn parse_short_vec_bytes(data: &[u8], offset: &mut usize) -> (r: Result<Vec<u8>, ParseError>)
    ensures
        match r {
            Ok(v) => sp_parse_svbytes(data@, *old(offset) as nat) matches Ok(p) && v@ == p.0 && p.1
                == *final(offset),
            Err(e) => sp_parse_svbytes(data@, *old(offset) as nat) == Err::<
                (Seq<u8>, nat),
                ParseError,
            >(e) && *old(offset) == *final(offset),
        },
{
    let mut cursor: usize = *offset;
    let count16 = match parse_short_u16(data, &mut cursor) {
        Ok(v) => v,
        Err(e) => {
            return Err(e);
        },
    };
    let count = count16 as usize;
    if data.len() < count || data.len() - count < cursor {
        return Err(ParseError::Insufficient);
    }
    let out = copy_range(data, cursor, count);
    *offset = cursor + count;
    Ok(out)
}

/// What parsing one compiled instruction at `o` yields: a program index
/// byte, the account index list and the data bytes, both compact-u16
/// counted.
pub open spec fn sp_parse_instruction(d: Seq<u8>, o: nat) -> Result<
    ((u8, Seq<u8>, Seq<u8>), nat),
    ParseError,
> {
    if o + 1 > d.len() {
        Err(ParseError::Insufficient)
    } else {
        match sp_parse_svbytes(d, o + 1) {
            Ok((accounts, o2)) => match sp_parse_svbytes(d, o2) {
                Ok((ix_data, o3)) => Ok(((d[o as int], accounts, ix_data), o3)),
                Err(e) => Err(e),
            },
            Err(e) => Err(e),
        }
    }
}

/// The relation between a parsed instruction and its wire fields.
pub open spec fn sp_instruction_matches(ix: CompiledInstruction, v: (u8, Seq<u8>, Seq<u8>)) -> bool {
    ix.program_id_index == v.0 && ix.accounts@ == v.1 && ix.data@ == v.2
}

/// Parse one compiled instruction.
fn parse_compiled_instruction(data: &[u8], offset: &mut usize) -> (r: Result<
    CompiledInstruction,
    ParseError,
>)
    ensures
        match r {
            Ok(ix) => sp_parse_instruction(data@, *old(offset) as nat) matches Ok(p)
                && sp_instruction_matches(ix, p.0) && p.1 == *final(offset),
            Err(e) => sp_parse_instruction(data@, *old(offset) as nat) == Err::<
                ((u8, Seq<u8>, Seq<u8>), nat),
                ParseError,
            >(e) && *old(offset) == *final(offset),
        },
{
    let mut cursor: usize = *offset;
    let program_id_index = match crate::bytes::parse_u8(data, &mut cursor) {
        Ok(v) => v,
        Err(e) => {
            return Err(e);
        },
    };
    let accounts = match parse_short_vec_bytes(data, &mut cursor) {
        Ok(v) => v,
        Err(e) => {
            return Err(e);
        },
    };
    let ix_data = match parse_short_vec_bytes(data, &mut cursor) {
        Ok(v) => v,
        Err(e) => {
            return Err(e);
        },
    };
    *offset = cursor;
    Ok(CompiledInstruction { program_id_index, accounts, data: ix_data })
}

/// What parsing `n` consecutive compiled instructions at `o` yields.
pub open spec fn sp_parse_instructions(d: Seq<u8>, o: nat, n: nat) -> Result<
    (Seq<(u8, Seq<u8>, Seq<u8>)>, nat),
    ParseError,
>
    decreases n,
{
    if n == 0 {
        Ok((Seq::empty(), o))
    } else {
        match sp_parse_instruction(d, o) {
            Ok((ix, o2)) => match sp_parse_instructions(d, o2, (n - 1) as nat) {
                Ok((rest, o3)) => Ok((seq![ix] + rest, o3)),
                Err(e) => Err(e),
            },
            Err(e) => Err(e),
        }
    }
}

/// What parsing one address-table lookup at `o` yields: a 32-byte table key
/// and the writable and readonly index lists.
pub open spec fn sp_parse_lookup(d: Seq<u8>, o: nat) -> Result<
    ((Seq<u8>, Seq<u8>, Seq<u8>), nat),
    ParseError,
> {
    if o + 32 > d.len() {
        Err(ParseError::Insufficient)
    } else {
        match sp_parse_svbytes(d, o + 32) {
            Ok((writable, o2)) => match sp_parse_svbytes(d, o2) {
                Ok((readonly, o3)) => Ok(
                    ((d.subrange(o as int, o as int + 32), writable, readonly), o3),
                ),
                Err(e) => Err(e),
            },
            Err(e) => Err(e),
        }
    }
}

/// The relation between a parsed lookup and its wire fields.
pub open spec fn sp_lookup_matches(
    lk: MessageAddressTableLookup,
    v: (Seq<u8>, Seq<u8>, Seq<u8>),
) -> bool {
    lk.account_key@ == v.0 && lk.writable_indexes@ == v.1 && lk.readonly_indexes@ == v.2
}

/// Parse one address-table lookup.
fn parse_address_table_lookup(data: &[u8], offset: &mut usize) -> (r: Result<
    MessageAddressTableLookup,
    ParseError,
>)
    ensures
        match r {
            Ok(lk) => sp_parse_lookup(data@, *old(offset) as nat) matches Ok(p)
                && sp_lookup_matches(lk, p.0) && p.1 == *final(offset),
            Err(e) => sp_parse_lookup(data@, *old(offset) as nat) == Err::<
                ((Seq<u8>, Seq<u8>, Seq<u8>), nat),
                ParseError,
            >(e) && *old(offset) == *final(offset),
        },
{
    let mut cursor: usize = *offset;
    let account_key = match crate::bytes::parse_pubkey(data, &mut cursor) {
        Ok(k) => k,
        Err(e) => {
            return Err(e);
        },
    };
    let writable_indexes = match parse_short_vec_bytes(data, &mut cursor) {
        Ok(v) => v,
        Err(e) => {
            return Err(e);
        },
    };
    let readonly_indexes = match parse_short_vec_bytes(data, &mut cursor) {
        Ok(v) => v,
        Err(e) => {
            return Err(e);
        },
    };
    *offset = cursor;
    Ok(MessageAddressTableLookup { account_key, writable_indexes, readonly_indexes })
}

/// What parsing `n` consecutive address-table lookups at `o` yields.
pub open spec fn sp_parse_lookups(d: Seq<u8>, o: nat, n: nat) -> Result<
    (Seq<(Seq<u8>, Seq<u8>, Seq<u8>)>, nat),
    ParseError,
>
    decreases n,
{
    if n == 0 {
        Ok((Seq::empty(), o))
    } else {
        match sp_parse_lookup(d, o) {
            Ok((lk, o2)) => match sp_parse_lookups(d, o2, (n - 1) as nat) {
                Ok((rest, o3)) => Ok((seq![lk] + rest, o3)),
                Err(e) => Err(e),
            },
            Err(e) => Err(e),
        }
    }
}

/// What parsing one versioned transaction at `o` yields: the signatures,
/// the header bytes, the inline keys, the blockhash, the instructions, and,
/// for a v0 message, the address-table lookups.  A first message byte with
/// the high bit set marks a versioned message whose version bits must be
/// zero; otherwise the message is legacy, and a legacy message must carry
/// at least one inline key.
pub open spec fn sp_parse_transaction(d: Seq<u8>, o: nat) -> Result<
    (
        (
            Seq<Seq<u8>>,
            (u8, u8, u8),
            Seq<Seq<u8>>,
            Seq<u8>,
            Seq<(u8, Seq<u8>, Seq<u8>)>,
            Option<Seq<(Seq<u8>, Seq<u8>, Seq<u8>)>>,
        ),
        nat,
    ),
    ParseError,
> {
    match sp_parse_blocks(d, o, 64) {
        Ok((sigs, o1)) => if o1 + 1 > d.len() {
            Err(ParseError::Insufficient)
        } else if d[o1 as int] & 0x80 != 0 && d[o1 as int] & 0x7f != 0 {
            Err(ParseError::InvalidDiscriminant)
        } else {
            let versioned = d[o1 as int] & 0x80 != 0;
            let oh = if versioned {
                o1 + 1
            } else {
                o1
            };
            if oh + 3 > d.len() {
                Err(ParseError::Insufficient)
            } else {
                let header = (d[oh as int], d[oh as int + 1], d[oh as int + 2]);
                match sp_parse_blocks(d, oh + 3, 32) {
                    Ok((keys, o2)) => if !versioned && keys.len() == 0 {
                        Err(ParseError::InvalidDiscriminant)
                    } else if o2 + 32 > d.len() {
                        Err(ParseError::Insufficient)
                    } else {
                        let blockhash = d.subrange(o2 as int, o2 as int + 32);
                        match sp_parse_short_u16(d, o2 + 32) {
                            Ok((n_ix, o3)) => match sp_parse_instructions(d, o3, n_ix as nat) {
                                Ok((instructions, o4)) => if versioned {
                                    match sp_parse_short_u16(d, o4) {
                                        Ok((n_lk, o5)) => match sp_parse_lookups(
                                            d,
                                            o5,
                                            n_lk as nat,
                                        ) {
                                            Ok((lookups, o6)) => Ok(
                                                (
                                                    (
                                                        sigs,
                                                        header,
                                                        keys,
                                                        blockhash,
                                                        instructions,
                                                        Some(lookups),
                                                    ),
                                                    o6,
                                                ),
                                            ),
                                            Err(e) => Err(e),
                                        },
                                        Err(e) => Err(e),
                                    }
                                } else {
                                    Ok(
                                        ((sigs, header, keys, blockhash, instructions, None), o4),
                                    )
                                },
                                Err(e) => Err(e),
                            },
                            Err(e) => Err(e),
                        }
                    },
                    Err(e) => Err(e),
                }
            }
        },
        Err(e) => Err(e),
    }
}

/// The relation between a parsed transaction and its wire fields.
pub open spec fn sp_transaction_matches(
    tx: VersionedTransaction,
    v: (
        Seq<Seq<u8>>,
        (u8, u8, u8),
        Seq<Seq<u8>>,
        Seq<u8>,
        Seq<(u8, Seq<u8>, Seq<u8>)>,
        Option<Seq<(Seq<u8>, Seq<u8>, Seq<u8>)>>,
    ),
) -> bool {
    &&& tx.signatures@.map_values(|b: Vec<u8>| b@) == v.0
    &&& tx.header.num_required_signatures == v.1.0
    &&& tx.header.num_readonly_signed_accounts == v.1.1
    &&& tx.header.num_readonly_unsigned_accounts == v.1.2
    &&& tx.account_keys@.map_values(|b: Vec<u8>| b@) == v.2
    &&& tx.recent_blockhash@ == v.3
    &&& tx.instructions@.len() == v.4.len()
    &&& (forall|i: int|
        0 <= i < v.4.len() ==> sp_instruction_matches(#[trigger] tx.instructions@[i], v.4[i]))
    &&& match (tx.address_table_lookups, v.5) {
        (Some(lks), Some(lvs)) => lks@.len() == lvs.len() && (forall|i: int|
            0 <= i < lvs.len() ==> sp_lookup_matches(#[trigger] lks@[i], lvs[i])),
        (None, None) => true,
        _ => false,
    }
}

/// Parse one versioned transaction.
#[verifier::rlimit(80)]
pub fn parse_versioned_transaction(data: &[u8], offset: &mut usize) -> (r: Result<
    VersionedTransaction,
    ParseError,
>)
    ensures
        match r {
            Ok(tx) => sp_parse_transaction(data@, *old(offset) as nat) matches Ok(p)
                && sp_transaction_matches(tx, p.0) && p.1 == *final(offset),
            Err(e) => (match sp_parse_transaction(data@, *old(offset) as nat) {
                Err(e2) => e2 == e,
                Ok(_) => false,
            }) && *old(offset) == *final(offset),
        },
{
    let mut cursor: usize = *offset;
    let signatures = match parse_short_vec_blocks(data, &mut cursor, 64) {
        Ok(v) => v,
        Err(e) => {
            return Err(e);
        },
    };
    if data.len() < 1 || data.len() - 1 < cursor {
        return Err(ParseError::Insufficient);
    }
    let first = data[cursor];
    let versioned = first & 0x80 != 0;
    if versioned {
        if first & 0x7f != 0 {
            return Err(ParseError::InvalidDiscriminant);
        }
        cursor = cursor + 1;
    }
    if data.len() < 3 || data.len() - 3 < cursor {
        return Err(ParseError::Insufficient);
    }
    let num_required_signatures = data[cursor];
    let num_readonly_signed_accounts = data[cursor + 1];
    let num_readonly_unsigned_accounts = data[cursor + 2];
    cursor = cursor + 3;
    let account_keys = match parse_short_vec_blocks(data, &mut cursor, 32) {
        Ok(v) => v,
        Err(e) => {
            return Err(e);
        },
    };
    if !versioned && account_keys.len() == 0 {
        return Err(ParseError::InvalidDiscriminant);
    }
    let recent_blockhash = match crate::bytes::parse_pubkey(data, &mut cursor) {
        Ok(k) => k,
        Err(e) => {
            return Err(e);
        },
    };
    let n_instructions16 = match parse_short_u16(data, &mut cursor) {
        Ok(v) => v,
        Err(e) => {
            return Err(e);
        },
    };
    let n_instructions = n_instructions16 as usize;
    let instructions = match parse_instruction_list(data, &mut cursor, n_instructions) {
        Ok(v) => v,
        Err(e) => {
            return Err(e);
        },
    };
    let address_table_lookups = if versioned {
        let n_lookups16 = match parse_short_u16(data, &mut cursor) {
            Ok(v) => v,
            Err(e) => {
                return Err(e);
            },
        };
        let n_lookups = n_lookups16 as usize;
        let lookups = match parse_lookup_list(data, &mut cursor, n_lookups) {
            Ok(v) => v,
            Err(e) => {
                return Err(e);
            },
        };
        Some(lookups)
    } else {
        None
    };
    *offset = cursor;
    Ok(
        VersionedTransaction {
            signatures,
            header: MessageHeader {
                num_required_signatures,
                num_readonly_signed_accounts,
                num_readonly_unsigned_accounts,
            },
            account_keys,
            recent_blockhash,
            instructions,
            address_table_lookups,
        },
    )
}

/// Parse `n` consecutive compiled instructions.
fn parse_instruction_list(data: &[u8], offset: &mut usize, n: usize) -> (r: Result<
    Vec<CompiledInstruction>,
    ParseError,
>)
    ensures
        match r {
            Ok(v) => sp_parse_instructions(data@, *old(offset) as nat, n as nat) matches Ok(p)
                && v@.len() == p.0.len() && (forall|k: int|
                0 <= k < p.0.len() ==> sp_instruction_matches(#[trigger] v@[k], p.0[k])) && p.1
                == *final(offset),
            Err(e) => (match sp_parse_instructions(data@, *old(offset) as nat, n as nat) {
                Err(e2) => e2 == e,
                Ok(_) => false,
            }) && *old(offset) == *final(offset),
        },
{
    let mut cursor: usize = *offset;
    let mut out: Vec<CompiledInstruction> = Vec::new();
    let mut i: usize = 0;
    while i < n
        invariant
            i <= n,
            out@.len() == i,
            *offset == *old(offset),
            match sp_parse_instructions(data@, cursor as nat, (n - i) as nat) {
                Ok((rest, oend)) => sp_parse_instructions(
                    data@,
                    *old(offset) as nat,
                    n as nat,
                ) matches Ok(full) && full.1 == oend && full.0.len() == i + rest.len() && (forall|
                    k: int,
                |
                    0 <= k < i ==> sp_instruction_matches(#[trigger] out@[k], full.0[k])) && (
                forall|k: int| 0 <= k < rest.len() ==> full.0[i + k] == rest[k]),
                Err(e) => (match sp_parse_instructions(data@, *old(offset) as nat, n as nat) {
                    Err(e2) => e2 == e,
                    Ok(_) => false,
                }),
            },
        decreases n - i,
    {
        let ghost cur0 = cursor as nat;
        match parse_compiled_instruction(data, &mut cursor) {
            Ok(x0) => {
                out.push(x0);
                proof {
                    if let Ok((hdv, o2)) = sp_parse_instruction(data@, cur0) {
                        if let Ok((rest2, oend2)) = sp_parse_instructions(
                            data@,
                            cursor as nat,
                            (n - i - 1) as nat,
                        ) {
                            assert(sp_parse_instructions(data@, cur0, (n - i) as nat) == Ok::<
                                _,
                                ParseError,
                            >((seq![hdv] + rest2, oend2)));
                            assert((seq![hdv] + rest2)[0] == hdv);
                            assert(forall|k: int|
                                0 <= k < rest2.len() ==> (seq![hdv] + rest2)[k + 1] == rest2[k]);
                        }
                    }
                }
            },
            Err(e) => {
                return Err(e);
            },
        }
        i = i + 1;
    }
    *offset = cursor;
    Ok(out)
}

/// Parse `n` consecutive address-table lookups.
fn parse_lookup_list(data: &[u8], offset: &mut usize, n: usize) -> (r: Result<
    Vec<MessageAddressTableLookup>,
    ParseError,
>)
    ensures
        match r {
            Ok(v) => sp_parse_lookups(data@, *old(offset) as nat, n as nat) matches Ok(p)
                && v@.len() == p.0.len() && (forall|k: int|
                0 <= k < p.0.len() ==> sp_lookup_matches(#[trigger] v@[k], p.0[k])) && p.1
                == *final(offset),
            Err(e) => (match sp_parse_lookups(data@, *old(offset) as nat, n as nat) {
                Err(e2) => e2 == e,
                Ok(_) => false,
            }) && *old(offset) == *final(offset),
        },
{
    let mut cursor: usize = *offset;
    let mut out: Vec<MessageAddressTableLookup> = Vec::new();
    let mut i: usize = 0;
    while i < n
        invariant
            i <= n,
            out@.len() == i,
            *offset == *old(offset),
            match sp_parse_lookups(data@, cursor as nat, (n - i) as nat) {
                Ok((rest, oend)) => sp_parse_lookups(
                    data@,
                    *old(offset) as nat,
                    n as nat,
                ) matches Ok(full) && full.1 == oend && full.0.len() == i + rest.len() && (forall|
                    k: int,
                |
                    0 <= k < i ==> sp_lookup_matches(#[trigger] out@[k], full.0[k])) && (forall|
                    k: int,
                |
                    0 <= k < rest.len() ==> full.0[i + k] == rest[k]),
                Err(e) => (match sp_parse_lookups(data@, *old(offset) as nat, n as nat) {
                    Err(e2) => e2 == e,
                    Ok(_) => false,
                }),
            },
        decreases n - i,
    {
        let ghost cur0 = cursor as nat;
        match parse_address_table_lookup(data, &mut cursor) {
            Ok(x0) => {
                out.push(x0);
                proof {
                    if let Ok((hdv, o2)) = sp_parse_lookup(data@, cur0) {
                        if let Ok((rest2, oend2)) = sp_parse_lookups(
                            data@,
                            cursor as nat,
                            (n - i - 1) as nat,
                        ) {
                            assert(sp_parse_lookups(data@, cur0, (n - i) as nat) == Ok::<
                                _,
                                ParseError,
                            >((seq![hdv] + rest2, oend2)));
                            assert((seq![hdv] + rest2)[0] == hdv);
                            assert(forall|k: int|
                                0 <= k < rest2.len() ==> (seq![hdv] + rest2)[k + 1] == rest2[k]);
                        }
                    }
                }
            },
            Err(e) => {
                return Err(e);
            },
        }
        i = i + 1;
    }
    *offset = cursor;
    Ok(out)
}

/// What parsing `n` consecutive transactions at `o` yields.
pub open spec fn sp_parse_transactions(d: Seq<u8>, o: nat, n: nat) -> Result<
    (Seq<
        (
            Seq<Seq<u8>>,
            (u8, u8, u8),
            Seq<Seq<u8>>,
            Seq<u8>,
            Seq<(u8, Seq<u8>, Seq<u8>)>,
            Option<Seq<(Seq<u8>, Seq<u8>, Seq<u8>)>>,
        ),
    >, nat),
    ParseError,
>
    decreases n,
{
    if n == 0 {
        Ok((Seq::empty(), o))
    } else {
        match sp_parse_transaction(d, o) {
            Ok((tx, o2)) => match sp_parse_transactions(d, o2, (n - 1) as nat) {
                Ok((rest, o3)) => Ok((seq![tx] + rest, o3)),
                Err(e) => Err(e),
            },
            Err(e) => Err(e),
        }
    }
}

/// Parse `n` consecutive versioned transactions.
#[verifier::rlimit(80)]
fn parse_transaction_list(data: &[u8], offset: &mut usize, n: usize) -> (r: Result<
    Vec<VersionedTransaction>,
    ParseError,
>)
    ensures
        match r {
            Ok(v) => sp_parse_transactions(data@, *old(offset) as nat, n as nat) matches Ok(p)
                && v@.len() == p.0.len() && (forall|k: int|
                0 <= k < p.0.len() ==> sp_transaction_matches(#[trigger] v@[k], p.0[k])) && p.1
                == *final(offset),
            Err(e) => (match sp_parse_transactions(data@, *old(offset) as nat, n as nat) {
                Err(e2) => e2 == e,
                Ok(_) => false,
            }) && *old(offset) == *final(offset),
        },
{
    let mut cursor: usize = *offset;
    let mut out: Vec<VersionedTransaction> = Vec::new();
    let mut i: usize = 0;
    while i < n
        invariant
            i <= n,
            out@.len() == i,
            *offset == *old(offset),
            match sp_parse_transactions(data@, cursor as nat, (n - i) as nat) {
                Ok((rest, oend)) => sp_parse_transactions(
                    data@,
                    *old(offset) as nat,
                    n as nat,
                ) matches Ok(full) && full.1 == oend && full.0.len() == i + rest.len() && (forall|
                    k: int,
                |
                    0 <= k < i ==> sp_transaction_matches(#[trigger] out@[k], full.0[k])) && (
                forall|k: int| 0 <= k < rest.len() ==> full.0[i + k] == rest[k]),
                Err(e) => (match sp_parse_transactions(data@, *old(offset) as nat, n as nat) {
                    Err(e2) => e2 == e,
                    Ok(_) => false,
                }),
            },
        decreases n - i,
    {
        let ghost cur0 = cursor as nat;
        match parse_versioned_transaction(data, &mut cursor) {
            Ok(x0) => {
                out.push(x0);
                proof {
                    if let Ok((hdv, o2)) = sp_parse_transaction(data@, cur0) {
                        if let Ok((rest2, oend2)) = sp_parse_transactions(
                            data@,
                            cursor as nat,
                            (n - i - 1) as nat,
                        ) {
                            assert(sp_parse_transactions(data@, cur0, (n - i) as nat) == Ok::<
                                _,
                                ParseError,
                            >((seq![hdv] + rest2, oend2)));
                            assert((seq![hdv] + rest2)[0] == hdv);
                            assert(forall|k: int|
                                0 <= k < rest2.len() ==> (seq![hdv] + rest2)[k + 1] == rest2[k]);
                        }
                    }
                }
            },
            Err(e) => {
                return Err(e);
            },
        }
        i = i + 1;
    }
    *offset = cursor;
    Ok(out)
}

/// What parsing one entry at `o` yields: an 8-byte hash count, a 32-byte
/// hash, and an 8-byte transaction count followed by that many
/// transactions; an implausible count is rejected.
pub open spec fn sp_parse_entry(d: Seq<u8>, o: nat) -> Result<
    (
        (u64, Seq<u8>, Seq<
            (
                Seq<Seq<u8>>,
                (u8, u8, u8),
                Seq<Seq<u8>>,
                Seq<u8>,
                Seq<(u8, Seq<u8>, Seq<u8>)>,
                Option<Seq<(Seq<u8>, Seq<u8>, Seq<u8>)>>,
            ),
        >),
        nat,
    ),
    ParseError,
> {
    if o + 48 > d.len() {
        Err(ParseError::Insufficient)
    } else {
        let num_hashes = le_bytes(d.subrange(o as int, o as int + 8)) as u64;
        let hash = d.subrange(o as int + 8, o as int + 40);
        let n_txs = le_bytes(d.subrange(o as int + 40, o as int + 48));
        if n_txs > MAX_WIRE_COUNT {
            Err(ParseError::Insufficient)
        } else {
            match sp_parse_transactions(d, o + 48, n_txs) {
                Ok((txs, o2)) => Ok(((num_hashes, hash, txs), o2)),
                Err(e) => Err(e),
            }
        }
    }
}

/// The relation between a parsed entry and its wire fields.
pub open spec fn sp_entry_matches(
    e: Entry,
    v: (u64, Seq<u8>, Seq<
        (
            Seq<Seq<u8>>,
            (u8, u8, u8),
            Seq<Seq<u8>>,
            Seq<u8>,
            Seq<(u8, Seq<u8>, Seq<u8>)>,
            Option<Seq<(Seq<u8>, Seq<u8>, Seq<u8>)>>,
        ),
    >),
) -> bool {
    &&& e.num_hashes == v.0
    &&& e.hash@ == v.1
    &&& e.transactions@.len() == v.2.len()
    &&& (forall|i: int|
        0 <= i < v.2.len() ==> sp_transaction_matches(#[trigger] e.transactions@[i], v.2[i]))
}

/// Parse one entry.
pub fn parse_entry(data: &[u8], offset: &mut usize) -> (r: Result<Entry, ParseError>)
    ensures
        match r {
            Ok(e) => sp_parse_entry(data@, *old(offset) as nat) matches Ok(p) && sp_entry_matches(
                e,
                p.0,
            ) && p.1 == *final(offset),
            Err(err) => (match sp_parse_entry(data@, *old(offset) as nat) {
                Err(e2) => e2 == err,
                Ok(_) => false,
            }) && *old(offset) == *final(offset),
        },
{
    let mut cursor: usize = *offset;
    if data.len() < 48 || data.len() - 48 < cursor {
        return Err(ParseError::Insufficient);
    }
    let num_hashes = crate::bytes::parse_u64(data, &mut cursor).unwrap();
    let hash = crate::bytes::parse_pubkey(data, &mut cursor).unwrap();
    let n_txs64 = crate::bytes::parse_u64(data, &mut cursor).unwrap();
    if n_txs64 > MAX_WIRE_COUNT {
        return Err(ParseError::Insufficient);
    }
    let n_txs = n_txs64 as usize;
    let transactions = match parse_transaction_list(data, &mut cursor, n_txs) {
        Ok(v) => v,
        Err(e) => {
            return Err(e);
        },
    };
    *offset = cursor;
    Ok(Entry { num_hashes, hash, transactions })
}

/// What parsing `n` consecutive entries at `o` yields.
pub open spec fn sp_parse_entry_list(d: Seq<u8>, o: nat, n: nat) -> Result<
    (Seq<
        (u64, Seq<u8>, Seq<
            (
                Seq<Seq<u8>>,
                (u8, u8, u8),
                Seq<Seq<u8>>,
                Seq<u8>,
                Seq<(u8, Seq<u8>, Seq<u8>)>,
                Option<Seq<(Seq<u8>, Seq<u8>, Seq<u8>)>>,
            ),
        >),
    >, nat),
    ParseError,
>
    decreases n,
{
    if n == 0 {
        Ok((Seq::empty(), o))
    } else {
        match sp_parse_entry(d, o) {
            Ok((e, o2)) => match sp_parse_entry_list(d, o2, (n - 1) as nat) {
                Ok((rest, o3)) => Ok((seq![e] + rest, o3)),
                Err(err) => Err(err),
            },
            Err(err) => Err(err),
        }
    }
}

/// Parse `n` consecutive entries.
#[verifier::rlimit(80)]
fn parse_entry_list_exec(data: &[u8], offset: &mut usize, n: usize) -> (r: Result<
    Vec<Entry>,
    ParseError,
>)
    ensures
        match r {
            Ok(v) => sp_parse_entry_list(data@, *old(offset) as nat, n as nat) matches Ok(p)
                && v@.len() == p.0.len() && (forall|k: int|
                0 <= k < p.0.len() ==> sp_entry_matches(#[trigger] v@[k], p.0[k])) && p.1
                == *final(offset),
            Err(e) => (match sp_parse_entry_list(data@, *old(offset) as nat, n as nat) {
                Err(e2) => e2 == e,
                Ok(_) => false,
            }) && *old(offset) == *final(offset),
        },
{
    let mut cursor: usize = *offset;
    let mut out: Vec<Entry> = Vec::new();
    let mut i: usize = 0;
    while i < n
        invariant
            i <= n,
            out@.len() == i,
            *offset == *old(offset),
            match sp_parse_entry_list(data@, cursor as nat, (n - i) as nat) {
                Ok((rest, oend)) => sp_parse_entry_list(
                    data@,
                    *old(offset) as nat,
                    n as nat,
                ) matches Ok(full) && full.1 == oend && full.0.len() == i + rest.len() && (forall|
                    k: int,
                |
                    0 <= k < i ==> sp_entry_matches(#[trigger] out@[k], full.0[k])) && (forall|
                    k: int,
                |
                    0 <= k < rest.len() ==> full.0[i + k] == rest[k]),
                Err(e) => (match sp_parse_entry_list(data@, *old(offset) as nat, n as nat) {
                    Err(e2) => e2 == e,
                    Ok(_) => false,
                }),
            },
        decreases n - i,
    {
        let ghost cur0 = cursor as nat;
        match parse_entry(data, &mut cursor) {
            Ok(x0) => {
                out.push(x0);
                proof {
                    if let Ok((hdv, o2)) = sp_parse_entry(data@, cur0) {
                        if let Ok((rest2, oend2)) = sp_parse_entry_list(
                            data@,
                            cursor as nat,
                            (n - i - 1) as nat,
                        ) {
                            assert(sp_parse_entry_list(data@, cur0, (n - i) as nat) == Ok::<
                                _,
                                ParseError,
                            >((seq![hdv] + rest2, oend2)));
                            assert((seq![hdv] + rest2)[0] == hdv);
                            assert(forall|k: int|
                                0 <= k < rest2.len() ==> (seq![hdv] + rest2)[k + 1] == rest2[k]);
                        }
                    }
                }
            },
            Err(e) => {
                return Err(e);
            },
        }
        i = i + 1;
    }
    *offset = cursor;
    Ok(out)
}

/// What parsing a payload's entry list yields: an 8-byte entry count, then
/// that many entries; an implausible count is rejected, and bytes past the
/// last entry are ignored.
pub open spec fn sp_parse_entries(d: Seq<u8>) -> Result<
    Seq<
        (u64, Seq<u8>, Seq<
            (
                Seq<Seq<u8>>,
                (u8, u8, u8),
                Seq<Seq<u8>>,
                Seq<u8>,
                Seq<(u8, Seq<u8>, Seq<u8>)>,
                Option<Seq<(Seq<u8>, Seq<u8>, Seq<u8>)>>,
            ),
        >),
    >,
    ParseError,
> {
    if d.len() < 8 {
        Err(ParseError::Insufficient)
    } else {
        let n = le_bytes(d.subrange(0, 8));
        if n > MAX_WIRE_COUNT {
            Err(ParseError::Insufficient)
        } else {
            match sp_parse_entry_list(d, 8, n) {
                Ok((entries, _)) => Ok(entries),
                Err(e) => Err(e),
            }
        }
    }
}

/// Parse a reconstructed block payload as its ordered entry list.  The
/// entries and their transactions keep their on-wire order.
pub fn parse_entries(payload: &[u8]) -> (r: Result<Vec<Entry>, ParseError>)
    ensures
        match r {
            Ok(entries) => sp_parse_entries(payload@) matches Ok(v) && entries@.len() == v.len()
                && (forall|i: int|
                0 <= i < v.len() ==> sp_entry_matches(#[trigger] entries@[i], v[i])),
            Err(e) => (match sp_parse_entries(payload@) {
                Err(e2) => e2 == e,
                Ok(_) => false,
            }),
        },
{
    let mut cursor: usize = 0;
    if payload.len() < 8 {
        return Err(ParseError::Insufficient);
    }
    let count64 = crate::bytes::parse_u64(payload, &mut cursor).unwrap();
    if count64 > MAX_WIRE_COUNT {
        return Err(ParseError::Insufficient);
    }
    let count = count64 as usize;
    let entries = match parse_entry_list_exec(payload, &mut cursor, count) {
        Ok(v) => v,
        Err(e) => {
            return Err(e);
        },
    };
    Ok(entries)
}

/// The transactions of a payload's entries, flattened in entry order and,
/// within one entry, in transaction order: the on-wire order.
pub open spec fn sp_flat_transactions(entries: Seq<Entry>) -> Seq<VersionedTransaction>
    decreases entries.len(),
{
    if entries.len() == 0 {
        Seq::empty()
    } else {
        entries.first().transactions@ + sp_flat_transactions(entries.drop_first())
    }
}

/// Flatten a payload's entries into their transactions, in on-wire order.
pub fn flatten_entry_transactions(entries: Vec<Entry>) -> (r: Vec<VersionedTransaction>)
    ensures
        r@ == sp_flat_transactions(entries@),
{
    let mut out: Vec<VersionedTransaction> = Vec::new();
    let mut rest = entries;
    let ghost orig = rest@;
    proof {
        assert(out@ + sp_flat_transactions(rest@) =~= sp_flat_transactions(orig));
    }
    while rest.len() > 0
        invariant
            sp_flat_transactions(orig) == out@ + sp_flat_transactions(rest@),
        decreases rest.len(),
    {
        let ghost rest0 = rest@;
        let e = rest.remove(0);
        proof {
            assert(rest@ =~= rest0.drop_first());
            assert(sp_flat_transactions(rest0) == e.transactions@ + sp_flat_transactions(rest@));
        }
        let mut txs = e.transactions;
        let ghost out_outer = out@;
        let ghost target = out@ + txs@;
        while txs.len() > 0
            invariant
                out@ + txs@ == target,
            decreases txs.len(),
        {
            let ghost txs0 = txs@;
            let ghost out0 = out@;
            let t = txs.remove(0);
            out.push(t);
            proof {
                assert(txs@ =~= txs0.drop_first());
                assert(out@ =~= out0.push(txs0.first()));
                assert(out@ + txs@ =~= out0 + txs0);
            }
        }
        proof {
            assert(txs@ =~= Seq::<VersionedTransaction>::empty());
            assert(out@ =~= out_outer + e.transactions@);
            assert(out_outer + (e.transactions@ + sp_flat_transactions(rest@)) =~= (out_outer
                + e.transactions@) + sp_flat_transactions(rest@));
        }
    }
    proof {
        assert(sp_flat_transactions(rest@) == Seq::<VersionedTransaction>::empty());
        assert(out@ =~= sp_flat_transactions(orig));
    }
    out
}

} // verus!
