//! The shred model: the fields of one wire shred that this library reads, and
//! the structural parse that extracts them from a raw datagram.
//!
//! A shred record carries a 64-byte signature, a one-byte variant, a slot, a
//! shred index, a version, and a FEC-set index; a Data shred then carries a
//! parent offset, a flags byte and a size, followed by its payload region; a
//! Coding shred carries the erasure-set header (expected Data and Coding shred
//! counts and its position among the parity shreds).

use vstd::prelude::*;
use crate::bytes::le_bytes;

verus! {

/// Size of the header fields every shred starts with: 64-byte signature,
/// 1 variant byte, 8 slot bytes, 4 index bytes, 2 version bytes, 4 FEC-set
/// index bytes.
pub const SIZE_OF_COMMON_SHRED_HEADER: usize = 83;

/// Offset of the variant byte.
pub const OFFSET_OF_SHRED_VARIANT: usize = 64;

/// Offset of the 8-byte little-endian slot number.
pub const OFFSET_OF_SHRED_SLOT: usize = 65;

/// Offset of the 4-byte little-endian shred index.
pub const OFFSET_OF_SHRED_INDEX: usize = 73;

/// Offset of the 4-byte little-endian FEC-set index.
pub const OFFSET_OF_FEC_SET_INDEX: usize = 79;

/// Offset of a Data shred's flags byte.
pub const OFFSET_OF_DATA_FLAGS: usize = 85;

/// Offset of a Data shred's 2-byte size field (total bytes including header).
pub const OFFSET_OF_DATA_SIZE: usize = 86;

/// First byte of a Data shred's payload region.
pub const OFFSET_OF_DATA_PAYLOAD: usize = 88;

/// End of a Coding shred's header: the common header plus three 2-byte fields.
pub const SIZE_OF_CODING_HEADER: usize = 89;

/// Flag bit on a Data shred: this shred ends the FEC set's data region.
pub const FLAG_DATA_COMPLETE: u8 = 0x40;

/// Flag bits on a Data shred: this shred ends the slot (implies data-complete).
pub const FLAG_LAST_IN_SLOT: u8 = 0xc0;

/// Why a raw datagram was rejected as a shred.
#[derive(Clone, Copy, Debug, PartialEq, Eq, Structural)]
pub enum ShredError {
    /// Shorter than the fields it must carry.
    TooShort,
    /// The variant byte names no known shred kind.
    InvalidVariant,
    /// A Data shred's size field does not fit between the header and the end.
    InvalidSize,
}

/// The erasure-set header carried by every Coding shred.
#[derive(Clone, Copy, Debug, PartialEq, Eq, Structural)]
pub struct CodingShredHeader {
    pub num_data_shreds: u16,
    pub num_coding_shreds: u16,
    pub position: u16,
}

/// What kind a shred is, with the kind-specific fields.
#[derive(Clone, Debug)]
pub enum ShredKind {
    /// A Data shred: raw payload bytes plus its two flags.
    Data { last_in_slot: bool, data_complete: bool },
    /// A Coding shred: Reed-Solomon parity with the erasure-set header.
    Coding { header: CodingShredHeader },
}

/// One parsed shred.
#[derive(Clone, Debug)]
pub struct Shred {
    pub slot: u64,
    pub index: u32,
    pub fec_set_index: u32,
    pub kind: ShredKind,
    /// The payload region: the data bytes of a Data shred, the parity bytes of
    /// a Coding shred.
    pub payload: Vec<u8>,
}

impl Shred {
    /// True of a Data shred.
    pub open spec fn is_data(self) -> bool {
        self.kind is Data
    }

    /// True of a Data shred whose flags close the slot: both `last_in_slot`
    /// and `data_complete` set.
    pub open spec fn closes_slot(self) -> bool {
        self.kind matches ShredKind::Data { last_in_slot, data_complete }
            && last_in_slot && data_complete
    }
}

/// True of variant bytes that mark a Coding shred.
pub open spec fn is_coding_variant(v: u8) -> bool {
    v == 0x5a || (v >> 4) == 0x4 || (v >> 4) == 0x6 || (v >> 4) == 0x7
}

/// True of variant bytes that mark a Data shred.
pub open spec fn is_data_variant(v: u8) -> bool {
    v == 0xa5 || (v >> 4) == 0x8 || (v >> 4) == 0x9 || (v >> 4) == 0xb
}

/// The slot field of a raw shred.
pub open spec fn sp_shred_slot(data: Seq<u8>) -> nat {
    le_bytes(data.subrange(65, 73))
}

/// The shred-index field of a raw shred.
pub open spec fn sp_shred_index(data: Seq<u8>) -> nat {
    le_bytes(data.subrange(73, 77))
}

/// The FEC-set-index field of a raw shred.
pub open spec fn sp_fec_set_index(data: Seq<u8>) -> nat {
    le_bytes(data.subrange(79, 83))
}

/// Extract the slot number from a raw shred.
pub fn get_slot_from_shred_data(shred_data: &[u8]) -> (r: Result<u64, ShredError>)
    ensures
        match r {
            Ok(v) => shred_data@.len() >= SIZE_OF_COMMON_SHRED_HEADER
                && v as nat == sp_shred_slot(shred_data@),
            Err(e) => e == ShredError::TooShort && shred_data@.len()
                < SIZE_OF_COMMON_SHRED_HEADER,
        },
{
    if shred_data.len() < SIZE_OF_COMMON_SHRED_HEADER {
        return Err(ShredError::TooShort);
    }
    let mut off: usize = OFFSET_OF_SHRED_SLOT;
    let v = crate::bytes::parse_u64(shred_data, &mut off).unwrap();
    Ok(v)
}

/// Extract the FEC-set index from a raw shred.
pub fn get_fec_set_index_from_data(shred_data: &[u8]) -> (r: Result<u32, ShredError>)
    ensures
        match r {
            Ok(v) => shred_data@.len() >= SIZE_OF_COMMON_SHRED_HEADER
                && v as nat == sp_fec_set_index(shred_data@),
            Err(e) => e == ShredError::TooShort && shred_data@.len()
                < SIZE_OF_COMMON_SHRED_HEADER,
        },
{
    if shred_data.len() < SIZE_OF_COMMON_SHRED_HEADER {
        return Err(ShredError::TooShort);
    }
    let mut off: usize = OFFSET_OF_FEC_SET_INDEX;
    let v = crate::bytes::parse_u32(shred_data, &mut off).unwrap();
    Ok(v)
}

/// Extract the erasure-set header of a Coding shred: expected Data count,
/// expected Coding count, and this shred's position, three 2-byte
/// little-endian fields right after the common header.
pub fn get_coding_shred_header(shred_data: &[u8]) -> (r: Result<CodingShredHeader, ShredError>)
    ensures
        match r {
            Ok(h) => shred_data@.len() >= SIZE_OF_CODING_HEADER
                && h.num_data_shreds as nat == le_bytes(shred_data@.subrange(83, 85))
                && h.num_coding_shreds as nat == le_bytes(shred_data@.subrange(85, 87))
                && h.position as nat == le_bytes(shred_data@.subrange(87, 89)),
            Err(e) => e == ShredError::TooShort && shred_data@.len() < SIZE_OF_CODING_HEADER,
        },
{
    if shred_data.len() < SIZE_OF_CODING_HEADER {
        return Err(ShredError::TooShort);
    }
    let mut off: usize = SIZE_OF_COMMON_SHRED_HEADER;
    let num_data_shreds = crate::bytes::parse_u16(shred_data, &mut off).unwrap();
    let num_coding_shreds = crate::bytes::parse_u16(shred_data, &mut off).unwrap();
    let position = crate::bytes::parse_u16(shred_data, &mut off).unwrap();
    Ok(CodingShredHeader { num_data_shreds, num_coding_shreds, position })
}

/// True when a raw datagram passes the structural parse: the common header is
/// present, the variant byte names a known kind, a Coding shred carries its
/// erasure-set header, and a Data shred's size field lies between the header
/// end and the datagram end.
pub open spec fn sp_shred_parse_ok(data: Seq<u8>) -> bool {
    &&& data.len() >= SIZE_OF_COMMON_SHRED_HEADER
    &&& (is_coding_variant(data[64]) || is_data_variant(data[64]))
    &&& (is_coding_variant(data[64]) ==> data.len() >= SIZE_OF_CODING_HEADER)
    &&& (is_data_variant(data[64]) ==> data.len() >= OFFSET_OF_DATA_PAYLOAD && 88 <= le_bytes(
        data.subrange(86, 88),
    ) <= data.len())
}

/// The relation between a raw datagram and its parsed shred.
pub open spec fn sp_shred_matches(data: Seq<u8>, s: Shred) -> bool {
    let v = data[64];
    &&& sp_shred_parse_ok(data)
    &&& s.slot as nat == sp_shred_slot(data)
    &&& s.index as nat == sp_shred_index(data)
    &&& s.fec_set_index as nat == sp_fec_set_index(data)
    &&& (is_coding_variant(v) ==> {
        &&& s.kind matches ShredKind::Coding { header }
            && header.num_data_shreds as nat == le_bytes(data.subrange(83, 85))
            && header.num_coding_shreds as nat == le_bytes(data.subrange(85, 87))
            && header.position as nat == le_bytes(data.subrange(87, 89))
        &&& s.payload@ == data.subrange(89, data.len() as int)
    })
    &&& (is_data_variant(v) ==> {
        let size = le_bytes(data.subrange(86, 88));
        &&& s.kind matches ShredKind::Data { last_in_slot, data_complete }
            && data_complete == (data[85] & FLAG_DATA_COMPLETE == FLAG_DATA_COMPLETE)
            && last_in_slot == (data[85] & FLAG_LAST_IN_SLOT == FLAG_LAST_IN_SLOT)
        &&& s.payload@ == data.subrange(88, size as int)
    })
}

impl Shred {
    /// Parse a raw datagram as a shred, validating the structural minima:
    /// the common header must be present, the variant byte must name a known
    /// kind, a Coding shred must carry its erasure-set header, and a Data
    /// shred's size field must lie between the header end and the datagram
    /// end.  A rejected datagram has no side effect.
    pub fn from_bytes(data: &[u8]) -> (r: Result<Shred, ShredError>)
        ensures
            r is Ok <==> sp_shred_parse_ok(data@),
            match r {
                Ok(s) => sp_shred_matches(data@, s),
                Err(ShredError::TooShort) => data@.len() < SIZE_OF_COMMON_SHRED_HEADER
                    || (is_coding_variant(data@[64]) && data@.len() < SIZE_OF_CODING_HEADER),
                Err(ShredError::InvalidVariant) => data@.len() >= SIZE_OF_COMMON_SHRED_HEADER
                    && !is_coding_variant(data@[64]) && !is_data_variant(data@[64]),
                Err(ShredError::InvalidSize) => {
                    let size = le_bytes(data@.subrange(86, 88));
                    &&& data@.len() >= SIZE_OF_COMMON_SHRED_HEADER
                    &&& is_data_variant(data@[64])
                    &&& (data@.len() < OFFSET_OF_DATA_PAYLOAD || size < 88 || size > data@.len())
                },
            },
    {
        if data.len() < SIZE_OF_COMMON_SHRED_HEADER {
            return Err(ShredError::TooShort);
        }
        let variant = data[OFFSET_OF_SHRED_VARIANT];
        let mut off: usize = OFFSET_OF_SHRED_SLOT;
        let slot = crate::bytes::parse_u64(data, &mut off).unwrap();
        let index = crate::bytes::parse_u32(data, &mut off).unwrap();
        off = OFFSET_OF_FEC_SET_INDEX;
        let fec_set_index = crate::bytes::parse_u32(data, &mut off).unwrap();

        let coding = variant == 0x5a || (variant >> 4) == 0x4 || (variant >> 4) == 0x6 || (variant
            >> 4) == 0x7;
        let data_kind = variant == 0xa5 || (variant >> 4) == 0x8 || (variant >> 4) == 0x9 || (
        variant >> 4) == 0xb;
        proof {
            assert(!((variant == 0x5a || (variant >> 4) == 0x4 || (variant >> 4) == 0x6 || (variant
                >> 4) == 0x7) && (variant == 0xa5 || (variant >> 4) == 0x8 || (variant >> 4) == 0x9
                || (variant >> 4) == 0xb))) by (bit_vector);
        }

        if coding {
            let header = match get_coding_shred_header(data) {
                Ok(h) => h,
                Err(e) => {
                    return Err(e);
                },
            };
            let payload = crate::bytes::copy_range(
                data,
                SIZE_OF_CODING_HEADER,
                data.len() - SIZE_OF_CODING_HEADER,
            );
            Ok(Shred {
                slot,
                index,
                fec_set_index,
                kind: ShredKind::Coding { header },
                payload,
            })
        } else if data_kind {
            if data.len() < OFFSET_OF_DATA_PAYLOAD {
                return Err(ShredError::InvalidSize);
            }
            let flags = data[OFFSET_OF_DATA_FLAGS];
            let mut size_off: usize = OFFSET_OF_DATA_SIZE;
            let size = crate::bytes::parse_u16(data, &mut size_off).unwrap() as usize;
            if size < OFFSET_OF_DATA_PAYLOAD || size > data.len() {
                return Err(ShredError::InvalidSize);
            }
            let payload = crate::bytes::copy_range(
                data,
                OFFSET_OF_DATA_PAYLOAD,
                size - OFFSET_OF_DATA_PAYLOAD,
            );
            Ok(Shred {
                slot,
                index,
                fec_set_index,
                kind: ShredKind::Data {
                    last_in_slot: flags & FLAG_LAST_IN_SLOT == FLAG_LAST_IN_SLOT,
                    data_complete: flags & FLAG_DATA_COMPLETE == FLAG_DATA_COMPLETE,
                },
                payload,
            })
        } else {
            Err(ShredError::InvalidVariant)
        }
    }
}

} // verus!
