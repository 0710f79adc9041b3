//! Meteora dynamic-pool program decoding: instruction identification and parameter layouts.

use vstd::prelude::*;
use vstd::slice::slice_subrange;
use crate::bytes::{starts_with, parse_u8, parse_u64, le_bytes, ParseError};
use crate::record::{DecodedInstruction, DecodeError, ParsedParams, create_standardized_instruction, sp_record_envelope};
use crate::programs::sp_meteoradyn_program_id;
use crate::Pubkey;

verus! {

/// The 8-byte discriminator of this variant's instruction data.
pub open spec fn sp_init_permissionless_pool_ix_discriminator() -> Seq<u8> {
    seq![66, 5, 221, 69, 105, 8, 127, 249]
}

/// The 8-byte discriminator of this variant's instruction data, as bytes.
pub fn init_permissionless_pool_ix_discriminator() -> (r: Vec<u8>)
    ensures
        r@ == sp_init_permissionless_pool_ix_discriminator(),
{
    let r: Vec<u8> = vec![66, 5, 221, 69, 105, 8, 127, 249];
    proof {
        assert(r@ =~= sp_init_permissionless_pool_ix_discriminator());
    }
    r
}


/// The Meteora dynamic-pool instructions this library decodes; any other
/// instruction of the program is `Unknown`.
#[derive(Clone, Copy, Debug, PartialEq, Eq, Structural)]
pub enum MeteoraDynInstructionType {
    InitializePermissionlessPool,
    Unknown,
}

/// The stable-curve token multipliers.
#[derive(Clone, Copy, Debug, PartialEq, Eq, Structural)]
pub struct TokenMultiplier {
    pub token_a_multiplier: u64,
    pub token_b_multiplier: u64,
    pub precision_factor: u8,
}

/// The stable-curve depeg parameters.
#[derive(Clone, Copy, Debug, PartialEq, Eq, Structural)]
pub struct Depeg {
    pub base_virtual_price: u64,
    pub base_cache_updated: u64,
    pub depeg_type: u8,
}

/// The pool curve: constant product, or a stable curve with its parameters.
#[derive(Clone, Copy, Debug, PartialEq, Eq, Structural)]
pub enum CurveType {
    ConstantProduct,
    Stable {
        amp: u64,
        token_multiplier: TokenMultiplier,
        depeg: Depeg,
        last_amp_updated_timestamp: u64,
    },
}

/// Parameters of an `InitializePermissionlessPool` instruction.
#[derive(Clone, Copy, Debug, PartialEq, Eq, Structural)]
pub struct InitializePermissionlessPoolParams {
    pub curve_type: CurveType,
    pub token_a_amount: u64,
    pub token_b_amount: u64,
}

/// Which dynamic-pool instruction an instruction-data prefix names.
pub open spec fn sp_identify_meteoradyn(data: Seq<u8>) -> Option<MeteoraDynInstructionType> {
    if data.len() < 8 {
        None
    } else if data.subrange(0, 8) == sp_init_permissionless_pool_ix_discriminator() {
        Some(MeteoraDynInstructionType::InitializePermissionlessPool)
    } else {
        Some(MeteoraDynInstructionType::Unknown)
    }
}

/// Identify a dynamic-pool instruction by its leading 8-byte discriminator.
pub fn get_meteoradyn_instruction_type(data: &[u8]) -> (r: Option<MeteoraDynInstructionType>)
    ensures
        r == sp_identify_meteoradyn(data@),
{
    if data.len() < 8 {
        None
    } else if starts_with(data, &init_permissionless_pool_ix_discriminator()) {
        Some(MeteoraDynInstructionType::InitializePermissionlessPool)
    } else {
        Some(MeteoraDynInstructionType::Unknown)
    }
}

/// What parsing the curve type at `o` yields: a one-byte shape tag; the
/// stable shape carries its packed parameters.
pub open spec fn sp_parse_curve_type(d: Seq<u8>, o: nat) -> Result<(CurveType, nat), ParseError> {
    if o + 1 > d.len() {
        Err(ParseError::Insufficient)
    } else if d[o as int] == 0 {
        Ok((CurveType::ConstantProduct, o + 1))
    } else if d[o as int] == 1 {
        if o + 51 <= d.len() {
            Ok(
                (
                    CurveType::Stable {
                        amp: le_bytes(d.subrange(o as int + 1, o as int + 9)) as u64,
                        token_multiplier: TokenMultiplier {
                            token_a_multiplier: le_bytes(
                                d.subrange(o as int + 9, o as int + 17),
                            ) as u64,
                            token_b_multiplier: le_bytes(
                                d.subrange(o as int + 17, o as int + 25),
                            ) as u64,
                            precision_factor: d[o as int + 25],
                        },
                        depeg: Depeg {
                            base_virtual_price: le_bytes(
                                d.subrange(o as int + 26, o as int + 34),
                            ) as u64,
                            base_cache_updated: le_bytes(
                                d.subrange(o as int + 34, o as int + 42),
                            ) as u64,
                            depeg_type: d[o as int + 42],
                        },
                        last_amp_updated_timestamp: le_bytes(
                            d.subrange(o as int + 43, o as int + 51),
                        ) as u64,
                    },
                    o + 51,
                ),
            )
        } else {
            Err(ParseError::Insufficient)
        }
    } else {
        Err(ParseError::InvalidDiscriminant)
    }
}

/// Parse the curve type.
pub fn parse_curve_type(data: &[u8], offset: &mut usize) -> (r: Result<CurveType, ParseError>)
    ensures
        match r {
            Ok(c) => sp_parse_curve_type(data@, *old(offset) as nat) matches Ok(p) && c == p.0
                && p.1 == *final(offset),
            Err(e) => sp_parse_curve_type(data@, *old(offset) as nat) == Err::<
                (CurveType, nat),
                ParseError,
            >(e) && *old(offset) == *final(offset),
        },
{
    let mut cursor: usize = *offset;
    let tag = match parse_u8(data, &mut cursor) {
        Ok(v) => v,
        Err(e) => {
            return Err(e);
        },
    };
    match tag {
        0 => {
            *offset = cursor;
            Ok(CurveType::ConstantProduct)
        },
        1 => {
            let amp = match parse_u64(data, &mut cursor) {
                Ok(v) => v,
                Err(e) => {
                    return Err(e);
                },
            };
            let token_a_multiplier = match parse_u64(data, &mut cursor) {
                Ok(v) => v,
                Err(e) => {
                    return Err(e);
                },
            };
            let token_b_multiplier = match parse_u64(data, &mut cursor) {
                Ok(v) => v,
                Err(e) => {
                    return Err(e);
                },
            };
            let precision_factor = match parse_u8(data, &mut cursor) {
                Ok(v) => v,
                Err(e) => {
                    return Err(e);
                },
            };
            let base_virtual_price = match parse_u64(data, &mut cursor) {
                Ok(v) => v,
                Err(e) => {
                    return Err(e);
                },
            };
            let base_cache_updated = match parse_u64(data, &mut cursor) {
                Ok(v) => v,
                Err(e) => {
                    return Err(e);
                },
            };
            let depeg_type = match parse_u8(data, &mut cursor) {
                Ok(v) => v,
                Err(e) => {
                    return Err(e);
                },
            };
            let last_amp_updated_timestamp = match parse_u64(data, &mut cursor) {
                Ok(v) => v,
                Err(e) => {
                    return Err(e);
                },
            };
            *offset = cursor;
            Ok(
                CurveType::Stable {
                    amp,
                    token_multiplier: TokenMultiplier {
                        token_a_multiplier,
                        token_b_multiplier,
                        precision_factor,
                    },
                    depeg: Depeg { base_virtual_price, base_cache_updated, depeg_type },
                    last_amp_updated_timestamp,
                },
            )
        },
        _ => Err(ParseError::InvalidDiscriminant),
    }
}

/// What parsing the pool parameters after the discriminator yields: the
/// curve type and the two token amounts.
pub open spec fn sp_parse_init_permissionless_pool(d: Seq<u8>) -> Result<
    (CurveType, u64, u64),
    ParseError,
> {
    match sp_parse_curve_type(d, 0) {
        Ok((curve, o)) => if o + 16 <= d.len() {
            Ok(
                (
                    curve,
                    le_bytes(d.subrange(o as int, o as int + 8)) as u64,
                    le_bytes(d.subrange(o as int + 8, o as int + 16)) as u64,
                ),
            )
        } else {
            Err(ParseError::Insufficient)
        },
        Err(e) => Err(e),
    }
}

/// Decode an `InitializePermissionlessPool` instruction into its normalized
/// record; the instruction must carry at least 24 accounts.
pub fn deserialize_meteoradyn_initialize_permissionless_pool_instruction(
    data: &[u8],
    accounts_indices: &[u8],
    account_keys: &Vec<Pubkey>,
    is_signer: &Vec<bool>,
    is_writable: &Vec<bool>,
) -> (r: Result<DecodedInstruction, DecodeError>)
    ensures
        sp_meteoradyn_init_pool_result(
            r,
            data@,
            accounts_indices@,
            account_keys@,
            is_signer@,
            is_writable@,
        ),
{
    if data.len() <= 8 {
        return Err(DecodeError::Parse(ParseError::Insufficient));
    }
    if accounts_indices.len() < 24 {
        return Err(DecodeError::InsufficientAccounts);
    }
    let remaining = slice_subrange(data, 8, data.len());
    let mut offset: usize = 0;
    let curve_type = match parse_curve_type(remaining, &mut offset) {
        Ok(c) => c,
        Err(e) => {
            return Err(DecodeError::Parse(e));
        },
    };
    let token_a_amount = match parse_u64(remaining, &mut offset) {
        Ok(v) => v,
        Err(e) => {
            return Err(DecodeError::Parse(e));
        },
    };
    let token_b_amount = match parse_u64(remaining, &mut offset) {
        Ok(v) => v,
        Err(e) => {
            return Err(DecodeError::Parse(e));
        },
    };
    let parsed = ParsedParams::MeteoraDynInitializePermissionlessPool(
        InitializePermissionlessPoolParams { curve_type, token_a_amount, token_b_amount },
    );
    Ok(
        create_standardized_instruction(
            &crate::programs::meteoradyn_program_id(),
            "InitializePermissionlessPool",
            "MeteoraDyn",
            data,
            accounts_indices,
            account_keys,
            is_signer,
            is_writable,
            parsed,
        ),
    )
}

/// The exact result of this decoder on the given inputs.
pub open spec fn sp_meteoradyn_init_pool_result(
    r: Result<DecodedInstruction, DecodeError>,
    d_arg: Seq<u8>,
    ai: Seq<u8>,
    keys: Seq<Pubkey>,
    sg: Seq<bool>,
    wr: Seq<bool>,
) -> bool {
    ({
            let d = d_arg;
            if d.len() <= 8 {
                r == Err::<DecodedInstruction, DecodeError>(
                    DecodeError::Parse(ParseError::Insufficient),
                )
            } else if ai.len() < 24 {
                r == Err::<DecodedInstruction, DecodeError>(DecodeError::InsufficientAccounts)
            } else {
                match sp_parse_init_permissionless_pool(d.subrange(8, d.len() as int)) {
                    Ok(f) => r matches Ok(ins) && sp_record_envelope(
                        ins,
                        sp_meteoradyn_program_id(),
                        "InitializePermissionlessPool"@,
                        "MeteoraDyn"@,
                        d,
                        ai,
                        keys,
                        sg,
                        wr,
                    ) && (
                    ins.parsed_data matches ParsedParams::MeteoraDynInitializePermissionlessPool(
                        p,
                    ) && p.curve_type == f.0 && p.token_a_amount == f.1 && p.token_b_amount
                        == f.2),
                    Err(e) => r == Err::<DecodedInstruction, DecodeError>(DecodeError::Parse(e)),
                }
            }
        })
}

} // verus!
