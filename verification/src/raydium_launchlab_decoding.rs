//! Raydium LaunchLab program decoding: instruction identification and parameter layouts.

use vstd::prelude::*;
use vstd::slice::slice_subrange;
use crate::bytes::{
    starts_with, parse_string, parse_u8, parse_u64, sp_parse_string, le_bytes, ParseError,
};
use crate::record::{DecodedInstruction, DecodeError, ParsedParams, create_standardized_instruction, sp_record_envelope};
use crate::programs::sp_raydium_launchlab_program_id;
use crate::Pubkey;

verus! {

/// The 8-byte discriminator of this variant's instruction data.
pub open spec fn sp_raydium_launchlab_initialize_instruction_discriminator() -> Seq<u8> {
    seq![175, 175, 109, 31, 13, 152, 155, 237]
}

/// The 8-byte discriminator of this variant's instruction data, as bytes.
pub fn raydium_launchlab_initialize_instruction_discriminator() -> (r: Vec<u8>)
    ensures
        r@ == sp_raydium_launchlab_initialize_instruction_discriminator(),
{
    let r: Vec<u8> = vec![175, 175, 109, 31, 13, 152, 155, 237];
    proof {
        assert(r@ =~= sp_raydium_launchlab_initialize_instruction_discriminator());
    }
    r
}


/// The Raydium LaunchLab instructions this library decodes.
#[derive(Clone, Copy, Debug, PartialEq, Eq, Structural)]
pub enum RaydiumLaunchlabInstructionType {
    Initialize,
}

/// The token-mint parameters of a LaunchLab `Initialize` instruction.
#[derive(Clone, Debug)]
pub struct MintParams {
    pub decimals: u8,
    pub name: String,
    pub symbol: String,
    pub uri: String,
}

/// The bonding-curve parameters of a LaunchLab `Initialize` instruction,
/// one of three curve shapes.
#[derive(Clone, Copy, Debug, PartialEq, Eq, Structural)]
pub enum CurveParams {
    Constant { supply: u64, total_base_sell: u64, total_quote_fund_raising: u64, migrate_type: u8 },
    Fixed { supply: u64, total_quote_fund_raising: u64, migrate_type: u8 },
    Linear { supply: u64, total_quote_fund_raising: u64, migrate_type: u8 },
}

impl Default for CurveParams {
    /// A zeroed constant curve.
    fn default() -> (r: CurveParams)
        ensures
            r == (CurveParams::Constant {
                supply: 0u64,
                total_base_sell: 0u64,
                total_quote_fund_raising: 0u64,
                migrate_type: 0u8,
            }),
    {
        CurveParams::Constant {
            supply: 0,
            total_base_sell: 0,
            total_quote_fund_raising: 0,
            migrate_type: 0,
        }
    }
}

/// The vesting parameters of a LaunchLab `Initialize` instruction.
#[derive(Clone, Copy, Debug, PartialEq, Eq, Structural)]
pub struct VestingParams {
    pub total_locked_amount: u64,
    pub cliff_period: u64,
    pub unlock_period: u64,
}

/// Which LaunchLab instruction an instruction-data prefix names.
pub open spec fn sp_identify_raydium_launchlab(data: Seq<u8>) -> Option<
    RaydiumLaunchlabInstructionType,
> {
    if data.len() >= 8 && data.subrange(0, 8)
        == sp_raydium_launchlab_initialize_instruction_discriminator() {
        Some(RaydiumLaunchlabInstructionType::Initialize)
    } else {
        None
    }
}

/// Identify a LaunchLab instruction by its leading 8-byte discriminator.
pub fn get_raydium_launchlab_instruction_type(data: &[u8]) -> (r: Option<
    RaydiumLaunchlabInstructionType,
>)
    ensures
        r == sp_identify_raydium_launchlab(data@),
{
    if starts_with(data, &raydium_launchlab_initialize_instruction_discriminator()) {
        Some(RaydiumLaunchlabInstructionType::Initialize)
    } else {
        None
    }
}

/// What parsing the curve parameters at `o` yields: a one-byte shape tag,
/// then the shape's packed fields.
pub open spec fn sp_parse_curve_params(d: Seq<u8>, o: nat) -> Result<(CurveParams, nat), ParseError> {
    if o + 1 > d.len() {
        Err(ParseError::Insufficient)
    } else if d[o as int] == 0 {
        if o + 26 <= d.len() {
            Ok(
                (
                    CurveParams::Constant {
                        supply: le_bytes(d.subrange(o as int + 1, o as int + 9)) as u64,
                        total_base_sell: le_bytes(d.subrange(o as int + 9, o as int + 17)) as u64,
                        total_quote_fund_raising: le_bytes(
                            d.subrange(o as int + 17, o as int + 25),
                        ) as u64,
                        migrate_type: d[o as int + 25],
                    },
                    o + 26,
                ),
            )
        } else {
            Err(ParseError::Insufficient)
        }
    } else if d[o as int] == 1 {
        if o + 18 <= d.len() {
            Ok(
                (
                    CurveParams::Fixed {
                        supply: le_bytes(d.subrange(o as int + 1, o as int + 9)) as u64,
                        total_quote_fund_raising: le_bytes(
                            d.subrange(o as int + 9, o as int + 17),
                        ) as u64,
                        migrate_type: d[o as int + 17],
                    },
                    o + 18,
                ),
            )
        } else {
            Err(ParseError::Insufficient)
        }
    } else if d[o as int] == 2 {
        if o + 18 <= d.len() {
            Ok(
                (
                    CurveParams::Linear {
                        supply: le_bytes(d.subrange(o as int + 1, o as int + 9)) as u64,
                        total_quote_fund_raising: le_bytes(
                            d.subrange(o as int + 9, o as int + 17),
                        ) as u64,
                        migrate_type: d[o as int + 17],
                    },
                    o + 18,
                ),
            )
        } else {
            Err(ParseError::Insufficient)
        }
    } else {
        Err(ParseError::InvalidDiscriminant)
    }
}

/// Parse the curve parameters.
pub fn parse_curve_params(data: &[u8], offset: &mut usize) -> (r: Result<CurveParams, ParseError>)
    ensures
        match r {
            Ok(c) => sp_parse_curve_params(data@, *old(offset) as nat) matches Ok(p) && c == p.0
                && p.1 == *final(offset),
            Err(e) => sp_parse_curve_params(data@, *old(offset) as nat) == Err::<
                (CurveParams, nat),
                ParseError,
            >(e) && *old(offset) == *final(offset),
        },
{
    let mut cursor: usize = *offset;
    let tag = match parse_u8(data, &mut cursor) {
        Ok(v) => v,
        Err(e) => {
            return Err(e);
        },
    };
    match tag {
        0 => {
            let supply = match parse_u64(data, &mut cursor) {
                Ok(v) => v,
                Err(e) => {
                    return Err(e);
                },
            };
            let total_base_sell = match parse_u64(data, &mut cursor) {
                Ok(v) => v,
                Err(e) => {
                    return Err(e);
                },
            };
            let total_quote_fund_raising = match parse_u64(data, &mut cursor) {
                Ok(v) => v,
                Err(e) => {
                    return Err(e);
                },
            };
            let migrate_type = match parse_u8(data, &mut cursor) {
                Ok(v) => v,
                Err(e) => {
                    return Err(e);
                },
            };
            *offset = cursor;
            Ok(
                CurveParams::Constant {
                    supply,
                    total_base_sell,
                    total_quote_fund_raising,
                    migrate_type,
                },
            )
        },
        1 => {
            let supply = match parse_u64(data, &mut cursor) {
                Ok(v) => v,
                Err(e) => {
                    return Err(e);
                },
            };
            let total_quote_fund_raising = match parse_u64(data, &mut cursor) {
                Ok(v) => v,
                Err(e) => {
                    return Err(e);
                },
            };
            let migrate_type = match parse_u8(data, &mut cursor) {
                Ok(v) => v,
                Err(e) => {
                    return Err(e);
                },
            };
            *offset = cursor;
            Ok(CurveParams::Fixed { supply, total_quote_fund_raising, migrate_type })
        },
        2 => {
            let supply = match parse_u64(data, &mut cursor) {
                Ok(v) => v,
                Err(e) => {
                    return Err(e);
                },
            };
            let total_quote_fund_raising = match parse_u64(data, &mut cursor) {
                Ok(v) => v,
                Err(e) => {
                    return Err(e);
                },
            };
            let migrate_type = match parse_u8(data, &mut cursor) {
                Ok(v) => v,
                Err(e) => {
                    return Err(e);
                },
            };
            *offset = cursor;
            Ok(CurveParams::Linear { supply, total_quote_fund_raising, migrate_type })
        },
        _ => Err(ParseError::InvalidDiscriminant),
    }
}

/// What parsing the `Initialize` parameters after the discriminator yields:
/// the mint parameters (a decimals byte and three strings), the curve
/// parameters, and the three vesting amounts.
pub open spec fn sp_parse_launchlab_initialize(d: Seq<u8>) -> Result<
    (u8, Seq<char>, Seq<char>, Seq<char>, CurveParams, u64, u64, u64),
    ParseError,
> {
    if d.len() < 1 {
        Err(ParseError::Insufficient)
    } else {
        match sp_parse_string(d, 1) {
            Ok((name, o1)) => match sp_parse_string(d, o1) {
                Ok((symbol, o2)) => match sp_parse_string(d, o2) {
                    Ok((uri, o3)) => match sp_parse_curve_params(d, o3) {
                        Ok((curve, o4)) => if o4 + 24 <= d.len() {
                            Ok(
                                (
                                    d[0],
                                    name,
                                    symbol,
                                    uri,
                                    curve,
                                    le_bytes(d.subrange(o4 as int, o4 as int + 8)) as u64,
                                    le_bytes(d.subrange(o4 as int + 8, o4 as int + 16)) as u64,
                                    le_bytes(d.subrange(o4 as int + 16, o4 as int + 24)) as u64,
                                ),
                            )
                        } else {
                            Err(ParseError::Insufficient)
                        },
                        Err(e) => Err(e),
                    },
                    Err(e) => Err(e),
                },
                Err(e) => Err(e),
            },
            Err(e) => Err(e),
        }
    }
}

/// Decode a LaunchLab `Initialize` instruction into its normalized record.
pub fn deserialize_raydium_launchlab_initialize_instruction(
    data: &[u8],
    accounts_indices: &[u8],
    account_keys: &Vec<Pubkey>,
    is_signer: &Vec<bool>,
    is_writable: &Vec<bool>,
) -> (r: Result<DecodedInstruction, DecodeError>)
    ensures
        sp_launchlab_initialize_result(
            r,
            data@,
            accounts_indices@,
            account_keys@,
            is_signer@,
            is_writable@,
        ),
{
    if data.len() < 8 {
        return Err(DecodeError::Parse(ParseError::Insufficient));
    }
    let remaining = slice_subrange(data, 8, data.len());
    let mut offset: usize = 0;
    let decimals = match parse_u8(remaining, &mut offset) {
        Ok(v) => v,
        Err(e) => {
            return Err(DecodeError::Parse(e));
        },
    };
    let name = match parse_string(remaining, &mut offset) {
        Ok(s) => s,
        Err(e) => {
            return Err(DecodeError::Parse(e));
        },
    };
    let symbol = match parse_string(remaining, &mut offset) {
        Ok(s) => s,
        Err(e) => {
            return Err(DecodeError::Parse(e));
        },
    };
    let uri = match parse_string(remaining, &mut offset) {
        Ok(s) => s,
        Err(e) => {
            return Err(DecodeError::Parse(e));
        },
    };
    let curve_param = match parse_curve_params(remaining, &mut offset) {
        Ok(c) => c,
        Err(e) => {
            return Err(DecodeError::Parse(e));
        },
    };
    let total_locked_amount = match parse_u64(remaining, &mut offset) {
        Ok(v) => v,
        Err(e) => {
            return Err(DecodeError::Parse(e));
        },
    };
    let cliff_period = match parse_u64(remaining, &mut offset) {
        Ok(v) => v,
        Err(e) => {
            return Err(DecodeError::Parse(e));
        },
    };
    let unlock_period = match parse_u64(remaining, &mut offset) {
        Ok(v) => v,
        Err(e) => {
            return Err(DecodeError::Parse(e));
        },
    };
    let parsed = ParsedParams::LaunchlabInitialize {
        base_mint_param: MintParams { decimals, name, symbol, uri },
        curve_param,
        vesting_param: VestingParams { total_locked_amount, cliff_period, unlock_period },
    };
    Ok(
        create_standardized_instruction(
            &crate::programs::raydium_launchlab_program_id(),
            "Initialize",
            "RaydiumLaunchLab",
            data,
            accounts_indices,
            account_keys,
            is_signer,
            is_writable,
            parsed,
        ),
    )
}

/// The exact result of this decoder on the given inputs.
pub open spec fn sp_launchlab_initialize_result(
    r: Result<DecodedInstruction, DecodeError>,
    d_arg: Seq<u8>,
    ai: Seq<u8>,
    keys: Seq<Pubkey>,
    sg: Seq<bool>,
    wr: Seq<bool>,
) -> bool {
    ({
            let d = d_arg;
            if d.len() < 8 {
                r == Err::<DecodedInstruction, DecodeError>(
                    DecodeError::Parse(ParseError::Insufficient),
                )
            } else {
                match sp_parse_launchlab_initialize(d.subrange(8, d.len() as int)) {
                    Ok(f) => r matches Ok(ins) && sp_record_envelope(
                        ins,
                        sp_raydium_launchlab_program_id(),
                        "Initialize"@,
                        "RaydiumLaunchLab"@,
                        d,
                        ai,
                        keys,
                        sg,
                        wr,
                    ) && (ins.parsed_data matches ParsedParams::LaunchlabInitialize {
                        base_mint_param,
                        curve_param,
                        vesting_param,
                    } && base_mint_param.decimals == f.0 && base_mint_param.name@ == f.1
                        && base_mint_param.symbol@ == f.2 && base_mint_param.uri@ == f.3
                        && curve_param == f.4 && vesting_param.total_locked_amount == f.5
                        && vesting_param.cliff_period == f.6 && vesting_param.unlock_period
                        == f.7),
                    Err(e) => r == Err::<DecodedInstruction, DecodeError>(DecodeError::Parse(e)),
                }
            }
        })
}

} // verus!
