//! Moonit program decoding: instruction identification and parameter layout.

use vstd::prelude::*;
use vstd::slice::slice_subrange;
use crate::bytes::{starts_with, parse_string, parse_u8, parse_u64, sp_parse_string, le_bytes, ParseError};
use crate::record::{DecodedInstruction, DecodeError, ParsedParams, create_standardized_instruction, sp_record_envelope};
use crate::programs::sp_moonit_program_id;
use crate::Pubkey;

verus! {

/// The 8-byte discriminator of this variant's instruction data.
pub open spec fn sp_moonit_token_mint_instruction_discriminator() -> Seq<u8> {
    seq![3, 44, 164, 184, 123, 13, 245, 179]
}

/// The 8-byte discriminator of this variant's instruction data, as bytes.
pub fn moonit_token_mint_instruction_discriminator() -> (r: Vec<u8>)
    ensures
        r@ == sp_moonit_token_mint_instruction_discriminator(),
{
    let r: Vec<u8> = vec![3, 44, 164, 184, 123, 13, 245, 179];
    proof {
        assert(r@ =~= sp_moonit_token_mint_instruction_discriminator());
    }
    r
}


/// The Moonit instructions this library decodes.
#[derive(Clone, Copy, Debug, PartialEq, Eq, Structural)]
pub enum MoonitInstructionType {
    TokenMint,
}

/// Parameters of a Moonit `TokenMint` instruction.
#[derive(Clone, Debug)]
pub struct TokenMintParams {
    pub name: String,
    pub symbol: String,
    pub uri: String,
    pub decimals: u8,
    pub collateral_currency: u8,
    pub amount: u64,
    pub curve_type: u8,
    pub migration_target: u8,
}

/// Which Moonit instruction an instruction-data prefix names.
pub open spec fn sp_identify_moonit(data: Seq<u8>) -> Option<MoonitInstructionType> {
    if data.len() >= 8 && data.subrange(0, 8) == sp_moonit_token_mint_instruction_discriminator() {
        Some(MoonitInstructionType::TokenMint)
    } else {
        None
    }
}

/// Identify a Moonit instruction by its leading 8-byte discriminator.
pub fn get_moonit_instruction_type(data: &[u8]) -> (r: Option<MoonitInstructionType>)
    ensures
        r == sp_identify_moonit(data@),
{
    if starts_with(data, &moonit_token_mint_instruction_discriminator()) {
        Some(MoonitInstructionType::TokenMint)
    } else {
        None
    }
}

/// What parsing `TokenMint` parameters after the discriminator yields:
/// three length-prefixed strings and five packed numeric fields.
pub open spec fn sp_parse_token_mint(d: Seq<u8>) -> Result<
    (Seq<char>, Seq<char>, Seq<char>, u8, u8, u64, u8, u8),
    ParseError,
> {
    match sp_parse_string(d, 0) {
        Ok((name, o1)) => match sp_parse_string(d, o1) {
            Ok((symbol, o2)) => match sp_parse_string(d, o2) {
                Ok((uri, o3)) => if o3 + 12 <= d.len() {
                    Ok(
                        (
                            name,
                            symbol,
                            uri,
                            d[o3 as int],
                            d[o3 as int + 1],
                            le_bytes(d.subrange(o3 as int + 2, o3 as int + 10)) as u64,
                            d[o3 as int + 10],
                            d[o3 as int + 11],
                        ),
                    )
                } else {
                    Err(ParseError::Insufficient)
                },
                Err(e) => Err(e),
            },
            Err(e) => Err(e),
        },
        Err(e) => Err(e),
    }
}

/// Decode a Moonit `TokenMint` instruction into its normalized record.
pub fn deserialize_moonit_token_mint_instruction(
    data: &[u8],
    accounts_indices: &[u8],
    account_keys: &Vec<Pubkey>,
    is_signer: &Vec<bool>,
    is_writable: &Vec<bool>,
) -> (r: Result<DecodedInstruction, DecodeError>)
    ensures
        sp_moonit_token_mint_result(
            r,
            data@,
            accounts_indices@,
            account_keys@,
            is_signer@,
            is_writable@,
        ),
{
    if data.len() < 8 {
        return Err(DecodeError::Parse(ParseError::Insufficient));
    }
    let remaining = slice_subrange(data, 8, data.len());
    let mut offset: usize = 0;
    let name = match parse_string(remaining, &mut offset) {
        Ok(s) => s,
        Err(e) => {
            return Err(DecodeError::Parse(e));
        },
    };
    let symbol = match parse_string(remaining, &mut offset) {
        Ok(s) => s,
        Err(e) => {
            return Err(DecodeError::Parse(e));
        },
    };
    let uri = match parse_string(remaining, &mut offset) {
        Ok(s) => s,
        Err(e) => {
            return Err(DecodeError::Parse(e));
        },
    };
    let decimals = match parse_u8(remaining, &mut offset) {
        Ok(v) => v,
        Err(e) => {
            return Err(DecodeError::Parse(e));
        },
    };
    let collateral_currency = match parse_u8(remaining, &mut offset) {
        Ok(v) => v,
        Err(e) => {
            return Err(DecodeError::Parse(e));
        },
    };
    let amount = match parse_u64(remaining, &mut offset) {
        Ok(v) => v,
        Err(e) => {
            return Err(DecodeError::Parse(e));
        },
    };
    let curve_type = match parse_u8(remaining, &mut offset) {
        Ok(v) => v,
        Err(e) => {
            return Err(DecodeError::Parse(e));
        },
    };
    let migration_target = match parse_u8(remaining, &mut offset) {
        Ok(v) => v,
        Err(e) => {
            return Err(DecodeError::Parse(e));
        },
    };
    let parsed = ParsedParams::MoonitTokenMint(
        TokenMintParams {
            name,
            symbol,
            uri,
            decimals,
            collateral_currency,
            amount,
            curve_type,
            migration_target,
        },
    );
    Ok(
        create_standardized_instruction(
            &crate::programs::moonit_program_id(),
            "TokenMint",
            "Moonit",
            data,
            accounts_indices,
            account_keys,
            is_signer,
            is_writable,
            parsed,
        ),
    )
}

/// The exact result of this decoder on the given inputs.
pub open spec fn sp_moonit_token_mint_result(
    r: Result<DecodedInstruction, DecodeError>,
    d_arg: Seq<u8>,
    ai: Seq<u8>,
    keys: Seq<Pubkey>,
    sg: Seq<bool>,
    wr: Seq<bool>,
) -> bool {
    ({
            let d = d_arg;
            if d.len() < 8 {
                r == Err::<DecodedInstruction, DecodeError>(
                    DecodeError::Parse(ParseError::Insufficient),
                )
            } else {
                match sp_parse_token_mint(d.subrange(8, d.len() as int)) {
                    Ok(f) => r matches Ok(ins) && sp_record_envelope(
                        ins,
                        sp_moonit_program_id(),
                        "TokenMint"@,
                        "Moonit"@,
                        d,
                        ai,
                        keys,
                        sg,
                        wr,
                    ) && (ins.parsed_data matches ParsedParams::MoonitTokenMint(p) && p.name@
                        == f.0 && p.symbol@ == f.1 && p.uri@ == f.2 && p.decimals == f.3
                        && p.collateral_currency == f.4 && p.amount == f.5 && p.curve_type == f.6
                        && p.migration_target == f.7),
                    Err(e) => r == Err::<DecodedInstruction, DecodeError>(DecodeError::Parse(e)),
                }
            }
        })
}

} // verus!
