//! Pumpfun program decoding: instruction identification and parameter layouts.

use vstd::prelude::*;
use vstd::slice::slice_subrange;
use crate::bytes::{starts_with, parse_string, parse_u64, parse_pubkey, sp_parse_string, le_bytes, ParseError};
use crate::record::{DecodedInstruction, DecodeError, ParsedParams, create_standardized_instruction, sp_record_envelope};
use crate::programs::sp_pumpfun_program_id;
use crate::Pubkey;

verus! {

/// The 8-byte discriminator of this variant's instruction data.
pub open spec fn sp_pump_create_instruction_discriminator() -> Seq<u8> {
    seq![24, 30, 200, 40, 5, 28, 7, 119]
}

/// The 8-byte discriminator of this variant's instruction data, as bytes.
pub fn pump_create_instruction_discriminator() -> (r: Vec<u8>)
    ensures
        r@ == sp_pump_create_instruction_discriminator(),
{
    let r: Vec<u8> = vec![24, 30, 200, 40, 5, 28, 7, 119];
    proof {
        assert(r@ =~= sp_pump_create_instruction_discriminator());
    }
    r
}

/// The 8-byte discriminator of this variant's instruction data.
pub open spec fn sp_pump_buy_instruction_discriminator() -> Seq<u8> {
    seq![102, 6, 61, 18, 1, 218, 235, 234]
}

/// The 8-byte discriminator of this variant's instruction data, as bytes.
pub fn pump_buy_instruction_discriminator() -> (r: Vec<u8>)
    ensures
        r@ == sp_pump_buy_instruction_discriminator(),
{
    let r: Vec<u8> = vec![102, 6, 61, 18, 1, 218, 235, 234];
    proof {
        assert(r@ =~= sp_pump_buy_instruction_discriminator());
    }
    r
}


/// The Pumpfun instructions this library decodes.
#[derive(Clone, Copy, Debug, PartialEq, Eq, Structural)]
pub enum PumpfunInstructionType {
    Create,
    Buy,
}

/// Parameters of a Pumpfun `Create` instruction.
#[derive(Clone, Debug)]
pub struct CreateParams {
    pub name: String,
    pub symbol: String,
    pub uri: String,
    pub creator: Pubkey,
}

/// Parameters of a Pumpfun `Buy` instruction.
#[derive(Clone, Copy, Debug, PartialEq, Eq, Structural)]
pub struct BuyParams {
    pub amount: u64,
    pub max_sol_cost: u64,
}

/// Fields of a Pumpfun trade event record.
#[derive(Clone, Debug)]
pub struct TradeEventParams {
    pub mint: Pubkey,
    pub sol_amount: u64,
    pub token_amount: u64,
    pub is_buy: bool,
    pub user: Pubkey,
    pub timestamp: i64,
    pub virtual_sol_reserves: u64,
    pub virtual_token_reserves: u64,
    pub real_sol_reserves: u64,
    pub real_token_reserves: u64,
}

/// Which Pumpfun instruction an instruction-data prefix names.
pub open spec fn sp_identify_pumpfun(data: Seq<u8>) -> Option<PumpfunInstructionType> {
    if data.len() >= 8 && data.subrange(0, 8) == sp_pump_create_instruction_discriminator() {
        Some(PumpfunInstructionType::Create)
    } else if data.len() >= 8 && data.subrange(0, 8) == sp_pump_buy_instruction_discriminator() {
        Some(PumpfunInstructionType::Buy)
    } else {
        None
    }
}

/// Identify a Pumpfun instruction by its leading 8-byte discriminator.
pub fn get_pumpfun_instruction_type(data: &[u8]) -> (r: Option<PumpfunInstructionType>)
    ensures
        r == sp_identify_pumpfun(data@),
{
    if starts_with(data, &pump_create_instruction_discriminator()) {
        Some(PumpfunInstructionType::Create)
    } else if starts_with(data, &pump_buy_instruction_discriminator()) {
        Some(PumpfunInstructionType::Buy)
    } else {
        None
    }
}

/// What parsing `Create` parameters after the discriminator yields: three
/// length-prefixed strings and a 32-byte creator address.
pub open spec fn sp_parse_pump_create(d: Seq<u8>) -> Result<
    (Seq<char>, Seq<char>, Seq<char>, Seq<u8>),
    ParseError,
> {
    match sp_parse_string(d, 0) {
        Ok((name, o1)) => match sp_parse_string(d, o1) {
            Ok((symbol, o2)) => match sp_parse_string(d, o2) {
                Ok((uri, o3)) => if o3 + 32 <= d.len() {
                    Ok((name, symbol, uri, d.subrange(o3 as int, o3 as int + 32)))
                } else {
                    Err(ParseError::Insufficient)
                },
                Err(e) => Err(e),
            },
            Err(e) => Err(e),
        },
        Err(e) => Err(e),
    }
}

/// Decode a Pumpfun `Create` instruction into its normalized record.
pub fn deserialize_pump_create_instruction(
    data: &[u8],
    accounts_indices: &[u8],
    account_keys: &Vec<Pubkey>,
    is_signer: &Vec<bool>,
    is_writable: &Vec<bool>,
) -> (r: Result<DecodedInstruction, DecodeError>)
    ensures
        sp_pump_create_result(
            r,
            data@,
            accounts_indices@,
            account_keys@,
            is_signer@,
            is_writable@,
        ),
{
    if data.len() < 8 {
        return Err(DecodeError::Parse(ParseError::Insufficient));
    }
    let remaining = slice_subrange(data, 8, data.len());
    let mut offset: usize = 0;
    let name = match parse_string(remaining, &mut offset) {
        Ok(s) => s,
        Err(e) => {
            return Err(DecodeError::Parse(e));
        },
    };
    let symbol = match parse_string(remaining, &mut offset) {
        Ok(s) => s,
        Err(e) => {
            return Err(DecodeError::Parse(e));
        },
    };
    let uri = match parse_string(remaining, &mut offset) {
        Ok(s) => s,
        Err(e) => {
            return Err(DecodeError::Parse(e));
        },
    };
    let creator = match parse_pubkey(remaining, &mut offset) {
        Ok(k) => k,
        Err(e) => {
            return Err(DecodeError::Parse(e));
        },
    };
    let parsed = ParsedParams::PumpfunCreate(CreateParams { name, symbol, uri, creator });
    Ok(
        create_standardized_instruction(
            &crate::programs::pumpfun_program_id(),
            "Create",
            "Pumpfun",
            data,
            accounts_indices,
            account_keys,
            is_signer,
            is_writable,
            parsed,
        ),
    )
}

/// Decode a Pumpfun `Buy` instruction into its normalized record.
pub fn deserialize_pump_buy_instruction(
    data: &[u8],
    accounts_indices: &[u8],
    account_keys: &Vec<Pubkey>,
    is_signer: &Vec<bool>,
    is_writable: &Vec<bool>,
) -> (r: Result<DecodedInstruction, DecodeError>)
    ensures
        sp_pump_buy_result(
            r,
            data@,
            accounts_indices@,
            account_keys@,
            is_signer@,
            is_writable@,
        ),
{
    if data.len() < 24 {
        return Err(DecodeError::Parse(ParseError::Insufficient));
    }
    let mut offset: usize = 8;
    let amount = parse_u64(data, &mut offset).unwrap();
    let max_sol_cost = parse_u64(data, &mut offset).unwrap();
    let parsed = ParsedParams::PumpfunBuy(BuyParams { amount, max_sol_cost });
    Ok(
        create_standardized_instruction(
            &crate::programs::pumpfun_program_id(),
            "Buy",
            "Pumpfun",
            data,
            accounts_indices,
            account_keys,
            is_signer,
            is_writable,
            parsed,
        ),
    )
}

/// The exact result of this decoder on the given inputs.
pub open spec fn sp_pump_create_result(
    r: Result<DecodedInstruction, DecodeError>,
    d_arg: Seq<u8>,
    ai: Seq<u8>,
    keys: Seq<Pubkey>,
    sg: Seq<bool>,
    wr: Seq<bool>,
) -> bool {
    ({
            let d = d_arg;
            if d.len() < 8 {
                r == Err::<DecodedInstruction, DecodeError>(
                    DecodeError::Parse(ParseError::Insufficient),
                )
            } else {
                match sp_parse_pump_create(d.subrange(8, d.len() as int)) {
                    Ok(f) => r matches Ok(ins) && sp_record_envelope(
                        ins,
                        sp_pumpfun_program_id(),
                        "Create"@,
                        "Pumpfun"@,
                        d,
                        ai,
                        keys,
                        sg,
                        wr,
                    ) && (ins.parsed_data matches ParsedParams::PumpfunCreate(p) && p.name@ == f.0
                        && p.symbol@ == f.1 && p.uri@ == f.2 && p.creator@ == f.3),
                    Err(e) => r == Err::<DecodedInstruction, DecodeError>(DecodeError::Parse(e)),
                }
            }
        })
}

/// The exact result of this decoder on the given inputs.
pub open spec fn sp_pump_buy_result(
    r: Result<DecodedInstruction, DecodeError>,
    d_arg: Seq<u8>,
    ai: Seq<u8>,
    keys: Seq<Pubkey>,
    sg: Seq<bool>,
    wr: Seq<bool>,
) -> bool {
    ({
            let d = d_arg;
            if d.len() < 24 {
                r == Err::<DecodedInstruction, DecodeError>(
                    DecodeError::Parse(ParseError::Insufficient),
                )
            } else {
                r matches Ok(ins) && sp_record_envelope(
                    ins,
                    sp_pumpfun_program_id(),
                    "Buy"@,
                    "Pumpfun"@,
                    d,
                    ai,
                    keys,
                    sg,
                    wr,
                ) && (ins.parsed_data matches ParsedParams::PumpfunBuy(p) && p.amount as nat
                    == le_bytes(d.subrange(8, 16)) && p.max_sol_cost as nat == le_bytes(
                    d.subrange(16, 24),
                ))
            }
        })
}

} // verus!
