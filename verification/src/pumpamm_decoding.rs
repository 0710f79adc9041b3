//! PumpAMM program decoding: instruction identification and parameter layouts.

use vstd::prelude::*;
use crate::bytes::{starts_with, parse_u16, parse_u64, parse_pubkey, le_bytes, ParseError};
use crate::record::{DecodedInstruction, DecodeError, ParsedParams, create_standardized_instruction, sp_record_envelope};
use crate::programs::sp_pumpamm_program_id;
use crate::Pubkey;

verus! {

/// The 8-byte discriminator of this variant's instruction data.
pub open spec fn sp_pumpamm_buy_instruction_discriminator() -> Seq<u8> {
    seq![102, 6, 61, 18, 1, 218, 235, 234]
}

/// The 8-byte discriminator of this variant's instruction data, as bytes.
pub fn pumpamm_buy_instruction_discriminator() -> (r: Vec<u8>)
    ensures
        r@ == sp_pumpamm_buy_instruction_discriminator(),
{
    let r: Vec<u8> = vec![102, 6, 61, 18, 1, 218, 235, 234];
    proof {
        assert(r@ =~= sp_pumpamm_buy_instruction_discriminator());
    }
    r
}

/// The 8-byte discriminator of this variant's instruction data.
pub open spec fn sp_pumpamm_sell_instruction_discriminator() -> Seq<u8> {
    seq![51, 230, 133, 164, 1, 127, 131, 173]
}

/// The 8-byte discriminator of this variant's instruction data, as bytes.
pub fn pumpamm_sell_instruction_discriminator() -> (r: Vec<u8>)
    ensures
        r@ == sp_pumpamm_sell_instruction_discriminator(),
{
    let r: Vec<u8> = vec![51, 230, 133, 164, 1, 127, 131, 173];
    proof {
        assert(r@ =~= sp_pumpamm_sell_instruction_discriminator());
    }
    r
}

/// The 8-byte discriminator of this variant's instruction data.
pub open spec fn sp_pumpamm_create_pool_discriminator() -> Seq<u8> {
    seq![233, 146, 209, 142, 207, 104, 64, 188]
}

/// The 8-byte discriminator of this variant's instruction data, as bytes.
pub fn pumpamm_create_pool_discriminator() -> (r: Vec<u8>)
    ensures
        r@ == sp_pumpamm_create_pool_discriminator(),
{
    let r: Vec<u8> = vec![233, 146, 209, 142, 207, 104, 64, 188];
    proof {
        assert(r@ =~= sp_pumpamm_create_pool_discriminator());
    }
    r
}

/// The 8-byte discriminator of this variant's instruction data.
pub open spec fn sp_pumpamm_deposit_discriminator() -> Seq<u8> {
    seq![242, 35, 198, 137, 82, 225, 242, 182]
}

/// The 8-byte discriminator of this variant's instruction data, as bytes.
pub fn pumpamm_deposit_discriminator() -> (r: Vec<u8>)
    ensures
        r@ == sp_pumpamm_deposit_discriminator(),
{
    let r: Vec<u8> = vec![242, 35, 198, 137, 82, 225, 242, 182];
    proof {
        assert(r@ =~= sp_pumpamm_deposit_discriminator());
    }
    r
}

/// The 8-byte discriminator of this variant's instruction data.
pub open spec fn sp_pumpamm_withdraw_discriminator() -> Seq<u8> {
    seq![183, 18, 70, 156, 148, 109, 161, 34]
}

/// The 8-byte discriminator of this variant's instruction data, as bytes.
pub fn pumpamm_withdraw_discriminator() -> (r: Vec<u8>)
    ensures
        r@ == sp_pumpamm_withdraw_discriminator(),
{
    let r: Vec<u8> = vec![183, 18, 70, 156, 148, 109, 161, 34];
    proof {
        assert(r@ =~= sp_pumpamm_withdraw_discriminator());
    }
    r
}


/// The PumpAMM instructions this library decodes; any other instruction of
/// the program is `Unknown`.
#[derive(Clone, Copy, Debug, PartialEq, Eq, Structural)]
pub enum PumpAmmInstructionType {
    Buy,
    Sell,
    CreatePool,
    Deposit,
    Withdraw,
    Unknown,
}

/// Parameters of a PumpAMM `Buy` instruction.
#[derive(Clone, Copy, Debug, PartialEq, Eq, Structural)]
pub struct BuyParams {
    pub base_amount_out: u64,
    pub max_quote_amount_in: u64,
}

/// Parameters of a PumpAMM `Sell` instruction.
#[derive(Clone, Copy, Debug, PartialEq, Eq, Structural)]
pub struct SellParams {
    pub base_amount_in: u64,
    pub min_quote_amount_out: u64,
}

/// Parameters of a PumpAMM `CreatePool` instruction.
#[derive(Clone, Debug)]
pub struct CreatePoolParams {
    pub index: u16,
    pub base_amount_in: u64,
    pub quote_amount_in: u64,
    pub coin_creator: Pubkey,
}

/// Parameters of a PumpAMM `Deposit` instruction.
#[derive(Clone, Copy, Debug, PartialEq, Eq, Structural)]
pub struct DepositParams {
    pub lp_token_amount_out: u64,
    pub max_base_amount_in: u64,
    pub max_quote_amount_in: u64,
}

/// Parameters of a PumpAMM `Withdraw` instruction.
#[derive(Clone, Copy, Debug, PartialEq, Eq, Structural)]
pub struct WithdrawParams {
    pub lp_token_amount_in: u64,
    pub min_base_amount_out: u64,
    pub min_quote_amount_out: u64,
}

/// Which PumpAMM instruction an instruction-data prefix names.
pub open spec fn sp_identify_pumpamm(data: Seq<u8>) -> Option<PumpAmmInstructionType> {
    if data.len() < 8 {
        None
    } else if data.subrange(0, 8) == sp_pumpamm_buy_instruction_discriminator() {
        Some(PumpAmmInstructionType::Buy)
    } else if data.subrange(0, 8) == sp_pumpamm_sell_instruction_discriminator() {
        Some(PumpAmmInstructionType::Sell)
    } else if data.subrange(0, 8) == sp_pumpamm_create_pool_discriminator() {
        Some(PumpAmmInstructionType::CreatePool)
    } else if data.subrange(0, 8) == sp_pumpamm_deposit_discriminator() {
        Some(PumpAmmInstructionType::Deposit)
    } else if data.subrange(0, 8) == sp_pumpamm_withdraw_discriminator() {
        Some(PumpAmmInstructionType::Withdraw)
    } else {
        Some(PumpAmmInstructionType::Unknown)
    }
}

/// Identify a PumpAMM instruction by its leading 8-byte discriminator.
pub fn get_pumpamm_instruction_type(data: &[u8]) -> (r: Option<PumpAmmInstructionType>)
    ensures
        r == sp_identify_pumpamm(data@),
{
    if data.len() < 8 {
        None
    } else if starts_with(data, &pumpamm_buy_instruction_discriminator()) {
        Some(PumpAmmInstructionType::Buy)
    } else if starts_with(data, &pumpamm_sell_instruction_discriminator()) {
        Some(PumpAmmInstructionType::Sell)
    } else if starts_with(data, &pumpamm_create_pool_discriminator()) {
        Some(PumpAmmInstructionType::CreatePool)
    } else if starts_with(data, &pumpamm_deposit_discriminator()) {
        Some(PumpAmmInstructionType::Deposit)
    } else if starts_with(data, &pumpamm_withdraw_discriminator()) {
        Some(PumpAmmInstructionType::Withdraw)
    } else {
        Some(PumpAmmInstructionType::Unknown)
    }
}

/// Decode a PumpAMM `Buy` instruction into its normalized record; the instruction must carry at least 17 accounts.
pub fn deserialize_pumpamm_buy_instruction(
    data: &[u8],
    accounts_indices: &[u8],
    account_keys: &Vec<Pubkey>,
    is_signer: &Vec<bool>,
    is_writable: &Vec<bool>,
) -> (r: Result<DecodedInstruction, DecodeError>)
    ensures
        sp_pumpamm_buy_result(
            r,
            data@,
            accounts_indices@,
            account_keys@,
            is_signer@,
            is_writable@,
        ),
{
    if accounts_indices.len() < 17 { return Err(DecodeError::InsufficientAccounts); }
    if data.len() < 24 {
        return Err(DecodeError::Parse(ParseError::Insufficient));
    }
    let mut offset: usize = 8;
    let base_amount_out = parse_u64(data, &mut offset).unwrap();
    let max_quote_amount_in = parse_u64(data, &mut offset).unwrap();
    let parsed = ParsedParams::PumpAmmBuy(BuyParams { base_amount_out, max_quote_amount_in });
    Ok(
        create_standardized_instruction(
            &crate::programs::pumpamm_program_id(),
            "Buy",
            "PumpAMM",
            data,
            accounts_indices,
            account_keys,
            is_signer,
            is_writable,
            parsed,
        ),
    )
}

/// Decode a PumpAMM `Sell` instruction into its normalized record; the instruction must carry at least 17 accounts.
pub fn deserialize_pumpamm_sell_instruction(
    data: &[u8],
    accounts_indices: &[u8],
    account_keys: &Vec<Pubkey>,
    is_signer: &Vec<bool>,
    is_writable: &Vec<bool>,
) -> (r: Result<DecodedInstruction, DecodeError>)
    ensures
        sp_pumpamm_sell_result(
            r,
            data@,
            accounts_indices@,
            account_keys@,
            is_signer@,
            is_writable@,
        ),
{
    if accounts_indices.len() < 17 { return Err(DecodeError::InsufficientAccounts); }
    if data.len() < 24 {
        return Err(DecodeError::Parse(ParseError::Insufficient));
    }
    let mut offset: usize = 8;
    let base_amount_in = parse_u64(data, &mut offset).unwrap();
    let min_quote_amount_out = parse_u64(data, &mut offset).unwrap();
    let parsed = ParsedParams::PumpAmmSell(SellParams { base_amount_in, min_quote_amount_out });
    Ok(
        create_standardized_instruction(
            &crate::programs::pumpamm_program_id(),
            "Sell",
            "PumpAMM",
            data,
            accounts_indices,
            account_keys,
            is_signer,
            is_writable,
            parsed,
        ),
    )
}

/// Decode a PumpAMM `Deposit` instruction into its normalized record.
pub fn deserialize_pumpamm_deposit_instruction(
    data: &[u8],
    accounts_indices: &[u8],
    account_keys: &Vec<Pubkey>,
    is_signer: &Vec<bool>,
    is_writable: &Vec<bool>,
) -> (r: Result<DecodedInstruction, DecodeError>)
    ensures
        sp_pumpamm_deposit_result(
            r,
            data@,
            accounts_indices@,
            account_keys@,
            is_signer@,
            is_writable@,
        ),
{
    if data.len() < 32 {
        return Err(DecodeError::Parse(ParseError::Insufficient));
    }
    let mut offset: usize = 8;
    let lp_token_amount_out = parse_u64(data, &mut offset).unwrap();
    let max_base_amount_in = parse_u64(data, &mut offset).unwrap();
    let max_quote_amount_in = parse_u64(data, &mut offset).unwrap();
    let parsed = ParsedParams::PumpAmmDeposit(DepositParams { lp_token_amount_out, max_base_amount_in, max_quote_amount_in });
    Ok(
        create_standardized_instruction(
            &crate::programs::pumpamm_program_id(),
            "Deposit",
            "PumpAMM",
            data,
            accounts_indices,
            account_keys,
            is_signer,
            is_writable,
            parsed,
        ),
    )
}

/// Decode a PumpAMM `Withdraw` instruction into its normalized record.
pub fn deserialize_pumpamm_withdraw_instruction(
    data: &[u8],
    accounts_indices: &[u8],
    account_keys: &Vec<Pubkey>,
    is_signer: &Vec<bool>,
    is_writable: &Vec<bool>,
) -> (r: Result<DecodedInstruction, DecodeError>)
    ensures
        sp_pumpamm_withdraw_result(
            r,
            data@,
            accounts_indices@,
            account_keys@,
            is_signer@,
            is_writable@,
        ),
{
    if data.len() < 32 {
        return Err(DecodeError::Parse(ParseError::Insufficient));
    }
    let mut offset: usize = 8;
    let lp_token_amount_in = parse_u64(data, &mut offset).unwrap();
    let min_base_amount_out = parse_u64(data, &mut offset).unwrap();
    let min_quote_amount_out = parse_u64(data, &mut offset).unwrap();
    let parsed = ParsedParams::PumpAmmWithdraw(WithdrawParams { lp_token_amount_in, min_base_amount_out, min_quote_amount_out });
    Ok(
        create_standardized_instruction(
            &crate::programs::pumpamm_program_id(),
            "Withdraw",
            "PumpAMM",
            data,
            accounts_indices,
            account_keys,
            is_signer,
            is_writable,
            parsed,
        ),
    )
}

/// Decode a PumpAMM `CreatePool` instruction into its normalized record;
/// the data must carry the `CreatePool` discriminator.
pub fn deserialize_pumpamm_create_pool_instruction(
    data: &[u8],
    accounts_indices: &[u8],
    account_keys: &Vec<Pubkey>,
    is_signer: &Vec<bool>,
    is_writable: &Vec<bool>,
) -> (r: Result<DecodedInstruction, DecodeError>)
    ensures
        sp_pumpamm_create_pool_result(
            r,
            data@,
            accounts_indices@,
            account_keys@,
            is_signer@,
            is_writable@,
        ),
{
    if data.len() < 8 {
        return Err(DecodeError::Parse(ParseError::Insufficient));
    }
    if !starts_with(data, &pumpamm_create_pool_discriminator()) {
        return Err(DecodeError::UnknownInstruction);
    }
    if data.len() < 58 {
        return Err(DecodeError::Parse(ParseError::Insufficient));
    }
    let mut offset: usize = 8;
    let index = parse_u16(data, &mut offset).unwrap();
    let base_amount_in = parse_u64(data, &mut offset).unwrap();
    let quote_amount_in = parse_u64(data, &mut offset).unwrap();
    let coin_creator = parse_pubkey(data, &mut offset).unwrap();
    let parsed = ParsedParams::PumpAmmCreatePool(
        CreatePoolParams { index, base_amount_in, quote_amount_in, coin_creator },
    );
    Ok(
        create_standardized_instruction(
            &crate::programs::pumpamm_program_id(),
            "CreatePool",
            "PumpAMM",
            data,
            accounts_indices,
            account_keys,
            is_signer,
            is_writable,
            parsed,
        ),
    )
}

/// Build the generic record for a PumpAMM instruction whose parameters this
/// library does not parse: the leading discriminator bytes stand alone.
pub fn deserialize_pumpamm_generic_instruction(
    instruction_name: &str,
    data: &[u8],
    accounts_indices: &[u8],
    account_keys: &Vec<Pubkey>,
    is_signer: &Vec<bool>,
    is_writable: &Vec<bool>,
) -> (r: Result<DecodedInstruction, DecodeError>)
    ensures
        r matches Ok(ins) && sp_record_envelope(
            ins,
            sp_pumpamm_program_id(),
            instruction_name@,
            "PumpAMM"@,
            data@,
            accounts_indices@,
            account_keys@,
            is_signer@,
            is_writable@,
        ),
        r matches Ok(ins) ==> (ins.parsed_data matches ParsedParams::PumpAmmGeneric {
            discriminator,
        } && discriminator@ == data@.subrange(
            0,
            (if data@.len() < 8 {
                data@.len() as int
            } else {
                8
            }),
        )),
{
    let take = if data.len() < 8 {
        data.len()
    } else {
        8
    };
    let discriminator = crate::bytes::copy_range(data, 0, take);
    let parsed = ParsedParams::PumpAmmGeneric { discriminator };
    Ok(
        create_standardized_instruction(
            &crate::programs::pumpamm_program_id(),
            instruction_name,
            "PumpAMM",
            data,
            accounts_indices,
            account_keys,
            is_signer,
            is_writable,
            parsed,
        ),
    )
}

/// Decode any PumpAMM instruction by its discriminator.
pub fn deserialize_pumpamm_instruction(
    data: &[u8],
    accounts_indices: &[u8],
    account_keys: &Vec<Pubkey>,
    is_signer: &Vec<bool>,
    is_writable: &Vec<bool>,
) -> (r: Result<DecodedInstruction, DecodeError>)
    ensures
        data@.len() < 8 ==> r == Err::<DecodedInstruction, DecodeError>(
            DecodeError::Parse(ParseError::Insufficient),
        ),
        sp_identify_pumpamm(data@) == Some(PumpAmmInstructionType::Unknown) ==> r == Err::<
            DecodedInstruction,
            DecodeError,
        >(DecodeError::UnknownInstruction),
{
    if data.len() < 8 {
        return Err(DecodeError::Parse(ParseError::Insufficient));
    }
    match get_pumpamm_instruction_type(data) {
        Some(PumpAmmInstructionType::Buy) => deserialize_pumpamm_buy_instruction(
            data,
            accounts_indices,
            account_keys,
            is_signer,
            is_writable,
        ),
        Some(PumpAmmInstructionType::Sell) => deserialize_pumpamm_sell_instruction(
            data,
            accounts_indices,
            account_keys,
            is_signer,
            is_writable,
        ),
        Some(PumpAmmInstructionType::CreatePool) => deserialize_pumpamm_create_pool_instruction(
            data,
            accounts_indices,
            account_keys,
            is_signer,
            is_writable,
        ),
        Some(PumpAmmInstructionType::Deposit) => deserialize_pumpamm_deposit_instruction(
            data,
            accounts_indices,
            account_keys,
            is_signer,
            is_writable,
        ),
        Some(PumpAmmInstructionType::Withdraw) => deserialize_pumpamm_withdraw_instruction(
            data,
            accounts_indices,
            account_keys,
            is_signer,
            is_writable,
        ),
        _ => Err(DecodeError::UnknownInstruction),
    }
}

/// The exact result of this decoder on the given inputs.
pub open spec fn sp_pumpamm_buy_result(
    r: Result<DecodedInstruction, DecodeError>,
    d_arg: Seq<u8>,
    ai: Seq<u8>,
    keys: Seq<Pubkey>,
    sg: Seq<bool>,
    wr: Seq<bool>,
) -> bool {
    ({
            let d = d_arg;
            if ai.len() < 17 { r == Err::<DecodedInstruction, DecodeError>(DecodeError::InsufficientAccounts) } else if d.len() < 24 {
                r == Err::<DecodedInstruction, DecodeError>(
                    DecodeError::Parse(ParseError::Insufficient),
                )
            } else {
                r matches Ok(ins) && sp_record_envelope(
                    ins,
                    sp_pumpamm_program_id(),
                    "Buy"@,
                    "PumpAMM"@,
                    d,
                    ai,
                    keys,
                    sg,
                    wr,
                ) && (ins.parsed_data matches ParsedParams::PumpAmmBuy(p) && p.base_amount_out as nat
                    == le_bytes(d.subrange(8, 16)) && p.max_quote_amount_in as nat == le_bytes(
                    d.subrange(16, 24),
                ))
            }
        })
}

/// The exact result of this decoder on the given inputs.
pub open spec fn sp_pumpamm_sell_result(
    r: Result<DecodedInstruction, DecodeError>,
    d_arg: Seq<u8>,
    ai: Seq<u8>,
    keys: Seq<Pubkey>,
    sg: Seq<bool>,
    wr: Seq<bool>,
) -> bool {
    ({
            let d = d_arg;
            if ai.len() < 17 { r == Err::<DecodedInstruction, DecodeError>(DecodeError::InsufficientAccounts) } else if d.len() < 24 {
                r == Err::<DecodedInstruction, DecodeError>(
                    DecodeError::Parse(ParseError::Insufficient),
                )
            } else {
                r matches Ok(ins) && sp_record_envelope(
                    ins,
                    sp_pumpamm_program_id(),
                    "Sell"@,
                    "PumpAMM"@,
                    d,
                    ai,
                    keys,
                    sg,
                    wr,
                ) && (ins.parsed_data matches ParsedParams::PumpAmmSell(p) && p.base_amount_in as nat
                    == le_bytes(d.subrange(8, 16)) && p.min_quote_amount_out as nat == le_bytes(
                    d.subrange(16, 24),
                ))
            }
        })
}

/// The exact result of this decoder on the given inputs.
pub open spec fn sp_pumpamm_create_pool_result(
    r: Result<DecodedInstruction, DecodeError>,
    d_arg: Seq<u8>,
    ai: Seq<u8>,
    keys: Seq<Pubkey>,
    sg: Seq<bool>,
    wr: Seq<bool>,
) -> bool {
    ({
            let d = d_arg;
            if d.len() < 8 {
                r == Err::<DecodedInstruction, DecodeError>(
                    DecodeError::Parse(ParseError::Insufficient),
                )
            } else if d.subrange(0, 8) != sp_pumpamm_create_pool_discriminator() {
                r == Err::<DecodedInstruction, DecodeError>(DecodeError::UnknownInstruction)
            } else if d.len() < 58 {
                r == Err::<DecodedInstruction, DecodeError>(
                    DecodeError::Parse(ParseError::Insufficient),
                )
            } else {
                r matches Ok(ins) && sp_record_envelope(
                    ins,
                    sp_pumpamm_program_id(),
                    "CreatePool"@,
                    "PumpAMM"@,
                    d,
                    ai,
                    keys,
                    sg,
                    wr,
                ) && (ins.parsed_data matches ParsedParams::PumpAmmCreatePool(p) && p.index as nat
                    == le_bytes(d.subrange(8, 10)) && p.base_amount_in as nat == le_bytes(
                    d.subrange(10, 18),
                ) && p.quote_amount_in as nat == le_bytes(d.subrange(18, 26)) && p.coin_creator@
                    == d.subrange(26, 58))
            }
        })
}

/// The exact result of this decoder on the given inputs.
pub open spec fn sp_pumpamm_deposit_result(
    r: Result<DecodedInstruction, DecodeError>,
    d_arg: Seq<u8>,
    ai: Seq<u8>,
    keys: Seq<Pubkey>,
    sg: Seq<bool>,
    wr: Seq<bool>,
) -> bool {
    ({
            let d = d_arg;
            if d.len() < 32 {
                r == Err::<DecodedInstruction, DecodeError>(
                    DecodeError::Parse(ParseError::Insufficient),
                )
            } else {
                r matches Ok(ins) && sp_record_envelope(
                    ins,
                    sp_pumpamm_program_id(),
                    "Deposit"@,
                    "PumpAMM"@,
                    d,
                    ai,
                    keys,
                    sg,
                    wr,
                ) && (ins.parsed_data matches ParsedParams::PumpAmmDeposit(p) && p.lp_token_amount_out as nat
                    == le_bytes(d.subrange(8, 16)) && p.max_base_amount_in as nat == le_bytes(d.subrange(16, 24))
                    && p.max_quote_amount_in as nat == le_bytes(d.subrange(24, 32)))
            }
        })
}

/// The exact result of this decoder on the given inputs.
pub open spec fn sp_pumpamm_withdraw_result(
    r: Result<DecodedInstruction, DecodeError>,
    d_arg: Seq<u8>,
    ai: Seq<u8>,
    keys: Seq<Pubkey>,
    sg: Seq<bool>,
    wr: Seq<bool>,
) -> bool {
    ({
            let d = d_arg;
            if d.len() < 32 {
                r == Err::<DecodedInstruction, DecodeError>(
                    DecodeError::Parse(ParseError::Insufficient),
                )
            } else {
                r matches Ok(ins) && sp_record_envelope(
                    ins,
                    sp_pumpamm_program_id(),
                    "Withdraw"@,
                    "PumpAMM"@,
                    d,
                    ai,
                    keys,
                    sg,
                    wr,
                ) && (ins.parsed_data matches ParsedParams::PumpAmmWithdraw(p) && p.lp_token_amount_in as nat
                    == le_bytes(d.subrange(8, 16)) && p.min_base_amount_out as nat == le_bytes(d.subrange(16, 24))
                    && p.min_quote_amount_out as nat == le_bytes(d.subrange(24, 32)))
            }
        })
}

} // verus!
