//! Meteora AMM v2 program decoding: instruction identification and the account positions each variant uses.

use vstd::prelude::*;
use crate::bytes::starts_with;
use crate::record::{DecodedInstruction, DecodeError, ParsedParams, create_standardized_instruction, sp_record_envelope};
use crate::programs::sp_meteora_amm_v2_program_id;
use crate::Pubkey;

verus! {

/// The 8-byte discriminator of this variant's instruction data.
pub open spec fn sp_create_pool_1_discriminator() -> Seq<u8> {
    seq![95, 180, 10, 172, 84, 174, 232, 40]
}

/// The 8-byte discriminator of this variant's instruction data, as bytes.
pub fn create_pool_1_discriminator() -> (r: Vec<u8>)
    ensures
        r@ == sp_create_pool_1_discriminator(),
{
    let r: Vec<u8> = vec![95, 180, 10, 172, 84, 174, 232, 40];
    proof {
        assert(r@ =~= sp_create_pool_1_discriminator());
    }
    r
}

/// The 8-byte discriminator of this variant's instruction data.
pub open spec fn sp_create_pool_2_discriminator() -> Seq<u8> {
    seq![149, 82, 72, 197, 253, 252, 68, 15]
}

/// The 8-byte discriminator of this variant's instruction data, as bytes.
pub fn create_pool_2_discriminator() -> (r: Vec<u8>)
    ensures
        r@ == sp_create_pool_2_discriminator(),
{
    let r: Vec<u8> = vec![149, 82, 72, 197, 253, 252, 68, 15];
    proof {
        assert(r@ =~= sp_create_pool_2_discriminator());
    }
    r
}

/// The 8-byte discriminator of this variant's instruction data.
pub open spec fn sp_create_pool_3_discriminator() -> Seq<u8> {
    seq![20, 161, 241, 24, 189, 221, 180, 2]
}

/// The 8-byte discriminator of this variant's instruction data, as bytes.
pub fn create_pool_3_discriminator() -> (r: Vec<u8>)
    ensures
        r@ == sp_create_pool_3_discriminator(),
{
    let r: Vec<u8> = vec![20, 161, 241, 24, 189, 221, 180, 2];
    proof {
        assert(r@ =~= sp_create_pool_3_discriminator());
    }
    r
}

/// The 8-byte discriminator of this variant's instruction data.
pub open spec fn sp_swap_discriminator() -> Seq<u8> {
    seq![248, 198, 158, 145, 225, 117, 135, 200]
}

/// The 8-byte discriminator of this variant's instruction data, as bytes.
pub fn swap_discriminator() -> (r: Vec<u8>)
    ensures
        r@ == sp_swap_discriminator(),
{
    let r: Vec<u8> = vec![248, 198, 158, 145, 225, 117, 135, 200];
    proof {
        assert(r@ =~= sp_swap_discriminator());
    }
    r
}

/// The 8-byte discriminator of this variant's instruction data.
pub open spec fn sp_add_liquidity_1_discriminator() -> Seq<u8> {
    seq![181, 157, 89, 67, 143, 182, 52, 72]
}

/// The 8-byte discriminator of this variant's instruction data, as bytes.
pub fn add_liquidity_1_discriminator() -> (r: Vec<u8>)
    ensures
        r@ == sp_add_liquidity_1_discriminator(),
{
    let r: Vec<u8> = vec![181, 157, 89, 67, 143, 182, 52, 72];
    proof {
        assert(r@ =~= sp_add_liquidity_1_discriminator());
    }
    r
}

/// The 8-byte discriminator of this variant's instruction data.
pub open spec fn sp_remove_liquidity_1_discriminator() -> Seq<u8> {
    seq![80, 85, 209, 72, 24, 206, 177, 108]
}

/// The 8-byte discriminator of this variant's instruction data, as bytes.
pub fn remove_liquidity_1_discriminator() -> (r: Vec<u8>)
    ensures
        r@ == sp_remove_liquidity_1_discriminator(),
{
    let r: Vec<u8> = vec![80, 85, 209, 72, 24, 206, 177, 108];
    proof {
        assert(r@ =~= sp_remove_liquidity_1_discriminator());
    }
    r
}

/// The 8-byte discriminator of this variant's instruction data.
pub open spec fn sp_remove_liquidity_2_discriminator() -> Seq<u8> {
    seq![10, 51, 61, 35, 112, 105, 24, 85]
}

/// The 8-byte discriminator of this variant's instruction data, as bytes.
pub fn remove_liquidity_2_discriminator() -> (r: Vec<u8>)
    ensures
        r@ == sp_remove_liquidity_2_discriminator(),
{
    let r: Vec<u8> = vec![10, 51, 61, 35, 112, 105, 24, 85];
    proof {
        assert(r@ =~= sp_remove_liquidity_2_discriminator());
    }
    r
}


/// The Meteora AMM v2 instructions this library decodes; several on-chain
/// discriminators stand for each family.  The `AddLiquidity2`..`4` variants
/// share their discriminators with the `CreatePool` family, which is matched
/// first; any other instruction of the program is `Unknown`.
#[derive(Clone, Copy, Debug, PartialEq, Eq, Structural)]
pub enum MeteoraAmmV2InstructionType {
    CreatePool1,
    CreatePool2,
    CreatePool3,
    Swap,
    AddLiquidity1,
    AddLiquidity2,
    AddLiquidity3,
    AddLiquidity4,
    RemoveLiquidity1,
    RemoveLiquidity2,
    Unknown,
}

/// Which AMM v2 instruction an instruction-data prefix names.
pub open spec fn sp_identify_meteora_amm_v2(data: Seq<u8>) -> Option<
    MeteoraAmmV2InstructionType,
> {
    if data.len() < 8 {
        None
    } else if data.subrange(0, 8) == sp_create_pool_1_discriminator() {
        Some(MeteoraAmmV2InstructionType::CreatePool1)
    } else if data.subrange(0, 8) == sp_create_pool_2_discriminator() {
        Some(MeteoraAmmV2InstructionType::CreatePool2)
    } else if data.subrange(0, 8) == sp_create_pool_3_discriminator() {
        Some(MeteoraAmmV2InstructionType::CreatePool3)
    } else if data.subrange(0, 8) == sp_swap_discriminator() {
        Some(MeteoraAmmV2InstructionType::Swap)
    } else if data.subrange(0, 8) == sp_add_liquidity_1_discriminator() {
        Some(MeteoraAmmV2InstructionType::AddLiquidity1)
    } else if data.subrange(0, 8) == sp_remove_liquidity_1_discriminator() {
        Some(MeteoraAmmV2InstructionType::RemoveLiquidity1)
    } else if data.subrange(0, 8) == sp_remove_liquidity_2_discriminator() {
        Some(MeteoraAmmV2InstructionType::RemoveLiquidity2)
    } else {
        Some(MeteoraAmmV2InstructionType::Unknown)
    }
}

/// Identify an AMM v2 instruction by its leading 8-byte discriminator.
pub fn get_meteora_amm_v2_instruction_type(data: &[u8]) -> (r: Option<
    MeteoraAmmV2InstructionType,
>)
    ensures
        r == sp_identify_meteora_amm_v2(data@),
{
    if data.len() < 8 {
        None
    } else if starts_with(data, &create_pool_1_discriminator()) {
        Some(MeteoraAmmV2InstructionType::CreatePool1)
    } else if starts_with(data, &create_pool_2_discriminator()) {
        Some(MeteoraAmmV2InstructionType::CreatePool2)
    } else if starts_with(data, &create_pool_3_discriminator()) {
        Some(MeteoraAmmV2InstructionType::CreatePool3)
    } else if starts_with(data, &swap_discriminator()) {
        Some(MeteoraAmmV2InstructionType::Swap)
    } else if starts_with(data, &add_liquidity_1_discriminator()) {
        Some(MeteoraAmmV2InstructionType::AddLiquidity1)
    } else if starts_with(data, &remove_liquidity_1_discriminator()) {
        Some(MeteoraAmmV2InstructionType::RemoveLiquidity1)
    } else if starts_with(data, &remove_liquidity_2_discriminator()) {
        Some(MeteoraAmmV2InstructionType::RemoveLiquidity2)
    } else {
        Some(MeteoraAmmV2InstructionType::Unknown)
    }
}

/// The fixed account positions a create-pool variant reads: pool, mint A,
/// mint B.
pub open spec fn sp_create_pool_positions(t: MeteoraAmmV2InstructionType) -> Option<
    (int, int, int),
> {
    match t {
        MeteoraAmmV2InstructionType::CreatePool1 => Some((6int, 8int, 9int)),
        MeteoraAmmV2InstructionType::CreatePool2 => Some((7int, 9int, 10int)),
        MeteoraAmmV2InstructionType::CreatePool3 => Some((5int, 7int, 8int)),
        _ => None,
    }
}

/// Decode an AMM v2 create-pool instruction: the record carries the account
/// positions its variant uses.
pub fn deserialize_meteora_amm_v2_create_pool_instruction(
    instruction_type: MeteoraAmmV2InstructionType,
    data: &[u8],
    accounts_indices: &[u8],
    account_keys: &Vec<Pubkey>,
    is_signer: &Vec<bool>,
    is_writable: &Vec<bool>,
) -> (r: Result<DecodedInstruction, DecodeError>)
    ensures
        sp_amm_v2_create_pool_result(
            instruction_type,
            r,
            data@,
            accounts_indices@,
            account_keys@,
            is_signer@,
            is_writable@,
        ),
{
    let (pool_index, mint_a_index, mint_b_index): (usize, usize, usize) = match instruction_type {
        MeteoraAmmV2InstructionType::CreatePool1 => (6, 8, 9),
        MeteoraAmmV2InstructionType::CreatePool2 => (7, 9, 10),
        MeteoraAmmV2InstructionType::CreatePool3 => (5, 7, 8),
        _ => {
            return Err(DecodeError::UnknownInstruction);
        },
    };
    let parsed = ParsedParams::MeteoraAmmV2CreatePool {
        variant: instruction_type,
        pool_index,
        mint_a_index,
        mint_b_index,
    };
    Ok(
        create_standardized_instruction(
            &crate::programs::meteora_amm_v2_program_id(),
            "CreatePool",
            "MeteoraAmmV2",
            data,
            accounts_indices,
            account_keys,
            is_signer,
            is_writable,
            parsed,
        ),
    )
}

/// Decode an AMM v2 swap instruction.
pub fn deserialize_meteora_amm_v2_swap_instruction(
    data: &[u8],
    accounts_indices: &[u8],
    account_keys: &Vec<Pubkey>,
    is_signer: &Vec<bool>,
    is_writable: &Vec<bool>,
) -> (r: Result<DecodedInstruction, DecodeError>)
    ensures
        sp_amm_v2_swap_result(
            r,
            data@,
            accounts_indices@,
            account_keys@,
            is_signer@,
            is_writable@,
        ),
{
    Ok(
        create_standardized_instruction(
            &crate::programs::meteora_amm_v2_program_id(),
            "Swap",
            "MeteoraAmmV2",
            data,
            accounts_indices,
            account_keys,
            is_signer,
            is_writable,
            ParsedParams::MeteoraAmmV2Swap,
        ),
    )
}

/// The fixed account positions an add-liquidity variant reads: pool, vault
/// A, vault B.
pub open spec fn sp_add_liquidity_positions(t: MeteoraAmmV2InstructionType) -> Option<
    (int, int, int),
> {
    match t {
        MeteoraAmmV2InstructionType::AddLiquidity1 => Some((0int, 4int, 5int)),
        MeteoraAmmV2InstructionType::AddLiquidity2 => Some((0int, 10int, 11int)),
        MeteoraAmmV2InstructionType::AddLiquidity3 => Some((7int, 11int, 12int)),
        MeteoraAmmV2InstructionType::AddLiquidity4 => Some((5int, 9int, 10int)),
        _ => None,
    }
}

/// Decode an AMM v2 add-liquidity instruction: the record carries the
/// account positions its variant uses.
pub fn deserialize_meteora_amm_v2_add_liquidity_instruction(
    instruction_type: MeteoraAmmV2InstructionType,
    data: &[u8],
    accounts_indices: &[u8],
    account_keys: &Vec<Pubkey>,
    is_signer: &Vec<bool>,
    is_writable: &Vec<bool>,
) -> (r: Result<DecodedInstruction, DecodeError>)
    ensures
        sp_amm_v2_add_liquidity_result(
            instruction_type,
            r,
            data@,
            accounts_indices@,
            account_keys@,
            is_signer@,
            is_writable@,
        ),
{
    let (pool_index, vault_a_index, vault_b_index): (usize, usize, usize) = match instruction_type {
        MeteoraAmmV2InstructionType::AddLiquidity1 => (0, 4, 5),
        MeteoraAmmV2InstructionType::AddLiquidity2 => (0, 10, 11),
        MeteoraAmmV2InstructionType::AddLiquidity3 => (7, 11, 12),
        MeteoraAmmV2InstructionType::AddLiquidity4 => (5, 9, 10),
        _ => {
            return Err(DecodeError::UnknownInstruction);
        },
    };
    let parsed = ParsedParams::MeteoraAmmV2AddLiquidity {
        variant: instruction_type,
        pool_index,
        vault_a_index,
        vault_b_index,
    };
    Ok(
        create_standardized_instruction(
            &crate::programs::meteora_amm_v2_program_id(),
            "AddLiquidity",
            "MeteoraAmmV2",
            data,
            accounts_indices,
            account_keys,
            is_signer,
            is_writable,
            parsed,
        ),
    )
}

/// Decode an AMM v2 remove-liquidity instruction: the record names the
/// variant.
pub fn deserialize_meteora_amm_v2_remove_liquidity_instruction(
    instruction_type: MeteoraAmmV2InstructionType,
    data: &[u8],
    accounts_indices: &[u8],
    account_keys: &Vec<Pubkey>,
    is_signer: &Vec<bool>,
    is_writable: &Vec<bool>,
) -> (r: Result<DecodedInstruction, DecodeError>)
    ensures
        sp_amm_v2_remove_liquidity_result(
            instruction_type,
            r,
            data@,
            accounts_indices@,
            account_keys@,
            is_signer@,
            is_writable@,
        ),
{
    let parsed = ParsedParams::MeteoraAmmV2RemoveLiquidity { variant: instruction_type };
    Ok(
        create_standardized_instruction(
            &crate::programs::meteora_amm_v2_program_id(),
            "RemoveLiquidity",
            "MeteoraAmmV2",
            data,
            accounts_indices,
            account_keys,
            is_signer,
            is_writable,
            parsed,
        ),
    )
}

/// The exact result of this decoder on the given inputs.
pub open spec fn sp_amm_v2_create_pool_result(
    t: MeteoraAmmV2InstructionType,
    r: Result<DecodedInstruction, DecodeError>,
    d_arg: Seq<u8>,
    ai: Seq<u8>,
    keys: Seq<Pubkey>,
    sg: Seq<bool>,
    wr: Seq<bool>,
) -> bool {
    match sp_create_pool_positions(t) {
            Some(pos) => r matches Ok(ins) && sp_record_envelope(
                ins,
                sp_meteora_amm_v2_program_id(),
                "CreatePool"@,
                "MeteoraAmmV2"@,
                d_arg,
                ai,
                keys,
                sg,
                wr,
            ) && (ins.parsed_data matches ParsedParams::MeteoraAmmV2CreatePool {
                variant,
                pool_index,
                mint_a_index,
                mint_b_index,
            } && variant == t && pool_index == pos.0 && mint_a_index == pos.1
                && mint_b_index == pos.2),
            None => r == Err::<DecodedInstruction, DecodeError>(DecodeError::UnknownInstruction),
        }
}

/// The exact result of this decoder on the given inputs.
pub open spec fn sp_amm_v2_swap_result(
    r: Result<DecodedInstruction, DecodeError>,
    d_arg: Seq<u8>,
    ai: Seq<u8>,
    keys: Seq<Pubkey>,
    sg: Seq<bool>,
    wr: Seq<bool>,
) -> bool {
    r matches Ok(ins) && sp_record_envelope(
            ins,
            sp_meteora_amm_v2_program_id(),
            "Swap"@,
            "MeteoraAmmV2"@,
            d_arg,
            ai,
            keys,
            sg,
            wr,
        ) && ins.parsed_data is MeteoraAmmV2Swap
}

/// The exact result of this decoder on the given inputs.
pub open spec fn sp_amm_v2_add_liquidity_result(
    t: MeteoraAmmV2InstructionType,
    r: Result<DecodedInstruction, DecodeError>,
    d_arg: Seq<u8>,
    ai: Seq<u8>,
    keys: Seq<Pubkey>,
    sg: Seq<bool>,
    wr: Seq<bool>,
) -> bool {
    match sp_add_liquidity_positions(t) {
            Some(pos) => r matches Ok(ins) && sp_record_envelope(
                ins,
                sp_meteora_amm_v2_program_id(),
                "AddLiquidity"@,
                "MeteoraAmmV2"@,
                d_arg,
                ai,
                keys,
                sg,
                wr,
            ) && (ins.parsed_data matches ParsedParams::MeteoraAmmV2AddLiquidity {
                variant,
                pool_index,
                vault_a_index,
                vault_b_index,
            } && variant == t && pool_index == pos.0 && vault_a_index == pos.1
                && vault_b_index == pos.2),
            None => r == Err::<DecodedInstruction, DecodeError>(DecodeError::UnknownInstruction),
        }
}

/// The exact result of this decoder on the given inputs.
pub open spec fn sp_amm_v2_remove_liquidity_result(
    t: MeteoraAmmV2InstructionType,
    r: Result<DecodedInstruction, DecodeError>,
    d_arg: Seq<u8>,
    ai: Seq<u8>,
    keys: Seq<Pubkey>,
    sg: Seq<bool>,
    wr: Seq<bool>,
) -> bool {
    r matches Ok(ins) && sp_record_envelope(
            ins,
            sp_meteora_amm_v2_program_id(),
            "RemoveLiquidity"@,
            "MeteoraAmmV2"@,
            d_arg,
            ai,
            keys,
            sg,
            wr,
        ) && (ins.parsed_data matches ParsedParams::MeteoraAmmV2RemoveLiquidity { variant }
            && variant == t)
}

} // verus!
