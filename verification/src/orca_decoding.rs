//! Orca Whirlpool program decoding: instruction identification and parameter layouts.

use vstd::prelude::*;
use crate::bytes::{
    starts_with, parse_u8, parse_u16, parse_u32, parse_u64, parse_u128, parse_i32, parse_bool,
    le_bytes, le_i32_value, ParseError,
};
use crate::record::{
    DecodedInstruction, DecodeError, ParsedParams, create_standardized_instruction,
    sp_record_envelope,
};
use crate::programs::sp_orca_whirlpool_program_id;
use crate::Pubkey;

verus! {

/// The 8-byte discriminator of this variant's instruction data.
pub open spec fn sp_orca_swap_instruction_discriminator() -> Seq<u8> {
    seq![248, 198, 158, 145, 225, 117, 135, 200]
}

/// The 8-byte discriminator of this variant's instruction data, as bytes.
pub fn orca_swap_instruction_discriminator() -> (r: Vec<u8>)
    ensures
        r@ == sp_orca_swap_instruction_discriminator(),
{
    let r: Vec<u8> = vec![248, 198, 158, 145, 225, 117, 135, 200];
    proof {
        assert(r@ =~= sp_orca_swap_instruction_discriminator());
    }
    r
}

/// The 8-byte discriminator of this variant's instruction data.
pub open spec fn sp_orca_increase_liquidity_instruction_discriminator() -> Seq<u8> {
    seq![46, 156, 243, 118, 13, 205, 251, 178]
}

/// The 8-byte discriminator of this variant's instruction data, as bytes.
pub fn orca_increase_liquidity_instruction_discriminator() -> (r: Vec<u8>)
    ensures
        r@ == sp_orca_increase_liquidity_instruction_discriminator(),
{
    let r: Vec<u8> = vec![46, 156, 243, 118, 13, 205, 251, 178];
    proof {
        assert(r@ =~= sp_orca_increase_liquidity_instruction_discriminator());
    }
    r
}

/// The 8-byte discriminator of this variant's instruction data.
pub open spec fn sp_orca_decrease_liquidity_instruction_discriminator() -> Seq<u8> {
    seq![58, 127, 188, 62, 79, 82, 196, 96]
}

/// The 8-byte discriminator of this variant's instruction data, as bytes.
pub fn orca_decrease_liquidity_instruction_discriminator() -> (r: Vec<u8>)
    ensures
        r@ == sp_orca_decrease_liquidity_instruction_discriminator(),
{
    let r: Vec<u8> = vec![58, 127, 188, 62, 79, 82, 196, 96];
    proof {
        assert(r@ =~= sp_orca_decrease_liquidity_instruction_discriminator());
    }
    r
}

/// The 8-byte discriminator of this variant's instruction data.
pub open spec fn sp_orca_initialize_pool_instruction_discriminator() -> Seq<u8> {
    seq![95, 180, 10, 172, 84, 174, 232, 40]
}

/// The 8-byte discriminator of this variant's instruction data, as bytes.
pub fn orca_initialize_pool_instruction_discriminator() -> (r: Vec<u8>)
    ensures
        r@ == sp_orca_initialize_pool_instruction_discriminator(),
{
    let r: Vec<u8> = vec![95, 180, 10, 172, 84, 174, 232, 40];
    proof {
        assert(r@ =~= sp_orca_initialize_pool_instruction_discriminator());
    }
    r
}

/// The 8-byte discriminator of this variant's instruction data.
pub open spec fn sp_orca_open_position_instruction_discriminator() -> Seq<u8> {
    seq![135, 128, 47, 77, 15, 152, 240, 49]
}

/// The 8-byte discriminator of this variant's instruction data, as bytes.
pub fn orca_open_position_instruction_discriminator() -> (r: Vec<u8>)
    ensures
        r@ == sp_orca_open_position_instruction_discriminator(),
{
    let r: Vec<u8> = vec![135, 128, 47, 77, 15, 152, 240, 49];
    proof {
        assert(r@ =~= sp_orca_open_position_instruction_discriminator());
    }
    r
}

/// The 8-byte discriminator of this variant's instruction data.
pub open spec fn sp_orca_close_position_instruction_discriminator() -> Seq<u8> {
    seq![123, 134, 81, 0, 49, 68, 98, 98]
}

/// The 8-byte discriminator of this variant's instruction data, as bytes.
pub fn orca_close_position_instruction_discriminator() -> (r: Vec<u8>)
    ensures
        r@ == sp_orca_close_position_instruction_discriminator(),
{
    let r: Vec<u8> = vec![123, 134, 81, 0, 49, 68, 98, 98];
    proof {
        assert(r@ =~= sp_orca_close_position_instruction_discriminator());
    }
    r
}

/// The 8-byte discriminator of this variant's instruction data.
pub open spec fn sp_orca_swap_v2_instruction_discriminator() -> Seq<u8> {
    seq![43, 4, 237, 11, 26, 201, 30, 98]
}

/// The 8-byte discriminator of this variant's instruction data, as bytes.
pub fn orca_swap_v2_instruction_discriminator() -> (r: Vec<u8>)
    ensures
        r@ == sp_orca_swap_v2_instruction_discriminator(),
{
    let r: Vec<u8> = vec![43, 4, 237, 11, 26, 201, 30, 98];
    proof {
        assert(r@ =~= sp_orca_swap_v2_instruction_discriminator());
    }
    r
}

/// The 8-byte discriminator of this variant's instruction data.
pub open spec fn sp_orca_two_hop_swap_instruction_discriminator() -> Seq<u8> {
    seq![235, 47, 68, 120, 187, 155, 176, 203]
}

/// The 8-byte discriminator of this variant's instruction data, as bytes.
pub fn orca_two_hop_swap_instruction_discriminator() -> (r: Vec<u8>)
    ensures
        r@ == sp_orca_two_hop_swap_instruction_discriminator(),
{
    let r: Vec<u8> = vec![235, 47, 68, 120, 187, 155, 176, 203];
    proof {
        assert(r@ =~= sp_orca_two_hop_swap_instruction_discriminator());
    }
    r
}


/// The Orca Whirlpool instructions this library decodes.
#[derive(Clone, Copy, Debug, PartialEq, Eq, Structural)]
pub enum OrcaInstructionType {
    Swap,
    IncreaseLiquidity,
    DecreaseLiquidity,
    InitializePool,
    OpenPosition,
    ClosePosition,
    SwapV2,
    TwoHopSwap,
}

/// Parameters of an Orca `Swap` instruction.
#[derive(Clone, Copy, Debug, PartialEq, Eq, Structural)]
pub struct SwapParams {
    pub amount: u64,
    pub other_amount_threshold: u64,
    pub sqrt_price_limit: u128,
    pub amount_specified_is_input: bool,
    pub a_to_b: bool,
}

/// The kinds of supplemental account a `SwapV2` slice can carry.
#[derive(Clone, Copy, Debug, PartialEq, Eq, Structural)]
pub enum AccountsType {
    TransferHookA,
    TransferHookB,
    TransferHookReward,
    TransferHookInput,
    TransferHookIntermediate,
    TransferHookOutput,
    SupplementalTickArrays,
    SupplementalTickArraysOne,
    SupplementalTickArraysTwo,
}

impl Default for AccountsType {
    /// The first account kind.
    fn default() -> (r: AccountsType)
        ensures
            r == AccountsType::TransferHookA,
    {
        AccountsType::TransferHookA
    }
}

/// One slice of supplemental accounts.
#[derive(Clone, Copy, Debug, PartialEq, Eq, Structural)]
pub struct RemainingAccountsSlice {
    pub accounts_type: AccountsType,
    pub length: u8,
}

/// The supplemental-account declaration of a `SwapV2` instruction.
#[derive(Clone, Debug)]
pub struct RemainingAccountsInfo {
    pub slices: Vec<RemainingAccountsSlice>,
}

/// Parameters of an Orca `SwapV2` instruction.
#[derive(Clone, Debug)]
pub struct SwapV2Params {
    pub amount: u64,
    pub other_amount_threshold: u64,
    pub sqrt_price_limit: u128,
    pub amount_specified_is_input: bool,
    pub a_to_b: bool,
    pub remaining_accounts_info: Option<RemainingAccountsInfo>,
}

/// Parameters of an Orca `IncreaseLiquidity` instruction.
#[derive(Clone, Copy, Debug, PartialEq, Eq, Structural)]
pub struct IncreaseLiquidityParams {
    pub liquidity_amount: u128,
    pub token_max_a: u64,
    pub token_max_b: u64,
}

/// Parameters of an Orca `DecreaseLiquidity` instruction.
#[derive(Clone, Copy, Debug, PartialEq, Eq, Structural)]
pub struct DecreaseLiquidityParams {
    pub liquidity_amount: u128,
    pub token_min_a: u64,
    pub token_min_b: u64,
}

/// The bump seed of a new whirlpool.
#[derive(Clone, Copy, Debug, PartialEq, Eq, Structural)]
pub struct WhirlpoolBumps {
    pub whirlpool_bump: u8,
}

/// The bump seed of a new position.
#[derive(Clone, Copy, Debug, PartialEq, Eq, Structural)]
pub struct OpenPositionBumps {
    pub position_bump: u8,
}

/// Parameters of an Orca `InitializePool` instruction.
#[derive(Clone, Copy, Debug, PartialEq, Eq, Structural)]
pub struct InitializePoolParams {
    pub bumps: WhirlpoolBumps,
    pub tick_spacing: u16,
    pub initial_sqrt_price: u128,
}

/// Parameters of an Orca `OpenPosition` instruction.
#[derive(Clone, Copy, Debug, PartialEq, Eq, Structural)]
pub struct OpenPositionParams {
    pub bumps: OpenPositionBumps,
    pub tick_lower_index: i32,
    pub tick_upper_index: i32,
}

/// Parameters of an Orca `TwoHopSwap` instruction.
#[derive(Clone, Copy, Debug, PartialEq, Eq, Structural)]
pub struct TwoHopSwapParams {
    pub amount: u64,
    pub other_amount_threshold: u64,
    pub amount_specified_is_input: bool,
    pub a_to_b_one: bool,
    pub a_to_b_two: bool,
    pub sqrt_price_limit_one: u128,
    pub sqrt_price_limit_two: u128,
}

/// Which Orca instruction an instruction-data prefix names.
pub open spec fn sp_identify_orca(data: Seq<u8>) -> Option<OrcaInstructionType> {
    if data.len() < 8 {
        None
    } else if data.subrange(0, 8) == sp_orca_swap_instruction_discriminator() {
        Some(OrcaInstructionType::Swap)
    } else if data.subrange(0, 8) == sp_orca_swap_v2_instruction_discriminator() {
        Some(OrcaInstructionType::SwapV2)
    } else if data.subrange(0, 8) == sp_orca_increase_liquidity_instruction_discriminator() {
        Some(OrcaInstructionType::IncreaseLiquidity)
    } else if data.subrange(0, 8) == sp_orca_decrease_liquidity_instruction_discriminator() {
        Some(OrcaInstructionType::DecreaseLiquidity)
    } else if data.subrange(0, 8) == sp_orca_initialize_pool_instruction_discriminator() {
        Some(OrcaInstructionType::InitializePool)
    } else if data.subrange(0, 8) == sp_orca_open_position_instruction_discriminator() {
        Some(OrcaInstructionType::OpenPosition)
    } else if data.subrange(0, 8) == sp_orca_close_position_instruction_discriminator() {
        Some(OrcaInstructionType::ClosePosition)
    } else if data.subrange(0, 8) == sp_orca_two_hop_swap_instruction_discriminator() {
        Some(OrcaInstructionType::TwoHopSwap)
    } else {
        None
    }
}

/// Identify an Orca instruction by its leading 8-byte discriminator.
pub fn get_orca_instruction_type(data: &[u8]) -> (r: Option<OrcaInstructionType>)
    ensures
        r == sp_identify_orca(data@),
{
    if data.len() < 8 {
        None
    } else if starts_with(data, &orca_swap_instruction_discriminator()) {
        Some(OrcaInstructionType::Swap)
    } else if starts_with(data, &orca_swap_v2_instruction_discriminator()) {
        Some(OrcaInstructionType::SwapV2)
    } else if starts_with(data, &orca_increase_liquidity_instruction_discriminator()) {
        Some(OrcaInstructionType::IncreaseLiquidity)
    } else if starts_with(data, &orca_decrease_liquidity_instruction_discriminator()) {
        Some(OrcaInstructionType::DecreaseLiquidity)
    } else if starts_with(data, &orca_initialize_pool_instruction_discriminator()) {
        Some(OrcaInstructionType::InitializePool)
    } else if starts_with(data, &orca_open_position_instruction_discriminator()) {
        Some(OrcaInstructionType::OpenPosition)
    } else if starts_with(data, &orca_close_position_instruction_discriminator()) {
        Some(OrcaInstructionType::ClosePosition)
    } else if starts_with(data, &orca_two_hop_swap_instruction_discriminator()) {
        Some(OrcaInstructionType::TwoHopSwap)
    } else {
        None
    }
}

/// Decode an Orca `Swap` instruction into its normalized record.
pub fn deserialize_orca_swap_instruction(
    data: &[u8],
    accounts_indices: &[u8],
    account_keys: &Vec<Pubkey>,
    is_signer: &Vec<bool>,
    is_writable: &Vec<bool>,
) -> (r: Result<DecodedInstruction, DecodeError>)
    ensures
        sp_orca_swap_result(
            r,
            data@,
            accounts_indices@,
            account_keys@,
            is_signer@,
            is_writable@,
        ),
{
    if data.len() < 42 {
        return Err(DecodeError::Parse(ParseError::Insufficient));
    }
    let mut offset: usize = 8;
    let amount = parse_u64(data, &mut offset).unwrap();
    let other_amount_threshold = parse_u64(data, &mut offset).unwrap();
    let sqrt_price_limit = parse_u128(data, &mut offset).unwrap();
    let amount_specified_is_input = parse_bool(data, &mut offset).unwrap();
    let a_to_b = parse_bool(data, &mut offset).unwrap();
    let parsed = ParsedParams::OrcaSwap(
        SwapParams {
            amount,
            other_amount_threshold,
            sqrt_price_limit,
            amount_specified_is_input,
            a_to_b,
        },
    );
    Ok(
        create_standardized_instruction(
            &crate::programs::orca_whirlpool_program_id(),
            "Swap",
            "Orca",
            data,
            accounts_indices,
            account_keys,
            is_signer,
            is_writable,
            parsed,
        ),
    )
}

/// Decode an Orca `IncreaseLiquidity` instruction into its normalized record.
pub fn deserialize_orca_increase_liquidity_instruction(
    data: &[u8],
    accounts_indices: &[u8],
    account_keys: &Vec<Pubkey>,
    is_signer: &Vec<bool>,
    is_writable: &Vec<bool>,
) -> (r: Result<DecodedInstruction, DecodeError>)
    ensures
        sp_orca_increase_liquidity_result(
            r,
            data@,
            accounts_indices@,
            account_keys@,
            is_signer@,
            is_writable@,
        ),
{
    if data.len() < 40 {
        return Err(DecodeError::Parse(ParseError::Insufficient));
    }
    let mut offset: usize = 8;
    let liquidity_amount = parse_u128(data, &mut offset).unwrap();
    let token_max_a = parse_u64(data, &mut offset).unwrap();
    let token_max_b = parse_u64(data, &mut offset).unwrap();
    let parsed = ParsedParams::OrcaIncreaseLiquidity(
        IncreaseLiquidityParams { liquidity_amount, token_max_a, token_max_b },
    );
    Ok(
        create_standardized_instruction(
            &crate::programs::orca_whirlpool_program_id(),
            "IncreaseLiquidity",
            "Orca",
            data,
            accounts_indices,
            account_keys,
            is_signer,
            is_writable,
            parsed,
        ),
    )
}

/// Decode an Orca `DecreaseLiquidity` instruction into its normalized record.
pub fn deserialize_orca_decrease_liquidity_instruction(
    data: &[u8],
    accounts_indices: &[u8],
    account_keys: &Vec<Pubkey>,
    is_signer: &Vec<bool>,
    is_writable: &Vec<bool>,
) -> (r: Result<DecodedInstruction, DecodeError>)
    ensures
        sp_orca_decrease_liquidity_result(
            r,
            data@,
            accounts_indices@,
            account_keys@,
            is_signer@,
            is_writable@,
        ),
{
    if data.len() < 40 {
        return Err(DecodeError::Parse(ParseError::Insufficient));
    }
    let mut offset: usize = 8;
    let liquidity_amount = parse_u128(data, &mut offset).unwrap();
    let token_min_a = parse_u64(data, &mut offset).unwrap();
    let token_min_b = parse_u64(data, &mut offset).unwrap();
    let parsed = ParsedParams::OrcaDecreaseLiquidity(
        DecreaseLiquidityParams { liquidity_amount, token_min_a, token_min_b },
    );
    Ok(
        create_standardized_instruction(
            &crate::programs::orca_whirlpool_program_id(),
            "DecreaseLiquidity",
            "Orca",
            data,
            accounts_indices,
            account_keys,
            is_signer,
            is_writable,
            parsed,
        ),
    )
}

/// Decode an Orca `InitializePool` instruction into its normalized record.
pub fn deserialize_orca_initialize_pool_instruction(
    data: &[u8],
    accounts_indices: &[u8],
    account_keys: &Vec<Pubkey>,
    is_signer: &Vec<bool>,
    is_writable: &Vec<bool>,
) -> (r: Result<DecodedInstruction, DecodeError>)
    ensures
        sp_orca_initialize_pool_result(
            r,
            data@,
            accounts_indices@,
            account_keys@,
            is_signer@,
            is_writable@,
        ),
{
    if data.len() < 27 {
        return Err(DecodeError::Parse(ParseError::Insufficient));
    }
    let mut offset: usize = 8;
    let whirlpool_bump = parse_u8(data, &mut offset).unwrap();
    let tick_spacing = parse_u16(data, &mut offset).unwrap();
    let initial_sqrt_price = parse_u128(data, &mut offset).unwrap();
    let parsed = ParsedParams::OrcaInitializePool(
        InitializePoolParams {
            bumps: WhirlpoolBumps { whirlpool_bump },
            tick_spacing,
            initial_sqrt_price,
        },
    );
    Ok(
        create_standardized_instruction(
            &crate::programs::orca_whirlpool_program_id(),
            "InitializePool",
            "Orca",
            data,
            accounts_indices,
            account_keys,
            is_signer,
            is_writable,
            parsed,
        ),
    )
}

/// Decode an Orca `OpenPosition` instruction into its normalized record.
pub fn deserialize_orca_open_position_instruction(
    data: &[u8],
    accounts_indices: &[u8],
    account_keys: &Vec<Pubkey>,
    is_signer: &Vec<bool>,
    is_writable: &Vec<bool>,
) -> (r: Result<DecodedInstruction, DecodeError>)
    ensures
        sp_orca_open_position_result(
            r,
            data@,
            accounts_indices@,
            account_keys@,
            is_signer@,
            is_writable@,
        ),
{
    if data.len() < 17 {
        return Err(DecodeError::Parse(ParseError::Insufficient));
    }
    let mut offset: usize = 8;
    let position_bump = parse_u8(data, &mut offset).unwrap();
    let tick_lower_index = parse_i32(data, &mut offset).unwrap();
    let tick_upper_index = parse_i32(data, &mut offset).unwrap();
    let parsed = ParsedParams::OrcaOpenPosition(
        OpenPositionParams {
            bumps: OpenPositionBumps { position_bump },
            tick_lower_index,
            tick_upper_index,
        },
    );
    Ok(
        create_standardized_instruction(
            &crate::programs::orca_whirlpool_program_id(),
            "OpenPosition",
            "Orca",
            data,
            accounts_indices,
            account_keys,
            is_signer,
            is_writable,
            parsed,
        ),
    )
}

/// Decode an Orca `ClosePosition` instruction into its normalized record; it carries no parameters.
pub fn deserialize_orca_close_position_instruction(
    data: &[u8],
    accounts_indices: &[u8],
    account_keys: &Vec<Pubkey>,
    is_signer: &Vec<bool>,
    is_writable: &Vec<bool>,
) -> (r: Result<DecodedInstruction, DecodeError>)
    ensures
        sp_orca_close_position_result(
            r,
            data@,
            accounts_indices@,
            account_keys@,
            is_signer@,
            is_writable@,
        ),
{
    if data.len() < 8 {
        return Err(DecodeError::Parse(ParseError::Insufficient));
    }
    let mut offset: usize = 8;

    let parsed = ParsedParams::OrcaClosePosition;
    Ok(
        create_standardized_instruction(
            &crate::programs::orca_whirlpool_program_id(),
            "ClosePosition",
            "Orca",
            data,
            accounts_indices,
            account_keys,
            is_signer,
            is_writable,
            parsed,
        ),
    )
}

/// Decode an Orca `TwoHopSwap` instruction into its normalized record.
pub fn deserialize_orca_two_hop_swap_instruction(
    data: &[u8],
    accounts_indices: &[u8],
    account_keys: &Vec<Pubkey>,
    is_signer: &Vec<bool>,
    is_writable: &Vec<bool>,
) -> (r: Result<DecodedInstruction, DecodeError>)
    ensures
        sp_orca_two_hop_swap_result(
            r,
            data@,
            accounts_indices@,
            account_keys@,
            is_signer@,
            is_writable@,
        ),
{
    if data.len() < 59 {
        return Err(DecodeError::Parse(ParseError::Insufficient));
    }
    let mut offset: usize = 8;
    let amount = parse_u64(data, &mut offset).unwrap();
    let other_amount_threshold = parse_u64(data, &mut offset).unwrap();
    let amount_specified_is_input = parse_bool(data, &mut offset).unwrap();
    let a_to_b_one = parse_bool(data, &mut offset).unwrap();
    let a_to_b_two = parse_bool(data, &mut offset).unwrap();
    let sqrt_price_limit_one = parse_u128(data, &mut offset).unwrap();
    let sqrt_price_limit_two = parse_u128(data, &mut offset).unwrap();
    let parsed = ParsedParams::OrcaTwoHopSwap(
        TwoHopSwapParams {
            amount,
            other_amount_threshold,
            amount_specified_is_input,
            a_to_b_one,
            a_to_b_two,
            sqrt_price_limit_one,
            sqrt_price_limit_two,
        },
    );
    Ok(
        create_standardized_instruction(
            &crate::programs::orca_whirlpool_program_id(),
            "TwoHopSwap",
            "Orca",
            data,
            accounts_indices,
            account_keys,
            is_signer,
            is_writable,
            parsed,
        ),
    )
}

/// What parsing one supplemental-account slice at `o` yields: a one-byte
/// kind tag and a length byte.
pub open spec fn sp_parse_orca_slice(d: Seq<u8>, o: nat) -> Result<
    (RemainingAccountsSlice, nat),
    ParseError,
> {
    if o + 2 > d.len() {
        Err(ParseError::Insufficient)
    } else {
        match sp_orca_accounts_type(d[o as int]) {
            Some(t) => Ok(
                (RemainingAccountsSlice { accounts_type: t, length: d[o as int + 1] }, o + 2),
            ),
            None => Err(ParseError::InvalidDiscriminant),
        }
    }
}

/// The supplemental-account kind a tag byte names.
pub open spec fn sp_orca_accounts_type(tag: u8) -> Option<AccountsType> {
    if tag == 0 {
        Some(AccountsType::TransferHookA)
    } else if tag == 1 {
        Some(AccountsType::TransferHookB)
    } else if tag == 2 {
        Some(AccountsType::TransferHookReward)
    } else if tag == 3 {
        Some(AccountsType::TransferHookInput)
    } else if tag == 4 {
        Some(AccountsType::TransferHookIntermediate)
    } else if tag == 5 {
        Some(AccountsType::TransferHookOutput)
    } else if tag == 6 {
        Some(AccountsType::SupplementalTickArrays)
    } else if tag == 7 {
        Some(AccountsType::SupplementalTickArraysOne)
    } else if tag == 8 {
        Some(AccountsType::SupplementalTickArraysTwo)
    } else {
        None
    }
}

/// What parsing `n` consecutive slices at `o` yields.
pub open spec fn sp_parse_orca_slices(d: Seq<u8>, o: nat, n: nat) -> Result<
    (Seq<RemainingAccountsSlice>, nat),
    ParseError,
>
    decreases n,
{
    if n == 0 {
        Ok((Seq::empty(), o))
    } else {
        match sp_parse_orca_slice(d, o) {
            Ok((sl, o2)) => match sp_parse_orca_slices(d, o2, (n - 1) as nat) {
                Ok((rest, o3)) => Ok((seq![sl] + rest, o3)),
                Err(e) => Err(e),
            },
            Err(e) => Err(e),
        }
    }
}

/// Parse the supplemental-account kind a tag byte names.
fn parse_orca_accounts_type(data: &[u8], offset: &mut usize) -> (r: Result<
    AccountsType,
    ParseError,
>)
    ensures
        match r {
            Ok(t) => *old(offset) + 1 <= data@.len() && *final(offset) == *old(offset) + 1
                && sp_orca_accounts_type(data@[*old(offset) as int]) == Some(t),
            Err(ParseError::Insufficient) => *old(offset) + 1 > data@.len() && *old(offset)
                == *final(offset),
            Err(ParseError::InvalidDiscriminant) => *old(offset) + 1 <= data@.len()
                && sp_orca_accounts_type(data@[*old(offset) as int]) is None && *old(offset)
                == *final(offset),
            Err(_) => false,
        },
{
    let mut cursor: usize = *offset;
    let tag = match parse_u8(data, &mut cursor) {
        Ok(v) => v,
        Err(e) => {
            return Err(e);
        },
    };
    let t = match tag {
        0 => AccountsType::TransferHookA,
        1 => AccountsType::TransferHookB,
        2 => AccountsType::TransferHookReward,
        3 => AccountsType::TransferHookInput,
        4 => AccountsType::TransferHookIntermediate,
        5 => AccountsType::TransferHookOutput,
        6 => AccountsType::SupplementalTickArrays,
        7 => AccountsType::SupplementalTickArraysOne,
        8 => AccountsType::SupplementalTickArraysTwo,
        _ => {
            return Err(ParseError::InvalidDiscriminant);
        },
    };
    *offset = cursor;
    Ok(t)
}

/// Parse one supplemental-account slice: a kind tag and a length byte.
fn parse_orca_slice(data: &[u8], offset: &mut usize) -> (r: Result<
    RemainingAccountsSlice,
    ParseError,
>)
    ensures
        match r {
            Ok(sl) => sp_parse_orca_slice(data@, *old(offset) as nat) matches Ok(p) && sl == p.0
                && p.1 == *final(offset),
            Err(e) => (match sp_parse_orca_slice(data@, *old(offset) as nat) {
                Err(e2) => e2 == e,
                Ok(_) => false,
            }) && *old(offset) == *final(offset),
        },
{
    if data.len() < 2 || data.len() - 2 < *offset {
        return Err(ParseError::Insufficient);
    }
    let mut cursor: usize = *offset;
    let accounts_type = match parse_orca_accounts_type(data, &mut cursor) {
        Ok(t) => t,
        Err(e) => {
            return Err(e);
        },
    };
    let length = parse_u8(data, &mut cursor).unwrap();
    *offset = cursor;
    Ok(RemainingAccountsSlice { accounts_type, length })
}

/// What parsing the optional supplemental-account declaration at `o`
/// yields: a one-byte presence tag, then, when present, a `u32` slice count
/// and that many slices.
pub open spec fn sp_parse_orca_info(d: Seq<u8>, o: nat) -> Result<
    (Option<Seq<RemainingAccountsSlice>>, nat),
    ParseError,
> {
    if o + 1 > d.len() {
        Err(ParseError::Insufficient)
    } else if d[o as int] == 0 {
        Ok((None, o + 1))
    } else if d[o as int] != 1 {
        Err(ParseError::InvalidDiscriminant)
    } else if o + 5 > d.len() {
        Err(ParseError::Insufficient)
    } else {
        match sp_parse_orca_slices(d, o + 5, le_bytes(d.subrange(o as int + 1, o as int + 5))) {
            Ok((slices, o2)) => Ok((Some(slices), o2)),
            Err(e) => Err(e),
        }
    }
}

/// Parse the optional supplemental-account declaration of a `SwapV2`
/// instruction.
fn parse_orca_remaining_accounts_info(data: &[u8], offset: &mut usize) -> (r: Result<
    Option<RemainingAccountsInfo>,
    ParseError,
>)
    ensures
        match r {
            Ok(info) => sp_parse_orca_info(data@, *old(offset) as nat) matches Ok(p) && (match (
                info,
                p.0,
            ) {
                (Some(iv), Some(sl)) => iv.slices@ == sl,
                (None, None) => true,
                _ => false,
            }) && p.1 == *final(offset),
            Err(e) => (match sp_parse_orca_info(data@, *old(offset) as nat) {
                Err(e2) => e2 == e,
                Ok(_) => false,
            }) && *old(offset) == *final(offset),
        },
{
    let mut cursor: usize = *offset;
    let tag = match parse_u8(data, &mut cursor) {
        Ok(v) => v,
        Err(e) => {
            return Err(e);
        },
    };
    if tag == 0 {
        *offset = cursor;
        return Ok(None);
    }
    if tag != 1 {
        return Err(ParseError::InvalidDiscriminant);
    }
    let count32 = match parse_u32(data, &mut cursor) {
        Ok(v) => v,
        Err(e) => {
            return Err(e);
        },
    };
    let count = count32 as usize;
    let ghost o5 = cursor as nat;
    let mut slices: Vec<RemainingAccountsSlice> = Vec::new();
    let mut i: usize = 0;
    while i < count
        invariant
            i <= count,
            slices@.len() == i,
            *offset == *old(offset),
            *old(offset) + 5 <= data@.len(),
            data@[*old(offset) as int] == 1,
            count == le_bytes(data@.subrange(*old(offset) as int + 1, *old(offset) as int + 5)),
            o5 == *old(offset) + 5,
            match sp_parse_orca_slices(data@, cursor as nat, (count - i) as nat) {
                Ok((rest, oend)) => sp_parse_orca_slices(data@, o5, count as nat) matches Ok(full)
                    && full.1 == oend && full.0.len() == i + rest.len() && (forall|k: int|
                    0 <= k < i ==> #[trigger] slices@[k] == full.0[k]) && (forall|k: int|
                    0 <= k < rest.len() ==> full.0[i + k] == rest[k]),
                Err(e) => (match sp_parse_orca_slices(data@, o5, count as nat) {
                    Err(e2) => e2 == e,
                    Ok(_) => false,
                }),
            },
        decreases count - i,
    {
        let ghost cur0 = cursor as nat;
        match parse_orca_slice(data, &mut cursor) {
            Ok(sl) => {
                slices.push(sl);
                proof {
                    if let Ok((hdv, o2)) = sp_parse_orca_slice(data@, cur0) {
                        if let Ok((rest2, oend2)) = sp_parse_orca_slices(
                            data@,
                            cursor as nat,
                            (count - i - 1) as nat,
                        ) {
                            assert(sp_parse_orca_slices(data@, cur0, (count - i) as nat) == Ok::<
                                _,
                                ParseError,
                            >((seq![hdv] + rest2, oend2)));
                            assert((seq![hdv] + rest2)[0] == hdv);
                            assert(forall|k: int|
                                0 <= k < rest2.len() ==> (seq![hdv] + rest2)[k + 1] == rest2[k]);
                        }
                    }
                }
            },
            Err(e) => {
                return Err(e);
            },
        }
        i = i + 1;
    }
    *offset = cursor;
    proof {
        if let Ok((full, oend)) = sp_parse_orca_slices(data@, o5, count as nat) {
            assert(slices@ =~= full);
        }
    }
    Ok(Some(RemainingAccountsInfo { slices }))
}

/// Decode an Orca `SwapV2` instruction into its normalized record; the
/// supplemental-account declaration, if present, is parsed and validated.
pub fn deserialize_orca_swap_v2_instruction(
    data: &[u8],
    accounts_indices: &[u8],
    account_keys: &Vec<Pubkey>,
    is_signer: &Vec<bool>,
    is_writable: &Vec<bool>,
) -> (r: Result<DecodedInstruction, DecodeError>)
    ensures
        sp_orca_swap_v2_result(
            r,
            data@,
            accounts_indices@,
            account_keys@,
            is_signer@,
            is_writable@,
        ),
{
    if data.len() < 42 {
        return Err(DecodeError::Parse(ParseError::Insufficient));
    }
    let mut offset: usize = 8;
    let amount = parse_u64(data, &mut offset).unwrap();
    let other_amount_threshold = parse_u64(data, &mut offset).unwrap();
    let sqrt_price_limit = parse_u128(data, &mut offset).unwrap();
    let amount_specified_is_input = parse_bool(data, &mut offset).unwrap();
    let a_to_b = parse_bool(data, &mut offset).unwrap();
    let remaining_accounts_info = match parse_orca_remaining_accounts_info(data, &mut offset) {
        Ok(info) => info,
        Err(e) => {
            return Err(DecodeError::Parse(e));
        },
    };
    let parsed = ParsedParams::OrcaSwapV2(
        SwapV2Params {
            amount,
            other_amount_threshold,
            sqrt_price_limit,
            amount_specified_is_input,
            a_to_b,
            remaining_accounts_info,
        },
    );
    Ok(
        create_standardized_instruction(
            &crate::programs::orca_whirlpool_program_id(),
            "SwapV2",
            "Orca",
            data,
            accounts_indices,
            account_keys,
            is_signer,
            is_writable,
            parsed,
        ),
    )
}

/// The exact result of this decoder on the given inputs.
pub open spec fn sp_orca_swap_result(
    r: Result<DecodedInstruction, DecodeError>,
    d_arg: Seq<u8>,
    ai: Seq<u8>,
    keys: Seq<Pubkey>,
    sg: Seq<bool>,
    wr: Seq<bool>,
) -> bool {
    ({
            let d = d_arg;
            if d.len() < 42 {
                r == Err::<DecodedInstruction, DecodeError>(
                    DecodeError::Parse(ParseError::Insufficient),
                )
            } else {
                r matches Ok(ins) && sp_record_envelope(
                    ins,
                    sp_orca_whirlpool_program_id(),
                    "Swap"@,
                    "Orca"@,
                    d,
                    ai,
                    keys,
                    sg,
                    wr,
                ) && (ins.parsed_data matches ParsedParams::OrcaSwap(p) && p.amount as nat == le_bytes(d.subrange(8, 16))
                    && p.other_amount_threshold as nat == le_bytes(d.subrange(16, 24))
                    && p.sqrt_price_limit as nat == le_bytes(d.subrange(24, 40))
                    && p.amount_specified_is_input == (d[40] != 0) && p.a_to_b == (d[41] != 0))
            }
        })
}

/// The exact result of this decoder on the given inputs.
pub open spec fn sp_orca_swap_v2_result(
    r: Result<DecodedInstruction, DecodeError>,
    d_arg: Seq<u8>,
    ai: Seq<u8>,
    keys: Seq<Pubkey>,
    sg: Seq<bool>,
    wr: Seq<bool>,
) -> bool {
    ({
            let d = d_arg;
            if d.len() < 42 {
                r == Err::<DecodedInstruction, DecodeError>(
                    DecodeError::Parse(ParseError::Insufficient),
                )
            } else {
                match sp_parse_orca_info(d, 42) {
                    Ok(f) => r matches Ok(ins) && sp_record_envelope(
                        ins,
                        sp_orca_whirlpool_program_id(),
                        "SwapV2"@,
                        "Orca"@,
                        d,
                        ai,
                        keys,
                        sg,
                        wr,
                    ) && (ins.parsed_data matches ParsedParams::OrcaSwapV2(p) && p.amount as nat
                        == le_bytes(d.subrange(8, 16)) && p.other_amount_threshold as nat
                        == le_bytes(d.subrange(16, 24)) && p.sqrt_price_limit as nat == le_bytes(
                        d.subrange(24, 40),
                    ) && p.amount_specified_is_input == (d[40] != 0) && p.a_to_b == (d[41] != 0)
                        && (match (p.remaining_accounts_info, f.0) {
                        (Some(iv), Some(sl)) => iv.slices@ == sl,
                        (None, None) => true,
                        _ => false,
                    })),
                    Err(e) => r == Err::<DecodedInstruction, DecodeError>(DecodeError::Parse(e)),
                }
            }
        })
}

/// The exact result of this decoder on the given inputs.
pub open spec fn sp_orca_increase_liquidity_result(
    r: Result<DecodedInstruction, DecodeError>,
    d_arg: Seq<u8>,
    ai: Seq<u8>,
    keys: Seq<Pubkey>,
    sg: Seq<bool>,
    wr: Seq<bool>,
) -> bool {
    ({
            let d = d_arg;
            if d.len() < 40 {
                r == Err::<DecodedInstruction, DecodeError>(
                    DecodeError::Parse(ParseError::Insufficient),
                )
            } else {
                r matches Ok(ins) && sp_record_envelope(
                    ins,
                    sp_orca_whirlpool_program_id(),
                    "IncreaseLiquidity"@,
                    "Orca"@,
                    d,
                    ai,
                    keys,
                    sg,
                    wr,
                ) && (ins.parsed_data matches ParsedParams::OrcaIncreaseLiquidity(p) && p.liquidity_amount as nat == le_bytes(d.subrange(8, 24)) && p.token_max_a as nat
                    == le_bytes(d.subrange(24, 32)) && p.token_max_b as nat == le_bytes(
                    d.subrange(32, 40),
                ))
            }
        })
}

/// The exact result of this decoder on the given inputs.
pub open spec fn sp_orca_decrease_liquidity_result(
    r: Result<DecodedInstruction, DecodeError>,
    d_arg: Seq<u8>,
    ai: Seq<u8>,
    keys: Seq<Pubkey>,
    sg: Seq<bool>,
    wr: Seq<bool>,
) -> bool {
    ({
            let d = d_arg;
            if d.len() < 40 {
                r == Err::<DecodedInstruction, DecodeError>(
                    DecodeError::Parse(ParseError::Insufficient),
                )
            } else {
                r matches Ok(ins) && sp_record_envelope(
                    ins,
                    sp_orca_whirlpool_program_id(),
                    "DecreaseLiquidity"@,
                    "Orca"@,
                    d,
                    ai,
                    keys,
                    sg,
                    wr,
                ) && (ins.parsed_data matches ParsedParams::OrcaDecreaseLiquidity(p) && p.liquidity_amount as nat == le_bytes(d.subrange(8, 24)) && p.token_min_a as nat
                    == le_bytes(d.subrange(24, 32)) && p.token_min_b as nat == le_bytes(
                    d.subrange(32, 40),
                ))
            }
        })
}

/// The exact result of this decoder on the given inputs.
pub open spec fn sp_orca_initialize_pool_result(
    r: Result<DecodedInstruction, DecodeError>,
    d_arg: Seq<u8>,
    ai: Seq<u8>,
    keys: Seq<Pubkey>,
    sg: Seq<bool>,
    wr: Seq<bool>,
) -> bool {
    ({
            let d = d_arg;
            if d.len() < 27 {
                r == Err::<DecodedInstruction, DecodeError>(
                    DecodeError::Parse(ParseError::Insufficient),
                )
            } else {
                r matches Ok(ins) && sp_record_envelope(
                    ins,
                    sp_orca_whirlpool_program_id(),
                    "InitializePool"@,
                    "Orca"@,
                    d,
                    ai,
                    keys,
                    sg,
                    wr,
                ) && (ins.parsed_data matches ParsedParams::OrcaInitializePool(p) && p.bumps.whirlpool_bump == d[8] && p.tick_spacing as nat == le_bytes(
                    d.subrange(9, 11),
                ) && p.initial_sqrt_price as nat == le_bytes(d.subrange(11, 27)))
            }
        })
}

/// The exact result of this decoder on the given inputs.
pub open spec fn sp_orca_open_position_result(
    r: Result<DecodedInstruction, DecodeError>,
    d_arg: Seq<u8>,
    ai: Seq<u8>,
    keys: Seq<Pubkey>,
    sg: Seq<bool>,
    wr: Seq<bool>,
) -> bool {
    ({
            let d = d_arg;
            if d.len() < 17 {
                r == Err::<DecodedInstruction, DecodeError>(
                    DecodeError::Parse(ParseError::Insufficient),
                )
            } else {
                r matches Ok(ins) && sp_record_envelope(
                    ins,
                    sp_orca_whirlpool_program_id(),
                    "OpenPosition"@,
                    "Orca"@,
                    d,
                    ai,
                    keys,
                    sg,
                    wr,
                ) && (ins.parsed_data matches ParsedParams::OrcaOpenPosition(p) && p.bumps.position_bump == d[8] && p.tick_lower_index as int == le_i32_value(
                    d.subrange(9, 13),
                ) && p.tick_upper_index as int == le_i32_value(d.subrange(13, 17)))
            }
        })
}

/// The exact result of this decoder on the given inputs.
pub open spec fn sp_orca_close_position_result(
    r: Result<DecodedInstruction, DecodeError>,
    d_arg: Seq<u8>,
    ai: Seq<u8>,
    keys: Seq<Pubkey>,
    sg: Seq<bool>,
    wr: Seq<bool>,
) -> bool {
    ({
            let d = d_arg;
            if d.len() < 8 {
                r == Err::<DecodedInstruction, DecodeError>(
                    DecodeError::Parse(ParseError::Insufficient),
                )
            } else {
                r matches Ok(ins) && sp_record_envelope(
                    ins,
                    sp_orca_whirlpool_program_id(),
                    "ClosePosition"@,
                    "Orca"@,
                    d,
                    ai,
                    keys,
                    sg,
                    wr,
                ) && (ins.parsed_data is OrcaClosePosition)
            }
        })
}

/// The exact result of this decoder on the given inputs.
pub open spec fn sp_orca_two_hop_swap_result(
    r: Result<DecodedInstruction, DecodeError>,
    d_arg: Seq<u8>,
    ai: Seq<u8>,
    keys: Seq<Pubkey>,
    sg: Seq<bool>,
    wr: Seq<bool>,
) -> bool {
    ({
            let d = d_arg;
            if d.len() < 59 {
                r == Err::<DecodedInstruction, DecodeError>(
                    DecodeError::Parse(ParseError::Insufficient),
                )
            } else {
                r matches Ok(ins) && sp_record_envelope(
                    ins,
                    sp_orca_whirlpool_program_id(),
                    "TwoHopSwap"@,
                    "Orca"@,
                    d,
                    ai,
                    keys,
                    sg,
                    wr,
                ) && (ins.parsed_data matches ParsedParams::OrcaTwoHopSwap(p) && p.amount as nat == le_bytes(d.subrange(8, 16)) && p.other_amount_threshold as nat
                    == le_bytes(d.subrange(16, 24)) && p.amount_specified_is_input == (d[24] != 0)
                    && p.a_to_b_one == (d[25] != 0) && p.a_to_b_two == (d[26] != 0)
                    && p.sqrt_price_limit_one as nat == le_bytes(d.subrange(27, 43))
                    && p.sqrt_price_limit_two as nat == le_bytes(d.subrange(43, 59)))
            }
        })
}

} // verus!
