//! Raydium constant-product pool program decoding: instruction identification and parameter layout.

use vstd::prelude::*;
use crate::bytes::{starts_with, parse_u64, le_bytes, ParseError};
use crate::record::{DecodedInstruction, DecodeError, ParsedParams, create_standardized_instruction, sp_record_envelope};
use crate::programs::sp_raydium_cpmm_program;
use crate::Pubkey;

verus! {

/// The 8-byte discriminator of this variant's instruction data.
pub open spec fn sp_raydium_cpmm_initialize_discriminator() -> Seq<u8> {
    seq![175, 175, 109, 31, 13, 152, 155, 237]
}

/// The 8-byte discriminator of this variant's instruction data, as bytes.
pub fn raydium_cpmm_initialize_discriminator() -> (r: Vec<u8>)
    ensures
        r@ == sp_raydium_cpmm_initialize_discriminator(),
{
    let r: Vec<u8> = vec![175, 175, 109, 31, 13, 152, 155, 237];
    proof {
        assert(r@ =~= sp_raydium_cpmm_initialize_discriminator());
    }
    r
}


/// The Raydium CPMM instructions this library decodes.
#[derive(Clone, Copy, Debug, PartialEq, Eq, Structural)]
pub enum RaydiumCpmmInstructionType {
    Initialize,
}

/// Parameters of a Raydium CPMM `Initialize` instruction.
#[derive(Clone, Copy, Debug, PartialEq, Eq, Structural)]
pub struct InitializeParams {
    pub init_amount_0: u64,
    pub init_amount_1: u64,
    pub open_time: u64,
}

/// Which Raydium CPMM instruction an instruction-data prefix names.
pub open spec fn sp_identify_raydium_cpmm(data: Seq<u8>) -> Option<RaydiumCpmmInstructionType> {
    if data.len() >= 8 && data.subrange(0, 8) == sp_raydium_cpmm_initialize_discriminator() {
        Some(RaydiumCpmmInstructionType::Initialize)
    } else {
        None
    }
}

/// Identify a Raydium CPMM instruction by its leading 8-byte discriminator.
pub fn get_raydium_cpmm_instruction_type(data: &[u8]) -> (r: Option<RaydiumCpmmInstructionType>)
    ensures
        r == sp_identify_raydium_cpmm(data@),
{
    if starts_with(data, &raydium_cpmm_initialize_discriminator()) {
        Some(RaydiumCpmmInstructionType::Initialize)
    } else {
        None
    }
}

/// Decode a Raydium CPMM `Initialize` instruction into its normalized
/// record; the instruction must carry at least 20 accounts.
pub fn deserialize_raydium_cpmm_initialize_instruction(
    data: &[u8],
    accounts_indices: &[u8],
    account_keys: &Vec<Pubkey>,
    is_signer: &Vec<bool>,
    is_writable: &Vec<bool>,
) -> (r: Result<DecodedInstruction, DecodeError>)
    ensures
        sp_raydium_cpmm_initialize_result(
            r,
            data@,
            accounts_indices@,
            account_keys@,
            is_signer@,
            is_writable@,
        ),
{
    if data.len() < 32 {
        return Err(DecodeError::Parse(ParseError::Insufficient));
    }
    if accounts_indices.len() < 20 {
        return Err(DecodeError::InsufficientAccounts);
    }
    let mut offset: usize = 8;
    let init_amount_0 = parse_u64(data, &mut offset).unwrap();
    let init_amount_1 = parse_u64(data, &mut offset).unwrap();
    let open_time = parse_u64(data, &mut offset).unwrap();
    let parsed = ParsedParams::RaydiumCpmmInitialize(
        InitializeParams { init_amount_0, init_amount_1, open_time },
    );
    Ok(
        create_standardized_instruction(
            &crate::programs::raydium_cpmm_program(),
            "Initialize",
            "RaydiumCPMM",
            data,
            accounts_indices,
            account_keys,
            is_signer,
            is_writable,
            parsed,
        ),
    )
}

/// The exact result of this decoder on the given inputs.
pub open spec fn sp_raydium_cpmm_initialize_result(
    r: Result<DecodedInstruction, DecodeError>,
    d_arg: Seq<u8>,
    ai: Seq<u8>,
    keys: Seq<Pubkey>,
    sg: Seq<bool>,
    wr: Seq<bool>,
) -> bool {
    ({
            let d = d_arg;
            if d.len() < 32 {
                r == Err::<DecodedInstruction, DecodeError>(
                    DecodeError::Parse(ParseError::Insufficient),
                )
            } else if ai.len() < 20 {
                r == Err::<DecodedInstruction, DecodeError>(DecodeError::InsufficientAccounts)
            } else {
                r matches Ok(ins) && sp_record_envelope(
                    ins,
                    sp_raydium_cpmm_program(),
                    "Initialize"@,
                    "RaydiumCPMM"@,
                    d,
                    ai,
                    keys,
                    sg,
                    wr,
                ) && (ins.parsed_data matches ParsedParams::RaydiumCpmmInitialize(p)
                    && p.init_amount_0 as nat == le_bytes(d.subrange(8, 16)) && p.init_amount_1
                    as nat == le_bytes(d.subrange(16, 24)) && p.open_time as nat == le_bytes(
                    d.subrange(24, 32),
                ))
            }
        })
}

} // verus!
