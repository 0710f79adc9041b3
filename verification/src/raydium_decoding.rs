//! Raydium liquidity-pool program decoding: instruction identification and parameter layout.

use vstd::prelude::*;
use crate::bytes::{parse_u8, parse_u64, le_bytes, ParseError};
use crate::record::{DecodedInstruction, DecodeError, ParsedParams, create_standardized_instruction, sp_record_envelope};
use crate::programs::sp_raydium_lp_program;
use crate::Pubkey;

verus! {



/// The Raydium instructions this library decodes.
#[derive(Clone, Copy, Debug, PartialEq, Eq, Structural)]
pub enum RaydiumInstructionType {
    Initialize2,
}

/// Parameters of a Raydium `Initialize2` instruction: a one-byte tag
/// followed by the pool opening parameters.
#[derive(Clone, Copy, Debug, PartialEq, Eq, Structural)]
pub struct Initialize2Params {
    pub discriminator: u8,
    pub nonce: u8,
    pub open_time: u64,
    pub init_pc_amount: u64,
    pub init_coin_amount: u64,
}

/// Which Raydium instruction an instruction-data prefix names: the one-byte
/// tag `1` marks `Initialize2`.
pub open spec fn sp_identify_raydium(data: Seq<u8>) -> Option<RaydiumInstructionType> {
    if data.len() >= 1 && data[0] == 1 {
        Some(RaydiumInstructionType::Initialize2)
    } else {
        None
    }
}

/// Identify a Raydium instruction by its leading tag byte.
pub fn get_raydium_instruction_type(data: &[u8]) -> (r: Option<RaydiumInstructionType>)
    ensures
        r == sp_identify_raydium(data@),
{
    if data.len() >= 1 && data[0] == 1 {
        Some(RaydiumInstructionType::Initialize2)
    } else {
        None
    }
}

/// Decode a Raydium `Initialize2` instruction into its normalized record;
/// its parameters begin at the tag byte itself.
pub fn deserialize_raydium_initialize2_instruction(
    data: &[u8],
    accounts_indices: &[u8],
    account_keys: &Vec<Pubkey>,
    is_signer: &Vec<bool>,
    is_writable: &Vec<bool>,
) -> (r: Result<DecodedInstruction, DecodeError>)
    ensures
        sp_raydium_initialize2_result(
            r,
            data@,
            accounts_indices@,
            account_keys@,
            is_signer@,
            is_writable@,
        ),
{
    if data.len() < 26 {
        return Err(DecodeError::Parse(ParseError::Insufficient));
    }
    let mut offset: usize = 0;
    let discriminator = parse_u8(data, &mut offset).unwrap();
    let nonce = parse_u8(data, &mut offset).unwrap();
    let open_time = parse_u64(data, &mut offset).unwrap();
    let init_pc_amount = parse_u64(data, &mut offset).unwrap();
    let init_coin_amount = parse_u64(data, &mut offset).unwrap();
    let parsed = ParsedParams::RaydiumInitialize2(
        Initialize2Params { discriminator, nonce, open_time, init_pc_amount, init_coin_amount },
    );
    Ok(
        create_standardized_instruction(
            &crate::programs::raydium_lp_program(),
            "Initialize2",
            "Raydium",
            data,
            accounts_indices,
            account_keys,
            is_signer,
            is_writable,
            parsed,
        ),
    )
}

/// The exact result of this decoder on the given inputs.
pub open spec fn sp_raydium_initialize2_result(
    r: Result<DecodedInstruction, DecodeError>,
    d_arg: Seq<u8>,
    ai: Seq<u8>,
    keys: Seq<Pubkey>,
    sg: Seq<bool>,
    wr: Seq<bool>,
) -> bool {
    ({
            let d = d_arg;
            if d.len() < 26 {
                r == Err::<DecodedInstruction, DecodeError>(
                    DecodeError::Parse(ParseError::Insufficient),
                )
            } else {
                r matches Ok(ins) && sp_record_envelope(
                    ins,
                    sp_raydium_lp_program(),
                    "Initialize2"@,
                    "Raydium"@,
                    d,
                    ai,
                    keys,
                    sg,
                    wr,
                ) && (ins.parsed_data matches ParsedParams::RaydiumInitialize2(p) && p.discriminator
                    == d[0] && p.nonce == d[1] && p.open_time as nat == le_bytes(d.subrange(2, 10))
                    && p.init_pc_amount as nat == le_bytes(d.subrange(10, 18))
                    && p.init_coin_amount as nat == le_bytes(d.subrange(18, 26)))
            }
        })
}

} // verus!
