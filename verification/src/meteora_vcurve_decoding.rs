//! Meteora virtual-curve program decoding: instruction identification and parameter layout.

use vstd::prelude::*;
use vstd::slice::slice_subrange;
use crate::bytes::{starts_with, parse_string, sp_parse_string, ParseError};
use crate::record::{DecodedInstruction, DecodeError, ParsedParams, create_standardized_instruction, sp_record_envelope};
use crate::programs::sp_meteora_vcurve_program_id;
use crate::Pubkey;

verus! {

/// The 8-byte discriminator of this variant's instruction data.
pub open spec fn sp_initialize_virtual_pool_with_spl_token_discriminator() -> Seq<u8> {
    seq![140, 85, 215, 176, 102, 54, 104, 79]
}

/// The 8-byte discriminator of this variant's instruction data, as bytes.
pub fn initialize_virtual_pool_with_spl_token_discriminator() -> (r: Vec<u8>)
    ensures
        r@ == sp_initialize_virtual_pool_with_spl_token_discriminator(),
{
    let r: Vec<u8> = vec![140, 85, 215, 176, 102, 54, 104, 79];
    proof {
        assert(r@ =~= sp_initialize_virtual_pool_with_spl_token_discriminator());
    }
    r
}


/// The Meteora virtual-curve instructions this library decodes.
#[derive(Clone, Copy, Debug, PartialEq, Eq, Structural)]
pub enum MeteoraVCurveInstructionType {
    InitializeVirtualPoolWithSplToken,
}

/// Parameters of an `InitializeVirtualPoolWithSplToken` instruction.
#[derive(Clone, Debug)]
pub struct InitializePoolParameters {
    pub name: String,
    pub symbol: String,
    pub uri: String,
}

/// Which virtual-curve instruction an instruction-data prefix names.
pub open spec fn sp_identify_meteora_vcurve(data: Seq<u8>) -> Option<
    MeteoraVCurveInstructionType,
> {
    if data.len() >= 8 && data.subrange(0, 8)
        == sp_initialize_virtual_pool_with_spl_token_discriminator() {
        Some(MeteoraVCurveInstructionType::InitializeVirtualPoolWithSplToken)
    } else {
        None
    }
}

/// Identify a virtual-curve instruction by its leading 8-byte discriminator.
pub fn get_meteora_vcurve_instruction_type(data: &[u8]) -> (r: Option<
    MeteoraVCurveInstructionType,
>)
    ensures
        r == sp_identify_meteora_vcurve(data@),
{
    if starts_with(data, &initialize_virtual_pool_with_spl_token_discriminator()) {
        Some(MeteoraVCurveInstructionType::InitializeVirtualPoolWithSplToken)
    } else {
        None
    }
}

/// What parsing the pool parameters after the discriminator yields: three
/// length-prefixed strings.
pub open spec fn sp_parse_vcurve_pool(d: Seq<u8>) -> Result<
    (Seq<char>, Seq<char>, Seq<char>),
    ParseError,
> {
    match sp_parse_string(d, 0) {
        Ok((name, o1)) => match sp_parse_string(d, o1) {
            Ok((symbol, o2)) => match sp_parse_string(d, o2) {
                Ok((uri, o3)) => Ok((name, symbol, uri)),
                Err(e) => Err(e),
            },
            Err(e) => Err(e),
        },
        Err(e) => Err(e),
    }
}

/// Decode an `InitializeVirtualPoolWithSplToken` instruction into its
/// normalized record.
pub fn deserialize_meteora_vcurve_initialize_virtual_pool_instruction(
    data: &[u8],
    accounts_indices: &[u8],
    account_keys: &Vec<Pubkey>,
    is_signer: &Vec<bool>,
    is_writable: &Vec<bool>,
) -> (r: Result<DecodedInstruction, DecodeError>)
    ensures
        sp_vcurve_initialize_result(
            r,
            data@,
            accounts_indices@,
            account_keys@,
            is_signer@,
            is_writable@,
        ),
{
    if data.len() < 8 {
        return Err(DecodeError::Parse(ParseError::Insufficient));
    }
    let remaining = slice_subrange(data, 8, data.len());
    let mut offset: usize = 0;
    let name = match parse_string(remaining, &mut offset) {
        Ok(s) => s,
        Err(e) => {
            return Err(DecodeError::Parse(e));
        },
    };
    let symbol = match parse_string(remaining, &mut offset) {
        Ok(s) => s,
        Err(e) => {
            return Err(DecodeError::Parse(e));
        },
    };
    let uri = match parse_string(remaining, &mut offset) {
        Ok(s) => s,
        Err(e) => {
            return Err(DecodeError::Parse(e));
        },
    };
    let parsed = ParsedParams::MeteoraVCurveInitialize(
        InitializePoolParameters { name, symbol, uri },
    );
    Ok(
        create_standardized_instruction(
            &crate::programs::meteora_vcurve_program_id(),
            "InitializeVirtualPoolWithSplToken",
            "MeteoraVCurve",
            data,
            accounts_indices,
            account_keys,
            is_signer,
            is_writable,
            parsed,
        ),
    )
}

/// The exact result of this decoder on the given inputs.
pub open spec fn sp_vcurve_initialize_result(
    r: Result<DecodedInstruction, DecodeError>,
    d_arg: Seq<u8>,
    ai: Seq<u8>,
    keys: Seq<Pubkey>,
    sg: Seq<bool>,
    wr: Seq<bool>,
) -> bool {
    ({
            let d = d_arg;
            if d.len() < 8 {
                r == Err::<DecodedInstruction, DecodeError>(
                    DecodeError::Parse(ParseError::Insufficient),
                )
            } else {
                match sp_parse_vcurve_pool(d.subrange(8, d.len() as int)) {
                    Ok(f) => r matches Ok(ins) && sp_record_envelope(
                        ins,
                        sp_meteora_vcurve_program_id(),
                        "InitializeVirtualPoolWithSplToken"@,
                        "MeteoraVCurve"@,
                        d,
                        ai,
                        keys,
                        sg,
                        wr,
                    ) && (ins.parsed_data matches ParsedParams::MeteoraVCurveInitialize(p)
                        && p.name@ == f.0 && p.symbol@ == f.1 && p.uri@ == f.2),
                    Err(e) => r == Err::<DecodedInstruction, DecodeError>(DecodeError::Parse(e)),
                }
            }
        })
}

} // verus!
