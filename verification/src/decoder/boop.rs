//! Boop decoder: identifies the token-creation instructions and parses
//! their parameters into normalized records.

use vstd::prelude::*;
use vstd::slice::slice_subrange;
use crate::Pubkey;
use crate::bytes::{starts_with, parse_string, parse_u64, parse_pubkey, sp_parse_string, ParseError, le_bytes};
use crate::record::{
    DecodedInstruction, DecodeError, ParsedParams, create_standardized_instruction,
    sp_record_envelope,
};
use crate::programs::sp_boop_program_id;

verus! {

/// The Boop instructions this decoder recognizes.
#[derive(Clone, Copy, Debug, PartialEq, Eq, Structural)]
pub enum BoopInstructionType {
    CreateToken,
    DeployBondingCurve,
}

/// Parameters of a Boop `CreateToken` instruction.
#[derive(Clone, Debug)]
pub struct CreateTokenParams {
    pub salt: u64,
    pub name: String,
    pub symbol: String,
    pub uri: String,
}

/// Parameters of a Boop `DeployBondingCurve` instruction.
#[derive(Clone, Debug)]
pub struct DeployBondingCurveParams {
    pub creator: Pubkey,
    pub salt: u64,
}

/// What parsing `CreateToken` parameters yields: a salt and three
/// length-prefixed strings.
pub open spec fn sp_parse_create_token(d: Seq<u8>) -> Result<
    (u64, Seq<char>, Seq<char>, Seq<char>),
    ParseError,
> {
    if d.len() < 8 {
        Err(ParseError::Insufficient)
    } else {
        match sp_parse_string(d, 8) {
            Ok((name, o1)) => match sp_parse_string(d, o1) {
                Ok((symbol, o2)) => match sp_parse_string(d, o2) {
                    Ok((uri, o3)) => Ok(
                        (le_bytes(d.subrange(0, 8)) as u64, name, symbol, uri),
                    ),
                    Err(e) => Err(e),
                },
                Err(e) => Err(e),
            },
            Err(e) => Err(e),
        }
    }
}


/// The exact result of decoding a `CreateToken` instruction.
pub open spec fn sp_decode_create_token_result(
    r: Result<DecodedInstruction, DecodeError>,
    d: Seq<u8>,
    ai: Seq<u8>,
    keys: Seq<Pubkey>,
    sg: Seq<bool>,
    wr: Seq<bool>,
) -> bool {
    if d.len() < 8 {
        r == Err::<DecodedInstruction, DecodeError>(DecodeError::Parse(ParseError::Insufficient))
    } else {
        match sp_parse_create_token(d.subrange(8, d.len() as int)) {
            Ok(f) => r matches Ok(ins) && sp_record_envelope(
                ins,
                sp_boop_program_id(),
                "CreateToken"@,
                "Boop"@,
                d,
                ai,
                keys,
                sg,
                wr,
            ) && (ins.parsed_data matches ParsedParams::BoopCreateToken(p) && p.salt == f.0
                && p.name@ == f.1 && p.symbol@ == f.2 && p.uri@ == f.3),
            Err(e) => r == Err::<DecodedInstruction, DecodeError>(DecodeError::Parse(e)),
        }
    }
}

/// The exact result of decoding a `DeployBondingCurve` instruction.
pub open spec fn sp_decode_deploy_bonding_result(
    r: Result<DecodedInstruction, DecodeError>,
    d: Seq<u8>,
    ai: Seq<u8>,
    keys: Seq<Pubkey>,
    sg: Seq<bool>,
    wr: Seq<bool>,
) -> bool {
    if d.len() < 48 {
        r == Err::<DecodedInstruction, DecodeError>(DecodeError::Parse(ParseError::Insufficient))
    } else {
        r matches Ok(ins) && sp_record_envelope(
            ins,
            sp_boop_program_id(),
            "DeployBondingCurve"@,
            "Boop"@,
            d,
            ai,
            keys,
            sg,
            wr,
        ) && (ins.parsed_data matches ParsedParams::BoopDeployBondingCurve(p) && p.creator@
            == d.subrange(8, 40) && p.salt as nat == le_bytes(d.subrange(40, 48)))
    }
}

/// The exact result of decoding an identified instruction.
pub open spec fn sp_decode_result(
    t: BoopInstructionType,
    r: Result<DecodedInstruction, DecodeError>,
    d: Seq<u8>,
    ai: Seq<u8>,
    keys: Seq<Pubkey>,
    sg: Seq<bool>,
    wr: Seq<bool>,
) -> bool {
    match t {
        BoopInstructionType::CreateToken => sp_decode_create_token_result(r, d, ai, keys, sg, wr),
        BoopInstructionType::DeployBondingCurve => sp_decode_deploy_bonding_result(
            r,
            d,
            ai,
            keys,
            sg,
            wr,
        ),
    }
}

/// The Boop decoder.
pub struct BoopDecoder;

impl BoopDecoder {
    /// The address of the Boop program.
    pub fn program_id() -> (r: Pubkey)
        ensures
            r@ == sp_boop_program_id(),
    {
        crate::programs::boop_program_id()
    }

    /// The protocol tag of this decoder's records.
    pub fn protocol_name() -> (r: &'static str)
        ensures
            r@ == "Boop"@,
    {
        "Boop"
    }

    /// Which Boop instruction an instruction-data prefix names.
    pub open spec fn sp_identify(data: Seq<u8>) -> Option<BoopInstructionType> {
        match crate::boop_decoding::sp_identify_boop(data) {
            Some(crate::boop_decoding::BoopInstructionType::CreateToken) => Some(
                BoopInstructionType::CreateToken,
            ),
            Some(crate::boop_decoding::BoopInstructionType::DeployBondingCurve) => Some(
                BoopInstructionType::DeployBondingCurve,
            ),
            None => None,
        }
    }

    /// Identify an instruction by its leading 8-byte discriminator.
    pub fn identify_instruction(data: &[u8]) -> (r: Option<BoopInstructionType>)
        ensures
            r == Self::sp_identify(data@),
    {
        match crate::boop_decoding::get_boop_instruction_type(data) {
            Some(crate::boop_decoding::BoopInstructionType::CreateToken) => Some(
                BoopInstructionType::CreateToken,
            ),
            Some(crate::boop_decoding::BoopInstructionType::DeployBondingCurve) => Some(
                BoopInstructionType::DeployBondingCurve,
            ),
            None => None,
        }
    }

    /// Decode a `CreateToken` instruction.
    pub fn decode_create_token(
        data: &[u8],
        accounts_indices: &[u8],
        account_keys: &Vec<Pubkey>,
        is_signer: &Vec<bool>,
        is_writable: &Vec<bool>,
    ) -> (r: Result<DecodedInstruction, DecodeError>)
        ensures
            sp_decode_create_token_result(
                r,
                data@,
                accounts_indices@,
                account_keys@,
                is_signer@,
                is_writable@,
            ),
    {
        if data.len() < 8 {
            return Err(DecodeError::Parse(ParseError::Insufficient));
        }
        let remaining = slice_subrange(data, 8, data.len());
        let mut offset: usize = 0;
        let salt = match parse_u64(remaining, &mut offset) {
            Ok(v) => v,
            Err(e) => {
                return Err(DecodeError::Parse(e));
            },
        };
        let name = match parse_string(remaining, &mut offset) {
            Ok(s) => s,
            Err(e) => {
                return Err(DecodeError::Parse(e));
            },
        };
        let symbol = match parse_string(remaining, &mut offset) {
            Ok(s) => s,
            Err(e) => {
                return Err(DecodeError::Parse(e));
            },
        };
        let uri = match parse_string(remaining, &mut offset) {
            Ok(s) => s,
            Err(e) => {
                return Err(DecodeError::Parse(e));
            },
        };
        let parsed = ParsedParams::BoopCreateToken(
            crate::boop_decoding::CreateTokenParams { salt, name, symbol, uri },
        );
        Ok(
            create_standardized_instruction(
                &Self::program_id(),
                "CreateToken",
                "Boop",
                data,
                accounts_indices,
                account_keys,
                is_signer,
                is_writable,
                parsed,
            ),
        )
    }

    /// Decode a `DeployBondingCurve` instruction.
    pub fn decode_deploy_bonding(
        data: &[u8],
        accounts_indices: &[u8],
        account_keys: &Vec<Pubkey>,
        is_signer: &Vec<bool>,
        is_writable: &Vec<bool>,
    ) -> (r: Result<DecodedInstruction, DecodeError>)
        ensures
            sp_decode_deploy_bonding_result(
                r,
                data@,
                accounts_indices@,
                account_keys@,
                is_signer@,
                is_writable@,
            ),
    {
        if data.len() < 48 {
            return Err(DecodeError::Parse(ParseError::Insufficient));
        }
        let remaining = slice_subrange(data, 8, data.len());
        let mut offset: usize = 0;
        let creator = match parse_pubkey(remaining, &mut offset) {
            Ok(k) => k,
            Err(e) => {
                return Err(DecodeError::Parse(e));
            },
        };
        let salt = match parse_u64(remaining, &mut offset) {
            Ok(v) => v,
            Err(e) => {
                return Err(DecodeError::Parse(e));
            },
        };
        proof {
            assert(data@.subrange(8, data@.len() as int).subrange(0, 32) =~= data@.subrange(
                8,
                40,
            ));
            assert(data@.subrange(8, data@.len() as int).subrange(32, 40) =~= data@.subrange(
                40,
                48,
            ));
        }
        let parsed = ParsedParams::BoopDeployBondingCurve(
            crate::boop_decoding::DeployBondingCurveParams { creator, salt },
        );
        Ok(
            create_standardized_instruction(
                &Self::program_id(),
                "DeployBondingCurve",
                "Boop",
                data,
                accounts_indices,
                account_keys,
                is_signer,
                is_writable,
                parsed,
            ),
        )
    }

    /// Decode one identified instruction.
    pub fn decode_instruction(
        instruction_type: BoopInstructionType,
        data: &[u8],
        accounts_indices: &[u8],
        account_keys: &Vec<Pubkey>,
        is_signer: &Vec<bool>,
        is_writable: &Vec<bool>,
    ) -> (r: Result<DecodedInstruction, DecodeError>)
        ensures
            sp_decode_result(
                instruction_type,
                r,
                data@,
                accounts_indices@,
                account_keys@,
                is_signer@,
                is_writable@,
            ),
    {
        match instruction_type {
            BoopInstructionType::CreateToken => Self::decode_create_token(
                data,
                accounts_indices,
                account_keys,
                is_signer,
                is_writable,
            ),
            BoopInstructionType::DeployBondingCurve => Self::decode_deploy_bonding(
                data,
                accounts_indices,
                account_keys,
                is_signer,
                is_writable,
            ),
        }
    }

    /// The single processing entry point.
    pub fn process_instruction(
        data: &[u8],
        accounts_indices: &[u8],
        account_keys: &Vec<Pubkey>,
        is_signer: &Vec<bool>,
        is_writable: &Vec<bool>,
    ) -> (r: Option<Result<DecodedInstruction, DecodeError>>)
        ensures
            r is None <==> (data@.len() < 8 || Self::sp_identify(data@) is None),
            ({
                match Self::sp_identify(data@) {
                    Some(t) => data@.len() >= 8 ==> (r matches Some(res) && sp_decode_result(
                        t,
                        res,
                        data@,
                        accounts_indices@,
                        account_keys@,
                        is_signer@,
                        is_writable@,
                    )),
                    None => true,
                }
            }),
    {
        if data.len() < 8 {
            return None;
        }
        let instruction_type = match Self::identify_instruction(data) {
            Some(t) => t,
            None => {
                return None;
            },
        };
        Some(
            Self::decode_instruction(
                instruction_type,
                data,
                accounts_indices,
                account_keys,
                is_signer,
                is_writable,
            ),
        )
    }
}

} // verus!
