//! Pumpfun decoder: identifies the token-creation instructions and parses
//! their parameters into normalized records.

use vstd::prelude::*;
use vstd::slice::slice_subrange;
use crate::Pubkey;
use crate::bytes::{starts_with, parse_string, parse_bool, parse_pubkey, sp_parse_string, ParseError};
use crate::record::{
    DecodedInstruction, DecodeError, ParsedParams, create_standardized_instruction,
    sp_record_envelope,
};
use crate::programs::sp_pumpfun_program_id;
use crate::pumpfun_decoding::CreateParams;

verus! {

/// The 8-byte discriminator of the `create` instruction.
pub open spec fn sp_pump_create_discriminator() -> Seq<u8> {
    seq![24, 30, 200, 40, 5, 28, 7, 119]
}

/// The 8-byte discriminator of the `create` instruction, as bytes.
pub fn pump_create_discriminator() -> (r: Vec<u8>)
    ensures
        r@ == sp_pump_create_discriminator(),
{
    let r: Vec<u8> = vec![24, 30, 200, 40, 5, 28, 7, 119];
    proof {
        assert(r@ =~= sp_pump_create_discriminator());
    }
    r
}

/// The 8-byte discriminator of the `create_v2` instruction.
pub open spec fn sp_pump_create_v2_discriminator() -> Seq<u8> {
    seq![214, 144, 76, 236, 95, 139, 49, 180]
}

/// The 8-byte discriminator of the `create_v2` instruction, as bytes.
pub fn pump_create_v2_discriminator() -> (r: Vec<u8>)
    ensures
        r@ == sp_pump_create_v2_discriminator(),
{
    let r: Vec<u8> = vec![214, 144, 76, 236, 95, 139, 49, 180];
    proof {
        assert(r@ =~= sp_pump_create_v2_discriminator());
    }
    r
}

/// The Pumpfun instructions this decoder recognizes.
#[derive(Clone, Copy, Debug, PartialEq, Eq, Structural)]
pub enum PumpfunInstructionType {
    Create,
    CreateV2,
}

/// Parameters of a Pumpfun `create_v2` instruction.
#[derive(Clone, Debug)]
pub struct CreateV2Params {
    pub name: String,
    pub symbol: String,
    pub uri: String,
    pub creator: Pubkey,
    pub is_mayhem_mode: bool,
}

/// What parsing `create` parameters yields: three length-prefixed strings
/// and a 32-byte creator address.
pub open spec fn sp_parse_create(d: Seq<u8>) -> Result<
    (Seq<char>, Seq<char>, Seq<char>, Seq<u8>),
    ParseError,
> {
    match sp_parse_string(d, 0) {
        Ok((name, o1)) => match sp_parse_string(d, o1) {
            Ok((symbol, o2)) => match sp_parse_string(d, o2) {
                Ok((uri, o3)) => if o3 + 32 <= d.len() {
                    Ok((name, symbol, uri, d.subrange(o3 as int, o3 as int + 32)))
                } else {
                    Err(ParseError::Insufficient)
                },
                Err(e) => Err(e),
            },
            Err(e) => Err(e),
        },
        Err(e) => Err(e),
    }
}

/// What parsing `create_v2` parameters yields: the `create` fields and one
/// flag byte.
pub open spec fn sp_parse_create_v2(d: Seq<u8>) -> Result<
    (Seq<char>, Seq<char>, Seq<char>, Seq<u8>, bool),
    ParseError,
> {
    match sp_parse_string(d, 0) {
        Ok((name, o1)) => match sp_parse_string(d, o1) {
            Ok((symbol, o2)) => match sp_parse_string(d, o2) {
                Ok((uri, o3)) => if o3 + 33 <= d.len() {
                    Ok(
                        (
                            name,
                            symbol,
                            uri,
                            d.subrange(o3 as int, o3 as int + 32),
                            d[o3 as int + 32] != 0,
                        ),
                    )
                } else {
                    Err(ParseError::Insufficient)
                },
                Err(e) => Err(e),
            },
            Err(e) => Err(e),
        },
        Err(e) => Err(e),
    }
}


/// The exact result of decoding a `create` instruction: an error iff the
/// parameters do not parse, else the normalized record with the parsed
/// fields.
pub open spec fn sp_decode_create_result(
    r: Result<DecodedInstruction, DecodeError>,
    d: Seq<u8>,
    ai: Seq<u8>,
    keys: Seq<Pubkey>,
    sg: Seq<bool>,
    wr: Seq<bool>,
) -> bool {
    if d.len() < 8 {
        r == Err::<DecodedInstruction, DecodeError>(DecodeError::Parse(ParseError::Insufficient))
    } else {
        match sp_parse_create(d.subrange(8, d.len() as int)) {
            Ok(f) => r matches Ok(ins) && sp_record_envelope(
                ins,
                sp_pumpfun_program_id(),
                "create"@,
                "Pumpfun"@,
                d,
                ai,
                keys,
                sg,
                wr,
            ) && (ins.parsed_data matches ParsedParams::PumpfunCreate(p) && p.name@ == f.0
                && p.symbol@ == f.1 && p.uri@ == f.2 && p.creator@ == f.3),
            Err(e) => r == Err::<DecodedInstruction, DecodeError>(DecodeError::Parse(e)),
        }
    }
}

/// The exact result of decoding a `create_v2` instruction.
pub open spec fn sp_decode_create_v2_result(
    r: Result<DecodedInstruction, DecodeError>,
    d: Seq<u8>,
    ai: Seq<u8>,
    keys: Seq<Pubkey>,
    sg: Seq<bool>,
    wr: Seq<bool>,
) -> bool {
    if d.len() < 8 {
        r == Err::<DecodedInstruction, DecodeError>(DecodeError::Parse(ParseError::Insufficient))
    } else {
        match sp_parse_create_v2(d.subrange(8, d.len() as int)) {
            Ok(f) => r matches Ok(ins) && sp_record_envelope(
                ins,
                sp_pumpfun_program_id(),
                "create_v2"@,
                "Pumpfun"@,
                d,
                ai,
                keys,
                sg,
                wr,
            ) && (ins.parsed_data matches ParsedParams::PumpfunCreateV2(p) && p.name@ == f.0
                && p.symbol@ == f.1 && p.uri@ == f.2 && p.creator@ == f.3 && p.is_mayhem_mode
                == f.4),
            Err(e) => r == Err::<DecodedInstruction, DecodeError>(DecodeError::Parse(e)),
        }
    }
}

/// The exact result of decoding an identified instruction.
pub open spec fn sp_decode_result(
    t: PumpfunInstructionType,
    r: Result<DecodedInstruction, DecodeError>,
    d: Seq<u8>,
    ai: Seq<u8>,
    keys: Seq<Pubkey>,
    sg: Seq<bool>,
    wr: Seq<bool>,
) -> bool {
    match t {
        PumpfunInstructionType::Create => sp_decode_create_result(r, d, ai, keys, sg, wr),
        PumpfunInstructionType::CreateV2 => sp_decode_create_v2_result(r, d, ai, keys, sg, wr),
    }
}

/// The Pumpfun decoder.
pub struct PumpfunDecoder;

impl PumpfunDecoder {
    /// The address of the Pumpfun program.
    pub fn program_id() -> (r: Pubkey)
        ensures
            r@ == sp_pumpfun_program_id(),
    {
        crate::programs::pumpfun_program_id()
    }

    /// The protocol tag of this decoder's records.
    pub fn protocol_name() -> (r: &'static str)
        ensures
            r@ == "Pumpfun"@,
    {
        "Pumpfun"
    }

    /// Which Pumpfun instruction an instruction-data prefix names.
    pub open spec fn sp_identify(data: Seq<u8>) -> Option<PumpfunInstructionType> {
        if data.len() >= 8 && data.subrange(0, 8) == sp_pump_create_discriminator() {
            Some(PumpfunInstructionType::Create)
        } else if data.len() >= 8 && data.subrange(0, 8) == sp_pump_create_v2_discriminator() {
            Some(PumpfunInstructionType::CreateV2)
        } else {
            None
        }
    }

    /// Identify an instruction by its leading 8-byte discriminator.
    pub fn identify_instruction(data: &[u8]) -> (r: Option<PumpfunInstructionType>)
        ensures
            r == Self::sp_identify(data@),
    {
        if data.len() < 8 {
            return None;
        }
        if starts_with(data, &pump_create_discriminator()) {
            Some(PumpfunInstructionType::Create)
        } else if starts_with(data, &pump_create_v2_discriminator()) {
            Some(PumpfunInstructionType::CreateV2)
        } else {
            None
        }
    }

    /// Whether the instruction carries the accounts its variant requires:
    /// both creation variants need 18.
    pub fn validate_account_count(
        instruction_type: &PumpfunInstructionType,
        account_count: usize,
    ) -> (r: bool)
        ensures
            r == (account_count >= 18),
    {
        account_count >= 18
    }

    /// Decode a `create` instruction.
    pub fn decode_create(
        data: &[u8],
        accounts_indices: &[u8],
        account_keys: &Vec<Pubkey>,
        is_signer: &Vec<bool>,
        is_writable: &Vec<bool>,
    ) -> (r: Result<DecodedInstruction, DecodeError>)
        ensures
            sp_decode_create_result(
                r,
                data@,
                accounts_indices@,
                account_keys@,
                is_signer@,
                is_writable@,
            ),
    {
        if data.len() < 8 {
            return Err(DecodeError::Parse(ParseError::Insufficient));
        }
        let remaining = slice_subrange(data, 8, data.len());
        let mut offset: usize = 0;
        let name = match parse_string(remaining, &mut offset) {
            Ok(s) => s,
            Err(e) => {
                return Err(DecodeError::Parse(e));
            },
        };
        let symbol = match parse_string(remaining, &mut offset) {
            Ok(s) => s,
            Err(e) => {
                return Err(DecodeError::Parse(e));
            },
        };
        let uri = match parse_string(remaining, &mut offset) {
            Ok(s) => s,
            Err(e) => {
                return Err(DecodeError::Parse(e));
            },
        };
        let creator = match parse_pubkey(remaining, &mut offset) {
            Ok(k) => k,
            Err(e) => {
                return Err(DecodeError::Parse(e));
            },
        };
        let parsed = ParsedParams::PumpfunCreate(CreateParams { name, symbol, uri, creator });
        Ok(
            create_standardized_instruction(
                &Self::program_id(),
                "create",
                "Pumpfun",
                data,
                accounts_indices,
                account_keys,
                is_signer,
                is_writable,
                parsed,
            ),
        )
    }

    /// Decode a `create_v2` instruction.
    pub fn decode_create_v2(
        data: &[u8],
        accounts_indices: &[u8],
        account_keys: &Vec<Pubkey>,
        is_signer: &Vec<bool>,
        is_writable: &Vec<bool>,
    ) -> (r: Result<DecodedInstruction, DecodeError>)
        ensures
            sp_decode_create_v2_result(
                r,
                data@,
                accounts_indices@,
                account_keys@,
                is_signer@,
                is_writable@,
            ),
    {
        if data.len() < 8 {
            return Err(DecodeError::Parse(ParseError::Insufficient));
        }
        let remaining = slice_subrange(data, 8, data.len());
        let mut offset: usize = 0;
        let name = match parse_string(remaining, &mut offset) {
            Ok(s) => s,
            Err(e) => {
                return Err(DecodeError::Parse(e));
            },
        };
        let symbol = match parse_string(remaining, &mut offset) {
            Ok(s) => s,
            Err(e) => {
                return Err(DecodeError::Parse(e));
            },
        };
        let uri = match parse_string(remaining, &mut offset) {
            Ok(s) => s,
            Err(e) => {
                return Err(DecodeError::Parse(e));
            },
        };
        let creator = match parse_pubkey(remaining, &mut offset) {
            Ok(k) => k,
            Err(e) => {
                return Err(DecodeError::Parse(e));
            },
        };
        let is_mayhem_mode = match parse_bool(remaining, &mut offset) {
            Ok(b) => b,
            Err(e) => {
                return Err(DecodeError::Parse(e));
            },
        };
        let parsed = ParsedParams::PumpfunCreateV2(
            CreateV2Params { name, symbol, uri, creator, is_mayhem_mode },
        );
        Ok(
            create_standardized_instruction(
                &Self::program_id(),
                "create_v2",
                "Pumpfun",
                data,
                accounts_indices,
                account_keys,
                is_signer,
                is_writable,
                parsed,
            ),
        )
    }

    /// Decode one identified instruction.
    pub fn decode_instruction(
        instruction_type: PumpfunInstructionType,
        data: &[u8],
        accounts_indices: &[u8],
        account_keys: &Vec<Pubkey>,
        is_signer: &Vec<bool>,
        is_writable: &Vec<bool>,
    ) -> (r: Result<DecodedInstruction, DecodeError>)
        ensures
            sp_decode_result(
                instruction_type,
                r,
                data@,
                accounts_indices@,
                account_keys@,
                is_signer@,
                is_writable@,
            ),
    {
        match instruction_type {
            PumpfunInstructionType::Create => Self::decode_create(
                data,
                accounts_indices,
                account_keys,
                is_signer,
                is_writable,
            ),
            PumpfunInstructionType::CreateV2 => Self::decode_create_v2(
                data,
                accounts_indices,
                account_keys,
                is_signer,
                is_writable,
            ),
        }
    }

    /// The single processing entry point: nothing for data under 8 bytes or
    /// an unrecognized discriminator; an account-count failure for a
    /// recognized variant short of accounts; otherwise the decode result.
    pub fn process_instruction(
        data: &[u8],
        accounts_indices: &[u8],
        account_keys: &Vec<Pubkey>,
        is_signer: &Vec<bool>,
        is_writable: &Vec<bool>,
    ) -> (r: Option<Result<DecodedInstruction, DecodeError>>)
        ensures
            r is None <==> (data@.len() < 8 || Self::sp_identify(data@) is None),
            ({
                match Self::sp_identify(data@) {
                    Some(t) => data@.len() >= 8 ==> (if accounts_indices@.len() < 18 {
                        r == Some(
                            Err::<DecodedInstruction, DecodeError>(
                                DecodeError::InsufficientAccounts,
                            ),
                        )
                    } else {
                        r matches Some(res) && sp_decode_result(
                            t,
                            res,
                            data@,
                            accounts_indices@,
                            account_keys@,
                            is_signer@,
                            is_writable@,
                        )
                    }),
                    None => true,
                }
            }),
    {
        if data.len() < 8 {
            return None;
        }
        let instruction_type = match Self::identify_instruction(data) {
            Some(t) => t,
            None => {
                return None;
            },
        };
        if !Self::validate_account_count(&instruction_type, accounts_indices.len()) {
            return Some(Err(DecodeError::InsufficientAccounts));
        }
        Some(
            Self::decode_instruction(
                instruction_type,
                data,
                accounts_indices,
                account_keys,
                is_signer,
                is_writable,
            ),
        )
    }
}

} // verus!
