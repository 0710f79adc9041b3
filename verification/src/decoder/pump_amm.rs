//! PumpAMM decoder: identifies the pool-creation instruction and parses its
//! parameters into a normalized record.

use vstd::prelude::*;
use crate::Pubkey;
use crate::bytes::{starts_with, le_bytes, ParseError};
use crate::record::{
    DecodedInstruction, DecodeError, ParsedParams, create_standardized_instruction,
    sp_record_envelope,
};
use crate::programs::sp_pumpamm_program_id;
use crate::pumpamm_decoding::{sp_pumpamm_create_pool_discriminator, pumpamm_create_pool_discriminator, CreatePoolParams};

verus! {

/// The PumpAMM instructions this decoder recognizes.
#[derive(Clone, Copy, Debug, PartialEq, Eq, Structural)]
pub enum PumpAmmInstructionType {
    CreatePool,
    CreatePoolV2,
}


/// The exact result of decoding a `CreatePool` instruction: a `u16` pool
/// index, two `u64` amounts and the 32-byte coin creator, packed after the
/// discriminator.
pub open spec fn sp_decode_create_pool_result(
    r: Result<DecodedInstruction, DecodeError>,
    d: Seq<u8>,
    ai: Seq<u8>,
    keys: Seq<Pubkey>,
    sg: Seq<bool>,
    wr: Seq<bool>,
) -> bool {
    if d.len() < 58 {
        r == Err::<DecodedInstruction, DecodeError>(DecodeError::Parse(ParseError::Insufficient))
    } else {
        r matches Ok(ins) && sp_record_envelope(
            ins,
            sp_pumpamm_program_id(),
            "CreatePool"@,
            "PumpAMM"@,
            d,
            ai,
            keys,
            sg,
            wr,
        ) && (ins.parsed_data matches ParsedParams::PumpAmmCreatePool(p) && p.index as nat
            == le_bytes(d.subrange(8, 10)) && p.base_amount_in as nat == le_bytes(
            d.subrange(10, 18),
        ) && p.quote_amount_in as nat == le_bytes(d.subrange(18, 26)) && p.coin_creator@
            == d.subrange(26, 58))
    }
}

/// The PumpAMM decoder.
pub struct PumpAmmDecoder;

impl PumpAmmDecoder {
    /// The address of the PumpAMM program.
    pub fn program_id() -> (r: Pubkey)
        ensures
            r@ == sp_pumpamm_program_id(),
    {
        crate::programs::pumpamm_program_id()
    }

    /// The protocol tag of this decoder's records.
    pub fn protocol_name() -> (r: &'static str)
        ensures
            r@ == "PumpAMM"@,
    {
        "PumpAMM"
    }

    /// Which PumpAMM instruction an instruction-data prefix names: this
    /// decoder recognizes only `CreatePool`.
    pub open spec fn sp_identify(data: Seq<u8>) -> Option<PumpAmmInstructionType> {
        if data.len() >= 8 && data.subrange(0, 8) == sp_pumpamm_create_pool_discriminator() {
            Some(PumpAmmInstructionType::CreatePool)
        } else {
            None
        }
    }

    /// Identify an instruction by its leading 8-byte discriminator.
    pub fn identify_instruction(data: &[u8]) -> (r: Option<PumpAmmInstructionType>)
        ensures
            r == Self::sp_identify(data@),
    {
        if starts_with(data, &pumpamm_create_pool_discriminator()) {
            Some(PumpAmmInstructionType::CreatePool)
        } else {
            None
        }
    }

    /// Whether the instruction carries the accounts its variant requires:
    /// both creation variants need 18.
    pub fn validate_account_count(
        instruction_type: &PumpAmmInstructionType,
        account_count: usize,
    ) -> (r: bool)
        ensures
            r == (account_count >= 18),
    {
        account_count >= 18
    }

    /// Decode a `CreatePool` instruction: a `u16` pool index, two `u64`
    /// amounts and the 32-byte coin creator, packed after the discriminator.
    pub fn decode_create_pool(
        data: &[u8],
        accounts_indices: &[u8],
        account_keys: &Vec<Pubkey>,
        is_signer: &Vec<bool>,
        is_writable: &Vec<bool>,
    ) -> (r: Result<DecodedInstruction, DecodeError>)
        ensures
            sp_decode_create_pool_result(
                r,
                data@,
                accounts_indices@,
                account_keys@,
                is_signer@,
                is_writable@,
            ),
    {
        if data.len() < 58 {
            return Err(DecodeError::Parse(ParseError::Insufficient));
        }
        let mut offset: usize = 8;
        let index = crate::bytes::parse_u16(data, &mut offset).unwrap();
        let base_amount_in = crate::bytes::parse_u64(data, &mut offset).unwrap();
        let quote_amount_in = crate::bytes::parse_u64(data, &mut offset).unwrap();
        let coin_creator = crate::bytes::parse_pubkey(data, &mut offset).unwrap();
        let parsed = ParsedParams::PumpAmmCreatePool(
            CreatePoolParams { index, base_amount_in, quote_amount_in, coin_creator },
        );
        Ok(
            create_standardized_instruction(
                &Self::program_id(),
                "CreatePool",
                "PumpAMM",
                data,
                accounts_indices,
                account_keys,
                is_signer,
                is_writable,
                parsed,
            ),
        )
    }

    /// Decode one identified instruction.
    pub fn decode_instruction(
        instruction_type: PumpAmmInstructionType,
        data: &[u8],
        accounts_indices: &[u8],
        account_keys: &Vec<Pubkey>,
        is_signer: &Vec<bool>,
        is_writable: &Vec<bool>,
    ) -> (r: Result<DecodedInstruction, DecodeError>)
        ensures
            sp_decode_create_pool_result(
                r,
                data@,
                accounts_indices@,
                account_keys@,
                is_signer@,
                is_writable@,
            ),
    {
        match instruction_type {
            PumpAmmInstructionType::CreatePool => Self::decode_create_pool(
                data,
                accounts_indices,
                account_keys,
                is_signer,
                is_writable,
            ),
            PumpAmmInstructionType::CreatePoolV2 => Self::decode_create_pool(
                data,
                accounts_indices,
                account_keys,
                is_signer,
                is_writable,
            ),
        }
    }

    /// The single processing entry point.
    pub fn process_instruction(
        data: &[u8],
        accounts_indices: &[u8],
        account_keys: &Vec<Pubkey>,
        is_signer: &Vec<bool>,
        is_writable: &Vec<bool>,
    ) -> (r: Option<Result<DecodedInstruction, DecodeError>>)
        ensures
            r is None <==> (data@.len() < 8 || Self::sp_identify(data@) is None),
            ({
                match Self::sp_identify(data@) {
                    Some(t) => data@.len() >= 8 ==> (if accounts_indices@.len() < 18 {
                        r == Some(
                            Err::<DecodedInstruction, DecodeError>(
                                DecodeError::InsufficientAccounts,
                            ),
                        )
                    } else {
                        r matches Some(res) && sp_decode_create_pool_result(
                            res,
                            data@,
                            accounts_indices@,
                            account_keys@,
                            is_signer@,
                            is_writable@,
                        )
                    }),
                    None => true,
                }
            }),
    {
        if data.len() < 8 {
            return None;
        }
        let instruction_type = match Self::identify_instruction(data) {
            Some(t) => t,
            None => {
                return None;
            },
        };
        if !Self::validate_account_count(&instruction_type, accounts_indices.len()) {
            return Some(Err(DecodeError::InsufficientAccounts));
        }
        Some(
            Self::decode_instruction(
                instruction_type,
                data,
                accounts_indices,
                account_keys,
                is_signer,
                is_writable,
            ),
        )
    }
}

} // verus!
