//! Transaction processing: derive account roles, dispatch each compiled
//! instruction to its program's decoder, and assemble the transaction
//! envelope that subscribers receive.  A transaction that decodes no
//! relevant instruction is suppressed.

use vstd::prelude::*;
use crate::Pubkey;
use crate::pubkey_eq;
use crate::txn::{VersionedTransaction, MessageAddressTableLookup, CompiledInstruction, derive_is_signer, derive_is_writable};
use crate::record::{DecodedInstruction, DecodeError, base58_of, encode_base58};
use crate::alt_cache::{AddressLookupTableCache, LookupResolution, resolve_transaction_account_keys};
use crate::bytes::ParseError;

verus! {

/// The transaction envelope pushed to subscribers: signatures and blockhash
/// in base58, the slot, the header counters, and the decoded instructions in
/// their on-wire order.
#[derive(Clone, Debug)]
pub struct TransactionRecord {
    pub signatures: Vec<String>,
    pub slot: u64,
    pub num_required_signatures: u8,
    pub num_readonly_signed_accounts: u8,
    pub num_readonly_unsigned_accounts: u8,
    pub recent_blockhash: String,
    pub instructions: Vec<DecodedInstruction>,
}

/// The envelope relation between an emitted record and its source
/// transaction: the slot, the header counters, the base58 signatures and
/// blockhash, and at least one decoded instruction.
pub open spec fn sp_tx_envelope(rec: TransactionRecord, tx: VersionedTransaction, slot: u64) -> bool {
    &&& rec.slot == slot
    &&& rec.num_required_signatures == tx.header.num_required_signatures
    &&& rec.num_readonly_signed_accounts == tx.header.num_readonly_signed_accounts
    &&& rec.num_readonly_unsigned_accounts == tx.header.num_readonly_unsigned_accounts
    &&& rec.signatures@.len() == tx.signatures@.len()
    &&& (forall|i: int|
        0 <= i < tx.signatures@.len() ==> (#[trigger] rec.signatures@[i])@ == base58_of(
            tx.signatures@[i]@,
        ))
    &&& rec.recent_blockhash@ == base58_of(tx.recent_blockhash@)
    &&& rec.instructions@.len() >= 1
    &&& rec.instructions@.len() <= tx.instructions@.len()
}

/// Whether one compiled instruction decodes: its program index selects a
/// key equal to a registered program id, its data carries at least 8 bytes,
/// the discriminator names a dispatched variant, the variant's account
/// minimum is met, and its parameters parse.
#[verifier::opaque]
pub open spec fn sp_instruction_decodes(ix: CompiledInstruction, resolved: Seq<Pubkey>) -> bool {
    let d = ix.data@;
    let na = ix.accounts@.len() as int;
    if ix.program_id_index as int >= resolved.len() || d.len() < 8 {
        false
    } else {
        let key = resolved[ix.program_id_index as int]@;
        if key == crate::programs::sp_pumpfun_program_id() {
            crate::pumpfun_decoding::sp_identify_pumpfun(d) == Some(
                crate::pumpfun_decoding::PumpfunInstructionType::Create,
            ) && na >= 14 && crate::pumpfun_decoding::sp_parse_pump_create(
                d.subrange(8, d.len() as int),
            ) is Ok
        } else if key == crate::programs::sp_raydium_lp_program() {
            crate::raydium_decoding::sp_identify_raydium(d) is Some && na >= 21 && d.len() >= 26
        } else if key == crate::programs::sp_moonit_program_id() {
            crate::moonit_decoding::sp_identify_moonit(d) is Some && na >= 11
                && crate::moonit_decoding::sp_parse_token_mint(d.subrange(8, d.len() as int)) is Ok
        } else if key == crate::programs::sp_raydium_launchlab_program_id() {
            crate::raydium_launchlab_decoding::sp_identify_raydium_launchlab(d) is Some && na >= 18
                && crate::raydium_launchlab_decoding::sp_parse_launchlab_initialize(
                d.subrange(8, d.len() as int),
            ) is Ok
        } else if key == crate::programs::sp_boop_program_id() {
            match crate::boop_decoding::sp_identify_boop(d) {
                Some(crate::boop_decoding::BoopInstructionType::CreateToken) => na >= 8
                    && crate::decoder::boop::sp_parse_create_token(
                    d.subrange(8, d.len() as int),
                ) is Ok,
                Some(crate::boop_decoding::BoopInstructionType::DeployBondingCurve) => na >= 10
                    && d.len() >= 48,
                None => false,
            }
        } else if key == crate::programs::sp_pumpamm_program_id() {
            match crate::pumpamm_decoding::sp_identify_pumpamm(d) {
                Some(crate::pumpamm_decoding::PumpAmmInstructionType::Buy) => na >= 19 && d.len()
                    >= 24,
                Some(crate::pumpamm_decoding::PumpAmmInstructionType::Sell) => na >= 19 && d.len()
                    >= 24,
                Some(crate::pumpamm_decoding::PumpAmmInstructionType::CreatePool) => na >= 18
                    && d.len() >= 58,
                _ => false,
            }
        } else if key == crate::programs::sp_raydium_cpmm_program() {
            crate::raydium_cpmm_decoding::sp_identify_raydium_cpmm(d) is Some && na >= 20
                && d.len() >= 32
        } else if key == crate::programs::sp_meteora_vcurve_program_id() {
            crate::meteora_vcurve_decoding::sp_identify_meteora_vcurve(d) is Some && na >= 16
                && crate::meteora_vcurve_decoding::sp_parse_vcurve_pool(
                d.subrange(8, d.len() as int),
            ) is Ok
        } else if key == crate::programs::sp_meteoradyn_program_id() {
            crate::meteoradyn_decoding::sp_identify_meteoradyn(d) == Some(
                crate::meteoradyn_decoding::MeteoraDynInstructionType::InitializePermissionlessPool,
            ) && na >= 24 && d.len() > 8
                && crate::meteoradyn_decoding::sp_parse_init_permissionless_pool(
                d.subrange(8, d.len() as int),
            ) is Ok
        } else if key == crate::programs::sp_meteora_amm_v2_program_id() {
            match crate::meteora_amm_v2_decoding::sp_identify_meteora_amm_v2(d) {
                Some(crate::meteora_amm_v2_decoding::MeteoraAmmV2InstructionType::CreatePool1) => na
                    >= 12,
                Some(crate::meteora_amm_v2_decoding::MeteoraAmmV2InstructionType::CreatePool2) => na
                    >= 12,
                Some(crate::meteora_amm_v2_decoding::MeteoraAmmV2InstructionType::CreatePool3) => na
                    >= 12,
                Some(crate::meteora_amm_v2_decoding::MeteoraAmmV2InstructionType::Swap) => na >= 9,
                Some(
                    crate::meteora_amm_v2_decoding::MeteoraAmmV2InstructionType::AddLiquidity1,
                ) => na >= 13,
                Some(
                    crate::meteora_amm_v2_decoding::MeteoraAmmV2InstructionType::AddLiquidity2,
                ) => na >= 13,
                Some(
                    crate::meteora_amm_v2_decoding::MeteoraAmmV2InstructionType::AddLiquidity3,
                ) => na >= 13,
                Some(
                    crate::meteora_amm_v2_decoding::MeteoraAmmV2InstructionType::AddLiquidity4,
                ) => na >= 13,
                Some(
                    crate::meteora_amm_v2_decoding::MeteoraAmmV2InstructionType::RemoveLiquidity1,
                ) => na >= 7,
                Some(
                    crate::meteora_amm_v2_decoding::MeteoraAmmV2InstructionType::RemoveLiquidity2,
                ) => na >= 7,
                _ => false,
            }
        } else if key == crate::programs::sp_orca_whirlpool_program_id() {
            match crate::orca_decoding::sp_identify_orca(d) {
                Some(crate::orca_decoding::OrcaInstructionType::Swap) => na >= 11 && d.len() >= 42,
                Some(crate::orca_decoding::OrcaInstructionType::SwapV2) => na >= 15 && d.len()
                    >= 42 && crate::orca_decoding::sp_parse_orca_info(d, 42) is Ok,
                Some(crate::orca_decoding::OrcaInstructionType::IncreaseLiquidity) => na >= 11
                    && d.len() >= 40,
                Some(crate::orca_decoding::OrcaInstructionType::DecreaseLiquidity) => na >= 11
                    && d.len() >= 40,
                Some(crate::orca_decoding::OrcaInstructionType::InitializePool) => na >= 11
                    && d.len() >= 27,
                Some(crate::orca_decoding::OrcaInstructionType::OpenPosition) => na >= 10 && d.len()
                    >= 17,
                Some(crate::orca_decoding::OrcaInstructionType::ClosePosition) => na >= 6 && d.len()
                    >= 8,
                Some(crate::orca_decoding::OrcaInstructionType::TwoHopSwap) => na >= 20 && d.len()
                    >= 59,
                None => false,
            }
        } else {
            false
        }
    }
}

/// The record a decoding instruction yields, stated through the deciding
/// variant's own exact decoder contract applied to `Ok(rec)`.
#[verifier::opaque]
pub open spec fn sp_decoded_record(
    ix: CompiledInstruction,
    resolved: Seq<Pubkey>,
    sg: Seq<bool>,
    wr: Seq<bool>,
    rec: DecodedInstruction,
) -> bool {
    let d = ix.data@;
    let ai = ix.accounts@;
    let key = resolved[ix.program_id_index as int]@;
    let r = Ok::<DecodedInstruction, DecodeError>(rec);
    if key == crate::programs::sp_pumpfun_program_id() {
        crate::pumpfun_decoding::sp_pump_create_result(r, d, ai, resolved, sg, wr)
    } else if key == crate::programs::sp_raydium_lp_program() {
        crate::raydium_decoding::sp_raydium_initialize2_result(r, d, ai, resolved, sg, wr)
    } else if key == crate::programs::sp_moonit_program_id() {
        crate::moonit_decoding::sp_moonit_token_mint_result(r, d, ai, resolved, sg, wr)
    } else if key == crate::programs::sp_raydium_launchlab_program_id() {
        crate::raydium_launchlab_decoding::sp_launchlab_initialize_result(
            r,
            d,
            ai,
            resolved,
            sg,
            wr,
        )
    } else if key == crate::programs::sp_boop_program_id() {
        match crate::boop_decoding::sp_identify_boop(d) {
            Some(crate::boop_decoding::BoopInstructionType::CreateToken) => crate::decoder::boop::sp_decode_create_token_result(
                r,
                d,
                ai,
                resolved,
                sg,
                wr,
            ),
            Some(
                crate::boop_decoding::BoopInstructionType::DeployBondingCurve,
            ) => crate::decoder::boop::sp_decode_deploy_bonding_result(r, d, ai, resolved, sg, wr),
            None => false,
        }
    } else if key == crate::programs::sp_pumpamm_program_id() {
        match crate::pumpamm_decoding::sp_identify_pumpamm(d) {
            Some(crate::pumpamm_decoding::PumpAmmInstructionType::Buy) => crate::pumpamm_decoding::sp_pumpamm_buy_result(
                r,
                d,
                ai,
                resolved,
                sg,
                wr,
            ),
            Some(crate::pumpamm_decoding::PumpAmmInstructionType::Sell) => crate::pumpamm_decoding::sp_pumpamm_sell_result(
                r,
                d,
                ai,
                resolved,
                sg,
                wr,
            ),
            Some(
                crate::pumpamm_decoding::PumpAmmInstructionType::CreatePool,
            ) => crate::pumpamm_decoding::sp_pumpamm_create_pool_result(r, d, ai, resolved, sg, wr),
            _ => false,
        }
    } else if key == crate::programs::sp_raydium_cpmm_program() {
        crate::raydium_cpmm_decoding::sp_raydium_cpmm_initialize_result(r, d, ai, resolved, sg, wr)
    } else if key == crate::programs::sp_meteora_vcurve_program_id() {
        crate::meteora_vcurve_decoding::sp_vcurve_initialize_result(r, d, ai, resolved, sg, wr)
    } else if key == crate::programs::sp_meteoradyn_program_id() {
        crate::meteoradyn_decoding::sp_meteoradyn_init_pool_result(r, d, ai, resolved, sg, wr)
    } else if key == crate::programs::sp_meteora_amm_v2_program_id() {
        match crate::meteora_amm_v2_decoding::sp_identify_meteora_amm_v2(d) {
            Some(t) => match t {
                crate::meteora_amm_v2_decoding::MeteoraAmmV2InstructionType::CreatePool1
                | crate::meteora_amm_v2_decoding::MeteoraAmmV2InstructionType::CreatePool2
                | crate::meteora_amm_v2_decoding::MeteoraAmmV2InstructionType::CreatePool3 => crate::meteora_amm_v2_decoding::sp_amm_v2_create_pool_result(
                    t,
                    r,
                    d,
                    ai,
                    resolved,
                    sg,
                    wr,
                ),
                crate::meteora_amm_v2_decoding::MeteoraAmmV2InstructionType::Swap => crate::meteora_amm_v2_decoding::sp_amm_v2_swap_result(
                    r,
                    d,
                    ai,
                    resolved,
                    sg,
                    wr,
                ),
                crate::meteora_amm_v2_decoding::MeteoraAmmV2InstructionType::AddLiquidity1
                | crate::meteora_amm_v2_decoding::MeteoraAmmV2InstructionType::AddLiquidity2
                | crate::meteora_amm_v2_decoding::MeteoraAmmV2InstructionType::AddLiquidity3
                | crate::meteora_amm_v2_decoding::MeteoraAmmV2InstructionType::AddLiquidity4 => crate::meteora_amm_v2_decoding::sp_amm_v2_add_liquidity_result(
                    t,
                    r,
                    d,
                    ai,
                    resolved,
                    sg,
                    wr,
                ),
                crate::meteora_amm_v2_decoding::MeteoraAmmV2InstructionType::RemoveLiquidity1
                | crate::meteora_amm_v2_decoding::MeteoraAmmV2InstructionType::RemoveLiquidity2 => crate::meteora_amm_v2_decoding::sp_amm_v2_remove_liquidity_result(
                    t,
                    r,
                    d,
                    ai,
                    resolved,
                    sg,
                    wr,
                ),
                _ => false,
            },
            None => false,
        }
    } else if key == crate::programs::sp_orca_whirlpool_program_id() {
        match crate::orca_decoding::sp_identify_orca(d) {
            Some(crate::orca_decoding::OrcaInstructionType::Swap) => crate::orca_decoding::sp_orca_swap_result(
                r,
                d,
                ai,
                resolved,
                sg,
                wr,
            ),
            Some(crate::orca_decoding::OrcaInstructionType::SwapV2) => crate::orca_decoding::sp_orca_swap_v2_result(
                r,
                d,
                ai,
                resolved,
                sg,
                wr,
            ),
            Some(
                crate::orca_decoding::OrcaInstructionType::IncreaseLiquidity,
            ) => crate::orca_decoding::sp_orca_increase_liquidity_result(r, d, ai, resolved, sg, wr),
            Some(
                crate::orca_decoding::OrcaInstructionType::DecreaseLiquidity,
            ) => crate::orca_decoding::sp_orca_decrease_liquidity_result(r, d, ai, resolved, sg, wr),
            Some(
                crate::orca_decoding::OrcaInstructionType::InitializePool,
            ) => crate::orca_decoding::sp_orca_initialize_pool_result(r, d, ai, resolved, sg, wr),
            Some(
                crate::orca_decoding::OrcaInstructionType::OpenPosition,
            ) => crate::orca_decoding::sp_orca_open_position_result(r, d, ai, resolved, sg, wr),
            Some(
                crate::orca_decoding::OrcaInstructionType::ClosePosition,
            ) => crate::orca_decoding::sp_orca_close_position_result(r, d, ai, resolved, sg, wr),
            Some(
                crate::orca_decoding::OrcaInstructionType::TwoHopSwap,
            ) => crate::orca_decoding::sp_orca_two_hop_swap_result(r, d, ai, resolved, sg, wr),
            None => false,
        }
    } else {
        false
    }
}

/// The relation between a transaction's instructions and the decoded
/// records an emitted envelope carries: the picks are exactly the positions
/// of the instructions that decode, in increasing on-wire order, and record
/// `k` is the decoded record of instruction `picks[k]`.
pub open spec fn sp_instruction_picks(
    picks: Seq<int>,
    ixs: Seq<CompiledInstruction>,
    resolved: Seq<Pubkey>,
    sg: Seq<bool>,
    wr: Seq<bool>,
    recs: Seq<DecodedInstruction>,
) -> bool {
    &&& picks.len() == recs.len()
    &&& (forall|k: int| 0 <= k < picks.len() ==> 0 <= #[trigger] picks[k] < ixs.len())
    &&& (forall|k1: int, k2: int|
        0 <= k1 < k2 < picks.len() ==> #[trigger] picks[k1] < #[trigger] picks[k2])
    &&& (forall|k: int|
        0 <= k < picks.len() ==> sp_instruction_decodes(ixs[#[trigger] picks[k]], resolved))
    &&& (forall|k: int|
        0 <= k < picks.len() ==> sp_decoded_record(
            ixs[#[trigger] picks[k]],
            resolved,
            sg,
            wr,
            recs[k],
        ))
    &&& (forall|i: int|
        0 <= i < ixs.len() && sp_instruction_decodes(#[trigger] ixs[i], resolved)
            ==> picks.contains(i))
}

/// An emitted envelope's records are exactly the decoded records of the
/// transaction's decoding instructions, in on-wire order.
pub open spec fn sp_tx_decoded_instructions(
    rec: TransactionRecord,
    tx: VersionedTransaction,
    resolved: Seq<Pubkey>,
) -> bool {
    exists|ipicks: Seq<int>|
        #[trigger] sp_instruction_picks(
            ipicks,
            tx.instructions@,
            resolved,
            crate::txn::sp_signer_flags(tx.header, resolved.len() as int),
            sp_dispatch_writable_flags(tx, resolved.len() as int),
            rec.instructions@,
        )
}

/// Decode one compiled instruction against the resolved account keys:
/// nothing unless the instruction decodes (unregistered program, short
/// data, unknown discriminator, account shortfall or a parameter parse
/// failure all skip this one instruction), else its normalized record.
fn decode_dispatch_instruction(
    instr: &CompiledInstruction,
    resolved_account_keys: &Vec<Pubkey>,
    is_signer: &Vec<bool>,
    is_writable: &Vec<bool>,
) -> (r: Option<DecodedInstruction>)
    ensures
        r is Some <==> sp_instruction_decodes(*instr, resolved_account_keys@),
        r matches Some(rec) ==> sp_decoded_record(
            *instr,
            resolved_account_keys@,
            is_signer@,
            is_writable@,
            rec,
        ),
{
    proof {
        reveal(sp_instruction_decodes);
        reveal(sp_decoded_record);
    }
    let num_accounts = resolved_account_keys.len();
    let pidx = instr.program_id_index as usize;
    if pidx >= num_accounts || instr.data.len() < 8 {
        return None;
    }
    let program_key = &resolved_account_keys[pidx];
    let data = instr.data.as_slice();
    let accounts = instr.accounts.as_slice();
    if pubkey_eq(program_key, &crate::programs::pumpfun_program_id()) {
        match crate::pumpfun_decoding::get_pumpfun_instruction_type(data) {
            Some(crate::pumpfun_decoding::PumpfunInstructionType::Create) => {
                if accounts.len() >= 14 {
                    match crate::pumpfun_decoding::deserialize_pump_create_instruction(
                        data,
                        accounts,
                        resolved_account_keys,
                        is_signer,
                        is_writable,
                    ) {
                        Ok(decoded) => Some(decoded),
                        Err(_) => None,
                    }
                } else {
                    None
                }
            },
            _ => None,
        }
    } else if pubkey_eq(program_key, &crate::programs::raydium_lp_program()) {
        match crate::raydium_decoding::get_raydium_instruction_type(data) {
            Some(_) => {
                if accounts.len() >= 21 {
                    match crate::raydium_decoding::deserialize_raydium_initialize2_instruction(
                        data,
                        accounts,
                        resolved_account_keys,
                        is_signer,
                        is_writable,
                    ) {
                        Ok(decoded) => Some(decoded),
                        Err(_) => None,
                    }
                } else {
                    None
                }
            },
            None => None,
        }
    } else if pubkey_eq(program_key, &crate::programs::moonit_program_id()) {
        match crate::moonit_decoding::get_moonit_instruction_type(data) {
            Some(_) => {
                if accounts.len() >= 11 {
                    match crate::moonit_decoding::deserialize_moonit_token_mint_instruction(
                        data,
                        accounts,
                        resolved_account_keys,
                        is_signer,
                        is_writable,
                    ) {
                        Ok(decoded) => Some(decoded),
                        Err(_) => None,
                    }
                } else {
                    None
                }
            },
            None => None,
        }
    } else if pubkey_eq(program_key, &crate::programs::raydium_launchlab_program_id()) {
        match crate::raydium_launchlab_decoding::get_raydium_launchlab_instruction_type(data) {
            Some(_) => {
                if accounts.len() >= 18 {
                    match crate::raydium_launchlab_decoding::deserialize_raydium_launchlab_initialize_instruction(
                        data,
                        accounts,
                        resolved_account_keys,
                        is_signer,
                        is_writable,
                    ) {
                        Ok(decoded) => Some(decoded),
                        Err(_) => None,
                    }
                } else {
                    None
                }
            },
            None => None,
        }
    } else if pubkey_eq(program_key, &crate::programs::boop_program_id()) {
        match crate::boop_decoding::get_boop_instruction_type(data) {
            Some(crate::boop_decoding::BoopInstructionType::CreateToken) => {
                if accounts.len() >= 8 {
                    match crate::decoder::boop::BoopDecoder::decode_create_token(
                        data,
                        accounts,
                        resolved_account_keys,
                        is_signer,
                        is_writable,
                    ) {
                        Ok(decoded) => Some(decoded),
                        Err(_) => None,
                    }
                } else {
                    None
                }
            },
            Some(crate::boop_decoding::BoopInstructionType::DeployBondingCurve) => {
                if accounts.len() >= 10 {
                    match crate::decoder::boop::BoopDecoder::decode_deploy_bonding(
                        data,
                        accounts,
                        resolved_account_keys,
                        is_signer,
                        is_writable,
                    ) {
                        Ok(decoded) => Some(decoded),
                        Err(_) => None,
                    }
                } else {
                    None
                }
            },
            None => None,
        }
    } else if pubkey_eq(program_key, &crate::programs::pumpamm_program_id()) {
        match crate::pumpamm_decoding::get_pumpamm_instruction_type(data) {
            Some(crate::pumpamm_decoding::PumpAmmInstructionType::Buy) => {
                if accounts.len() >= 19 {
                    match crate::pumpamm_decoding::deserialize_pumpamm_buy_instruction(
                        data,
                        accounts,
                        resolved_account_keys,
                        is_signer,
                        is_writable,
                    ) {
                        Ok(decoded) => Some(decoded),
                        Err(_) => None,
                    }
                } else {
                    None
                }
            },
            Some(crate::pumpamm_decoding::PumpAmmInstructionType::Sell) => {
                if accounts.len() >= 19 {
                    match crate::pumpamm_decoding::deserialize_pumpamm_sell_instruction(
                        data,
                        accounts,
                        resolved_account_keys,
                        is_signer,
                        is_writable,
                    ) {
                        Ok(decoded) => Some(decoded),
                        Err(_) => None,
                    }
                } else {
                    None
                }
            },
            Some(crate::pumpamm_decoding::PumpAmmInstructionType::CreatePool) => {
                if accounts.len() >= 18 {
                    match crate::pumpamm_decoding::deserialize_pumpamm_create_pool_instruction(
                        data,
                        accounts,
                        resolved_account_keys,
                        is_signer,
                        is_writable,
                    ) {
                        Ok(decoded) => Some(decoded),
                        Err(_) => None,
                    }
                } else {
                    None
                }
            },
            _ => None,
        }
    } else if pubkey_eq(program_key, &crate::programs::raydium_cpmm_program()) {
        match crate::raydium_cpmm_decoding::get_raydium_cpmm_instruction_type(data) {
            Some(_) => {
                if accounts.len() >= 20 {
                    match crate::raydium_cpmm_decoding::deserialize_raydium_cpmm_initialize_instruction(
                        data,
                        accounts,
                        resolved_account_keys,
                        is_signer,
                        is_writable,
                    ) {
                        Ok(decoded) => Some(decoded),
                        Err(_) => None,
                    }
                } else {
                    None
                }
            },
            None => None,
        }
    } else if pubkey_eq(program_key, &crate::programs::meteora_vcurve_program_id()) {
        match crate::meteora_vcurve_decoding::get_meteora_vcurve_instruction_type(data) {
            Some(_) => {
                if accounts.len() >= 16 {
                    match crate::meteora_vcurve_decoding::deserialize_meteora_vcurve_initialize_virtual_pool_instruction(
                        data,
                        accounts,
                        resolved_account_keys,
                        is_signer,
                        is_writable,
                    ) {
                        Ok(decoded) => Some(decoded),
                        Err(_) => None,
                    }
                } else {
                    None
                }
            },
            None => None,
        }
    } else if pubkey_eq(program_key, &crate::programs::meteoradyn_program_id()) {
        match crate::meteoradyn_decoding::get_meteoradyn_instruction_type(data) {
            Some(
                crate::meteoradyn_decoding::MeteoraDynInstructionType::InitializePermissionlessPool,
            ) => {
                if accounts.len() >= 24 {
                    match crate::meteoradyn_decoding::deserialize_meteoradyn_initialize_permissionless_pool_instruction(
                        data,
                        accounts,
                        resolved_account_keys,
                        is_signer,
                        is_writable,
                    ) {
                        Ok(decoded) => Some(decoded),
                        Err(_) => None,
                    }
                } else {
                    None
                }
            },
            _ => None,
        }
    } else if pubkey_eq(program_key, &crate::programs::meteora_amm_v2_program_id()) {
        match crate::meteora_amm_v2_decoding::get_meteora_amm_v2_instruction_type(data) {
            Some(t) => {
                let decoded_result = match t {
                    crate::meteora_amm_v2_decoding::MeteoraAmmV2InstructionType::CreatePool1
                    | crate::meteora_amm_v2_decoding::MeteoraAmmV2InstructionType::CreatePool2
                    | crate::meteora_amm_v2_decoding::MeteoraAmmV2InstructionType::CreatePool3 => {
                        if accounts.len() >= 12 {
                            Some(
                                crate::meteora_amm_v2_decoding::deserialize_meteora_amm_v2_create_pool_instruction(
                                    t,
                                    data,
                                    accounts,
                                    resolved_account_keys,
                                    is_signer,
                                    is_writable,
                                ),
                            )
                        } else {
                            None
                        }
                    },
                    crate::meteora_amm_v2_decoding::MeteoraAmmV2InstructionType::Swap => {
                        if accounts.len() >= 9 {
                            Some(
                                crate::meteora_amm_v2_decoding::deserialize_meteora_amm_v2_swap_instruction(
                                    data,
                                    accounts,
                                    resolved_account_keys,
                                    is_signer,
                                    is_writable,
                                ),
                            )
                        } else {
                            None
                        }
                    },
                    crate::meteora_amm_v2_decoding::MeteoraAmmV2InstructionType::AddLiquidity1
                    | crate::meteora_amm_v2_decoding::MeteoraAmmV2InstructionType::AddLiquidity2
                    | crate::meteora_amm_v2_decoding::MeteoraAmmV2InstructionType::AddLiquidity3
                    | crate::meteora_amm_v2_decoding::MeteoraAmmV2InstructionType::AddLiquidity4 => {
                        if accounts.len() >= 13 {
                            Some(
                                crate::meteora_amm_v2_decoding::deserialize_meteora_amm_v2_add_liquidity_instruction(
                                    t,
                                    data,
                                    accounts,
                                    resolved_account_keys,
                                    is_signer,
                                    is_writable,
                                ),
                            )
                        } else {
                            None
                        }
                    },
                    crate::meteora_amm_v2_decoding::MeteoraAmmV2InstructionType::RemoveLiquidity1
                    | crate::meteora_amm_v2_decoding::MeteoraAmmV2InstructionType::RemoveLiquidity2 => {
                        if accounts.len() >= 7 {
                            Some(
                                crate::meteora_amm_v2_decoding::deserialize_meteora_amm_v2_remove_liquidity_instruction(
                                    t,
                                    data,
                                    accounts,
                                    resolved_account_keys,
                                    is_signer,
                                    is_writable,
                                ),
                            )
                        } else {
                            None
                        }
                    },
                    _ => None,
                };
                match decoded_result {
                    Some(Ok(decoded)) => Some(decoded),
                    _ => None,
                }
            },
            None => None,
        }
    } else if pubkey_eq(program_key, &crate::programs::orca_whirlpool_program_id()) {
        match crate::orca_decoding::get_orca_instruction_type(data) {
            Some(t) => {
                let decoded_result = match t {
                    crate::orca_decoding::OrcaInstructionType::Swap => {
                        if accounts.len() >= 11 {
                            Some(
                                crate::orca_decoding::deserialize_orca_swap_instruction(
                                    data,
                                    accounts,
                                    resolved_account_keys,
                                    is_signer,
                                    is_writable,
                                ),
                            )
                        } else {
                            None
                        }
                    },
                    crate::orca_decoding::OrcaInstructionType::SwapV2 => {
                        if accounts.len() >= 15 {
                            Some(
                                crate::orca_decoding::deserialize_orca_swap_v2_instruction(
                                    data,
                                    accounts,
                                    resolved_account_keys,
                                    is_signer,
                                    is_writable,
                                ),
                            )
                        } else {
                            None
                        }
                    },
                    crate::orca_decoding::OrcaInstructionType::IncreaseLiquidity => {
                        if accounts.len() >= 11 {
                            Some(
                                crate::orca_decoding::deserialize_orca_increase_liquidity_instruction(
                                    data,
                                    accounts,
                                    resolved_account_keys,
                                    is_signer,
                                    is_writable,
                                ),
                            )
                        } else {
                            None
                        }
                    },
                    crate::orca_decoding::OrcaInstructionType::DecreaseLiquidity => {
                        if accounts.len() >= 11 {
                            Some(
                                crate::orca_decoding::deserialize_orca_decrease_liquidity_instruction(
                                    data,
                                    accounts,
                                    resolved_account_keys,
                                    is_signer,
                                    is_writable,
                                ),
                            )
                        } else {
                            None
                        }
                    },
                    crate::orca_decoding::OrcaInstructionType::InitializePool => {
                        if accounts.len() >= 11 {
                            Some(
                                crate::orca_decoding::deserialize_orca_initialize_pool_instruction(
                                    data,
                                    accounts,
                                    resolved_account_keys,
                                    is_signer,
                                    is_writable,
                                ),
                            )
                        } else {
                            None
                        }
                    },
                    crate::orca_decoding::OrcaInstructionType::OpenPosition => {
                        if accounts.len() >= 10 {
                            Some(
                                crate::orca_decoding::deserialize_orca_open_position_instruction(
                                    data,
                                    accounts,
                                    resolved_account_keys,
                                    is_signer,
                                    is_writable,
                                ),
                            )
                        } else {
                            None
                        }
                    },
                    crate::orca_decoding::OrcaInstructionType::ClosePosition => {
                        if accounts.len() >= 6 {
                            Some(
                                crate::orca_decoding::deserialize_orca_close_position_instruction(
                                    data,
                                    accounts,
                                    resolved_account_keys,
                                    is_signer,
                                    is_writable,
                                ),
                            )
                        } else {
                            None
                        }
                    },
                    crate::orca_decoding::OrcaInstructionType::TwoHopSwap => {
                        if accounts.len() >= 20 {
                            Some(
                                crate::orca_decoding::deserialize_orca_two_hop_swap_instruction(
                                    data,
                                    accounts,
                                    resolved_account_keys,
                                    is_signer,
                                    is_writable,
                                ),
                            )
                        } else {
                            None
                        }
                    },
                };
                match decoded_result {
                    Some(Ok(decoded)) => Some(decoded),
                    _ => None,
                }
            },
            None => None,
        }
    } else {
        None
    }
}

/// Decode one transaction against its resolved account-key list: derive the
/// signer and writable roles from the header, walk the compiled
/// instructions in order, decode those that `sp_instruction_decodes`, and
/// assemble the envelope.  An envelope is emitted exactly when at least one
/// instruction decodes; it carries exactly the decoding instructions'
/// records, in on-wire order.
#[verifier::rlimit(100)]
#[verifier::spinoff_prover]
pub fn deserialize_versioned_transaction_with_resolved_keys(
    transaction: &VersionedTransaction,
    slot: u64,
    resolved_account_keys: &Vec<Pubkey>,
) -> (r: Option<TransactionRecord>)
    ensures
        r is Some <==> (exists|i: int|
            0 <= i < transaction.instructions@.len() && sp_instruction_decodes(
                #[trigger] transaction.instructions@[i],
                resolved_account_keys@,
            )),
        r matches Some(rec) ==> sp_tx_envelope(rec, *transaction, slot),
        r matches Some(rec) ==> sp_tx_decoded_instructions(
            rec,
            *transaction,
            resolved_account_keys@,
        ),
{
    let num_accounts = resolved_account_keys.len();
    let is_signer = derive_is_signer(&transaction.header, num_accounts);
    let empty_lookups: Vec<MessageAddressTableLookup> = Vec::new();
    let num_inline = if transaction.account_keys.len() <= num_accounts {
        transaction.account_keys.len()
    } else {
        num_accounts
    };
    let is_writable = match &transaction.address_table_lookups {
        Some(lookups) => derive_is_writable(
            &transaction.header,
            num_inline,
            lookups,
            num_accounts,
        ),
        None => derive_is_writable(&transaction.header, num_inline, &empty_lookups, num_accounts),
    };
    proof {
        assert(is_writable@ == sp_dispatch_writable_flags(
            *transaction,
            resolved_account_keys@.len() as int,
        ));
    }

    let mut serialized_instructions: Vec<DecodedInstruction> = Vec::new();
    let n = transaction.instructions.len();
    let ghost mut ipicks: Seq<int> = Seq::empty();
    let mut i: usize = 0;
    while i < n
        invariant
            n == transaction.instructions@.len(),
            num_accounts == resolved_account_keys@.len(),
            is_signer@ == crate::txn::sp_signer_flags(
                transaction.header,
                resolved_account_keys@.len() as int,
            ),
            is_writable@ == sp_dispatch_writable_flags(
                *transaction,
                resolved_account_keys@.len() as int,
            ),
            i <= n,
            serialized_instructions@.len() <= i,
            ipicks.len() == serialized_instructions@.len(),
            forall|k: int| 0 <= k < ipicks.len() ==> 0 <= #[trigger] ipicks[k] < i,
            forall|k1: int, k2: int|
                0 <= k1 < k2 < ipicks.len() ==> #[trigger] ipicks[k1] < #[trigger] ipicks[k2],
            forall|k: int|
                0 <= k < ipicks.len() ==> sp_instruction_decodes(
                    transaction.instructions@[#[trigger] ipicks[k]],
                    resolved_account_keys@,
                ),
            forall|k: int|
                0 <= k < ipicks.len() ==> sp_decoded_record(
                    transaction.instructions@[#[trigger] ipicks[k]],
                    resolved_account_keys@,
                    is_signer@,
                    is_writable@,
                    serialized_instructions@[k],
                ),
            forall|i0: int|
                0 <= i0 < i && sp_instruction_decodes(
                    #[trigger] transaction.instructions@[i0],
                    resolved_account_keys@,
                ) ==> ipicks.contains(i0),
        decreases n - i,
    {
        let instr = &transaction.instructions[i];
        match decode_dispatch_instruction(instr, resolved_account_keys, &is_signer, &is_writable) {
            Some(decoded) => {
                serialized_instructions.push(decoded);
                proof {
                    let old_picks = ipicks;
                    ipicks = ipicks.push(i as int);
                    assert(ipicks[ipicks.len() - 1] == i as int);
                    assert(ipicks.contains(i as int));
                    assert forall|i0: int| old_picks.contains(i0) implies ipicks.contains(
                        i0,
                    ) by {
                        let w = choose|w: int|
                            0 <= w < old_picks.len() && old_picks[w] == i0;
                        assert(ipicks[w] == i0);
                    }
                }
            },
            None => {},
        }
        i = i + 1;
    }

    if serialized_instructions.len() == 0 {
        proof {
            if exists|i0: int|
                0 <= i0 < transaction.instructions@.len() && sp_instruction_decodes(
                    #[trigger] transaction.instructions@[i0],
                    resolved_account_keys@,
                ) {
                let w = choose|i0: int|
                    0 <= i0 < transaction.instructions@.len() && sp_instruction_decodes(
                        #[trigger] transaction.instructions@[i0],
                        resolved_account_keys@,
                    );
                assert(ipicks.contains(w));
                assert(ipicks.len() > 0);
            }
        }
        return None;
    }
    proof {
        assert(ipicks.len() > 0);
        assert(sp_instruction_decodes(
            transaction.instructions@[ipicks[0]],
            resolved_account_keys@,
        ));
        assert(sp_instruction_picks(
            ipicks,
            transaction.instructions@,
            resolved_account_keys@,
            crate::txn::sp_signer_flags(
                transaction.header,
                resolved_account_keys@.len() as int,
            ),
            sp_dispatch_writable_flags(*transaction, resolved_account_keys@.len() as int),
            serialized_instructions@,
        ));
    }
    let mut signatures: Vec<String> = Vec::new();
    let m = transaction.signatures.len();
    let mut j: usize = 0;
    while j < m
        invariant
            m == transaction.signatures@.len(),
            j <= m,
            signatures@.len() == j,
            forall|k: int|
                0 <= k < j ==> (#[trigger] signatures@[k])@ == base58_of(
                    transaction.signatures@[k]@,
                ),
            sp_instruction_picks(
                ipicks,
                transaction.instructions@,
                resolved_account_keys@,
                crate::txn::sp_signer_flags(
                    transaction.header,
                    resolved_account_keys@.len() as int,
                ),
                sp_dispatch_writable_flags(*transaction, resolved_account_keys@.len() as int),
                serialized_instructions@,
            ),
            exists|i0: int|
                0 <= i0 < transaction.instructions@.len() && sp_instruction_decodes(
                    #[trigger] transaction.instructions@[i0],
                    resolved_account_keys@,
                ),
        decreases m - j,
    {
        signatures.push(encode_base58(transaction.signatures[j].as_slice()));
        j = j + 1;
    }
    let recent_blockhash = encode_base58(transaction.recent_blockhash.as_slice());
    let result = TransactionRecord {
        signatures,
        slot,
        num_required_signatures: transaction.header.num_required_signatures,
        num_readonly_signed_accounts: transaction.header.num_readonly_signed_accounts,
        num_readonly_unsigned_accounts: transaction.header.num_readonly_unsigned_accounts,
        recent_blockhash,
        instructions: serialized_instructions,
    };
    proof {
        assert(sp_tx_decoded_instructions(result, *transaction, resolved_account_keys@)) by {
            assert(sp_instruction_picks(
                ipicks,
                transaction.instructions@,
                resolved_account_keys@,
                crate::txn::sp_signer_flags(
                    transaction.header,
                    resolved_account_keys@.len() as int,
                ),
                sp_dispatch_writable_flags(*transaction, resolved_account_keys@.len() as int),
                result.instructions@,
            ));
        }
    }
    Some(result)
}

/// The writable flags the dispatch derives for a transaction: the inline
/// region is the smaller of the inline key count and the resolved length;
/// a legacy message contributes no lookup flags.
pub open spec fn sp_dispatch_writable_flags(tx: VersionedTransaction, total: int) -> Seq<bool> {
    let ni = if tx.account_keys@.len() <= total {
        tx.account_keys@.len() as int
    } else {
        total
    };
    let lks = match tx.address_table_lookups {
        Some(l) => l@,
        None => Seq::<MessageAddressTableLookup>::empty(),
    };
    crate::txn::sp_writable_flags(tx.header, ni, lks, total)
}

/// Whether a transaction decodes to an emitted envelope: at least one of
/// its instructions decodes against its resolved account-key list.
pub open spec fn sp_tx_emits(tx: VersionedTransaction, resolved: Seq<Pubkey>) -> bool {
    exists|i: int|
        0 <= i < tx.instructions@.len() && sp_instruction_decodes(
            #[trigger] tx.instructions@[i],
            resolved,
        )
}

/// The emitted records of a transaction list: the picks are exactly the
/// positions of the transactions that emit, in increasing on-wire order,
/// and record `k` is the envelope of transaction `picks[k]` carrying its
/// decoded instructions.
pub open spec fn sp_emitted_records(
    recs: Seq<TransactionRecord>,
    txs: Seq<VersionedTransaction>,
    resolved: Seq<Vec<Pubkey>>,
    slot: u64,
) -> bool {
    exists|picks: Seq<int>|
        #![trigger picks.len()]
        {
            &&& picks.len() == recs.len()
            &&& (forall|k: int| 0 <= k < picks.len() ==> 0 <= #[trigger] picks[k] < txs.len())
            &&& (forall|k1: int, k2: int|
                0 <= k1 < k2 < picks.len() ==> #[trigger] picks[k1] < #[trigger] picks[k2])
            &&& (forall|k: int|
                0 <= k < picks.len() ==> sp_tx_envelope(recs[k], txs[#[trigger] picks[k]], slot))
            &&& (forall|k: int|
                0 <= k < picks.len() ==> sp_tx_emits(
                    txs[#[trigger] picks[k]],
                    resolved[picks[k]]@,
                ))
            &&& (forall|k: int|
                0 <= k < picks.len() ==> sp_tx_decoded_instructions(
                    recs[k],
                    txs[#[trigger] picks[k]],
                    resolved[picks[k]]@,
                ))
            &&& (forall|i: int|
                0 <= i < txs.len() && sp_tx_emits(#[trigger] txs[i], resolved[i]@)
                    ==> picks.contains(i))
        }
}

/// Process a payload's transactions in their on-wire order against their
/// pre-resolved account-key lists.  The emitted records are exactly the
/// envelopes of the transactions that decode at least one instruction, in
/// on-wire order; a transaction that decodes none is dropped.
pub fn process_transactions(
    transactions: &Vec<VersionedTransaction>,
    slot: u64,
    resolved: &Vec<Vec<Pubkey>>,
) -> (r: Vec<TransactionRecord>)
    requires
        resolved@.len() == transactions@.len(),
    ensures
        r@.len() <= transactions@.len(),
        sp_emitted_records(r@, transactions@, resolved@, slot),
{
    let mut out: Vec<TransactionRecord> = Vec::new();
    let ghost mut picks: Seq<int> = Seq::empty();
    let n = transactions.len();
    let mut i: usize = 0;
    while i < n
        invariant
            n == transactions@.len(),
            resolved@.len() == transactions@.len(),
            i <= n,
            out@.len() <= i,
            picks.len() == out@.len(),
            forall|k: int| 0 <= k < picks.len() ==> 0 <= #[trigger] picks[k] < i,
            forall|k1: int, k2: int|
                0 <= k1 < k2 < picks.len() ==> #[trigger] picks[k1] < #[trigger] picks[k2],
            forall|k: int|
                0 <= k < picks.len() ==> sp_tx_envelope(
                    out@[k],
                    transactions@[#[trigger] picks[k]],
                    slot,
                ),
            forall|k: int|
                0 <= k < picks.len() ==> sp_tx_emits(
                    transactions@[#[trigger] picks[k]],
                    resolved@[picks[k]]@,
                ),
            forall|k: int|
                0 <= k < picks.len() ==> sp_tx_decoded_instructions(
                    out@[k],
                    transactions@[#[trigger] picks[k]],
                    resolved@[picks[k]]@,
                ),
            forall|i0: int|
                0 <= i0 < i && sp_tx_emits(#[trigger] transactions@[i0], resolved@[i0]@)
                    ==> picks.contains(i0),
        decreases n - i,
    {
        match deserialize_versioned_transaction_with_resolved_keys(
            &transactions[i],
            slot,
            &resolved[i],
        ) {
            Some(rec) => {
                out.push(rec);
                proof {
                    let old_picks = picks;
                    picks = picks.push(i as int);
                    assert(picks[picks.len() - 1] == i as int);
                    assert(picks.contains(i as int));
                    assert forall|i0: int| old_picks.contains(i0) implies picks.contains(i0) by {
                        let w = choose|w: int| 0 <= w < old_picks.len() && old_picks[w] == i0;
                        assert(picks[w] == i0);
                    }
                }
            },
            None => {},
        }
        i = i + 1;
    }
    proof {
        assert(sp_emitted_records(out@, transactions@, resolved@, slot)) by {
            assert(picks.len() == out@.len());
        }
    }
    out
}

/// The transaction count a parsed payload declares: the sum of its
/// entries' transaction-list lengths.
pub open spec fn sp_view_total_txs(
    v: Seq<
        (u64, Seq<u8>, Seq<
            (
                Seq<Seq<u8>>,
                (u8, u8, u8),
                Seq<Seq<u8>>,
                Seq<u8>,
                Seq<(u8, Seq<u8>, Seq<u8>)>,
                Option<Seq<(Seq<u8>, Seq<u8>, Seq<u8>)>>,
            ),
        >),
    >,
) -> int
    decreases v.len(),
{
    if v.len() == 0 {
        0
    } else {
        v.first().2.len() + sp_view_total_txs(v.drop_first())
    }
}

/// Entries matching a parsed payload flatten to exactly as many
/// transactions as the payload declares.
proof fn lemma_flat_len_matches(
    entries: Seq<crate::entries::Entry>,
    v: Seq<
        (u64, Seq<u8>, Seq<
            (
                Seq<Seq<u8>>,
                (u8, u8, u8),
                Seq<Seq<u8>>,
                Seq<u8>,
                Seq<(u8, Seq<u8>, Seq<u8>)>,
                Option<Seq<(Seq<u8>, Seq<u8>, Seq<u8>)>>,
            ),
        >),
    >,
)
    requires
        entries.len() == v.len(),
        forall|i: int|
            0 <= i < v.len() ==> crate::entries::sp_entry_matches(#[trigger] entries[i], v[i]),
    ensures
        crate::entries::sp_flat_transactions(entries).len() == sp_view_total_txs(v),
    decreases entries.len(),
{
    if entries.len() > 0 {
        assert(forall|p: int|
            0 <= p < entries.drop_first().len() ==> entries.drop_first()[p] == entries[p + 1]);
        assert(forall|p: int| 0 <= p < v.drop_first().len() ==> v.drop_first()[p] == v[p + 1]);
        lemma_flat_len_matches(entries.drop_first(), v.drop_first());
        assert(crate::entries::sp_entry_matches(entries[0], v[0]));
    }
}

/// Whether a transaction touches the cache entry of table key `k`: it
/// carries an extend instruction naming the table, or one of its lookups
/// references it.
pub open spec fn sp_tx_mentions_table(tx: VersionedTransaction, k: Seq<u8>) -> bool {
    ||| crate::alt_cache::sp_is_extend_target_key(tx, k)
    ||| (tx.address_table_lookups matches Some(lks) && (exists|i: int|
        0 <= i < lks@.len() && (#[trigger] lks@[i]).account_key@ == k))
}

/// Whether any transaction of the list touches table key `k`.
pub open spec fn sp_txs_mention_table(txs: Seq<VersionedTransaction>, k: Seq<u8>) -> bool {
    exists|i: int| 0 <= i < txs.len() && sp_tx_mentions_table(#[trigger] txs[i], k)
}

/// The parsed payload's transactions and the extraction's outcome: the
/// transactions are the parsed entries' lists flattened in on-wire order
/// and counted by the declared total, the records are exactly the
/// envelopes of those that decode, and the cache entry of every table no
/// transaction touches is unchanged.
pub open spec fn sp_extracted(
    records: Seq<TransactionRecord>,
    total: int,
    payload: Seq<u8>,
    slot: u64,
    cache_pre: AddressLookupTableCache,
    cache_post: AddressLookupTableCache,
) -> bool {
    exists|txs: Seq<VersionedTransaction>, resolved: Seq<Vec<Pubkey>>|
        #![trigger txs.len(), resolved.len()]
        {
            &&& (crate::entries::sp_parse_entries(payload) matches Ok(v) && (exists|
                entries: Seq<crate::entries::Entry>,
            |
                #![trigger entries.len()]
                {
                    &&& entries.len() == v.len()
                    &&& (forall|i: int|
                        0 <= i < v.len() ==> crate::entries::sp_entry_matches(
                            #[trigger] entries[i],
                            v[i],
                        ))
                    &&& txs == crate::entries::sp_flat_transactions(entries)
                }) && total == sp_view_total_txs(v))
            &&& total == txs.len()
            &&& resolved.len() == txs.len()
            &&& sp_emitted_records(records, txs, resolved, slot)
            &&& (forall|k: Seq<u8>|
                !sp_txs_mention_table(txs, k) ==> #[trigger] crate::alt_cache::sp_alt_lookup(
                    cache_post.cache@,
                    k,
                ) == crate::alt_cache::sp_alt_lookup(cache_pre.cache@, k))
        }
}

/// Extract and decode a reconstructed block payload: parse its entries,
/// flatten their transactions in on-wire order, scan each for extend-table
/// instructions, resolve each transaction's account keys against the cache,
/// and decode.  The cache alone answers lookups here: a caller that can
/// fetch remote account data warms the cache first; a cold miss takes the
/// failed-fetch path (stale fallback, else placeholder addresses), so the
/// transaction is still emitted.  The returned count is how many
/// transactions the payload carried.
pub fn extract_transactions_from_payload(
    slot: u64,
    payload: &[u8],
    cache: &mut AddressLookupTableCache,
    now: u64,
) -> (r: Result<(Vec<TransactionRecord>, usize), ParseError>)
    requires
        old(cache).wf(),
    ensures
        final(cache).wf(),
        r is Ok <==> crate::entries::sp_parse_entries(payload@) is Ok,
        r matches Err(e) ==> (match crate::entries::sp_parse_entries(payload@) {
            Err(e2) => e2 == e,
            Ok(_) => false,
        }) && final(cache).cache@ == old(cache).cache@,
        r matches Ok(p) ==> p.0@.len() <= p.1,
        r matches Ok(p) ==> sp_extracted(
            p.0@,
            p.1 as int,
            payload@,
            slot,
            *old(cache),
            *final(cache),
        ),
{
    let entries = match crate::entries::parse_entries(payload) {
        Ok(e) => e,
        Err(e) => {
            return Err(e);
        },
    };
    let ghost entries_view = entries@;
    let transactions = crate::entries::flatten_entry_transactions(entries);
    proof {
        if let Ok(v) = crate::entries::sp_parse_entries(payload@) {
            lemma_flat_len_matches(entries_view, v);
        }
    }
    let n = transactions.len();
    let mut resolved: Vec<Vec<Pubkey>> = Vec::new();
    let mut i: usize = 0;
    while i < n
        invariant
            cache.wf(),
            n == transactions@.len(),
            i <= n,
            resolved@.len() == i,
            forall|k: Seq<u8>|
                !sp_txs_mention_table(transactions@, k)
                    ==> #[trigger] crate::alt_cache::sp_alt_lookup(cache.cache@, k)
                    == crate::alt_cache::sp_alt_lookup(old(cache).cache@, k),
        decreases n - i,
    {
        let tx = &transactions[i];
        cache.process_transaction_for_extensions(tx);
        proof {
            assert forall|k: Seq<u8>| !sp_txs_mention_table(
                transactions@,
                k,
            ) implies #[trigger] crate::alt_cache::sp_alt_lookup(cache.cache@, k)
                == crate::alt_cache::sp_alt_lookup(old(cache).cache@, k) by {
                if crate::alt_cache::sp_is_extend_target_key(transactions@[i as int], k) {
                    assert(sp_tx_mentions_table(transactions@[i as int], k));
                    assert(sp_txs_mention_table(transactions@, k));
                }
            }
        }
        let mut tables: Vec<LookupResolution> = Vec::new();
        match &tx.address_table_lookups {
            Some(lookups) => {
                let m = lookups.len();
                let mut j: usize = 0;
                while j < m
                    invariant
                        cache.wf(),
                        i < transactions@.len(),
                        transactions@[i as int].address_table_lookups matches Some(lks) && lks@
                            == lookups@,
                        m == lookups@.len(),
                        j <= m,
                        tables@.len() == j,
                        forall|k: Seq<u8>|
                            !sp_txs_mention_table(transactions@, k)
                                ==> #[trigger] crate::alt_cache::sp_alt_lookup(cache.cache@, k)
                                == crate::alt_cache::sp_alt_lookup(old(cache).cache@, k),
                    decreases m - j,
                {
                    let lookup = &lookups[j];
                    let resolution = crate::alt_cache::resolve_lookup_with_refresh(
                        cache,
                        lookup,
                        now,
                        None,
                        None,
                    );
                    proof {
                        assert forall|k: Seq<u8>| !sp_txs_mention_table(
                            transactions@,
                            k,
                        ) implies #[trigger] crate::alt_cache::sp_alt_lookup(cache.cache@, k)
                            == crate::alt_cache::sp_alt_lookup(old(cache).cache@, k) by {
                            if k == lookup.account_key@ {
                                assert(lookups@[j as int].account_key@ == k);
                                assert(sp_tx_mentions_table(transactions@[i as int], k));
                                assert(sp_txs_mention_table(transactions@, k));
                            }
                        }
                    }
                    tables.push(resolution);
                    j = j + 1;
                }
            },
            None => {},
        }
        let keys = resolve_transaction_account_keys(
            &tx.account_keys,
            &tx.address_table_lookups,
            &tables,
        );
        resolved.push(keys);
        i = i + 1;
    }
    let records = process_transactions(&transactions, slot, &resolved);
    proof {
        if let Ok(v) = crate::entries::sp_parse_entries(payload@) {
            assert(sp_extracted(records@, n as int, payload@, slot, *old(cache), *cache)) by {
                assert(entries_view.len() == v.len());
                assert(transactions@ == crate::entries::sp_flat_transactions(entries_view));
                assert(transactions@.len() == sp_view_total_txs(v));
                assert(sp_emitted_records(records@, transactions@, resolved@, slot));
            }
        }
    }
    Ok((records, n))
}

} // verus!
