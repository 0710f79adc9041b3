//! Tests of role derivation, the per-program decoders, the dispatch stage,
//! and the slot statistics.

use shredstream::txn::{
    CompiledInstruction, MessageAddressTableLookup, MessageHeader, VersionedTransaction,
    derive_is_signer, derive_is_writable,
};
use shredstream::alt_cache::needs_refresh;
use shredstream::record::ParsedParams;
use shredstream::process::{deserialize_versioned_transaction_with_resolved_keys, process_transactions};
use shredstream::programs::{pumpfun_program_id, pumpamm_program_id};
use shredstream::pumpfun_decoding::{
    get_pumpfun_instruction_type, deserialize_pump_buy_instruction, PumpfunInstructionType,
};
use shredstream::pumpamm_decoding::{deserialize_pumpamm_instruction, get_pumpamm_instruction_type, PumpAmmInstructionType};
use shredstream::orca_decoding::{deserialize_orca_swap_instruction, get_orca_instruction_type, OrcaInstructionType};
use shredstream::decoder::pumpfun::PumpfunDecoder;
use shredstream::decoder::boop::BoopDecoder;
use shredstream::decoder::meteora_dlmm::MeteoraDlmmDecoder;
use shredstream::stats::{SlotStats, SlotCounters, upsert_slot_stats};
use shredstream::bytes::ParseError;
use shredstream::record::DecodeError;

fn header(s: u8, rs: u8, ru: u8) -> MessageHeader {
    MessageHeader {
        num_required_signatures: s,
        num_readonly_signed_accounts: rs,
        num_readonly_unsigned_accounts: ru,
    }
}

#[test]
fn role_derivation_matches_the_header_formula() {
    // S = 3, Rs = 1, Ru = 1, N = 6 inline keys.
    let h = header(3, 1, 1);
    let signer = derive_is_signer(&h, 6);
    assert_eq!(signer, vec![true, true, true, false, false, false]);
    assert_eq!(signer.iter().filter(|&&b| b).count(), 3);
    let writable = derive_is_writable(&h, 6, &Vec::new(), 6);
    // writable positions: [0, S-Rs) and [S, N-Ru)
    assert_eq!(writable, vec![true, true, false, true, true, false]);
}

#[test]
fn lookup_derived_roles_follow_the_index_lists() {
    let h = header(1, 0, 0);
    let lookups = vec![MessageAddressTableLookup {
        account_key: vec![1u8; 32],
        writable_indexes: vec![0, 1],
        readonly_indexes: vec![2],
    }];
    // 2 inline keys, then 1 readonly-derived, then 2 writable-derived.
    let writable = derive_is_writable(&h, 2, &lookups, 5);
    assert_eq!(writable, vec![true, true, false, true, true]);
    let signer = derive_is_signer(&h, 5);
    assert_eq!(signer, vec![true, false, false, false, false]);
}

fn pump_create_data(name: &str, symbol: &str, uri: &str, creator: &[u8; 32]) -> Vec<u8> {
    let mut data = vec![0x18, 0x1e, 0xc8, 0x28, 0x05, 0x1c, 0x07, 0x77];
    for s in [name, symbol, uri] {
        data.extend_from_slice(&(s.len() as u32).to_le_bytes());
        data.extend_from_slice(s.as_bytes());
    }
    data.extend_from_slice(creator);
    data
}

#[test]
fn pumpfun_discriminators_identify_instructions() {
    let create = pump_create_data("n", "s", "u", &[1u8; 32]);
    assert!(matches!(
        get_pumpfun_instruction_type(&create),
        Some(PumpfunInstructionType::Create)
    ));
    let buy = [0x66u8, 0x06, 0x3d, 0x12, 0x01, 0xda, 0xeb, 0xea];
    assert!(matches!(get_pumpfun_instruction_type(&buy), Some(PumpfunInstructionType::Buy)));
    assert!(get_pumpfun_instruction_type(&[0u8; 8]).is_none());
    assert!(get_pumpfun_instruction_type(&[0u8; 4]).is_none());
}

#[test]
fn pump_buy_decodes_amounts() {
    let mut data = vec![0x66u8, 0x06, 0x3d, 0x12, 0x01, 0xda, 0xeb, 0xea];
    data.extend_from_slice(&500u64.to_le_bytes());
    data.extend_from_slice(&900u64.to_le_bytes());
    let keys = vec![vec![1u8; 32]];
    let rec = deserialize_pump_buy_instruction(&data, &[0], &keys, &vec![true], &vec![true])
        .unwrap();
    assert_eq!(rec.instruction_name, "Buy");
    assert_eq!(rec.protocol, "Pumpfun");
    match rec.parsed_data {
        ParsedParams::PumpfunBuy(p) => {
            assert_eq!(p.amount, 500);
            assert_eq!(p.max_sol_cost, 900);
        },
        _ => panic!("wrong parsed variant"),
    }
}

#[test]
fn record_envelope_renders_base58_and_hex() {
    let data = vec![0x66u8, 0x06, 0x3d, 0x12, 0x01, 0xda, 0xeb, 0xea, 0, 0, 0, 0, 0, 0, 0, 0, 0,
        0, 0, 0, 0, 0, 0, 0];
    let keys = vec![pumpfun_program_id()];
    let rec = deserialize_pump_buy_instruction(&data, &[0], &keys, &vec![true], &vec![false])
        .unwrap();
    // The program id must render to its conventional base58 spelling.
    assert_eq!(rec.program_id, "6EF8rrecthR5Dkzon8Nwu78hRvfCKubJ14M5uBEwF6P");
    assert_eq!(rec.accounts.len(), 1);
    assert_eq!(rec.accounts[0].pubkey, "6EF8rrecthR5Dkzon8Nwu78hRvfCKubJ14M5uBEwF6P");
    assert!(rec.accounts[0].signer);
    assert!(!rec.accounts[0].writable);
    assert_eq!(&rec.raw_data[0..16], "66063d1201daebea");
}

#[test]
fn account_index_past_key_list_renders_unknown() {
    let data = vec![0x66u8, 0x06, 0x3d, 0x12, 0x01, 0xda, 0xeb, 0xea, 0, 0, 0, 0, 0, 0, 0, 0, 0,
        0, 0, 0, 0, 0, 0, 0];
    let keys = vec![pumpfun_program_id()];
    let rec = deserialize_pump_buy_instruction(&data, &[5], &keys, &vec![true], &vec![true])
        .unwrap();
    assert_eq!(rec.accounts[0].pubkey, "unknown");
    assert!(!rec.accounts[0].signer);
    assert!(!rec.accounts[0].writable);
}

#[test]
fn truncated_instruction_data_is_rejected() {
    let data = vec![0x66u8, 0x06, 0x3d, 0x12, 0x01, 0xda, 0xeb, 0xea, 1, 2];
    let keys = vec![vec![1u8; 32]];
    let r = deserialize_pump_buy_instruction(&data, &[0], &keys, &vec![true], &vec![true]);
    assert_eq!(r.unwrap_err(), DecodeError::Parse(ParseError::Insufficient));
}

fn dispatch_tx(program: Vec<u8>, data: Vec<u8>, n_accounts: u8) -> (VersionedTransaction, Vec<Vec<u8>>) {
    let mut keys = vec![program];
    for i in 0..n_accounts {
        keys.push(vec![i + 10; 32]);
    }
    let tx = VersionedTransaction {
        signatures: vec![vec![3u8; 64]],
        header: header(1, 0, 0),
        account_keys: keys.clone(),
        recent_blockhash: vec![8u8; 32],
        instructions: vec![CompiledInstruction {
            program_id_index: 0,
            accounts: (1..=n_accounts).collect(),
            data,
        }],
        address_table_lookups: None,
    };
    (tx, keys)
}

#[test]
fn dispatch_decodes_a_pumpfun_create_transaction() {
    let data = pump_create_data("Token", "TOK", "https://example.invalid/meta", &[7u8; 32]);
    let (tx, keys) = dispatch_tx(pumpfun_program_id(), data, 14);
    let rec = deserialize_versioned_transaction_with_resolved_keys(&tx, 42, &keys).unwrap();
    assert_eq!(rec.slot, 42);
    assert_eq!(rec.instructions.len(), 1);
    assert_eq!(rec.instructions[0].instruction_name, "Create");
    match &rec.instructions[0].parsed_data {
        ParsedParams::PumpfunCreate(p) => {
            assert_eq!(p.name, "Token");
            assert_eq!(p.symbol, "TOK");
            assert_eq!(p.uri, "https://example.invalid/meta");
            assert_eq!(p.creator, vec![7u8; 32]);
        },
        _ => panic!("wrong parsed variant"),
    }
}

#[test]
fn transaction_without_relevant_instruction_is_suppressed() {
    let (tx, keys) = dispatch_tx(vec![0x55u8; 32], vec![9u8; 16], 3);
    assert!(deserialize_versioned_transaction_with_resolved_keys(&tx, 1, &keys).is_none());
}

#[test]
fn relevant_instruction_below_account_minimum_is_suppressed() {
    let data = pump_create_data("T", "T", "u", &[7u8; 32]);
    // Only 5 accounts: the Create minimum of 14 is not met, and nothing
    // else decodes.
    let (tx, keys) = dispatch_tx(pumpfun_program_id(), data, 5);
    assert!(deserialize_versioned_transaction_with_resolved_keys(&tx, 1, &keys).is_none());
}

#[test]
fn emission_preserves_transaction_order() {
    let data1 = pump_create_data("A", "A", "a", &[1u8; 32]);
    let data2 = pump_create_data("B", "B", "b", &[2u8; 32]);
    let (tx1, keys1) = dispatch_tx(pumpfun_program_id(), data1, 14);
    let (skip_tx, skip_keys) = dispatch_tx(vec![0x55u8; 32], vec![9u8; 16], 3);
    let (tx2, keys2) = dispatch_tx(pumpfun_program_id(), data2, 14);
    let records = process_transactions(
        &vec![tx1, skip_tx, tx2],
        9,
        &vec![keys1, skip_keys, keys2],
    );
    assert_eq!(records.len(), 2);
    let names: Vec<String> = records
        .iter()
        .map(|r| match &r.instructions[0].parsed_data {
            ParsedParams::PumpfunCreate(p) => p.name.clone(),
            _ => panic!("wrong variant"),
        })
        .collect();
    assert_eq!(names, vec!["A".to_string(), "B".to_string()]);
}

#[test]
fn pumpamm_unknown_discriminator_is_reported() {
    let data = vec![9u8; 16];
    assert!(matches!(
        get_pumpamm_instruction_type(&data),
        Some(PumpAmmInstructionType::Unknown)
    ));
    let keys = vec![pumpamm_program_id()];
    let r = deserialize_pumpamm_instruction(&data, &[], &keys, &Vec::new(), &Vec::new());
    assert_eq!(r.unwrap_err(), DecodeError::UnknownInstruction);
}

#[test]
fn pumpamm_buy_requires_seventeen_accounts() {
    let mut data = vec![102u8, 6, 61, 18, 1, 218, 235, 234];
    data.extend_from_slice(&[0u8; 16]);
    let keys = vec![pumpamm_program_id()];
    let r = deserialize_pumpamm_instruction(&data, &[0; 5], &keys, &Vec::new(), &Vec::new());
    assert_eq!(r.unwrap_err(), DecodeError::InsufficientAccounts);
}

#[test]
fn orca_swap_decodes_packed_parameters() {
    let mut data = vec![248u8, 198, 158, 145, 225, 117, 135, 200];
    data.extend_from_slice(&1111u64.to_le_bytes());
    data.extend_from_slice(&2222u64.to_le_bytes());
    data.extend_from_slice(&3333u128.to_le_bytes());
    data.push(1);
    data.push(0);
    assert!(matches!(get_orca_instruction_type(&data), Some(OrcaInstructionType::Swap)));
    let keys = vec![vec![1u8; 32]];
    let rec = deserialize_orca_swap_instruction(&data, &[0], &keys, &vec![false], &vec![false])
        .unwrap();
    match rec.parsed_data {
        ParsedParams::OrcaSwap(p) => {
            assert_eq!(p.amount, 1111);
            assert_eq!(p.other_amount_threshold, 2222);
            assert_eq!(p.sqrt_price_limit, 3333);
            assert!(p.amount_specified_is_input);
            assert!(!p.a_to_b);
        },
        _ => panic!("wrong parsed variant"),
    }
}

#[test]
fn pumpfun_decoder_processes_create_v2() {
    let mut data = vec![214u8, 144, 76, 236, 95, 139, 49, 180];
    for s in ["N", "S", "U"] {
        data.extend_from_slice(&(s.len() as u32).to_le_bytes());
        data.extend_from_slice(s.as_bytes());
    }
    data.extend_from_slice(&[4u8; 32]);
    data.push(1);
    let keys: Vec<Vec<u8>> = (0..18).map(|i| vec![i; 32]).collect();
    let indices: Vec<u8> = (0..18).collect();
    let rec = PumpfunDecoder::process_instruction(
        &data,
        &indices,
        &keys,
        &vec![false; 18],
        &vec![false; 18],
    )
    .unwrap()
    .unwrap();
    assert_eq!(rec.instruction_name, "create_v2");
    match rec.parsed_data {
        ParsedParams::PumpfunCreateV2(p) => {
            assert_eq!(p.name, "N");
            assert!(p.is_mayhem_mode);
        },
        _ => panic!("wrong parsed variant"),
    }
}

#[test]
fn boop_decoder_processes_create_token() {
    let mut data = vec![84u8, 52, 204, 228, 24, 140, 234, 75];
    data.extend_from_slice(&77u64.to_le_bytes());
    for s in ["Boopy", "BP", "uri"] {
        data.extend_from_slice(&(s.len() as u32).to_le_bytes());
        data.extend_from_slice(s.as_bytes());
    }
    let keys = vec![vec![1u8; 32]];
    let rec = BoopDecoder::process_instruction(&data, &[0], &keys, &vec![false], &vec![false])
        .unwrap()
        .unwrap();
    assert_eq!(rec.protocol, "Boop");
    match rec.parsed_data {
        ParsedParams::BoopCreateToken(p) => {
            assert_eq!(p.salt, 77);
            assert_eq!(p.name, "Boopy");
        },
        _ => panic!("wrong parsed variant"),
    }
}

#[test]
fn dlmm_decoder_parses_add_liquidity_bins() {
    let mut data = vec![181u8, 157, 89, 67, 143, 182, 52, 72];
    data.extend_from_slice(&10u64.to_le_bytes());
    data.extend_from_slice(&20u64.to_le_bytes());
    data.extend_from_slice(&2u32.to_le_bytes());
    data.extend_from_slice(&(-3i32).to_le_bytes());
    data.extend_from_slice(&100u16.to_le_bytes());
    data.extend_from_slice(&200u16.to_le_bytes());
    data.extend_from_slice(&4i32.to_le_bytes());
    data.extend_from_slice(&300u16.to_le_bytes());
    data.extend_from_slice(&400u16.to_le_bytes());
    let keys = vec![vec![1u8; 32]];
    let rec = MeteoraDlmmDecoder::process_instruction(
        &data,
        &[0],
        &keys,
        &vec![false],
        &vec![false],
    )
    .unwrap()
    .unwrap();
    assert_eq!(rec.instruction_name, "add_liquidity");
    match rec.parsed_data {
        ParsedParams::DlmmAddLiquidity { version, amount_x, amount_y, bin_liquidity_dist, remaining_accounts_info } => {
            assert_eq!(version, 1);
            assert_eq!(amount_x, 10);
            assert_eq!(amount_y, 20);
            assert_eq!(bin_liquidity_dist.len(), 2);
            assert_eq!(bin_liquidity_dist[0].bin_id, -3);
            assert_eq!(bin_liquidity_dist[0].distribution_x, 100);
            assert_eq!(bin_liquidity_dist[1].bin_id, 4);
            assert_eq!(bin_liquidity_dist[1].distribution_y, 400);
            assert!(remaining_accounts_info.is_none());
        },
        _ => panic!("wrong parsed variant"),
    }
}

#[test]
fn only_relevant_instructions_are_emitted_in_position_order() {
    // Three instructions: irrelevant, relevant, irrelevant.
    let mut keys = vec![pumpfun_program_id(), vec![0x55u8; 32]];
    for i in 0..14u8 {
        keys.push(vec![i + 10; 32]);
    }
    let junk = CompiledInstruction {
        program_id_index: 1,
        accounts: vec![2],
        data: vec![0u8; 12],
    };
    let create = CompiledInstruction {
        program_id_index: 0,
        accounts: (2..16).collect(),
        data: pump_create_data("Mid", "M", "u", &[7u8; 32]),
    };
    let tx = VersionedTransaction {
        signatures: vec![vec![3u8; 64]],
        header: header(1, 0, 0),
        account_keys: keys.clone(),
        recent_blockhash: vec![8u8; 32],
        instructions: vec![junk.clone(), create, junk],
        address_table_lookups: None,
    };
    let rec = deserialize_versioned_transaction_with_resolved_keys(&tx, 1, &keys).unwrap();
    assert_eq!(rec.instructions.len(), 1);
    assert_eq!(rec.instructions[0].instruction_name, "Create");
}

#[test]
fn parse_failure_skips_one_instruction_and_later_ones_still_decode() {
    let mut keys = vec![pumpfun_program_id()];
    for i in 0..14u8 {
        keys.push(vec![i + 10; 32]);
    }
    // First instruction: a Create whose parameters are cut short.
    let mut truncated = pump_create_data("Name", "N", "u", &[7u8; 32]);
    truncated.truncate(12);
    let bad = CompiledInstruction {
        program_id_index: 0,
        accounts: (1..=14).collect(),
        data: truncated,
    };
    let good = CompiledInstruction {
        program_id_index: 0,
        accounts: (1..=14).collect(),
        data: pump_create_data("Later", "L", "u", &[7u8; 32]),
    };
    let tx = VersionedTransaction {
        signatures: vec![vec![3u8; 64]],
        header: header(1, 0, 0),
        account_keys: keys.clone(),
        recent_blockhash: vec![8u8; 32],
        instructions: vec![bad, good],
        address_table_lookups: None,
    };
    let rec = deserialize_versioned_transaction_with_resolved_keys(&tx, 1, &keys).unwrap();
    assert_eq!(rec.instructions.len(), 1);
    match &rec.instructions[0].parsed_data {
        ParsedParams::PumpfunCreate(p) => assert_eq!(p.name, "Later"),
        _ => panic!("wrong variant"),
    }
}

#[test]
fn index_equal_to_table_size_forces_refresh() {
    let lookup = MessageAddressTableLookup {
        account_key: vec![1u8; 32],
        writable_indexes: vec![],
        readonly_indexes: vec![5],
    };
    assert!(needs_refresh(&lookup, 5));
    assert!(!needs_refresh(&lookup, 6));
}

#[test]
fn dlmm_add_liquidity2_carries_remaining_accounts() {
    let mut data = vec![228u8, 162, 78, 28, 70, 219, 116, 115];
    data.extend_from_slice(&1u64.to_le_bytes());
    data.extend_from_slice(&2u64.to_le_bytes());
    data.extend_from_slice(&0u32.to_le_bytes()); // no bins
    data.extend_from_slice(&2u32.to_le_bytes()); // two slices
    data.push(1); // hook kind
    data.push(9); // length
    data.push(3); // multi-reward kind
    data.push(4); // reward index
    data.push(8); // length
    let keys = vec![vec![1u8; 32]];
    let rec = MeteoraDlmmDecoder::process_instruction(
        &data,
        &[0],
        &keys,
        &vec![false],
        &vec![false],
    )
    .unwrap()
    .unwrap();
    assert_eq!(rec.instruction_name, "add_liquidity2");
    match rec.parsed_data {
        ParsedParams::DlmmAddLiquidity { version, remaining_accounts_info, .. } => {
            assert_eq!(version, 2);
            let info = remaining_accounts_info.unwrap();
            assert_eq!(info.slices.len(), 2);
            assert_eq!(info.slices[0].length, 9);
            assert_eq!(info.slices[1].length, 8);
        },
        _ => panic!("wrong parsed variant"),
    }
}

#[test]
fn slot_counters_accumulate() {
    let mut stats = SlotStats::new();
    stats.increment_slot_counters(5, 1, 10, 1, 0);
    stats.increment_slot_counters(5, 2, 5, 0, 1);
    stats.increment_slot_counters(6, 1, 0, 0, 0);
    let c = stats.get(5).unwrap();
    assert_eq!(c.fec_blocks_count, 3);
    assert_eq!(c.tx_count, 15);
    assert_eq!(c.fec_blocks_complete, 1);
    assert_eq!(c.fec_blocks_incomplete, 1);
    assert_eq!(stats.get(6).unwrap().fec_blocks_count, 1);
    assert!(stats.get(7).is_none());
}

fn counters(n: u64) -> SlotCounters {
    SlotCounters {
        fec_blocks_count: n,
        tx_count: n,
        fec_blocks_complete: n,
        fec_blocks_incomplete: 0,
    }
}

#[test]
fn slot_stats_file_list_replaces_same_slot_and_stays_bounded() {
    let mut list = Vec::new();
    for slot in 0..500u64 {
        list = upsert_slot_stats(list, slot, counters(slot));
    }
    assert_eq!(list.len(), 500);
    // Updating an existing slot does not grow the list.
    list = upsert_slot_stats(list, 42, counters(999));
    assert_eq!(list.len(), 500);
    assert_eq!(list.last().unwrap().0, 42);
    assert_eq!(list.last().unwrap().1.tx_count, 999);
    // A new slot at capacity evicts the oldest entry.
    list = upsert_slot_stats(list, 1000, counters(1));
    assert_eq!(list.len(), 500);
    assert_eq!(list.last().unwrap().0, 1000);
    assert!(list.iter().all(|e| e.0 != 0));
}
