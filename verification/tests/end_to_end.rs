//! End-to-end payload extraction through the cache, and the remaining
//! decoder and shred error variants.

use shredstream::alt_cache::AddressLookupTableCache;
use shredstream::bytes::ParseError;
use shredstream::fec::{FecBlock, FecBlockError, InsertKind};
use shredstream::process::extract_transactions_from_payload;
use shredstream::programs::{pumpfun_program_id, raydium_launchlab_program_id, meteoradyn_program_id};
use shredstream::record::{DecodeError, ParsedParams};
use shredstream::shred::{Shred, ShredError};
use shredstream::decoder::meteora_dlmm::MeteoraDlmmDecoder;
use shredstream::raydium_launchlab_decoding::{deserialize_raydium_launchlab_initialize_instruction, CurveParams};
use shredstream::meteoradyn_decoding::{deserialize_meteoradyn_initialize_permissionless_pool_instruction, CurveType};

fn shortvec_tx(program_key_index: u8, accounts: &[u8], ix_data: &[u8], keys: &[Vec<u8>]) -> Vec<u8> {
    let mut v = Vec::new();
    v.push(1u8);
    v.extend_from_slice(&[7u8; 64]);
    v.extend_from_slice(&[1, 0, 0]);
    v.push(keys.len() as u8);
    for k in keys {
        v.extend_from_slice(k);
    }
    v.extend_from_slice(&[9u8; 32]);
    v.push(1u8);
    v.push(program_key_index);
    v.push(accounts.len() as u8);
    v.extend_from_slice(accounts);
    v.push(ix_data.len() as u8);
    v.extend_from_slice(ix_data);
    v
}

fn pump_create_data() -> Vec<u8> {
    let mut data = vec![0x18, 0x1e, 0xc8, 0x28, 0x05, 0x1c, 0x07, 0x77];
    for s in ["Tok", "TK", "u"] {
        data.extend_from_slice(&(s.len() as u32).to_le_bytes());
        data.extend_from_slice(s.as_bytes());
    }
    data.extend_from_slice(&[7u8; 32]);
    data
}

#[test]
fn payload_extraction_emits_decoded_transactions() {
    // One entry with one legacy Pumpfun-create transaction whose program id
    // stands at key index 0 and whose instruction names 14 accounts.
    let mut keys: Vec<Vec<u8>> = vec![pumpfun_program_id()];
    for i in 0..14u8 {
        keys.push(vec![i + 10; 32]);
    }
    let accounts: Vec<u8> = (1..=14).collect();
    let tx = shortvec_tx(0, &accounts, &pump_create_data(), &keys);
    let mut payload = 1u64.to_le_bytes().to_vec();
    payload.extend_from_slice(&1u64.to_le_bytes());
    payload.extend_from_slice(&[0u8; 32]);
    payload.extend_from_slice(&1u64.to_le_bytes());
    payload.extend_from_slice(&tx);

    let mut cache = AddressLookupTableCache::new("http://localhost:8899", 300);
    let (records, total) = extract_transactions_from_payload(33, &payload, &mut cache, 0).unwrap();
    assert_eq!(total, 1);
    assert_eq!(records.len(), 1);
    assert_eq!(records[0].slot, 33);
    assert_eq!(records[0].instructions.len(), 1);
    assert_eq!(records[0].instructions[0].instruction_name, "Create");
    match &records[0].instructions[0].parsed_data {
        ParsedParams::PumpfunCreate(p) => assert_eq!(p.name, "Tok"),
        _ => panic!("wrong parsed variant"),
    }
}

#[test]
fn payload_extraction_suppresses_irrelevant_transactions() {
    let keys: Vec<Vec<u8>> = vec![vec![0x42; 32], vec![0x43; 32]];
    let tx = shortvec_tx(0, &[1], &[0u8; 12], &keys);
    let mut payload = 1u64.to_le_bytes().to_vec();
    payload.extend_from_slice(&1u64.to_le_bytes());
    payload.extend_from_slice(&[0u8; 32]);
    payload.extend_from_slice(&1u64.to_le_bytes());
    payload.extend_from_slice(&tx);

    let mut cache = AddressLookupTableCache::new("http://localhost:8899", 300);
    let (records, total) = extract_transactions_from_payload(33, &payload, &mut cache, 0).unwrap();
    assert_eq!(total, 1);
    assert!(records.is_empty());
}

#[test]
fn malformed_payload_is_an_error() {
    let mut cache = AddressLookupTableCache::new("http://localhost:8899", 300);
    assert!(extract_transactions_from_payload(1, &[1, 2, 3], &mut cache, 0).is_err());
}

#[test]
fn shred_errors_name_their_causes() {
    assert_eq!(Shred::from_bytes(&[0u8; 10]).unwrap_err(), ShredError::TooShort);
    let mut bad_variant = vec![0u8; 90];
    bad_variant[64] = 0x21;
    assert_eq!(Shred::from_bytes(&bad_variant).unwrap_err(), ShredError::InvalidVariant);
    // A Data shred whose size field points before the payload region.
    let mut bad_size = vec![0u8; 90];
    bad_size[64] = 0xa5;
    bad_size[86..88].copy_from_slice(&10u16.to_le_bytes());
    assert_eq!(Shred::from_bytes(&bad_size).unwrap_err(), ShredError::InvalidSize);
    // A Coding shred cut off before its erasure-set header.
    let mut short_coding = vec![0u8; 84];
    short_coding[64] = 0x5a;
    assert_eq!(Shred::from_bytes(&short_coding).unwrap_err(), ShredError::TooShort);
}

#[test]
fn block_level_insert_rejects_foreign_slot() {
    let mut block = FecBlock::new(5, 7);
    let mut raw = vec![0u8; 88];
    raw[64] = 0xa5;
    raw[65..73].copy_from_slice(&6u64.to_le_bytes());
    raw[73..77].copy_from_slice(&9u32.to_le_bytes());
    raw[79..83].copy_from_slice(&7u32.to_le_bytes());
    raw[86..88].copy_from_slice(&88u16.to_le_bytes());
    let shred = Shred::from_bytes(&raw).unwrap();
    let err = block.insert_shred(shred, 0).unwrap_err();
    assert_eq!(err, FecBlockError::SlotMismatch { expected: 5, found: 6 });
}

#[test]
fn block_level_duplicate_is_reported() {
    let mut block = FecBlock::new(5, 7);
    let mut raw = vec![0u8; 88];
    raw[64] = 0xa5;
    raw[65..73].copy_from_slice(&5u64.to_le_bytes());
    raw[73..77].copy_from_slice(&9u32.to_le_bytes());
    raw[79..83].copy_from_slice(&7u32.to_le_bytes());
    raw[86..88].copy_from_slice(&88u16.to_le_bytes());
    let shred = Shred::from_bytes(&raw).unwrap();
    let again = Shred::from_bytes(&raw).unwrap();
    assert!(matches!(block.insert_shred(shred, 0).unwrap(), InsertKind::Inserted));
    assert!(matches!(block.insert_shred(again, 0).unwrap(), InsertKind::Duplicate));
}

#[test]
fn dlmm_strategy_variants_are_unsupported() {
    let mut data = vec![7u8, 3, 150, 127, 148, 40, 61, 200];
    data.extend_from_slice(&[0u8; 32]);
    let keys = vec![vec![1u8; 32]];
    let r = MeteoraDlmmDecoder::process_instruction(&data, &[0], &keys, &vec![false], &vec![false])
        .unwrap();
    assert_eq!(r.unwrap_err(), DecodeError::Unsupported);
}

fn launchlab_data(curve_tag: u8) -> Vec<u8> {
    let mut data = vec![175u8, 175, 109, 31, 13, 152, 155, 237];
    data.push(6); // decimals
    for s in ["L", "LL", "url"] {
        data.extend_from_slice(&(s.len() as u32).to_le_bytes());
        data.extend_from_slice(s.as_bytes());
    }
    data.push(curve_tag);
    if curve_tag == 0 {
        data.extend_from_slice(&1u64.to_le_bytes());
        data.extend_from_slice(&2u64.to_le_bytes());
        data.extend_from_slice(&3u64.to_le_bytes());
        data.push(1);
    } else {
        data.extend_from_slice(&4u64.to_le_bytes());
        data.extend_from_slice(&5u64.to_le_bytes());
        data.push(2);
    }
    data.extend_from_slice(&7u64.to_le_bytes());
    data.extend_from_slice(&8u64.to_le_bytes());
    data.extend_from_slice(&9u64.to_le_bytes());
    data
}

#[test]
fn launchlab_initialize_decodes_constant_curve() {
    let keys = vec![raydium_launchlab_program_id()];
    let rec = deserialize_raydium_launchlab_initialize_instruction(
        &launchlab_data(0),
        &[0],
        &keys,
        &vec![true],
        &vec![true],
    )
    .unwrap();
    match rec.parsed_data {
        ParsedParams::LaunchlabInitialize { base_mint_param, curve_param, vesting_param } => {
            assert_eq!(base_mint_param.decimals, 6);
            assert_eq!(base_mint_param.name, "L");
            assert_eq!(
                curve_param,
                CurveParams::Constant {
                    supply: 1,
                    total_base_sell: 2,
                    total_quote_fund_raising: 3,
                    migrate_type: 1,
                }
            );
            assert_eq!(vesting_param.total_locked_amount, 7);
            assert_eq!(vesting_param.cliff_period, 8);
            assert_eq!(vesting_param.unlock_period, 9);
        },
        _ => panic!("wrong parsed variant"),
    }
}

#[test]
fn launchlab_initialize_decodes_fixed_curve() {
    let keys = vec![raydium_launchlab_program_id()];
    let rec = deserialize_raydium_launchlab_initialize_instruction(
        &launchlab_data(1),
        &[0],
        &keys,
        &vec![true],
        &vec![true],
    )
    .unwrap();
    match rec.parsed_data {
        ParsedParams::LaunchlabInitialize { curve_param, .. } => {
            assert_eq!(
                curve_param,
                CurveParams::Fixed { supply: 4, total_quote_fund_raising: 5, migrate_type: 2 }
            );
        },
        _ => panic!("wrong parsed variant"),
    }
}

#[test]
fn launchlab_rejects_unknown_curve_shape() {
    let mut data = vec![175u8, 175, 109, 31, 13, 152, 155, 237];
    data.push(6);
    for s in ["L", "LL", "url"] {
        data.extend_from_slice(&(s.len() as u32).to_le_bytes());
        data.extend_from_slice(s.as_bytes());
    }
    data.push(9); // no such curve shape
    let keys = vec![raydium_launchlab_program_id()];
    let r = deserialize_raydium_launchlab_initialize_instruction(
        &data,
        &[0],
        &keys,
        &vec![true],
        &vec![true],
    );
    assert_eq!(r.unwrap_err(), DecodeError::Parse(ParseError::InvalidDiscriminant));
}

#[test]
fn meteoradyn_decodes_stable_curve() {
    let mut data = vec![66u8, 5, 221, 69, 105, 8, 127, 249];
    data.push(1); // stable curve
    data.extend_from_slice(&10u64.to_le_bytes()); // amp
    data.extend_from_slice(&11u64.to_le_bytes());
    data.extend_from_slice(&12u64.to_le_bytes());
    data.push(3);
    data.extend_from_slice(&13u64.to_le_bytes());
    data.extend_from_slice(&14u64.to_le_bytes());
    data.push(4);
    data.extend_from_slice(&15u64.to_le_bytes());
    data.extend_from_slice(&20u64.to_le_bytes()); // token_a_amount
    data.extend_from_slice(&21u64.to_le_bytes()); // token_b_amount
    let keys = vec![meteoradyn_program_id()];
    let indices = vec![0u8; 24];
    let rec = deserialize_meteoradyn_initialize_permissionless_pool_instruction(
        &data,
        &indices,
        &keys,
        &vec![false],
        &vec![false],
    )
    .unwrap();
    match rec.parsed_data {
        ParsedParams::MeteoraDynInitializePermissionlessPool(p) => {
            match p.curve_type {
                CurveType::Stable { amp, token_multiplier, depeg, last_amp_updated_timestamp } => {
                    assert_eq!(amp, 10);
                    assert_eq!(token_multiplier.token_a_multiplier, 11);
                    assert_eq!(token_multiplier.precision_factor, 3);
                    assert_eq!(depeg.base_virtual_price, 13);
                    assert_eq!(depeg.depeg_type, 4);
                    assert_eq!(last_amp_updated_timestamp, 15);
                },
                _ => panic!("wrong curve"),
            }
            assert_eq!(p.token_a_amount, 20);
            assert_eq!(p.token_b_amount, 21);
        },
        _ => panic!("wrong parsed variant"),
    }
}
