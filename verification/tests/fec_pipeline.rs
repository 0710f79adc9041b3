//! End-to-end tests of shred collection, FEC-group completion, duplicate
//! suppression, sweeping, and payload reconstruction.

use shredstream::fec::{CollectOutcome, FecStore, BLOCK_EXPIRY_MICROS, PROCESSED_SWEEP_MICROS};
use shredstream::deshred::{decode_fec_block, reconstruct_full_payload, sort_shreds_by_index};
use shredstream::shred::Shred;

fn data_shred_bytes(slot: u64, index: u32, fec: u32, flags: u8, payload: &[u8]) -> Vec<u8> {
    let mut v = vec![0u8; 88];
    v[64] = 0xa5;
    v[65..73].copy_from_slice(&slot.to_le_bytes());
    v[73..77].copy_from_slice(&index.to_le_bytes());
    v[79..83].copy_from_slice(&fec.to_le_bytes());
    v[85] = flags;
    let size = (88 + payload.len()) as u16;
    v[86..88].copy_from_slice(&size.to_le_bytes());
    v.extend_from_slice(payload);
    v
}

fn coding_shred_bytes(slot: u64, index: u32, fec: u32, num_data: u16, num_coding: u16, position: u16) -> Vec<u8> {
    let mut v = vec![0u8; 89];
    v[64] = 0x5a;
    v[65..73].copy_from_slice(&slot.to_le_bytes());
    v[73..77].copy_from_slice(&index.to_le_bytes());
    v[79..83].copy_from_slice(&fec.to_le_bytes());
    v[83..85].copy_from_slice(&num_data.to_le_bytes());
    v[85..87].copy_from_slice(&num_coding.to_le_bytes());
    v[87..89].copy_from_slice(&position.to_le_bytes());
    v
}

#[test]
fn single_shred_fec_completes_immediately() {
    let mut store = FecStore::new();
    let bytes = data_shred_bytes(5, 7, 7, 0xc0, b"hello world");
    let outcome = store.collect_shred(&bytes, 1_000).unwrap();
    assert!(matches!(outcome, CollectOutcome::Completed));
    assert!(store.processed_contains(5, 7));
    let block = store.take_block(5, 7).unwrap();
    let (payload, slot) = decode_fec_block(block, Vec::new()).unwrap();
    assert_eq!(slot, 5);
    assert_eq!(payload, b"hello world".to_vec());
}

#[test]
fn duplicate_shred_is_suppressed_after_completion() {
    let mut store = FecStore::new();
    let bytes = data_shred_bytes(5, 7, 7, 0xc0, b"payload");
    let first = store.collect_shred(&bytes, 1_000).unwrap();
    assert!(matches!(first, CollectOutcome::Completed));
    let second = store.collect_shred(&bytes, 2_000).unwrap();
    assert!(matches!(second, CollectOutcome::AlreadyProcessed));
}

#[test]
fn duplicate_shred_is_a_noop_before_completion() {
    let mut store = FecStore::new();
    // Without the data-complete flag the group stays open.
    let bytes = data_shred_bytes(5, 9, 7, 0x00, b"x");
    let first = store.collect_shred(&bytes, 1_000).unwrap();
    assert!(matches!(first, CollectOutcome::Stored));
    let second = store.collect_shred(&bytes, 2_000).unwrap();
    assert!(matches!(second, CollectOutcome::Duplicate));
    let block = store.get_block(5, 7).unwrap();
    assert_eq!(block.data_shreds.len(), 1);
}

#[test]
fn slot_mismatch_routes_to_separate_blocks() {
    let mut store = FecStore::new();
    let a = data_shred_bytes(5, 9, 7, 0x00, b"slot five");
    let b = data_shred_bytes(6, 9, 7, 0x00, b"slot six");
    assert!(matches!(store.collect_shred(&a, 0).unwrap(), CollectOutcome::Stored));
    assert!(matches!(store.collect_shred(&b, 0).unwrap(), CollectOutcome::Stored));
    let block_a = store.get_block(5, 7).unwrap();
    let block_b = store.get_block(6, 7).unwrap();
    assert_eq!(block_a.data_shreds.len(), 1);
    assert_eq!(block_b.data_shreds.len(), 1);
    assert_eq!(block_a.data_shreds[0].1.payload, b"slot five".to_vec());
    assert_eq!(block_b.data_shreds[0].1.payload, b"slot six".to_vec());
}

#[test]
fn short_datagram_is_dropped() {
    let mut store = FecStore::new();
    let outcome = store.collect_shred(&[0u8; 20], 0).unwrap();
    assert!(matches!(outcome, CollectOutcome::TooShort));
}

#[test]
fn shred_index_before_fec_set_index_is_rejected() {
    let mut store = FecStore::new();
    let bytes = data_shred_bytes(5, 3, 7, 0x00, b"x");
    assert!(store.collect_shred(&bytes, 0).is_err());
}

#[test]
fn malformed_variant_is_rejected() {
    let mut store = FecStore::new();
    let mut bytes = data_shred_bytes(5, 9, 7, 0x00, b"x");
    bytes[64] = 0x11;
    assert!(store.collect_shred(&bytes, 0).is_err());
}

#[test]
fn identical_multiset_in_any_order_decodes_identically() {
    let a = data_shred_bytes(5, 7, 7, 0x00, b"first ");
    let b = data_shred_bytes(5, 8, 7, 0xc0, b"second");
    let mut payloads = Vec::new();
    for order in [[&a, &b], [&b, &a]] {
        let mut store = FecStore::new();
        let mut completed = 0;
        for bytes in order {
            if matches!(store.collect_shred(bytes, 0).unwrap(), CollectOutcome::Completed) {
                completed += 1;
            }
        }
        assert_eq!(completed, 1);
        let block = store.take_block(5, 7).unwrap();
        let (payload, _) = decode_fec_block(block, Vec::new()).unwrap();
        payloads.push(payload);
    }
    assert_eq!(payloads[0], payloads[1]);
    assert_eq!(payloads[0], b"first second".to_vec());
}

#[test]
fn coding_header_sets_expected_counts() {
    let mut store = FecStore::new();
    let coding = coding_shred_bytes(9, 12, 10, 1, 1, 0);
    assert!(matches!(store.collect_shred(&coding, 0).unwrap(), CollectOutcome::Stored));
    let data = data_shred_bytes(9, 10, 10, 0x00, b"only data");
    let outcome = store.collect_shred(&data, 0).unwrap();
    assert!(matches!(outcome, CollectOutcome::Completed));
    let block = store.take_block(9, 10).unwrap();
    assert_eq!(block.num_data_shreds, Some(1));
    assert_eq!(block.num_coding_shreds, Some(1));
    let (payload, _) = decode_fec_block(block, Vec::new()).unwrap();
    assert_eq!(payload, b"only data".to_vec());
}

#[test]
fn expired_block_is_swept() {
    let mut store = FecStore::new();
    let bytes = data_shred_bytes(5, 9, 7, 0x00, b"x");
    store.collect_shred(&bytes, 0).unwrap();
    let removed = store.sweep_expired_blocks(BLOCK_EXPIRY_MICROS + 1_000_000);
    assert_eq!(removed, 1);
    assert!(store.get_block(5, 7).is_none());
}

#[test]
fn fresh_block_survives_sweep() {
    let mut store = FecStore::new();
    let bytes = data_shred_bytes(5, 9, 7, 0x00, b"x");
    store.collect_shred(&bytes, 1_000_000).unwrap();
    let removed = store.sweep_expired_blocks(2_000_000);
    assert_eq!(removed, 0);
    assert!(store.get_block(5, 7).is_some());
}

#[test]
fn processed_marker_is_swept_after_horizon() {
    let mut store = FecStore::new();
    let bytes = data_shred_bytes(5, 7, 7, 0xc0, b"p");
    store.collect_shred(&bytes, 0).unwrap();
    assert!(store.processed_contains(5, 7));
    store.sweep_processed(PROCESSED_SWEEP_MICROS + 1_000_000);
    assert!(!store.processed_contains(5, 7));
}

#[test]
fn recovered_shreds_fill_the_gap() {
    let mut store = FecStore::new();
    let coding = coding_shred_bytes(3, 21, 20, 2, 0, 0);
    let data1 = data_shred_bytes(3, 20, 20, 0x00, b"AAA ");
    store.collect_shred(&coding, 0).unwrap();
    let outcome = store.collect_shred(&data1, 0).unwrap();
    // The collected total reaches the expected total while a Data shred is
    // still missing: the group completes through the recovery path.
    assert!(matches!(outcome, CollectOutcome::Completed));
    let block = store.take_block(3, 20).unwrap();
    // The missing Data shred arrives from the erasure decoder.
    let recovered_bytes = data_shred_bytes(3, 21, 20, 0x40, b"BBB");
    let recovered = Shred::from_bytes(&recovered_bytes).unwrap();
    let (payload, _) = decode_fec_block(block, vec![recovered]).unwrap();
    assert_eq!(payload, b"AAA BBB".to_vec());
}

#[test]
fn empty_group_fails_reconstruction() {
    assert!(reconstruct_full_payload(&Vec::new()).is_err());
}

#[test]
fn sorting_orders_shreds_by_index() {
    let s1 = Shred::from_bytes(&data_shred_bytes(1, 12, 10, 0, b"c")).unwrap();
    let s2 = Shred::from_bytes(&data_shred_bytes(1, 10, 10, 0, b"a")).unwrap();
    let s3 = Shred::from_bytes(&data_shred_bytes(1, 11, 10, 0, b"b")).unwrap();
    let sorted = sort_shreds_by_index(vec![s1, s2, s3]);
    let indices: Vec<u32> = sorted.iter().map(|s| s.index).collect();
    assert_eq!(indices, vec![10, 11, 12]);
    let payload = reconstruct_full_payload(&sorted).unwrap();
    assert_eq!(payload, b"abc".to_vec());
}

#[test]
fn three_chunk_set_reproduces_producer_payload() {
    // The producer splits "one two three!" into three chunks.
    let chunks: [&[u8]; 3] = [b"oneic", b"two", b"three"];
    let mut raw = Vec::new();
    for (j, chunk) in chunks.iter().enumerate() {
        let flags = if j == 2 { 0x40 } else { 0x00 };
        raw.push(data_shred_bytes(2, 30 + j as u32, 30, flags, chunk));
    }
    // Arrival order 2, 0, 1 still reproduces the original payload.
    let mut store = FecStore::new();
    store.collect_shred(&raw[2], 0).unwrap();
    store.collect_shred(&raw[0], 0).unwrap();
    let outcome = store.collect_shred(&raw[1], 0).unwrap();
    assert!(matches!(outcome, CollectOutcome::Completed));
    let block = store.take_block(2, 30).unwrap();
    let (payload, _) = decode_fec_block(block, Vec::new()).unwrap();
    assert_eq!(payload, b"oneictwothree".to_vec());
}
