//! Tests of the address-lookup-table cache: TTL hits, stale fallback,
//! out-of-bounds-driven refresh, extend-instruction invalidation, and the
//! resolution ordering contract.

use shredstream::alt_cache::{
    AddressLookupTableCache, LookupResolution, is_extend_lookup_table_instruction,
    extract_lookup_table_from_instruction, needs_refresh, resolve_address_lookups,
    resolve_lookup_with_refresh, resolve_transaction_account_keys, zero_address,
};
use shredstream::txn::{CompiledInstruction, MessageAddressTableLookup, MessageHeader, VersionedTransaction};
use shredstream::programs::address_lookup_table_program_id;

fn key(tag: u8) -> Vec<u8> {
    vec![tag; 32]
}

fn addresses(n: u8) -> Vec<Vec<u8>> {
    (0..n).map(|i| vec![i + 100; 32]).collect()
}

#[test]
fn fresh_entry_is_a_hit() {
    let mut cache = AddressLookupTableCache::new("http://localhost:8899", 300);
    let table = key(1);
    cache.apply_fetch_result(&table, 1_000_000, Some(addresses(3))).unwrap();
    let got = cache.get_lookup_table_addresses(&table, 2_000_000).unwrap();
    assert_eq!(got, addresses(3));
}

#[test]
fn expired_entry_misses() {
    let mut cache = AddressLookupTableCache::new("http://localhost:8899", 1);
    let table = key(1);
    cache.apply_fetch_result(&table, 0, Some(addresses(3))).unwrap();
    assert!(cache.get_lookup_table_addresses(&table, 2_000_000).is_none());
}

#[test]
fn stale_valid_entry_serves_as_fallback_and_is_retained() {
    let mut cache = AddressLookupTableCache::new("http://localhost:8899", 1);
    let table = key(1);
    cache.apply_fetch_result(&table, 0, Some(addresses(5))).unwrap();
    // TTL expired; the fetch fails; the stale addresses still serve.
    assert!(cache.get_lookup_table_addresses(&table, 5_000_000).is_none());
    let fallback = cache.apply_fetch_result(&table, 5_000_000, None).unwrap();
    assert_eq!(fallback, addresses(5));
    // The entry is retained: a second failed fetch still serves it.
    let again = cache.apply_fetch_result(&table, 6_000_000, None).unwrap();
    assert_eq!(again, addresses(5));
}

#[test]
fn failed_fetch_without_entry_writes_invalid_marker() {
    let mut cache = AddressLookupTableCache::new("http://localhost:8899", 300);
    let table = key(2);
    assert!(cache.apply_fetch_result(&table, 0, None).is_err());
    let (total, valid) = cache.get_cache_stats();
    assert_eq!((total, valid), (1, 0));
    // The invalid marker is not served.
    assert!(cache.get_lookup_table_addresses(&table, 0).is_none());
}

#[test]
fn force_refresh_replaces_unconditionally() {
    let mut cache = AddressLookupTableCache::new("http://localhost:8899", 300);
    let table = key(3);
    cache.apply_fetch_result(&table, 0, Some(addresses(5))).unwrap();
    let refreshed = cache.force_refresh_lookup_table(&table, 1_000, Some(addresses(10))).unwrap();
    assert_eq!(refreshed.len(), 10);
    let got = cache.get_lookup_table_addresses(&table, 2_000).unwrap();
    assert_eq!(got.len(), 10);
}

#[test]
fn cleanup_drops_entries_older_than_ttl() {
    let mut cache = AddressLookupTableCache::new("http://localhost:8899", 1);
    cache.apply_fetch_result(&key(1), 0, Some(addresses(1))).unwrap();
    cache.apply_fetch_result(&key(2), 3_000_000, Some(addresses(1))).unwrap();
    cache.cleanup_expired_entries(3_000_000);
    let (total, valid) = cache.get_cache_stats();
    assert_eq!((total, valid), (1, 1));
    assert!(cache.get_lookup_table_addresses(&key(2), 3_000_000).is_some());
}

#[test]
fn out_of_bounds_index_triggers_refresh_and_resolves_cleanly() {
    // The cached table has 5 addresses; the lookup references index 7.
    let lookup = MessageAddressTableLookup {
        account_key: key(1),
        writable_indexes: vec![7],
        readonly_indexes: vec![0],
    };
    assert!(needs_refresh(&lookup, 5));
    // After the forced refresh the table has 10 addresses.
    assert!(!needs_refresh(&lookup, 10));
    let base = vec![key(9)];
    let resolved = resolve_address_lookups(
        &base,
        &vec![lookup],
        &vec![LookupResolution::Resolved(addresses(10))],
    );
    // base, then readonly index 0, then writable index 7; no placeholder.
    assert_eq!(resolved.len(), 3);
    assert_eq!(resolved[0], key(9));
    assert_eq!(resolved[1], vec![100u8; 32]);
    assert_eq!(resolved[2], vec![107u8; 32]);
}

#[test]
fn out_of_bounds_forces_one_refresh_and_uses_the_refreshed_table() {
    // The cached table has 5 addresses; the lookup references index 7; the
    // forced refresh returns a table of 10.
    let mut cache = AddressLookupTableCache::new("http://localhost:8899", 300);
    let table = key(1);
    cache.apply_fetch_result(&table, 0, Some(addresses(5))).unwrap();
    let lookup = MessageAddressTableLookup {
        account_key: table.clone(),
        writable_indexes: vec![7],
        readonly_indexes: vec![],
    };
    let resolution = resolve_lookup_with_refresh(&mut cache, &lookup, 1_000, None, Some(addresses(10)));
    match resolution {
        LookupResolution::Resolved(a) => assert_eq!(a.len(), 10),
        LookupResolution::Failed => panic!("resolution failed"),
    }
    // The refreshed table replaced the cache entry.
    assert_eq!(cache.get_lookup_table_addresses(&table, 2_000).unwrap().len(), 10);
    // Resolving with the refreshed table emits no placeholder.
    let resolved = resolve_address_lookups(
        &Vec::new(),
        &vec![lookup],
        &vec![LookupResolution::Resolved(addresses(10))],
    );
    assert_eq!(resolved, vec![vec![107u8; 32]]);
}

#[test]
fn failed_refresh_keeps_the_old_table() {
    let mut cache = AddressLookupTableCache::new("http://localhost:8899", 300);
    let table = key(1);
    cache.apply_fetch_result(&table, 0, Some(addresses(5))).unwrap();
    let lookup = MessageAddressTableLookup {
        account_key: table.clone(),
        writable_indexes: vec![7],
        readonly_indexes: vec![],
    };
    let resolution = resolve_lookup_with_refresh(&mut cache, &lookup, 1_000, None, None);
    match resolution {
        LookupResolution::Resolved(a) => assert_eq!(a, addresses(5)),
        LookupResolution::Failed => panic!("resolution failed"),
    }
}

#[test]
fn cold_miss_without_fetch_fails_the_lookup() {
    let mut cache = AddressLookupTableCache::new("http://localhost:8899", 300);
    let lookup = MessageAddressTableLookup {
        account_key: key(9),
        writable_indexes: vec![0],
        readonly_indexes: vec![],
    };
    let resolution = resolve_lookup_with_refresh(&mut cache, &lookup, 0, None, None);
    assert!(matches!(resolution, LookupResolution::Failed));
    // The failure wrote the invalid marker that suppresses near-term retries.
    let (total, valid) = cache.get_cache_stats();
    assert_eq!((total, valid), (1, 0));
}

#[test]
fn persistent_out_of_bounds_substitutes_placeholder() {
    let lookup = MessageAddressTableLookup {
        account_key: key(1),
        writable_indexes: vec![9],
        readonly_indexes: vec![],
    };
    let resolved = resolve_address_lookups(
        &Vec::new(),
        &vec![lookup],
        &vec![LookupResolution::Resolved(addresses(5))],
    );
    assert_eq!(resolved, vec![zero_address()]);
}

#[test]
fn failed_lookup_substitutes_placeholders_and_continues() {
    let failed = MessageAddressTableLookup {
        account_key: key(1),
        writable_indexes: vec![0, 1],
        readonly_indexes: vec![2],
    };
    let good = MessageAddressTableLookup {
        account_key: key(2),
        writable_indexes: vec![],
        readonly_indexes: vec![0],
    };
    let resolved = resolve_address_lookups(
        &vec![key(8)],
        &vec![failed, good],
        &vec![LookupResolution::Failed, LookupResolution::Resolved(addresses(1))],
    );
    assert_eq!(resolved.len(), 5);
    assert_eq!(resolved[0], key(8));
    assert_eq!(resolved[1], zero_address());
    assert_eq!(resolved[2], zero_address());
    assert_eq!(resolved[3], zero_address());
    assert_eq!(resolved[4], vec![100u8; 32]);
}

#[test]
fn readonly_addresses_come_before_writable_addresses() {
    let lookup = MessageAddressTableLookup {
        account_key: key(1),
        writable_indexes: vec![0],
        readonly_indexes: vec![1],
    };
    let resolved = resolve_address_lookups(
        &Vec::new(),
        &vec![lookup],
        &vec![LookupResolution::Resolved(addresses(2))],
    );
    assert_eq!(resolved[0], vec![101u8; 32]);
    assert_eq!(resolved[1], vec![100u8; 32]);
}

#[test]
fn legacy_transaction_resolves_to_inline_keys() {
    let base = vec![key(1), key(2)];
    let resolved = resolve_transaction_account_keys(&base, &None, &Vec::new());
    assert_eq!(resolved, base);
}

fn extend_tx(table: Vec<u8>) -> VersionedTransaction {
    VersionedTransaction {
        signatures: vec![vec![0u8; 64]],
        header: MessageHeader {
            num_required_signatures: 1,
            num_readonly_signed_accounts: 0,
            num_readonly_unsigned_accounts: 0,
        },
        account_keys: vec![table, address_lookup_table_program_id()],
        recent_blockhash: vec![0u8; 32],
        instructions: vec![CompiledInstruction {
            program_id_index: 1,
            accounts: vec![0],
            data: vec![2, 0, 0, 0],
        }],
        address_table_lookups: None,
    }
}

#[test]
fn extend_instruction_is_detected() {
    let tx = extend_tx(key(4));
    assert!(is_extend_lookup_table_instruction(&tx.instructions[0], &tx.account_keys));
    let target = extract_lookup_table_from_instruction(&tx.instructions[0], &tx.account_keys);
    assert_eq!(target, Some(key(4)));
}

#[test]
fn wrong_discriminator_is_not_an_extension() {
    let mut tx = extend_tx(key(4));
    tx.instructions[0].data = vec![3, 0, 0, 0];
    assert!(!is_extend_lookup_table_instruction(&tx.instructions[0], &tx.account_keys));
}

#[test]
fn observed_extension_invalidates_the_cache_entry() {
    let mut cache = AddressLookupTableCache::new("http://localhost:8899", 300);
    let table = key(4);
    cache.apply_fetch_result(&table, 0, Some(addresses(3))).unwrap();
    assert!(cache.get_lookup_table_addresses(&table, 1_000).is_some());
    cache.process_transaction_for_extensions(&extend_tx(table.clone()));
    // The next resolve against the table cannot hit: it must fetch.
    assert!(cache.get_lookup_table_addresses(&table, 1_000).is_none());
    let (total, _) = cache.get_cache_stats();
    assert_eq!(total, 0);
}

#[test]
fn extension_for_another_table_leaves_entries_alone() {
    let mut cache = AddressLookupTableCache::new("http://localhost:8899", 300);
    cache.apply_fetch_result(&key(5), 0, Some(addresses(2))).unwrap();
    cache.process_transaction_for_extensions(&extend_tx(key(6)));
    assert!(cache.get_lookup_table_addresses(&key(5), 1_000).is_some());
}
