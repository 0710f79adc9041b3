//! Tests of the byte-walker primitives, the hex and base58 rendering, and
//! the entry wire parser.

use shredstream::bytes::{
    parse_bool, parse_i32, parse_option_u64, parse_string, parse_u128, parse_u16, parse_u32,
    parse_u64, parse_u8, parse_vec, parse_vec_string, parse_vec_u16, parse_vec_u32, parse_vec_u64,
    parse_vec_u8, parse_pubkey, parse_vec_pubkey, ParseError,
};
use shredstream::entries::{parse_entries, parse_short_u16, flatten_entry_transactions};
use shredstream::record::to_hex_string;

#[test]
fn parse_u64_reads_little_endian() {
    let data = [0x01u8, 0x02, 0x03, 0x04, 0x05, 0x06, 0x07, 0x08];
    let mut offset = 0usize;
    let v = parse_u64(&data, &mut offset).unwrap();
    assert_eq!(v, 0x0807060504030201);
    assert_eq!(offset, 8);
}

#[test]
fn parse_u32_u16_u8_read_little_endian() {
    let data = [0xddu8, 0xcc, 0xbb, 0xaa, 0x34, 0x12, 0x7f];
    let mut offset = 0usize;
    assert_eq!(parse_u32(&data, &mut offset).unwrap(), 0xaabbccdd);
    assert_eq!(parse_u16(&data, &mut offset).unwrap(), 0x1234);
    assert_eq!(parse_u8(&data, &mut offset).unwrap(), 0x7f);
    assert_eq!(offset, 7);
}

#[test]
fn parse_u128_reads_sixteen_bytes() {
    let mut data = vec![0u8; 16];
    data[0] = 1;
    data[15] = 2;
    let mut offset = 0usize;
    let v = parse_u128(&data, &mut offset).unwrap();
    assert_eq!(v, 1 + (2u128 << 120));
}

#[test]
fn parse_i32_reads_negative_values() {
    let data = (-5i32).to_le_bytes();
    let mut offset = 0usize;
    assert_eq!(parse_i32(&data, &mut offset).unwrap(), -5);
}

#[test]
fn parse_bool_is_nonzero_test() {
    let data = [0u8, 1, 7];
    let mut offset = 0usize;
    assert!(!parse_bool(&data, &mut offset).unwrap());
    assert!(parse_bool(&data, &mut offset).unwrap());
    assert!(parse_bool(&data, &mut offset).unwrap());
}

#[test]
fn insufficient_bytes_do_not_advance() {
    let data = [1u8, 2, 3];
    let mut offset = 1usize;
    assert_eq!(parse_u32(&data, &mut offset), Err(ParseError::Insufficient));
    assert_eq!(offset, 1);
}

#[test]
fn parse_string_reads_length_prefixed_utf8() {
    let mut data = 5u32.to_le_bytes().to_vec();
    data.extend_from_slice(b"salut");
    data.push(0xff);
    let mut offset = 0usize;
    let s = parse_string(&data, &mut offset).unwrap();
    assert_eq!(s, "salut");
    assert_eq!(offset, 9);
}

#[test]
fn parse_string_rejects_invalid_utf8() {
    let mut data = 2u32.to_le_bytes().to_vec();
    data.extend_from_slice(&[0xff, 0xfe]);
    let mut offset = 0usize;
    assert_eq!(parse_string(&data, &mut offset), Err(ParseError::InvalidUtf8));
    assert_eq!(offset, 0);
}

#[test]
fn parse_option_u64_reads_both_tags() {
    let mut data = vec![0u8];
    data.push(1);
    data.extend_from_slice(&42u64.to_le_bytes());
    data.push(2);
    let mut offset = 0usize;
    assert_eq!(parse_option_u64(&data, &mut offset).unwrap(), None);
    assert_eq!(parse_option_u64(&data, &mut offset).unwrap(), Some(42));
    assert_eq!(parse_option_u64(&data, &mut offset), Err(ParseError::InvalidDiscriminant));
}

#[test]
fn parse_vec_u64_reads_counted_list() {
    let mut data = 2u32.to_le_bytes().to_vec();
    data.extend_from_slice(&10u64.to_le_bytes());
    data.extend_from_slice(&20u64.to_le_bytes());
    let mut offset = 0usize;
    assert_eq!(parse_vec_u64(&data, &mut offset).unwrap(), vec![10, 20]);
    assert_eq!(offset, 20);
}

#[test]
fn parse_vec_variants_read_counted_lists() {
    let mut data = 2u32.to_le_bytes().to_vec();
    data.extend_from_slice(&7u16.to_le_bytes());
    data.extend_from_slice(&8u16.to_le_bytes());
    let mut offset = 0usize;
    assert_eq!(parse_vec_u16(&data, &mut offset).unwrap(), vec![7, 8]);

    let mut data32 = 1u32.to_le_bytes().to_vec();
    data32.extend_from_slice(&9u32.to_le_bytes());
    let mut offset32 = 0usize;
    assert_eq!(parse_vec_u32(&data32, &mut offset32).unwrap(), vec![9]);

    let mut data8 = 3u32.to_le_bytes().to_vec();
    data8.extend_from_slice(&[4, 5, 6]);
    let mut offset8 = 0usize;
    assert_eq!(parse_vec_u8(&data8, &mut offset8).unwrap(), vec![4, 5, 6]);
}

#[test]
fn parse_vec_string_reads_counted_strings() {
    let mut data = 2u32.to_le_bytes().to_vec();
    data.extend_from_slice(&2u32.to_le_bytes());
    data.extend_from_slice(b"ab");
    data.extend_from_slice(&1u32.to_le_bytes());
    data.extend_from_slice(b"c");
    let mut offset = 0usize;
    assert_eq!(parse_vec_string(&data, &mut offset).unwrap(), vec!["ab".to_string(), "c".to_string()]);
}

#[test]
fn parse_vec_with_custom_parser() {
    let mut data = 2u32.to_le_bytes().to_vec();
    data.extend_from_slice(&[3, 4]);
    let mut offset = 0usize;
    let parsed = parse_vec(&data, &mut offset, |d: &[u8], o: usize| {
        if o < d.len() {
            Ok((d[o] as u32 * 2, o + 1))
        } else {
            Err(ParseError::Insufficient)
        }
    })
    .unwrap();
    assert_eq!(parsed, vec![6, 8]);
}

#[test]
fn parse_pubkey_copies_thirty_two_bytes() {
    let mut data = vec![9u8; 32];
    data[0] = 1;
    let mut offset = 0usize;
    let k = parse_pubkey(&data, &mut offset).unwrap();
    assert_eq!(k.len(), 32);
    assert_eq!(k[0], 1);

    let mut vdata = 1u32.to_le_bytes().to_vec();
    vdata.extend_from_slice(&[3u8; 32]);
    let mut voffset = 0usize;
    let keys = parse_vec_pubkey(&vdata, &mut voffset).unwrap();
    assert_eq!(keys.len(), 1);
    assert_eq!(keys[0], vec![3u8; 32]);
}

#[test]
fn hex_rendering_is_lowercase_two_digits_per_byte() {
    assert_eq!(to_hex_string(&[0x00, 0xff, 0x1a]), "00ff1a");
    assert_eq!(to_hex_string(&[]), "");
}

#[test]
fn short_u16_reads_all_widths() {
    let mut offset = 0usize;
    assert_eq!(parse_short_u16(&[0x05], &mut offset).unwrap(), 5);
    let mut offset = 0usize;
    assert_eq!(parse_short_u16(&[0x80, 0x01], &mut offset).unwrap(), 128);
    assert_eq!(offset, 2);
    let mut offset = 0usize;
    assert_eq!(parse_short_u16(&[0xff, 0xff, 0x03], &mut offset).unwrap(), 0xffff);
}

#[test]
fn short_u16_rejects_redundant_zero_continuation() {
    let mut offset = 0usize;
    assert_eq!(parse_short_u16(&[0x80, 0x00], &mut offset), Err(ParseError::InvalidDiscriminant));
}

fn legacy_tx_bytes(program_index: u8, ix_data: &[u8], n_keys: u8, n_accounts: u8) -> Vec<u8> {
    let mut v = Vec::new();
    // one 64-byte signature
    v.push(1u8);
    v.extend_from_slice(&[7u8; 64]);
    // header
    v.extend_from_slice(&[1, 0, 1]);
    // account keys
    v.push(n_keys);
    for k in 0..n_keys {
        v.extend_from_slice(&[k + 1; 32]);
    }
    // blockhash
    v.extend_from_slice(&[9u8; 32]);
    // one instruction
    v.push(1u8);
    v.push(program_index);
    v.push(n_accounts);
    for a in 0..n_accounts {
        v.push(a);
    }
    v.push(ix_data.len() as u8);
    v.extend_from_slice(ix_data);
    v
}

#[test]
fn parse_entries_reads_a_legacy_transaction() {
    let tx = legacy_tx_bytes(2, &[0xAA, 0xBB], 3, 2);
    let mut payload = 1u64.to_le_bytes().to_vec();
    payload.extend_from_slice(&11u64.to_le_bytes());
    payload.extend_from_slice(&[3u8; 32]);
    payload.extend_from_slice(&1u64.to_le_bytes());
    payload.extend_from_slice(&tx);

    let entries = parse_entries(&payload).unwrap();
    assert_eq!(entries.len(), 1);
    assert_eq!(entries[0].num_hashes, 11);
    assert_eq!(entries[0].hash, vec![3u8; 32]);
    let txs = flatten_entry_transactions(entries);
    assert_eq!(txs.len(), 1);
    let t = &txs[0];
    assert_eq!(t.signatures.len(), 1);
    assert_eq!(t.signatures[0], vec![7u8; 64]);
    assert_eq!(t.header.num_required_signatures, 1);
    assert_eq!(t.header.num_readonly_unsigned_accounts, 1);
    assert_eq!(t.account_keys.len(), 3);
    assert_eq!(t.account_keys[1], vec![2u8; 32]);
    assert_eq!(t.recent_blockhash, vec![9u8; 32]);
    assert!(t.address_table_lookups.is_none());
    assert_eq!(t.instructions.len(), 1);
    assert_eq!(t.instructions[0].program_id_index, 2);
    assert_eq!(t.instructions[0].accounts, vec![0, 1]);
    assert_eq!(t.instructions[0].data, vec![0xAA, 0xBB]);
}

#[test]
fn parse_entries_reads_a_v0_transaction_with_lookups() {
    let mut tx = Vec::new();
    tx.push(1u8);
    tx.extend_from_slice(&[7u8; 64]);
    tx.push(0x80); // v0 marker
    tx.extend_from_slice(&[1, 0, 0]);
    tx.push(1u8); // one inline key
    tx.extend_from_slice(&[1u8; 32]);
    tx.extend_from_slice(&[9u8; 32]); // blockhash
    tx.push(0u8); // no instructions
    tx.push(1u8); // one lookup
    tx.extend_from_slice(&[5u8; 32]); // table key
    tx.push(2u8); // writable indexes
    tx.extend_from_slice(&[0, 1]);
    tx.push(1u8); // readonly indexes
    tx.extend_from_slice(&[2]);

    let mut payload = 1u64.to_le_bytes().to_vec();
    payload.extend_from_slice(&0u64.to_le_bytes());
    payload.extend_from_slice(&[0u8; 32]);
    payload.extend_from_slice(&1u64.to_le_bytes());
    payload.extend_from_slice(&tx);

    let entries = parse_entries(&payload).unwrap();
    let txs = flatten_entry_transactions(entries);
    let lookups = txs[0].address_table_lookups.as_ref().unwrap();
    assert_eq!(lookups.len(), 1);
    assert_eq!(lookups[0].account_key, vec![5u8; 32]);
    assert_eq!(lookups[0].writable_indexes, vec![0, 1]);
    assert_eq!(lookups[0].readonly_indexes, vec![2]);
}

#[test]
fn parse_entries_preserves_wire_order() {
    let tx1 = legacy_tx_bytes(1, &[0x01], 2, 1);
    let tx2 = legacy_tx_bytes(1, &[0x02], 2, 1);
    let tx3 = legacy_tx_bytes(1, &[0x03], 2, 1);
    let mut payload = 2u64.to_le_bytes().to_vec();
    payload.extend_from_slice(&1u64.to_le_bytes());
    payload.extend_from_slice(&[0u8; 32]);
    payload.extend_from_slice(&2u64.to_le_bytes());
    payload.extend_from_slice(&tx1);
    payload.extend_from_slice(&tx2);
    payload.extend_from_slice(&2u64.to_le_bytes());
    payload.extend_from_slice(&[0u8; 32]);
    payload.extend_from_slice(&1u64.to_le_bytes());
    payload.extend_from_slice(&tx3);

    let entries = parse_entries(&payload).unwrap();
    assert_eq!(entries.len(), 2);
    let txs = flatten_entry_transactions(entries);
    assert_eq!(txs.len(), 3);
    let datas: Vec<u8> = txs.iter().map(|t| t.instructions[0].data[0]).collect();
    assert_eq!(datas, vec![0x01, 0x02, 0x03]);
}

#[test]
fn parse_entries_rejects_truncated_payload() {
    let payload = 1u64.to_le_bytes().to_vec();
    assert!(parse_entries(&payload).is_err());
}
