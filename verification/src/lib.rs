//! Shred-stream decoder: reconstructs block payloads from forward-error-corrected
//! shred packets, extracts the transactions they carry, resolves versioned-transaction
//! account keys through an address-lookup-table cache, and decodes instructions of a
//! fixed family of on-chain programs into normalized records.

use vstd::prelude::*;

pub mod alt_cache;
pub mod boop_decoding;
pub mod bytes;
pub mod decoder;
pub mod record;
pub mod deshred;
pub mod entries;
pub mod fec;
pub mod meteora_amm_v2_decoding;
pub mod meteora_vcurve_decoding;
pub mod meteoradyn_decoding;
pub mod moonit_decoding;
pub mod orca_decoding;
pub mod process;
pub mod programs;
pub mod pumpamm_decoding;
pub mod pumpfun_decoding;
pub mod raydium_cpmm_decoding;
pub mod raydium_decoding;
pub mod raydium_launchlab_decoding;
pub mod shred;
pub mod stats;
pub mod txn;

verus! {

/// A 32-byte on-chain address.
pub type Pubkey = Vec<u8>;

/// Well-formedness of an address: exactly 32 bytes.
pub open spec fn pubkey_wf(k: Seq<u8>) -> bool {
    k.len() == 32
}

/// Byte-for-byte equality of two addresses.
pub fn pubkey_eq(a: &Pubkey, b: &Pubkey) -> (r: bool)
    ensures
        r == (a@ == b@),
{
    if a.len() != b.len() {
        return false;
    }
    let n = a.len();
    let mut i: usize = 0;
    while i < n
        invariant
            n == a@.len() == b@.len(),
            i <= n,
            forall|j: int| 0 <= j < i ==> a@[j] == b@[j],
        decreases n - i,
    {
        if a[i] != b[i] {
            return false;
        }
        i = i + 1;
    }
    assert(a@ =~= b@);
    true
}

} // verus!
