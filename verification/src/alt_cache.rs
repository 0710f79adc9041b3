//! Address-lookup-table cache: maps an on-chain table key to the table's
//! address list, with a TTL, a stale-valid fallback when a fetch fails, an
//! invalid marker that suppresses rapid refetching, and invalidation driven
//! by observed extend-table instructions.  The cache itself never performs a
//! fetch: the caller asks whether a key is fresh, performs the fetch outside,
//! and hands the outcome back.

use vstd::prelude::*;
use crate::{Pubkey, pubkey_eq};
use crate::txn::{VersionedTransaction, CompiledInstruction, MessageAddressTableLookup};
use crate::programs::sp_address_lookup_table_program_id;

verus! {

/// Why a lookup-table resolution failed.
#[derive(Clone, Copy, Debug, PartialEq, Eq, Structural)]
pub enum AltError {
    /// The outside fetch failed and no stale valid entry could stand in.
    FetchFailed,
}

/// Cache entry for a lookup table.
#[derive(Clone, Debug)]
pub struct LookupTableCacheEntry {
    pub addresses: Vec<Pubkey>,
    /// When this entry was written, in microseconds.
    pub last_updated: u64,
    /// False for the marker entry written after a failed fetch.
    pub is_valid: bool,
}

/// The cache: entries keyed by table key (key bytes are unique), the remote
/// endpoint the caller should fetch from, and the TTL.
pub struct AddressLookupTableCache {
    pub cache: Vec<(Pubkey, LookupTableCacheEntry)>,
    pub rpc_endpoint: String,
    pub cache_ttl_micros: u64,
}

/// Key-byte uniqueness of the entry list.
pub open spec fn sp_alt_keys_unique(s: Seq<(Pubkey, LookupTableCacheEntry)>) -> bool {
    forall|i: int, j: int|
        0 <= i < j < s.len() ==> (#[trigger] s[i].0)@ != (#[trigger] s[j].0)@
}

/// The entry stored under key bytes `k`.
pub open spec fn sp_alt_lookup(s: Seq<(Pubkey, LookupTableCacheEntry)>, k: Seq<u8>) -> Option<
    LookupTableCacheEntry,
>
    decreases s.len(),
{
    if s.len() == 0 {
        None
    } else if s[0].0@ == k {
        Some(s[0].1)
    } else {
        sp_alt_lookup(s.drop_first(), k)
    }
}

/// The views of a list of addresses.
pub open spec fn sp_addr_views(a: Seq<Pubkey>) -> Seq<Seq<u8>> {
    a.map_values(|k: Pubkey| k@)
}

/// A present key is found at its position, provided keys are unique.
pub proof fn lemma_alt_lookup_at(s: Seq<(Pubkey, LookupTableCacheEntry)>, k: Seq<u8>, i: int)
    requires
        sp_alt_keys_unique(s),
        0 <= i < s.len(),
        s[i].0@ == k,
    ensures
        sp_alt_lookup(s, k) == Some(s[i].1),
    decreases s.len(),
{
    if i > 0 {
        assert(sp_alt_keys_unique(s.drop_first())) by {
            assert(forall|p: int| 0 <= p < s.drop_first().len() ==> s.drop_first()[p] == s[p + 1]);
        }
        lemma_alt_lookup_at(s.drop_first(), k, i - 1);
    }
}

/// An absent key is not found.
pub proof fn lemma_alt_lookup_absent(s: Seq<(Pubkey, LookupTableCacheEntry)>, k: Seq<u8>)
    requires
        forall|i: int| 0 <= i < s.len() ==> (#[trigger] s[i].0)@ != k,
    ensures
        sp_alt_lookup(s, k) is None,
    decreases s.len(),
{
    if s.len() > 0 {
        assert(forall|p: int| 0 <= p < s.drop_first().len() ==> s.drop_first()[p] == s[p + 1]);
        lemma_alt_lookup_absent(s.drop_first(), k);
    }
}

/// Appending a fresh key binds it and leaves other keys' bindings alone.
pub proof fn lemma_alt_lookup_push(
    s: Seq<(Pubkey, LookupTableCacheEntry)>,
    kv: (Pubkey, LookupTableCacheEntry),
    q: Seq<u8>,
)
    requires
        sp_alt_lookup(s, kv.0@) is None,
    ensures
        sp_alt_lookup(s.push(kv), q) == (if q == kv.0@ {
            Some(kv.1)
        } else {
            sp_alt_lookup(s, q)
        }),
    decreases s.len(),
{
    if s.len() == 0 {
        assert(s.push(kv)[0] == kv);
        assert(s.push(kv).drop_first() =~= Seq::<(Pubkey, LookupTableCacheEntry)>::empty());
        if q != kv.0@ {
            assert(sp_alt_lookup(s.push(kv), q) == sp_alt_lookup(
                Seq::<(Pubkey, LookupTableCacheEntry)>::empty(),
                q,
            ));
        }
    } else {
        assert(s.push(kv)[0] == s[0]);
        assert(s.push(kv).drop_first() =~= s.drop_first().push(kv));
        lemma_alt_lookup_push(s.drop_first(), kv, q);
    }
}

/// Removing position `i` unbinds its key and leaves other keys' bindings
/// alone, provided keys are unique.
pub proof fn lemma_alt_lookup_remove(s: Seq<(Pubkey, LookupTableCacheEntry)>, i: int, q: Seq<u8>)
    requires
        sp_alt_keys_unique(s),
        0 <= i < s.len(),
    ensures
        sp_alt_lookup(s.remove(i), q) == (if q == s[i].0@ {
            None
        } else {
            sp_alt_lookup(s, q)
        }),
        sp_alt_keys_unique(s.remove(i)),
    decreases s.len(),
{
    assert(forall|p: int|
        0 <= p < s.remove(i).len() ==> s.remove(i)[p] == (if p < i {
            s[p]
        } else {
            s[p + 1]
        }));
    if i == 0 {
        assert(s.remove(0) =~= s.drop_first());
        if q == s[0].0@ {
            lemma_alt_lookup_absent(s.drop_first(), q);
        }
    } else {
        assert(sp_alt_keys_unique(s.drop_first())) by {
            assert(forall|p: int| 0 <= p < s.drop_first().len() ==> s.drop_first()[p] == s[p + 1]);
        }
        lemma_alt_lookup_remove(s.drop_first(), i - 1, q);
        assert(s.remove(i).drop_first() =~= s.drop_first().remove(i - 1));
        assert(s.remove(i)[0] == s[0]);
    }
}

/// A fresh, usable entry: present, valid, and within the TTL.
pub open spec fn sp_cache_hit(c: AddressLookupTableCache, k: Seq<u8>, now: u64) -> bool {
    sp_alt_lookup(c.cache@, k) matches Some(e) && e.is_valid && now - e.last_updated
        < c.cache_ttl_micros
}

/// Copy a list of addresses byte for byte.
pub fn clone_pubkeys(a: &Vec<Pubkey>) -> (r: Vec<Pubkey>)
    ensures
        sp_addr_views(r@) == sp_addr_views(a@),
        r@.len() == a@.len(),
{
    let mut r: Vec<Pubkey> = Vec::new();
    let n = a.len();
    let mut i: usize = 0;
    while i < n
        invariant
            n == a@.len(),
            i <= n,
            r@.len() == i,
            forall|j: int| 0 <= j < i ==> (#[trigger] r@[j])@ == a@[j]@,
        decreases n - i,
    {
        let k = &a[i];
        r.push(crate::bytes::copy_range(k.as_slice(), 0, k.len()));
        i = i + 1;
    }
    proof {
        assert(sp_addr_views(r@) =~= sp_addr_views(a@));
    }
    r
}

/// Copy one address byte for byte.
pub fn clone_pubkey(k: &Pubkey) -> (r: Pubkey)
    ensures
        r@ == k@,
{
    let r = crate::bytes::copy_range(k.as_slice(), 0, k.len());
    proof {
        assert(r@ =~= k@);
    }
    r
}

impl AddressLookupTableCache {
    /// Internal consistency: keys unique.
    pub open spec fn wf(self) -> bool {
        sp_alt_keys_unique(self.cache@)
    }

    /// An empty cache for tables served by `rpc_endpoint`, with entries
    /// fresh for `cache_ttl_seconds`.
    pub fn new(rpc_endpoint: &str, cache_ttl_seconds: u64) -> (r: AddressLookupTableCache)
        requires
            cache_ttl_seconds <= 0xffff_ffff,
        ensures
            r.wf(),
            r.cache@ == Seq::<(Pubkey, LookupTableCacheEntry)>::empty(),
            r.rpc_endpoint@ == rpc_endpoint@,
            r.cache_ttl_micros == cache_ttl_seconds * 1_000_000,
    {
        AddressLookupTableCache {
            cache: Vec::new(),
            rpc_endpoint: rpc_endpoint.to_owned(),
            cache_ttl_micros: cache_ttl_seconds * 1_000_000,
        }
    }

    /// Position of the entry for `key`, if any.
    fn find_entry_index(&self, key: &Pubkey) -> (r: Option<usize>)
        ensures
            match r {
                Some(i) => i < self.cache@.len() && self.cache@[i as int].0@ == key@,
                None => forall|i: int| 0 <= i < self.cache@.len() ==> (#[trigger] self.cache@[i].0)@
                    != key@,
            },
    {
        let n = self.cache.len();
        let mut i: usize = 0;
        while i < n
            invariant
                n == self.cache@.len(),
                i <= n,
                forall|j: int| 0 <= j < i ==> (#[trigger] self.cache@[j].0)@ != key@,
            decreases n - i,
        {
            if pubkey_eq(&self.cache[i].0, key) {
                return Some(i);
            }
            i = i + 1;
        }
        None
    }

    /// The addresses of `key` when its entry is a hit: present, valid and
    /// within the TTL.  `None` asks the caller to fetch from the remote
    /// endpoint and hand the outcome to `apply_fetch_result`.
    pub fn get_lookup_table_addresses(&self, lookup_table_pubkey: &Pubkey, now: u64) -> (r: Option<
        Vec<Pubkey>,
    >)
        requires
            self.wf(),
        ensures
            match r {
                Some(a) => sp_cache_hit(*self, lookup_table_pubkey@, now) && (sp_alt_lookup(
                    self.cache@,
                    lookup_table_pubkey@,
                ) matches Some(e) && sp_addr_views(a@) == sp_addr_views(e.addresses@)),
                None => !sp_cache_hit(*self, lookup_table_pubkey@, now),
            },
    {
        match self.find_entry_index(lookup_table_pubkey) {
            Some(i) => {
                proof {
                    lemma_alt_lookup_at(self.cache@, lookup_table_pubkey@, i as int);
                }
                let e = &self.cache[i].1;
                let fresh = e.last_updated > now || now - e.last_updated < self.cache_ttl_micros;
                if e.is_valid && fresh {
                    Some(clone_pubkeys(&e.addresses))
                } else {
                    None
                }
            },
            None => {
                proof {
                    lemma_alt_lookup_absent(self.cache@, lookup_table_pubkey@);
                }
                None
            },
        }
    }

    /// Write `entry` under `key`, replacing any entry standing there.
    fn upsert(&mut self, key: &Pubkey, entry: LookupTableCacheEntry)
        requires
            old(self).wf(),
        ensures
            final(self).wf(),
            final(self).cache_ttl_micros == old(self).cache_ttl_micros,
            final(self).rpc_endpoint == old(self).rpc_endpoint,
            sp_alt_lookup(final(self).cache@, key@) == Some(entry),
            forall|q: Seq<u8>|
                q != key@ ==> #[trigger] sp_alt_lookup(final(self).cache@, q) == sp_alt_lookup(
                    old(self).cache@,
                    q,
                ),
    {
        let k = clone_pubkey(key);
        match self.find_entry_index(key) {
            Some(i) => {
                let ghost c0 = self.cache@;
                let _ = self.cache.remove(i);
                proof {
                    lemma_alt_lookup_remove(c0, i as int, key@);
                    assert forall|q: Seq<u8>| true implies #[trigger] sp_alt_lookup(
                        self.cache@,
                        q,
                    ) == (if q == key@ {
                        None::<LookupTableCacheEntry>
                    } else {
                        sp_alt_lookup(c0, q)
                    }) by {
                        lemma_alt_lookup_remove(c0, i as int, q);
                    }
                }
                let ghost c1 = self.cache@;
                self.cache.push((k, entry));
                proof {
                    assert forall|q: Seq<u8>| true implies #[trigger] sp_alt_lookup(
                        self.cache@,
                        q,
                    ) == (if q == key@ {
                        Some(entry)
                    } else {
                        sp_alt_lookup(c1, q)
                    }) by {
                        lemma_alt_lookup_push(c1, (k, entry), q);
                    }
                    assert(forall|p: int| 0 <= p < c1.len() ==> self.cache@[p] == c1[p]);
                    assert forall|p: int, q: int|
                        0 <= p < q < self.cache@.len() implies (#[trigger] self.cache@[p].0)@ != (
                    #[trigger] self.cache@[q].0)@ by {
                        if q == self.cache@.len() - 1 {
                            if self.cache@[p].0@ == key@ {
                                lemma_alt_lookup_at(c1, key@, p);
                            }
                        }
                    }
                }
            },
            None => {
                proof {
                    lemma_alt_lookup_absent(self.cache@, key@);
                }
                let ghost c1 = self.cache@;
                self.cache.push((k, entry));
                proof {
                    assert forall|q: Seq<u8>| true implies #[trigger] sp_alt_lookup(
                        self.cache@,
                        q,
                    ) == (if q == key@ {
                        Some(entry)
                    } else {
                        sp_alt_lookup(c1, q)
                    }) by {
                        lemma_alt_lookup_push(c1, (k, entry), q);
                    }
                    assert(forall|p: int| 0 <= p < c1.len() ==> self.cache@[p] == c1[p]);
                    assert forall|p: int, q: int|
                        0 <= p < q < self.cache@.len() implies (#[trigger] self.cache@[p].0)@ != (
                    #[trigger] self.cache@[q].0)@ by {
                        if q == self.cache@.len() - 1 {
                            if self.cache@[p].0@ == key@ {
                                lemma_alt_lookup_at(c1, key@, p);
                            }
                        }
                    }
                }
            },
        }
    }

    /// Record the outcome of a fetch made after a miss.  A successful fetch
    /// writes a fresh valid entry and returns the addresses.  A failed fetch
    /// falls back to a stale valid entry if one stands (the entry is kept);
    /// otherwise an invalid marker entry is written, so that near-term
    /// arrivals do not refetch, and the failure surfaces.
    pub fn apply_fetch_result(
        &mut self,
        lookup_table_pubkey: &Pubkey,
        now: u64,
        fetched: Option<Vec<Pubkey>>,
    ) -> (r: Result<Vec<Pubkey>, AltError>)
        requires
            old(self).wf(),
        ensures
            final(self).wf(),
            final(self).cache_ttl_micros == old(self).cache_ttl_micros,
            forall|q: Seq<u8>|
                q != lookup_table_pubkey@ ==> #[trigger] sp_alt_lookup(final(self).cache@, q)
                    == sp_alt_lookup(old(self).cache@, q),
            match fetched {
                Some(addrs) => {
                    &&& (r matches Ok(a) && sp_addr_views(a@) == sp_addr_views(addrs@))
                    &&& (sp_alt_lookup(final(self).cache@, lookup_table_pubkey@) matches Some(e)
                        && e.is_valid && e.last_updated == now && sp_addr_views(e.addresses@)
                        == sp_addr_views(addrs@))
                },
                None => {
                    if sp_alt_lookup(old(self).cache@, lookup_table_pubkey@) matches Some(e)
                        && e.is_valid {
                        &&& (r matches Ok(a) && (sp_alt_lookup(
                            old(self).cache@,
                            lookup_table_pubkey@,
                        ) matches Some(e2) && sp_addr_views(a@) == sp_addr_views(e2.addresses@)))
                        &&& sp_alt_lookup(final(self).cache@, lookup_table_pubkey@)
                            == sp_alt_lookup(old(self).cache@, lookup_table_pubkey@)
                    } else {
                        &&& r == Err::<Vec<Pubkey>, AltError>(AltError::FetchFailed)
                        &&& (sp_alt_lookup(final(self).cache@, lookup_table_pubkey@) matches Some(
                            e,
                        ) && !e.is_valid && e.last_updated == now && e.addresses@.len() == 0)
                    }
                },
            },
    {
        match fetched {
            Some(addrs) => {
                let stored = clone_pubkeys(&addrs);
                self.upsert(
                    lookup_table_pubkey,
                    LookupTableCacheEntry { addresses: stored, last_updated: now, is_valid: true },
                );
                Ok(addrs)
            },
            None => {
                match self.find_entry_index(lookup_table_pubkey) {
                    Some(i) => {
                        proof {
                            lemma_alt_lookup_at(self.cache@, lookup_table_pubkey@, i as int);
                        }
                        if self.cache[i].1.is_valid {
                            return Ok(clone_pubkeys(&self.cache[i].1.addresses));
                        }
                        self.upsert(
                            lookup_table_pubkey,
                            LookupTableCacheEntry {
                                addresses: Vec::new(),
                                last_updated: now,
                                is_valid: false,
                            },
                        );
                        Err(AltError::FetchFailed)
                    },
                    None => {
                        proof {
                            lemma_alt_lookup_absent(self.cache@, lookup_table_pubkey@);
                        }
                        self.upsert(
                            lookup_table_pubkey,
                            LookupTableCacheEntry {
                                addresses: Vec::new(),
                                last_updated: now,
                                is_valid: false,
                            },
                        );
                        Err(AltError::FetchFailed)
                    },
                }
            },
        }
    }

    /// Record the outcome of a forced refresh, which bypasses the TTL: a
    /// successful fetch replaces the entry unconditionally; a failure leaves
    /// the cache as it stands.
    pub fn force_refresh_lookup_table(
        &mut self,
        lookup_table_pubkey: &Pubkey,
        now: u64,
        fetched: Option<Vec<Pubkey>>,
    ) -> (r: Result<Vec<Pubkey>, AltError>)
        requires
            old(self).wf(),
        ensures
            final(self).wf(),
            final(self).cache_ttl_micros == old(self).cache_ttl_micros,
            forall|q: Seq<u8>|
                q != lookup_table_pubkey@ ==> #[trigger] sp_alt_lookup(final(self).cache@, q)
                    == sp_alt_lookup(old(self).cache@, q),
            match fetched {
                Some(addrs) => {
                    &&& (r matches Ok(a) && sp_addr_views(a@) == sp_addr_views(addrs@))
                    &&& (sp_alt_lookup(final(self).cache@, lookup_table_pubkey@) matches Some(e)
                        && e.is_valid && e.last_updated == now && sp_addr_views(e.addresses@)
                        == sp_addr_views(addrs@))
                },
                None => final(self).cache@ == old(self).cache@ && r == Err::<
                    Vec<Pubkey>,
                    AltError,
                >(AltError::FetchFailed),
            },
    {
        match fetched {
            Some(addrs) => {
                let stored = clone_pubkeys(&addrs);
                self.upsert(
                    lookup_table_pubkey,
                    LookupTableCacheEntry { addresses: stored, last_updated: now, is_valid: true },
                );
                Ok(addrs)
            },
            None => Err(AltError::FetchFailed),
        }
    }

    /// Drop the entry for one table, so the next resolution must fetch.
    pub fn invalidate_cache_entry(&mut self, lookup_table_pubkey: &Pubkey)
        requires
            old(self).wf(),
        ensures
            final(self).wf(),
            final(self).cache_ttl_micros == old(self).cache_ttl_micros,
            sp_alt_lookup(final(self).cache@, lookup_table_pubkey@) is None,
            forall|q: Seq<u8>|
                q != lookup_table_pubkey@ ==> #[trigger] sp_alt_lookup(final(self).cache@, q)
                    == sp_alt_lookup(old(self).cache@, q),
    {
        match self.find_entry_index(lookup_table_pubkey) {
            Some(i) => {
                let ghost c0 = self.cache@;
                let _ = self.cache.remove(i);
                proof {
                    assert forall|q: Seq<u8>| true implies #[trigger] sp_alt_lookup(
                        self.cache@,
                        q,
                    ) == (if q == lookup_table_pubkey@ {
                        None::<LookupTableCacheEntry>
                    } else {
                        sp_alt_lookup(c0, q)
                    }) by {
                        lemma_alt_lookup_remove(c0, i as int, q);
                    }
                    lemma_alt_lookup_remove(c0, i as int, lookup_table_pubkey@);
                }
            },
            None => {
                proof {
                    lemma_alt_lookup_absent(self.cache@, lookup_table_pubkey@);
                }
            },
        }
    }

    /// How many entries stand in the cache, and how many of them are valid.
    pub fn get_cache_stats(&self) -> (r: (usize, usize))
        ensures
            r.0 == self.cache@.len(),
            r.1 == sp_count_valid(self.cache@),
    {
        let total_entries = self.cache.len();
        let mut valid: usize = 0;
        let mut i: usize = 0;
        while i < total_entries
            invariant
                total_entries == self.cache@.len(),
                i <= total_entries,
                valid == sp_count_valid(self.cache@.subrange(0, i as int)),
                valid <= i,
            decreases total_entries - i,
        {
            proof {
                lemma_count_valid_snoc(self.cache@, i as int);
            }
            if self.cache[i].1.is_valid {
                valid = valid + 1;
            }
            i = i + 1;
        }
        proof {
            assert(self.cache@.subrange(0, total_entries as int) =~= self.cache@);
        }
        (total_entries, valid)
    }

    /// Drop every entry older than the TTL, valid or not.
    pub fn cleanup_expired_entries(&mut self, now: u64)
        requires
            old(self).wf(),
        ensures
            final(self).wf(),
            final(self).cache_ttl_micros == old(self).cache_ttl_micros,
            forall|k: Seq<u8>|
                #[trigger] sp_alt_lookup(final(self).cache@, k) == (match sp_alt_lookup(
                    old(self).cache@,
                    k,
                ) {
                    Some(e) => if now - e.last_updated > old(self).cache_ttl_micros {
                        None::<LookupTableCacheEntry>
                    } else {
                        Some(e)
                    },
                    None => None::<LookupTableCacheEntry>,
                }),
    {
        let ttl = self.cache_ttl_micros;
        let mut src: Vec<(Pubkey, LookupTableCacheEntry)> = Vec::new();
        core::mem::swap(&mut self.cache, &mut src);
        let ghost orig = src@;
        let n = src.len();
        let mut kept: Vec<(Pubkey, LookupTableCacheEntry)> = Vec::new();
        let mut i: usize = 0;
        while i < n
            invariant
                ttl == self.cache_ttl_micros,
                n == orig.len(),
                src@.len() == n,
                i <= n,
                forall|j: int| i <= j < n ==> src@[j] == orig[j],
                sp_alt_keys_unique(orig),
                sp_alt_keys_unique(kept@),
                forall|k: Seq<u8>|
                    #[trigger] sp_alt_lookup(kept@, k) == (match sp_alt_lookup(
                        orig.subrange(0, i as int),
                        k,
                    ) {
                        Some(e) => if now - e.last_updated > ttl {
                            None::<LookupTableCacheEntry>
                        } else {
                            Some(e)
                        },
                        None => None::<LookupTableCacheEntry>,
                    }),
            decreases n - i,
        {
            let mut entry = (Vec::new(), LookupTableCacheEntry {
                addresses: Vec::new(),
                last_updated: 0,
                is_valid: false,
            });
            src.set_and_swap(i, &mut entry);
            proof {
                assert(entry == orig[i as int]);
            }
            let expired = entry.1.last_updated < now && now - entry.1.last_updated > ttl;
            let ghost prefix = orig.subrange(0, i as int);
            proof {
                assert(orig.subrange(0, i + 1) =~= prefix.push(orig[i as int]));
                assert(forall|j: int| 0 <= j < i ==> prefix[j] == orig[j]);
                lemma_alt_lookup_absent(prefix, orig[i as int].0@);
                assert forall|k: Seq<u8>| true implies #[trigger] sp_alt_lookup(
                    orig.subrange(0, i + 1),
                    k,
                ) == (if k == orig[i as int].0@ {
                    Some(orig[i as int].1)
                } else {
                    sp_alt_lookup(prefix, k)
                }) by {
                    lemma_alt_lookup_push(prefix, orig[i as int], k);
                }
            }
            if !expired {
                let ghost kept0 = kept@;
                proof {
                    assert(sp_alt_lookup(kept0, entry.0@) is None);
                }
                kept.push(entry);
                proof {
                    assert forall|k: Seq<u8>| true implies #[trigger] sp_alt_lookup(kept@, k) == (
                    if k == orig[i as int].0@ {
                        Some(orig[i as int].1)
                    } else {
                        sp_alt_lookup(kept0, k)
                    }) by {
                        lemma_alt_lookup_push(kept0, orig[i as int], k);
                    }
                    assert(forall|p: int| 0 <= p < kept0.len() ==> kept@[p] == kept0[p]);
                    assert forall|p: int, q: int|
                        0 <= p < q < kept@.len() implies (#[trigger] kept@[p].0)@ != (
                    #[trigger] kept@[q].0)@ by {
                        if q == kept@.len() - 1 && kept@[p].0@ == orig[i as int].0@ {
                            lemma_alt_lookup_at(kept0, orig[i as int].0@, p);
                        }
                    }
                }
            }
            i = i + 1;
        }
        proof {
            assert(orig.subrange(0, n as int) =~= orig);
        }
        self.cache = kept;
    }

    /// Scan a transaction's instructions; every extend-table instruction of
    /// the lookup-table program invalidates the cache entry of the table it
    /// names, keeping the cache coherent with in-flight extensions.
    pub fn process_transaction_for_extensions(&mut self, transaction: &VersionedTransaction)
        requires
            old(self).wf(),
        ensures
            final(self).wf(),
            final(self).cache_ttl_micros == old(self).cache_ttl_micros,
            forall|k: Seq<u8>|
                #[trigger] sp_alt_lookup(final(self).cache@, k) == (if sp_is_extend_target_key(
                    *transaction,
                    k,
                ) {
                    None::<LookupTableCacheEntry>
                } else {
                    sp_alt_lookup(old(self).cache@, k)
                }),
    {
        let n = transaction.instructions.len();
        let mut i: usize = 0;
        while i < n
            invariant
                self.wf(),
                self.cache_ttl_micros == old(self).cache_ttl_micros,
                n == transaction.instructions@.len(),
                i <= n,
                forall|k: Seq<u8>|
                    #[trigger] sp_alt_lookup(self.cache@, k) == (if (exists|j: int|
                        0 <= j < i && #[trigger] sp_extend_target(*transaction, j) == Some(k)) {
                        None::<LookupTableCacheEntry>
                    } else {
                        sp_alt_lookup(old(self).cache@, k)
                    }),
            decreases n - i,
        {
            let ix = &transaction.instructions[i];
            let is_extend = is_extend_lookup_table_instruction(ix, &transaction.account_keys);
            if is_extend {
                match extract_lookup_table_from_instruction(ix, &transaction.account_keys) {
                    Some(key) => {
                        proof {
                            assert(sp_extend_target(*transaction, i as int) == Some(key@));
                        }
                        self.invalidate_cache_entry(&key);
                    },
                    None => {
                        proof {
                            assert(sp_extend_target(*transaction, i as int) is None);
                        }
                    },
                }
            } else {
                proof {
                    assert(sp_extend_target(*transaction, i as int) is None);
                }
            }
            i = i + 1;
        }
    }
}

/// How many entries of `s` are valid.
pub open spec fn sp_count_valid(s: Seq<(Pubkey, LookupTableCacheEntry)>) -> int
    decreases s.len(),
{
    if s.len() == 0 {
        0
    } else {
        sp_count_valid(s.drop_first()) + (if s.first().1.is_valid {
            1int
        } else {
            0int
        })
    }
}

/// Extending the prefix by one entry adds that entry's validity.
proof fn lemma_count_valid_snoc(s: Seq<(Pubkey, LookupTableCacheEntry)>, i: int)
    requires
        0 <= i < s.len(),
    ensures
        sp_count_valid(s.subrange(0, i + 1)) == sp_count_valid(s.subrange(0, i)) + (if s[i].1
            .is_valid {
            1int
        } else {
            0int
        }),
    decreases i,
{
    if i == 0 {
        assert(s.subrange(0, 1).drop_first() =~= Seq::<(Pubkey, LookupTableCacheEntry)>::empty());
        assert(s.subrange(0, 1).first() == s[0]);
        assert(sp_count_valid(s.subrange(0, 0)) == 0);
        assert(sp_count_valid(Seq::<(Pubkey, LookupTableCacheEntry)>::empty()) == 0);
        assert(sp_count_valid(s.subrange(0, 1)) == (if s[0].1.is_valid {
            1int
        } else {
            0int
        }));
    } else {
        lemma_count_valid_snoc(s.drop_first(), i - 1);
        assert(s.subrange(0, i + 1).drop_first() =~= s.drop_first().subrange(0, i));
        assert(s.subrange(0, i).drop_first() =~= s.drop_first().subrange(0, i - 1));
        assert(s.subrange(0, i + 1).first() == s[0]);
        assert(s.subrange(0, i).first() == s[0]);
        assert(s.drop_first()[i - 1] == s[i]);
    }
}

/// True of an instruction that targets the lookup-table program and carries
/// the extend discriminator, the 4-byte little-endian value 2, at the head
/// of its data.
pub open spec fn sp_is_extend_instruction(ix: CompiledInstruction, keys: Seq<Pubkey>) -> bool {
    &&& (ix.program_id_index as int) < keys.len()
    &&& keys[ix.program_id_index as int]@ == sp_address_lookup_table_program_id()
    &&& ix.data@.len() >= 4
    &&& ix.data@[0] == 2 && ix.data@[1] == 0 && ix.data@[2] == 0 && ix.data@[3] == 0
}

/// The table key an extend instruction names: its first account, when that
/// account index is in range.
pub open spec fn sp_extend_target(tx: VersionedTransaction, i: int) -> Option<Seq<u8>> {
    if 0 <= i < tx.instructions@.len() && sp_is_extend_instruction(
        tx.instructions@[i],
        tx.account_keys@,
    ) && tx.instructions@[i].accounts@.len() > 0 && (tx.instructions@[i].accounts@[0] as int)
        < tx.account_keys@.len() {
        Some(tx.account_keys@[tx.instructions@[i].accounts@[0] as int]@)
    } else {
        None
    }
}

/// True of table keys that some extend instruction of the transaction names.
pub open spec fn sp_is_extend_target_key(tx: VersionedTransaction, k: Seq<u8>) -> bool {
    exists|i: int|
        0 <= i < tx.instructions@.len() && #[trigger] sp_extend_target(tx, i) == Some(k)
}

/// Whether an instruction is an extend-lookup-table instruction.
pub fn is_extend_lookup_table_instruction(
    instruction: &CompiledInstruction,
    account_keys: &Vec<Pubkey>,
) -> (r: bool)
    ensures
        r == sp_is_extend_instruction(*instruction, account_keys@),
{
    let pidx = instruction.program_id_index as usize;
    if pidx >= account_keys.len() {
        return false;
    }
    let program = crate::programs::address_lookup_table_program_id();
    if !pubkey_eq(&account_keys[pidx], &program) {
        return false;
    }
    if instruction.data.len() < 4 {
        return false;
    }
    instruction.data[0] == 2 && instruction.data[1] == 0 && instruction.data[2] == 0
        && instruction.data[3] == 0
}

/// The lookup-table key an extend instruction names: its first account.
pub fn extract_lookup_table_from_instruction(
    instruction: &CompiledInstruction,
    account_keys: &Vec<Pubkey>,
) -> (r: Option<Pubkey>)
    ensures
        match r {
            Some(k) => instruction.accounts@.len() > 0 && (instruction.accounts@[0] as int)
                < account_keys@.len() && k@ == account_keys@[instruction.accounts@[0] as int]@,
            None => instruction.accounts@.len() == 0 || (instruction.accounts@[0] as int)
                >= account_keys@.len(),
        },
{
    if instruction.accounts.len() == 0 {
        return None;
    }
    let idx = instruction.accounts[0] as usize;
    if idx >= account_keys.len() {
        return None;
    }
    Some(clone_pubkey(&account_keys[idx]))
}

/// Scan a transaction for extend-table instructions and invalidate the
/// cache entries of the tables they name.
pub fn process_transaction_for_lookup_table_extensions(
    cache: &mut AddressLookupTableCache,
    transaction: &VersionedTransaction,
)
    requires
        old(cache).wf(),
    ensures
        final(cache).wf(),
        final(cache).cache_ttl_micros == old(cache).cache_ttl_micros,
        forall|k: Seq<u8>|
            #[trigger] sp_alt_lookup(final(cache).cache@, k) == (if sp_is_extend_target_key(
                *transaction,
                k,
            ) {
                None::<LookupTableCacheEntry>
            } else {
                sp_alt_lookup(old(cache).cache@, k)
            }),
{
    cache.process_transaction_for_extensions(transaction);
}

/// Cache coherence: once a table's entry is gone — as it is for every table
/// an observed extend instruction names — no resolution at any time can be
/// served from the cache, so the next one must fetch.
pub proof fn lemma_cache_coherence(c: AddressLookupTableCache, k: Seq<u8>, now: u64)
    requires
        sp_alt_lookup(c.cache@, k) is None,
    ensures
        !sp_cache_hit(c, k, now),
{
}

/// What one lookup's table resolution came to: the table's address list, or
/// a failure that placeholder addresses stand in for.
#[derive(Clone, Debug)]
pub enum LookupResolution {
    Resolved(Vec<Pubkey>),
    Failed,
}

/// The all-zero placeholder address.
pub open spec fn sp_zero_address() -> Seq<u8> {
    Seq::new(32, |i: int| 0u8)
}

/// The all-zero placeholder address, as bytes.
pub fn zero_address() -> (r: Pubkey)
    ensures
        r@ == sp_zero_address(),
{
    let mut r: Vec<u8> = Vec::new();
    let mut i: usize = 0;
    while i < 32
        invariant
            i <= 32,
            r@ =~= Seq::new(i as nat, |j: int| 0u8),
        decreases 32 - i,
    {
        r.push(0);
        proof {
            assert(r@ =~= Seq::new((i + 1) as nat, |j: int| 0u8));
        }
        i = i + 1;
    }
    r
}

/// The address selected by index `idx` of a resolved table of addresses
/// `addrs`: the table entry, or the zero placeholder when the index is still
/// out of bounds.
pub open spec fn sp_selected(addrs: Seq<Pubkey>, idx: u8) -> Seq<u8> {
    if (idx as int) < addrs.len() {
        addrs[idx as int]@
    } else {
        sp_zero_address()
    }
}

/// The flattened addresses one lookup contributes: its readonly-selected
/// addresses in list order, then its writable-selected addresses in list
/// order; a failed resolution contributes one placeholder per advertised
/// index.
pub open spec fn sp_table_section(lk: MessageAddressTableLookup, t: LookupResolution) -> Seq<
    Seq<u8>,
> {
    match t {
        LookupResolution::Resolved(addrs) => lk.readonly_indexes@.map_values(
            |idx: u8| sp_selected(addrs@, idx),
        ) + lk.writable_indexes@.map_values(|idx: u8| sp_selected(addrs@, idx)),
        LookupResolution::Failed => Seq::new(
            lk.readonly_indexes@.len() + lk.writable_indexes@.len(),
            |i: int| sp_zero_address(),
        ),
    }
}

/// The flattened addresses of all lookups, in lookup order.
pub open spec fn sp_lookup_sections(
    lookups: Seq<MessageAddressTableLookup>,
    tables: Seq<LookupResolution>,
) -> Seq<Seq<u8>>
    decreases lookups.len(),
{
    if lookups.len() == 0 {
        Seq::empty()
    } else {
        sp_table_section(lookups.first(), tables.first()) + sp_lookup_sections(
            lookups.drop_first(),
            tables.drop_first(),
        )
    }
}

/// Extending the processed prefix appends that lookup's section.
proof fn lemma_lookup_sections_snoc(
    lookups: Seq<MessageAddressTableLookup>,
    tables: Seq<LookupResolution>,
    li: int,
)
    requires
        lookups.len() == tables.len(),
        0 <= li < lookups.len(),
    ensures
        sp_lookup_sections(lookups.subrange(0, li + 1), tables.subrange(0, li + 1))
            == sp_lookup_sections(lookups.subrange(0, li), tables.subrange(0, li))
            + sp_table_section(lookups[li], tables[li]),
    decreases li,
{
    if li == 0 {
        assert(lookups.subrange(0, 1).drop_first() =~= Seq::<MessageAddressTableLookup>::empty());
        assert(tables.subrange(0, 1).drop_first() =~= Seq::<LookupResolution>::empty());
        assert(lookups.subrange(0, 1).first() == lookups[0]);
        assert(tables.subrange(0, 1).first() == tables[0]);
        assert(sp_lookup_sections(lookups.subrange(0, 0), tables.subrange(0, 0)) =~= Seq::<
            Seq<u8>,
        >::empty());
        assert(sp_lookup_sections(
            Seq::<MessageAddressTableLookup>::empty(),
            Seq::<LookupResolution>::empty(),
        ) == Seq::<Seq<u8>>::empty());
        assert(sp_lookup_sections(lookups.subrange(0, 1), tables.subrange(0, 1))
            =~= sp_table_section(lookups[0], tables[0]) + Seq::<Seq<u8>>::empty());
        assert(Seq::<Seq<u8>>::empty() + sp_table_section(lookups[0], tables[0])
            =~= sp_table_section(lookups[0], tables[0]) + Seq::<Seq<u8>>::empty());
    } else {
        lemma_lookup_sections_snoc(lookups.drop_first(), tables.drop_first(), li - 1);
        assert(lookups.subrange(0, li + 1).drop_first() =~= lookups.drop_first().subrange(0, li));
        assert(tables.subrange(0, li + 1).drop_first() =~= tables.drop_first().subrange(0, li));
        assert(lookups.subrange(0, li).drop_first() =~= lookups.drop_first().subrange(0, li - 1));
        assert(tables.subrange(0, li).drop_first() =~= tables.drop_first().subrange(0, li - 1));
        assert(lookups.subrange(0, li + 1).first() == lookups[0]);
        assert(tables.subrange(0, li + 1).first() == tables[0]);
        assert(lookups.subrange(0, li).first() == lookups[0]);
        assert(tables.subrange(0, li).first() == tables[0]);
        assert(lookups.drop_first()[li - 1] == lookups[li]);
        assert(tables.drop_first()[li - 1] == tables[li]);
        let head = sp_table_section(lookups[0], tables[0]);
        let tail_li = sp_table_section(lookups[li], tables[li]);
        assert(head + (sp_lookup_sections(
            lookups.drop_first().subrange(0, li - 1),
            tables.drop_first().subrange(0, li - 1),
        ) + tail_li) =~= (head + sp_lookup_sections(
            lookups.drop_first().subrange(0, li - 1),
            tables.drop_first().subrange(0, li - 1),
        )) + tail_li);
    }
}

/// Whether any index a lookup advertises lies outside a table of
/// `table_len` addresses, which forces one refresh of that table.
pub open spec fn sp_needs_refresh(lk: MessageAddressTableLookup, table_len: int) -> bool {
    (exists|i: int|
        0 <= i < lk.readonly_indexes@.len() && (#[trigger] lk.readonly_indexes@[i] as int)
            >= table_len) || (exists|i: int|
        0 <= i < lk.writable_indexes@.len() && (#[trigger] lk.writable_indexes@[i] as int)
            >= table_len)
}

/// Whether a lookup references an index at or past the table's size.
pub fn needs_refresh(lookup: &MessageAddressTableLookup, table_len: usize) -> (r: bool)
    ensures
        r == sp_needs_refresh(*lookup, table_len as int),
{
    let n = lookup.readonly_indexes.len();
    let mut i: usize = 0;
    while i < n
        invariant
            n == lookup.readonly_indexes@.len(),
            i <= n,
            forall|j: int|
                0 <= j < i ==> (#[trigger] lookup.readonly_indexes@[j] as int) < table_len,
        decreases n - i,
    {
        if lookup.readonly_indexes[i] as usize >= table_len {
            return true;
        }
        i = i + 1;
    }
    let m = lookup.writable_indexes.len();
    let mut j: usize = 0;
    while j < m
        invariant
            n == lookup.readonly_indexes@.len(),
            m == lookup.writable_indexes@.len(),
            j <= m,
            forall|p: int|
                0 <= p < n ==> (#[trigger] lookup.readonly_indexes@[p] as int) < table_len,
            forall|p: int|
                0 <= p < j ==> (#[trigger] lookup.writable_indexes@[p] as int) < table_len,
        decreases m - j,
    {
        if lookup.writable_indexes[j] as usize >= table_len {
            return true;
        }
        j = j + 1;
    }
    false
}

/// Resolve one lookup's table per the out-of-bounds policy: take the
/// table the cache serves (a hit, else the miss-fetch outcome, else a
/// stale valid entry), force one refresh when any referenced index lies
/// out of bounds, use the refreshed table when that refresh succeeded and
/// keep the old one otherwise.  Indices still out of bounds resolve to
/// placeholder addresses in the flattening step.  `fetched` and
/// `refreshed` are the outcomes of the fetches a miss and a forced
/// refresh would make; a caller without a fetch path passes `None`.
pub fn resolve_lookup_with_refresh(
    cache: &mut AddressLookupTableCache,
    lookup: &MessageAddressTableLookup,
    now: u64,
    fetched: Option<Vec<Pubkey>>,
    refreshed: Option<Vec<Pubkey>>,
) -> (r: LookupResolution)
    requires
        old(cache).wf(),
    ensures
        final(cache).wf(),
        final(cache).cache_ttl_micros == old(cache).cache_ttl_micros,
        forall|q: Seq<u8>|
            q != lookup.account_key@ ==> #[trigger] sp_alt_lookup(final(cache).cache@, q)
                == sp_alt_lookup(old(cache).cache@, q),
        ({
            let k = lookup.account_key@;
            let base: Option<Seq<Seq<u8>>> = if sp_cache_hit(*old(cache), k, now) {
                match sp_alt_lookup(old(cache).cache@, k) {
                    Some(e) => Some(sp_addr_views(e.addresses@)),
                    None => None,
                }
            } else {
                match fetched {
                    Some(a) => Some(sp_addr_views(a@)),
                    None => if sp_alt_lookup(old(cache).cache@, k) matches Some(e) && e.is_valid {
                        match sp_alt_lookup(old(cache).cache@, k) {
                            Some(e) => Some(sp_addr_views(e.addresses@)),
                            None => None,
                        }
                    } else {
                        None
                    },
                }
            };
            match base {
                None => r is Failed,
                Some(b) => if sp_needs_refresh(*lookup, b.len() as int) {
                    match refreshed {
                        Some(a2) => r matches LookupResolution::Resolved(a) && sp_addr_views(a@)
                            == sp_addr_views(a2@),
                        None => r matches LookupResolution::Resolved(a) && sp_addr_views(a@) == b,
                    }
                } else {
                    r matches LookupResolution::Resolved(a) && sp_addr_views(a@) == b
                },
            }
        }),
{
    let base = match cache.get_lookup_table_addresses(&lookup.account_key, now) {
        Some(addresses) => addresses,
        None => match cache.apply_fetch_result(&lookup.account_key, now, fetched) {
            Ok(addresses) => addresses,
            Err(_) => {
                return LookupResolution::Failed;
            },
        },
    };
    if needs_refresh(lookup, base.len()) {
        match cache.force_refresh_lookup_table(&lookup.account_key, now, refreshed) {
            Ok(refreshed_addresses) => LookupResolution::Resolved(refreshed_addresses),
            Err(_) => LookupResolution::Resolved(base),
        }
    } else {
        LookupResolution::Resolved(base)
    }
}

/// Resolve a transaction's account keys: the inline keys first, then, for
/// each lookup in order, the addresses its readonly index list selects and
/// then those its writable index list selects, each taken from that lookup's
/// resolved table; an index out of bounds, or a whole failed table, yields
/// the zero placeholder address.  `tables[i]` is the resolution the caller
/// obtained for `lookups[i]`.
pub fn resolve_address_lookups(
    base_account_keys: &Vec<Pubkey>,
    lookups: &Vec<MessageAddressTableLookup>,
    tables: &Vec<LookupResolution>,
) -> (r: Vec<Pubkey>)
    requires
        tables@.len() == lookups@.len(),
    ensures
        sp_addr_views(r@) == sp_addr_views(base_account_keys@) + sp_lookup_sections(
            lookups@,
            tables@,
        ),
{
    let mut r = clone_pubkeys(base_account_keys);
    let n_lookups = lookups.len();
    let mut li: usize = 0;
    while li < n_lookups
        invariant
            tables@.len() == lookups@.len(),
            n_lookups == lookups@.len(),
            li <= n_lookups,
            sp_addr_views(r@) == sp_addr_views(base_account_keys@) + sp_lookup_sections(
                lookups@.subrange(0, li as int),
                tables@.subrange(0, li as int),
            ),
        decreases n_lookups - li,
    {
        let ghost r_pre = r@;
        let lk = &lookups[li];
        let ghost ro_seq = lookups@[li as int].readonly_indexes@;
        let ghost wr_seq = lookups@[li as int].writable_indexes@;
        match &tables[li] {
            LookupResolution::Resolved(addrs) => {
                let ghost addrs_seq = addrs@;
                proof {
                    assert(tables@[li as int] matches LookupResolution::Resolved(ad) && ad@
                        == addrs_seq);
                }
                let ro = lk.readonly_indexes.len();
                let mut a: usize = 0;
                while a < ro
                    invariant
                        lk.readonly_indexes@ == ro_seq,
                        addrs@ == addrs_seq,
                        ro == ro_seq.len(),
                        a <= ro,
                        r@.len() == r_pre.len() + a,
                        forall|p: int| 0 <= p < r_pre.len() ==> (#[trigger] r@[p]) == r_pre[p],
                        forall|p: int|
                            r_pre.len() <= p < r@.len() ==> (#[trigger] r@[p])@ == sp_selected(
                                addrs_seq,
                                ro_seq[p - r_pre.len()],
                            ),
                    decreases ro - a,
                {
                    let idx = lk.readonly_indexes[a] as usize;
                    if idx < addrs.len() {
                        r.push(clone_pubkey(&addrs[idx]));
                    } else {
                        r.push(zero_address());
                    }
                    a = a + 1;
                }
                let ghost r_mid = r@;
                let wr = lk.writable_indexes.len();
                let mut b: usize = 0;
                while b < wr
                    invariant
                        lk.writable_indexes@ == wr_seq,
                        addrs@ == addrs_seq,
                        wr == wr_seq.len(),
                        b <= wr,
                        r@.len() == r_mid.len() + b,
                        forall|p: int| 0 <= p < r_mid.len() ==> (#[trigger] r@[p]) == r_mid[p],
                        forall|p: int|
                            r_mid.len() <= p < r@.len() ==> (#[trigger] r@[p])@ == sp_selected(
                                addrs_seq,
                                wr_seq[p - r_mid.len()],
                            ),
                    decreases wr - b,
                {
                    let idx = lk.writable_indexes[b] as usize;
                    if idx < addrs.len() {
                        r.push(clone_pubkey(&addrs[idx]));
                    } else {
                        r.push(zero_address());
                    }
                    b = b + 1;
                }
                proof {
                    let sect = sp_table_section(lookups@[li as int], tables@[li as int]);
                    assert(sect.len() == ro_seq.len() + wr_seq.len());
                    assert(r@.len() == r_pre.len() + ro_seq.len() + wr_seq.len());
                    assert forall|q: int| 0 <= q < r@.len() implies sp_addr_views(r@)[q] == (
                    sp_addr_views(r_pre) + sect)[q] by {
                        if q < r_pre.len() {
                            assert(r@[q] == r_mid[q]);
                            assert(r_mid[q] == r_pre[q]);
                        } else if q < r_pre.len() + ro_seq.len() {
                            assert(r@[q] == r_mid[q]);
                            assert(sect[q - r_pre.len()] == sp_selected(
                                addrs_seq,
                                ro_seq[q - r_pre.len()],
                            ));
                        } else {
                            assert(r@[q]@ == sp_selected(addrs_seq, wr_seq[q - r_mid.len()]));
                            assert(sect[q - r_pre.len()] == sp_selected(
                                addrs_seq,
                                wr_seq[q - r_pre.len() - ro_seq.len()],
                            ));
                        }
                    }
                    assert(sp_addr_views(r@) =~= sp_addr_views(r_pre) + sect);
                }
            },
            LookupResolution::Failed => {
                proof {
                    assert(tables@[li as int] is Failed);
                }
                let ro = lk.readonly_indexes.len();
                let mut a: usize = 0;
                while a < ro
                    invariant
                        a <= ro,
                        r@.len() == r_pre.len() + a,
                        forall|p: int| 0 <= p < r_pre.len() ==> (#[trigger] r@[p]) == r_pre[p],
                        forall|p: int|
                            r_pre.len() <= p < r@.len() ==> (#[trigger] r@[p])@
                                == sp_zero_address(),
                    decreases ro - a,
                {
                    r.push(zero_address());
                    a = a + 1;
                }
                let ghost r_mid = r@;
                let wr = lk.writable_indexes.len();
                let mut b: usize = 0;
                while b < wr
                    invariant
                        b <= wr,
                        r@.len() == r_mid.len() + b,
                        forall|p: int| 0 <= p < r_mid.len() ==> (#[trigger] r@[p]) == r_mid[p],
                        forall|p: int|
                            r_mid.len() <= p < r@.len() ==> (#[trigger] r@[p])@
                                == sp_zero_address(),
                    decreases wr - b,
                {
                    r.push(zero_address());
                    b = b + 1;
                }
                proof {
                    assert(r@.len() == r_pre.len() + ro_seq.len() + wr_seq.len());
                    assert(forall|p: int|
                        r_pre.len() <= p < r@.len() ==> (#[trigger] r@[p])@ == sp_zero_address());
                    assert(sp_addr_views(r@) =~= sp_addr_views(r_pre) + sp_table_section(
                        lookups@[li as int],
                        tables@[li as int],
                    ));
                }
            },
        }
        proof {
            lemma_lookup_sections_snoc(lookups@, tables@, li as int);
            assert(sp_addr_views(r@) =~= sp_addr_views(base_account_keys@) + sp_lookup_sections(
                lookups@.subrange(0, li + 1),
                tables@.subrange(0, li + 1),
            ));
        }
        li = li + 1;
    }
    proof {
        assert(lookups@.subrange(0, n_lookups as int) =~= lookups@);
        assert(tables@.subrange(0, n_lookups as int) =~= tables@);
    }
    r
}

/// Resolve a transaction's full account-key list: a legacy message's keys
/// are its inline keys alone; a v0 message's are the inline keys followed by
/// the lookup-derived addresses.
pub fn resolve_transaction_account_keys(
    base_account_keys: &Vec<Pubkey>,
    lookups: &Option<Vec<MessageAddressTableLookup>>,
    tables: &Vec<LookupResolution>,
) -> (r: Vec<Pubkey>)
    requires
        lookups matches Some(lks) ==> tables@.len() == lks@.len(),
    ensures
        match lookups {
            Some(lks) => sp_addr_views(r@) == sp_addr_views(base_account_keys@)
                + sp_lookup_sections(lks@, tables@),
            None => sp_addr_views(r@) == sp_addr_views(base_account_keys@),
        },
{
    match lookups {
        Some(lks) => resolve_address_lookups(base_account_keys, lks, tables),
        None => clone_pubkeys(base_account_keys),
    }
}

} // verus!
