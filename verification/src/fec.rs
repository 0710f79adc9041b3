//! FEC-set assembly: one `FecBlock` accumulates the Data and Coding shreds of
//! a single (slot, fec-set-index) group; the `FecStore` keys blocks by that
//! pair and keeps the processed-set that makes completion fire at most once
//! per group.

use vstd::prelude::*;
use crate::shred::{
    Shred, ShredKind, ShredError, CodingShredHeader, sp_shred_slot, sp_shred_index,
    sp_fec_set_index,
};

verus! {

/// Age, in microseconds, beyond which an incomplete block is swept.
pub const BLOCK_EXPIRY_MICROS: u64 = 30_000_000;

/// Age, in microseconds, beyond which a processed-set marker is swept.
pub const PROCESSED_SWEEP_MICROS: u64 = 20_000_000;

/// Errors of block assembly and payload reconstruction.
#[derive(Clone, Copy, Debug, PartialEq, Eq, Structural)]
pub enum FecBlockError {
    /// No payload could be put together from the Data shreds at hand.
    FullPayloadReconstructionError,
    /// An inserted shred's slot differs from the block's slot.
    SlotMismatch { expected: u64, found: u64 },
}

/// Why a raw datagram was rejected before reaching a block.
#[derive(Clone, Copy, Debug, PartialEq, Eq, Structural)]
pub enum CollectIssue {
    /// The datagram could not be parsed as a shred.
    ShredCreation(ShredError),
    /// The shred's index lies before its FEC-set index.
    IndexBeforeFecSetIndex,
}

/// Errors of the per-datagram collection path.
#[derive(Clone, Copy, Debug, PartialEq, Eq, Structural)]
pub enum CollectShredsError {
    FecBlockError(FecBlockError),
    GeneralError(CollectIssue),
}

/// What one arrival did to the store.
#[derive(Clone, Copy, Debug, PartialEq, Eq, Structural)]
pub enum CollectOutcome {
    /// The datagram was shorter than the common shred header: dropped.
    TooShort,
    /// The group was already decoded once: the shred is suppressed.
    AlreadyProcessed,
    /// A shred at this position was already stored: silent no-op.
    Duplicate,
    /// The shred was stored; the group is not complete yet.
    Stored,
    /// The shred was stored and completed its group: decode exactly once.
    Completed,
}

/// How one insertion changed a block.
#[derive(Clone, Copy, Debug, PartialEq, Eq, Structural)]
pub enum InsertKind {
    Inserted,
    Duplicate,
}

/// The accumulator for one (slot, fec-set-index) group.
#[derive(Clone, Debug)]
pub struct FecBlock {
    /// Expected Data-shred count; known once a Coding shred's header or a
    /// data-complete flag has been seen.
    pub num_data_shreds: Option<u16>,
    /// Expected Coding-shred count; known once a Coding shred's header has
    /// been seen.
    pub num_coding_shreds: Option<u16>,
    pub data_shreds_collected: usize,
    pub coding_shreds_collected: usize,
    /// Stored Data shreds, keyed by shred index; keys are unique.
    pub data_shreds: Vec<(u32, Shred)>,
    /// Stored Coding shreds, keyed by shred index; keys are unique.
    pub coding_shreds: Vec<(u32, Shred)>,
    pub fec_set_index: u32,
    pub slot: u64,
    /// Time of the first insertion, microseconds; `None` until then.
    pub collection_start: Option<u64>,
    /// Set once any stored Data shred closed the slot.
    pub last_shred_in_slot: bool,
}

/// True when `entries` holds a key `k`.
pub open spec fn sp_has_key<K, V>(entries: Seq<(K, V)>, k: K) -> bool {
    exists|i: int| 0 <= i < entries.len() && #[trigger] entries[i].0 == k
}

/// Key uniqueness of an association list.
pub open spec fn sp_keys_unique<K, V>(entries: Seq<(K, V)>) -> bool {
    forall|i: int, j: int|
        0 <= i < j < entries.len() ==> (#[trigger] entries[i].0) != (#[trigger] entries[j].0)
}

/// The value stored under key `k`, reading the list front to back.
pub open spec fn sp_lookup<K, V>(entries: Seq<(K, V)>, k: K) -> Option<V>
    decreases entries.len(),
{
    if entries.len() == 0 {
        None
    } else if entries[0].0 == k {
        Some(entries[0].1)
    } else {
        sp_lookup(entries.drop_first(), k)
    }
}

/// A present key is found: at any position holding `k`, `sp_lookup` yields
/// that position's value, provided keys are unique.
pub proof fn lemma_lookup_at<K, V>(entries: Seq<(K, V)>, k: K, i: int)
    requires
        sp_keys_unique(entries),
        0 <= i < entries.len(),
        entries[i].0 == k,
    ensures
        sp_lookup(entries, k) == Some(entries[i].1),
    decreases entries.len(),
{
    if i == 0 {
    } else {
        assert(sp_keys_unique(entries.drop_first())) by {
            assert(forall|p: int, q: int|
                0 <= p < q < entries.drop_first().len() ==> (#[trigger] entries.drop_first()[p].0)
                    != (#[trigger] entries.drop_first()[q].0)) by {
                assert(forall|p: int|
                    0 <= p < entries.drop_first().len() ==> entries.drop_first()[p]
                        == entries[p + 1]);
            }
        }
        lemma_lookup_at(entries.drop_first(), k, i - 1);
    }
}

/// An absent key is not found.
pub proof fn lemma_lookup_absent<K, V>(entries: Seq<(K, V)>, k: K)
    requires
        !sp_has_key(entries, k),
    ensures
        sp_lookup(entries, k) is None,
    decreases entries.len(),
{
    if entries.len() > 0 {
        assert(entries[0].0 != k);
        assert(!sp_has_key(entries.drop_first(), k)) by {
            assert(forall|p: int|
                0 <= p < entries.drop_first().len() ==> entries.drop_first()[p] == entries[p + 1]);
        }
        lemma_lookup_absent(entries.drop_first(), k);
    }
}

/// Appending a fresh key binds it and leaves every other key's binding alone.
pub proof fn lemma_lookup_push<K, V>(entries: Seq<(K, V)>, k: K, v: V, q: K)
    requires
        sp_lookup(entries, k) is None,
    ensures
        sp_lookup(entries.push((k, v)), q) == (if q == k {
            Some(v)
        } else {
            sp_lookup(entries, q)
        }),
    decreases entries.len(),
{
    if entries.len() == 0 {
        assert(entries.push((k, v))[0] == (k, v));
        assert(entries.push((k, v)).drop_first() =~= Seq::<(K, V)>::empty());
        if q != k {
            assert(sp_lookup(entries.push((k, v)), q) == sp_lookup(Seq::<(K, V)>::empty(), q));
        }
    } else {
        assert(entries.push((k, v))[0] == entries[0]);
        assert(entries.push((k, v)).drop_first() =~= entries.drop_first().push((k, v)));
        lemma_lookup_push(entries.drop_first(), k, v, q);
        if entries[0].0 == q {
            assert(sp_lookup(entries.push((k, v)), q) == Some(entries[0].1));
        } else {
            assert(sp_lookup(entries.push((k, v)), q) == sp_lookup(
                entries.drop_first().push((k, v)),
                q,
            ));
        }
    }
}

/// Removing position `i` unbinds its key and leaves every other key's binding
/// alone, provided keys are unique.
pub proof fn lemma_lookup_remove<K, V>(entries: Seq<(K, V)>, i: int, q: K)
    requires
        sp_keys_unique(entries),
        0 <= i < entries.len(),
    ensures
        sp_lookup(entries.remove(i), q) == (if q == entries[i].0 {
            None
        } else {
            sp_lookup(entries, q)
        }),
        sp_keys_unique(entries.remove(i)),
    decreases entries.len(),
{
    assert(forall|p: int|
        0 <= p < entries.remove(i).len() ==> entries.remove(i)[p] == (if p < i {
            entries[p]
        } else {
            entries[p + 1]
        }));
    if i == 0 {
        assert(entries.remove(0) =~= entries.drop_first());
        if q == entries[0].0 {
            assert(!sp_has_key(entries.drop_first(), q)) by {
                assert(forall|p: int|
                    0 <= p < entries.drop_first().len() ==> entries.drop_first()[p] == entries[p
                        + 1]);
            }
            lemma_lookup_absent(entries.drop_first(), q);
        }
    } else {
        assert(sp_keys_unique(entries.drop_first())) by {
            assert(forall|p: int|
                0 <= p < entries.drop_first().len() ==> entries.drop_first()[p] == entries[p + 1]);
        }
        lemma_lookup_remove(entries.drop_first(), i - 1, q);
        assert(entries.remove(i).drop_first() =~= entries.drop_first().remove(i - 1));
        assert(entries.remove(i)[0] == entries[0]);
    }
}

/// Every entry of a shred map belongs to the block: its key is the shred's
/// index, the shred carries the block's slot and FEC-set index, and its kind
/// matches the map.
pub open spec fn sp_entries_of_block(
    entries: Seq<(u32, Shred)>,
    slot: u64,
    fec: u32,
    data_kind: bool,
) -> bool {
    forall|i: int|
        0 <= i < entries.len() ==> {
            &&& (#[trigger] entries[i]).1.slot == slot
            &&& entries[i].1.fec_set_index == fec
            &&& entries[i].0 == entries[i].1.index
            &&& (entries[i].1.kind is Data <==> data_kind)
        }
}

/// The block-level insertion relation: `post` is `pre` after storing `shred`
/// at a position that was free.  The shred is appended to the map of its
/// kind; an expected count not yet known is learned from a Coding header
/// (or, for the expected Data count, from a data-complete Data shred's
/// position), and a count already known is kept; the slot-closing flag is
/// latched, and the collection clock starts if it had not.
pub open spec fn sp_inserted(pre: FecBlock, shred: Shred, now: u64, post: FecBlock) -> bool {
    &&& shred.slot == pre.slot
    &&& post.slot == pre.slot
    &&& post.fec_set_index == pre.fec_set_index
    &&& post.collection_start == (if pre.collection_start is None {
        Some(now)
    } else {
        pre.collection_start
    })
    &&& (if shred.kind is Data {
        &&& !sp_has_key(pre.data_shreds@, shred.index)
        &&& post.data_shreds@ == pre.data_shreds@.push((shred.index, shred))
        &&& post.coding_shreds@ == pre.coding_shreds@
        &&& post.last_shred_in_slot == (pre.last_shred_in_slot || shred.closes_slot())
        &&& post.num_coding_shreds == pre.num_coding_shreds
        &&& post.num_data_shreds == (if pre.num_data_shreds is None && (
        shred.kind matches ShredKind::Data { data_complete, .. }
            && data_complete) && shred.index >= pre.fec_set_index && shred.index
            - pre.fec_set_index < 0xffff {
            Some((shred.index - pre.fec_set_index + 1) as u16)
        } else {
            pre.num_data_shreds
        })
    } else {
        &&& !sp_has_key(pre.coding_shreds@, shred.index)
        &&& post.coding_shreds@ == pre.coding_shreds@.push((shred.index, shred))
        &&& post.data_shreds@ == pre.data_shreds@
        &&& post.last_shred_in_slot == pre.last_shred_in_slot
        &&& (shred.kind matches ShredKind::Coding { header } ==> {
            &&& post.num_data_shreds == (if pre.num_data_shreds is None {
                Some(header.num_data_shreds)
            } else {
                pre.num_data_shreds
            })
            &&& post.num_coding_shreds == (if pre.num_coding_shreds is None {
                Some(header.num_coding_shreds)
            } else {
                pre.num_coding_shreds
            })
        })
    })
}

impl FecBlock {
    /// Internal consistency of a block.
    pub open spec fn wf(self) -> bool {
        &&& sp_keys_unique(self.data_shreds@)
        &&& sp_keys_unique(self.coding_shreds@)
        &&& sp_entries_of_block(self.data_shreds@, self.slot, self.fec_set_index, true)
        &&& sp_entries_of_block(self.coding_shreds@, self.slot, self.fec_set_index, false)
        &&& self.data_shreds_collected == self.data_shreds@.len()
        &&& self.coding_shreds_collected == self.coding_shreds@.len()
    }

    /// The completion predicate: with the expected Data count known, the
    /// group is complete when every Data shred is present, or when Data and
    /// Coding shreds together reach the expected total, enough for erasure
    /// recovery.
    pub open spec fn sp_complete(self) -> bool {
        match (self.num_data_shreds, self.num_coding_shreds) {
            (Some(d), Some(c)) => self.data_shreds@.len() == d as int || self.data_shreds@.len()
                + self.coding_shreds@.len() >= d as int + c as int,
            (Some(d), None) => self.data_shreds@.len() == d as int,
            (None, _) => false,
        }
    }

    /// An empty accumulator for one (slot, fec-set-index) group.
    pub fn new(slot: u64, fec_set_index: u32) -> (r: FecBlock)
        ensures
            r.num_data_shreds is None,
            r.num_coding_shreds is None,
            r.data_shreds_collected == 0,
            r.coding_shreds_collected == 0,
            r.data_shreds@ == Seq::<(u32, Shred)>::empty(),
            r.coding_shreds@ == Seq::<(u32, Shred)>::empty(),
            r.fec_set_index == fec_set_index,
            r.slot == slot,
            r.collection_start is None,
            !r.last_shred_in_slot,
            r.wf(),
            !r.sp_complete(),
    {
        FecBlock {
            num_data_shreds: None,
            num_coding_shreds: None,
            data_shreds_collected: 0,
            coding_shreds_collected: 0,
            data_shreds: Vec::new(),
            coding_shreds: Vec::new(),
            fec_set_index,
            slot,
            collection_start: None,
            last_shred_in_slot: false,
        }
    }

    /// Whether the group is complete.
    pub fn is_complete(&self) -> (r: bool)
        requires
            self.wf(),
        ensures
            r == self.sp_complete(),
    {
        match (self.num_data_shreds, self.num_coding_shreds) {
            (Some(d), Some(c)) => {
                let data_count = self.data_shreds.len() as u128;
                let coding_count = self.coding_shreds.len() as u128;
                data_count == d as u128 || data_count + coding_count >= d as u128 + c as u128
            },
            (Some(d), None) => self.data_shreds.len() as u64 == d as u64,
            (None, _) => false,
        }
    }

    /// Insert one shred.  A shred of another slot is rejected; a shred whose
    /// position is already filled is a silent no-op; otherwise the shred is
    /// stored, the expected counts are learned from a Coding header or from a
    /// data-complete flag, the slot-closing flag is latched, and the
    /// collection clock starts on the first insertion.
    pub fn insert_shred(&mut self, shred: Shred, now: u64) -> (r: Result<InsertKind, FecBlockError>)
        requires
            old(self).wf(),
            shred.fec_set_index == old(self).fec_set_index,
        ensures
            final(self).wf(),
            match r {
                Err(e) => e == (FecBlockError::SlotMismatch {
                    expected: old(self).slot,
                    found: shred.slot,
                }) && shred.slot != old(self).slot && *final(self) == *old(self),
                Ok(InsertKind::Duplicate) => shred.slot == old(self).slot && *final(self) == *old(
                    self,
                ) && (if shred.kind is Data {
                    sp_has_key(old(self).data_shreds@, shred.index)
                } else {
                    sp_has_key(old(self).coding_shreds@, shred.index)
                }),
                Ok(InsertKind::Inserted) => shred.slot == old(self).slot && sp_inserted(
                    *old(self),
                    shred,
                    now,
                    *final(self),
                ),
            },
    {
        if shred.slot != self.slot {
            return Err(
                FecBlockError::SlotMismatch { expected: self.slot, found: shred.slot },
            );
        }
        let is_data = match &shred.kind {
            ShredKind::Data { .. } => true,
            ShredKind::Coding { .. } => false,
        };
        if is_data {
            if find_key_shred(&self.data_shreds, shred.index) {
                return Ok(InsertKind::Duplicate);
            }
        } else {
            if find_key_shred(&self.coding_shreds, shred.index) {
                return Ok(InsertKind::Duplicate);
            }
        }
        match &shred.kind {
            ShredKind::Coding { header } => {
                if self.num_data_shreds.is_none() {
                    self.num_data_shreds = Some(header.num_data_shreds);
                }
                if self.num_coding_shreds.is_none() {
                    self.num_coding_shreds = Some(header.num_coding_shreds);
                }
            },
            ShredKind::Data { last_in_slot, data_complete } => {
                if *last_in_slot && *data_complete {
                    self.last_shred_in_slot = true;
                }
                if *data_complete && self.num_data_shreds.is_none() && shred.index
                    >= self.fec_set_index && shred.index - self.fec_set_index < 0xffff {
                    self.num_data_shreds = Some((shred.index - self.fec_set_index + 1) as u16);
                }
            },
        }
        let idx = shred.index;
        if is_data {
            self.data_shreds.push((idx, shred));
            self.data_shreds_collected = self.data_shreds.len();
        } else {
            self.coding_shreds.push((idx, shred));
            self.coding_shreds_collected = self.coding_shreds.len();
        }
        if self.collection_start.is_none() {
            self.collection_start = Some(now);
        }
        Ok(InsertKind::Inserted)
    }
}

/// A freshly created accumulator for one (slot, fec-set-index) group.
pub open spec fn sp_is_new_block(b: FecBlock, slot: u64, fec: u32) -> bool {
    &&& b.num_data_shreds is None
    &&& b.num_coding_shreds is None
    &&& b.data_shreds@ == Seq::<(u32, Shred)>::empty()
    &&& b.coding_shreds@ == Seq::<(u32, Shred)>::empty()
    &&& b.data_shreds_collected == 0
    &&& b.coding_shreds_collected == 0
    &&& b.slot == slot
    &&& b.fec_set_index == fec
    &&& b.collection_start is None
    &&& !b.last_shred_in_slot
}

/// The store-level effect of handing one shred to `add_shred`: only the
/// shred's own (slot, fec-set-index) key is touched; a duplicate changes
/// nothing; an insertion rewrites that key's block per `sp_inserted`; the
/// group completes exactly once, marking the processed-set.
pub open spec fn sp_store_add(
    pre: FecStore,
    shred: Shred,
    now: u64,
    post: FecStore,
    outcome: CollectOutcome,
) -> bool {
    let key = (shred.slot, shred.fec_set_index);
    &&& (forall|k2: (u64, u32)|
        k2 != key ==> #[trigger] sp_lookup(post.blocks@, k2) == sp_lookup(pre.blocks@, k2))
    &&& (forall|k2: (u64, u32)|
        k2 != key ==> #[trigger] sp_lookup(post.processed@, k2) == sp_lookup(pre.processed@, k2))
    &&& match outcome {
        CollectOutcome::Duplicate => {
            &&& sp_lookup(post.blocks@, key) == sp_lookup(pre.blocks@, key)
            &&& post.processed@ == pre.processed@
            &&& (sp_lookup(pre.blocks@, key) matches Some(b) && (if shred.kind is Data {
                sp_has_key(b.data_shreds@, shred.index)
            } else {
                sp_has_key(b.coding_shreds@, shred.index)
            }))
        },
        CollectOutcome::Stored => exists|pre_b: FecBlock, post_b: FecBlock|
            {
                &&& #[trigger] sp_inserted(pre_b, shred, now, post_b)
                &&& (sp_lookup(pre.blocks@, key) == Some(pre_b) || (sp_lookup(pre.blocks@, key)
                    is None && sp_is_new_block(pre_b, shred.slot, shred.fec_set_index)))
                &&& sp_lookup(post.blocks@, key) == Some(post_b)
                &&& post.processed@ == pre.processed@
                &&& !(post_b.sp_complete() && sp_lookup(pre.processed@, key) is None)
            },
        CollectOutcome::Completed => exists|pre_b: FecBlock, post_b: FecBlock|
            {
                &&& #[trigger] sp_inserted(pre_b, shred, now, post_b)
                &&& (sp_lookup(pre.blocks@, key) == Some(pre_b) || (sp_lookup(pre.blocks@, key)
                    is None && sp_is_new_block(pre_b, shred.slot, shred.fec_set_index)))
                &&& sp_lookup(post.blocks@, key) == Some(post_b)
                &&& post_b.sp_complete()
                &&& sp_lookup(pre.processed@, key) is None
                &&& sp_lookup(post.processed@, key) == Some(now)
            },
        _ => false,
    }
}

/// The FEC-block store: blocks keyed by (slot, fec-set-index), and the
/// processed-set of groups whose decode has been scheduled, each marker with
/// the time it was set.
pub struct FecStore {
    pub blocks: Vec<((u64, u32), FecBlock)>,
    pub processed: Vec<((u64, u32), u64)>,
}

impl FecStore {
    /// Internal consistency: keys unique, every block well-formed and filed
    /// under its own (slot, fec-set-index).
    pub open spec fn wf(self) -> bool {
        &&& sp_keys_unique(self.blocks@)
        &&& sp_keys_unique(self.processed@)
        &&& forall|i: int|
            0 <= i < self.blocks@.len() ==> {
                &&& (#[trigger] self.blocks@[i]).1.wf()
                &&& self.blocks@[i].1.slot == self.blocks@[i].0.0
                &&& self.blocks@[i].1.fec_set_index == self.blocks@[i].0.1
            }
    }

    /// An empty store.
    pub fn new() -> (r: FecStore)
        ensures
            r.wf(),
            r.blocks@ == Seq::<((u64, u32), FecBlock)>::empty(),
            r.processed@ == Seq::<((u64, u32), u64)>::empty(),
    {
        FecStore { blocks: Vec::new(), processed: Vec::new() }
    }

    /// Position of the block stored under `key`, if any.
    fn find_block_index(&self, key: (u64, u32)) -> (r: Option<usize>)
        ensures
            match r {
                Some(i) => i < self.blocks@.len() && self.blocks@[i as int].0 == key,
                None => !sp_has_key(self.blocks@, key),
            },
    {
        let n = self.blocks.len();
        let mut i: usize = 0;
        while i < n
            invariant
                n == self.blocks@.len(),
                i <= n,
                forall|j: int| 0 <= j < i ==> (#[trigger] self.blocks@[j].0) != key,
            decreases n - i,
        {
            if self.blocks[i].0.0 == key.0 && self.blocks[i].0.1 == key.1 {
                proof {
                    assert(self.blocks@[i as int].0 == key);
                }
                return Some(i);
            }
            i = i + 1;
        }
        None
    }

    /// Whether a group's decode has already been scheduled.
    pub fn processed_contains(&self, slot: u64, fec_set_index: u32) -> (r: bool)
        requires
            self.wf(),
        ensures
            r == (sp_lookup(self.processed@, (slot, fec_set_index)) is Some),
    {
        let key = (slot, fec_set_index);
        let n = self.processed.len();
        let mut i: usize = 0;
        while i < n
            invariant
                self.wf(),
                key == (slot, fec_set_index),
                n == self.processed@.len(),
                i <= n,
                forall|j: int| 0 <= j < i ==> (#[trigger] self.processed@[j].0) != key,
            decreases n - i,
        {
            if self.processed[i].0.0 == key.0 && self.processed[i].0.1 == key.1 {
                proof {
                    assert(self.processed@[i as int].0 == key);
                    lemma_lookup_at(self.processed@, key, i as int);
                }
                return true;
            }
            i = i + 1;
        }
        proof {
            lemma_lookup_absent(self.processed@, key);
        }
        false
    }

    /// The block stored under (slot, fec-set-index), if any.
    pub fn get_block(&self, slot: u64, fec_set_index: u32) -> (r: Option<&FecBlock>)
        requires
            self.wf(),
        ensures
            match r {
                Some(b) => sp_lookup(self.blocks@, (slot, fec_set_index)) == Some(*b) && b.wf(),
                None => sp_lookup(self.blocks@, (slot, fec_set_index)) is None,
            },
    {
        let key = (slot, fec_set_index);
        match self.find_block_index(key) {
            Some(i) => {
                proof {
                    lemma_lookup_at(self.blocks@, key, i as int);
                }
                Some(&self.blocks[i].1)
            },
            None => {
                proof {
                    lemma_lookup_absent(self.blocks@, key);
                }
                None
            },
        }
    }

    /// Take the block stored under (slot, fec-set-index) out of the store,
    /// for decoding.
    pub fn take_block(&mut self, slot: u64, fec_set_index: u32) -> (r: Option<FecBlock>)
        requires
            old(self).wf(),
        ensures
            final(self).wf(),
            final(self).processed@ == old(self).processed@,
            sp_lookup(final(self).blocks@, (slot, fec_set_index)) is None,
            forall|k2: (u64, u32)|
                k2 != (slot, fec_set_index) ==> #[trigger] sp_lookup(final(self).blocks@, k2)
                    == sp_lookup(old(self).blocks@, k2),
            match r {
                Some(b) => sp_lookup(old(self).blocks@, (slot, fec_set_index)) == Some(b) && b.wf(),
                None => sp_lookup(old(self).blocks@, (slot, fec_set_index)) is None,
            },
    {
        let key = (slot, fec_set_index);
        match self.find_block_index(key) {
            Some(i) => {
                proof {
                    lemma_lookup_at(self.blocks@, key, i as int);
                    assert forall|k2: (u64, u32)| true implies #[trigger] sp_lookup(
                        self.blocks@.remove(i as int),
                        k2,
                    ) == (if k2 == key {
                        None::<FecBlock>
                    } else {
                        sp_lookup(self.blocks@, k2)
                    }) by {
                        lemma_lookup_remove(self.blocks@, i as int, k2);
                    }
                }
                let ghost blocks0 = self.blocks@;
                let entry = self.blocks.remove(i);
                proof {
                    assert(forall|p: int|
                        0 <= p < self.blocks@.len() ==> self.blocks@[p] == (if p < i as int {
                            blocks0[p]
                        } else {
                            blocks0[p + 1]
                        }));
                }
                Some(entry.1)
            },
            None => {
                proof {
                    lemma_lookup_absent(self.blocks@, key);
                }
                None
            },
        }
    }

    /// Drop the block stored under (slot, fec-set-index), after its decode.
    pub fn remove_block(&mut self, slot: u64, fec_set_index: u32)
        requires
            old(self).wf(),
        ensures
            final(self).wf(),
            sp_lookup(final(self).blocks@, (slot, fec_set_index)) is None,
            forall|k2: (u64, u32)|
                k2 != (slot, fec_set_index) ==> #[trigger] sp_lookup(final(self).blocks@, k2)
                    == sp_lookup(old(self).blocks@, k2),
            final(self).processed@ == old(self).processed@,
    {
        let key = (slot, fec_set_index);
        match self.find_block_index(key) {
            Some(i) => {
                proof {
                    lemma_lookup_remove(self.blocks@, i as int, key);
                    assert(forall|k2: (u64, u32)|
                        k2 != key ==> #[trigger] sp_lookup(self.blocks@.remove(i as int), k2)
                            == sp_lookup(self.blocks@, k2)) by {
                        assert forall|k2: (u64, u32)| k2 != key implies #[trigger] sp_lookup(
                            self.blocks@.remove(i as int),
                            k2,
                        ) == sp_lookup(self.blocks@, k2) by {
                            lemma_lookup_remove(self.blocks@, i as int, k2);
                        }
                    }
                }
                let _ = self.blocks.remove(i);
                proof {
                    assert(forall|p: int|
                        0 <= p < self.blocks@.len() ==> self.blocks@[p] == (if p < i as int {
                            old(self).blocks@[p]
                        } else {
                            old(self).blocks@[p + 1]
                        }));
                }
            },
            None => {
                proof {
                    lemma_lookup_absent(self.blocks@, key);
                }
            },
        }
    }

    /// Add one parsed shred.  The block for the shred's (slot, fec-set-index)
    /// is found or created, the shred inserted, and on the insertion that
    /// first makes the group complete, the group is marked processed and
    /// `Completed` is returned, exactly once per group.
    pub fn add_shred(&mut self, shred: Shred, now: u64) -> (r: Result<
        CollectOutcome,
        FecBlockError,
    >)
        requires
            old(self).wf(),
        ensures
            final(self).wf(),
            r matches Ok(outcome) && sp_store_add(*old(self), shred, now, *final(self), outcome),
    {
        let key = (shred.slot, shred.fec_set_index);
        match self.find_block_index(key) {
            None => {
                proof {
                    lemma_lookup_absent(self.blocks@, key);
                }
                let mut b = FecBlock::new(shred.slot, shred.fec_set_index);
                let ghost pre_b = b;
                let ins = b.insert_shred(shred, now);
                proof {
                    assert(ins == Ok::<InsertKind, FecBlockError>(InsertKind::Inserted));
                }
                let complete = b.is_complete();
                let ghost blocks0 = self.blocks@;
                self.blocks.push((key, b));
                proof {
                    assert forall|k2: (u64, u32)| true implies #[trigger] sp_lookup(
                        self.blocks@,
                        k2,
                    ) == (if k2 == key {
                        Some(b)
                    } else {
                        sp_lookup(blocks0, k2)
                    }) by {
                        lemma_lookup_push(blocks0, key, b, k2);
                    }
                    assert(forall|p: int|
                        0 <= p < blocks0.len() ==> self.blocks@[p] == blocks0[p]);
                    assert forall|p: int, q: int|
                        0 <= p < q < self.blocks@.len() implies (#[trigger] self.blocks@[p].0) != (
                    #[trigger] self.blocks@[q].0) by {
                        if q == self.blocks@.len() - 1 {
                            if self.blocks@[p].0 == key {
                                assert(sp_has_key(blocks0, key));
                            }
                        }
                    }
                }
                self.finish_add(key, complete, now)
            },
            Some(i) => {
                proof {
                    lemma_lookup_at(self.blocks@, key, i as int);
                }
                let is_dup = {
                    let bref = &self.blocks[i].1;
                    match &shred.kind {
                        ShredKind::Data { .. } => find_key_shred(&bref.data_shreds, shred.index),
                        ShredKind::Coding { .. } => find_key_shred(
                            &bref.coding_shreds,
                            shred.index,
                        ),
                    }
                };
                if is_dup {
                    return Ok(CollectOutcome::Duplicate);
                }
                let ghost blocks0 = self.blocks@;
                let mut entry = self.blocks.remove(i);
                proof {
                    lemma_lookup_remove(blocks0, i as int, key);
                    assert(forall|p: int|
                        0 <= p < self.blocks@.len() ==> self.blocks@[p] == (if p < i as int {
                            blocks0[p]
                        } else {
                            blocks0[p + 1]
                        }));
                }
                let ghost pre_b = entry.1;
                let ins = entry.1.insert_shred(shred, now);
                proof {
                    assert(ins == Ok::<InsertKind, FecBlockError>(InsertKind::Inserted));
                }
                let complete = entry.1.is_complete();
                let ghost removed = self.blocks@;
                let ghost post_b = entry.1;
                self.blocks.push(entry);
                proof {
                    lemma_lookup_remove(blocks0, i as int, key);
                    assert forall|k2: (u64, u32)| true implies #[trigger] sp_lookup(
                        self.blocks@,
                        k2,
                    ) == (if k2 == key {
                        Some(post_b)
                    } else {
                        sp_lookup(blocks0, k2)
                    }) by {
                        lemma_lookup_remove(blocks0, i as int, k2);
                        lemma_lookup_push(removed, key, post_b, k2);
                    }
                    assert(forall|p: int|
                        0 <= p < removed.len() ==> self.blocks@[p] == removed[p]);
                    assert forall|p: int, q: int|
                        0 <= p < q < self.blocks@.len() implies (#[trigger] self.blocks@[p].0) != (
                    #[trigger] self.blocks@[q].0) by {
                        if q == self.blocks@.len() - 1 {
                            if self.blocks@[p].0 == key {
                                assert(sp_has_key(removed, key));
                                let w = choose|w: int|
                                    0 <= w < removed.len() && removed[w].0 == key;
                                if w < i as int {
                                    assert(blocks0[w].0 == key);
                                } else {
                                    assert(blocks0[w + 1].0 == key);
                                }
                            }
                        }
                    }
                }
                self.finish_add(key, complete, now)
            },
        }
    }

    /// Gate and collect one raw datagram.  A datagram shorter than the
    /// common header is dropped; a malformed shred is rejected; a shred of an
    /// already-processed group is suppressed; a shred whose index lies before
    /// its FEC-set index is rejected; anything else reaches `add_shred`.
    pub fn collect_shred(&mut self, shred_data: &[u8], now: u64) -> (r: Result<
        CollectOutcome,
        CollectShredsError,
    >)
        requires
            old(self).wf(),
        ensures
            final(self).wf(),
            ({
                let d = shred_data@;
                let key = ((sp_shred_slot(d) as u64), (sp_fec_set_index(d) as u32));
                match r {
                    Ok(CollectOutcome::TooShort) => d.len()
                        < crate::shred::SIZE_OF_COMMON_SHRED_HEADER && *final(self) == *old(self),
                    Err(CollectShredsError::GeneralError(CollectIssue::ShredCreation(_))) => d.len()
                        >= crate::shred::SIZE_OF_COMMON_SHRED_HEADER && !crate::shred::sp_shred_parse_ok(d)
                        && *final(self) == *old(self),
                    Ok(CollectOutcome::AlreadyProcessed) => crate::shred::sp_shred_parse_ok(d)
                        && sp_lookup(old(self).processed@, key) is Some && *final(self) == *old(
                        self,
                    ),
                    Err(
                        CollectShredsError::GeneralError(CollectIssue::IndexBeforeFecSetIndex),
                    ) => crate::shred::sp_shred_parse_ok(d) && sp_lookup(old(self).processed@, key)
                        is None && sp_shred_index(d) < sp_fec_set_index(d) && *final(self) == *old(
                        self,
                    ),
                    Ok(outcome) => crate::shred::sp_shred_parse_ok(d) && sp_lookup(
                        old(self).processed@,
                        key,
                    ) is None && sp_shred_index(d) >= sp_fec_set_index(d) && (exists|s: Shred|
                        #[trigger] crate::shred::sp_shred_matches(d, s) && sp_store_add(
                            *old(self),
                            s,
                            now,
                            *final(self),
                            outcome,
                        )),
                    Err(_) => false,
                }
            }),
    {
        if shred_data.len() < crate::shred::SIZE_OF_COMMON_SHRED_HEADER {
            return Ok(CollectOutcome::TooShort);
        }
        let shred = match Shred::from_bytes(shred_data) {
            Ok(s) => s,
            Err(e) => {
                return Err(CollectShredsError::GeneralError(CollectIssue::ShredCreation(e)));
            },
        };
        proof {
            assert(shred.slot == sp_shred_slot(shred_data@) as u64);
            assert(shred.fec_set_index == sp_fec_set_index(shred_data@) as u32);
            assert(shred.index == sp_shred_index(shred_data@) as u32);
        }
        if self.processed_contains(shred.slot, shred.fec_set_index) {
            return Ok(CollectOutcome::AlreadyProcessed);
        }
        if shred.index < shred.fec_set_index {
            return Err(
                CollectShredsError::GeneralError(CollectIssue::IndexBeforeFecSetIndex),
            );
        }
        let ghost s_w = shred;
        match self.add_shred(shred, now) {
            Ok(outcome) => {
                proof {
                    assert(crate::shred::sp_shred_matches(shred_data@, s_w) && sp_store_add(
                        *old(self),
                        s_w,
                        now,
                        *self,
                        outcome,
                    ));
                }
                Ok(outcome)
            },
            Err(e) => Err(CollectShredsError::FecBlockError(e)),
        }
    }

    /// Shared tail of `add_shred`: mark completion at most once.
    fn finish_add(&mut self, key: (u64, u32), complete: bool, now: u64) -> (r: Result<
        CollectOutcome,
        FecBlockError,
    >)
        requires
            old(self).wf(),
        ensures
            final(self).wf(),
            final(self).blocks@ == old(self).blocks@,
            match r {
                Ok(CollectOutcome::Completed) => complete && sp_lookup(old(self).processed@, key)
                    is None && sp_lookup(final(self).processed@, key) == Some(now) && (forall|
                    k2: (u64, u32),
                |
                    k2 != key ==> #[trigger] sp_lookup(final(self).processed@, k2) == sp_lookup(
                        old(self).processed@,
                        k2,
                    )),
                Ok(CollectOutcome::Stored) => final(self).processed@ == old(self).processed@ && !(
                complete && sp_lookup(old(self).processed@, key) is None),
                _ => false,
            },
    {
        if complete {
            if !self.processed_contains(key.0, key.1) {
                let ghost p0 = self.processed@;
                self.processed.push((key, now));
                proof {
                    assert forall|k2: (u64, u32)| true implies #[trigger] sp_lookup(
                        self.processed@,
                        k2,
                    ) == (if k2 == key {
                        Some(now)
                    } else {
                        sp_lookup(p0, k2)
                    }) by {
                        lemma_lookup_push(p0, key, now, k2);
                    }
                    assert(forall|p: int| 0 <= p < p0.len() ==> self.processed@[p] == p0[p]);
                    assert forall|p: int, q: int|
                        0 <= p < q < self.processed@.len() implies (#[trigger] self.processed@[p].0)
                        != (#[trigger] self.processed@[q].0) by {
                        if q == self.processed@.len() - 1 {
                            if self.processed@[p].0 == key {
                                lemma_lookup_at(p0, key, p);
                            }
                        }
                    }
                }
                return Ok(CollectOutcome::Completed);
            }
            return Ok(CollectOutcome::Stored);
        }
        Ok(CollectOutcome::Stored)
    }
}

/// True of a block whose collection clock started more than the expiry
/// window ago.
pub open spec fn sp_block_expired(b: FecBlock, now: u64) -> bool {
    b.collection_start matches Some(t) && now - t > BLOCK_EXPIRY_MICROS
}

/// True of a processed-set marker set more than the sweep window ago.
pub open spec fn sp_marker_expired(t: u64, now: u64) -> bool {
    now - t > PROCESSED_SWEEP_MICROS
}

impl FecStore {
    /// Sweep incomplete groups whose collection clock passed the expiry
    /// window; returns how many were dropped.
    pub fn sweep_expired_blocks(&mut self, now: u64) -> (removed: usize)
        requires
            old(self).wf(),
        ensures
            final(self).wf(),
            final(self).processed@ == old(self).processed@,
            forall|k: (u64, u32)|
                #[trigger] sp_lookup(final(self).blocks@, k) == (match sp_lookup(
                    old(self).blocks@,
                    k,
                ) {
                    Some(b) => if sp_block_expired(b, now) {
                        None::<FecBlock>
                    } else {
                        Some(b)
                    },
                    None => None::<FecBlock>,
                }),
            removed == old(self).blocks@.len() - final(self).blocks@.len(),
    {
        let mut src: Vec<((u64, u32), FecBlock)> = Vec::new();
        core::mem::swap(&mut self.blocks, &mut src);
        let ghost orig = src@;
        let n = src.len();
        let mut kept: Vec<((u64, u32), FecBlock)> = Vec::new();
        let mut i: usize = 0;
        while i < n
            invariant
                n == orig.len(),
                src@.len() == n,
                i <= n,
                kept@.len() <= i,
                forall|j: int| i <= j < n ==> src@[j] == orig[j],
                sp_keys_unique(orig),
                forall|j: int|
                    0 <= j < orig.len() ==> {
                        &&& (#[trigger] orig[j]).1.wf()
                        &&& orig[j].1.slot == orig[j].0.0
                        &&& orig[j].1.fec_set_index == orig[j].0.1
                    },
                sp_keys_unique(kept@),
                forall|j: int|
                    0 <= j < kept@.len() ==> {
                        &&& (#[trigger] kept@[j]).1.wf()
                        &&& kept@[j].1.slot == kept@[j].0.0
                        &&& kept@[j].1.fec_set_index == kept@[j].0.1
                        &&& !sp_block_expired(kept@[j].1, now)
                    },
                forall|k: (u64, u32)|
                    #[trigger] sp_lookup(kept@, k) == (match sp_lookup(
                        orig.subrange(0, i as int),
                        k,
                    ) {
                        Some(b) => if sp_block_expired(b, now) {
                            None::<FecBlock>
                        } else {
                            Some(b)
                        },
                        None => None::<FecBlock>,
                    }),
            decreases n - i,
        {
            let mut entry = ((0u64, 0u32), FecBlock::new(0, 0));
            src.set_and_swap(i, &mut entry);
            proof {
                assert(entry == orig[i as int]);
            }
            let expired = match entry.1.collection_start {
                Some(t) => t < now && now - t > BLOCK_EXPIRY_MICROS,
                None => false,
            };
            let ghost prefix = orig.subrange(0, i as int);
            proof {
                assert(orig.subrange(0, i + 1) =~= prefix.push(orig[i as int]));
                assert(!sp_has_key(prefix, orig[i as int].0)) by {
                    assert(forall|j: int| 0 <= j < i ==> prefix[j] == orig[j]);
                }
                lemma_lookup_absent(prefix, orig[i as int].0);
            }
            if !expired {
                let ghost kept0 = kept@;
                proof {
                    assert(sp_lookup(kept0, entry.0) is None);
                }
                kept.push(entry);
                proof {
                    assert forall|k: (u64, u32)| true implies #[trigger] sp_lookup(kept@, k) == (
                    if k == entry.0 {
                        Some(entry.1)
                    } else {
                        sp_lookup(kept0, k)
                    }) by {
                        lemma_lookup_push(kept0, entry.0, entry.1, k);
                    }
                    assert(forall|p: int| 0 <= p < kept0.len() ==> kept@[p] == kept0[p]);
                    assert forall|p: int, q: int|
                        0 <= p < q < kept@.len() implies (#[trigger] kept@[p].0) != (
                    #[trigger] kept@[q].0) by {
                        if q == kept@.len() - 1 && kept@[p].0 == entry.0 {
                            lemma_lookup_at(kept0, entry.0, p);
                        }
                    }
                    assert forall|k: (u64, u32)| true implies #[trigger] sp_lookup(
                        orig.subrange(0, i + 1),
                        k,
                    ) == (if k == orig[i as int].0 {
                        Some(orig[i as int].1)
                    } else {
                        sp_lookup(prefix, k)
                    }) by {
                        lemma_lookup_push(prefix, orig[i as int].0, orig[i as int].1, k);
                    }
                }
            } else {
                proof {
                    assert forall|k: (u64, u32)| true implies #[trigger] sp_lookup(
                        orig.subrange(0, i + 1),
                        k,
                    ) == (if k == orig[i as int].0 {
                        Some(orig[i as int].1)
                    } else {
                        sp_lookup(prefix, k)
                    }) by {
                        lemma_lookup_push(prefix, orig[i as int].0, orig[i as int].1, k);
                    }
                }
            }
            i = i + 1;
        }
        proof {
            assert(orig.subrange(0, n as int) =~= orig);
        }
        let kept_len = kept.len();
        self.blocks = kept;
        n - kept_len
    }

    /// Sweep processed-set markers older than the sweep window.
    pub fn sweep_processed(&mut self, now: u64)
        requires
            old(self).wf(),
        ensures
            final(self).wf(),
            final(self).blocks@ == old(self).blocks@,
            forall|k: (u64, u32)|
                #[trigger] sp_lookup(final(self).processed@, k) == (match sp_lookup(
                    old(self).processed@,
                    k,
                ) {
                    Some(t) => if sp_marker_expired(t, now) {
                        None::<u64>
                    } else {
                        Some(t)
                    },
                    None => None::<u64>,
                }),
    {
        let mut src: Vec<((u64, u32), u64)> = Vec::new();
        core::mem::swap(&mut self.processed, &mut src);
        let ghost orig = src@;
        let n = src.len();
        let mut kept: Vec<((u64, u32), u64)> = Vec::new();
        let mut i: usize = 0;
        while i < n
            invariant
                n == orig.len(),
                src@.len() == n,
                i <= n,
                forall|j: int| i <= j < n ==> src@[j] == orig[j],
                sp_keys_unique(orig),
                sp_keys_unique(kept@),
                forall|k: (u64, u32)|
                    #[trigger] sp_lookup(kept@, k) == (match sp_lookup(
                        orig.subrange(0, i as int),
                        k,
                    ) {
                        Some(t) => if sp_marker_expired(t, now) {
                            None::<u64>
                        } else {
                            Some(t)
                        },
                        None => None::<u64>,
                    }),
            decreases n - i,
        {
            let entry = src[i];
            proof {
                assert(entry == orig[i as int]);
            }
            let expired = entry.1 < now && now - entry.1 > PROCESSED_SWEEP_MICROS;
            let ghost prefix = orig.subrange(0, i as int);
            proof {
                assert(orig.subrange(0, i + 1) =~= prefix.push(orig[i as int]));
                assert(!sp_has_key(prefix, orig[i as int].0)) by {
                    assert(forall|j: int| 0 <= j < i ==> prefix[j] == orig[j]);
                }
                lemma_lookup_absent(prefix, orig[i as int].0);
                assert forall|k: (u64, u32)| true implies #[trigger] sp_lookup(
                    orig.subrange(0, i + 1),
                    k,
                ) == (if k == orig[i as int].0 {
                    Some(orig[i as int].1)
                } else {
                    sp_lookup(prefix, k)
                }) by {
                    lemma_lookup_push(prefix, orig[i as int].0, orig[i as int].1, k);
                }
            }
            if !expired {
                let ghost kept0 = kept@;
                proof {
                    assert(sp_lookup(kept0, entry.0) is None);
                }
                kept.push(entry);
                proof {
                    assert forall|k: (u64, u32)| true implies #[trigger] sp_lookup(kept@, k) == (
                    if k == entry.0 {
                        Some(entry.1)
                    } else {
                        sp_lookup(kept0, k)
                    }) by {
                        lemma_lookup_push(kept0, entry.0, entry.1, k);
                    }
                    assert(forall|p: int| 0 <= p < kept0.len() ==> kept@[p] == kept0[p]);
                    assert forall|p: int, q: int|
                        0 <= p < q < kept@.len() implies (#[trigger] kept@[p].0) != (
                    #[trigger] kept@[q].0) by {
                        if q == kept@.len() - 1 && kept@[p].0 == entry.0 {
                            lemma_lookup_at(kept0, entry.0, p);
                        }
                    }
                }
            }
            i = i + 1;
        }
        proof {
            assert(orig.subrange(0, n as int) =~= orig);
        }
        self.processed = kept;
    }
}

/// A group completes at most once: once an arrival has completed the group
/// (slot, fec-set-index) and its processed-set marker is still standing, no
/// later arrival for that group can complete it again — late duplicates are
/// suppressed, so each group's decode is emitted at most once.
pub proof fn lemma_no_duplicate_completion(
    s0: FecStore,
    sh1: Shred,
    t1: u64,
    s1: FecStore,
    s2: FecStore,
    sh2: Shred,
    t2: u64,
    s3: FecStore,
    outcome: CollectOutcome,
)
    requires
        sp_store_add(s0, sh1, t1, s1, CollectOutcome::Completed),
        sh2.slot == sh1.slot,
        sh2.fec_set_index == sh1.fec_set_index,
        sp_lookup(s2.processed@, (sh1.slot, sh1.fec_set_index)) == sp_lookup(
            s1.processed@,
            (sh1.slot, sh1.fec_set_index),
        ),
        sp_store_add(s2, sh2, t2, s3, outcome),
    ensures
        outcome != CollectOutcome::Completed,
{
}

/// A duplicate arrival is a silent no-op: the store's blocks and
/// processed-set are unchanged under every key.
pub proof fn lemma_duplicate_is_noop(pre: FecStore, sh: Shred, t: u64, post: FecStore)
    requires
        sp_store_add(pre, sh, t, post, CollectOutcome::Duplicate),
    ensures
        forall|k: (u64, u32)| #[trigger] sp_lookup(post.blocks@, k) == sp_lookup(pre.blocks@, k),
        post.processed@ == pre.processed@,
{
}

/// Whether a shred map holds a shred at index `k`.
pub fn find_key_shred(entries: &Vec<(u32, Shred)>, k: u32) -> (r: bool)
    ensures
        r == sp_has_key(entries@, k),
{
    let n = entries.len();
    let mut i: usize = 0;
    while i < n
        invariant
            n == entries@.len(),
            i <= n,
            forall|j: int| 0 <= j < i ==> (#[trigger] entries@[j].0) != k,
        decreases n - i,
    {
        if entries[i].0 == k {
            return true;
        }
        i = i + 1;
    }
    false
}

} // verus!
