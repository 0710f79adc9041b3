//! Per-slot statistics: counters accumulated while a slot's FEC groups are
//! collected and decoded, and the bounded list that the diagnostic file
//! holds.

use vstd::prelude::*;
use crate::fec::{sp_lookup, sp_keys_unique, lemma_lookup_at, lemma_lookup_absent, lemma_lookup_push, lemma_lookup_remove};

verus! {

/// The most recent slots the diagnostic list keeps.
pub const SLOT_STATS_CAPACITY: usize = 500;

/// The counters kept for one slot.
#[derive(Clone, Copy, Debug, PartialEq, Eq, Structural)]
pub struct SlotCounters {
    pub fec_blocks_count: u64,
    pub tx_count: u64,
    pub fec_blocks_complete: u64,
    pub fec_blocks_incomplete: u64,
}

/// The per-slot counter table, keyed by slot.
pub struct SlotStats {
    pub entries: Vec<(u64, SlotCounters)>,
}

impl SlotStats {
    /// Internal consistency: one entry per slot.
    pub open spec fn wf(self) -> bool {
        sp_keys_unique(self.entries@)
    }

    /// An empty table.
    pub fn new() -> (r: SlotStats)
        ensures
            r.wf(),
            r.entries@ == Seq::<(u64, SlotCounters)>::empty(),
    {
        SlotStats { entries: Vec::new() }
    }

    /// Position of the entry for `slot`, if any.
    fn find_slot(&self, slot: u64) -> (r: Option<usize>)
        ensures
            match r {
                Some(i) => i < self.entries@.len() && self.entries@[i as int].0 == slot,
                None => forall|j: int|
                    0 <= j < self.entries@.len() ==> (#[trigger] self.entries@[j].0) != slot,
            },
    {
        let n = self.entries.len();
        let mut i: usize = 0;
        while i < n
            invariant
                n == self.entries@.len(),
                i <= n,
                forall|j: int| 0 <= j < i ==> (#[trigger] self.entries@[j].0) != slot,
            decreases n - i,
        {
            if self.entries[i].0 == slot {
                return Some(i);
            }
            i = i + 1;
        }
        None
    }

    /// The counters recorded for `slot`, if any.
    pub fn get(&self, slot: u64) -> (r: Option<SlotCounters>)
        requires
            self.wf(),
        ensures
            r == sp_lookup(self.entries@, slot),
    {
        match self.find_slot(slot) {
            Some(i) => {
                proof {
                    lemma_lookup_at(self.entries@, slot, i as int);
                }
                Some(self.entries[i].1)
            },
            None => {
                proof {
                    lemma_lookup_absent(self.entries@, slot);
                }
                None
            },
        }
    }

    /// Add the given amounts to a slot's counters, creating the slot's
    /// entry at zero first if none stands; each counter saturates.
    pub fn increment_slot_counters(
        &mut self,
        slot: u64,
        fec_blocks_count: u64,
        tx_count: u64,
        fec_blocks_complete: u64,
        fec_blocks_incomplete: u64,
    )
        requires
            old(self).wf(),
        ensures
            final(self).wf(),
            ({
                let pre = match sp_lookup(old(self).entries@, slot) {
                    Some(c) => c,
                    None => SlotCounters {
                        fec_blocks_count: 0,
                        tx_count: 0,
                        fec_blocks_complete: 0,
                        fec_blocks_incomplete: 0,
                    },
                };
                sp_lookup(final(self).entries@, slot) == Some(
                    SlotCounters {
                        fec_blocks_count: sp_sat_add(pre.fec_blocks_count, fec_blocks_count),
                        tx_count: sp_sat_add(pre.tx_count, tx_count),
                        fec_blocks_complete: sp_sat_add(
                            pre.fec_blocks_complete,
                            fec_blocks_complete,
                        ),
                        fec_blocks_incomplete: sp_sat_add(
                            pre.fec_blocks_incomplete,
                            fec_blocks_incomplete,
                        ),
                    },
                )
            }),
            forall|s2: u64|
                s2 != slot ==> #[trigger] sp_lookup(final(self).entries@, s2) == sp_lookup(
                    old(self).entries@,
                    s2,
                ),
    {
        let pre = match self.find_slot(slot) {
            Some(i) => {
                proof {
                    lemma_lookup_at(self.entries@, slot, i as int);
                }
                let c = self.entries[i].1;
                let ghost e0 = self.entries@;
                let _ = self.entries.remove(i);
                proof {
                    assert forall|s2: u64| true implies #[trigger] sp_lookup(self.entries@, s2)
                        == (if s2 == slot {
                        None::<SlotCounters>
                    } else {
                        sp_lookup(e0, s2)
                    }) by {
                        lemma_lookup_remove(e0, i as int, s2);
                    }
                }
                c
            },
            None => {
                proof {
                    lemma_lookup_absent(self.entries@, slot);
                }
                SlotCounters {
                    fec_blocks_count: 0,
                    tx_count: 0,
                    fec_blocks_complete: 0,
                    fec_blocks_incomplete: 0,
                }
            },
        };
        let updated = SlotCounters {
            fec_blocks_count: sat_add(pre.fec_blocks_count, fec_blocks_count),
            tx_count: sat_add(pre.tx_count, tx_count),
            fec_blocks_complete: sat_add(pre.fec_blocks_complete, fec_blocks_complete),
            fec_blocks_incomplete: sat_add(pre.fec_blocks_incomplete, fec_blocks_incomplete),
        };
        let ghost e1 = self.entries@;
        proof {
            lemma_lookup_absent(e1, slot);
        }
        self.entries.push((slot, updated));
        proof {
            assert forall|s2: u64| true implies #[trigger] sp_lookup(self.entries@, s2) == (if s2
                == slot {
                Some(updated)
            } else {
                sp_lookup(e1, s2)
            }) by {
                lemma_lookup_push(e1, slot, updated, s2);
            }
            assert(forall|p: int| 0 <= p < e1.len() ==> self.entries@[p] == e1[p]);
            assert forall|p: int, q: int|
                0 <= p < q < self.entries@.len() implies (#[trigger] self.entries@[p].0) != (
            #[trigger] self.entries@[q].0) by {
                if q == self.entries@.len() - 1 && self.entries@[p].0 == slot {
                    lemma_lookup_at(e1, slot, p);
                }
            }
        }
    }
}

/// Saturating addition on `u64`.
pub open spec fn sp_sat_add(a: u64, b: u64) -> u64 {
    if a + b > u64::MAX {
        u64::MAX
    } else {
        (a + b) as u64
    }
}

/// Saturating addition on `u64`.
pub fn sat_add(a: u64, b: u64) -> (r: u64)
    ensures
        r == sp_sat_add(a, b),
{
    if a <= u64::MAX - b {
        a + b
    } else {
        u64::MAX
    }
}

/// Position of the first entry of `s` keyed `slot`, or the length when none
/// is.
pub open spec fn sp_index_of_slot(s: Seq<(u64, SlotCounters)>, slot: u64) -> int
    decreases s.len(),
{
    if s.len() == 0 {
        0
    } else if s[0].0 == slot {
        0
    } else {
        1 + sp_index_of_slot(s.drop_first(), slot)
    }
}

/// The updated diagnostic slot list: the first entry for `slot` (if any) is
/// dropped, the oldest entry makes room when the list is still at capacity,
/// and the new entry goes to the back.
pub open spec fn sp_upsert_slot_stats(
    list: Seq<(u64, SlotCounters)>,
    slot: u64,
    counters: SlotCounters,
) -> Seq<(u64, SlotCounters)> {
    let j = sp_index_of_slot(list, slot);
    let pruned = if j < list.len() {
        list.remove(j)
    } else {
        list
    };
    let bounded = if pruned.len() >= SLOT_STATS_CAPACITY {
        pruned.drop_first()
    } else {
        pruned
    };
    bounded.push((slot, counters))
}

/// The first-match position is in range and correct.
proof fn lemma_index_of_slot(s: Seq<(u64, SlotCounters)>, slot: u64)
    ensures
        0 <= sp_index_of_slot(s, slot) <= s.len(),
        sp_index_of_slot(s, slot) < s.len() ==> s[sp_index_of_slot(s, slot)].0 == slot,
        forall|p: int| 0 <= p < sp_index_of_slot(s, slot) ==> (#[trigger] s[p].0) != slot,
    decreases s.len(),
{
    if s.len() > 0 && s[0].0 != slot {
        lemma_index_of_slot(s.drop_first(), slot);
        assert(forall|p: int| 0 <= p < s.drop_first().len() ==> s.drop_first()[p] == s[p + 1]);
        let j = sp_index_of_slot(s, slot);
        assert(j == 1 + sp_index_of_slot(s.drop_first(), slot));
        assert forall|p: int| 0 <= p < j implies (#[trigger] s[p].0) != slot by {
            if p > 0 {
                assert(s.drop_first()[p - 1].0 != slot);
            }
        }
    }
}

/// Update the diagnostic slot list with one slot's final counters.
pub fn upsert_slot_stats(
    list: Vec<(u64, SlotCounters)>,
    slot: u64,
    counters: SlotCounters,
) -> (r: Vec<(u64, SlotCounters)>)
    ensures
        r@ == sp_upsert_slot_stats(list@, slot, counters),
{
    let mut v = list;
    let ghost l0 = v@;
    let n = v.len();
    let mut i: usize = 0;
    let mut found: Option<usize> = None;
    while i < n
        invariant
            n == v@.len(),
            i <= n,
            found matches Some(j) ==> j < i && v@[j as int].0 == slot && (forall|p: int|
                0 <= p < j ==> (#[trigger] v@[p].0) != slot),
            found is None ==> forall|j: int| 0 <= j < i ==> (#[trigger] v@[j].0) != slot,
        decreases n - i,
    {
        if v[i].0 == slot && found.is_none() {
            found = Some(i);
        }
        i = i + 1;
    }
    proof {
        lemma_index_of_slot(l0, slot);
    }
    match found {
        Some(j) => {
            proof {
                assert(sp_index_of_slot(l0, slot) == j as int) by {
                    if sp_index_of_slot(l0, slot) < j as int {
                        assert(l0[sp_index_of_slot(l0, slot)].0 != slot);
                    }
                    if sp_index_of_slot(l0, slot) > j as int {
                        assert(l0[j as int].0 != slot);
                    }
                }
            }
            let _ = v.remove(j);
        },
        None => {
            proof {
                assert(sp_index_of_slot(l0, slot) == l0.len()) by {
                    if sp_index_of_slot(l0, slot) < l0.len() {
                        assert(l0[sp_index_of_slot(l0, slot)].0 == slot);
                    }
                }
            }
        },
    }
    let ghost l1 = v@;
    if v.len() >= SLOT_STATS_CAPACITY {
        let _ = v.remove(0);
        proof {
            assert(v@ =~= l1.drop_first());
        }
    }
    v.push((slot, counters));
    v
}

} // verus!
