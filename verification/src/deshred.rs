//! Payload reconstruction: order a group's Data shreds by shred index and
//! concatenate their payload regions.  This is the inverse of the producer's
//! shredding, which splits a block payload into consecutive payload regions
//! carried by Data shreds of consecutive indices.

use vstd::prelude::*;
use vstd::multiset::Multiset;
use crate::fec::{FecBlock, FecBlockError};
use crate::shred::Shred;

verus! {

broadcast use
    vstd::seq_lib::group_to_multiset_ensures,
    vstd::multiset::group_multiset_axioms,
    vstd::multiset::group_multiset_properties,
    vstd::multiset::lemma_multiset_empty_len,
;

/// Non-decreasing shred-index order.
pub open spec fn sp_sorted_by_index(s: Seq<Shred>) -> bool {
    forall|i: int, j: int| 0 <= i < j < s.len() ==> (#[trigger] s[i]).index <= (#[trigger] s[j]).index
}

/// Pairwise-distinct shred indices.
pub open spec fn sp_indices_distinct(s: Seq<Shred>) -> bool {
    forall|i: int, j: int| 0 <= i < j < s.len() ==> (#[trigger] s[i]).index != (#[trigger] s[j]).index
}

/// The concatenation of the shreds' payload regions, in sequence order.
pub open spec fn sp_concat_payloads(s: Seq<Shred>) -> Seq<u8>
    decreases s.len(),
{
    if s.len() == 0 {
        Seq::empty()
    } else {
        s.first().payload@ + sp_concat_payloads(s.drop_first())
    }
}

/// Appending one shred appends its payload region.
pub proof fn lemma_concat_payloads_push(s: Seq<Shred>, x: Shred)
    ensures
        sp_concat_payloads(s.push(x)) == sp_concat_payloads(s) + x.payload@,
    decreases s.len(),
{
    if s.len() == 0 {
        assert(s.push(x).drop_first() =~= Seq::<Shred>::empty());
        assert(sp_concat_payloads(Seq::<Shred>::empty()) == Seq::<u8>::empty());
        assert(sp_concat_payloads(s) + x.payload@ =~= x.payload@);
        assert(s.push(x).first() == x);
        assert(sp_concat_payloads(s.push(x)) =~= x.payload@ + Seq::<u8>::empty());
    } else {
        assert(s.push(x).drop_first() =~= s.drop_first().push(x));
        lemma_concat_payloads_push(s.drop_first(), x);
        assert(s.push(x).first() == s.first());
        assert(s.first().payload@ + (sp_concat_payloads(s.drop_first()) + x.payload@)
            =~= (s.first().payload@ + sp_concat_payloads(s.drop_first())) + x.payload@);
    }
}

/// Two index-sorted arrangements of the same shreds are identical, provided
/// the first has pairwise-distinct indices.
pub proof fn lemma_sorted_arrangement_unique(x: Seq<Shred>, y: Seq<Shred>)
    requires
        sp_sorted_by_index(x),
        sp_sorted_by_index(y),
        sp_indices_distinct(x),
        x.to_multiset() == y.to_multiset(),
    ensures
        x == y,
    decreases x.len(),
{
    if x.len() == 0 || y.len() == 0 {
        assert(x.to_multiset().len() == x.len());
        assert(y.to_multiset().len() == y.len());
        assert(x =~= y);
    } else {
        assert(x.to_multiset().len() == x.len());
        assert(y.to_multiset().len() == y.len());
        assert(y.contains(y[0]));
        assert(y.to_multiset().count(y[0]) > 0);
        assert(x.to_multiset().count(y[0]) > 0);
        assert(x.contains(y[0]));
        let i = choose|i: int| 0 <= i < x.len() && x[i] == y[0];
        assert(x.contains(x[0]));
        assert(x.to_multiset().count(x[0]) > 0);
        assert(y.to_multiset().count(x[0]) > 0);
        assert(y.contains(x[0]));
        let j = choose|j: int| 0 <= j < y.len() && y[j] == x[0];
        assert(x[0].index <= x[i].index);
        assert(y[0].index <= y[j].index);
        assert(x[0].index == y[0].index);
        if i != 0 {
            assert(x[0].index != x[i].index);
            assert(false);
        }
        assert(x[0] == y[0]);
        assert(x.remove(0).to_multiset() == x.to_multiset().remove(x[0]));
        assert(y.remove(0).to_multiset() == y.to_multiset().remove(y[0]));
        assert(x.remove(0) =~= x.drop_first());
        assert(y.remove(0) =~= y.drop_first());
        assert(sp_sorted_by_index(x.drop_first()) && sp_indices_distinct(x.drop_first())) by {
            assert(forall|p: int|
                0 <= p < x.drop_first().len() ==> x.drop_first()[p] == x[p + 1]);
        }
        assert(sp_sorted_by_index(y.drop_first())) by {
            assert(forall|p: int|
                0 <= p < y.drop_first().len() ==> y.drop_first()[p] == y[p + 1]);
        }
        lemma_sorted_arrangement_unique(x.drop_first(), y.drop_first());
        assert(x =~= y) by {
            assert(forall|p: int| 1 <= p < x.len() ==> x[p] == x.drop_first()[p - 1]);
            assert(forall|p: int| 1 <= p < y.len() ==> y[p] == y.drop_first()[p - 1]);
        }
    }
}

/// Pairwise-distinct indices survive rearrangement: a sequence holding the
/// same shreds as a distinct-index sequence has distinct indices itself.
pub proof fn lemma_indices_distinct_transfer(x: Seq<Shred>, y: Seq<Shred>)
    requires
        x.to_multiset() == y.to_multiset(),
        sp_indices_distinct(x),
    ensures
        sp_indices_distinct(y),
{
    assert forall|i: int, j: int| 0 <= i < j < y.len() implies (#[trigger] y[i]).index != (
    #[trigger] y[j]).index by {
        if y[i].index == y[j].index {
            if y[i] == y[j] {
                assert(y.remove(j).to_multiset() == y.to_multiset().remove(y[j]));
                assert(y.remove(j)[i] == y[i]);
                assert(y.remove(j).contains(y[i]));
                assert(y.remove(j).to_multiset().count(y[i]) > 0);
                assert(y.to_multiset().count(y[i]) >= 2);
                assert(x.to_multiset().count(y[i]) >= 2);
                assert(x.contains(y[i]));
                let p = choose|p: int| 0 <= p < x.len() && x[p] == y[i];
                assert(x.remove(p).to_multiset() == x.to_multiset().remove(x[p]));
                assert(x.remove(p).to_multiset().count(y[i]) > 0);
                assert(x.remove(p).contains(y[i]));
                let q0 = choose|q0: int| 0 <= q0 < x.remove(p).len() && x.remove(p)[q0] == y[i];
                let q = if q0 < p {
                    q0
                } else {
                    q0 + 1
                };
                assert(x.remove(p)[q0] == x[q]);
                assert(x[p].index == x[q].index && p != q);
                assert(false);
            } else {
                assert(y.contains(y[i]));
                assert(y.to_multiset().count(y[i]) > 0);
                assert(x.to_multiset().count(y[i]) > 0);
                assert(x.contains(y[i]));
                assert(y.contains(y[j]));
                assert(y.to_multiset().count(y[j]) > 0);
                assert(x.to_multiset().count(y[j]) > 0);
                assert(x.contains(y[j]));
                let p = choose|p: int| 0 <= p < x.len() && x[p] == y[i];
                let q = choose|q: int| 0 <= q < x.len() && x[q] == y[j];
                assert(p != q);
                assert(x[p].index == x[q].index);
                assert(false);
            }
        }
    }
}

/// Payload reconstruction is a function of the shred multiset alone: any two
/// index-sorted arrangements of the same distinct-index shreds concatenate to
/// the same payload bytes.
pub proof fn lemma_reconstruction_deterministic(x: Seq<Shred>, y: Seq<Shred>)
    requires
        sp_sorted_by_index(x),
        sp_sorted_by_index(y),
        sp_indices_distinct(x),
        x.to_multiset() == y.to_multiset(),
    ensures
        sp_concat_payloads(x) == sp_concat_payloads(y),
{
    lemma_sorted_arrangement_unique(x, y);
}

/// The concatenation of the producer's payload chunks.
pub open spec fn sp_concat_chunks(chunks: Seq<Seq<u8>>) -> Seq<u8>
    decreases chunks.len(),
{
    if chunks.len() == 0 {
        Seq::empty()
    } else {
        chunks.first() + sp_concat_chunks(chunks.drop_first())
    }
}

/// Shreds whose payload regions are the chunks, in order, concatenate to the
/// chunks' concatenation.
proof fn lemma_concat_matches(shreds: Seq<Shred>, chunks: Seq<Seq<u8>>)
    requires
        shreds.len() == chunks.len(),
        forall|j: int| 0 <= j < shreds.len() ==> (#[trigger] shreds[j]).payload@ == chunks[j],
    ensures
        sp_concat_payloads(shreds) == sp_concat_chunks(chunks),
    decreases shreds.len(),
{
    if shreds.len() > 0 {
        assert(forall|p: int|
            0 <= p < shreds.drop_first().len() ==> shreds.drop_first()[p] == shreds[p + 1]);
        assert(forall|p: int|
            0 <= p < chunks.drop_first().len() ==> chunks.drop_first()[p] == chunks[p + 1]);
        lemma_concat_matches(shreds.drop_first(), chunks.drop_first());
    }
}

/// Recovery correctness: let the producer shred a block payload into chunks,
/// chunk `j` carried by the Data shred of index `fec + j`.  Whenever the full
/// set of those Data shreds is at hand — arrived in any order, directly or
/// through erasure recovery — ordering them by index and concatenating their
/// payload regions reproduces the producer's original payload exactly.
pub proof fn lemma_recovery_correctness(
    chunks: Seq<Seq<u8>>,
    fec: u32,
    shreds: Seq<Shred>,
    arrived: Seq<Shred>,
    sorted: Seq<Shred>,
)
    requires
        shreds.len() == chunks.len(),
        forall|j: int|
            0 <= j < shreds.len() ==> (#[trigger] shreds[j]).index == fec + j && shreds[j].payload@
                == chunks[j],
        arrived.to_multiset() == shreds.to_multiset(),
        sp_sorted_by_index(sorted),
        sorted.to_multiset() == arrived.to_multiset(),
    ensures
        sp_concat_payloads(sorted) == sp_concat_chunks(chunks),
{
    assert(sp_sorted_by_index(shreds));
    assert(sp_indices_distinct(shreds));
    lemma_sorted_arrangement_unique(shreds, sorted);
    lemma_concat_matches(shreds, chunks);
}

/// The Data shreds stored in a block, in storage order.
pub open spec fn sp_block_data_shreds(b: FecBlock) -> Seq<Shred> {
    b.data_shreds@.map_values(|p: (u32, Shred)| p.1)
}

/// A well-formed block stores Data shreds of pairwise-distinct indices, so
/// its reconstruction is pinned by `lemma_reconstruction_deterministic`.
pub proof fn lemma_block_data_indices_distinct(b: FecBlock)
    requires
        b.wf(),
    ensures
        sp_indices_distinct(sp_block_data_shreds(b)),
{
    assert forall|i: int, j: int|
        0 <= i < j < sp_block_data_shreds(b).len() implies (#[trigger] sp_block_data_shreds(b)[i])
        .index != (#[trigger] sp_block_data_shreds(b)[j]).index by {
        assert(b.data_shreds@[i].0 != b.data_shreds@[j].0);
        assert(b.data_shreds@[i].0 == b.data_shreds@[i].1.index);
        assert(b.data_shreds@[j].0 == b.data_shreds@[j].1.index);
    }
}

/// Sort shreds by shred index: the result is ordered and holds exactly the
/// input shreds.
pub fn sort_shreds_by_index(v: Vec<Shred>) -> (r: Vec<Shred>)
    ensures
        sp_sorted_by_index(r@),
        r@.to_multiset() == v@.to_multiset(),
        r@.len() == v@.len(),
{
    let mut src = v;
    let mut out: Vec<Shred> = Vec::new();
    let ghost all = src@.to_multiset();
    proof {
        assert(out@.to_multiset().add(src@.to_multiset()) =~= all);
    }
    while src.len() > 0
        invariant
            sp_sorted_by_index(out@),
            out@.to_multiset().add(src@.to_multiset()) == all,
            all == out@.to_multiset().add(src@.to_multiset()),
            out@.len() + src@.len() == all.len(),
            forall|p: int, q: int|
                0 <= p < out@.len() && 0 <= q < src@.len() ==> (#[trigger] out@[p]).index <= (
                #[trigger] src@[q]).index,
        decreases src.len(),
    {
        let n = src.len();
        let mut min_j: usize = 0;
        let mut jj: usize = 1;
        while jj < n
            invariant
                n == src@.len(),
                min_j < n,
                jj <= n,
                forall|q: int| 0 <= q < jj ==> src@[min_j as int].index <= (#[trigger] src@[q]).index,
            decreases n - jj,
        {
            if src[jj].index < src[min_j].index {
                min_j = jj;
            }
            jj = jj + 1;
        }
        let ghost src0 = src@;
        let ghost out0 = out@;
        let s = src.remove(min_j);
        proof {
            assert(src@ =~= src0.remove(min_j as int));
            assert(src0.remove(min_j as int).to_multiset() == src0.to_multiset().remove(s));
            assert(src0.contains(s)) by {
                assert(src0[min_j as int] == s);
            }
            assert(src0.to_multiset().count(s) > 0);
        }
        out.push(s);
        proof {
            assert(out@ =~= out0.push(s));
            assert(out0.push(s).to_multiset() == out0.to_multiset().insert(s));
            assert(out@.to_multiset() =~= out0.to_multiset().insert(s));
            assert(out@.to_multiset().add(src@.to_multiset()) =~= all) by {
                assert(out0.to_multiset().insert(s).add(src0.to_multiset().remove(s))
                    =~= out0.to_multiset().add(src0.to_multiset()));
            }
            assert(forall|p: int| 0 <= p < out0.len() ==> out@[p] == out0[p]);
            assert(out@[out@.len() - 1] == s);
            assert forall|p: int, q: int|
                0 <= p < q < out@.len() implies (#[trigger] out@[p]).index <= (
            #[trigger] out@[q]).index by {
                if q == out@.len() - 1 {
                    assert(out0[p].index <= src0[min_j as int].index);
                }
            }
            assert forall|p: int, q: int|
                0 <= p < out@.len() && 0 <= q < src@.len() implies (#[trigger] out@[p]).index <= (
            #[trigger] src@[q]).index by {
                if p < out@.len() - 1 {
                    if q < min_j as int {
                        assert(src@[q] == src0[q]);
                    } else {
                        assert(src@[q] == src0[q + 1]);
                    }
                } else {
                    if q < min_j as int {
                        assert(src@[q] == src0[q]);
                        assert(s.index <= src0[q].index);
                    } else {
                        assert(src@[q] == src0[q + 1]);
                        assert(s.index <= src0[q + 1].index);
                    }
                }
            }
        }
    }
    out
}

/// Concatenate the payload regions of `shreds` in sequence order; an empty
/// set reconstructs nothing and is an error.
pub fn reconstruct_full_payload(shreds: &Vec<Shred>) -> (r: Result<Vec<u8>, FecBlockError>)
    ensures
        match r {
            Ok(p) => shreds@.len() > 0 && p@ == sp_concat_payloads(shreds@),
            Err(e) => e == FecBlockError::FullPayloadReconstructionError && shreds@.len() == 0,
        },
{
    if shreds.len() == 0 {
        return Err(FecBlockError::FullPayloadReconstructionError);
    }
    let mut out: Vec<u8> = Vec::new();
    let n = shreds.len();
    let mut i: usize = 0;
    while i < n
        invariant
            n == shreds@.len(),
            i <= n,
            out@ == sp_concat_payloads(shreds@.subrange(0, i as int)),
        decreases n - i,
    {
        let payload = &shreds[i].payload;
        let m = payload.len();
        let mut j: usize = 0;
        while j < m
            invariant
                i < shreds@.len(),
                m == shreds@[i as int].payload@.len(),
                payload == &shreds@[i as int].payload,
                j <= m,
                out@ == sp_concat_payloads(shreds@.subrange(0, i as int)) + shreds@[
                    i as int
                ].payload@.subrange(0, j as int),
            decreases m - j,
        {
            out.push(payload[j]);
            proof {
                assert(out@ =~= sp_concat_payloads(shreds@.subrange(0, i as int)) + shreds@[
                    i as int
                ].payload@.subrange(0, j + 1));
            }
            j = j + 1;
        }
        proof {
            assert(shreds@[i as int].payload@.subrange(0, m as int) =~= shreds@[
                i as int
            ].payload@);
            lemma_concat_payloads_push(shreds@.subrange(0, i as int), shreds@[i as int]);
            assert(shreds@.subrange(0, i + 1) =~= shreds@.subrange(0, i as int).push(
                shreds@[i as int],
            ));
        }
        i = i + 1;
    }
    proof {
        assert(shreds@.subrange(0, n as int) =~= shreds@);
    }
    Ok(out)
}

/// Decode one complete FEC group: take the block's stored Data shreds
/// together with any Data shreds an erasure recovery step supplied, order
/// them by shred index, and concatenate their payload regions.  The result is
/// the reconstructed block payload and the block's slot.
pub fn decode_fec_block(fec_block: FecBlock, recovered: Vec<Shred>) -> (r: Result<
    (Vec<u8>, u64),
    FecBlockError,
>)
    ensures
        ({
            let combined = sp_block_data_shreds(fec_block) + recovered@.filter(
                |s: Shred| s.kind is Data,
            );
            match r {
                Ok(p) => p.1 == fec_block.slot && combined.len() > 0 && (exists|sorted: Seq<Shred>|
                    {
                        &&& #[trigger] sp_sorted_by_index(sorted)
                        &&& sorted.to_multiset() == combined.to_multiset()
                        &&& p.0@ == sp_concat_payloads(sorted)
                    }) && (sp_indices_distinct(combined) ==> (forall|s2: Seq<Shred>|
                    #[trigger] sp_sorted_by_index(s2) && s2.to_multiset() == combined.to_multiset()
                        ==> p.0@ == sp_concat_payloads(s2))),
                Err(e) => e == FecBlockError::FullPayloadReconstructionError && combined.len()
                    == 0,
            }
        }),
{
    let ghost fb = fec_block;
    let slot = fec_block.slot;
    let mut ds = fec_block.data_shreds;
    let ghost ds0 = ds@;
    let ghost base_ms = sp_block_data_shreds(fb).to_multiset();
    let mut local: Vec<Shred> = Vec::new();
    proof {
        assert(ds0.map_values(|p: (u32, Shred)| p.1) == sp_block_data_shreds(fb));
        assert(local@.to_multiset().add(ds@.map_values(|p: (u32, Shred)| p.1).to_multiset())
            =~= base_ms);
    }
    loop
        invariant
            local@.to_multiset().add(ds@.map_values(|p: (u32, Shred)| p.1).to_multiset())
                == base_ms,
            local@.len() + ds@.len() >= ds0.len(),
        ensures
            ds@.len() == 0,
            local@.to_multiset() == base_ms,
        decreases ds.len(),
    {
        let ghost dsv = ds@;
        let ghost localv = local@;
        match ds.pop() {
            Some(p) => {
                local.push(p.1);
                proof {
                    let m = dsv.map_values(|q: (u32, Shred)| q.1);
                    assert(dsv.drop_last().map_values(|q: (u32, Shred)| q.1) =~= m.drop_last());
                    assert(m.drop_last() =~= m.remove(m.len() - 1));
                    assert(m.remove(m.len() - 1).to_multiset() == m.to_multiset().remove(
                        m[m.len() - 1],
                    ));
                    assert(m.contains(m[m.len() - 1]));
                    assert(m.to_multiset().count(m[m.len() - 1]) > 0);
                    assert(local@ =~= localv.push(p.1));
                    assert(p.1 == m[m.len() - 1]);
                    assert(localv.push(p.1).to_multiset() == localv.to_multiset().insert(p.1));
                    assert(local@.to_multiset() == localv.to_multiset().insert(p.1));
                    assert(local@.to_multiset().add(m.to_multiset().remove(p.1)) =~= localv
                        .to_multiset().add(m.to_multiset()));
                }
            },
            None => {
                proof {
                    assert(ds@.map_values(|q: (u32, Shred)| q.1) =~= Seq::<Shred>::empty());
                    assert(Seq::<Shred>::empty().to_multiset() =~= Multiset::<Shred>::empty());
                    assert(local@.to_multiset().add(Multiset::<Shred>::empty()) =~= local@
                        .to_multiset());
                }
                break ;
            },
        }
    }
    let ghost rec_pred = |s: Shred| s.kind is Data;
    let mut rec = recovered;
    let ghost rec0 = rec@;
    let ghost goal_ms = base_ms.add(rec0.filter(rec_pred).to_multiset());
    loop
        invariant
            rec_pred == (|s: Shred| s.kind is Data),
            local@.to_multiset().add(rec@.filter(rec_pred).to_multiset()) == goal_ms,
        ensures
            local@.to_multiset() == goal_ms,
        decreases rec.len(),
    {
        let ghost recv = rec@;
        let ghost localv = local@;
        match rec.pop() {
            Some(s) => {
                let is_data = match &s.kind {
                    crate::shred::ShredKind::Data { .. } => true,
                    crate::shred::ShredKind::Coding { .. } => false,
                };
                proof {
                    reveal(Seq::filter);
                    assert(rec@ =~= recv.drop_last());
                    assert(recv.last() == s);
                    if rec_pred(s) {
                        assert(recv.filter(rec_pred) == recv.drop_last().filter(rec_pred).push(s));
                        assert(recv.drop_last().filter(rec_pred).push(s).to_multiset()
                            == recv.drop_last().filter(rec_pred).to_multiset().insert(s));
                        assert(recv.filter(rec_pred).to_multiset() == recv.drop_last().filter(
                            rec_pred,
                        ).to_multiset().insert(s));
                    } else {
                        assert(recv.filter(rec_pred) == recv.drop_last().filter(rec_pred));
                    }
                }
                if is_data {
                    local.push(s);
                    proof {
                        assert(s.kind is Data);
                        assert(rec_pred(s));
                        assert(local@ =~= localv.push(s));
                        assert(localv.push(s).to_multiset() == localv.to_multiset().insert(s));
                        assert(local@.to_multiset() == localv.to_multiset().insert(s));
                        assert(recv.filter(rec_pred).to_multiset() == rec@.filter(
                            rec_pred,
                        ).to_multiset().insert(s));
                        let lv = localv.to_multiset();
                        let rv = rec@.filter(rec_pred).to_multiset();
                        assert forall|e: Shred| true implies lv.insert(s).add(rv).count(e)
                            == lv.add(rv.insert(s)).count(e) by {
                            vstd::multiset::lemma_insert_increases_count_by_1(lv, s);
                            vstd::multiset::lemma_insert_increases_count_by_1(rv, s);
                            if e != s {
                                vstd::multiset::lemma_insert_other_elements_unchanged(lv, s, e);
                                vstd::multiset::lemma_insert_other_elements_unchanged(rv, s, e);
                            }
                        }
                        assert(lv.insert(s).add(rv) =~= lv.add(rv.insert(s)));
                        assert(local@.to_multiset().add(rec@.filter(rec_pred).to_multiset())
                            == localv.to_multiset().add(recv.filter(rec_pred).to_multiset()));
                    }
                }
            },
            None => {
                proof {
                    reveal(Seq::filter);
                    assert(rec@.filter(rec_pred) =~= Seq::<Shred>::empty());
                    assert(Seq::<Shred>::empty().to_multiset() =~= Multiset::<Shred>::empty());
                    assert(local@.to_multiset().add(Multiset::<Shred>::empty()) =~= local@
                        .to_multiset());
                }
                break ;
            },
        }
    }
    let ghost combined = sp_block_data_shreds(fb) + rec0.filter(rec_pred);
    proof {
        vstd::seq_lib::lemma_multiset_commutative(sp_block_data_shreds(fb), rec0.filter(rec_pred));
        assert(local@.to_multiset() == combined.to_multiset());
        assert(local@.len() == local@.to_multiset().len());
        assert(combined.len() == combined.to_multiset().len());
    }
    if local.len() == 0 {
        return Err(FecBlockError::FullPayloadReconstructionError);
    }
    let sorted = sort_shreds_by_index(local);
    let payload = match reconstruct_full_payload(&sorted) {
        Ok(p) => p,
        Err(_) => {
            proof {
                assert(false);
            }
            return Err(FecBlockError::FullPayloadReconstructionError);
        },
    };
    proof {
        assert(sp_sorted_by_index(sorted@) && sorted@.to_multiset() == combined.to_multiset()
            && payload@ == sp_concat_payloads(sorted@));
        if sp_indices_distinct(combined) {
            lemma_indices_distinct_transfer(combined, sorted@);
            assert forall|s2: Seq<Shred>|
                #[trigger] sp_sorted_by_index(s2) && s2.to_multiset()
                    == combined.to_multiset() implies payload@ == sp_concat_payloads(s2) by {
                lemma_reconstruction_deterministic(sorted@, s2);
            }
        }
    }
    Ok((payload, slot))
}

} // verus!
