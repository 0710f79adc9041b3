//! The transaction model: versioned-message header, compiled instructions,
//! address-table lookups, and the derivation of per-account signer and
//! writable roles from the header.

use vstd::prelude::*;
use crate::Pubkey;

verus! {

/// The three counters of a versioned-message header.
#[derive(Clone, Copy, Debug, PartialEq, Eq, Structural)]
pub struct MessageHeader {
    pub num_required_signatures: u8,
    pub num_readonly_signed_accounts: u8,
    pub num_readonly_unsigned_accounts: u8,
}

/// One compiled instruction: an index into the resolved account-key list
/// naming the program, account indices into the same list, and opaque data.
#[derive(Clone, Debug)]
pub struct CompiledInstruction {
    pub program_id_index: u8,
    pub accounts: Vec<u8>,
    pub data: Vec<u8>,
}

/// One address-table lookup of a v0 message: the table's key and the index
/// lists selecting its writable and readonly addresses.
#[derive(Clone, Debug)]
pub struct MessageAddressTableLookup {
    pub account_key: Pubkey,
    pub writable_indexes: Vec<u8>,
    pub readonly_indexes: Vec<u8>,
}

/// One transaction: signatures, header, inline account keys, blockhash and
/// instructions; a legacy message carries no lookup list, a v0 message does.
#[derive(Clone, Debug)]
pub struct VersionedTransaction {
    pub signatures: Vec<Vec<u8>>,
    pub header: MessageHeader,
    pub account_keys: Vec<Pubkey>,
    pub recent_blockhash: Vec<u8>,
    pub instructions: Vec<CompiledInstruction>,
    pub address_table_lookups: Option<Vec<MessageAddressTableLookup>>,
}

/// Whether position `i` of the resolved account-key list is a signer: the
/// first `num_required_signatures` positions are, nothing else is.
pub open spec fn sp_is_signer(header: MessageHeader, i: int) -> bool {
    i < header.num_required_signatures
}

/// Whether inline position `i` (of `n` inline keys) is writable: among the
/// signers, all but the last `num_readonly_signed_accounts`; among the
/// non-signer inline keys, all but the last `num_readonly_unsigned_accounts`.
pub open spec fn sp_inline_writable(header: MessageHeader, n: int, i: int) -> bool {
    let s = header.num_required_signatures as int;
    let rs = header.num_readonly_signed_accounts as int;
    let ru = header.num_readonly_unsigned_accounts as int;
    (i < s - rs) || (s <= i < n - ru)
}

/// The writable flags of the table-derived region: for each lookup in order,
/// its readonly-selected addresses (not writable) and then its
/// writable-selected addresses (writable), matching the resolution order.
pub open spec fn sp_lookup_writable_flags(lookups: Seq<MessageAddressTableLookup>) -> Seq<bool>
    decreases lookups.len(),
{
    if lookups.len() == 0 {
        Seq::empty()
    } else {
        Seq::new(lookups.first().readonly_indexes@.len(), |i: int| false) + Seq::new(
            lookups.first().writable_indexes@.len(),
            |i: int| true,
        ) + sp_lookup_writable_flags(lookups.drop_first())
    }
}

/// The signer flags of a resolved account-key list of length `total`.
pub open spec fn sp_signer_flags(header: MessageHeader, total: int) -> Seq<bool> {
    Seq::new(total as nat, |i: int| sp_is_signer(header, i))
}

/// The writable flags of a resolved account-key list: the first
/// `num_inline` positions by the header formula, the lookup-derived
/// positions by their lookup's index lists, `false` past both.
pub open spec fn sp_writable_flags(
    header: MessageHeader,
    num_inline: int,
    lookups: Seq<MessageAddressTableLookup>,
    total: int,
) -> Seq<bool> {
    Seq::new(
        total as nat,
        |i: int|
            if i < num_inline {
                sp_inline_writable(header, num_inline, i)
            } else if i - num_inline < sp_lookup_writable_flags(lookups).len() {
                sp_lookup_writable_flags(lookups)[i - num_inline]
            } else {
                false
            },
    )
}

/// Derive the signer flags for a resolved account-key list of length
/// `total`.
pub fn derive_is_signer(header: &MessageHeader, total: usize) -> (r: Vec<bool>)
    ensures
        r@.len() == total,
        forall|i: int| 0 <= i < total ==> #[trigger] r@[i] == sp_is_signer(*header, i),
        r@ == sp_signer_flags(*header, total as int),
{
    let mut r: Vec<bool> = Vec::new();
    let mut i: usize = 0;
    while i < total
        invariant
            i <= total,
            r@.len() == i,
            forall|j: int| 0 <= j < i ==> #[trigger] r@[j] == sp_is_signer(*header, j),
        decreases total - i,
    {
        r.push(i < header.num_required_signatures as usize);
        i = i + 1;
    }
    proof {
        assert(r@ =~= sp_signer_flags(*header, total as int));
    }
    r
}

/// Derive the writable flags for a resolved account-key list: the first
/// `num_inline` positions by the header formula, the table-derived positions
/// by their lookup's own index lists.  `total` is at least `num_inline`; the
/// flags of positions past the lookup-derived region (if `total` runs
/// longer) are the placeholder value `false`.
pub fn derive_is_writable(
    header: &MessageHeader,
    num_inline: usize,
    lookups: &Vec<MessageAddressTableLookup>,
    total: usize,
) -> (r: Vec<bool>)
    requires
        num_inline <= total,
    ensures
        r@.len() == total,
        forall|i: int|
            0 <= i < num_inline ==> #[trigger] r@[i] == sp_inline_writable(
                *header,
                num_inline as int,
                i,
            ),
        ({
            let lw = sp_lookup_writable_flags(lookups@);
            forall|i: int|
                num_inline <= i < total ==> #[trigger] r@[i] == (if i - num_inline < lw.len() {
                    lw[i - num_inline]
                } else {
                    false
                })
        }),
        r@ == sp_writable_flags(*header, num_inline as int, lookups@, total as int),
{
    let mut r: Vec<bool> = Vec::new();
    let mut i: usize = 0;
    while i < num_inline
        invariant
            i <= num_inline <= total,
            r@.len() == i,
            forall|j: int|
                0 <= j < i ==> #[trigger] r@[j] == sp_inline_writable(
                    *header,
                    num_inline as int,
                    j,
                ),
        decreases num_inline - i,
    {
        let s = header.num_required_signatures as usize;
        let rs = header.num_readonly_signed_accounts as usize;
        let ru = header.num_readonly_unsigned_accounts as usize;
        let w = (s >= rs && i < s - rs) || (i >= s && num_inline >= ru && i < num_inline - ru);
        proof {
            assert(w == sp_inline_writable(*header, num_inline as int, i as int));
        }
        r.push(w);
        i = i + 1;
    }
    let n_lookups = lookups.len();
    let mut li: usize = 0;
    while li < n_lookups
        invariant
            num_inline <= total,
            n_lookups == lookups@.len(),
            li <= n_lookups,
            r@.len() >= num_inline,
            forall|j: int|
                0 <= j < num_inline ==> #[trigger] r@[j] == sp_inline_writable(
                    *header,
                    num_inline as int,
                    j,
                ),
            r@.len() == num_inline + sp_lookup_writable_flags(
                lookups@.subrange(0, li as int),
            ).len(),
            forall|j: int|
                num_inline <= j < r@.len() ==> #[trigger] r@[j] == sp_lookup_writable_flags(
                    lookups@.subrange(0, li as int),
                )[j - num_inline],
        decreases n_lookups - li,
    {
        let ghost pre_flags = sp_lookup_writable_flags(lookups@.subrange(0, li as int));
        let lk = &lookups[li];
        let ro = lk.readonly_indexes.len();
        let wr = lk.writable_indexes.len();
        let ghost r0 = r@;
        let mut a: usize = 0;
        while a < ro
            invariant
                a <= ro,
                r@ == r0 + Seq::new(a as nat, |i: int| false),
            decreases ro - a,
        {
            r.push(false);
            proof {
                assert(r@ =~= r0 + Seq::new((a + 1) as nat, |i: int| false));
            }
            a = a + 1;
        }
        let ghost r1 = r@;
        let mut b: usize = 0;
        while b < wr
            invariant
                b <= wr,
                r@ == r1 + Seq::new(b as nat, |i: int| true),
            decreases wr - b,
        {
            r.push(true);
            proof {
                assert(r@ =~= r1 + Seq::new((b + 1) as nat, |i: int| true));
            }
            b = b + 1;
        }
        proof {
            lemma_lookup_writable_flags_snoc(lookups@, li as int);
            assert(r@ =~= r0 + (Seq::new(ro as nat, |i: int| false) + Seq::new(
                wr as nat,
                |i: int| true,
            )));
            assert(sp_lookup_writable_flags(lookups@.subrange(0, li + 1)) =~= pre_flags + (Seq::new(
                ro as nat,
                |i: int| false,
            ) + Seq::new(wr as nat, |i: int| true)));
        }
        li = li + 1;
    }
    proof {
        assert(lookups@.subrange(0, n_lookups as int) =~= lookups@);
    }
    while r.len() < total
        invariant
            num_inline <= total,
            r@.len() >= num_inline,
            r@.len() >= num_inline + sp_lookup_writable_flags(lookups@).len(),
            forall|j: int|
                0 <= j < num_inline ==> #[trigger] r@[j] == sp_inline_writable(
                    *header,
                    num_inline as int,
                    j,
                ),
            forall|j: int|
                num_inline <= j < r@.len() ==> #[trigger] r@[j] == (if j - num_inline
                    < sp_lookup_writable_flags(lookups@).len() {
                    sp_lookup_writable_flags(lookups@)[j - num_inline]
                } else {
                    false
                }),
        decreases total - r.len(),
    {
        r.push(false);
    }
    while r.len() > total
        invariant
            num_inline <= total,
            r@.len() >= total,
            forall|j: int|
                0 <= j < num_inline ==> #[trigger] r@[j] == sp_inline_writable(
                    *header,
                    num_inline as int,
                    j,
                ),
            forall|j: int|
                num_inline <= j < r@.len() ==> #[trigger] r@[j] == (if j - num_inline
                    < sp_lookup_writable_flags(lookups@).len() {
                    sp_lookup_writable_flags(lookups@)[j - num_inline]
                } else {
                    false
                }),
        decreases r.len(),
    {
        let _ = r.pop();
    }
    proof {
        assert(r@ =~= sp_writable_flags(*header, num_inline as int, lookups@, total as int));
    }
    r
}

/// Extending the lookup list appends that lookup's flag block.
proof fn lemma_lookup_writable_flags_snoc(lookups: Seq<MessageAddressTableLookup>, li: int)
    requires
        0 <= li < lookups.len(),
    ensures
        sp_lookup_writable_flags(lookups.subrange(0, li + 1)) == sp_lookup_writable_flags(
            lookups.subrange(0, li),
        ) + (Seq::new(lookups[li].readonly_indexes@.len(), |i: int| false) + Seq::new(
            lookups[li].writable_indexes@.len(),
            |i: int| true,
        )),
    decreases li,
{
    if li == 0 {
        assert(lookups.subrange(0, 1).drop_first() =~= Seq::<MessageAddressTableLookup>::empty());
        assert(lookups.subrange(0, 1).first() == lookups[0]);
        assert(sp_lookup_writable_flags(Seq::<MessageAddressTableLookup>::empty())
            == Seq::<bool>::empty());
        assert(sp_lookup_writable_flags(lookups.subrange(0, 0)) =~= Seq::<bool>::empty());
        assert(sp_lookup_writable_flags(lookups.subrange(0, 1)) =~= Seq::new(
            lookups[0].readonly_indexes@.len(),
            |i: int| false,
        ) + Seq::new(lookups[0].writable_indexes@.len(), |i: int| true) + Seq::<bool>::empty());
        assert(sp_lookup_writable_flags(lookups.subrange(0, 1)) =~= Seq::<bool>::empty() + (
        Seq::new(lookups[0].readonly_indexes@.len(), |i: int| false) + Seq::new(
            lookups[0].writable_indexes@.len(),
            |i: int| true,
        )));
    } else {
        lemma_lookup_writable_flags_snoc(lookups.drop_first(), li - 1);
        assert(lookups.subrange(0, li + 1).drop_first() =~= lookups.drop_first().subrange(0, li));
        assert(lookups.subrange(0, li).drop_first() =~= lookups.drop_first().subrange(0, li - 1));
        assert(lookups.subrange(0, li + 1).first() == lookups[0]);
        assert(lookups.subrange(0, li).first() == lookups[0]);
        assert(lookups.drop_first()[li - 1] == lookups[li]);
        let head = Seq::new(lookups[0].readonly_indexes@.len(), |i: int| false) + Seq::new(
            lookups[0].writable_indexes@.len(),
            |i: int| true,
        );
        let tail_li = Seq::new(lookups[li].readonly_indexes@.len(), |i: int| false) + Seq::new(
            lookups[li].writable_indexes@.len(),
            |i: int| true,
        );
        assert(sp_lookup_writable_flags(lookups.subrange(0, li + 1)) =~= head
            + sp_lookup_writable_flags(lookups.drop_first().subrange(0, li)));
        assert(sp_lookup_writable_flags(lookups.subrange(0, li)) =~= head
            + sp_lookup_writable_flags(lookups.drop_first().subrange(0, li - 1)));
        assert(head + (sp_lookup_writable_flags(lookups.drop_first().subrange(0, li - 1))
            + tail_li) =~= (head + sp_lookup_writable_flags(
            lookups.drop_first().subrange(0, li - 1),
        )) + tail_li);
    }
}

/// How many flags of `s` are set.
pub open spec fn sp_count_true(s: Seq<bool>) -> int
    decreases s.len(),
{
    if s.len() == 0 {
        0
    } else {
        sp_count_true(s.drop_first()) + (if s.first() {
            1int
        } else {
            0int
        })
    }
}

/// Counting a threshold-flag sequence: `Seq::new(n, |i| i < s)` has
/// `min(s, n)` set flags.
proof fn lemma_count_true_threshold(n: int, s: int)
    requires
        0 <= n,
        0 <= s,
    ensures
        sp_count_true(Seq::new(n as nat, |i: int| i < s)) == (if s <= n {
            s
        } else {
            n
        }),
    decreases n,
{
    let f = Seq::new(n as nat, |i: int| i < s);
    if n > 0 {
        if s > 0 {
            lemma_count_true_threshold(n - 1, s - 1);
            assert(f.drop_first() =~= Seq::new((n - 1) as nat, |i: int| i < s - 1));
        } else {
            lemma_count_true_threshold(n - 1, 0);
            assert(f.drop_first() =~= Seq::new((n - 1) as nat, |i: int| i < 0));
        }
        assert(f.first() == (0 < s));
    }
}

/// Role derivation: in a signer-flag sequence derived from a header over
/// `total` positions with `num_required_signatures <= total`, exactly
/// `num_required_signatures` positions are signers.
pub proof fn lemma_role_derivation(header: MessageHeader, flags: Seq<bool>, total: int)
    requires
        flags.len() == total,
        header.num_required_signatures <= total,
        forall|i: int| 0 <= i < total ==> #[trigger] flags[i] == sp_is_signer(header, i),
    ensures
        sp_count_true(flags) == header.num_required_signatures,
{
    let s = header.num_required_signatures as int;
    lemma_count_true_threshold(total, s);
    assert(flags =~= Seq::new(total as nat, |i: int| i < s));
}

} // verus!
