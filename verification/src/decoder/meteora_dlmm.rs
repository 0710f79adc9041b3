//! Meteora DLMM decoder: identifies the pool-initialization and liquidity
//! instructions and parses their parameters into normalized records.

use vstd::prelude::*;
use vstd::slice::slice_subrange;
use crate::Pubkey;
use crate::bytes::{
    starts_with, parse_u64, parse_u32, parse_u16, parse_u8, parse_i32, parse_bool,
    parse_option_u64, sp_parse_option_u64, le_bytes, le_i32_value, ParseError,
};
use crate::record::{
    DecodedInstruction, DecodeError, ParsedParams, create_standardized_instruction,
    sp_record_envelope,
};
use crate::programs::sp_meteora_dlmm_program;

verus! {

/// The 8-byte discriminator of this variant's instruction data.
pub open spec fn sp_init_customizable_permissionless_lb_pair_discriminator() -> Seq<u8> {
    seq![46, 39, 41, 135, 111, 183, 200, 64]
}

/// The 8-byte discriminator of this variant's instruction data, as bytes.
pub fn init_customizable_permissionless_lb_pair_discriminator() -> (r: Vec<u8>)
    ensures
        r@ == sp_init_customizable_permissionless_lb_pair_discriminator(),
{
    let r: Vec<u8> = vec![46, 39, 41, 135, 111, 183, 200, 64];
    proof {
        assert(r@ =~= sp_init_customizable_permissionless_lb_pair_discriminator());
    }
    r
}

/// The 8-byte discriminator of this variant's instruction data.
pub open spec fn sp_init_customizable_permissionless_lb_pair_2_discriminator() -> Seq<u8> {
    seq![243, 73, 129, 126, 51, 19, 241, 107]
}

/// The 8-byte discriminator of this variant's instruction data, as bytes.
pub fn init_customizable_permissionless_lb_pair_2_discriminator() -> (r: Vec<u8>)
    ensures
        r@ == sp_init_customizable_permissionless_lb_pair_2_discriminator(),
{
    let r: Vec<u8> = vec![243, 73, 129, 126, 51, 19, 241, 107];
    proof {
        assert(r@ =~= sp_init_customizable_permissionless_lb_pair_2_discriminator());
    }
    r
}

/// The 8-byte discriminator of this variant's instruction data.
pub open spec fn sp_init_permission_lb_pair_discriminator() -> Seq<u8> {
    seq![108, 102, 213, 85, 251, 3, 53, 21]
}

/// The 8-byte discriminator of this variant's instruction data, as bytes.
pub fn init_permission_lb_pair_discriminator() -> (r: Vec<u8>)
    ensures
        r@ == sp_init_permission_lb_pair_discriminator(),
{
    let r: Vec<u8> = vec![108, 102, 213, 85, 251, 3, 53, 21];
    proof {
        assert(r@ =~= sp_init_permission_lb_pair_discriminator());
    }
    r
}

/// The 8-byte discriminator of this variant's instruction data.
pub open spec fn sp_init_lb_pair_discriminator() -> Seq<u8> {
    seq![45, 154, 237, 210, 221, 15, 166, 92]
}

/// The 8-byte discriminator of this variant's instruction data, as bytes.
pub fn init_lb_pair_discriminator() -> (r: Vec<u8>)
    ensures
        r@ == sp_init_lb_pair_discriminator(),
{
    let r: Vec<u8> = vec![45, 154, 237, 210, 221, 15, 166, 92];
    proof {
        assert(r@ =~= sp_init_lb_pair_discriminator());
    }
    r
}

/// The 8-byte discriminator of this variant's instruction data.
pub open spec fn sp_init_lb_pair_2_discriminator() -> Seq<u8> {
    seq![73, 59, 36, 120, 237, 83, 108, 198]
}

/// The 8-byte discriminator of this variant's instruction data, as bytes.
pub fn init_lb_pair_2_discriminator() -> (r: Vec<u8>)
    ensures
        r@ == sp_init_lb_pair_2_discriminator(),
{
    let r: Vec<u8> = vec![73, 59, 36, 120, 237, 83, 108, 198];
    proof {
        assert(r@ =~= sp_init_lb_pair_2_discriminator());
    }
    r
}

/// The 8-byte discriminator of this variant's instruction data.
pub open spec fn sp_add_liquidity_discriminator() -> Seq<u8> {
    seq![181, 157, 89, 67, 143, 182, 52, 72]
}

/// The 8-byte discriminator of this variant's instruction data, as bytes.
pub fn add_liquidity_discriminator() -> (r: Vec<u8>)
    ensures
        r@ == sp_add_liquidity_discriminator(),
{
    let r: Vec<u8> = vec![181, 157, 89, 67, 143, 182, 52, 72];
    proof {
        assert(r@ =~= sp_add_liquidity_discriminator());
    }
    r
}

/// The 8-byte discriminator of this variant's instruction data.
pub open spec fn sp_add_liquidity_2_discriminator() -> Seq<u8> {
    seq![228, 162, 78, 28, 70, 219, 116, 115]
}

/// The 8-byte discriminator of this variant's instruction data, as bytes.
pub fn add_liquidity_2_discriminator() -> (r: Vec<u8>)
    ensures
        r@ == sp_add_liquidity_2_discriminator(),
{
    let r: Vec<u8> = vec![228, 162, 78, 28, 70, 219, 116, 115];
    proof {
        assert(r@ =~= sp_add_liquidity_2_discriminator());
    }
    r
}

/// The 8-byte discriminator of this variant's instruction data.
pub open spec fn sp_add_liquidity_by_strategy_discriminator() -> Seq<u8> {
    seq![7, 3, 150, 127, 148, 40, 61, 200]
}

/// The 8-byte discriminator of this variant's instruction data, as bytes.
pub fn add_liquidity_by_strategy_discriminator() -> (r: Vec<u8>)
    ensures
        r@ == sp_add_liquidity_by_strategy_discriminator(),
{
    let r: Vec<u8> = vec![7, 3, 150, 127, 148, 40, 61, 200];
    proof {
        assert(r@ =~= sp_add_liquidity_by_strategy_discriminator());
    }
    r
}

/// The 8-byte discriminator of this variant's instruction data.
pub open spec fn sp_add_liquidity_by_strategy_2_discriminator() -> Seq<u8> {
    seq![3, 221, 149, 218, 111, 141, 118, 213]
}

/// The 8-byte discriminator of this variant's instruction data, as bytes.
pub fn add_liquidity_by_strategy_2_discriminator() -> (r: Vec<u8>)
    ensures
        r@ == sp_add_liquidity_by_strategy_2_discriminator(),
{
    let r: Vec<u8> = vec![3, 221, 149, 218, 111, 141, 118, 213];
    proof {
        assert(r@ =~= sp_add_liquidity_by_strategy_2_discriminator());
    }
    r
}

/// The 8-byte discriminator of this variant's instruction data.
pub open spec fn sp_add_liquidity_by_strategy_one_side_discriminator() -> Seq<u8> {
    seq![41, 5, 238, 175, 100, 225, 6, 205]
}

/// The 8-byte discriminator of this variant's instruction data, as bytes.
pub fn add_liquidity_by_strategy_one_side_discriminator() -> (r: Vec<u8>)
    ensures
        r@ == sp_add_liquidity_by_strategy_one_side_discriminator(),
{
    let r: Vec<u8> = vec![41, 5, 238, 175, 100, 225, 6, 205];
    proof {
        assert(r@ =~= sp_add_liquidity_by_strategy_one_side_discriminator());
    }
    r
}

/// The 8-byte discriminator of this variant's instruction data.
pub open spec fn sp_add_liquidity_one_side_discriminator() -> Seq<u8> {
    seq![94, 155, 103, 151, 70, 95, 220, 165]
}

/// The 8-byte discriminator of this variant's instruction data, as bytes.
pub fn add_liquidity_one_side_discriminator() -> (r: Vec<u8>)
    ensures
        r@ == sp_add_liquidity_one_side_discriminator(),
{
    let r: Vec<u8> = vec![94, 155, 103, 151, 70, 95, 220, 165];
    proof {
        assert(r@ =~= sp_add_liquidity_one_side_discriminator());
    }
    r
}

/// The 8-byte discriminator of this variant's instruction data.
pub open spec fn sp_add_liquidity_one_side_precise_discriminator() -> Seq<u8> {
    seq![161, 194, 103, 84, 171, 71, 250, 154]
}

/// The 8-byte discriminator of this variant's instruction data, as bytes.
pub fn add_liquidity_one_side_precise_discriminator() -> (r: Vec<u8>)
    ensures
        r@ == sp_add_liquidity_one_side_precise_discriminator(),
{
    let r: Vec<u8> = vec![161, 194, 103, 84, 171, 71, 250, 154];
    proof {
        assert(r@ =~= sp_add_liquidity_one_side_precise_discriminator());
    }
    r
}

/// The 8-byte discriminator of this variant's instruction data.
pub open spec fn sp_add_liquidity_one_side_precise_2_discriminator() -> Seq<u8> {
    seq![33, 51, 163, 201, 117, 98, 125, 231]
}

/// The 8-byte discriminator of this variant's instruction data, as bytes.
pub fn add_liquidity_one_side_precise_2_discriminator() -> (r: Vec<u8>)
    ensures
        r@ == sp_add_liquidity_one_side_precise_2_discriminator(),
{
    let r: Vec<u8> = vec![33, 51, 163, 201, 117, 98, 125, 231];
    proof {
        assert(r@ =~= sp_add_liquidity_one_side_precise_2_discriminator());
    }
    r
}

/// The DLMM instructions this decoder recognizes.
#[derive(Clone, Copy, Debug, PartialEq, Eq, Structural)]
pub enum MeteoraDlmmInstructionType {
    InitCustomizablePermissionlessLbPair,
    InitCustomizablePermissionlessLbPair2,
    InitPermissionLbPair,
    InitLbPair,
    InitLbPair2,
    AddLiquidity,
    AddLiquidity2,
    AddLiquidityByStrategy,
    AddLiquidityByStrategy2,
    AddLiquidityByStrategyOneSide,
    AddLiquidityOneSide,
    AddLiquidityOneSidePrecise,
    AddLiquidityOneSidePrecise2,
}

/// One bin's share of added liquidity.
#[derive(Clone, Copy, Debug, PartialEq, Eq, Structural)]
pub struct BinLiquidityDistribution {
    pub bin_id: i32,
    pub distribution_x: u16,
    pub distribution_y: u16,
}

/// The kind of a supplemental-account slice.
#[derive(Clone, Copy, Debug, PartialEq, Eq, Structural)]
pub enum DlmmAccountsType {
    TransferHookX,
    TransferHookY,
    TransferHookReward,
    TransferHookMultiReward { reward_index: u8 },
}

/// One slice of supplemental accounts.
#[derive(Clone, Copy, Debug, PartialEq, Eq, Structural)]
pub struct DlmmRemainingAccountsSlice {
    pub accounts_type: DlmmAccountsType,
    pub length: u8,
}

/// The supplemental-account declaration of a liquidity instruction.
#[derive(Clone, Debug)]
pub struct DlmmRemainingAccountsInfo {
    pub slices: Vec<DlmmRemainingAccountsSlice>,
}

/// What parsing one supplemental-account kind at `o` yields: a one-byte
/// tag, where tag `3` carries a reward index byte.
pub open spec fn sp_parse_accounts_type(d: Seq<u8>, o: nat) -> Result<
    (DlmmAccountsType, nat),
    ParseError,
> {
    if o + 1 > d.len() {
        Err(ParseError::Insufficient)
    } else if d[o as int] == 0 {
        Ok((DlmmAccountsType::TransferHookX, o + 1))
    } else if d[o as int] == 1 {
        Ok((DlmmAccountsType::TransferHookY, o + 1))
    } else if d[o as int] == 2 {
        Ok((DlmmAccountsType::TransferHookReward, o + 1))
    } else if d[o as int] == 3 {
        if o + 2 > d.len() {
            Err(ParseError::Insufficient)
        } else {
            Ok(
                (
                    DlmmAccountsType::TransferHookMultiReward { reward_index: d[o as int + 1] },
                    o + 2,
                ),
            )
        }
    } else {
        Err(ParseError::InvalidDiscriminant)
    }
}

/// What parsing one supplemental-account slice at `o` yields: a kind and a
/// length byte.
pub open spec fn sp_parse_slice(d: Seq<u8>, o: nat) -> Result<
    (DlmmRemainingAccountsSlice, nat),
    ParseError,
> {
    match sp_parse_accounts_type(d, o) {
        Ok((t, o2)) => if o2 + 1 > d.len() {
            Err(ParseError::Insufficient)
        } else {
            Ok(
                (
                    DlmmRemainingAccountsSlice { accounts_type: t, length: d[o2 as int] },
                    o2 + 1,
                ),
            )
        },
        Err(e) => Err(e),
    }
}

/// What parsing `n` consecutive slices at `o` yields.
pub open spec fn sp_parse_slices(d: Seq<u8>, o: nat, n: nat) -> Result<
    (Seq<DlmmRemainingAccountsSlice>, nat),
    ParseError,
>
    decreases n,
{
    if n == 0 {
        Ok((Seq::empty(), o))
    } else {
        match sp_parse_slice(d, o) {
            Ok((s, o2)) => match sp_parse_slices(d, o2, (n - 1) as nat) {
                Ok((rest, o3)) => Ok((seq![s] + rest, o3)),
                Err(e) => Err(e),
            },
            Err(e) => Err(e),
        }
    }
}

/// What parsing the supplemental-account declaration at `o` yields: a `u32`
/// count and that many slices.
pub open spec fn sp_parse_remaining_accounts_info(d: Seq<u8>, o: nat) -> Result<
    (Seq<DlmmRemainingAccountsSlice>, nat),
    ParseError,
> {
    if o + 4 > d.len() {
        Err(ParseError::Insufficient)
    } else {
        sp_parse_slices(d, o + 4, le_bytes(d.subrange(o as int, o as int + 4)))
    }
}

/// Parse one supplemental-account kind.
pub fn parse_accounts_type(data: &[u8], offset: &mut usize) -> (r: Result<
    DlmmAccountsType,
    ParseError,
>)
    ensures
        match r {
            Ok(t) => sp_parse_accounts_type(data@, *old(offset) as nat) matches Ok(p) && t == p.0
                && *final(offset) == p.1,
            Err(e) => sp_parse_accounts_type(data@, *old(offset) as nat) == Err::<
                (DlmmAccountsType, nat),
                ParseError,
            >(e) && *final(offset) == *old(offset),
        },
{
    let mut cursor: usize = *offset;
    let tag = match parse_u8(data, &mut cursor) {
        Ok(v) => v,
        Err(e) => {
            return Err(e);
        },
    };
    match tag {
        0 => {
            *offset = cursor;
            Ok(DlmmAccountsType::TransferHookX)
        },
        1 => {
            *offset = cursor;
            Ok(DlmmAccountsType::TransferHookY)
        },
        2 => {
            *offset = cursor;
            Ok(DlmmAccountsType::TransferHookReward)
        },
        3 => {
            let reward_index = match parse_u8(data, &mut cursor) {
                Ok(v) => v,
                Err(e) => {
                    return Err(e);
                },
            };
            *offset = cursor;
            Ok(DlmmAccountsType::TransferHookMultiReward { reward_index })
        },
        _ => Err(ParseError::InvalidDiscriminant),
    }
}

/// Parse one supplemental-account slice.
pub fn parse_remaining_accounts_slice(data: &[u8], offset: &mut usize) -> (r: Result<
    DlmmRemainingAccountsSlice,
    ParseError,
>)
    ensures
        match r {
            Ok(s) => sp_parse_slice(data@, *old(offset) as nat) matches Ok(p) && s == p.0
                && p.1 == *final(offset),
            Err(e) => sp_parse_slice(data@, *old(offset) as nat) == Err::<
                (DlmmRemainingAccountsSlice, nat),
                ParseError,
            >(e) && *final(offset) == *old(offset),
        },
{
    let mut cursor: usize = *offset;
    let accounts_type = match parse_accounts_type(data, &mut cursor) {
        Ok(t) => t,
        Err(e) => {
            return Err(e);
        },
    };
    let length = match parse_u8(data, &mut cursor) {
        Ok(v) => v,
        Err(e) => {
            return Err(e);
        },
    };
    *offset = cursor;
    Ok(DlmmRemainingAccountsSlice { accounts_type, length })
}

/// Parse the supplemental-account declaration: a `u32` slice count and that
/// many slices.
pub fn parse_remaining_accounts_info(data: &[u8], offset: &mut usize) -> (r: Result<
    DlmmRemainingAccountsInfo,
    ParseError,
>)
    ensures
        match r {
            Ok(info) => sp_parse_remaining_accounts_info(data@, *old(offset) as nat) matches Ok(p)
                && info.slices@ == p.0 && *final(offset) == p.1,
            Err(e) => sp_parse_remaining_accounts_info(data@, *old(offset) as nat) == Err::<
                (Seq<DlmmRemainingAccountsSlice>, nat),
                ParseError,
            >(e) && *final(offset) == *old(offset),
        },
{
    let mut cursor: usize = *offset;
    let count32 = match parse_u32(data, &mut cursor) {
        Ok(v) => v,
        Err(e) => {
            return Err(e);
        },
    };
    let count = count32 as usize;
    let mut slices: Vec<DlmmRemainingAccountsSlice> = Vec::new();
    let mut i: usize = 0;
    while i < count
        invariant
            *old(offset) + 4 <= data@.len(),
            count == le_bytes(data@.subrange(*old(offset) as int, *old(offset) + 4)),
            i <= count,
            slices@.len() == i,
            match sp_parse_slices(data@, cursor as nat, (count - i) as nat) {
                Ok((rest, o3)) => sp_parse_slices(data@, *old(offset) as nat + 4, count as nat)
                    == Ok::<(Seq<DlmmRemainingAccountsSlice>, nat), ParseError>((
                    slices@ + rest,
                    o3,
                )),
                Err(e) => sp_parse_slices(data@, *old(offset) as nat + 4, count as nat) == Err::<
                    (Seq<DlmmRemainingAccountsSlice>, nat),
                    ParseError,
                >(e),
            },
        decreases count - i,
    {
        let ghost pre = slices@;
        match parse_remaining_accounts_slice(data, &mut cursor) {
            Ok(s) => {
                slices.push(s);
                proof {
                    assert(slices@ =~= pre + seq![s]);
                    if let Ok((rest, o3)) = sp_parse_slices(
                        data@,
                        cursor as nat,
                        (count - i - 1) as nat,
                    ) {
                        assert((pre + seq![s]) + rest =~= pre + (seq![s] + rest));
                    }
                }
            },
            Err(e) => {
                return Err(e);
            },
        }
        i = i + 1;
    }
    *offset = cursor;
    proof {
        assert(sp_parse_slices(data@, cursor as nat, 0) == Ok::<
            (Seq<DlmmRemainingAccountsSlice>, nat),
            ParseError,
        >((Seq::<DlmmRemainingAccountsSlice>::empty(), cursor as nat)));
        assert(slices@ + Seq::<DlmmRemainingAccountsSlice>::empty() =~= slices@);
    }
    Ok(DlmmRemainingAccountsInfo { slices })
}

/// What parsing one bin-liquidity entry at `o` yields: a signed bin id and
/// the two distribution shares.
pub open spec fn sp_bin_dist_at(d: Seq<u8>, o: int) -> BinLiquidityDistribution {
    BinLiquidityDistribution {
        bin_id: le_i32_value(d.subrange(o, o + 4)) as i32,
        distribution_x: le_bytes(d.subrange(o + 4, o + 6)) as u16,
        distribution_y: le_bytes(d.subrange(o + 6, o + 8)) as u16,
    }
}

/// Parse one bin-liquidity entry.
pub fn parse_bin_liquidity_distribution(data: &[u8], offset: &mut usize) -> (r: Result<
    BinLiquidityDistribution,
    ParseError,
>)
    ensures
        match r {
            Ok(b) => *old(offset) + 8 <= data@.len() && *final(offset) == *old(offset) + 8 && b
                == sp_bin_dist_at(data@, *old(offset) as int),
            Err(e) => e == ParseError::Insufficient && *old(offset) + 8 > data@.len()
                && *old(offset) == *final(offset),
        },
{
    let mut cursor: usize = *offset;
    if data.len() < 8 || data.len() - 8 < cursor {
        return Err(ParseError::Insufficient);
    }
    let bin_id = parse_i32(data, &mut cursor).unwrap();
    let distribution_x = parse_u16(data, &mut cursor).unwrap();
    let distribution_y = parse_u16(data, &mut cursor).unwrap();
    *offset = cursor;
    Ok(BinLiquidityDistribution { bin_id, distribution_x, distribution_y })
}

/// What parsing the bin-liquidity list at `o` yields: a `u32` count and
/// that many 8-byte entries.
pub open spec fn sp_parse_bin_dist_vec(d: Seq<u8>, o: nat) -> Result<
    (Seq<BinLiquidityDistribution>, nat),
    ParseError,
> {
    if o + 4 > d.len() {
        Err(ParseError::Insufficient)
    } else {
        let n = le_bytes(d.subrange(o as int, o as int + 4));
        if o + 4 + 8 * n > d.len() {
            Err(ParseError::Insufficient)
        } else {
            Ok(
                (
                    Seq::new(n, |i: int| sp_bin_dist_at(d, o as int + 4 + 8 * i)),
                    o + 4 + 8 * n,
                ),
            )
        }
    }
}

/// Parse the bin-liquidity list.
pub fn parse_bin_dist_vec(data: &[u8], offset: &mut usize) -> (r: Result<
    Vec<BinLiquidityDistribution>,
    ParseError,
>)
    ensures
        match r {
            Ok(v) => sp_parse_bin_dist_vec(data@, *old(offset) as nat) matches Ok(p) && v@ == p.0
                && *final(offset) == p.1,
            Err(e) => sp_parse_bin_dist_vec(data@, *old(offset) as nat) == Err::<
                (Seq<BinLiquidityDistribution>, nat),
                ParseError,
            >(e) && *final(offset) == *old(offset),
        },
{
    let mut cursor: usize = *offset;
    let count32 = match parse_u32(data, &mut cursor) {
        Ok(v) => v,
        Err(e) => {
            return Err(e);
        },
    };
    let count = count32 as usize;
    let mut out: Vec<BinLiquidityDistribution> = Vec::new();
    let mut i: usize = 0;
    while i < count
        invariant
            *old(offset) + 4 <= data@.len(),
            count == le_bytes(data@.subrange(*old(offset) as int, *old(offset) + 4)),
            i <= count,
            out@.len() == i,
            cursor == *old(offset) + 4 + 8 * i,
            cursor <= data@.len(),
            forall|j: int|
                0 <= j < i ==> #[trigger] out@[j] == sp_bin_dist_at(
                    data@,
                    *old(offset) + 4 + 8 * j,
                ),
        decreases count - i,
    {
        match parse_bin_liquidity_distribution(data, &mut cursor) {
            Ok(b) => {
                out.push(b);
            },
            Err(_) => {
                proof {
                    assert(*old(offset) + 4 + 8 * count >= cursor + 8);
                }
                return Err(ParseError::Insufficient);
            },
        }
        i = i + 1;
    }
    *offset = cursor;
    proof {
        if let Ok((s, o2)) = sp_parse_bin_dist_vec(data@, *old(offset) as nat) {
            assert(out@ =~= s);
        }
    }
    Ok(out)
}

/// What parsing the add-liquidity parameters after the discriminator
/// yields: two `u64` amounts, the bin-liquidity list, and, for the second
/// version, the supplemental-account declaration.
pub open spec fn sp_parse_add_liquidity(d: Seq<u8>, version2: bool) -> Result<
    (u64, u64, Seq<BinLiquidityDistribution>, Option<Seq<DlmmRemainingAccountsSlice>>),
    ParseError,
> {
    if d.len() < 16 {
        Err(ParseError::Insufficient)
    } else {
        let amount_x = le_bytes(d.subrange(0, 8)) as u64;
        let amount_y = le_bytes(d.subrange(8, 16)) as u64;
        match sp_parse_bin_dist_vec(d, 16) {
            Ok((dist, o2)) => if version2 {
                match sp_parse_remaining_accounts_info(d, o2) {
                    Ok((slices, _)) => Ok((amount_x, amount_y, dist, Some(slices))),
                    Err(e) => Err(e),
                }
            } else {
                Ok((amount_x, amount_y, dist, None))
            },
            Err(e) => Err(e),
        }
    }
}

/// The exact result of decoding this variant.
pub open spec fn sp_decode_init_customizable_permissionless_lb_pair_result(
    r: Result<DecodedInstruction, DecodeError>,
    d_arg: Seq<u8>,
    ai: Seq<u8>,
    keys: Seq<Pubkey>,
    sg: Seq<bool>,
    wr: Seq<bool>,
) -> bool {
                let d = d_arg;
                if d.len() < 8 {
                    r == Err::<DecodedInstruction, DecodeError>(
                        DecodeError::Parse(ParseError::Insufficient),
                    )
                } else {
                    let t = d.subrange(8, d.len() as int);
                    if t.len() < 10 {
                        r == Err::<DecodedInstruction, DecodeError>(
                            DecodeError::Parse(ParseError::Insufficient),
                        )
                    } else {
                        match sp_parse_option_u64(t, 10) {
                            Ok((activation_point, o2)) => if o2 + 2 <= t.len() {
                                r matches Ok(ins) && sp_record_envelope(
                                    ins,
                                    sp_meteora_dlmm_program(),
                                    "initialize_customizable_permissionless_lb_pair"@,
                                    "MeteoraDLMM"@,
                                    d,
                                    ai,
                                    keys,
                                    sg,
                                    wr,
                                ) && (
                                ins.parsed_data matches ParsedParams::DlmmInitCustomizablePermissionlessLbPair {
                                    active_id,
                                    bin_step,
                                    base_factor,
                                    activation_type,
                                    has_alpha_vault,
                                    activation_point: ap,
                                    creator_pool_on_off_control,
                                    base_fee_power_factor,
                                } && active_id as int == le_i32_value(t.subrange(0, 4)) && bin_step
                                    as nat == le_bytes(t.subrange(4, 6)) && base_factor as nat
                                    == le_bytes(t.subrange(6, 8)) && activation_type == t[8]
                                    && has_alpha_vault == (t[9] != 0) && ap == activation_point
                                    && creator_pool_on_off_control == (t[o2 as int] != 0)
                                    && base_fee_power_factor == t[o2 as int + 1])
                            } else {
                                r == Err::<DecodedInstruction, DecodeError>(
                                    DecodeError::Parse(ParseError::Insufficient),
                                )
                            },
                            Err(e) => r == Err::<DecodedInstruction, DecodeError>(
                                DecodeError::Parse(e),
                            ),
                        }
                    }
                }
            }

/// The exact result of decoding this variant.
pub open spec fn sp_decode_init_permission_lb_pair_result(
    r: Result<DecodedInstruction, DecodeError>,
    d_arg: Seq<u8>,
    ai: Seq<u8>,
    keys: Seq<Pubkey>,
    sg: Seq<bool>,
    wr: Seq<bool>,
) -> bool {
                let d = d_arg;
                if d.len() < 20 {
                    r == Err::<DecodedInstruction, DecodeError>(
                        DecodeError::Parse(ParseError::Insufficient),
                    )
                } else {
                    r matches Ok(ins) && sp_record_envelope(
                        ins,
                        sp_meteora_dlmm_program(),
                        "initialize_permission_lb_pair"@,
                        "MeteoraDLMM"@,
                        d,
                        ai,
                        keys,
                        sg,
                        wr,
                    ) && (ins.parsed_data matches ParsedParams::DlmmInitPermissionLbPair {
                        active_id,
                        bin_step,
                        base_factor,
                        base_fee_power_factor,
                        activation_type,
                        protocol_share,
                    } && active_id as int == le_i32_value(d.subrange(8, 12)) && bin_step as nat
                        == le_bytes(d.subrange(12, 14)) && base_factor as nat == le_bytes(
                        d.subrange(14, 16),
                    ) && base_fee_power_factor == d[16] && activation_type == d[17]
                        && protocol_share as nat == le_bytes(d.subrange(18, 20)))
                }
            }

/// The exact result of decoding this variant.
pub open spec fn sp_decode_init_lb_pair_result(
    r: Result<DecodedInstruction, DecodeError>,
    d_arg: Seq<u8>,
    ai: Seq<u8>,
    keys: Seq<Pubkey>,
    sg: Seq<bool>,
    wr: Seq<bool>,
) -> bool {
                let d = d_arg;
                if d.len() < 14 {
                    r == Err::<DecodedInstruction, DecodeError>(
                        DecodeError::Parse(ParseError::Insufficient),
                    )
                } else {
                    r matches Ok(ins) && sp_record_envelope(
                        ins,
                        sp_meteora_dlmm_program(),
                        "initialize_lb_pair"@,
                        "MeteoraDLMM"@,
                        d,
                        ai,
                        keys,
                        sg,
                        wr,
                    ) && (ins.parsed_data matches ParsedParams::DlmmInitLbPair {
                        active_id,
                        bin_step,
                    } && active_id as int == le_i32_value(d.subrange(8, 12)) && bin_step as nat
                        == le_bytes(d.subrange(12, 14)))
                }
            }

/// The exact result of decoding this variant.
pub open spec fn sp_decode_init_lb_pair_2_result(
    r: Result<DecodedInstruction, DecodeError>,
    d_arg: Seq<u8>,
    ai: Seq<u8>,
    keys: Seq<Pubkey>,
    sg: Seq<bool>,
    wr: Seq<bool>,
) -> bool {
                let d = d_arg;
                if d.len() < 12 {
                    r == Err::<DecodedInstruction, DecodeError>(
                        DecodeError::Parse(ParseError::Insufficient),
                    )
                } else {
                    r matches Ok(ins) && sp_record_envelope(
                        ins,
                        sp_meteora_dlmm_program(),
                        "initialize_permission_lb_pair_2"@,
                        "MeteoraDLMM"@,
                        d,
                        ai,
                        keys,
                        sg,
                        wr,
                    ) && (ins.parsed_data matches ParsedParams::DlmmInitLbPair2 { active_id }
                        && active_id as int == le_i32_value(d.subrange(8, 12)))
                }
            }

/// The exact result of decoding this variant.
pub open spec fn sp_decode_add_liquidity_result(
    r: Result<DecodedInstruction, DecodeError>,
    d_arg: Seq<u8>,
    ai: Seq<u8>,
    keys: Seq<Pubkey>,
    sg: Seq<bool>,
    wr: Seq<bool>,
) -> bool {
                let d = d_arg;
                if d.len() < 8 {
                    r == Err::<DecodedInstruction, DecodeError>(
                        DecodeError::Parse(ParseError::Insufficient),
                    )
                } else {
                    let version2 = d.subrange(0, 8) == sp_add_liquidity_2_discriminator();
                    let name = if version2 {
                        "add_liquidity2"@
                    } else {
                        "add_liquidity"@
                    };
                    match sp_parse_add_liquidity(d.subrange(8, d.len() as int), version2) {
                        Ok(f) => r matches Ok(ins) && sp_record_envelope(
                            ins,
                            sp_meteora_dlmm_program(),
                            name,
                            "MeteoraDLMM"@,
                            d,
                            ai,
                            keys,
                            sg,
                            wr,
                        ) && (ins.parsed_data matches ParsedParams::DlmmAddLiquidity {
                            version,
                            amount_x,
                            amount_y,
                            bin_liquidity_dist,
                            remaining_accounts_info,
                        } && version == (if version2 {
                            2u8
                        } else {
                            1u8
                        }) && amount_x == f.0 && amount_y == f.1 && bin_liquidity_dist@ == f.2
                            && (match (remaining_accounts_info, f.3) {
                            (Some(info), Some(slices)) => info.slices@ == slices,
                            (None, None) => true,
                            _ => false,
                        })),
                        Err(e) => r == Err::<DecodedInstruction, DecodeError>(
                            DecodeError::Parse(e),
                        ),
                    }
                }
            }

/// The exact result of decoding an identified instruction; the strategy
/// and one-side liquidity variants are recognized but not decoded.
pub open spec fn sp_decode_result(
    t: MeteoraDlmmInstructionType,
    r: Result<DecodedInstruction, DecodeError>,
    d: Seq<u8>,
    ai: Seq<u8>,
    keys: Seq<Pubkey>,
    sg: Seq<bool>,
    wr: Seq<bool>,
) -> bool {
    match t {
        MeteoraDlmmInstructionType::InitCustomizablePermissionlessLbPair
        | MeteoraDlmmInstructionType::InitCustomizablePermissionlessLbPair2 => sp_decode_init_customizable_permissionless_lb_pair_result(
            r,
            d,
            ai,
            keys,
            sg,
            wr,
        ),
        MeteoraDlmmInstructionType::InitPermissionLbPair => sp_decode_init_permission_lb_pair_result(
            r,
            d,
            ai,
            keys,
            sg,
            wr,
        ),
        MeteoraDlmmInstructionType::InitLbPair => sp_decode_init_lb_pair_result(
            r,
            d,
            ai,
            keys,
            sg,
            wr,
        ),
        MeteoraDlmmInstructionType::InitLbPair2 => sp_decode_init_lb_pair_2_result(
            r,
            d,
            ai,
            keys,
            sg,
            wr,
        ),
        MeteoraDlmmInstructionType::AddLiquidity
        | MeteoraDlmmInstructionType::AddLiquidity2 => sp_decode_add_liquidity_result(
            r,
            d,
            ai,
            keys,
            sg,
            wr,
        ),
        _ => r == Err::<DecodedInstruction, DecodeError>(DecodeError::Unsupported),
    }
}

/// The Meteora DLMM decoder.
pub struct MeteoraDlmmDecoder;

impl MeteoraDlmmDecoder {
    /// The address of the DLMM program.
    pub fn program_id() -> (r: Pubkey)
        ensures
            r@ == sp_meteora_dlmm_program(),
    {
        crate::programs::meteora_dlmm_program()
    }

    /// The protocol tag of this decoder's records.
    pub fn protocol_name() -> (r: &'static str)
        ensures
            r@ == "MeteoraDLMM"@,
    {
        "MeteoraDLMM"
    }

    /// Which DLMM instruction an instruction-data prefix names.
    pub open spec fn sp_identify(data: Seq<u8>) -> Option<MeteoraDlmmInstructionType> {
        if data.len() < 8 {
            None
        } else if data.subrange(0, 8) == sp_init_customizable_permissionless_lb_pair_discriminator() {
            Some(MeteoraDlmmInstructionType::InitCustomizablePermissionlessLbPair)
        } else if data.subrange(0, 8)
            == sp_init_customizable_permissionless_lb_pair_2_discriminator() {
            Some(MeteoraDlmmInstructionType::InitCustomizablePermissionlessLbPair2)
        } else if data.subrange(0, 8) == sp_init_permission_lb_pair_discriminator() {
            Some(MeteoraDlmmInstructionType::InitPermissionLbPair)
        } else if data.subrange(0, 8) == sp_init_lb_pair_discriminator() {
            Some(MeteoraDlmmInstructionType::InitLbPair)
        } else if data.subrange(0, 8) == sp_init_lb_pair_2_discriminator() {
            Some(MeteoraDlmmInstructionType::InitLbPair2)
        } else if data.subrange(0, 8) == sp_add_liquidity_discriminator() {
            Some(MeteoraDlmmInstructionType::AddLiquidity)
        } else if data.subrange(0, 8) == sp_add_liquidity_2_discriminator() {
            Some(MeteoraDlmmInstructionType::AddLiquidity2)
        } else if data.subrange(0, 8) == sp_add_liquidity_by_strategy_discriminator() {
            Some(MeteoraDlmmInstructionType::AddLiquidityByStrategy)
        } else if data.subrange(0, 8) == sp_add_liquidity_by_strategy_2_discriminator() {
            Some(MeteoraDlmmInstructionType::AddLiquidityByStrategy2)
        } else if data.subrange(0, 8) == sp_add_liquidity_by_strategy_one_side_discriminator() {
            Some(MeteoraDlmmInstructionType::AddLiquidityByStrategyOneSide)
        } else if data.subrange(0, 8) == sp_add_liquidity_one_side_discriminator() {
            Some(MeteoraDlmmInstructionType::AddLiquidityOneSide)
        } else if data.subrange(0, 8) == sp_add_liquidity_one_side_precise_discriminator() {
            Some(MeteoraDlmmInstructionType::AddLiquidityOneSidePrecise)
        } else if data.subrange(0, 8) == sp_add_liquidity_one_side_precise_2_discriminator() {
            Some(MeteoraDlmmInstructionType::AddLiquidityOneSidePrecise2)
        } else {
            None
        }
    }

    /// Identify an instruction by its leading 8-byte discriminator.
    pub fn identify_instruction(data: &[u8]) -> (r: Option<MeteoraDlmmInstructionType>)
        ensures
            r == Self::sp_identify(data@),
    {
        if data.len() < 8 {
            None
        } else if starts_with(data, &init_customizable_permissionless_lb_pair_discriminator()) {
            Some(MeteoraDlmmInstructionType::InitCustomizablePermissionlessLbPair)
        } else if starts_with(data, &init_customizable_permissionless_lb_pair_2_discriminator()) {
            Some(MeteoraDlmmInstructionType::InitCustomizablePermissionlessLbPair2)
        } else if starts_with(data, &init_permission_lb_pair_discriminator()) {
            Some(MeteoraDlmmInstructionType::InitPermissionLbPair)
        } else if starts_with(data, &init_lb_pair_discriminator()) {
            Some(MeteoraDlmmInstructionType::InitLbPair)
        } else if starts_with(data, &init_lb_pair_2_discriminator()) {
            Some(MeteoraDlmmInstructionType::InitLbPair2)
        } else if starts_with(data, &add_liquidity_discriminator()) {
            Some(MeteoraDlmmInstructionType::AddLiquidity)
        } else if starts_with(data, &add_liquidity_2_discriminator()) {
            Some(MeteoraDlmmInstructionType::AddLiquidity2)
        } else if starts_with(data, &add_liquidity_by_strategy_discriminator()) {
            Some(MeteoraDlmmInstructionType::AddLiquidityByStrategy)
        } else if starts_with(data, &add_liquidity_by_strategy_2_discriminator()) {
            Some(MeteoraDlmmInstructionType::AddLiquidityByStrategy2)
        } else if starts_with(data, &add_liquidity_by_strategy_one_side_discriminator()) {
            Some(MeteoraDlmmInstructionType::AddLiquidityByStrategyOneSide)
        } else if starts_with(data, &add_liquidity_one_side_discriminator()) {
            Some(MeteoraDlmmInstructionType::AddLiquidityOneSide)
        } else if starts_with(data, &add_liquidity_one_side_precise_discriminator()) {
            Some(MeteoraDlmmInstructionType::AddLiquidityOneSidePrecise)
        } else if starts_with(data, &add_liquidity_one_side_precise_2_discriminator()) {
            Some(MeteoraDlmmInstructionType::AddLiquidityOneSidePrecise2)
        } else {
            None
        }
    }

    /// Decode an `initialize_customizable_permissionless_lb_pair`
    /// instruction (either version).
    pub fn decode_init_customizable_permissionless_lb_pair(
        data: &[u8],
        accounts_indices: &[u8],
        account_keys: &Vec<Pubkey>,
        is_signer: &Vec<bool>,
        is_writable: &Vec<bool>,
    ) -> (r: Result<DecodedInstruction, DecodeError>)
        ensures
            sp_decode_init_customizable_permissionless_lb_pair_result(
                r,
                data@,
                accounts_indices@,
                account_keys@,
                is_signer@,
                is_writable@,
            ),
    {
        if data.len() < 8 {
            return Err(DecodeError::Parse(ParseError::Insufficient));
        }
        let remaining = slice_subrange(data, 8, data.len());
        let mut offset: usize = 0;
        let active_id = match parse_i32(remaining, &mut offset) {
            Ok(v) => v,
            Err(e) => {
                return Err(DecodeError::Parse(e));
            },
        };
        let bin_step = match parse_u16(remaining, &mut offset) {
            Ok(v) => v,
            Err(e) => {
                return Err(DecodeError::Parse(e));
            },
        };
        let base_factor = match parse_u16(remaining, &mut offset) {
            Ok(v) => v,
            Err(e) => {
                return Err(DecodeError::Parse(e));
            },
        };
        let activation_type = match parse_u8(remaining, &mut offset) {
            Ok(v) => v,
            Err(e) => {
                return Err(DecodeError::Parse(e));
            },
        };
        let has_alpha_vault = match parse_bool(remaining, &mut offset) {
            Ok(v) => v,
            Err(e) => {
                return Err(DecodeError::Parse(e));
            },
        };
        let activation_point = match parse_option_u64(remaining, &mut offset) {
            Ok(v) => v,
            Err(e) => {
                return Err(DecodeError::Parse(e));
            },
        };
        let creator_pool_on_off_control = match parse_bool(remaining, &mut offset) {
            Ok(v) => v,
            Err(e) => {
                return Err(DecodeError::Parse(e));
            },
        };
        let base_fee_power_factor = match parse_u8(remaining, &mut offset) {
            Ok(v) => v,
            Err(e) => {
                return Err(DecodeError::Parse(e));
            },
        };
        let parsed = ParsedParams::DlmmInitCustomizablePermissionlessLbPair {
            active_id,
            bin_step,
            base_factor,
            activation_type,
            has_alpha_vault,
            activation_point,
            creator_pool_on_off_control,
            base_fee_power_factor,
        };
        Ok(
            create_standardized_instruction(
                &Self::program_id(),
                "initialize_customizable_permissionless_lb_pair",
                "MeteoraDLMM",
                data,
                accounts_indices,
                account_keys,
                is_signer,
                is_writable,
                parsed,
            ),
        )
    }

    /// Decode an `initialize_permission_lb_pair` instruction, emitting its
    /// full parsed field set.
    pub fn decode_init_permission_lb_pair(
        data: &[u8],
        accounts_indices: &[u8],
        account_keys: &Vec<Pubkey>,
        is_signer: &Vec<bool>,
        is_writable: &Vec<bool>,
    ) -> (r: Result<DecodedInstruction, DecodeError>)
        ensures
            sp_decode_init_permission_lb_pair_result(
                r,
                data@,
                accounts_indices@,
                account_keys@,
                is_signer@,
                is_writable@,
            ),
    {
        if data.len() < 20 {
            return Err(DecodeError::Parse(ParseError::Insufficient));
        }
        let mut offset: usize = 8;
        let active_id = parse_i32(data, &mut offset).unwrap();
        let bin_step = parse_u16(data, &mut offset).unwrap();
        let base_factor = parse_u16(data, &mut offset).unwrap();
        let base_fee_power_factor = parse_u8(data, &mut offset).unwrap();
        let activation_type = parse_u8(data, &mut offset).unwrap();
        let protocol_share = parse_u16(data, &mut offset).unwrap();
        let parsed = ParsedParams::DlmmInitPermissionLbPair {
            active_id,
            bin_step,
            base_factor,
            base_fee_power_factor,
            activation_type,
            protocol_share,
        };
        Ok(
            create_standardized_instruction(
                &Self::program_id(),
                "initialize_permission_lb_pair",
                "MeteoraDLMM",
                data,
                accounts_indices,
                account_keys,
                is_signer,
                is_writable,
                parsed,
            ),
        )
    }

    /// Decode an `initialize_lb_pair` instruction.
    pub fn decode_init_lb_pair(
        data: &[u8],
        accounts_indices: &[u8],
        account_keys: &Vec<Pubkey>,
        is_signer: &Vec<bool>,
        is_writable: &Vec<bool>,
    ) -> (r: Result<DecodedInstruction, DecodeError>)
        ensures
            sp_decode_init_lb_pair_result(
                r,
                data@,
                accounts_indices@,
                account_keys@,
                is_signer@,
                is_writable@,
            ),
    {
        if data.len() < 14 {
            return Err(DecodeError::Parse(ParseError::Insufficient));
        }
        let mut offset: usize = 8;
        let active_id = parse_i32(data, &mut offset).unwrap();
        let bin_step = parse_u16(data, &mut offset).unwrap();
        let parsed = ParsedParams::DlmmInitLbPair { active_id, bin_step };
        Ok(
            create_standardized_instruction(
                &Self::program_id(),
                "initialize_lb_pair",
                "MeteoraDLMM",
                data,
                accounts_indices,
                account_keys,
                is_signer,
                is_writable,
                parsed,
            ),
        )
    }

    /// Decode an `initialize_permission_lb_pair_2` instruction.
    pub fn decode_init_lb_pair_2(
        data: &[u8],
        accounts_indices: &[u8],
        account_keys: &Vec<Pubkey>,
        is_signer: &Vec<bool>,
        is_writable: &Vec<bool>,
    ) -> (r: Result<DecodedInstruction, DecodeError>)
        ensures
            sp_decode_init_lb_pair_2_result(
                r,
                data@,
                accounts_indices@,
                account_keys@,
                is_signer@,
                is_writable@,
            ),
    {
        if data.len() < 12 {
            return Err(DecodeError::Parse(ParseError::Insufficient));
        }
        let mut offset: usize = 8;
        let active_id = parse_i32(data, &mut offset).unwrap();
        let parsed = ParsedParams::DlmmInitLbPair2 { active_id };
        Ok(
            create_standardized_instruction(
                &Self::program_id(),
                "initialize_permission_lb_pair_2",
                "MeteoraDLMM",
                data,
                accounts_indices,
                account_keys,
                is_signer,
                is_writable,
                parsed,
            ),
        )
    }

    /// Decode an `add_liquidity` instruction (either version); the second
    /// version also carries the supplemental-account declaration.
    pub fn decode_add_liquidity(
        data: &[u8],
        accounts_indices: &[u8],
        account_keys: &Vec<Pubkey>,
        is_signer: &Vec<bool>,
        is_writable: &Vec<bool>,
    ) -> (r: Result<DecodedInstruction, DecodeError>)
        ensures
            sp_decode_add_liquidity_result(
                r,
                data@,
                accounts_indices@,
                account_keys@,
                is_signer@,
                is_writable@,
            ),
    {
        if data.len() < 8 {
            return Err(DecodeError::Parse(ParseError::Insufficient));
        }
        let version2 = starts_with(data, &add_liquidity_2_discriminator());
        let remaining = slice_subrange(data, 8, data.len());
        if remaining.len() < 16 {
            return Err(DecodeError::Parse(ParseError::Insufficient));
        }
        let mut offset: usize = 0;
        let amount_x = parse_u64(remaining, &mut offset).unwrap();
        let amount_y = parse_u64(remaining, &mut offset).unwrap();
        let bin_liquidity_dist = match parse_bin_dist_vec(remaining, &mut offset) {
            Ok(v) => v,
            Err(e) => {
                return Err(DecodeError::Parse(e));
            },
        };
        let remaining_accounts_info = if version2 {
            match parse_remaining_accounts_info(remaining, &mut offset) {
                Ok(info) => Some(info),
                Err(e) => {
                    return Err(DecodeError::Parse(e));
                },
            }
        } else {
            None
        };
        let parsed = ParsedParams::DlmmAddLiquidity {
            version: if version2 {
                2
            } else {
                1
            },
            amount_x,
            amount_y,
            bin_liquidity_dist,
            remaining_accounts_info,
        };
        let name: &str = if version2 {
            "add_liquidity2"
        } else {
            "add_liquidity"
        };
        Ok(
            create_standardized_instruction(
                &Self::program_id(),
                name,
                "MeteoraDLMM",
                data,
                accounts_indices,
                account_keys,
                is_signer,
                is_writable,
                parsed,
            ),
        )
    }

    /// Decode one identified instruction; the strategy and one-side
    /// liquidity variants are recognized but their parameter layouts are not
    /// decoded.
    pub fn decode_instruction(
        instruction_type: MeteoraDlmmInstructionType,
        data: &[u8],
        accounts_indices: &[u8],
        account_keys: &Vec<Pubkey>,
        is_signer: &Vec<bool>,
        is_writable: &Vec<bool>,
    ) -> (r: Result<DecodedInstruction, DecodeError>)
        ensures
            sp_decode_result(
                instruction_type,
                r,
                data@,
                accounts_indices@,
                account_keys@,
                is_signer@,
                is_writable@,
            ),
    {
        match instruction_type {
            MeteoraDlmmInstructionType::InitCustomizablePermissionlessLbPair
            | MeteoraDlmmInstructionType::InitCustomizablePermissionlessLbPair2 => Self::decode_init_customizable_permissionless_lb_pair(
                data,
                accounts_indices,
                account_keys,
                is_signer,
                is_writable,
            ),
            MeteoraDlmmInstructionType::InitPermissionLbPair => Self::decode_init_permission_lb_pair(
                data,
                accounts_indices,
                account_keys,
                is_signer,
                is_writable,
            ),
            MeteoraDlmmInstructionType::InitLbPair => Self::decode_init_lb_pair(
                data,
                accounts_indices,
                account_keys,
                is_signer,
                is_writable,
            ),
            MeteoraDlmmInstructionType::InitLbPair2 => Self::decode_init_lb_pair_2(
                data,
                accounts_indices,
                account_keys,
                is_signer,
                is_writable,
            ),
            MeteoraDlmmInstructionType::AddLiquidity
            | MeteoraDlmmInstructionType::AddLiquidity2 => Self::decode_add_liquidity(
                data,
                accounts_indices,
                account_keys,
                is_signer,
                is_writable,
            ),
            _ => Err(DecodeError::Unsupported),
        }
    }

    /// The single processing entry point.
    pub fn process_instruction(
        data: &[u8],
        accounts_indices: &[u8],
        account_keys: &Vec<Pubkey>,
        is_signer: &Vec<bool>,
        is_writable: &Vec<bool>,
    ) -> (r: Option<Result<DecodedInstruction, DecodeError>>)
        ensures
            r is None <==> (data@.len() < 8 || Self::sp_identify(data@) is None),
            ({
                match Self::sp_identify(data@) {
                    Some(t) => data@.len() >= 8 ==> (r matches Some(res) && sp_decode_result(
                        t,
                        res,
                        data@,
                        accounts_indices@,
                        account_keys@,
                        is_signer@,
                        is_writable@,
                    )),
                    None => true,
                }
            }),
    {
        if data.len() < 8 {
            return None;
        }
        let instruction_type = match Self::identify_instruction(data) {
            Some(t) => t,
            None => {
                return None;
            },
        };
        Some(
            Self::decode_instruction(
                instruction_type,
                data,
                accounts_indices,
                account_keys,
                is_signer,
                is_writable,
            ),
        )
    }
}

} // verus!
