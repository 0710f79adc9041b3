//! The fixed on-chain program addresses this library recognizes, as 32-byte
//! values.  Each address is written out in bytes; its conventional base58
//! spelling stands in the doc comment.

use vstd::prelude::*;
use crate::Pubkey;

verus! {

/// Address of the on-chain address-lookup-table program: `AddressLookupTab1e1111111111111111111111111`.
pub open spec fn sp_address_lookup_table_program_id() -> Seq<u8> {
    seq![2, 119, 166, 175, 151, 51, 155, 122, 200, 141, 24, 146, 201, 4, 70, 245, 0, 2, 48, 146, 102, 246, 46, 83, 193, 24, 36, 73, 130, 0, 0, 0]
}

/// Address of the on-chain address-lookup-table program, as bytes.
pub fn address_lookup_table_program_id() -> (r: Pubkey)
    ensures
        r@ == sp_address_lookup_table_program_id(),
        r@.len() == 32,
{
    let r: Vec<u8> = vec![2, 119, 166, 175, 151, 51, 155, 122, 200, 141, 24, 146, 201, 4, 70, 245, 0, 2, 48, 146, 102, 246, 46, 83, 193, 24, 36, 73, 130, 0, 0, 0];
    proof {
        assert(r@ =~= sp_address_lookup_table_program_id());
    }
    r
}

/// Address of the Pumpfun bonding-curve program: `6EF8rrecthR5Dkzon8Nwu78hRvfCKubJ14M5uBEwF6P`.
pub open spec fn sp_pumpfun_program_id() -> Seq<u8> {
    seq![1, 86, 224, 246, 147, 102, 90, 207, 68, 219, 21, 104, 191, 23, 91, 170, 81, 137, 203, 151, 245, 210, 255, 59, 101, 93, 43, 182, 253, 109, 24, 176]
}

/// Address of the Pumpfun bonding-curve program, as bytes.
pub fn pumpfun_program_id() -> (r: Pubkey)
    ensures
        r@ == sp_pumpfun_program_id(),
        r@.len() == 32,
{
    let r: Vec<u8> = vec![1, 86, 224, 246, 147, 102, 90, 207, 68, 219, 21, 104, 191, 23, 91, 170, 81, 137, 203, 151, 245, 210, 255, 59, 101, 93, 43, 182, 253, 109, 24, 176];
    proof {
        assert(r@ =~= sp_pumpfun_program_id());
    }
    r
}

/// Address of the Raydium liquidity-pool program: `675kPX9MHTjS2zt1qfr1NYHuzeLXfQM9H24wFSUt1Mp8`.
pub open spec fn sp_raydium_lp_program() -> Seq<u8> {
    seq![75, 217, 73, 196, 54, 2, 195, 63, 32, 119, 144, 237, 22, 163, 82, 76, 161, 185, 151, 92, 241, 33, 162, 169, 12, 255, 236, 125, 248, 182, 138, 205]
}

/// Address of the Raydium liquidity-pool program, as bytes.
pub fn raydium_lp_program() -> (r: Pubkey)
    ensures
        r@ == sp_raydium_lp_program(),
        r@.len() == 32,
{
    let r: Vec<u8> = vec![75, 217, 73, 196, 54, 2, 195, 63, 32, 119, 144, 237, 22, 163, 82, 76, 161, 185, 151, 92, 241, 33, 162, 169, 12, 255, 236, 125, 248, 182, 138, 205];
    proof {
        assert(r@ =~= sp_raydium_lp_program());
    }
    r
}

/// Address of the Moonit token program: `MoonCVVNZFSYkqNXP6bxHLPL6QQJiMagDL3qcqUQTrG`.
pub open spec fn sp_moonit_program_id() -> Seq<u8> {
    seq![5, 84, 138, 94, 123, 120, 64, 145, 59, 204, 135, 116, 112, 252, 120, 228, 178, 251, 77, 23, 66, 24, 209, 174, 202, 229, 235, 188, 234, 75, 195, 217]
}

/// Address of the Moonit token program, as bytes.
pub fn moonit_program_id() -> (r: Pubkey)
    ensures
        r@ == sp_moonit_program_id(),
        r@.len() == 32,
{
    let r: Vec<u8> = vec![5, 84, 138, 94, 123, 120, 64, 145, 59, 204, 135, 116, 112, 252, 120, 228, 178, 251, 77, 23, 66, 24, 209, 174, 202, 229, 235, 188, 234, 75, 195, 217];
    proof {
        assert(r@ =~= sp_moonit_program_id());
    }
    r
}

/// Address of the Raydium LaunchLab program: `LanMV9sAd7wArD4vJFi2qDdfnVhFxYSUg6eADduJ3uj`.
pub open spec fn sp_raydium_launchlab_program_id() -> Seq<u8> {
    seq![5, 4, 59, 149, 77, 202, 38, 225, 239, 145, 181, 44, 79, 143, 137, 175, 138, 111, 90, 200, 198, 33, 86, 241, 113, 207, 15, 33, 172, 81, 201, 34]
}

/// Address of the Raydium LaunchLab program, as bytes.
pub fn raydium_launchlab_program_id() -> (r: Pubkey)
    ensures
        r@ == sp_raydium_launchlab_program_id(),
        r@.len() == 32,
{
    let r: Vec<u8> = vec![5, 4, 59, 149, 77, 202, 38, 225, 239, 145, 181, 44, 79, 143, 137, 175, 138, 111, 90, 200, 198, 33, 86, 241, 113, 207, 15, 33, 172, 81, 201, 34];
    proof {
        assert(r@ =~= sp_raydium_launchlab_program_id());
    }
    r
}

/// Address of the Boop token program: `boop8hVGQGqehUK2iVEMEnMrL5RbjywRzHKBmBE7ry4`.
pub open spec fn sp_boop_program_id() -> Seq<u8> {
    seq![8, 234, 172, 39, 191, 62, 224, 100, 153, 189, 139, 253, 207, 136, 69, 204, 116, 239, 41, 87, 115, 232, 176, 237, 142, 60, 202, 21, 105, 216, 161, 151]
}

/// Address of the Boop token program, as bytes.
pub fn boop_program_id() -> (r: Pubkey)
    ensures
        r@ == sp_boop_program_id(),
        r@.len() == 32,
{
    let r: Vec<u8> = vec![8, 234, 172, 39, 191, 62, 224, 100, 153, 189, 139, 253, 207, 136, 69, 204, 116, 239, 41, 87, 115, 232, 176, 237, 142, 60, 202, 21, 105, 216, 161, 151];
    proof {
        assert(r@ =~= sp_boop_program_id());
    }
    r
}

/// Address of the PumpAMM pool program: `pAMMBay6oceH9fJKBRHGP5D4bD4sWpmSwMn52FMfXEA`.
pub open spec fn sp_pumpamm_program_id() -> Seq<u8> {
    seq![12, 20, 222, 252, 130, 94, 198, 118, 148, 37, 8, 24, 187, 101, 64, 101, 244, 41, 141, 49, 86, 213, 113, 180, 212, 248, 9, 12, 24, 233, 168, 99]
}

/// Address of the PumpAMM pool program, as bytes.
pub fn pumpamm_program_id() -> (r: Pubkey)
    ensures
        r@ == sp_pumpamm_program_id(),
        r@.len() == 32,
{
    let r: Vec<u8> = vec![12, 20, 222, 252, 130, 94, 198, 118, 148, 37, 8, 24, 187, 101, 64, 101, 244, 41, 141, 49, 86, 213, 113, 180, 212, 248, 9, 12, 24, 233, 168, 99];
    proof {
        assert(r@ =~= sp_pumpamm_program_id());
    }
    r
}

/// Address of the Raydium constant-product pool program: `CPMMoo8L3F4NbTegBCKVNunggL7H1ZpdTHKxQB5qKP1C`.
pub open spec fn sp_raydium_cpmm_program() -> Seq<u8> {
    seq![169, 42, 90, 139, 79, 41, 89, 82, 132, 37, 80, 170, 147, 253, 91, 149, 181, 172, 230, 168, 235, 146, 12, 147, 148, 46, 67, 105, 12, 32, 236, 115]
}

/// Address of the Raydium constant-product pool program, as bytes.
pub fn raydium_cpmm_program() -> (r: Pubkey)
    ensures
        r@ == sp_raydium_cpmm_program(),
        r@.len() == 32,
{
    let r: Vec<u8> = vec![169, 42, 90, 139, 79, 41, 89, 82, 132, 37, 80, 170, 147, 253, 91, 149, 181, 172, 230, 168, 235, 146, 12, 147, 148, 46, 67, 105, 12, 32, 236, 115];
    proof {
        assert(r@ =~= sp_raydium_cpmm_program());
    }
    r
}

/// Address of the Meteora virtual-curve program: `dbcij3LWUppWqq96dh6gJWwBifmcGfLSB5D4DuSMaqN`.
pub open spec fn sp_meteora_vcurve_program_id() -> Seq<u8> {
    seq![9, 96, 12, 165, 36, 247, 177, 183, 214, 204, 177, 195, 151, 58, 160, 51, 13, 25, 3, 218, 96, 28, 201, 181, 222, 227, 198, 98, 180, 202, 209, 73]
}

/// Address of the Meteora virtual-curve program, as bytes.
pub fn meteora_vcurve_program_id() -> (r: Pubkey)
    ensures
        r@ == sp_meteora_vcurve_program_id(),
        r@.len() == 32,
{
    let r: Vec<u8> = vec![9, 96, 12, 165, 36, 247, 177, 183, 214, 204, 177, 195, 151, 58, 160, 51, 13, 25, 3, 218, 96, 28, 201, 181, 222, 227, 198, 98, 180, 202, 209, 73];
    proof {
        assert(r@ =~= sp_meteora_vcurve_program_id());
    }
    r
}

/// Address of the Meteora dynamic-pool program: `Eo7WjKq67rjJQSZxS6z3YkapzY3eMj6Xy8X5EQVn5UaB`.
pub open spec fn sp_meteoradyn_program_id() -> Seq<u8> {
    seq![204, 248, 2, 212, 204, 204, 132, 215, 251, 33, 181, 247, 59, 73, 216, 26, 22, 197, 180, 200, 142, 227, 35, 148, 225, 201, 29, 53, 136, 204, 64, 128]
}

/// Address of the Meteora dynamic-pool program, as bytes.
pub fn meteoradyn_program_id() -> (r: Pubkey)
    ensures
        r@ == sp_meteoradyn_program_id(),
        r@.len() == 32,
{
    let r: Vec<u8> = vec![204, 248, 2, 212, 204, 204, 132, 215, 251, 33, 181, 247, 59, 73, 216, 26, 22, 197, 180, 200, 142, 227, 35, 148, 225, 201, 29, 53, 136, 204, 64, 128];
    proof {
        assert(r@ =~= sp_meteoradyn_program_id());
    }
    r
}

/// Address of the Meteora AMM v2 program: `cpamdpZCGKUy5JxQXB4dcpGPiikHawvSWAd6mEn1sGG`.
pub open spec fn sp_meteora_amm_v2_program_id() -> Seq<u8> {
    seq![9, 45, 33, 53, 101, 122, 21, 156, 43, 135, 212, 182, 106, 112, 219, 142, 151, 82, 56, 159, 247, 106, 175, 32, 108, 237, 6, 58, 56, 249, 90, 237]
}

/// Address of the Meteora AMM v2 program, as bytes.
pub fn meteora_amm_v2_program_id() -> (r: Pubkey)
    ensures
        r@ == sp_meteora_amm_v2_program_id(),
        r@.len() == 32,
{
    let r: Vec<u8> = vec![9, 45, 33, 53, 101, 122, 21, 156, 43, 135, 212, 182, 106, 112, 219, 142, 151, 82, 56, 159, 247, 106, 175, 32, 108, 237, 6, 58, 56, 249, 90, 237];
    proof {
        assert(r@ =~= sp_meteora_amm_v2_program_id());
    }
    r
}

/// Address of the Orca Whirlpool program: `whirLbMiicVdio4qvUfM5KAg6Ct8VwpYzGff3uctyCc`.
pub open spec fn sp_orca_whirlpool_program_id() -> Seq<u8> {
    seq![14, 3, 104, 95, 142, 144, 144, 83, 228, 88, 18, 28, 102, 245, 167, 106, 237, 199, 112, 106, 161, 28, 130, 248, 170, 149, 42, 143, 43, 120, 121, 169]
}

/// Address of the Orca Whirlpool program, as bytes.
pub fn orca_whirlpool_program_id() -> (r: Pubkey)
    ensures
        r@ == sp_orca_whirlpool_program_id(),
        r@.len() == 32,
{
    let r: Vec<u8> = vec![14, 3, 104, 95, 142, 144, 144, 83, 228, 88, 18, 28, 102, 245, 167, 106, 237, 199, 112, 106, 161, 28, 130, 248, 170, 149, 42, 143, 43, 120, 121, 169];
    proof {
        assert(r@ =~= sp_orca_whirlpool_program_id());
    }
    r
}

/// Address of the Meteora DLMM program: `LBUZKhRxPF3XUpBCjp4YzTKgLccjZhTSDM9YuVaPwxo`.
pub open spec fn sp_meteora_dlmm_program() -> Seq<u8> {
    seq![4, 233, 225, 47, 188, 132, 232, 38, 201, 50, 204, 233, 226, 100, 12, 206, 21, 89, 12, 28, 98, 115, 176, 146, 87, 8, 186, 59, 133, 32, 176, 188]
}

/// Address of the Meteora DLMM program, as bytes.
pub fn meteora_dlmm_program() -> (r: Pubkey)
    ensures
        r@ == sp_meteora_dlmm_program(),
        r@.len() == 32,
{
    let r: Vec<u8> = vec![4, 233, 225, 47, 188, 132, 232, 38, 201, 50, 204, 233, 226, 100, 12, 206, 21, 89, 12, 28, 98, 115, 176, 146, 87, 8, 186, 59, 133, 32, 176, 188];
    proof {
        assert(r@ =~= sp_meteora_dlmm_program());
    }
    r
}

} // verus!
