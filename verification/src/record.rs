//! The normalized instruction record emitted to subscribers: program id and
//! raw data rendered as text, the instruction's accounts with their roles,
//! and the program-specific parsed parameters.

use vstd::prelude::*;
use vstd::utf8::{valid_utf8, decode_utf8, partial_valid_utf8, partial_valid_utf8_extend_ascii_block};
use crate::Pubkey;

verus! {

/// The base58 text of a byte string, as `bs58` encodes it.
pub uninterp spec fn base58_of(b: Seq<u8>) -> Seq<char>;

/// Relies on `bs58::encode`: the base58 text of the bytes, a function of the
/// bytes alone.
#[verifier::external_body]
pub fn encode_base58(b: &[u8]) -> (r: String)
    ensures
        r@ == base58_of(b@),
{
    bs58::encode(b).into_string()
}

/// The ASCII code of a nibble's lowercase hex digit.
pub open spec fn sp_hex_digit(n: u8) -> u8 {
    if n < 10 {
        (0x30 + n) as u8
    } else {
        (0x57 + n) as u8
    }
}

/// The ASCII bytes of the lowercase hex spelling of a byte string: two
/// digits per byte, high nibble first.
pub open spec fn sp_hex_ascii(b: Seq<u8>) -> Seq<u8>
    decreases b.len(),
{
    if b.len() == 0 {
        Seq::empty()
    } else {
        seq![sp_hex_digit(b.first() / 16), sp_hex_digit(b.first() % 16)] + sp_hex_ascii(
            b.drop_first(),
        )
    }
}

/// The lowercase hex text of a byte string.
pub open spec fn sp_hex_text(b: Seq<u8>) -> Seq<char> {
    decode_utf8(sp_hex_ascii(b))
}

/// Every hex digit is an ASCII byte.
proof fn lemma_hex_ascii_is_ascii(b: Seq<u8>)
    ensures
        sp_hex_ascii(b).len() == 2 * b.len(),
        forall|i: int| 0 <= i < sp_hex_ascii(b).len() ==> (#[trigger] sp_hex_ascii(b)[i]) <= 0x7f,
    decreases b.len(),
{
    if b.len() > 0 {
        lemma_hex_ascii_is_ascii(b.drop_first());
        assert(forall|i: int|
            2 <= i < sp_hex_ascii(b).len() ==> sp_hex_ascii(b)[i] == sp_hex_ascii(b.drop_first())[
                i - 2
            ]);
    }
}

/// Render a byte string as lowercase hex text.
pub fn to_hex_string(b: &[u8]) -> (r: String)
    ensures
        r@ == sp_hex_text(b@),
{
    let n = b.len();
    let mut ascii: Vec<u8> = Vec::new();
    let mut i: usize = 0;
    proof {
        assert(b@.skip(0) =~= b@);
    }
    while i < n
        invariant
            n == b@.len(),
            i <= n,
            sp_hex_ascii(b@) =~= ascii@ + sp_hex_ascii(b@.skip(i as int)),
            ascii@.len() == 2 * i,
        decreases n - i,
    {
        let byte = b[i];
        let hi = byte / 16;
        let lo = byte % 16;
        ascii.push(if hi < 10 {
            0x30 + hi
        } else {
            0x57 + hi
        });
        ascii.push(if lo < 10 {
            0x30 + lo
        } else {
            0x57 + lo
        });
        proof {
            assert(b@.skip(i as int).first() == b@[i as int]);
            assert(b@.skip(i as int).drop_first() =~= b@.skip(i + 1));
        }
        i = i + 1;
    }
    proof {
        assert(b@.skip(n as int) =~= Seq::<u8>::empty());
        assert(sp_hex_ascii(Seq::<u8>::empty()) == Seq::<u8>::empty());
        assert(ascii@ =~= sp_hex_ascii(b@));
        lemma_hex_ascii_is_ascii(b@);
        assert(partial_valid_utf8(ascii@, 0)) by {
            assert(ascii@.subrange(0, 0) =~= Seq::<u8>::empty());
            assert(valid_utf8(Seq::<u8>::empty()));
        }
        partial_valid_utf8_extend_ascii_block(ascii@, 0, ascii@.len() as int);
        assert(ascii@.subrange(0, ascii@.len() as int) =~= ascii@);
        assert(valid_utf8(ascii@));
    }
    let s = crate::bytes::string_from_utf8(ascii);
    match s {
        Some(s) => s,
        None => {
            proof {
                assert(false);
            }
            String::new()
        },
    }
}

/// Why the decode of one instruction was skipped.
#[derive(Clone, Copy, Debug, PartialEq, Eq, Structural)]
pub enum DecodeError {
    /// The instruction data ended before the declared parameters.
    Parse(crate::bytes::ParseError),
    /// The instruction carries fewer accounts than its variant requires.
    InsufficientAccounts,
    /// The discriminator names no instruction this library decodes.
    UnknownInstruction,
    /// A recognized variant whose parameter layout this library does not
    /// decode.
    Unsupported,
}

/// One account of a decoded instruction: its position in the instruction's
/// account list, its address as base58 text, and its roles.
#[derive(Clone, Debug)]
pub struct DecodedAccount {
    pub index: usize,
    pub pubkey: String,
    pub signer: bool,
    pub writable: bool,
}

/// The program-specific parameters a decoded instruction carries.
#[derive(Clone, Debug)]
pub enum ParsedParams {
    PumpfunCreate(crate::pumpfun_decoding::CreateParams),
    PumpfunBuy(crate::pumpfun_decoding::BuyParams),
    PumpfunCreateV2(crate::decoder::pumpfun::CreateV2Params),
    RaydiumInitialize2(crate::raydium_decoding::Initialize2Params),
    MoonitTokenMint(crate::moonit_decoding::TokenMintParams),
    LaunchlabInitialize {
        base_mint_param: crate::raydium_launchlab_decoding::MintParams,
        curve_param: crate::raydium_launchlab_decoding::CurveParams,
        vesting_param: crate::raydium_launchlab_decoding::VestingParams,
    },
    RaydiumCpmmInitialize(crate::raydium_cpmm_decoding::InitializeParams),
    PumpAmmBuy(crate::pumpamm_decoding::BuyParams),
    PumpAmmSell(crate::pumpamm_decoding::SellParams),
    PumpAmmCreatePool(crate::pumpamm_decoding::CreatePoolParams),
    PumpAmmDeposit(crate::pumpamm_decoding::DepositParams),
    PumpAmmWithdraw(crate::pumpamm_decoding::WithdrawParams),
    PumpAmmGeneric { discriminator: Vec<u8> },
    MeteoraVCurveInitialize(crate::meteora_vcurve_decoding::InitializePoolParameters),
    MeteoraDynInitializePermissionlessPool(
        crate::meteoradyn_decoding::InitializePermissionlessPoolParams,
    ),
    MeteoraAmmV2CreatePool {
        variant: crate::meteora_amm_v2_decoding::MeteoraAmmV2InstructionType,
        pool_index: usize,
        mint_a_index: usize,
        mint_b_index: usize,
    },
    MeteoraAmmV2Swap,
    MeteoraAmmV2AddLiquidity {
        variant: crate::meteora_amm_v2_decoding::MeteoraAmmV2InstructionType,
        pool_index: usize,
        vault_a_index: usize,
        vault_b_index: usize,
    },
    MeteoraAmmV2RemoveLiquidity {
        variant: crate::meteora_amm_v2_decoding::MeteoraAmmV2InstructionType,
    },
    OrcaSwap(crate::orca_decoding::SwapParams),
    OrcaSwapV2(crate::orca_decoding::SwapV2Params),
    OrcaIncreaseLiquidity(crate::orca_decoding::IncreaseLiquidityParams),
    OrcaDecreaseLiquidity(crate::orca_decoding::DecreaseLiquidityParams),
    OrcaInitializePool(crate::orca_decoding::InitializePoolParams),
    OrcaOpenPosition(crate::orca_decoding::OpenPositionParams),
    OrcaClosePosition,
    OrcaTwoHopSwap(crate::orca_decoding::TwoHopSwapParams),
    BoopCreateToken(crate::boop_decoding::CreateTokenParams),
    BoopDeployBondingCurve(crate::boop_decoding::DeployBondingCurveParams),
    DlmmInitCustomizablePermissionlessLbPair {
        active_id: i32,
        bin_step: u16,
        base_factor: u16,
        activation_type: u8,
        has_alpha_vault: bool,
        activation_point: Option<u64>,
        creator_pool_on_off_control: bool,
        base_fee_power_factor: u8,
    },
    DlmmInitPermissionLbPair {
        active_id: i32,
        bin_step: u16,
        base_factor: u16,
        base_fee_power_factor: u8,
        activation_type: u8,
        protocol_share: u16,
    },
    DlmmInitLbPair { active_id: i32, bin_step: u16 },
    DlmmInitLbPair2 { active_id: i32 },
    DlmmAddLiquidity {
        version: u8,
        amount_x: u64,
        amount_y: u64,
        bin_liquidity_dist: Vec<crate::decoder::meteora_dlmm::BinLiquidityDistribution>,
        remaining_accounts_info: Option<crate::decoder::meteora_dlmm::DlmmRemainingAccountsInfo>,
    },
}

/// One decoded instruction: the normalized record pushed to subscribers.
#[derive(Clone, Debug)]
pub struct DecodedInstruction {
    /// The program's address, base58.
    pub program_id: String,
    pub instruction_name: String,
    pub protocol: String,
    /// The raw instruction data, lowercase hex.
    pub raw_data: String,
    pub accounts: Vec<DecodedAccount>,
    pub parsed_data: ParsedParams,
}

/// The text an account position renders to: the base58 of the key the index
/// selects, or `unknown` for an index past the key list.
pub open spec fn sp_account_pubkey_text(idx: u8, account_keys: Seq<Pubkey>) -> Seq<char> {
    if (idx as int) < account_keys.len() {
        base58_of(account_keys[idx as int]@)
    } else {
        "unknown"@
    }
}

/// The signer flag an account position renders to: the flag the index
/// selects, or false past the end.
pub open spec fn sp_account_flag(idx: u8, flags: Seq<bool>) -> bool {
    if (idx as int) < flags.len() {
        flags[idx as int]
    } else {
        false
    }
}

/// The envelope every decoded instruction's record satisfies: the program id
/// in base58, the raw data in lowercase hex, the given name and protocol,
/// and, for each account index of the instruction, the selected key in
/// base58 with its signer and writable roles (an index past the resolved key
/// list renders as `unknown` with no roles).
pub open spec fn sp_record_envelope(
    r: DecodedInstruction,
    program_id: Seq<u8>,
    instruction_name: Seq<char>,
    protocol_name: Seq<char>,
    raw_data: Seq<u8>,
    accounts_indices: Seq<u8>,
    account_keys: Seq<Pubkey>,
    is_signer: Seq<bool>,
    is_writable: Seq<bool>,
) -> bool {
    &&& r.program_id@ == base58_of(program_id)
    &&& r.instruction_name@ == instruction_name
    &&& r.protocol@ == protocol_name
    &&& r.raw_data@ == sp_hex_text(raw_data)
    &&& r.accounts@.len() == accounts_indices.len()
    &&& forall|i: int|
        0 <= i < accounts_indices.len() ==> {
            let a = #[trigger] r.accounts@[i];
            &&& a.index == i
            &&& a.pubkey@ == sp_account_pubkey_text(accounts_indices[i], account_keys)
            &&& a.signer == ((accounts_indices[i] as int) < account_keys.len()
                && sp_account_flag(accounts_indices[i], is_signer))
            &&& a.writable == ((accounts_indices[i] as int) < account_keys.len()
                && sp_account_flag(accounts_indices[i], is_writable))
        }
}

/// Build the normalized record for one decoded instruction.
pub fn create_standardized_instruction(
    program_id: &Pubkey,
    instruction_name: &str,
    protocol_name: &str,
    raw_data: &[u8],
    accounts_indices: &[u8],
    account_keys: &Vec<Pubkey>,
    is_signer: &Vec<bool>,
    is_writable: &Vec<bool>,
    parsed_args: ParsedParams,
) -> (r: DecodedInstruction)
    ensures
        sp_record_envelope(
            r,
            program_id@,
            instruction_name@,
            protocol_name@,
            raw_data@,
            accounts_indices@,
            account_keys@,
            is_signer@,
            is_writable@,
        ),
        r.parsed_data == parsed_args,
{
    let mut mapped_accounts: Vec<DecodedAccount> = Vec::new();
    let n = accounts_indices.len();
    let mut i: usize = 0;
    while i < n
        invariant
            n == accounts_indices@.len(),
            i <= n,
            mapped_accounts@.len() == i,
            forall|j: int|
                0 <= j < i ==> {
                    let a = #[trigger] mapped_accounts@[j];
                    &&& a.index == j
                    &&& a.pubkey@ == sp_account_pubkey_text(accounts_indices@[j], account_keys@)
                    &&& a.signer == ((accounts_indices@[j] as int) < account_keys@.len()
                        && sp_account_flag(accounts_indices@[j], is_signer@))
                    &&& a.writable == ((accounts_indices@[j] as int) < account_keys@.len()
                        && sp_account_flag(accounts_indices@[j], is_writable@))
                },
        decreases n - i,
    {
        let idx = accounts_indices[i];
        let account_idx = idx as usize;
        if account_idx < account_keys.len() {
            let pubkey = encode_base58(account_keys[account_idx].as_slice());
            let signer = if account_idx < is_signer.len() {
                is_signer[account_idx]
            } else {
                false
            };
            let writable = if account_idx < is_writable.len() {
                is_writable[account_idx]
            } else {
                false
            };
            mapped_accounts.push(DecodedAccount { index: i, pubkey, signer, writable });
        } else {
            mapped_accounts.push(
                DecodedAccount {
                    index: i,
                    pubkey: "unknown".to_owned(),
                    signer: false,
                    writable: false,
                },
            );
        }
        i = i + 1;
    }
    DecodedInstruction {
        program_id: encode_base58(program_id.as_slice()),
        instruction_name: instruction_name.to_owned(),
        protocol: protocol_name.to_owned(),
        raw_data: to_hex_string(raw_data),
        accounts: mapped_accounts,
        parsed_data: parsed_args,
    }
}

} // verus!
