//! Boop program decoding: instruction identification and parameter layouts.

use vstd::prelude::*;
use crate::bytes::starts_with;
use crate::Pubkey;

verus! {

/// The 8-byte discriminator of this variant's instruction data.
pub open spec fn sp_boop_create_token_instruction_discriminator() -> Seq<u8> {
    seq![84, 52, 204, 228, 24, 140, 234, 75]
}

/// The 8-byte discriminator of this variant's instruction data, as bytes.
pub fn boop_create_token_instruction_discriminator() -> (r: Vec<u8>)
    ensures
        r@ == sp_boop_create_token_instruction_discriminator(),
{
    let r: Vec<u8> = vec![84, 52, 204, 228, 24, 140, 234, 75];
    proof {
        assert(r@ =~= sp_boop_create_token_instruction_discriminator());
    }
    r
}

/// The 8-byte discriminator of this variant's instruction data.
pub open spec fn sp_boop_deploy_bonding_curve_instruction_discriminator() -> Seq<u8> {
    seq![180, 89, 199, 76, 168, 236, 217, 138]
}

/// The 8-byte discriminator of this variant's instruction data, as bytes.
pub fn boop_deploy_bonding_curve_instruction_discriminator() -> (r: Vec<u8>)
    ensures
        r@ == sp_boop_deploy_bonding_curve_instruction_discriminator(),
{
    let r: Vec<u8> = vec![180, 89, 199, 76, 168, 236, 217, 138];
    proof {
        assert(r@ =~= sp_boop_deploy_bonding_curve_instruction_discriminator());
    }
    r
}


/// The Boop instructions this library decodes.
#[derive(Clone, Copy, Debug, PartialEq, Eq, Structural)]
pub enum BoopInstructionType {
    CreateToken,
    DeployBondingCurve,
}

/// Parameters of a Boop `CreateToken` instruction.
#[derive(Clone, Debug)]
pub struct CreateTokenParams {
    pub salt: u64,
    pub name: String,
    pub symbol: String,
    pub uri: String,
}

/// Parameters of a Boop `DeployBondingCurve` instruction.
#[derive(Clone, Debug)]
pub struct DeployBondingCurveParams {
    pub creator: Pubkey,
    pub salt: u64,
}

/// Which Boop instruction an instruction-data prefix names.
pub open spec fn sp_identify_boop(data: Seq<u8>) -> Option<BoopInstructionType> {
    if data.len() >= 8 && data.subrange(0, 8) == sp_boop_create_token_instruction_discriminator() {
        Some(BoopInstructionType::CreateToken)
    } else if data.len() >= 8 && data.subrange(0, 8)
        == sp_boop_deploy_bonding_curve_instruction_discriminator() {
        Some(BoopInstructionType::DeployBondingCurve)
    } else {
        None
    }
}

/// Identify a Boop instruction by its leading 8-byte discriminator.
pub fn get_boop_instruction_type(data: &[u8]) -> (r: Option<BoopInstructionType>)
    ensures
        r == sp_identify_boop(data@),
{
    if starts_with(data, &boop_create_token_instruction_discriminator()) {
        Some(BoopInstructionType::CreateToken)
    } else if starts_with(data, &boop_deploy_bonding_curve_instruction_discriminator()) {
        Some(BoopInstructionType::DeployBondingCurve)
    } else {
        None
    }
}

} // verus!
