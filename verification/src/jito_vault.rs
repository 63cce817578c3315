//! The Jito restaking vault account, which prices the kySOL SY token.
use crate::bytes::{le_u64, read_u64};
use crate::number::{div_raw, Number, NUMBER_ONE};
use crate::pubkey::Pubkey;
use vstd::prelude::*;

verus! {

/// Size of the vault account after its 8-byte discriminator.
pub const JITO_VAULT_SIZE: usize = 1103;

/// Rolled-up stake state for all operators of a vault.
#[derive(Clone, Copy, Debug)]
pub struct DelegationState {
    /// The amount of stake that is currently active on the operator
    pub staked_amount: u64,
    /// Any stake that was deactivated in the current epoch
    pub enqueued_for_cooldown_amount: u64,
    /// Any stake that was deactivated in the previous epoch,
    /// to be available for re-delegation in the current epoch + 1
    pub cooling_down_amount: u64,
}

/// How a VRT burn is split.
#[derive(Debug)]
pub struct BurnSummary {
    /// How much of the VRT shall be transferred to the vault fee account
    pub vault_fee_amount: u64,
    /// How much of the VRT shall be transferred to the program fee account
    pub program_fee_amount: u64,
    /// How much of the staker's VRT shall be burned
    pub burn_amount: u64,
    /// How much of the staker's tokens shall be returned
    pub out_amount: u64,
}

/// How a VRT mint is split.
#[derive(Debug)]
pub struct MintSummary {
    pub vrt_to_depositor: u64,
    pub vrt_to_fee_wallet: u64,
}

/// Kinds of accounts of the Jito vault program.
#[derive(Debug, Clone, Copy)]
pub enum JitoVaultDiscriminator {
    Config,
    Vault,
    VaultNcnTicket,
    VaultOperatorDelegation,
    VaultNcnSlasherTicket,
    VaultNcnSlasherOperatorTicket,
    VaultStakerWithdrawalTicket,
    VaultUpdateStateTracker,
}

impl JitoVaultDiscriminator {
    /// The byte that marks an account of this kind.
    pub fn value(&self) -> (r: u8)
        ensures
            r == match self {
                JitoVaultDiscriminator::Config => 1u8,
                JitoVaultDiscriminator::Vault => 2u8,
                JitoVaultDiscriminator::VaultNcnTicket => 3u8,
                JitoVaultDiscriminator::VaultOperatorDelegation => 4u8,
                JitoVaultDiscriminator::VaultNcnSlasherTicket => 5u8,
                JitoVaultDiscriminator::VaultNcnSlasherOperatorTicket => 6u8,
                JitoVaultDiscriminator::VaultStakerWithdrawalTicket => 7u8,
                JitoVaultDiscriminator::VaultUpdateStateTracker => 8u8,
            },
    {
        match self {
            JitoVaultDiscriminator::Config => 1,
            JitoVaultDiscriminator::Vault => 2,
            JitoVaultDiscriminator::VaultNcnTicket => 3,
            JitoVaultDiscriminator::VaultOperatorDelegation => 4,
            JitoVaultDiscriminator::VaultNcnSlasherTicket => 5,
            JitoVaultDiscriminator::VaultNcnSlasherOperatorTicket => 6,
            JitoVaultDiscriminator::VaultStakerWithdrawalTicket => 7,
            JitoVaultDiscriminator::VaultUpdateStateTracker => 8,
        }
    }
}

/// The fields of a Jito vault account that pricing and freshness checks read.
#[derive(Clone, Copy, Debug)]
pub struct JitoVault {
    /// The base account of the VRT
    pub base: Pubkey,
    /// Mint of the VRT token
    pub vrt_mint: Pubkey,
    /// Mint of the token that is supported by the VRT
    pub supported_mint: Pubkey,
    /// The total number of VRT in circulation
    pub vrt_supply: u64,
    /// The total number of tokens deposited
    pub tokens_deposited: u64,
    /// The maximum deposit capacity allowed in the mint_to instruction
    pub deposit_capacity: u64,
    /// Rolled-up stake state for all operators in the set
    pub delegation_state: DelegationState,
    /// The amount of additional assets that need unstaking to fulfill VRT withdrawals
    pub additional_assets_need_unstaking: u64,
    /// The amount of VRT tokens enqueued for cooldown
    pub vrt_enqueued_for_cooldown_amount: u64,
    /// The amount of VRT tokens cooling down
    pub vrt_cooling_down_amount: u64,
    /// The amount of VRT tokens ready to claim
    pub vrt_ready_to_claim_amount: u64,
    /// The slot of the last fee change
    pub last_fee_change_slot: u64,
    /// The slot of the last time the delegations were updated
    pub last_full_state_update_slot: u64,
    /// The bump seed for the PDA
    pub bump: u8,
}

/// `v` holds the fields of the vault stored in `data` after its 8-byte
/// discriminator, in the vault's `repr(C)` layout.
pub open spec fn parses_jito_vault(v: JitoVault, data: Seq<u8>) -> bool {
    &&& v.base@ == data.subrange(8, 40)
    &&& v.vrt_mint@ == data.subrange(40, 72)
    &&& v.supported_mint@ == data.subrange(72, 104)
    &&& v.vrt_supply == le_u64(data, 104)
    &&& v.tokens_deposited == le_u64(data, 112)
    &&& v.deposit_capacity == le_u64(data, 120)
    &&& v.delegation_state.staked_amount == le_u64(data, 128)
    &&& v.delegation_state.enqueued_for_cooldown_amount == le_u64(data, 136)
    &&& v.delegation_state.cooling_down_amount == le_u64(data, 144)
    &&& v.additional_assets_need_unstaking == le_u64(data, 408)
    &&& v.vrt_enqueued_for_cooldown_amount == le_u64(data, 416)
    &&& v.vrt_cooling_down_amount == le_u64(data, 424)
    &&& v.vrt_ready_to_claim_amount == le_u64(data, 432)
    &&& v.last_fee_change_slot == le_u64(data, 824)
    &&& v.last_full_state_update_slot == le_u64(data, 832)
    &&& v.bump == data[850]
}

/// Exchange index of a vault holding `tokens_deposited` against `vrt_supply`
/// VRT: their ratio, or one while no VRT exists.
pub open spec fn spec_exchange_index(vrt_supply: int, tokens_deposited: int) -> int {
    if vrt_supply == 0 {
        NUMBER_ONE as int
    } else {
        div_raw(tokens_deposited, vrt_supply)
    }
}

impl JitoVault {
    /// Reads the vault stored in `data`: an 8-byte discriminator followed by the
    /// vault's bytes, which must be exactly `JITO_VAULT_SIZE` long.
    pub fn deserialize(data: &[u8]) -> (r: JitoVault)
        requires
            data.len() == 8 + JITO_VAULT_SIZE,
        ensures
            parses_jito_vault(r, data@),
    {
        JitoVault {
            base: Pubkey::read(data, 8),
            vrt_mint: Pubkey::read(data, 40),
            supported_mint: Pubkey::read(data, 72),
            vrt_supply: read_u64(data, 104),
            tokens_deposited: read_u64(data, 112),
            deposit_capacity: read_u64(data, 120),
            delegation_state: DelegationState {
                staked_amount: read_u64(data, 128),
                enqueued_for_cooldown_amount: read_u64(data, 136),
                cooling_down_amount: read_u64(data, 144),
            },
            additional_assets_need_unstaking: read_u64(data, 408),
            vrt_enqueued_for_cooldown_amount: read_u64(data, 416),
            vrt_cooling_down_amount: read_u64(data, 424),
            vrt_ready_to_claim_amount: read_u64(data, 432),
            last_fee_change_slot: read_u64(data, 824),
            last_full_state_update_slot: read_u64(data, 832),
            bump: data[850],
        }
    }

    /// The total number of VRT in circulation.
    pub fn vrt_supply(&self) -> (r: u64)
        ensures
            r == self.vrt_supply,
    {
        self.vrt_supply
    }

    /// Amount of jitoSOL deposited.
    pub fn tokens_deposited(&self) -> (r: u64)
        ensures
            r == self.tokens_deposited,
    {
        self.tokens_deposited
    }

    /// Exchange rate of the vault from VRT to jitoSOL.
    pub fn exchange_index(&self) -> (r: Number)
        ensures
            r.raw == spec_exchange_index(self.vrt_supply as int, self.tokens_deposited as int),
    {
        // If denominator is 0, exchange rate defaults to 1
        if self.vrt_supply() == 0 {
            return Number::one();
        }
        Number::from_ratio(self.tokens_deposited(), self.vrt_supply())
    }

    /// Whether the vault's delegations were last updated at `slot`.
    pub fn slot_staleness_check(&self, slot: u64) -> (r: bool)
        ensures
            r == (self.last_full_state_update_slot == slot),
    {
        self.last_full_state_update_slot == slot
    }
}

} // verus!
