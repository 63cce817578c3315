//! Account lists of the instructions that a swap through the market calls.
use crate::account_meta::{meta, AccountMeta};
use crate::pubkey::Pubkey;
use vstd::prelude::*;

verus! {

/// Accounts of the buy_pt and sell_pt instructions, which share one layout.
#[derive(Copy, Clone, Debug)]
pub struct TradePt {
    pub trader: Pubkey,
    pub market: Pubkey,
    pub token_sy_trader: Pubkey,
    pub token_pt_trader: Pubkey,
    pub token_sy_escrow: Pubkey,
    pub token_pt_escrow: Pubkey,
    pub address_lookup_table: Pubkey,
    pub token_program: Pubkey,
    pub sy_program: Pubkey,
    pub token_fee_treasury_sy: Pubkey,
    pub event_authority: Pubkey,
    pub exponent_program_id: Pubkey,
}

impl TradePt {
    /// The instruction's account references, in order: the trader signs, the
    /// market, the trader's and the market's token accounts and the fee treasury
    /// are written.
    pub fn account_metas(self) -> (r: Vec<AccountMeta>)
        ensures
            r@ == seq![
                meta(self.trader, true, true),
                meta(self.market, false, true),
                meta(self.token_sy_trader, false, true),
                meta(self.token_pt_trader, false, true),
                meta(self.token_sy_escrow, false, true),
                meta(self.token_pt_escrow, false, true),
                meta(self.address_lookup_table, false, false),
                meta(self.token_program, false, false),
                meta(self.sy_program, false, false),
                meta(self.token_fee_treasury_sy, false, true),
                meta(self.event_authority, false, false),
                meta(self.exponent_program_id, false, false),
            ],
    {
        vec![
            AccountMeta::new(self.trader, true),
            AccountMeta::new(self.market, false),
            AccountMeta::new(self.token_sy_trader, false),
            AccountMeta::new(self.token_pt_trader, false),
            AccountMeta::new(self.token_sy_escrow, false),
            AccountMeta::new(self.token_pt_escrow, false),
            AccountMeta::new_readonly(self.address_lookup_table, false),
            AccountMeta::new_readonly(self.token_program, false),
            AccountMeta::new_readonly(self.sy_program, false),
            AccountMeta::new(self.token_fee_treasury_sy, false),
            AccountMeta::new_readonly(self.event_authority, false),
            AccountMeta::new_readonly(self.exponent_program_id, false),
        ]
    }
}

/// Accounts of the kySOL SY program's mint_sy instruction.
#[derive(Copy, Clone, Debug)]
pub struct MintSyAccounts {
    /// User public key
    pub depositor: Pubkey,
    /// Meta account public key
    pub meta: Pubkey,
    /// SY token mint
    pub mint_sy: Pubkey,
    /// User's ATA for Base token
    pub token_base_depositor: Pubkey,
    /// Meta's ATA for Base token
    pub token_vrt_escrow: Pubkey,
    /// User's ATA for SY token
    pub token_sy_depositor: Pubkey,
    /// Jito vault address
    pub jito_vault: Pubkey,
    /// Base token program (Usually Token Program)
    pub base_token_program: Pubkey,
    /// SY token program (Usually Token Program)
    pub token_program: Pubkey,
    pub jito_stake_pool: Pubkey,
    pub jito_token_meta_ata: Pubkey,
}

impl MintSyAccounts {
    /// The instruction's account references, in order.
    pub fn account_metas(self) -> (r: Vec<AccountMeta>)
        ensures
            r@ == seq![
                meta(self.depositor, true, true),
                meta(self.meta, false, true),
                meta(self.mint_sy, false, true),
                meta(self.token_base_depositor, false, true),
                meta(self.token_vrt_escrow, false, true),
                meta(self.token_sy_depositor, false, true),
                meta(self.jito_vault, false, false),
                meta(self.base_token_program, false, false),
                meta(self.token_program, false, false),
                meta(self.jito_stake_pool, false, true),
                meta(self.jito_token_meta_ata, false, false),
            ],
    {
        vec![
            AccountMeta::new(self.depositor, true),
            AccountMeta::new(self.meta, false),
            AccountMeta::new(self.mint_sy, false),
            AccountMeta::new(self.token_base_depositor, false),
            AccountMeta::new(self.token_vrt_escrow, false),
            AccountMeta::new(self.token_sy_depositor, false),
            AccountMeta::new_readonly(self.jito_vault, false),
            AccountMeta::new_readonly(self.base_token_program, false),
            AccountMeta::new_readonly(self.token_program, false),
            AccountMeta::new(self.jito_stake_pool, false),
            AccountMeta::new_readonly(self.jito_token_meta_ata, false),
        ]
    }
}

/// Accounts of the kySOL SY program's redeem_sy instruction.
#[derive(Copy, Clone, Debug)]
pub struct RedeemSyAccounts {
    /// User public key
    pub signer: Pubkey,
    /// Meta account public key
    pub meta: Pubkey,
    /// Jito vault address
    pub jito_vault: Pubkey,
    /// User's ATA for Base token
    pub token_base_dst: Pubkey,
    /// Meta's ATA for Base token
    pub token_vrt_escrow: Pubkey,
    /// User's ATA for SY token
    pub token_sy_signer: Pubkey,
    /// SY token mint
    pub mint_sy: Pubkey,
    /// Base token program (Usually Token Program)
    pub base_token_program: Pubkey,
    /// SY token program (Usually Token Program)
    pub token_program: Pubkey,
    pub jito_stake_pool: Pubkey,
    pub jito_token_meta_ata: Pubkey,
}

impl RedeemSyAccounts {
    /// The instruction's account references, in order.
    pub fn account_metas(self) -> (r: Vec<AccountMeta>)
        ensures
            r@ == seq![
                meta(self.signer, true, true),
                meta(self.meta, false, true),
                meta(self.jito_vault, false, false),
                meta(self.token_base_dst, false, true),
                meta(self.token_vrt_escrow, false, true),
                meta(self.token_sy_signer, false, true),
                meta(self.mint_sy, false, true),
                meta(self.base_token_program, false, false),
                meta(self.token_program, false, false),
                meta(self.jito_stake_pool, false, true),
                meta(self.jito_token_meta_ata, false, false),
            ],
    {
        vec![
            AccountMeta::new(self.signer, true),
            AccountMeta::new(self.meta, false),
            AccountMeta::new_readonly(self.jito_vault, false),
            AccountMeta::new(self.token_base_dst, false),
            AccountMeta::new(self.token_vrt_escrow, false),
            AccountMeta::new(self.token_sy_signer, false),
            AccountMeta::new(self.mint_sy, false),
            AccountMeta::new_readonly(self.base_token_program, false),
            AccountMeta::new_readonly(self.token_program, false),
            AccountMeta::new(self.jito_stake_pool, false),
            AccountMeta::new_readonly(self.jito_token_meta_ata, false),
        ]
    }
}

/// Accounts of the wfragSOL SY program's mint_sy instruction.
#[derive(Copy, Clone, Debug)]
pub struct FragmetricMintSyAccounts {
    /// User public key
    pub depositor: Pubkey,
    /// Meta account public key
    pub meta: Pubkey,
    /// SY token mint
    pub mint_sy: Pubkey,
    /// User's ATA for Base token
    pub token_base_depositor: Pubkey,
    /// Meta's ATA for Base token
    pub token_yield_bearing_escrow: Pubkey,
    /// User's ATA for SY token
    pub token_sy_depositor: Pubkey,
    /// Base token program (Usually Token Program)
    pub base_token_program: Pubkey,
    /// SY token program (Usually Token Program)
    pub token_program: Pubkey,
    /// Fund account that prices wfragSOL
    pub wfragsol_fund_account: Pubkey,
    pub jito_token_meta_ata: Pubkey,
}

impl FragmetricMintSyAccounts {
    /// The instruction's account references, in field order: the depositor
    /// signs, the meta account, the SY mint and the token accounts are written.
    pub fn account_metas(self) -> (r: Vec<AccountMeta>)
        ensures
            r@ == seq![
                meta(self.depositor, true, true),
                meta(self.meta, false, true),
                meta(self.mint_sy, false, true),
                meta(self.token_base_depositor, false, true),
                meta(self.token_yield_bearing_escrow, false, true),
                meta(self.token_sy_depositor, false, true),
                meta(self.base_token_program, false, false),
                meta(self.token_program, false, false),
                meta(self.wfragsol_fund_account, false, false),
                meta(self.jito_token_meta_ata, false, false),
            ],
    {
        vec![
            AccountMeta::new(self.depositor, true),
            AccountMeta::new(self.meta, false),
            AccountMeta::new(self.mint_sy, false),
            AccountMeta::new(self.token_base_depositor, false),
            AccountMeta::new(self.token_yield_bearing_escrow, false),
            AccountMeta::new(self.token_sy_depositor, false),
            AccountMeta::new_readonly(self.base_token_program, false),
            AccountMeta::new_readonly(self.token_program, false),
            AccountMeta::new_readonly(self.wfragsol_fund_account, false),
            AccountMeta::new_readonly(self.jito_token_meta_ata, false),
        ]
    }
}

/// Accounts of the wfragSOL SY program's redeem_sy instruction.
#[derive(Copy, Clone, Debug)]
pub struct FragmetricRedeemSyAccounts {
    /// User public key
    pub signer: Pubkey,
    /// Meta account public key
    pub meta: Pubkey,
    /// User's ATA for Base token
    pub token_base_dst: Pubkey,
    /// Meta's ATA for Base token
    pub token_yield_bearing_escrow: Pubkey,
    /// User's ATA for SY token
    pub token_sy_signer: Pubkey,
    /// SY token mint
    pub mint_sy: Pubkey,
    /// Base token program (Usually Token Program)
    pub base_token_program: Pubkey,
    /// SY token program (Usually Token Program)
    pub token_program: Pubkey,
    /// Fund account that prices wfragSOL
    pub wfragsol_fund_account: Pubkey,
    pub jito_token_meta_ata: Pubkey,
}

impl FragmetricRedeemSyAccounts {
    /// The instruction's account references, in field order: the signer signs,
    /// the meta account, the token accounts and the SY mint are written.
    pub fn account_metas(self) -> (r: Vec<AccountMeta>)
        ensures
            r@ == seq![
                meta(self.signer, true, true),
                meta(self.meta, false, true),
                meta(self.token_base_dst, false, true),
                meta(self.token_yield_bearing_escrow, false, true),
                meta(self.token_sy_signer, false, true),
                meta(self.mint_sy, false, true),
                meta(self.base_token_program, false, false),
                meta(self.token_program, false, false),
                meta(self.wfragsol_fund_account, false, false),
                meta(self.jito_token_meta_ata, false, false),
            ],
    {
        vec![
            AccountMeta::new(self.signer, true),
            AccountMeta::new(self.meta, false),
            AccountMeta::new(self.token_base_dst, false),
            AccountMeta::new(self.token_yield_bearing_escrow, false),
            AccountMeta::new(self.token_sy_signer, false),
            AccountMeta::new(self.mint_sy, false),
            AccountMeta::new_readonly(self.base_token_program, false),
            AccountMeta::new_readonly(self.token_program, false),
            AccountMeta::new_readonly(self.wfragsol_fund_account, false),
            AccountMeta::new_readonly(self.jito_token_meta_ata, false),
        ]
    }
}

} // verus!
