//! The Exponent AMM: the markets it knows, how it prices their SY tokens and
//! which accounts its swaps pass.
use crate::account_meta::{meta, AccountMeta};
use crate::addresses::{
    exponent_core, exponent_event_authority, jito_stake_pool, jito_token_mint, jito_vault, kysol_market, kysol_mint, kysol_sy_meta_address, token_program, wfragsol_fund_account, wfragsol_market, wfragsol_mint, wfragsol_sy_meta_address, spec_exponent_core, spec_exponent_event_authority, spec_jito_stake_pool, spec_jito_token_mint, spec_jito_vault, spec_kysol_market, spec_kysol_mint, spec_kysol_sy_meta_address, spec_token_program, spec_wfragsol_fund_account, spec_wfragsol_market, spec_wfragsol_mint, spec_wfragsol_sy_meta_address,
};
use crate::bytes::le_u64;
use crate::cpi_common::{
    cpi_contexts_to_account_metas, merged_contexts, spec_account_metas, unique_cpi_contexts,
    CpiInterfaceContext,
};
use crate::fund_account::{spec_fund_exchange_rate, FundAccount, FUND_ACCOUNT_SIZE};
use crate::instructions::{
    FragmetricMintSyAccounts, FragmetricRedeemSyAccounts, MintSyAccounts, RedeemSyAccounts,
    TradePt,
};
use crate::jito_vault::{parses_jito_vault, spec_exchange_index, JitoVault, JITO_VAULT_SIZE};
use crate::market::MarketTwo;
use crate::market_account::{parses_market_two, spec_market_account_error, MarketTwoError};
use crate::number::{div_raw, mul_raw, Number, NUMBER_ONE};
use crate::pubkey::Pubkey;
use crate::stake_pool::StakePool;
use vstd::prelude::*;

verus! {

/// Address of the associated token account of `wallet` for `mint` under the
/// SPL token program, or `None` where no bump seed gives a program address.
pub uninterp spec fn spec_associated_token_address(wallet: Seq<u8>, mint: Seq<u8>) -> Option<Seq<u8>>;

/// Calls `Pubkey::try_find_program_address` with the seeds that
/// `spl_associated_token_account::get_associated_token_address` uses (wallet,
/// SPL token program id, mint) under the associated-token program id, and keeps
/// the address. The contract claims only that the outcome is a function of the
/// two addresses: `None` where no bump seed yields an address off the curve,
/// the derived address otherwise.
#[verifier::external_body]
fn associated_token_address(wallet: &Pubkey, mint: &Pubkey) -> (r: Option<Pubkey>)
    ensures
        match r {
            Some(address) => spec_associated_token_address(wallet@, mint@) == Some(address@),
            None => spec_associated_token_address(wallet@, mint@) is None,
        },
{
    let token_program = spl_token::id().to_bytes();
    match anchor_lang::prelude::Pubkey::try_find_program_address(
        &[&wallet.bytes, &token_program, &mint.bytes],
        &spl_associated_token_account::id(),
    ) {
        Some((address, _)) => Some(Pubkey { bytes: address.to_bytes() }),
        None => None,
    }
}

/// The associated token address of `owner` for `mint` can be derived.
pub open spec fn ata_exists(owner: Seq<u8>, mint: Seq<u8>) -> bool {
    spec_associated_token_address(owner, mint) is Some
}

/// The associated token address of `owner` for `mint`, where it can be derived.
pub open spec fn ata(owner: Seq<u8>, mint: Seq<u8>) -> Seq<u8> {
    spec_associated_token_address(owner, mint)->0
}

/// The associated token address of `owner` for `mint`; `owner` and `mint` must
/// have one.
fn derive_ata(owner: &Pubkey, mint: &Pubkey) -> (r: Pubkey)
    requires
        ata_exists(owner@, mint@),
    ensures
        r@ == ata(owner@, mint@),
{
    match associated_token_address(owner, mint) {
        Some(address) => address,
        None => {
            proof {
                assert(false);
            }
            *owner
        },
    }
}

/// Common data for all markets
#[derive(Clone, Copy, Debug)]
pub struct AdditionalMarketData {
    pub original_mint: Pubkey,
    pub is_virtual_exchange_rate: bool,
    pub sy_meta_address: Pubkey,
}

/// Stores specific data for each market
#[derive(Clone, Copy, Debug)]
pub enum ExponentAmmType {
    WFragSol { fund_account: Pubkey },
    KySol { jito_stake_pool: Pubkey, jito_vault: Pubkey },
}

/// Failures of the AMM's own logic.
#[derive(Clone, Copy, Debug, PartialEq, Eq)]
pub enum AmmError {
    /// The market is not one of the markets the AMM knows.
    UnknownMarket,
    /// The market account cannot be read.
    InvalidMarketAccount(MarketTwoError),
}

/// Original mint, virtual-exchange-rate flag and SY meta address of the market
/// at `market`, for the two known markets.
pub open spec fn spec_market_additional_data(market: Seq<u8>) -> Option<(Seq<u8>, bool, Seq<u8>)> {
    if market == spec_wfragsol_market() {
        Some((spec_wfragsol_mint(), true, spec_wfragsol_sy_meta_address()))
    } else if market == spec_kysol_market() {
        Some((spec_kysol_mint(), true, spec_kysol_sy_meta_address()))
    } else {
        None
    }
}

/// The data that `d` holds is `(original_mint, is_virtual_exchange_rate, sy_meta_address)`.
pub open spec fn additional_data_is(d: AdditionalMarketData, v: (Seq<u8>, bool, Seq<u8>)) -> bool {
    d.original_mint@ == v.0 && d.is_virtual_exchange_rate == v.1 && d.sy_meta_address@ == v.2
}

/// The two known markets are different accounts, and each has its own data:
/// the wfragSOL market trades wfragSOL and the kySOL market trades kySOL, each
/// through its SY meta account, and both price their SY with a virtual exchange
/// rate.
pub proof fn lemma_known_markets_data()
    ensures
        spec_wfragsol_market() != spec_kysol_market(),
        spec_market_additional_data(spec_wfragsol_market()) == Some(
            (spec_wfragsol_mint(), true, spec_wfragsol_sy_meta_address()),
        ),
        spec_market_additional_data(spec_kysol_market()) == Some(
            (spec_kysol_mint(), true, spec_kysol_sy_meta_address()),
        ),
{
    assert(spec_wfragsol_market()[0] != spec_kysol_market()[0]);
}

/// The additional data of the market at `market_pubkey`.
pub fn get_market_additional_data(market_pubkey: Pubkey) -> (r: Result<
    AdditionalMarketData,
    AmmError,
>)
    ensures
        match spec_market_additional_data(market_pubkey@) {
            Some(v) => r matches Ok(d) && additional_data_is(d, v),
            None => r == Err::<AdditionalMarketData, AmmError>(AmmError::UnknownMarket),
        },
        market_pubkey@ == spec_wfragsol_market() ==> (r matches Ok(d) && {
            &&& d.original_mint@ == spec_wfragsol_mint()
            &&& d.is_virtual_exchange_rate
            &&& d.sy_meta_address@ == spec_wfragsol_sy_meta_address()
        }),
        market_pubkey@ == spec_kysol_market() ==> (r matches Ok(d) && {
            &&& d.original_mint@ == spec_kysol_mint()
            &&& d.is_virtual_exchange_rate
            &&& d.sy_meta_address@ == spec_kysol_sy_meta_address()
        }),
{
    proof {
        lemma_known_markets_data();
    }
    if market_pubkey.equals(&wfragsol_market()) {
        Ok(
            AdditionalMarketData {
                original_mint: wfragsol_mint(),
                is_virtual_exchange_rate: true,
                sy_meta_address: wfragsol_sy_meta_address(),
            },
        )
    } else if market_pubkey.equals(&kysol_market()) {
        Ok(
            AdditionalMarketData {
                original_mint: kysol_mint(),
                is_virtual_exchange_rate: true,
                sy_meta_address: kysol_sy_meta_address(),
            },
        )
    } else {
        Err(AmmError::UnknownMarket)
    }
}

/// `t` holds the market-specific accounts of the known market at `market`: the
/// fund account of the wfragSOL market, or the stake pool and restaking vault of
/// the kySOL market.
pub open spec fn amm_type_is(t: ExponentAmmType, market: Seq<u8>) -> bool {
    match t {
        ExponentAmmType::WFragSol { fund_account } => market == spec_wfragsol_market()
            && fund_account@ == spec_wfragsol_fund_account(),
        ExponentAmmType::KySol { jito_stake_pool, jito_vault } => market != spec_wfragsol_market()
            && market == spec_kysol_market() && jito_stake_pool@ == spec_jito_stake_pool()
            && jito_vault@ == spec_jito_vault(),
    }
}

/// The market-specific accounts of the market at `market_pubkey`.
pub fn get_amm_type_from_market(market_pubkey: Pubkey) -> (r: Result<ExponentAmmType, AmmError>)
    ensures
        spec_market_additional_data(market_pubkey@) is None <==> r == Err::<
            ExponentAmmType,
            AmmError,
        >(AmmError::UnknownMarket),
        r matches Ok(t) ==> amm_type_is(t, market_pubkey@),
        r is Ok || r == Err::<ExponentAmmType, AmmError>(AmmError::UnknownMarket),
        market_pubkey@ == spec_wfragsol_market() ==> (r matches Ok(
            ExponentAmmType::WFragSol { fund_account },
        ) && fund_account@ == spec_wfragsol_fund_account()),
        market_pubkey@ == spec_kysol_market() ==> (r matches Ok(
            ExponentAmmType::KySol { jito_stake_pool, jito_vault },
        ) && jito_stake_pool@ == spec_jito_stake_pool() && jito_vault@ == spec_jito_vault()),
{
    proof {
        lemma_known_markets_data();
    }
    if market_pubkey.equals(&wfragsol_market()) {
        Ok(ExponentAmmType::WFragSol { fund_account: wfragsol_fund_account() })
    } else if market_pubkey.equals(&kysol_market()) {
        Ok(ExponentAmmType::KySol { jito_stake_pool: jito_stake_pool(), jito_vault: jito_vault() })
    } else {
        Err(AmmError::UnknownMarket)
    }
}

/// The accounts that price the SY token of a market of type `amm_type`.
pub open spec fn spec_specific_accounts(amm_type: ExponentAmmType) -> Seq<Pubkey> {
    match amm_type {
        ExponentAmmType::WFragSol { fund_account } => seq![fund_account],
        ExponentAmmType::KySol { jito_stake_pool, jito_vault } => seq![jito_stake_pool, jito_vault],
    }
}

/// SY exchange rate of the wfragSOL market: the fund account's receipt token
/// value, read from the fund account data.
pub fn wfragsol_sy_exchange_rate(fund_account_data: &[u8]) -> (r: Number)
    requires
        fund_account_data.len() >= 8 + FUND_ACCOUNT_SIZE,
        fund_account_data@[184] <= 19,
    ensures
        r.raw == spec_fund_exchange_rate(
            le_u64(fund_account_data@, 200),
            fund_account_data@[184] as nat,
        ),
{
    let fund_account = FundAccount::deserialize(fund_account_data);
    fund_account.exchange_rate()
}

/// Raw SY exchange rate of the kySOL market: the stake pool's lamports per pool
/// token times the restaking vault's exchange index, or `None` where the pool has
/// no tokens or the product exceeds the range of a `Number`.
pub open spec fn spec_kysol_exchange_rate(
    total_lamports: int,
    pool_token_supply: int,
    vrt_supply: int,
    tokens_deposited: int,
) -> Option<int> {
    if pool_token_supply == 0 {
        None
    } else {
        let stake_pool_rate = div_raw(total_lamports * NUMBER_ONE, pool_token_supply * NUMBER_ONE);
        let rate = mul_raw(stake_pool_rate, spec_exchange_index(vrt_supply, tokens_deposited));
        if rate <= u128::MAX {
            Some(rate)
        } else {
            None
        }
    }
}

/// Whether the kySOL SY exchange rate of `jito_vault` and `stake_pool` is
/// defined: the pool has pool tokens and the rate fits a `Number`.
pub fn kysol_exchange_rate_is_defined(jito_vault: &JitoVault, stake_pool: &StakePool) -> (r: bool)
    ensures
        r == spec_kysol_exchange_rate(
            stake_pool.total_lamports as int,
            stake_pool.pool_token_supply as int,
            jito_vault.vrt_supply as int,
            jito_vault.tokens_deposited as int,
        ) is Some,
{
    let jito_vault_exchange_rate = jito_vault.exchange_index();
    let lamports = Number::from_natural_u64(stake_pool.total_lamports);
    let supply = Number::from_natural_u64(stake_pool.pool_token_supply);
    match lamports.checked_div(&supply) {
        Some(stake_pool_rate) => stake_pool_rate.checked_mul(&jito_vault_exchange_rate).is_some(),
        None => {
            proof {
                if stake_pool.pool_token_supply > 0 {
                    crate::number::lemma_div_raw_at_most_dividend(
                        lamports.raw as int,
                        supply.raw as int,
                    );
                }
            }
            false
        },
    }
}

/// SY exchange rate of the kySOL market: the stake pool's lamports per pool
/// token times the restaking vault's exchange index. The pool must have pool
/// tokens and the rate must fit a `Number`.
pub fn kysol_exchange_rate(jito_vault: &JitoVault, stake_pool: &StakePool) -> (r: Number)
    requires
        spec_kysol_exchange_rate(
            stake_pool.total_lamports as int,
            stake_pool.pool_token_supply as int,
            jito_vault.vrt_supply as int,
            jito_vault.tokens_deposited as int,
        ) is Some,
    ensures
        spec_kysol_exchange_rate(
            stake_pool.total_lamports as int,
            stake_pool.pool_token_supply as int,
            jito_vault.vrt_supply as int,
            jito_vault.tokens_deposited as int,
        ) == Some(r.raw as int),
{
    let jito_vault_exchange_rate = jito_vault.exchange_index();
    let lamports = Number::from_natural_u64(stake_pool.total_lamports);
    let supply = Number::from_natural_u64(stake_pool.pool_token_supply);
    let stake_pool_rate = match lamports.checked_div(&supply) {
        Some(rate) => rate,
        None => {
            proof {
                crate::number::lemma_div_raw_at_most_dividend(
                    lamports.raw as int,
                    supply.raw as int,
                );
            }
            return Number::zero();
        },
    };
    match stake_pool_rate.checked_mul(&jito_vault_exchange_rate) {
        Some(rate) => rate,
        None => Number::zero(),
    }
}

/// `m` references the account at `key` with the given flags.
pub open spec fn meta_at(m: AccountMeta, key: Seq<u8>, is_signer: bool, is_writable: bool) -> bool {
    m.pubkey@ == key && m.is_signer == is_signer && m.is_writable == is_writable
}

/// The trader's SY and PT token accounts of `market` can be derived.
pub open spec fn trade_atas_exist(market: MarketTwo, wallet: Seq<u8>) -> bool {
    ata_exists(wallet, market.mint_sy@) && ata_exists(wallet, market.mint_pt@)
}

/// The token accounts of the SY program calls can be derived: the user's for
/// the original mint and for SY, and the SY meta account's for the original
/// mint and for JTO.
pub open spec fn sy_atas_exist(
    market: MarketTwo,
    additional: AdditionalMarketData,
    wallet: Seq<u8>,
) -> bool {
    &&& ata_exists(wallet, additional.original_mint@)
    &&& ata_exists(wallet, market.mint_sy@)
    &&& ata_exists(additional.sy_meta_address@, additional.original_mint@)
    &&& ata_exists(additional.sy_meta_address@, spec_jito_token_mint())
}

/// `s` is the account list of a buy_pt or sell_pt instruction of `market` for the
/// trader `wallet`.
pub open spec fn is_trade_metas(s: Seq<AccountMeta>, market: MarketTwo, wallet: Seq<u8>) -> bool {
    &&& s.len() == 12
    &&& meta_at(s[0], wallet, true, true)
    &&& meta_at(s[1], market.self_address@, false, true)
    &&& meta_at(s[2], ata(wallet, market.mint_sy@), false, true)
    &&& meta_at(s[3], ata(wallet, market.mint_pt@), false, true)
    &&& meta_at(s[4], market.token_sy_escrow@, false, true)
    &&& meta_at(s[5], market.token_pt_escrow@, false, true)
    &&& meta_at(s[6], market.address_lookup_table@, false, false)
    &&& meta_at(s[7], spec_token_program(), false, false)
    &&& meta_at(s[8], market.sy_program@, false, false)
    &&& meta_at(s[9], market.token_fee_treasury_sy@, false, true)
    &&& meta_at(s[10], spec_exponent_event_authority(), false, false)
    &&& meta_at(s[11], spec_exponent_core(), false, false)
}

/// `s` is the account list of the SY program's mint_sy instruction of a market of
/// type `amm_type` for the depositor `wallet`.
pub open spec fn is_mint_sy_metas(
    s: Seq<AccountMeta>,
    amm_type: ExponentAmmType,
    market: MarketTwo,
    additional: AdditionalMarketData,
    wallet: Seq<u8>,
) -> bool {
    let sy_meta = additional.sy_meta_address@;
    let original_mint = additional.original_mint@;
    match amm_type {
        ExponentAmmType::WFragSol { .. } => {
            &&& s.len() == 10
            &&& meta_at(s[0], wallet, true, true)
            &&& meta_at(s[1], sy_meta, false, true)
            &&& meta_at(s[2], market.mint_sy@, false, true)
            &&& meta_at(s[3], ata(wallet, original_mint), false, true)
            &&& meta_at(s[4], ata(sy_meta, original_mint), false, true)
            &&& meta_at(s[5], ata(wallet, market.mint_sy@), false, true)
            &&& meta_at(s[6], spec_token_program(), false, false)
            &&& meta_at(s[7], spec_token_program(), false, false)
            &&& meta_at(s[8], spec_wfragsol_fund_account(), false, false)
            &&& meta_at(s[9], ata(sy_meta, spec_jito_token_mint()), false, false)
        },
        ExponentAmmType::KySol { jito_vault, .. } => {
            &&& s.len() == 11
            &&& meta_at(s[0], wallet, true, true)
            &&& meta_at(s[1], sy_meta, false, true)
            &&& meta_at(s[2], market.mint_sy@, false, true)
            &&& meta_at(s[3], ata(wallet, original_mint), false, true)
            &&& meta_at(s[4], ata(sy_meta, original_mint), false, true)
            &&& meta_at(s[5], ata(wallet, market.mint_sy@), false, true)
            &&& meta_at(s[6], jito_vault@, false, false)
            &&& meta_at(s[7], spec_token_program(), false, false)
            &&& meta_at(s[8], spec_token_program(), false, false)
            &&& meta_at(s[9], spec_jito_stake_pool(), false, true)
            &&& meta_at(s[10], ata(sy_meta, spec_jito_token_mint()), false, false)
        },
    }
}

/// `s` is the account list of the SY program's redeem_sy instruction of a market
/// of type `amm_type` for the signer `wallet`.
pub open spec fn is_redeem_sy_metas(
    s: Seq<AccountMeta>,
    amm_type: ExponentAmmType,
    market: MarketTwo,
    additional: AdditionalMarketData,
    wallet: Seq<u8>,
) -> bool {
    let sy_meta = additional.sy_meta_address@;
    let original_mint = additional.original_mint@;
    match amm_type {
        ExponentAmmType::WFragSol { .. } => {
            &&& s.len() == 10
            &&& meta_at(s[0], wallet, true, true)
            &&& meta_at(s[1], sy_meta, false, true)
            &&& meta_at(s[2], ata(wallet, original_mint), false, true)
            &&& meta_at(s[3], ata(sy_meta, original_mint), false, true)
            &&& meta_at(s[4], ata(wallet, market.mint_sy@), false, true)
            &&& meta_at(s[5], market.mint_sy@, false, true)
            &&& meta_at(s[6], spec_token_program(), false, false)
            &&& meta_at(s[7], spec_token_program(), false, false)
            &&& meta_at(s[8], spec_wfragsol_fund_account(), false, false)
            &&& meta_at(s[9], ata(sy_meta, spec_jito_token_mint()), false, false)
        },
        ExponentAmmType::KySol { jito_vault, .. } => {
            &&& s.len() == 11
            &&& meta_at(s[0], wallet, true, true)
            &&& meta_at(s[1], sy_meta, false, true)
            &&& meta_at(s[2], jito_vault@, false, false)
            &&& meta_at(s[3], ata(wallet, original_mint), false, true)
            &&& meta_at(s[4], ata(sy_meta, original_mint), false, true)
            &&& meta_at(s[5], ata(wallet, market.mint_sy@), false, true)
            &&& meta_at(s[6], market.mint_sy@, false, true)
            &&& meta_at(s[7], spec_token_program(), false, false)
            &&& meta_at(s[8], spec_token_program(), false, false)
            &&& meta_at(s[9], spec_jito_stake_pool(), false, true)
            &&& meta_at(s[10], ata(sy_meta, spec_jito_token_mint()), false, false)
        },
    }
}

/// `s` resolves, through the lookup table `keys`, the contexts of `contexts`
/// merged by table index.
pub open spec fn is_remaining_metas(
    s: Seq<AccountMeta>,
    contexts: Seq<CpiInterfaceContext>,
    keys: Seq<Pubkey>,
) -> bool {
    exists|merged: Seq<CpiInterfaceContext>|
        merged_contexts(merged, contexts) && s == spec_account_metas(merged, keys)
}

/// Concatenation of two context lists.
fn concat_contexts(a: &Vec<CpiInterfaceContext>, b: &Vec<CpiInterfaceContext>) -> (r: Vec<
    CpiInterfaceContext,
>)
    ensures
        r@ == a@ + b@,
{
    let mut r: Vec<CpiInterfaceContext> = Vec::new();
    let mut i: usize = 0;
    while i < a.len()
        invariant
            0 <= i <= a@.len(),
            r@ == a@.take(i as int),
        decreases a.len() - i,
    {
        r.push(a[i]);
        assert(a@.take(i + 1) =~= a@.take(i as int).push(a@[i as int]));
        i = i + 1;
    }
    let mut j: usize = 0;
    while j < b.len()
        invariant
            0 <= j <= b@.len(),
            a@.take(a@.len() as int) =~= a@,
            r@ == a@ + b@.take(j as int),
        decreases b.len() - j,
    {
        r.push(b[j]);
        assert(b@.take(j + 1) =~= b@.take(j as int).push(b@[j as int]));
        assert(a@ + b@.take(j + 1) =~= (a@ + b@.take(j as int)).push(b@[j as int]));
        j = j + 1;
    }
    assert(b@.take(b@.len() as int) =~= b@);
    r
}

/// Appends all of `b` to `a`.
fn append_metas(a: &mut Vec<AccountMeta>, b: &Vec<AccountMeta>)
    ensures
        final(a)@ == old(a)@ + b@,
{
    let ghost start = a@;
    let mut j: usize = 0;
    while j < b.len()
        invariant
            0 <= j <= b@.len(),
            a@ == start + b@.take(j as int),
        decreases b.len() - j,
    {
        a.push(b[j]);
        assert(b@.take(j + 1) =~= b@.take(j as int).push(b@[j as int]));
        assert(start + b@.take(j + 1) =~= (start + b@.take(j as int)).push(b@[j as int]));
        j = j + 1;
    }
    assert(b@.take(b@.len() as int) =~= b@);
}

/// The accounts of a swap through the market, with the direction of the swap and
/// the number of SY program accounts that follow the trade accounts.
pub struct SwapAccountMetas {
    pub is_buy_pt: bool,
    pub account_metas: Vec<AccountMeta>,
    pub rem_accounts_until: usize,
}


/// The AMM's state for one Exponent market.
#[derive(Clone, Debug)]
pub struct ExponentAmm {
    /// Address of the market account
    pub key: Pubkey,
    pub amm_type: ExponentAmmType,
    /// The original mint and the PT mint, the two tokens the AMM trades
    pub reserve_mints: [Pubkey; 2],
    /// How much of the original mint one SY is worth, once known
    pub sy_exchange_rate: Option<Number>,
    pub market: MarketTwo,
    pub market_additional_data: AdditionalMarketData,
    /// The addresses of the market's lookup table, once read
    pub market_lookup_table_accounts: Option<Vec<Pubkey>>,
    /// SY and PT balances of the market, as of the last update
    pub reserves: [u64; 2],
    /// The program that owns the market account
    pub program_id: Pubkey,
}

/// `a` and `b` agree on everything but the market.
pub open spec fn same_but_market(a: ExponentAmm, b: ExponentAmm) -> bool {
    &&& a.key == b.key
    &&& a.amm_type == b.amm_type
    &&& a.reserve_mints == b.reserve_mints
    &&& a.sy_exchange_rate == b.sy_exchange_rate
    &&& a.market_additional_data == b.market_additional_data
    &&& a.market_lookup_table_accounts == b.market_lookup_table_accounts
    &&& a.reserves == b.reserves
    &&& a.program_id == b.program_id
}

/// `a` and `b` agree on everything but the lookup table addresses.
pub open spec fn same_but_lookup_table(a: ExponentAmm, b: ExponentAmm) -> bool {
    &&& a.key == b.key
    &&& a.amm_type == b.amm_type
    &&& a.reserve_mints == b.reserve_mints
    &&& a.sy_exchange_rate == b.sy_exchange_rate
    &&& a.market == b.market
    &&& a.market_additional_data == b.market_additional_data
    &&& a.reserves == b.reserves
    &&& a.program_id == b.program_id
}

/// `r` is the account list of a swap of `source_mint` through `amm` for
/// `wallet`. Buying PT (paying the original mint) passes the trade accounts, the
/// mint_sy accounts, the Exponent program, and the accounts of the SY state and
/// deposit calls; selling PT passes the trade accounts, the redeem_sy accounts
/// and the accounts of the SY state and withdrawal calls. `rem_accounts_until`
/// is the number of SY program accounts.
pub open spec fn is_swap_account_metas(
    amm: ExponentAmm,
    wallet: Seq<u8>,
    source_mint: Seq<u8>,
    r: SwapAccountMetas,
) -> bool {
    let market = amm.market;
    let keys = amm.market_lookup_table_accounts->0@;
    &&& r.is_buy_pt == (source_mint == amm.reserve_mints[0]@)
    &&& r.is_buy_pt ==> exists|
        trade: Seq<AccountMeta>,
        sy: Seq<AccountMeta>,
        program: AccountMeta,
        remaining: Seq<AccountMeta>,
    |
        {
            &&& is_trade_metas(trade, market, wallet)
            &&& is_mint_sy_metas(
                sy,
                amm.amm_type,
                market,
                amm.market_additional_data,
                wallet,
            )
            &&& meta_at(program, spec_exponent_core(), false, false)
            &&& is_remaining_metas(
                remaining,
                market.cpi_accounts.get_sy_state@ + market.cpi_accounts.deposit_sy@,
                keys,
            )
            &&& r.account_metas@ == trade + sy + seq![program] + remaining
            &&& r.rem_accounts_until == sy.len()
        }
    &&& !r.is_buy_pt ==> exists|
        trade: Seq<AccountMeta>,
        sy: Seq<AccountMeta>,
        remaining: Seq<AccountMeta>,
    |
        {
            &&& is_trade_metas(trade, market, wallet)
            &&& is_redeem_sy_metas(
                sy,
                amm.amm_type,
                market,
                amm.market_additional_data,
                wallet,
            )
            &&& is_remaining_metas(
                remaining,
                market.cpi_accounts.get_sy_state@ + market.cpi_accounts.withdraw_sy@,
                keys,
            )
            &&& r.account_metas@ == trade + sy + remaining
            &&& r.rem_accounts_until == sy.len()
        }
}

impl ExponentAmm {
    /// The AMM for `market`, whose account is at `key` and owned by
    /// `program_id`: the data of the known market that `market` records as its
    /// own, and no exchange rate, lookup table or reserves yet. The market must
    /// be one of the known markets.
    pub fn from_market(key: Pubkey, program_id: Pubkey, market: MarketTwo) -> (r: ExponentAmm)
        requires
            spec_market_additional_data(market.self_address@) is Some,
        ensures
            r.key == key,
            r.program_id == program_id,
            r.market == market,
            additional_data_is(
                r.market_additional_data,
                spec_market_additional_data(market.self_address@)->0,
            ),
            amm_type_is(r.amm_type, market.self_address@),
            r.reserve_mints[0] == r.market_additional_data.original_mint,
            r.reserve_mints[1] == market.mint_pt,
            r.sy_exchange_rate is None,
            r.market_lookup_table_accounts is None,
            r.reserves[0] == 0 && r.reserves[1] == 0,
    {
        let market_additional_data = match get_market_additional_data(market.self_address) {
            Ok(d) => d,
            Err(_) => {
                proof {
                    assert(false);
                }
                AdditionalMarketData {
                    original_mint: key,
                    is_virtual_exchange_rate: false,
                    sy_meta_address: key,
                }
            },
        };
        let amm_type = match get_amm_type_from_market(market.self_address) {
            Ok(t) => t,
            Err(_) => {
                proof {
                    assert(false);
                }
                ExponentAmmType::WFragSol { fund_account: key }
            },
        };
        let reserve_mints = [market_additional_data.original_mint, market.mint_pt];
        ExponentAmm {
            key,
            amm_type,
            reserve_mints,
            sy_exchange_rate: None,
            market,
            market_additional_data,
            market_lookup_table_accounts: None,
            reserves: [0, 0],
            program_id,
        }
    }

    /// The accounts that price the SY token: the fund account, or the stake pool
    /// and the restaking vault.
    pub fn get_specific_accounts_to_update(&self) -> (r: Vec<Pubkey>)
        ensures
            r@ == spec_specific_accounts(self.amm_type),
    {
        match self.amm_type {
            ExponentAmmType::WFragSol { fund_account } => vec![fund_account],
            ExponentAmmType::KySol { jito_stake_pool, jito_vault } => vec![
                jito_stake_pool,
                jito_vault,
            ],
        }
    }

    /// The accounts a quote needs: the market, its lookup table and the accounts
    /// that price its SY token.
    pub fn get_accounts_to_update(&self) -> (r: Vec<Pubkey>)
        ensures
            r@ == seq![self.market.self_address, self.market.address_lookup_table]
                + spec_specific_accounts(self.amm_type),
    {
        let specific_accounts = self.get_specific_accounts_to_update();
        let mut accounts = vec![self.market.self_address, self.market.address_lookup_table];
        let mut i: usize = 0;
        while i < specific_accounts.len()
            invariant
                0 <= i <= specific_accounts@.len(),
                specific_accounts@ == spec_specific_accounts(self.amm_type),
                accounts@ == seq![self.market.self_address, self.market.address_lookup_table]
                    + specific_accounts@.take(i as int),
            decreases specific_accounts.len() - i,
        {
            accounts.push(specific_accounts[i]);
            assert(specific_accounts@.take(i + 1) =~= specific_accounts@.take(i as int).push(
                specific_accounts@[i as int],
            ));
            i = i + 1;
        }
        assert(specific_accounts@.take(specific_accounts@.len() as int) =~= specific_accounts@);
        accounts
    }

    /// Replaces the market with the one the market account `data` holds; leaves
    /// the AMM unchanged where `data` cannot be read.
    pub fn update_market(&mut self, data: &[u8]) -> (r: Result<(), AmmError>)
        ensures
            match spec_market_account_error(data@) {
                Some(e) => {
                    &&& r == Err::<(), AmmError>(AmmError::InvalidMarketAccount(e))
                    &&& *final(self) == *old(self)
                },
                None => {
                    &&& r is Ok
                    &&& parses_market_two(final(self).market, data@)
                    &&& same_but_market(*final(self), *old(self))
                },
            },
    {
        match MarketTwo::try_deserialize(data) {
            Ok(market) => {
                self.market = market;
                Ok(())
            },
            Err(e) => Err(AmmError::InvalidMarketAccount(e)),
        }
    }

    /// Records the SY exchange rate, and takes the market's SY and PT balances
    /// as the reserves.
    pub fn set_sy_exchange_rate(&mut self, sy_exchange_rate: Number)
        ensures
            final(self).sy_exchange_rate == Some(sy_exchange_rate),
            final(self).reserves[0] == old(self).market.financials.sy_balance,
            final(self).reserves[1] == old(self).market.financials.pt_balance,
            final(self).key == old(self).key,
            final(self).amm_type == old(self).amm_type,
            final(self).reserve_mints == old(self).reserve_mints,
            final(self).market == old(self).market,
            final(self).market_additional_data == old(self).market_additional_data,
            final(self).market_lookup_table_accounts == old(self).market_lookup_table_accounts,
            final(self).program_id == old(self).program_id,
    {
        self.sy_exchange_rate = Some(sy_exchange_rate);
        self.reserves = [self.market.financials.sy_balance, self.market.financials.pt_balance];
    }

    /// Records the addresses of the market's lookup table.
    pub fn set_lookup_table_accounts(&mut self, keys: Vec<Pubkey>)
        ensures
            same_but_lookup_table(*final(self), *old(self)),
            final(self).market_lookup_table_accounts == Some(keys),
    {
        self.market_lookup_table_accounts = Some(keys);
    }

    /// Accounts of the buy_pt or sell_pt instruction for the trader
    /// `wallet_address`.
    pub fn get_trade_metas(&self, wallet_address: Pubkey) -> (r: Vec<AccountMeta>)
        requires
            trade_atas_exist(self.market, wallet_address@),
        ensures
            is_trade_metas(r@, self.market, wallet_address@),
    {
        let user_sy_token_ata = derive_ata(&wallet_address, &self.market.mint_sy);
        let user_pt_token_ata = derive_ata(&wallet_address, &self.market.mint_pt);
        TradePt {
            trader: wallet_address,
            market: self.market.self_address,
            token_sy_trader: user_sy_token_ata,
            token_pt_trader: user_pt_token_ata,
            token_sy_escrow: self.market.token_sy_escrow,
            token_pt_escrow: self.market.token_pt_escrow,
            address_lookup_table: self.market.address_lookup_table,
            token_program: token_program(),
            sy_program: self.market.sy_program,
            token_fee_treasury_sy: self.market.token_fee_treasury_sy,
            event_authority: exponent_event_authority(),
            exponent_program_id: exponent_core(),
        }.account_metas()
    }

    /// Accounts of the SY program's mint_sy instruction for the depositor
    /// `wallet_address`.
    pub fn get_mint_sy_metas(&self, wallet_address: Pubkey) -> (r: Vec<AccountMeta>)
        requires
            sy_atas_exist(self.market, self.market_additional_data, wallet_address@),
        ensures
            is_mint_sy_metas(
                r@,
                self.amm_type,
                self.market,
                self.market_additional_data,
                wallet_address@,
            ),
    {
        let additional = &self.market_additional_data;
        let user_base_token_ata = derive_ata(
            &wallet_address,
            &additional.original_mint,
        );
        let user_sy_token_ata = derive_ata(&wallet_address, &self.market.mint_sy);
        let meta_base_token_ata = derive_ata(
            &additional.sy_meta_address,
            &additional.original_mint,
        );
        let jito_token_meta_ata = derive_ata(
            &additional.sy_meta_address,
            &jito_token_mint(),
        );
        match self.amm_type {
            ExponentAmmType::WFragSol { .. } => FragmetricMintSyAccounts {
                depositor: wallet_address,
                meta: additional.sy_meta_address,
                mint_sy: self.market.mint_sy,
                token_base_depositor: user_base_token_ata,
                token_yield_bearing_escrow: meta_base_token_ata,
                token_sy_depositor: user_sy_token_ata,
                base_token_program: token_program(),
                token_program: token_program(),
                wfragsol_fund_account: wfragsol_fund_account(),
                jito_token_meta_ata,
            }.account_metas(),
            ExponentAmmType::KySol { jito_vault, .. } => MintSyAccounts {
                depositor: wallet_address,
                meta: additional.sy_meta_address,
                mint_sy: self.market.mint_sy,
                token_base_depositor: user_base_token_ata,
                token_vrt_escrow: meta_base_token_ata,
                token_sy_depositor: user_sy_token_ata,
                jito_vault,
                base_token_program: token_program(),
                token_program: token_program(),
                jito_stake_pool: jito_stake_pool(),
                jito_token_meta_ata,
            }.account_metas(),
        }
    }

    /// Accounts of the SY program's redeem_sy instruction for the signer
    /// `wallet_address`.
    pub fn get_redeem_sy_metas(&self, wallet_address: Pubkey) -> (r: Vec<AccountMeta>)
        requires
            sy_atas_exist(self.market, self.market_additional_data, wallet_address@),
        ensures
            is_redeem_sy_metas(
                r@,
                self.amm_type,
                self.market,
                self.market_additional_data,
                wallet_address@,
            ),
    {
        let additional = &self.market_additional_data;
        let user_base_token_ata = derive_ata(
            &wallet_address,
            &additional.original_mint,
        );
        let user_sy_token_ata = derive_ata(&wallet_address, &self.market.mint_sy);
        let meta_base_token_ata = derive_ata(
            &additional.sy_meta_address,
            &additional.original_mint,
        );
        let jito_token_meta_ata = derive_ata(
            &additional.sy_meta_address,
            &jito_token_mint(),
        );
        match self.amm_type {
            ExponentAmmType::WFragSol { .. } => FragmetricRedeemSyAccounts {
                signer: wallet_address,
                meta: additional.sy_meta_address,
                token_base_dst: user_base_token_ata,
                token_yield_bearing_escrow: meta_base_token_ata,
                token_sy_signer: user_sy_token_ata,
                mint_sy: self.market.mint_sy,
                base_token_program: token_program(),
                token_program: token_program(),
                wfragsol_fund_account: wfragsol_fund_account(),
                jito_token_meta_ata,
            }.account_metas(),
            ExponentAmmType::KySol { jito_vault, .. } => RedeemSyAccounts {
                signer: wallet_address,
                meta: additional.sy_meta_address,
                jito_vault,
                token_base_dst: user_base_token_ata,
                token_vrt_escrow: meta_base_token_ata,
                token_sy_signer: user_sy_token_ata,
                mint_sy: self.market.mint_sy,
                base_token_program: token_program(),
                token_program: token_program(),
                jito_stake_pool: jito_stake_pool(),
                jito_token_meta_ata,
            }.account_metas(),
        }
    }

    /// Account references for the SY program calls: the contexts merged by table
    /// index, then resolved through the market's lookup table.
    pub fn get_remaining_accounts_metas(&self, contexts: &[CpiInterfaceContext]) -> (r: Vec<
        AccountMeta,
    >)
        requires
            self.market_lookup_table_accounts is Some,
        ensures
            is_remaining_metas(r@, contexts@, self.market_lookup_table_accounts->0@),
    {
        let lookup_table_accounts = match &self.market_lookup_table_accounts {
            Some(keys) => keys,
            None => {
                proof {
                    assert(false);
                }
                return Vec::new();
            },
        };
        let unique_cpi = unique_cpi_contexts(contexts);
        let r = cpi_contexts_to_account_metas(
            unique_cpi.as_slice(),
            lookup_table_accounts.as_slice(),
        );
        assert(merged_contexts(unique_cpi@, contexts@) && r@ == spec_account_metas(
            unique_cpi@,
            lookup_table_accounts@,
        ));
        r
    }

    /// Accounts of a swap of `source_mint` for `token_transfer_authority`.
    /// Buying PT (paying the original mint) passes the trade accounts, the
    /// mint_sy accounts, the Exponent program, and the accounts of the SY state
    /// and deposit calls; selling PT passes the trade accounts, the redeem_sy
    /// accounts and the accounts of the SY state and withdrawal calls.
    pub fn get_swap_and_account_metas(
        &self,
        token_transfer_authority: Pubkey,
        source_mint: Pubkey,
    ) -> (r: SwapAccountMetas)
        requires
            self.sy_exchange_rate is Some,
            self.market_lookup_table_accounts is Some,
            trade_atas_exist(self.market, token_transfer_authority@),
            sy_atas_exist(self.market, self.market_additional_data, token_transfer_authority@),
        ensures
            is_swap_account_metas(*self, token_transfer_authority@, source_mint@, r),
    {
        let is_buy_pt = source_mint.equals(&self.reserve_mints[0]);
        let trade_metas = self.get_trade_metas(token_transfer_authority);
        if is_buy_pt {
            let contexts = concat_contexts(
                &self.market.cpi_accounts.get_sy_state,
                &self.market.cpi_accounts.deposit_sy,
            );
            let remaining_accounts = self.get_remaining_accounts_metas(contexts.as_slice());
            let mint_sy_remaining_accounts = self.get_mint_sy_metas(token_transfer_authority);
            let exponent_program_account_meta = vec![
                AccountMeta::new_readonly(exponent_core(), false),
            ];
            let mut account_metas: Vec<AccountMeta> = Vec::new();
            append_metas(&mut account_metas, &trade_metas);
            append_metas(&mut account_metas, &mint_sy_remaining_accounts);
            append_metas(&mut account_metas, &exponent_program_account_meta);
            append_metas(&mut account_metas, &remaining_accounts);
            let rem_accounts_until = mint_sy_remaining_accounts.len();
            assert(seq![] + trade_metas@ =~= trade_metas@);
            let ghost program = exponent_program_account_meta@[0];
            assert(exponent_program_account_meta@ =~= seq![program]);
            assert(meta_at(program, spec_exponent_core(), false, false));
            assert(account_metas@ == trade_metas@ + mint_sy_remaining_accounts@ + seq![program]
                + remaining_accounts@);
            SwapAccountMetas { is_buy_pt, account_metas, rem_accounts_until }
        } else {
            let contexts = concat_contexts(
                &self.market.cpi_accounts.get_sy_state,
                &self.market.cpi_accounts.withdraw_sy,
            );
            let remaining_accounts = self.get_remaining_accounts_metas(contexts.as_slice());
            let redeem_sy_accounts = self.get_redeem_sy_metas(token_transfer_authority);
            let mut account_metas: Vec<AccountMeta> = Vec::new();
            append_metas(&mut account_metas, &trade_metas);
            append_metas(&mut account_metas, &redeem_sy_accounts);
            append_metas(&mut account_metas, &remaining_accounts);
            let rem_accounts_until = redeem_sy_accounts.len();
            assert(seq![] + trade_metas@ =~= trade_metas@);
            SwapAccountMetas { is_buy_pt, account_metas, rem_accounts_until }
        }
    }
    /// The accounts of a swap of `source_mint` for `token_transfer_authority`,
    /// or `None` where one of the token accounts it passes has no derivable
    /// address.
    pub fn try_get_swap_and_account_metas(
        &self,
        token_transfer_authority: Pubkey,
        source_mint: Pubkey,
    ) -> (r: Option<SwapAccountMetas>)
        requires
            self.sy_exchange_rate is Some,
            self.market_lookup_table_accounts is Some,
        ensures
            r is Some <==> trade_atas_exist(self.market, token_transfer_authority@)
                && sy_atas_exist(self.market, self.market_additional_data, token_transfer_authority@),
            r matches Some(m) ==> is_swap_account_metas(
                *self,
                token_transfer_authority@,
                source_mint@,
                m,
            ),
    {
        let additional = &self.market_additional_data;
        let wallet = &token_transfer_authority;
        if associated_token_address(wallet, &self.market.mint_sy).is_none()
            || associated_token_address(wallet, &self.market.mint_pt).is_none()
            || associated_token_address(wallet, &additional.original_mint).is_none()
            || associated_token_address(&additional.sy_meta_address, &additional.original_mint).is_none()
            || associated_token_address(&additional.sy_meta_address, &jito_token_mint()).is_none() {
            return None;
        }
        Some(self.get_swap_and_account_metas(token_transfer_authority, source_mint))
    }
}

} // verus!
