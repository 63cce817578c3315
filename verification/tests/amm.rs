use std::str::FromStr;

use exponent_amm::addresses::{
    exponent_core, exponent_event_authority, jito_stake_pool, jito_token_mint, jito_vault,
    kysol_market, kysol_mint, kysol_sy_meta_address, token_program, wfragsol_fund_account,
    wfragsol_market, wfragsol_mint, wfragsol_sy_meta_address,
};
use exponent_amm::amm::{
    get_amm_type_from_market, get_market_additional_data, kysol_exchange_rate,
    kysol_exchange_rate_is_defined, wfragsol_sy_exchange_rate, AmmError, ExponentAmm,
    ExponentAmmType,
};
use exponent_amm::cpi_common::{CpiAccounts, CpiInterfaceContext};
use exponent_amm::fund_account::FUND_ACCOUNT_SIZE;
use exponent_amm::instructions::TradePt;
use exponent_amm::jito_vault::JITO_VAULT_SIZE;
use exponent_amm::lookup_table::lookup_table_addresses;
use exponent_amm::market::{
    LiquidityNetBalanceLimits, LpFarm, MarketEmissions, MarketFinancials, MarketTwo,
};
use exponent_amm::market_account::MarketTwoError;
use exponent_amm::number::Number;
use exponent_amm::pubkey::Pubkey;
use exponent_amm::stake_pool::StakePool;

fn key(b: u8) -> Pubkey {
    Pubkey { bytes: [b; 32] }
}

fn parsed(s: &str) -> [u8; 32] {
    anchor_lang::prelude::Pubkey::from_str(s).unwrap().to_bytes()
}

#[allow(deprecated)]
fn ata(owner: &Pubkey, mint: &Pubkey) -> [u8; 32] {
    spl_associated_token_account::get_associated_token_address(
        &owner.bytes.into(),
        &mint.bytes.into(),
    )
    .to_bytes()
}

fn market() -> MarketTwo {
    MarketTwo {
        address_lookup_table: key(1),
        mint_pt: key(2),
        mint_sy: key(3),
        vault: key(4),
        mint_lp: key(5),
        token_lp_escrow: key(6),
        token_pt_escrow: key(7),
        token_sy_escrow: key(8),
        token_fee_treasury_sy: key(9),
        fee_treasury_sy_bps: 0,
        self_address: kysol_market(),
        signer_bump: [0],
        status_flags: 0,
        sy_program: key(10),
        financials: MarketFinancials::default(),
        emissions: MarketEmissions::default(),
        lp_farm: LpFarm::default(),
        max_lp_supply: 0,
        lp_escrow_amount: 0,
        cpi_accounts: CpiAccounts {
            get_sy_state: vec![CpiInterfaceContext { alt_index: 0, is_signer: false, is_writable: false }],
            deposit_sy: vec![
                CpiInterfaceContext { alt_index: 1, is_signer: false, is_writable: true },
                CpiInterfaceContext { alt_index: 0, is_signer: false, is_writable: true },
            ],
            withdraw_sy: vec![CpiInterfaceContext { alt_index: 2, is_signer: false, is_writable: true }],
            claim_emission: vec![],
            get_position_state: vec![],
        },
        is_current_flash_swap: false,
        liquidity_net_balance_limits: LiquidityNetBalanceLimits::default(),
    }
}

/// The AMM of `self_address` over `market()`, with the lookup table `table`.
fn amm(self_address: Pubkey, table: Option<Vec<Pubkey>>) -> ExponentAmm {
    let mut market = market();
    market.self_address = self_address;
    let market_additional_data = get_market_additional_data(self_address).unwrap();
    ExponentAmm {
        key: self_address,
        amm_type: get_amm_type_from_market(self_address).unwrap(),
        reserve_mints: [market_additional_data.original_mint, market.mint_pt],
        sy_exchange_rate: Some(Number { raw: 1_100_000_000_000 }),
        market,
        market_additional_data,
        market_lookup_table_accounts: table,
        reserves: [0, 0],
        program_id: exponent_core(),
    }
}

/// A market account record with empty lists, recording `self_address` as its
/// own and holding `sy_balance` and `pt_balance`.
fn market_account(self_address: &Pubkey, sy_balance: u64, pt_balance: u64) -> Vec<u8> {
    let mut data = vec![212, 4, 132, 126, 169, 121, 121, 20];
    for b in 1..=9u8 {
        data.extend_from_slice(&[b; 32]);
    }
    data.extend_from_slice(&0u16.to_le_bytes());
    data.extend_from_slice(&self_address.bytes);
    data.extend_from_slice(&[0, 0]);
    data.extend_from_slice(&[10; 32]);
    data.extend_from_slice(&1_800_000_000u64.to_le_bytes());
    data.extend_from_slice(&pt_balance.to_le_bytes());
    data.extend_from_slice(&sy_balance.to_le_bytes());
    data.extend_from_slice(&[0; 24]);
    // emissions, lp farm timestamp and emissions, max lp supply, lp escrow
    data.extend_from_slice(&[0; 4 + 4 + 4 + 8 + 8]);
    // five context lists: four plain ones and the list of lists
    data.extend_from_slice(&[0; 20]);
    // flash swap flag and balance limits
    data.extend_from_slice(&[0; 23]);
    data
}

#[test]
fn addresses_match_their_base58_forms() {
    assert_eq!(exponent_core().bytes, parsed("ExponentnaRg3CQbW6dqQNZKXp7gtZ9DGMp1cwC4HAS7"));
    assert_eq!(exponent_event_authority().bytes, parsed("2qFqt7c5teKuuTMT7FCG24DzvsUwicuYovGpKAoB2XnK"));
    assert_eq!(wfragsol_market().bytes, parsed("EJ4GPTCnNtemBVrT7QKhRfSKfM53aV2UJYGAC8gdVz5b"));
    assert_eq!(wfragsol_mint().bytes, parsed("WFRGSWjaz8tbAxsJitmbfRuFV2mSNwy7BMWcCwaA28U"));
    assert_eq!(wfragsol_fund_account().bytes, parsed("3TK9fNePM4qdKC4dwvDe8Bamv14prDqdVfuANxPeiryb"));
    assert_eq!(wfragsol_sy_meta_address().bytes, parsed("8EC8D6FG4ATRTScZvziTgtrcMv9Edvwv3hHmZNdnTCg"));
    assert_eq!(kysol_market().bytes, parsed("3xckb8Z5NfqptY4Pzg3KQ1bPr8ufB8CE4gJo4YMVsXvi"));
    assert_eq!(kysol_mint().bytes, parsed("kySo1nETpsZE2NWe5vj2C64mPSciH1SppmHb4XieQ7B"));
    assert_eq!(kysol_sy_meta_address().bytes, parsed("4u2L26Bu8Cs1ZbWCPhv6mUtUxeqL5xC8cPh81DoW15Ad"));
    assert_eq!(jito_stake_pool().bytes, parsed("Jito4APyf642JPZPx3hGc6WWJ8zPKtRbRs4P815Awbb"));
    assert_eq!(jito_vault().bytes, parsed("CQpvXgoaaawDCLh8FwMZEwQqnPakRUZ5BnzhjnEBPJv"));
    assert_eq!(jito_token_mint().bytes, parsed("jtojtomepa8beP8AuQc6eXt5FriJwfFMwQx2v2f9mCL"));
    assert_eq!(token_program().bytes, spl_token::id().to_bytes());
}

#[test]
fn known_markets_have_data_and_type() {
    let d = get_market_additional_data(wfragsol_market()).unwrap();
    assert_eq!(d.original_mint.bytes, wfragsol_mint().bytes);
    assert!(d.is_virtual_exchange_rate);
    assert_eq!(d.sy_meta_address.bytes, wfragsol_sy_meta_address().bytes);
    let d = get_market_additional_data(kysol_market()).unwrap();
    assert_eq!(d.original_mint.bytes, kysol_mint().bytes);
    assert_eq!(d.sy_meta_address.bytes, kysol_sy_meta_address().bytes);
    match get_amm_type_from_market(wfragsol_market()).unwrap() {
        ExponentAmmType::WFragSol { fund_account } => {
            assert_eq!(fund_account.bytes, wfragsol_fund_account().bytes)
        }
        _ => panic!("wrong market type"),
    }
    match get_amm_type_from_market(kysol_market()).unwrap() {
        ExponentAmmType::KySol { jito_stake_pool: pool, jito_vault: vault } => {
            assert_eq!(pool.bytes, jito_stake_pool().bytes);
            assert_eq!(vault.bytes, jito_vault().bytes);
        }
        _ => panic!("wrong market type"),
    }
}

#[test]
fn unknown_market_is_refused() {
    assert_eq!(get_market_additional_data(key(42)).unwrap_err(), AmmError::UnknownMarket);
    assert_eq!(get_amm_type_from_market(key(42)).unwrap_err(), AmmError::UnknownMarket);
}

#[test]
fn accounts_to_update_list() {
    let a = amm(kysol_market(), None);
    let bytes: Vec<[u8; 32]> = a.get_accounts_to_update().iter().map(|k| k.bytes).collect();
    assert_eq!(
        bytes,
        vec![kysol_market().bytes, [1; 32], jito_stake_pool().bytes, jito_vault().bytes]
    );
    let a = amm(wfragsol_market(), None);
    let bytes: Vec<[u8; 32]> = a.get_accounts_to_update().iter().map(|k| k.bytes).collect();
    assert_eq!(bytes, vec![wfragsol_market().bytes, [1; 32], wfragsol_fund_account().bytes]);
}

#[test]
fn trade_metas_use_associated_token_accounts() {
    let a = amm(kysol_market(), None);
    let m = &a.market;
    let wallet = key(100);
    let metas = a.get_trade_metas(wallet);
    assert_eq!(metas.len(), 12);
    assert!(metas[0].is_signer && metas[0].is_writable);
    assert_eq!(metas[0].pubkey.bytes, [100; 32]);
    assert_eq!(metas[1].pubkey.bytes, kysol_market().bytes);
    assert_eq!(metas[2].pubkey.bytes, ata(&wallet, &m.mint_sy));
    assert_eq!(metas[3].pubkey.bytes, ata(&wallet, &m.mint_pt));
    assert_ne!(metas[2].pubkey.bytes, wallet.bytes);
    assert_ne!(metas[2].pubkey.bytes, m.mint_sy.bytes);
    assert_eq!(metas[7].pubkey.bytes, spl_token::id().to_bytes());
    assert!(!metas[7].is_writable);
    assert_eq!(metas[10].pubkey.bytes, exponent_event_authority().bytes);
    assert_eq!(metas[11].pubkey.bytes, exponent_core().bytes);
}

#[test]
fn trade_pt_order() {
    let t = TradePt {
        trader: key(1),
        market: key(2),
        token_sy_trader: key(3),
        token_pt_trader: key(4),
        token_sy_escrow: key(5),
        token_pt_escrow: key(6),
        address_lookup_table: key(7),
        token_program: key(8),
        sy_program: key(9),
        token_fee_treasury_sy: key(10),
        event_authority: key(11),
        exponent_program_id: key(12),
    };
    let metas = t.account_metas();
    let writable: Vec<bool> = metas.iter().map(|m| m.is_writable).collect();
    assert_eq!(
        writable,
        vec![true, true, true, true, true, true, false, false, false, true, false, false]
    );
    for (i, m) in metas.iter().enumerate() {
        assert_eq!(m.pubkey.bytes, [i as u8 + 1; 32]);
        assert_eq!(m.is_signer, i == 0);
    }
}

#[test]
fn kysol_sy_accounts() {
    let a = amm(kysol_market(), None);
    let d = a.market_additional_data;
    let wallet = key(100);
    let mint = a.get_mint_sy_metas(wallet);
    assert_eq!(mint.len(), 11);
    assert_eq!(mint[3].pubkey.bytes, ata(&wallet, &d.original_mint));
    assert_eq!(mint[4].pubkey.bytes, ata(&d.sy_meta_address, &d.original_mint));
    assert_eq!(mint[6].pubkey.bytes, jito_vault().bytes);
    assert_eq!(mint[9].pubkey.bytes, jito_stake_pool().bytes);
    assert!(mint[9].is_writable);
    assert_eq!(mint[10].pubkey.bytes, ata(&d.sy_meta_address, &jito_token_mint()));
    let redeem = a.get_redeem_sy_metas(wallet);
    assert_eq!(redeem.len(), 11);
    assert_eq!(redeem[2].pubkey.bytes, jito_vault().bytes);
    assert_eq!(redeem[6].pubkey.bytes, a.market.mint_sy.bytes);
}

#[test]
fn wfragsol_sy_accounts() {
    let a = amm(wfragsol_market(), None);
    let mint = a.get_mint_sy_metas(key(100));
    assert_eq!(mint.len(), 10);
    assert_eq!(mint[1].pubkey.bytes, wfragsol_sy_meta_address().bytes);
    assert_eq!(mint[8].pubkey.bytes, wfragsol_fund_account().bytes);
    let redeem = a.get_redeem_sy_metas(key(100));
    assert_eq!(redeem.len(), 10);
    assert_eq!(redeem[5].pubkey.bytes, a.market.mint_sy.bytes);
}

#[test]
fn remaining_accounts_are_merged() {
    let a = amm(kysol_market(), Some(vec![key(50), key(51), key(52)]));
    let mut contexts = a.market.cpi_accounts.get_sy_state.clone();
    contexts.extend(a.market.cpi_accounts.deposit_sy.iter().cloned());
    let metas = a.get_remaining_accounts_metas(&contexts);
    assert_eq!(metas.len(), 2);
    for meta in &metas {
        assert!(meta.is_writable);
    }
}

#[test]
fn swap_account_layout() {
    let a = amm(kysol_market(), Some(vec![key(50), key(51), key(52)]));
    let buy = a.get_swap_and_account_metas(key(100), kysol_mint());
    assert!(buy.is_buy_pt);
    assert_eq!(buy.rem_accounts_until, 11);
    assert_eq!(buy.account_metas.len(), 12 + 11 + 1 + 2);
    assert_eq!(buy.account_metas[12].pubkey.bytes, [100; 32]);
    assert_eq!(buy.account_metas[23].pubkey.bytes, exponent_core().bytes);
    assert!(!buy.account_metas[23].is_writable);
    let sell = a.get_swap_and_account_metas(key(100), a.market.mint_pt);
    assert!(!sell.is_buy_pt);
    assert_eq!(sell.rem_accounts_until, 11);
    assert_eq!(sell.account_metas.len(), 12 + 11 + 2);
    assert_eq!(sell.account_metas[23].pubkey.bytes, [50; 32]);
    assert_eq!(sell.account_metas[24].pubkey.bytes, [52; 32]);
}

#[test]
fn swap_account_layout_when_derivable() {
    let a = amm(kysol_market(), Some(vec![key(50), key(51), key(52)]));
    let direct = a.get_swap_and_account_metas(key(100), kysol_mint());
    let checked = a.try_get_swap_and_account_metas(key(100), kysol_mint()).unwrap();
    assert!(checked.is_buy_pt);
    assert_eq!(checked.rem_accounts_until, direct.rem_accounts_until);
    let a_bytes: Vec<[u8; 32]> = direct.account_metas.iter().map(|m| m.pubkey.bytes).collect();
    let b_bytes: Vec<[u8; 32]> = checked.account_metas.iter().map(|m| m.pubkey.bytes).collect();
    assert_eq!(a_bytes, b_bytes);
}

#[test]
fn amm_from_market() {
    let data = market_account(&kysol_market(), 7_000, 5_000);
    let market = MarketTwo::try_deserialize(&data).unwrap();
    let a = ExponentAmm::from_market(key(200), exponent_core(), market);
    assert_eq!(a.key.bytes, [200; 32]);
    assert_eq!(a.program_id.bytes, exponent_core().bytes);
    assert_eq!(a.reserve_mints[0].bytes, kysol_mint().bytes);
    assert_eq!(a.reserve_mints[1].bytes, [2; 32]);
    assert_eq!(a.market_additional_data.sy_meta_address.bytes, kysol_sy_meta_address().bytes);
    assert!(a.sy_exchange_rate.is_none());
    assert!(a.market_lookup_table_accounts.is_none());
    assert_eq!(a.reserves, [0, 0]);
    assert_eq!(a.market.financials.sy_balance, 7_000);
    match a.amm_type {
        ExponentAmmType::KySol { jito_vault: v, .. } => assert_eq!(v.bytes, jito_vault().bytes),
        _ => panic!("wrong market type"),
    }
}

#[test]
fn broken_market_account_is_refused() {
    let data = market_account(&kysol_market(), 7_000, 5_000);
    assert_eq!(
        MarketTwo::try_deserialize(&data[..100]).unwrap_err(),
        MarketTwoError::AccountDidNotDeserialize
    );
}

fn lookup_table(count: usize) -> Vec<u8> {
    let mut data = vec![0u8; 56 + 32 * count];
    data[0..4].copy_from_slice(&1u32.to_le_bytes());
    data[4..12].copy_from_slice(&u64::MAX.to_le_bytes());
    for i in 0..count {
        data[56 + 32 * i..56 + 32 * i + 32].copy_from_slice(&[i as u8 + 1; 32]);
    }
    data
}

#[test]
fn amm_update_steps() {
    let mut a = amm(kysol_market(), None);
    let data = market_account(&kysol_market(), 7_000, 5_000);
    a.update_market(&data).unwrap();
    assert_eq!(a.market.financials.sy_balance, 7_000);
    assert_eq!(a.reserves, [0, 0]);
    // a market account that cannot be read leaves the AMM as it was
    let err = a.update_market(&data[..data.len() - 1]).unwrap_err();
    assert_eq!(err, AmmError::InvalidMarketAccount(MarketTwoError::AccountDidNotDeserialize));
    assert_eq!(a.market.financials.sy_balance, 7_000);

    a.set_sy_exchange_rate(Number { raw: 1_200_000_000_000 });
    assert_eq!(a.sy_exchange_rate.unwrap().raw, 1_200_000_000_000);
    assert_eq!(a.reserves, [7_000, 5_000]);

    a.set_lookup_table_accounts(lookup_table_addresses(&lookup_table(3)).unwrap());
    let keys = a.market_lookup_table_accounts.clone().unwrap();
    assert_eq!(keys.len(), 3);
    assert_eq!(keys[0].bytes, [1; 32]);
    assert_eq!(keys[2].bytes, [3; 32]);
}

#[test]
fn lookup_tables_are_decoded() {
    // an uninitialized table
    let mut uninitialized = lookup_table(2);
    uninitialized[0] = 0;
    assert!(lookup_table_addresses(&uninitialized).is_none());
    // an address area that is not a whole number of addresses
    let mut ragged = lookup_table(2);
    ragged.push(0);
    assert!(lookup_table_addresses(&ragged).is_none());
    assert!(lookup_table_addresses(&[1, 0, 0, 0]).is_none());
    assert!(lookup_table_addresses(&lookup_table(0)).unwrap().is_empty());
}

fn put_u64(data: &mut [u8], offset: usize, v: u64) {
    data[offset..offset + 8].copy_from_slice(&v.to_le_bytes());
}

#[test]
fn sy_exchange_rates() {
    let mut fund = vec![0u8; 8 + FUND_ACCOUNT_SIZE];
    fund[184] = 9;
    put_u64(&mut fund, 200, 1_050_000_000);
    assert_eq!(wfragsol_sy_exchange_rate(&fund).raw, 1_050_000_000_000);

    let mut vault_data = vec![0u8; 8 + JITO_VAULT_SIZE];
    put_u64(&mut vault_data, 104, 1_000);
    put_u64(&mut vault_data, 112, 1_100);
    let vault = exponent_amm::jito_vault::JitoVault::deserialize(&vault_data);
    let mut pool = spl_stake_pool::state::StakePool::default();
    pool.total_lamports = 1_200;
    pool.pool_token_supply = 1_000;
    let pool_data = borsh::to_vec(&pool).unwrap();
    let decoded = StakePool::deserialize(&pool_data).unwrap();
    assert!(kysol_exchange_rate_is_defined(&vault, &decoded));
    // 1.2 * 1.1
    assert_eq!(kysol_exchange_rate(&vault, &decoded).raw, 1_320_000_000_000);
    assert!(StakePool::deserialize(&pool_data[..100]).is_none());
}

#[test]
fn kysol_rate_from_balances() {
    let mut data = vec![0u8; 8 + JITO_VAULT_SIZE];
    put_u64(&mut data, 104, 2);
    put_u64(&mut data, 112, 3);
    let vault = exponent_amm::jito_vault::JitoVault::deserialize(&data);
    let pool = StakePool { total_lamports: 5, pool_token_supply: 4 };
    // 1.25 * 1.5
    assert!(kysol_exchange_rate_is_defined(&vault, &pool));
    assert_eq!(kysol_exchange_rate(&vault, &pool).raw, 1_875_000_000_000);
    let empty = StakePool { total_lamports: 5, pool_token_supply: 0 };
    assert!(!kysol_exchange_rate_is_defined(&vault, &empty));
    let huge = StakePool { total_lamports: u64::MAX, pool_token_supply: 1 };
    put_u64(&mut data, 104, 1);
    put_u64(&mut data, 112, u64::MAX);
    let vault = exponent_amm::jito_vault::JitoVault::deserialize(&data);
    assert!(!kysol_exchange_rate_is_defined(&vault, &huge));
}
