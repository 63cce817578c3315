use exponent_amm::cpi_common::{cpi_contexts_to_account_metas, unique_cpi_contexts, CpiInterfaceContext};
use exponent_amm::fund_account::{FundAccount, FUND_ACCOUNT_SIZE, SUPPORTED_TOKENS_OFFSET, SUPPORTED_TOKEN_SIZE};
use exponent_amm::jito_vault::{JitoVault, JitoVaultDiscriminator, JITO_VAULT_SIZE};
use exponent_amm::number::{Number, NUMBER_ONE};
use exponent_amm::pubkey::Pubkey;
use exponent_amm::stake_pool::StakePool;

fn key(b: u8) -> Pubkey {
    Pubkey { bytes: [b; 32] }
}

fn ctx(alt_index: u8, is_signer: bool, is_writable: bool) -> CpiInterfaceContext {
    CpiInterfaceContext { alt_index, is_signer, is_writable }
}

#[test]
fn unique_contexts_merge_flags() {
    let contexts = vec![
        ctx(3, false, false),
        ctx(1, false, true),
        ctx(3, true, false),
        ctx(1, false, false),
        ctx(7, false, false),
    ];
    let mut out = unique_cpi_contexts(&contexts);
    out.sort_by_key(|c| c.alt_index);
    assert_eq!(out.len(), 3);
    assert_eq!((out[0].alt_index, out[0].is_signer, out[0].is_writable), (1, false, true));
    assert_eq!((out[1].alt_index, out[1].is_signer, out[1].is_writable), (3, true, false));
    assert_eq!((out[2].alt_index, out[2].is_signer, out[2].is_writable), (7, false, false));
    assert!(unique_cpi_contexts(&[]).is_empty());
}

#[test]
fn contexts_resolve_through_table() {
    let keys = vec![key(10), key(11), key(12)];
    let contexts = vec![ctx(2, true, true), ctx(5, false, true), ctx(0, false, false)];
    let metas = cpi_contexts_to_account_metas(&contexts, &keys);
    assert_eq!(metas.len(), 2);
    assert_eq!(metas[0].pubkey.bytes, [12; 32]);
    assert!(metas[0].is_signer && metas[0].is_writable);
    assert_eq!(metas[1].pubkey.bytes, [10; 32]);
    assert!(!metas[1].is_signer && !metas[1].is_writable);
}

fn put_u64(data: &mut [u8], offset: usize, v: u64) {
    data[offset..offset + 8].copy_from_slice(&v.to_le_bytes());
}

#[test]
fn jito_vault_fields() {
    let mut data = vec![0u8; 8 + JITO_VAULT_SIZE];
    data[8..40].copy_from_slice(&[1; 32]);
    data[40..72].copy_from_slice(&[2; 32]);
    put_u64(&mut data, 104, 1_000);
    put_u64(&mut data, 112, 1_500);
    put_u64(&mut data, 832, 77);
    data[850] = 254;
    let vault = JitoVault::deserialize(&data);
    assert_eq!(vault.base.bytes, [1; 32]);
    assert_eq!(vault.vrt_mint.bytes, [2; 32]);
    assert_eq!(vault.vrt_supply(), 1_000);
    assert_eq!(vault.tokens_deposited(), 1_500);
    assert_eq!(vault.bump, 254);
    assert_eq!(vault.exchange_index().raw, 1_500_000_000_000);
    assert!(vault.slot_staleness_check(77));
    assert!(!vault.slot_staleness_check(78));
}

#[test]
fn jito_vault_without_supply_has_index_one() {
    let mut data = vec![0u8; 8 + JITO_VAULT_SIZE];
    put_u64(&mut data, 112, 1_500);
    let vault = JitoVault::deserialize(&data);
    assert_eq!(vault.exchange_index().raw, NUMBER_ONE);
}

#[test]
fn jito_vault_discriminators() {
    assert_eq!(JitoVaultDiscriminator::Config.value(), 1);
    assert_eq!(JitoVaultDiscriminator::Vault.value(), 2);
    assert_eq!(JitoVaultDiscriminator::VaultUpdateStateTracker.value(), 8);
}

#[test]
fn fund_account_rates() {
    let mut data = vec![0u8; 8 + FUND_ACCOUNT_SIZE];
    data[8] = 15;
    data[184] = 9;
    put_u64(&mut data, 200, 1_234_567_890);
    let slot = SUPPORTED_TOKENS_OFFSET + 2 * SUPPORTED_TOKEN_SIZE;
    data[slot..slot + 32].copy_from_slice(&[9; 32]);
    data[slot + 64] = 6;
    put_u64(&mut data, slot + 1088, 4_000_000);
    let fund = FundAccount::deserialize(&data);
    assert_eq!(fund.data_version, 15);
    assert_eq!(fund.receipt_token_decimals, 9);
    assert_eq!(fund.one_receipt_token_as_sol, 1_234_567_890);
    assert_eq!(fund.supported_tokens.len(), 30);
    assert_eq!(fund.supported_tokens[2].mint.bytes, [9; 32]);
    // 1.23456789 SOL per receipt token
    assert_eq!(fund.exchange_rate().raw, 1_234_567_890_000);
    // 10^6 / 4_000_000 = 0.25
    assert_eq!(fund.supported_token_exchange_rate(2).raw, 250_000_000_000);
}

#[test]
fn stake_pool_from_borsh() {
    let mut pool = spl_stake_pool::state::StakePool::default();
    pool.account_type = spl_stake_pool::state::AccountType::StakePool;
    pool.total_lamports = 1_234_567;
    pool.pool_token_supply = 1_000_000;
    let data = borsh::to_vec(&pool).unwrap();
    let parsed = StakePool::deserialize(&data).unwrap();
    assert_eq!(parsed.total_lamports, 1_234_567);
    assert_eq!(parsed.pool_token_supply, 1_000_000);

    // optional fields and scheduled fees move the end of the record
    pool.preferred_deposit_validator_vote_address = Some([7u8; 32].into());
    pool.sol_withdraw_authority = Some([8u8; 32].into());
    pool.next_epoch_fee = spl_stake_pool::state::FutureEpoch::Two(spl_stake_pool::state::Fee {
        denominator: 100,
        numerator: 3,
    });
    pool.next_sol_withdrawal_fee = spl_stake_pool::state::FutureEpoch::One(spl_stake_pool::state::Fee {
        denominator: 10,
        numerator: 1,
    });
    let mut data = borsh::to_vec(&pool).unwrap();
    let parsed = StakePool::deserialize(&data).unwrap();
    assert_eq!(parsed.total_lamports, 1_234_567);

    // trailing bytes are ignored
    data.extend_from_slice(&[0xff; 9]);
    assert!(StakePool::deserialize(&data).is_some());
    // a truncated record is refused
    data.truncate(data.len() - 10);
    assert!(StakePool::deserialize(&data).is_none());
}

#[test]
fn stake_pool_rejects_bad_tags() {
    let pool = spl_stake_pool::state::StakePool::default();
    let good = borsh::to_vec(&pool).unwrap();
    assert!(StakePool::deserialize(&good).is_some());
    let mut bad_type = good.clone();
    bad_type[0] = 3;
    assert!(StakePool::deserialize(&bad_type).is_none());
    let mut bad_option = good.clone();
    // next_epoch_fee is a bare tag at 346, the preferred deposit validator tag follows
    bad_option[347] = 2;
    assert!(StakePool::deserialize(&bad_option).is_none());
    assert!(StakePool::deserialize(&[]).is_none());
}

#[test]
fn pubkey_equality_and_reading() {
    let a = key(4);
    let mut b = key(4);
    assert!(a.equals(&b));
    b.bytes[31] = 5;
    assert!(!a.equals(&b));
    let data: Vec<u8> = (0..40).collect();
    let k = Pubkey::read(&data, 3);
    assert_eq!(k.bytes[0], 3);
    assert_eq!(k.bytes[31], 34);
    let n = Number::from_natural_u64(1);
    assert_eq!(n.raw, NUMBER_ONE);
}
