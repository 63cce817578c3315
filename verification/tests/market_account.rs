use exponent_amm::market::MarketTwo;
use exponent_amm::market_account::MarketTwoError;

const DISCRIMINATOR: [u8; 8] = [212, 4, 132, 126, 169, 121, 121, 20];

/// Writes a market record the way the chain stores it.
struct Writer {
    data: Vec<u8>,
}

impl Writer {
    fn new() -> Self {
        Writer { data: DISCRIMINATOR.to_vec() }
    }
    fn key(&mut self, b: u8) {
        self.data.extend_from_slice(&[b; 32]);
    }
    fn u8(&mut self, v: u8) {
        self.data.push(v);
    }
    fn u16(&mut self, v: u16) {
        self.data.extend_from_slice(&v.to_le_bytes());
    }
    fn u32(&mut self, v: u32) {
        self.data.extend_from_slice(&v.to_le_bytes());
    }
    fn u64(&mut self, v: u64) {
        self.data.extend_from_slice(&v.to_le_bytes());
    }
    fn u128(&mut self, v: u128) {
        self.data.extend_from_slice(&v.to_le_bytes());
    }
    fn f64(&mut self, v: f64) {
        self.data.extend_from_slice(&v.to_le_bytes());
    }
    fn contexts(&mut self, c: &[(u8, u8, u8)]) {
        self.u32(c.len() as u32);
        for (alt, signer, writable) in c {
            self.u8(*alt);
            self.u8(*signer);
            self.u8(*writable);
        }
    }
}

/// A market record with two emissions, one farm emission and every CPI list
/// filled, followed by `extra` bytes.
fn market_bytes(self_address: u8, rate_scalar_root: f64, flash_swap: u8, extra: usize) -> Vec<u8> {
    let mut w = Writer::new();
    for b in 1..=9 {
        w.key(b);
    }
    w.u16(250);
    w.key(self_address);
    w.u8(254);
    w.u8(3);
    w.key(11);
    // financials
    w.u64(1_800_000_000);
    w.u64(5_000);
    w.u64(7_000);
    w.f64(-4.5);
    w.f64(0.07);
    w.f64(rate_scalar_root);
    // emissions
    w.u32(2);
    for i in 0..2u8 {
        w.key(20 + i);
        w.u128(1_000_000_000_000 + i as u128);
        w.u64(40 + i as u64);
    }
    // lp farm
    w.u32(1_700_000_000);
    w.u32(1);
    w.key(30);
    w.u64(12);
    w.u32(1_900_000_000);
    w.u128(77);
    w.u64(1_000_000);
    w.u64(900);
    // cpi accounts
    w.contexts(&[(0, 0, 0)]);
    w.contexts(&[(1, 0, 1), (2, 1, 1)]);
    w.contexts(&[]);
    w.u32(2);
    w.contexts(&[(3, 0, 0)]);
    w.contexts(&[(4, 0, 1), (5, 0, 0)]);
    w.contexts(&[(6, 1, 0)]);
    w.u8(flash_swap);
    // liquidity net balance limits
    w.u32(1_600_000_000);
    w.u64(123_456);
    w.u16(500);
    w.u32(40_000);
    w.u32(3_600);
    w.data.extend(std::iter::repeat(0xAB).take(extra));
    w.data
}

#[test]
fn market_account_is_read() {
    let data = market_bytes(10, 120.0, 1, 0);
    let m = MarketTwo::try_deserialize(&data).unwrap();
    assert_eq!(m.address_lookup_table.bytes, [1; 32]);
    assert_eq!(m.token_fee_treasury_sy.bytes, [9; 32]);
    assert_eq!(m.fee_treasury_sy_bps, 250);
    assert_eq!(m.self_address.bytes, [10; 32]);
    assert_eq!(m.signer_bump, [254]);
    assert_eq!(m.status_flags, 3);
    assert_eq!(m.sy_program.bytes, [11; 32]);
    assert_eq!(m.financials.expiration_ts, 1_800_000_000);
    assert_eq!(m.financials.pt_balance, 5_000);
    assert_eq!(m.financials.sy_balance, 7_000);
    assert_eq!(f64::from_bits(m.financials.ln_fee_rate_root), -4.5);
    assert_eq!(f64::from_bits(m.financials.last_ln_implied_rate), 0.07);
    assert_eq!(f64::from_bits(m.financials.rate_scalar_root), 120.0);
    assert_eq!(m.emissions.trackers.len(), 2);
    assert_eq!(m.emissions.trackers[1].token_escrow.bytes, [21; 32]);
    assert_eq!(m.emissions.trackers[1].lp_share_index.raw, 1_000_000_000_001);
    assert_eq!(m.emissions.trackers[1].last_seen_staged, 41);
    assert_eq!(m.lp_farm.last_seen_timestamp, 1_700_000_000);
    assert_eq!(m.lp_farm.farm_emissions.len(), 1);
    assert_eq!(m.lp_farm.farm_emissions[0].mint.bytes, [30; 32]);
    assert_eq!(m.lp_farm.farm_emissions[0].token_rate, 12);
    assert_eq!(m.lp_farm.farm_emissions[0].expiry_timestamp, 1_900_000_000);
    assert_eq!(m.lp_farm.farm_emissions[0].index.raw, 77);
    assert_eq!(m.max_lp_supply, 1_000_000);
    assert_eq!(m.lp_escrow_amount, 900);
    let c = &m.cpi_accounts;
    assert_eq!(c.get_sy_state.len(), 1);
    assert_eq!(c.deposit_sy.len(), 2);
    assert_eq!(
        (c.deposit_sy[1].alt_index, c.deposit_sy[1].is_signer, c.deposit_sy[1].is_writable),
        (2, true, true)
    );
    assert!(c.withdraw_sy.is_empty());
    assert_eq!(c.claim_emission.len(), 2);
    assert_eq!(c.claim_emission[1].len(), 2);
    assert_eq!(c.claim_emission[1][0].alt_index, 4);
    assert!(c.claim_emission[1][0].is_writable);
    assert_eq!(c.get_position_state[0].alt_index, 6);
    assert!(c.get_position_state[0].is_signer);
    assert!(m.is_current_flash_swap);
    let l = &m.liquidity_net_balance_limits;
    assert_eq!(l.window_start_timestamp, 1_600_000_000);
    assert_eq!(l.window_start_net_balance, 123_456);
    assert_eq!(l.max_net_balance_change_negative_percentage, 500);
    assert_eq!(l.max_net_balance_change_positive_percentage, 40_000);
    assert_eq!(l.window_duration_seconds, 3_600);
}

#[test]
fn market_account_ignores_trailing_bytes() {
    let data = market_bytes(10, 120.0, 0, 64);
    let m = MarketTwo::try_deserialize(&data).unwrap();
    assert!(!m.is_current_flash_swap);
    assert_eq!(m.liquidity_net_balance_limits.window_duration_seconds, 3_600);
}

#[test]
fn market_account_discriminator_errors() {
    assert_eq!(
        MarketTwo::try_deserialize(&DISCRIMINATOR[..7]).unwrap_err(),
        MarketTwoError::AccountDiscriminatorNotFound
    );
    let mut data = market_bytes(10, 120.0, 0, 0);
    data[3] ^= 1;
    assert_eq!(
        MarketTwo::try_deserialize(&data).unwrap_err(),
        MarketTwoError::AccountDiscriminatorMismatch
    );
    assert_eq!(
        MarketTwo::try_deserialize(&DISCRIMINATOR).unwrap_err(),
        MarketTwoError::AccountDidNotDeserialize
    );
}

#[test]
fn market_account_record_errors() {
    let data = market_bytes(10, 120.0, 0, 0);
    assert_eq!(
        MarketTwo::try_deserialize(&data[..data.len() - 1]).unwrap_err(),
        MarketTwoError::AccountDidNotDeserialize
    );
    let bad_flag = market_bytes(10, 120.0, 2, 0);
    assert_eq!(
        MarketTwo::try_deserialize(&bad_flag).unwrap_err(),
        MarketTwoError::AccountDidNotDeserialize
    );
    let nan = market_bytes(10, f64::NAN, 0, 0);
    assert_eq!(
        MarketTwo::try_deserialize(&nan).unwrap_err(),
        MarketTwoError::AccountDidNotDeserialize
    );
    // infinities are numbers
    assert!(MarketTwo::try_deserialize(&market_bytes(10, f64::INFINITY, 0, 0)).is_ok());
    // a context whose signer byte is not a boolean
    let mut bad_context = data.clone();
    let first_context = bad_context.len() - 22 - 1 - 3;
    assert_eq!(bad_context[first_context], 6);
    bad_context[first_context + 1] = 7;
    assert_eq!(
        MarketTwo::try_deserialize(&bad_context).unwrap_err(),
        MarketTwoError::AccountDidNotDeserialize
    );
    // an emission list longer than the record
    let mut long_list = data.clone();
    long_list[412..416].copy_from_slice(&1000u32.to_le_bytes());
    assert_eq!(
        MarketTwo::try_deserialize(&long_list).unwrap_err(),
        MarketTwoError::AccountDidNotDeserialize
    );
}
