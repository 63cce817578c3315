//! The market account and the conversions between SY and its underlying asset.
use crate::cpi_common::CpiAccounts;
use crate::number::{ceil_value, div_raw, floor_value, mul_raw, Number, NUMBER_ONE};
use crate::pubkey::Pubkey;
use vstd::prelude::*;

verus! {

/// A market trading PT against SY.
#[derive(Clone, Debug)]
pub struct MarketTwo {
    /// Address to ALT
    pub address_lookup_table: Pubkey,
    /// Mint of the vault's PT token
    pub mint_pt: Pubkey,
    /// Mint of the SY program's SY token
    pub mint_sy: Pubkey,
    /// Link to yield-stripping vault
    pub vault: Pubkey,
    /// Mint for the market's LP tokens
    pub mint_lp: Pubkey,
    /// Holds the LP tokens that are earning emissions
    pub token_lp_escrow: Pubkey,
    /// Token account that holds PT liquidity
    pub token_pt_escrow: Pubkey,
    /// Pass-through token account for SY moving from the depositor to the SY program
    pub token_sy_escrow: Pubkey,
    /// Token account that holds SY fees from trade_pt
    pub token_fee_treasury_sy: Pubkey,
    /// Fee treasury SY BPS
    pub fee_treasury_sy_bps: u16,
    /// Authority for CPI calls owned by the market struct
    pub self_address: Pubkey,
    /// Bump for signing the PDA
    pub signer_bump: [u8; 1],
    pub status_flags: u8,
    /// Link to the SY program ID
    pub sy_program: Pubkey,
    pub financials: MarketFinancials,
    pub emissions: MarketEmissions,
    pub lp_farm: LpFarm,
    pub max_lp_supply: u64,
    pub lp_escrow_amount: u64,
    /// Record of CPI accounts
    pub cpi_accounts: CpiAccounts,
    pub is_current_flash_swap: bool,
    pub liquidity_net_balance_limits: LiquidityNetBalanceLimits,
}

/// Balances and curve parameters of a market. The curve parameters are
/// IEEE-754 double-precision values, held by their bit patterns.
#[derive(Clone, Copy, Debug, Default)]
pub struct MarketFinancials {
    /// Expiration timestamp, which is copied from the vault associated with the PT
    pub expiration_ts: u64,
    /// Balance of PT in the market
    pub pt_balance: u64,
    /// Balance of SY in the market
    pub sy_balance: u64,
    /// Initial log of fee rate, which decreases over time (bits of an `f64`)
    pub ln_fee_rate_root: u64,
    /// Last seen log of implied rate (APY) for PT (bits of an `f64`)
    pub last_ln_implied_rate: u64,
    /// Initial rate scalar, which increases over time (bits of an `f64`)
    pub rate_scalar_root: u64,
}

#[derive(Clone, Debug, Default)]
pub struct MarketEmissions {
    pub trackers: Vec<MarketEmission>,
}

#[derive(Clone, Copy, Debug)]
pub struct MarketEmission {
    /// Escrow account that receives the emissions from the SY program
    pub token_escrow: Pubkey,
    /// Index for converting LP shares into earned emissions
    pub lp_share_index: Number,
    /// The difference between the staged amount and collected emission amount
    pub last_seen_staged: u64,
}

#[derive(Clone, Debug, Default)]
pub struct LpFarm {
    pub last_seen_timestamp: u32,
    pub farm_emissions: Vec<FarmEmission>,
}

#[derive(Clone, Copy, Debug)]
pub struct FarmEmission {
    /// Mint for the emission token
    pub mint: Pubkey,
    /// Rate at which the emission token is emitted per second
    pub token_rate: u64,
    /// Expiration timestamp for the emission token
    pub expiry_timestamp: u32,
    /// Index for converting LP shares into earned emissions
    pub index: Number,
}

#[derive(Clone, Copy, Debug, Default)]
pub struct LiquidityNetBalanceLimits {
    pub window_start_timestamp: u32,
    pub window_start_net_balance: u64,
    /// Maximum allowed negative change in basis points (10000 = 100%)
    pub max_net_balance_change_negative_percentage: u16,
    /// Maximum allowed positive change in basis points (10000 = 100%)
    pub max_net_balance_change_positive_percentage: u32,
    pub window_duration_seconds: u32,
}

/// Changes of a trade to the trader's balances.
#[derive(Debug)]
pub struct TradeResult {
    /// The change to trader's PT balance and market's PT liquidity
    pub net_trader_pt: i64,
    /// The change to the trader's SY balance and market's SY liquidity
    pub net_trader_sy: i64,
    /// The part of the trade that was a fee
    pub sy_fee: u64,
}

pub struct LiqAddResult {
    pub pt_in: u64,
    pub sy_in: u64,
    pub lp_out: u64,
}

pub struct LiqRmResult {
    pub pt_out: u64,
    pub sy_out: u64,
}

/// Seconds from `now` until `expiration_ts`, zero once it has passed.
pub open spec fn spec_sec_remaining(expiration_ts: int, now: int) -> int {
    if now > expiration_ts {
        0
    } else {
        expiration_ts - now
    }
}

impl MarketFinancials {
    /// Seconds left until expiry at time `now`; zero after expiry.
    pub fn sec_remaining(&self, now: u64) -> (r: u64)
        ensures
            r == spec_sec_remaining(self.expiration_ts as int, now as int),
    {
        if now > self.expiration_ts {
            0
        } else {
            self.expiration_ts - now
        }
    }

    /// Asset balance of the market: its SY balance times the SY exchange rate,
    /// or `None` where the product exceeds the range of a `Number`.
    pub fn asset_balance(&self, sy_exchange_rate: Number) -> (r: Option<Number>)
        ensures
            r is Some <==> mul_raw(self.sy_balance * NUMBER_ONE, sy_exchange_rate.raw as int)
                <= u128::MAX,
            r matches Some(n) ==> n.raw == mul_raw(
                self.sy_balance * NUMBER_ONE,
                sy_exchange_rate.raw as int,
            ),
    {
        Number::from_natural_u64(self.sy_balance).checked_mul(&sy_exchange_rate)
    }
}

/// Whole units of `floor(amount / rate)`, as a raw `Number` quotient.
pub open spec fn spec_py_to_sy(sy_exchange_rate: int, amount_py: int) -> int {
    floor_value(div_raw(amount_py * NUMBER_ONE, sy_exchange_rate))
}

/// Whole units of `floor(amount * rate)`.
pub open spec fn spec_sy_to_py(sy_exchange_rate: int, amount_sy: int) -> int {
    floor_value(mul_raw(amount_sy * NUMBER_ONE, sy_exchange_rate))
}

/// SY for `amount_py` PT and YT at `sy_exchange_rate`, rounded down; `None` where
/// the rate is zero or the result does not fit.
pub fn py_to_sy(sy_exchange_rate: Number, amount_py: u64) -> (r: Option<u64>)
    ensures
        r is Some <==> sy_exchange_rate.raw > 0 && div_raw(
            amount_py * NUMBER_ONE,
            sy_exchange_rate.raw as int,
        ) <= u128::MAX && spec_py_to_sy(sy_exchange_rate.raw as int, amount_py as int)
            <= u64::MAX,
        r matches Some(v) ==> v == spec_py_to_sy(sy_exchange_rate.raw as int, amount_py as int),
{
    match Number::from_natural_u64(amount_py).checked_div(&sy_exchange_rate) {
        None => None,
        Some(sy) => {
            if sy.raw / NUMBER_ONE > u64::MAX as u128 {
                None
            } else {
                Some(sy.floor_u64())
            }
        },
    }
}

/// Div-down flooring of SY tokens into PT & YT, at the current SY exchange
/// rate; `None` where the result does not fit.
pub fn sy_to_py(sy_exchange_rate: Number, amount_sy: u64) -> (r: Option<u64>)
    ensures
        r is Some <==> mul_raw(amount_sy * NUMBER_ONE, sy_exchange_rate.raw as int)
            <= u128::MAX && spec_sy_to_py(sy_exchange_rate.raw as int, amount_sy as int)
            <= u64::MAX,
        r matches Some(v) ==> v == spec_sy_to_py(sy_exchange_rate.raw as int, amount_sy as int),
{
    match Number::from_natural_u64(amount_sy).checked_mul(&sy_exchange_rate) {
        None => None,
        Some(py) => {
            if py.raw / NUMBER_ONE > u64::MAX as u128 {
                None
            } else {
                Some(py.floor_u64())
            }
        },
    }
}

/// The market's asset balance at `sy_exchange_rate`, rounded up when the trader
/// buys PT and down otherwise; `None` where it does not fit.
pub fn trade_asset_balance(financials: &MarketFinancials, sy_exchange_rate: Number, is_buy_pt: bool) -> (r:
    Option<u64>)
    ensures
        ({
            let raw = mul_raw(financials.sy_balance * NUMBER_ONE, sy_exchange_rate.raw as int);
            let rounded = if is_buy_pt {
                ceil_value(raw)
            } else {
                floor_value(raw)
            };
            &&& r is Some <==> raw <= u128::MAX && rounded <= u64::MAX
            &&& r matches Some(v) ==> v == rounded
        }),
{
    match financials.asset_balance(sy_exchange_rate) {
        None => None,
        Some(balance) => {
            if is_buy_pt {
                let whole = balance.raw / NUMBER_ONE;
                let part = balance.raw % NUMBER_ONE;
                proof {
                    vstd::arithmetic::div_mod::lemma_fundamental_div_mod(
                        balance.raw as int,
                        NUMBER_ONE as int,
                    );
                    vstd::arithmetic::div_mod::lemma_mod_pos_bound(
                        balance.raw as int,
                        NUMBER_ONE as int,
                    );
                    if part == 0 {
                        vstd::arithmetic::div_mod::lemma_fundamental_div_mod_converse(
                            balance.raw + NUMBER_ONE - 1,
                            NUMBER_ONE as int,
                            whole as int,
                            NUMBER_ONE - 1,
                        );
                    } else {
                        vstd::arithmetic::div_mod::lemma_fundamental_div_mod_converse(
                            balance.raw + NUMBER_ONE - 1,
                            NUMBER_ONE as int,
                            whole + 1,
                            part - 1,
                        );
                    }
                }
                if whole > u64::MAX as u128 || (part != 0 && whole == u64::MAX as u128) {
                    None
                } else {
                    Some(balance.ceil_u64())
                }
            } else {
                if balance.raw / NUMBER_ONE > u64::MAX as u128 {
                    None
                } else {
                    Some(balance.floor_u64())
                }
            }
        },
    }
}

/// `floor(floor(a / b) / c) * c * b <= a` for non-negative `a` and positive `b`, `c`,
/// in the two steps the conversions take.
proof fn lemma_floor_steps(a: int, b: int, c: int)
    requires
        a >= 0,
        b > 0,
        c > 0,
    ensures
        (a / b) >= 0,
        ((a / b) / c) >= 0,
        ((a / b) / c) * c * b <= a,
{
    vstd::arithmetic::div_mod::lemma_fundamental_div_mod(a, b);
    vstd::arithmetic::div_mod::lemma_mod_pos_bound(a, b);
    vstd::arithmetic::div_mod::lemma_div_pos_is_pos(a, b);
    let q = a / b;
    vstd::arithmetic::div_mod::lemma_fundamental_div_mod(q, c);
    vstd::arithmetic::div_mod::lemma_mod_pos_bound(q, c);
    vstd::arithmetic::div_mod::lemma_div_pos_is_pos(q, c);
    assert((q / c) * c * b <= a) by (nonlinear_arith)
        requires
            a == b * q + a % b,
            a % b >= 0,
            q == c * (q / c) + q % c,
            q % c >= 0,
            b > 0,
            q / c >= 0,
    ;
}

/// Converting an amount of PT and YT to SY and the SY back never yields more
/// than the amount started with.
pub proof fn lemma_py_to_sy_to_py(sy_exchange_rate: int, amount_py: int)
    requires
        sy_exchange_rate > 0,
        amount_py >= 0,
    ensures
        spec_sy_to_py(sy_exchange_rate, spec_py_to_sy(sy_exchange_rate, amount_py)) <= amount_py,
{
    let one = NUMBER_ONE as int;
    let r = sy_exchange_rate;
    let a = amount_py * one * one;
    assert(amount_py * one * one == (amount_py * one) * one) by (nonlinear_arith);
    assert(a >= 0) by (nonlinear_arith)
        requires
            amount_py >= 0,
            a == amount_py * one * one,
            one > 0,
    ;
    lemma_floor_steps(a, r, one);
    let s = spec_py_to_sy(r, amount_py);
    assert(s == (a / r) / one);
    // the back conversion is floor(s * r / ONE)
    assert((s * one) * r == one * (s * r)) by (nonlinear_arith);
    vstd::arithmetic::div_mod::lemma_div_multiples_vanish(s * r, one);
    assert(s * r <= amount_py * one) by (nonlinear_arith)
        requires
            s * one * r <= amount_py * one * one,
            one > 0,
    ;
    vstd::arithmetic::div_mod::lemma_div_is_ordered(s * r, amount_py * one, one);
    vstd::arithmetic::div_mod::lemma_div_multiples_vanish(amount_py, one);
    assert(amount_py * one == one * amount_py) by (nonlinear_arith);
}

/// Converting SY to PT and YT and the PT back to SY never yields more than the
/// SY started with.
pub proof fn lemma_sy_to_py_to_sy(sy_exchange_rate: int, amount_sy: int)
    requires
        sy_exchange_rate > 0,
        amount_sy >= 0,
    ensures
        spec_py_to_sy(sy_exchange_rate, spec_sy_to_py(sy_exchange_rate, amount_sy)) <= amount_sy,
{
    let one = NUMBER_ONE as int;
    let r = sy_exchange_rate;
    // forward: t = floor(floor(s * ONE * r / ONE) / ONE)
    let prod = amount_sy * one * r;
    assert(prod >= 0) by (nonlinear_arith)
        requires
            amount_sy >= 0,
            r > 0,
            one > 0,
            prod == amount_sy * one * r,
    ;
    lemma_floor_steps(prod, one, one);
    let t = spec_sy_to_py(r, amount_sy);
    assert(t == (prod / one) / one);
    // t * ONE * ONE <= s * ONE * r, so t * ONE <= s * r
    assert(t * one <= amount_sy * r) by (nonlinear_arith)
        requires
            t * one * one <= amount_sy * one * r,
            one > 0,
    ;
    // back: floor(floor(t * ONE * ONE / r) / ONE)
    let b = t * one * one;
    assert(t >= 0);
    assert(b >= 0) by (nonlinear_arith)
        requires
            t >= 0,
            one > 0,
            b == t * one * one,
    ;
    lemma_floor_steps(b, r, one);
    let u = (b / r) / one;
    assert(spec_py_to_sy(r, t) == u) by {
        assert(t * one * one == (t * one) * one) by (nonlinear_arith);
    }
    assert(u <= amount_sy) by (nonlinear_arith)
        requires
            u * one * r <= t * one * one,
            t * one <= amount_sy * r,
            one > 0,
            r > 0,
            u >= 0,
    ;
}

} // verus!
