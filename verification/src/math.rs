//! Liquidity arithmetic of the time-curve market.
//!
//! Amounts are exact: every quotient is taken on the exact rational value and
//! only the final conversion to a token amount rounds toward zero, saturating
//! at `u64::MAX`.
use vstd::arithmetic::div_mod::*;
use vstd::arithmetic::mul::*;
use vstd::prelude::*;

verus! {

/// PT and SY shares of a quantity of LP tokens.
pub struct MarketProportions {
    pub pt: u64,
    pub sy: u64,
}

/// Outcome of a deposit into the pool.
pub struct AddLiquidityResult {
    pub lp_tokens_out: u64,
    pub sy_in: u64,
    pub pt_in: u64,
}

/// Outcome of a withdrawal from the pool.
pub struct RemoveLiquidityResult {
    pub sy_out: u64,
    pub pt_out: u64,
}

/// Conversion of a non-negative amount to a token amount: values above
/// `u64::MAX` become `u64::MAX`.
pub open spec fn saturate_u64(x: int) -> int {
    if x > u64::MAX {
        u64::MAX as int
    } else {
        x
    }
}

/// `floor(amount * numerator / denominator)` on exact values.
pub open spec fn share(amount: int, numerator: int, denominator: int) -> int {
    (amount * numerator) / denominator
}

/// `floor((total * lp_from_intent + lp_total - 1) / lp_total)` where
/// `lp_from_intent = lp_total * intent / intent_total` is the exact (unrounded)
/// LP amount minted for `intent`; written over integers.
pub open spec fn matching_deposit(total: int, intent: int, intent_total: int, lp_total: int) -> int {
    (lp_total * (total * intent) + (lp_total - 1) * intent_total) / (lp_total * intent_total)
}

/// Result of `add_liquidity`: the side whose intent mints fewer LP tokens is
/// deposited in full, the other side is matched in proportion, rounded in favour
/// of the pool.
pub open spec fn spec_add_liquidity(
    intent_sy: int,
    intent_pt: int,
    total_lp: int,
    total_sy: int,
    total_pt: int,
) -> (int, int, int) {
    // lp_from_pt < lp_from_sy  <=>  intent_pt / total_pt < intent_sy / total_sy
    if intent_pt * total_sy < intent_sy * total_pt {
        (
            saturate_u64(share(intent_pt, total_lp, total_pt)),
            matching_deposit(total_sy, intent_pt, total_pt, total_lp),
            intent_pt,
        )
    } else {
        (
            saturate_u64(share(intent_sy, total_lp, total_sy)),
            intent_sy,
            matching_deposit(total_pt, intent_sy, total_sy, total_lp),
        )
    }
}

/// Share of a pool total that `lp_in` of `total_lp` LP tokens stand for.
pub open spec fn spec_rm_share(lp_in: int, total_lp: int, total: int) -> int {
    if total_lp == 0 {
        0
    } else {
        share(total, lp_in, total_lp)
    }
}

/// `floor((l * a + (l - 1) * p) / (l * p))` is `floor(a / p)`, plus one when the
/// remainder of `a / p`, scaled by `l`, reaches `p`.
proof fn lemma_round_up_share(a: int, p: int, l: int)
    requires
        a >= 0,
        p > 0,
        l > 0,
    ensures
        (l * a + (l - 1) * p) / (l * p) == a / p + (if (a % p) * l >= p {
            1int
        } else {
            0int
        }),
{
    let q = a / p;
    let r = a % p;
    lemma_fundamental_div_mod(a, p);
    lemma_mod_pos_bound(a, p);
    lemma_div_pos_is_pos(a, p);
    let lp = l * p;
    assert(lp > 0) by (nonlinear_arith)
        requires
            l > 0,
            p > 0,
            lp == l * p,
    ;
    let t = l * r + (l - 1) * p;
    assert(l * a + (l - 1) * p == q * lp + t) by (nonlinear_arith)
        requires
            a == p * q + r,
            lp == l * p,
            t == l * r + (l - 1) * p,
    ;
    assert(l * r < lp) by (nonlinear_arith)
        requires
            0 <= r < p,
            l > 0,
            lp == l * p,
    ;
    assert(l * r >= 0) by (nonlinear_arith)
        requires
            0 <= r,
            l > 0,
    ;
    assert((l - 1) * p >= 0) by (nonlinear_arith)
        requires
            l >= 1,
            p > 0,
    ;
    assert(r * l == l * r) by (nonlinear_arith);
    if r * l >= p {
        assert(l * a + (l - 1) * p == (q + 1) * lp + (l * r - p)) by (nonlinear_arith)
            requires
                l * a + (l - 1) * p == q * lp + t,
                t == l * r + (l - 1) * p,
                lp == l * p,
        ;
        lemma_fundamental_div_mod_converse(l * a + (l - 1) * p, lp, q + 1, l * r - p);
    } else {
        assert((l - 1) * p == lp - p) by (nonlinear_arith)
            requires
                lp == l * p,
        ;
        lemma_fundamental_div_mod_converse(l * a + (l - 1) * p, lp, q, t);
    }
}

/// `floor(amount * numerator / denominator)` for amounts that fit in `u64`.
fn share_u128(amount: u64, numerator: u64, denominator: u64) -> (r: u128)
    requires
        denominator > 0,
    ensures
        r == share(amount as int, numerator as int, denominator as int),
{
    proof {
        lemma_mul_upper_bound(amount as int, u64::MAX as int, numerator as int, u64::MAX as int);
    }
    (amount as u128) * (numerator as u128) / (denominator as u128)
}

/// Saturating conversion to a token amount.
fn to_u64_saturating(x: u128) -> (r: u64)
    ensures
        r == saturate_u64(x as int),
{
    if x > u64::MAX as u128 {
        u64::MAX
    } else {
        x as u64
    }
}

/// Deposit matched to an LP amount minted for `intent` (see `matching_deposit`).
fn matching_deposit_u64(total: u64, intent: u64, intent_total: u64, lp_total: u64) -> (r: u128)
    requires
        intent_total > 0,
        lp_total > 0,
    ensures
        r == matching_deposit(total as int, intent as int, intent_total as int, lp_total as int),
        r <= share(total as int, intent as int, intent_total as int) + 1,
{
    proof {
        lemma_mul_upper_bound(total as int, u64::MAX as int, intent as int, u64::MAX as int);
    }
    let a: u128 = (total as u128) * (intent as u128);
    let p: u128 = intent_total as u128;
    let q: u128 = a / p;
    let rem: u128 = a % p;
    proof {
        lemma_mul_upper_bound(total as int, u64::MAX as int, intent as int, u64::MAX as int);
        lemma_mod_pos_bound(a as int, p as int);
        lemma_mul_upper_bound(rem as int, u64::MAX as int, lp_total as int, u64::MAX as int);
        lemma_round_up_share(a as int, p as int, lp_total as int);
        assert(lp_total * (total * intent) == lp_total * a);
        lemma_div_is_ordered(0, a as int, p as int);
        assert(q <= a);
    }
    if rem * (lp_total as u128) >= p {
        q + 1
    } else {
        q
    }
}

/// PT and SY shares of `lp_tokens` LP tokens in a market holding `market_pt`
/// PT and `market_sy` SY against `total_lp` LP tokens.
pub fn lp_proportion(lp_tokens: u64, market_pt: u64, market_sy: u64, total_lp: u64) -> (r:
    MarketProportions)
    requires
        total_lp > 0,
    ensures
        r.pt == saturate_u64(share(market_pt as int, lp_tokens as int, total_lp as int)),
        r.sy == saturate_u64(share(market_sy as int, lp_tokens as int, total_lp as int)),
        is_saturated_share(r.pt as int, lp_tokens as int, market_pt as int, total_lp as int),
        is_saturated_share(r.sy as int, lp_tokens as int, market_sy as int, total_lp as int),
{
    proof {
        lemma_shares_are_floor_fractions(lp_tokens, market_pt, market_sy, total_lp);
    }
    let pt = share_u128(market_pt, lp_tokens, total_lp);
    let sy = share_u128(market_sy, lp_tokens, total_lp);
    MarketProportions { pt: to_u64_saturating(pt), sy: to_u64_saturating(sy) }
}

/// LP tokens minted, and SY and PT taken, for a deposit intent of
/// `intent_sy` SY and `intent_pt` PT.
pub fn add_liquidity(
    intent_sy: u64,
    intent_pt: u64,
    market_total_lp: u64,
    market_total_sy: u64,
    market_total_pt: u64,
) -> (r: AddLiquidityResult)
    requires
        market_total_lp > 0,
        market_total_sy > 0,
        market_total_pt > 0,
    ensures
        (r.lp_tokens_out as int, r.sy_in as int, r.pt_in as int) == spec_add_liquidity(
            intent_sy as int,
            intent_pt as int,
            market_total_lp as int,
            market_total_sy as int,
            market_total_pt as int,
        ),
        intent_pt * market_total_sy < intent_sy * market_total_pt ==> is_saturated_share(
            r.lp_tokens_out as int,
            intent_pt as int,
            market_total_lp as int,
            market_total_pt as int,
        ) && r.pt_in == intent_pt && rounds_up_matching(
            r.sy_in as int,
            market_total_sy as int,
            intent_pt as int,
            market_total_pt as int,
            market_total_lp as int,
        ),
        intent_pt * market_total_sy >= intent_sy * market_total_pt ==> is_saturated_share(
            r.lp_tokens_out as int,
            intent_sy as int,
            market_total_lp as int,
            market_total_sy as int,
        ) && r.sy_in == intent_sy && rounds_up_matching(
            r.pt_in as int,
            market_total_pt as int,
            intent_sy as int,
            market_total_sy as int,
            market_total_lp as int,
        ),
{
    proof {
        lemma_add_liquidity_mints_limiting_share(
            intent_sy,
            intent_pt,
            market_total_lp,
            market_total_sy,
            market_total_pt,
        );
        lemma_mul_upper_bound(
            intent_pt as int,
            u64::MAX as int,
            market_total_sy as int,
            u64::MAX as int,
        );
        lemma_mul_upper_bound(
            intent_sy as int,
            u64::MAX as int,
            market_total_pt as int,
            u64::MAX as int,
        );
    }
    let pt_weight: u128 = (intent_pt as u128) * (market_total_sy as u128);
    let sy_weight: u128 = (intent_sy as u128) * (market_total_pt as u128);
    if pt_weight < sy_weight {
        let lp = share_u128(intent_pt, market_total_lp, market_total_pt);
        let sy_in = matching_deposit_u64(
            market_total_sy,
            intent_pt,
            market_total_pt,
            market_total_lp,
        );
        proof {
            // total_sy * intent_pt / total_pt < intent_sy
            assert(market_total_sy * intent_pt < intent_sy * market_total_pt) by (nonlinear_arith)
                requires
                    intent_pt * market_total_sy < intent_sy * market_total_pt,
            ;
            lemma_div_by_multiple_is_strongly_ordered(
                market_total_sy * intent_pt,
                intent_sy * market_total_pt,
                intent_sy as int,
                market_total_pt as int,
            );
            lemma_div_multiples_vanish(intent_sy as int, market_total_pt as int);
            assert((intent_sy * market_total_pt) / (market_total_pt as int) == intent_sy) by {
                assert(intent_sy * market_total_pt == market_total_pt * intent_sy) by (
                nonlinear_arith);
            }
        }
        AddLiquidityResult {
            lp_tokens_out: to_u64_saturating(lp),
            sy_in: sy_in as u64,
            pt_in: intent_pt,
        }
    } else {
        let lp = share_u128(intent_sy, market_total_lp, market_total_sy);
        let pt_in = matching_deposit_u64(
            market_total_pt,
            intent_sy,
            market_total_sy,
            market_total_lp,
        );
        proof {
            assert(market_total_pt * intent_sy <= intent_pt * market_total_sy) by (nonlinear_arith)
                requires
                    intent_pt * market_total_sy >= intent_sy * market_total_pt,
            ;
            lemma_div_is_ordered(
                market_total_pt * intent_sy,
                intent_pt * market_total_sy,
                market_total_sy as int,
            );
            lemma_div_multiples_vanish(intent_pt as int, market_total_sy as int);
            assert((intent_pt * market_total_sy) / (market_total_sy as int) == intent_pt) by {
                assert(intent_pt * market_total_sy == market_total_sy * intent_pt) by (
                nonlinear_arith);
            }
            lemma_round_up_share(
                market_total_pt * intent_sy,
                market_total_sy as int,
                market_total_lp as int,
            );
            // when the quotient reaches intent_pt the division is exact, so nothing is added
            if (market_total_pt * intent_sy) / (market_total_sy as int) == intent_pt {
                lemma_fundamental_div_mod(market_total_pt * intent_sy, market_total_sy as int);
                lemma_mod_pos_bound(market_total_pt * intent_sy, market_total_sy as int);
                assert((market_total_pt * intent_sy) % (market_total_sy as int) == 0) by (
                nonlinear_arith)
                    requires
                        market_total_pt * intent_sy == market_total_sy * intent_pt
                            + (market_total_pt * intent_sy) % (market_total_sy as int),
                        market_total_pt * intent_sy <= intent_pt * market_total_sy,
                        0 <= (market_total_pt * intent_sy) % (market_total_sy as int),
                ;
            }
        }
        AddLiquidityResult {
            lp_tokens_out: to_u64_saturating(lp),
            sy_in: intent_sy,
            pt_in: pt_in as u64,
        }
    }
}

/// `q` is `floor(numerator * amount / denominator)`, or `u64::MAX` where that
/// quotient does not fit a token amount.
pub open spec fn is_saturated_share(q: int, amount: int, numerator: int, denominator: int) -> bool {
    ||| q * denominator <= numerator * amount < (q + 1) * denominator
    ||| q == u64::MAX && u64::MAX * denominator <= numerator * amount
}

/// `m` is the deposit on the other side of the pool, holding `total`, matched
/// to the unrounded LP amount `total_lp * intent / intent_total`: `total` times
/// that LP fraction, plus `(total_lp - 1) / total_lp`, rounded down.
pub open spec fn rounds_up_matching(m: int, total: int, intent: int, intent_total: int, total_lp: int) -> bool {
    let d = total_lp * intent_total;
    let n = total_lp * (total * intent) + (total_lp - 1) * intent_total;
    m * d <= n < (m + 1) * d
}

/// `matching_deposit` is the rounded-down quotient it is defined as.
proof fn lemma_matching_brackets(total: int, intent: int, intent_total: int, lp_total: int)
    requires
        total >= 0,
        intent >= 0,
        intent_total > 0,
        lp_total > 0,
    ensures
        rounds_up_matching(
            matching_deposit(total, intent, intent_total, lp_total),
            total,
            intent,
            intent_total,
            lp_total,
        ),
{
    let d = lp_total * intent_total;
    let n = lp_total * (total * intent) + (lp_total - 1) * intent_total;
    assert(d > 0) by (nonlinear_arith)
        requires
            lp_total > 0,
            intent_total > 0,
            d == lp_total * intent_total,
    ;
    lemma_fundamental_div_mod(n, d);
    lemma_mod_pos_bound(n, d);
    let q = n / d;
    assert(q * d <= n < (q + 1) * d) by (nonlinear_arith)
        requires
            n == d * q + n % d,
            0 <= n % d < d,
    ;
}

/// A deposit mints the LP tokens of its limiting side, the side whose intent
/// is the smaller fraction of the pool's holding: `floor(total_lp * intent /
/// total)` of that side, saturated at `u64::MAX`; the limiting side is taken in
/// full.
pub proof fn lemma_add_liquidity_mints_limiting_share(
    intent_sy: u64,
    intent_pt: u64,
    total_lp: u64,
    total_sy: u64,
    total_pt: u64,
)
    requires
        total_lp > 0,
        total_sy > 0,
        total_pt > 0,
    ensures
        ({
            let (lp, sy_in, pt_in) = spec_add_liquidity(
                intent_sy as int,
                intent_pt as int,
                total_lp as int,
                total_sy as int,
                total_pt as int,
            );
            &&& 0 <= lp <= u64::MAX
            &&& intent_pt * total_sy < intent_sy * total_pt ==> {
                &&& is_saturated_share(lp, intent_pt as int, total_lp as int, total_pt as int)
                &&& pt_in == intent_pt
                &&& rounds_up_matching(sy_in, total_sy as int, intent_pt as int, total_pt as int, total_lp as int)
            }
            &&& intent_pt * total_sy >= intent_sy * total_pt ==> {
                &&& is_saturated_share(lp, intent_sy as int, total_lp as int, total_sy as int)
                &&& sy_in == intent_sy
                &&& rounds_up_matching(pt_in, total_pt as int, intent_sy as int, total_sy as int, total_lp as int)
            }
        }),
{
    lemma_matching_brackets(total_sy as int, intent_pt as int, total_pt as int, total_lp as int);
    lemma_matching_brackets(total_pt as int, intent_sy as int, total_sy as int, total_lp as int);
    lemma_share_brackets(intent_pt as int, total_lp as int, total_pt as int);
    lemma_share_brackets(intent_sy as int, total_lp as int, total_sy as int);
}

/// `saturate_u64(share(amount, numerator, denominator))` is the saturated
/// floor of `numerator * amount / denominator`.
proof fn lemma_share_brackets(amount: int, numerator: int, denominator: int)
    requires
        amount >= 0,
        numerator >= 0,
        denominator > 0,
    ensures
        0 <= saturate_u64(share(amount, numerator, denominator)) <= u64::MAX,
        is_saturated_share(
            saturate_u64(share(amount, numerator, denominator)),
            amount,
            numerator,
            denominator,
        ),
        ({
            let q = share(amount, numerator, denominator);
            &&& q * denominator <= amount * numerator < (q + 1) * denominator
            &&& q * denominator <= numerator * amount < (q + 1) * denominator
        }),
{
    let a = amount * numerator;
    assert(a == numerator * amount) by (nonlinear_arith)
        requires
            a == amount * numerator,
    ;
    assert(a >= 0) by (nonlinear_arith)
        requires
            amount >= 0,
            numerator >= 0,
            a == amount * numerator,
    ;
    lemma_fundamental_div_mod(a, denominator);
    lemma_mod_pos_bound(a, denominator);
    lemma_div_pos_is_pos(a, denominator);
    let q = a / denominator;
    assert(q * denominator <= a < (q + 1) * denominator) by (nonlinear_arith)
        requires
            a == denominator * q + a % denominator,
            0 <= a % denominator < denominator,
    ;
    if q > u64::MAX {
        assert(u64::MAX * denominator <= q * denominator) by (nonlinear_arith)
            requires
                q > u64::MAX,
                denominator > 0,
        ;
    }
}

/// The PT and SY shares of an amount of LP tokens are the pool's holdings
/// times the LP fraction, rounded down (saturated at `u64::MAX`), and a
/// withdrawal pays out exactly that rounded-down fraction of each holding.
pub proof fn lemma_shares_are_floor_fractions(
    lp_tokens: u64,
    market_pt: u64,
    market_sy: u64,
    total_lp: u64,
)
    requires
        total_lp > 0,
    ensures
        is_saturated_share(
            saturate_u64(share(market_pt as int, lp_tokens as int, total_lp as int)),
            lp_tokens as int,
            market_pt as int,
            total_lp as int,
        ),
        is_saturated_share(
            saturate_u64(share(market_sy as int, lp_tokens as int, total_lp as int)),
            lp_tokens as int,
            market_sy as int,
            total_lp as int,
        ),
        lp_tokens <= total_lp ==> {
            let sy = spec_rm_share(lp_tokens as int, total_lp as int, market_sy as int);
            let pt = spec_rm_share(lp_tokens as int, total_lp as int, market_pt as int);
            &&& sy * total_lp <= market_sy * lp_tokens < (sy + 1) * total_lp
            &&& pt * total_lp <= market_pt * lp_tokens < (pt + 1) * total_lp
        },
{
    lemma_share_brackets(lp_tokens as int, market_pt as int, total_lp as int);
    lemma_share_brackets(lp_tokens as int, market_sy as int, total_lp as int);
    lemma_share_brackets(market_pt as int, lp_tokens as int, total_lp as int);
    lemma_share_brackets(market_sy as int, lp_tokens as int, total_lp as int);
    assert(share(market_pt as int, lp_tokens as int, total_lp as int) == share(
        lp_tokens as int,
        market_pt as int,
        total_lp as int,
    )) by {
        assert(market_pt * lp_tokens == lp_tokens * market_pt) by (nonlinear_arith);
    }
    assert(share(market_sy as int, lp_tokens as int, total_lp as int) == share(
        lp_tokens as int,
        market_sy as int,
        total_lp as int,
    )) by {
        assert(market_sy * lp_tokens == lp_tokens * market_sy) by (nonlinear_arith);
    }
    if lp_tokens <= total_lp {
        lemma_share_at_most_total(market_sy as int, lp_tokens as int, total_lp as int);
        lemma_share_at_most_total(market_pt as int, lp_tokens as int, total_lp as int);
    }
}

/// SY and PT paid out for `lp_in` LP tokens.
pub fn rm_liquidity(lp_in: u64, market_total_lp: u64, market_total_sy: u64, market_total_pt: u64) -> (r:
    RemoveLiquidityResult)
    requires
        lp_in <= market_total_lp,
    ensures
        r.sy_out == spec_rm_share(lp_in as int, market_total_lp as int, market_total_sy as int),
        r.pt_out == spec_rm_share(lp_in as int, market_total_lp as int, market_total_pt as int),
        market_total_lp == 0 ==> r.sy_out == 0 && r.pt_out == 0,
        market_total_lp > 0 ==> {
            &&& r.sy_out * market_total_lp <= market_total_sy * lp_in < (r.sy_out + 1)
                * market_total_lp
            &&& r.pt_out * market_total_lp <= market_total_pt * lp_in < (r.pt_out + 1)
                * market_total_lp
        },
{
    proof {
        if market_total_lp > 0 {
            lemma_shares_are_floor_fractions(lp_in, market_total_pt, market_total_sy, market_total_lp);
        }
    }
    if market_total_lp == 0 {
        return RemoveLiquidityResult { sy_out: 0, pt_out: 0 };
    }
    let sy = share_u128(market_total_sy, lp_in, market_total_lp);
    let pt = share_u128(market_total_pt, lp_in, market_total_lp);
    proof {
        lemma_share_at_most_total(market_total_sy as int, lp_in as int, market_total_lp as int);
        lemma_share_at_most_total(market_total_pt as int, lp_in as int, market_total_lp as int);
    }
    RemoveLiquidityResult { sy_out: sy as u64, pt_out: pt as u64 }
}

/// SY paid out for `lp_amount` LP tokens.
pub fn lp_to_sy(lp_amount: u64, market_total_lp: u64, market_total_sy: u64, market_total_pt: u64) -> (r:
    u64)
    requires
        lp_amount <= market_total_lp,
    ensures
        r == spec_rm_share(lp_amount as int, market_total_lp as int, market_total_sy as int),
{
    let r = rm_liquidity(lp_amount, market_total_lp, market_total_sy, market_total_pt);
    r.sy_out
}

/// A share of at most all the LP tokens is at most the whole total.
pub proof fn lemma_share_at_most_total(total: int, lp: int, total_lp: int)
    requires
        0 <= total,
        0 <= lp <= total_lp,
        total_lp > 0,
    ensures
        0 <= share(total, lp, total_lp) <= total,
{
    lemma_mul_inequality(lp, total_lp, total);
    assert(total * lp <= total * total_lp) by (nonlinear_arith)
        requires
            lp * total <= total_lp * total,
    ;
    lemma_div_is_ordered(total * lp, total * total_lp, total_lp);
    lemma_div_multiples_vanish(total, total_lp);
    assert(total * total_lp == total_lp * total) by (nonlinear_arith);
    assert(total * lp >= 0) by (nonlinear_arith)
        requires
            total >= 0,
            lp >= 0,
    ;
    lemma_div_pos_is_pos(total * lp, total_lp);
}


/// Withdrawing never pays out more than the pool holds: for `lp_in <= total_lp`
/// each paid-out amount lies between zero and the pool's total of that token.
pub proof fn lemma_rm_liquidity_within_pool(lp_in: int, total_lp: int, total: int)
    requires
        0 <= lp_in <= total_lp,
        0 <= total,
    ensures
        0 <= spec_rm_share(lp_in, total_lp, total) <= total,
{
    if total_lp > 0 {
        lemma_share_at_most_total(total, lp_in, total_lp);
    }
}

/// Withdrawing every LP token pays out the whole pool.
pub proof fn lemma_rm_liquidity_all(total_lp: int, total: int)
    requires
        total_lp > 0,
        total >= 0,
    ensures
        spec_rm_share(total_lp, total_lp, total) == total,
{
    lemma_div_multiples_vanish(total, total_lp);
    assert(total * total_lp == total_lp * total) by (nonlinear_arith);
}

/// Withdrawing more LP tokens never pays out less.
pub proof fn lemma_rm_liquidity_monotone(lp_a: int, lp_b: int, total_lp: int, total: int)
    requires
        0 <= lp_a <= lp_b <= total_lp,
        0 <= total,
    ensures
        spec_rm_share(lp_a, total_lp, total) <= spec_rm_share(lp_b, total_lp, total),
{
    if total_lp > 0 {
        assert(total * lp_a <= total * lp_b) by (nonlinear_arith)
            requires
                lp_a <= lp_b,
                total >= 0,
        ;
        lemma_div_is_ordered(total * lp_a, total * lp_b, total_lp);
    }
}

/// `share(amount, numerator, denominator) * denominator <= amount * numerator`.
proof fn lemma_share_times_denominator(amount: int, numerator: int, denominator: int)
    requires
        amount >= 0,
        numerator >= 0,
        denominator > 0,
    ensures
        share(amount, numerator, denominator) >= 0,
        share(amount, numerator, denominator) * denominator <= amount * numerator,
{
    let x = amount * numerator;
    assert(x >= 0) by (nonlinear_arith)
        requires
            amount >= 0,
            numerator >= 0,
            x == amount * numerator,
    ;
    lemma_fundamental_div_mod(x, denominator);
    lemma_mod_pos_bound(x, denominator);
    lemma_div_pos_is_pos(x, denominator);
    assert((x / denominator) * denominator == denominator * (x / denominator)) by (
    nonlinear_arith);
}

/// A matched deposit covers the pool's share of the LP tokens minted:
/// `total * lp <= matching_deposit(..) * lp_total` whenever `lp` is at most the
/// exact LP amount `lp_total * intent / intent_total`.
proof fn lemma_matching_deposit_covers(
    total: int,
    intent: int,
    intent_total: int,
    lp_total: int,
    lp: int,
)
    requires
        total >= 0,
        intent >= 0,
        intent_total > 0,
        lp_total > 0,
        lp >= 0,
        lp * intent_total <= lp_total * intent,
    ensures
        total * lp <= matching_deposit(total, intent, intent_total, lp_total) * lp_total,
{
    let n = lp_total * (total * intent) + (lp_total - 1) * intent_total;
    let d = lp_total * intent_total;
    let m = matching_deposit(total, intent, intent_total, lp_total);
    assert(d > 0) by (nonlinear_arith)
        requires
            lp_total > 0,
            intent_total > 0,
            d == lp_total * intent_total,
    ;
    assert(n >= 0) by (nonlinear_arith)
        requires
            total >= 0,
            intent >= 0,
            intent_total > 0,
            lp_total >= 1,
            n == lp_total * (total * intent) + (lp_total - 1) * intent_total,
    ;
    lemma_fundamental_div_mod(n, d);
    lemma_mod_pos_bound(n, d);
    // m * d > n - d, hence m * lp_total * intent_total > lp_total * total * intent - intent_total
    assert(m * d > n - d) by (nonlinear_arith)
        requires
            n == d * m + n % d,
            n % d < d,
    ;
    assert(total * lp * intent_total <= total * (lp_total * intent)) by (nonlinear_arith)
        requires
            lp * intent_total <= lp_total * intent,
            total >= 0,
    ;
    assert(intent_total * (m * lp_total - total * lp + 1) > 0) by (nonlinear_arith)
        requires
            m * d > n - d,
            d == lp_total * intent_total,
            n == lp_total * (total * intent) + (lp_total - 1) * intent_total,
            total * lp * intent_total <= total * (lp_total * intent),
    ;
    assert(m * lp_total - total * lp + 1 > 0) by (nonlinear_arith)
        requires
            intent_total * (m * lp_total - total * lp + 1) > 0,
            intent_total > 0,
    ;
}

/// If a pool total `x_total` and a deposit `x_in` satisfy
/// `x_total * lp <= x_in * total_lp`, withdrawing the `lp` LP tokens minted for the
/// deposit pays out at most `x_in`.
proof fn lemma_withdraw_at_most_deposit(x_total: int, x_in: int, lp: int, total_lp: int)
    requires
        x_total >= 0,
        x_in >= 0,
        lp >= 0,
        total_lp > 0,
        x_total * lp <= x_in * total_lp,
    ensures
        spec_rm_share(lp, total_lp + lp, x_total + x_in) <= x_in,
{
    assert((x_total + x_in) * lp <= x_in * (total_lp + lp)) by (nonlinear_arith)
        requires
            x_total * lp <= x_in * total_lp,
    ;
    lemma_div_is_ordered((x_total + x_in) * lp, x_in * (total_lp + lp), total_lp + lp);
    lemma_div_multiples_vanish(x_in, total_lp + lp);
    assert(x_in * (total_lp + lp) == (total_lp + lp) * x_in) by (nonlinear_arith);
}

/// A deposit followed by the withdrawal of the LP tokens it minted never pays
/// out more SY or more PT than was deposited.
pub proof fn lemma_add_then_remove_liquidity(
    intent_sy: int,
    intent_pt: int,
    total_lp: int,
    total_sy: int,
    total_pt: int,
)
    requires
        intent_sy >= 0,
        intent_pt >= 0,
        total_lp > 0,
        total_sy > 0,
        total_pt > 0,
    ensures
        ({
            let (lp, sy_in, pt_in) = spec_add_liquidity(
                intent_sy,
                intent_pt,
                total_lp,
                total_sy,
                total_pt,
            );
            &&& spec_rm_share(lp, total_lp + lp, total_sy + sy_in) <= sy_in
            &&& spec_rm_share(lp, total_lp + lp, total_pt + pt_in) <= pt_in
        }),
{
    let (lp, sy_in, pt_in) = spec_add_liquidity(
        intent_sy,
        intent_pt,
        total_lp,
        total_sy,
        total_pt,
    );
    lemma_add_liquidity_within_intent(intent_sy, intent_pt, total_lp, total_sy, total_pt);
    if intent_pt * total_sy < intent_sy * total_pt {
        let exact = share(intent_pt, total_lp, total_pt);
        lemma_share_times_denominator(intent_pt, total_lp, total_pt);
        assert(lp * total_pt <= total_lp * intent_pt) by (nonlinear_arith)
            requires
                0 <= lp <= exact,
                exact * total_pt <= intent_pt * total_lp,
                total_pt > 0,
        ;
        lemma_matching_deposit_covers(total_sy, intent_pt, total_pt, total_lp, lp);
        lemma_withdraw_at_most_deposit(total_sy, sy_in, lp, total_lp);
        assert(total_pt * lp <= pt_in * total_lp) by (nonlinear_arith)
            requires
                lp * total_pt <= total_lp * intent_pt,
                pt_in == intent_pt,
        ;
        lemma_withdraw_at_most_deposit(total_pt, pt_in, lp, total_lp);
    } else {
        let exact = share(intent_sy, total_lp, total_sy);
        lemma_share_times_denominator(intent_sy, total_lp, total_sy);
        assert(lp * total_sy <= total_lp * intent_sy) by (nonlinear_arith)
            requires
                0 <= lp <= exact,
                exact * total_sy <= intent_sy * total_lp,
                total_sy > 0,
        ;
        lemma_matching_deposit_covers(total_pt, intent_sy, total_sy, total_lp, lp);
        lemma_withdraw_at_most_deposit(total_pt, pt_in, lp, total_lp);
        assert(total_sy * lp <= sy_in * total_lp) by (nonlinear_arith)
            requires
                lp * total_sy <= total_lp * intent_sy,
                sy_in == intent_sy,
        ;
        lemma_withdraw_at_most_deposit(total_sy, sy_in, lp, total_lp);
    }
}

/// A deposit never takes more than was intended of either token, and takes the
/// whole intent of at least one of them.
pub proof fn lemma_add_liquidity_within_intent(
    intent_sy: int,
    intent_pt: int,
    total_lp: int,
    total_sy: int,
    total_pt: int,
)
    requires
        intent_sy >= 0,
        intent_pt >= 0,
        total_lp > 0,
        total_sy > 0,
        total_pt > 0,
    ensures
        ({
            let (lp, sy_in, pt_in) = spec_add_liquidity(
                intent_sy,
                intent_pt,
                total_lp,
                total_sy,
                total_pt,
            );
            &&& 0 <= lp <= u64::MAX
            &&& 0 <= sy_in <= intent_sy
            &&& 0 <= pt_in <= intent_pt
            &&& (sy_in == intent_sy || pt_in == intent_pt)
        }),
{
    lemma_share_times_denominator(intent_pt, total_lp, total_pt);
    lemma_share_times_denominator(intent_sy, total_lp, total_sy);
    if intent_pt * total_sy < intent_sy * total_pt {
        assert(total_sy * intent_pt <= intent_sy * total_pt) by (nonlinear_arith)
            requires
                intent_pt * total_sy < intent_sy * total_pt,
        ;
        lemma_matching_deposit_bound(total_sy, intent_pt, total_pt, total_lp, intent_sy);
    } else {
        assert(total_pt * intent_sy <= intent_pt * total_sy) by (nonlinear_arith)
            requires
                intent_pt * total_sy >= intent_sy * total_pt,
        ;
        lemma_matching_deposit_bound(total_pt, intent_sy, total_sy, total_lp, intent_pt);
    }
}

/// `matching_deposit(total, intent, intent_total, lp_total)` lies between zero and
/// `cap` whenever `total * intent <= cap * intent_total`.
proof fn lemma_matching_deposit_bound(
    total: int,
    intent: int,
    intent_total: int,
    lp_total: int,
    cap: int,
)
    requires
        total >= 0,
        intent >= 0,
        intent_total > 0,
        lp_total > 0,
        cap >= 0,
        total * intent <= cap * intent_total,
    ensures
        0 <= matching_deposit(total, intent, intent_total, lp_total) <= cap,
{
    let a = total * intent;
    assert(a >= 0) by (nonlinear_arith)
        requires
            total >= 0,
            intent >= 0,
            a == total * intent,
    ;
    lemma_round_up_share(a, intent_total, lp_total);
    lemma_fundamental_div_mod(a, intent_total);
    lemma_mod_pos_bound(a, intent_total);
    lemma_div_pos_is_pos(a, intent_total);
    assert(a / intent_total <= cap) by (nonlinear_arith)
        requires
            a == intent_total * (a / intent_total) + a % intent_total,
            a % intent_total >= 0,
            a <= cap * intent_total,
            intent_total > 0,
    ;
    if a / intent_total == cap {
        assert(a % intent_total == 0) by (nonlinear_arith)
            requires
                a == intent_total * (a / intent_total) + a % intent_total,
                a / intent_total == cap,
                a % intent_total >= 0,
                a <= cap * intent_total,
        ;
    }
}

} // verus!
