//! Reading the market account: an 8-byte Anchor discriminator followed by the
//! Borsh encoding of the market. Vectors carry a `u32` length, booleans are one
//! byte of 0 or 1, doubles must not be NaN, and bytes past the record are ignored.
use crate::bytes::{le_u128, le_u16, le_u32, le_u64, read_u128, read_u16, read_u32, read_u64};
use crate::cpi_common::{CpiAccounts, CpiInterfaceContext};
use crate::market::{
    FarmEmission, LiquidityNetBalanceLimits, LpFarm, MarketEmission, MarketEmissions,
    MarketFinancials, MarketTwo,
};
use crate::number::Number;
use crate::pubkey::Pubkey;
use vstd::prelude::*;

verus! {

/// Size of one stored market emission.
pub const EMISSION_SIZE: usize = 56;

/// Size of one stored farm emission.
pub const FARM_EMISSION_SIZE: usize = 60;

/// Offset of the emission list in the account data.
pub const EMISSIONS_OFFSET: usize = 412;

/// The first eight bytes of SHA-256 of `account:MarketTwo`.
pub open spec fn spec_market_two_discriminator() -> Seq<u8> {
    seq![212u8, 4u8, 132u8, 126u8, 169u8, 121u8, 121u8, 20u8]
}

/// Why a market account could not be read.
#[derive(Clone, Copy, Debug, PartialEq, Eq)]
pub enum MarketTwoError {
    /// The data is shorter than the discriminator.
    AccountDiscriminatorNotFound,
    /// The data starts with another account's discriminator.
    AccountDiscriminatorMismatch,
    /// The bytes after the discriminator are not a market record.
    AccountDidNotDeserialize,
}

/// The bits `b` of a double encode NaN: all exponent bits set and a non-zero
/// fraction.
pub open spec fn is_nan_bits(b: int) -> bool {
    (b / 4503599627370496) % 2048 == 2047 && b % 4503599627370496 != 0
}

/// End of a vector of `elem`-byte elements whose length is stored at `p`, or
/// `-1` when it runs past the end of `s` or `p` is `-1`.
pub open spec fn vec_end(s: Seq<u8>, p: int, elem: int) -> int {
    if 0 <= p && p + 4 <= s.len() && p + 4 + elem * le_u32(s, p) <= s.len() {
        p + 4 + elem * le_u32(s, p)
    } else {
        -1
    }
}

/// The stored context at `q` has valid boolean bytes.
pub open spec fn valid_ctx_at(s: Seq<u8>, q: int) -> bool {
    s[q + 1] <= 1 && s[q + 2] <= 1
}

/// The context stored at `q`.
pub open spec fn ctx_at(s: Seq<u8>, q: int) -> CpiInterfaceContext {
    CpiInterfaceContext { alt_index: s[q], is_signer: s[q + 1] == 1, is_writable: s[q + 2] == 1 }
}

/// End of the context vector stored at `p`, or `-1`.
pub open spec fn ctx_vec_end(s: Seq<u8>, p: int) -> int {
    let e = vec_end(s, p, 3);
    if e >= 0 && (forall|i: int| 0 <= i < le_u32(s, p) ==> #[trigger] valid_ctx_at(s, p + 4 + 3 * i)) {
        e
    } else {
        -1
    }
}

/// `v` is the context vector stored at `p`.
pub open spec fn ctx_vec_is(v: Seq<CpiInterfaceContext>, s: Seq<u8>, p: int) -> bool {
    v.len() == le_u32(s, p) && forall|i: int| 0 <= i < v.len() ==> #[trigger] v[i] == ctx_at(s, p + 4 + 3 * i)
}

/// End of `k` consecutive context vectors starting at `p`.
pub open spec fn ctx_vecs_end(s: Seq<u8>, p: int, k: nat) -> int
    decreases k,
{
    if k == 0 {
        p
    } else {
        ctx_vec_end(s, ctx_vecs_end(s, p, (k - 1) as nat))
    }
}

/// End of the vector of context vectors stored at `p`, or `-1`.
pub open spec fn ctx_vec_vec_end(s: Seq<u8>, p: int) -> int {
    if 0 <= p && p + 4 <= s.len() {
        ctx_vecs_end(s, p + 4, le_u32(s, p) as nat)
    } else {
        -1
    }
}

/// End of the emission list.
pub open spec fn emissions_end(s: Seq<u8>) -> int {
    vec_end(s, EMISSIONS_OFFSET as int, EMISSION_SIZE as int)
}

/// End of the LP farm: its timestamp, then its list of farm emissions.
pub open spec fn farm_end(s: Seq<u8>) -> int {
    let e = emissions_end(s);
    if e >= 0 {
        vec_end(s, e + 4, FARM_EMISSION_SIZE as int)
    } else {
        -1
    }
}

/// Start of the CPI account lists, after the two `u64` supply fields.
pub open spec fn cpi_start(s: Seq<u8>) -> int {
    let e = farm_end(s);
    if e >= 0 && e + 16 <= s.len() {
        e + 16
    } else {
        -1
    }
}

pub open spec fn deposit_sy_start(s: Seq<u8>) -> int {
    ctx_vec_end(s, cpi_start(s))
}

pub open spec fn withdraw_sy_start(s: Seq<u8>) -> int {
    ctx_vec_end(s, deposit_sy_start(s))
}

pub open spec fn claim_emission_start(s: Seq<u8>) -> int {
    ctx_vec_end(s, withdraw_sy_start(s))
}

pub open spec fn position_state_start(s: Seq<u8>) -> int {
    ctx_vec_vec_end(s, claim_emission_start(s))
}

/// Position of the flash-swap flag.
pub open spec fn flash_swap_pos(s: Seq<u8>) -> int {
    ctx_vec_end(s, position_state_start(s))
}

/// `s` is a market account record after a matching discriminator.
pub open spec fn valid_market_two(s: Seq<u8>) -> bool {
    let f = flash_swap_pos(s);
    &&& s.len() >= EMISSIONS_OFFSET
    &&& !is_nan_bits(le_u64(s, 388))
    &&& !is_nan_bits(le_u64(s, 396))
    &&& !is_nan_bits(le_u64(s, 404))
    &&& f >= 0
    &&& f + 23 <= s.len()
    &&& s[f] <= 1
}

pub open spec fn emission_at(e: MarketEmission, s: Seq<u8>, q: int) -> bool {
    &&& e.token_escrow@ == s.subrange(q, q + 32)
    &&& e.lp_share_index.raw == le_u128(s, q + 32)
    &&& e.last_seen_staged == le_u64(s, q + 48)
}

pub open spec fn farm_emission_at(f: FarmEmission, s: Seq<u8>, q: int) -> bool {
    &&& f.mint@ == s.subrange(q, q + 32)
    &&& f.token_rate == le_u64(s, q + 32)
    &&& f.expiry_timestamp == le_u32(s, q + 40)
    &&& f.index.raw == le_u128(s, q + 44)
}

/// Why the market account `data` cannot be read, or `None` where it holds a
/// market: too short for a discriminator, another account's discriminator, or a
/// record that does not decode.
pub open spec fn spec_market_account_error(data: Seq<u8>) -> Option<MarketTwoError> {
    if data.len() < 8 {
        Some(MarketTwoError::AccountDiscriminatorNotFound)
    } else if data.subrange(0, 8) != spec_market_two_discriminator() {
        Some(MarketTwoError::AccountDiscriminatorMismatch)
    } else if !valid_market_two(data) {
        Some(MarketTwoError::AccountDidNotDeserialize)
    } else {
        None
    }
}

/// `m` holds the market stored in the valid record `s`.
pub open spec fn parses_market_two(m: MarketTwo, s: Seq<u8>) -> bool {
    let e = emissions_end(s);
    let c = cpi_start(s);
    let f = flash_swap_pos(s);
    &&& m.address_lookup_table@ == s.subrange(8, 40)
    &&& m.mint_pt@ == s.subrange(40, 72)
    &&& m.mint_sy@ == s.subrange(72, 104)
    &&& m.vault@ == s.subrange(104, 136)
    &&& m.mint_lp@ == s.subrange(136, 168)
    &&& m.token_lp_escrow@ == s.subrange(168, 200)
    &&& m.token_pt_escrow@ == s.subrange(200, 232)
    &&& m.token_sy_escrow@ == s.subrange(232, 264)
    &&& m.token_fee_treasury_sy@ == s.subrange(264, 296)
    &&& m.fee_treasury_sy_bps == le_u16(s, 296)
    &&& m.self_address@ == s.subrange(298, 330)
    &&& m.signer_bump[0] == s[330]
    &&& m.status_flags == s[331]
    &&& m.sy_program@ == s.subrange(332, 364)
    &&& m.financials.expiration_ts == le_u64(s, 364)
    &&& m.financials.pt_balance == le_u64(s, 372)
    &&& m.financials.sy_balance == le_u64(s, 380)
    &&& m.financials.ln_fee_rate_root == le_u64(s, 388)
    &&& m.financials.last_ln_implied_rate == le_u64(s, 396)
    &&& m.financials.rate_scalar_root == le_u64(s, 404)
    &&& m.emissions.trackers@.len() == le_u32(s, EMISSIONS_OFFSET as int)
    &&& forall|i: int|
        0 <= i < m.emissions.trackers@.len() ==> emission_at(
            #[trigger] m.emissions.trackers@[i],
            s,
            EMISSIONS_OFFSET + 4 + EMISSION_SIZE * i,
        )
    &&& m.lp_farm.last_seen_timestamp == le_u32(s, e)
    &&& m.lp_farm.farm_emissions@.len() == le_u32(s, e + 4)
    &&& forall|i: int|
        0 <= i < m.lp_farm.farm_emissions@.len() ==> farm_emission_at(
            #[trigger] m.lp_farm.farm_emissions@[i],
            s,
            e + 8 + FARM_EMISSION_SIZE * i,
        )
    &&& m.max_lp_supply == le_u64(s, c - 16)
    &&& m.lp_escrow_amount == le_u64(s, c - 8)
    &&& ctx_vec_is(m.cpi_accounts.get_sy_state@, s, c)
    &&& ctx_vec_is(m.cpi_accounts.deposit_sy@, s, deposit_sy_start(s))
    &&& ctx_vec_is(m.cpi_accounts.withdraw_sy@, s, withdraw_sy_start(s))
    &&& m.cpi_accounts.claim_emission@.len() == le_u32(s, claim_emission_start(s))
    &&& forall|k: int|
        0 <= k < m.cpi_accounts.claim_emission@.len() ==> ctx_vec_is(
            (#[trigger] m.cpi_accounts.claim_emission@[k])@,
            s,
            ctx_vecs_end(s, claim_emission_start(s) + 4, k as nat),
        )
    &&& ctx_vec_is(m.cpi_accounts.get_position_state@, s, position_state_start(s))
    &&& m.is_current_flash_swap == (s[f] == 1)
    &&& m.liquidity_net_balance_limits.window_start_timestamp == le_u32(s, f + 1)
    &&& m.liquidity_net_balance_limits.window_start_net_balance == le_u64(s, f + 5)
    &&& m.liquidity_net_balance_limits.max_net_balance_change_negative_percentage == le_u16(
        s,
        f + 13,
    )
    &&& m.liquidity_net_balance_limits.max_net_balance_change_positive_percentage == le_u32(
        s,
        f + 15,
    )
    &&& m.liquidity_net_balance_limits.window_duration_seconds == le_u32(s, f + 19)
}

/// Whether the double whose bits are `b` is NaN.
fn is_nan_u64(b: u64) -> (r: bool)
    ensures
        r == is_nan_bits(b as int),
{
    (b / 4503599627370496) % 2048 == 2047 && b % 4503599627370496 != 0
}

/// Reads the context vector stored at `p`.
fn read_ctx_vec(data: &[u8], p: usize) -> (r: Option<(Vec<CpiInterfaceContext>, usize)>)
    ensures
        r is None <==> ctx_vec_end(data@, p as int) < 0,
        r matches Some((v, e)) ==> e == ctx_vec_end(data@, p as int) && ctx_vec_is(
            v@,
            data@,
            p as int,
        ),
{
    if p > data.len() || data.len() - p < 4 {
        return None;
    }
    let n = read_u32(data, p);
    if (n as u64) * 3 > (data.len() - p - 4) as u64 {
        return None;
    }
    let mut v: Vec<CpiInterfaceContext> = Vec::new();
    let mut i: usize = 0;
    while i < n as usize
        invariant
            0 <= i <= n,
            n == le_u32(data@, p as int),
            p + 4 + 3 * n <= data@.len(),
            data@.len() == data.len(),
            v@.len() == i,
            forall|j: int| 0 <= j < i ==> #[trigger] v@[j] == ctx_at(data@, p + 4 + 3 * j),
            forall|j: int| 0 <= j < i ==> #[trigger] valid_ctx_at(data@, p + 4 + 3 * j),
        decreases n - i,
    {
        let q = p + 4 + 3 * i;
        let signer = data[q + 1];
        let writable = data[q + 2];
        if signer > 1 || writable > 1 {
            assert(!valid_ctx_at(data@, p + 4 + 3 * i));
            return None;
        }
        v.push(CpiInterfaceContext { alt_index: data[q], is_signer: signer == 1, is_writable: writable == 1 });
        i = i + 1;
    }
    Some((v, p + 4 + 3 * (n as usize)))
}

/// Reads the vector of context vectors whose length is stored at `p`.
fn read_ctx_vec_vec(data: &[u8], p: usize) -> (r: Option<(Vec<Vec<CpiInterfaceContext>>, usize)>)
    ensures
        r is None <==> ctx_vec_vec_end(data@, p as int) < 0,
        r matches Some((v, e)) ==> {
            &&& e == ctx_vec_vec_end(data@, p as int)
            &&& v@.len() == le_u32(data@, p as int)
            &&& forall|k: int|
                0 <= k < v@.len() ==> ctx_vec_is(
                    (#[trigger] v@[k])@,
                    data@,
                    ctx_vecs_end(data@, p + 4, k as nat),
                )
        },
{
    if p > data.len() || data.len() - p < 4 {
        return None;
    }
    let n = read_u32(data, p);
    let mut v: Vec<Vec<CpiInterfaceContext>> = Vec::new();
    let mut pos: usize = p + 4;
    let mut k: u32 = 0;
    while k < n
        invariant
            0 <= k <= n,
            n == le_u32(data@, p as int),
            p + 4 <= data@.len(),
            pos == ctx_vecs_end(data@, p + 4, k as nat),
            v@.len() == k,
            forall|j: int|
                0 <= j < k ==> ctx_vec_is(
                    (#[trigger] v@[j])@,
                    data@,
                    ctx_vecs_end(data@, p + 4, j as nat),
                ),
        decreases n - k,
    {
        match read_ctx_vec(data, pos) {
            None => {
                proof {
                    lemma_ctx_vecs_end_stays_failed(data@, p + 4, (k + 1) as nat, n as nat);
                }
                return None;
            },
            Some((inner, e)) => {
                v.push(inner);
                pos = e;
            },
        }
        k = k + 1;
    }
    Some((v, pos))
}

/// Once a run of context vectors fails, any longer run fails too.
proof fn lemma_ctx_vecs_end_stays_failed(s: Seq<u8>, p: int, k: nat, n: nat)
    requires
        k <= n,
        ctx_vecs_end(s, p, k) < 0,
    ensures
        ctx_vecs_end(s, p, n) < 0,
    decreases n - k,
{
    if k < n {
        lemma_ctx_vecs_end_stays_failed(s, p, k + 1, n);
    }
}

/// Reads the emission list.
fn read_emissions(data: &[u8]) -> (r: Option<(Vec<MarketEmission>, usize)>)
    requires
        data.len() >= EMISSIONS_OFFSET,
    ensures
        r is None <==> emissions_end(data@) < 0,
        r matches Some((v, e)) ==> {
            &&& e == emissions_end(data@)
            &&& v@.len() == le_u32(data@, EMISSIONS_OFFSET as int)
            &&& forall|i: int|
                0 <= i < v@.len() ==> emission_at(
                    #[trigger] v@[i],
                    data@,
                    EMISSIONS_OFFSET + 4 + EMISSION_SIZE * i,
                )
        },
{
    let p = EMISSIONS_OFFSET;
    if data.len() - p < 4 {
        return None;
    }
    let n = read_u32(data, p);
    if (n as u64) * 56 > (data.len() - p - 4) as u64 {
        return None;
    }
    let mut v: Vec<MarketEmission> = Vec::new();
    let mut i: usize = 0;
    while i < n as usize
        invariant
            0 <= i <= n,
            p == EMISSIONS_OFFSET,
            n == le_u32(data@, p as int),
            p + 4 + 56 * n <= data@.len(),
            data@.len() == data.len(),
            v@.len() == i,
            forall|j: int| 0 <= j < i ==> emission_at(#[trigger] v@[j], data@, p + 4 + 56 * j),
        decreases n - i,
    {
        let q = p + 4 + 56 * i;
        v.push(
            MarketEmission {
                token_escrow: Pubkey::read(data, q),
                lp_share_index: Number { raw: read_u128(data, q + 32) },
                last_seen_staged: read_u64(data, q + 48),
            },
        );
        i = i + 1;
    }
    Some((v, p + 4 + 56 * (n as usize)))
}

/// Reads the farm emission list stored at `p`.
fn read_farm_emissions(data: &[u8], p: usize) -> (r: Option<(Vec<FarmEmission>, usize)>)
    ensures
        r is None <==> vec_end(data@, p as int, FARM_EMISSION_SIZE as int) < 0,
        r matches Some((v, e)) ==> {
            &&& e == vec_end(data@, p as int, FARM_EMISSION_SIZE as int)
            &&& v@.len() == le_u32(data@, p as int)
            &&& forall|i: int|
                0 <= i < v@.len() ==> farm_emission_at(
                    #[trigger] v@[i],
                    data@,
                    p + 4 + FARM_EMISSION_SIZE * i,
                )
        },
{
    if p > data.len() || data.len() - p < 4 {
        return None;
    }
    let n = read_u32(data, p);
    if (n as u64) * 60 > (data.len() - p - 4) as u64 {
        return None;
    }
    let mut v: Vec<FarmEmission> = Vec::new();
    let mut i: usize = 0;
    while i < n as usize
        invariant
            0 <= i <= n,
            n == le_u32(data@, p as int),
            p + 4 + 60 * n <= data@.len(),
            data@.len() == data.len(),
            v@.len() == i,
            forall|j: int| 0 <= j < i ==> farm_emission_at(#[trigger] v@[j], data@, p + 4 + 60 * j),
        decreases n - i,
    {
        let q = p + 4 + 60 * i;
        v.push(
            FarmEmission {
                mint: Pubkey::read(data, q),
                token_rate: read_u64(data, q + 32),
                expiry_timestamp: read_u32(data, q + 40),
                index: Number { raw: read_u128(data, q + 44) },
            },
        );
        i = i + 1;
    }
    Some((v, p + 4 + 60 * (n as usize)))
}

impl MarketTwo {
    /// Reads a market account: its discriminator, then the market record.
    pub fn try_deserialize(data: &[u8]) -> (r: Result<MarketTwo, MarketTwoError>)
        ensures
            match spec_market_account_error(data@) {
                Some(e) => r == Err::<MarketTwo, MarketTwoError>(e),
                None => r matches Ok(m) && parses_market_two(m, data@),
            },
    {
        if data.len() < 8 {
            return Err(MarketTwoError::AccountDiscriminatorNotFound);
        }
        let disc: [u8; 8] = [212, 4, 132, 126, 169, 121, 121, 20];
        let mut i: usize = 0;
        while i < 8
            invariant
                0 <= i <= 8,
                data@.len() >= 8,
                disc@ == spec_market_two_discriminator(),
                forall|j: int| 0 <= j < i ==> data@[j] == disc@[j],
            decreases 8 - i,
        {
            if data[i] != disc[i] {
                assert(data@.subrange(0, 8)[i as int] != spec_market_two_discriminator()[i as int]);
                return Err(MarketTwoError::AccountDiscriminatorMismatch);
            }
            i = i + 1;
        }
        assert(data@.subrange(0, 8) =~= spec_market_two_discriminator());
        match Self::read_record(data) {
            Some(m) => Ok(m),
            None => Err(MarketTwoError::AccountDidNotDeserialize),
        }
    }

    /// Reads the market record after the discriminator.
    fn read_record(data: &[u8]) -> (r: Option<MarketTwo>)
        ensures
            r is Some <==> valid_market_two(data@),
            r matches Some(m) ==> parses_market_two(m, data@),
    {
        if data.len() < EMISSIONS_OFFSET {
            return None;
        }
        let ln_fee_rate_root = read_u64(data, 388);
        let last_ln_implied_rate = read_u64(data, 396);
        let rate_scalar_root = read_u64(data, 404);
        if is_nan_u64(ln_fee_rate_root) || is_nan_u64(last_ln_implied_rate) || is_nan_u64(
            rate_scalar_root,
        ) {
            return None;
        }
        let (trackers, e) = match read_emissions(data) {
            Some(x) => x,
            None => return None,
        };
        if data.len() - e < 4 {
            return None;
        }
        let last_seen_timestamp = read_u32(data, e);
        let (farm_emissions, e2) = match read_farm_emissions(data, e + 4) {
            Some(x) => x,
            None => return None,
        };
        if data.len() - e2 < 16 {
            return None;
        }
        let max_lp_supply = read_u64(data, e2);
        let lp_escrow_amount = read_u64(data, e2 + 8);
        let c = e2 + 16;
        let (get_sy_state, c1) = match read_ctx_vec(data, c) {
            Some(x) => x,
            None => return None,
        };
        let (deposit_sy, c2) = match read_ctx_vec(data, c1) {
            Some(x) => x,
            None => return None,
        };
        let (withdraw_sy, c3) = match read_ctx_vec(data, c2) {
            Some(x) => x,
            None => return None,
        };
        let (claim_emission, c4) = match read_ctx_vec_vec(data, c3) {
            Some(x) => x,
            None => return None,
        };
        let (get_position_state, f) = match read_ctx_vec(data, c4) {
            Some(x) => x,
            None => return None,
        };
        if data.len() - f < 23 || data[f] > 1 {
            return None;
        }
        Some(
            MarketTwo {
                address_lookup_table: Pubkey::read(data, 8),
                mint_pt: Pubkey::read(data, 40),
                mint_sy: Pubkey::read(data, 72),
                vault: Pubkey::read(data, 104),
                mint_lp: Pubkey::read(data, 136),
                token_lp_escrow: Pubkey::read(data, 168),
                token_pt_escrow: Pubkey::read(data, 200),
                token_sy_escrow: Pubkey::read(data, 232),
                token_fee_treasury_sy: Pubkey::read(data, 264),
                fee_treasury_sy_bps: read_u16(data, 296),
                self_address: Pubkey::read(data, 298),
                signer_bump: [data[330]],
                status_flags: data[331],
                sy_program: Pubkey::read(data, 332),
                financials: MarketFinancials {
                    expiration_ts: read_u64(data, 364),
                    pt_balance: read_u64(data, 372),
                    sy_balance: read_u64(data, 380),
                    ln_fee_rate_root,
                    last_ln_implied_rate,
                    rate_scalar_root,
                },
                emissions: MarketEmissions { trackers },
                lp_farm: LpFarm { last_seen_timestamp, farm_emissions },
                max_lp_supply,
                lp_escrow_amount,
                cpi_accounts: CpiAccounts {
                    get_sy_state,
                    deposit_sy,
                    withdraw_sy,
                    claim_emission,
                    get_position_state,
                },
                is_current_flash_swap: data[f] == 1,
                liquidity_net_balance_limits: LiquidityNetBalanceLimits {
                    window_start_timestamp: read_u32(data, f + 1),
                    window_start_net_balance: read_u64(data, f + 5),
                    max_net_balance_change_negative_percentage: read_u16(data, f + 13),
                    max_net_balance_change_positive_percentage: read_u32(data, f + 15),
                    window_duration_seconds: read_u32(data, f + 19),
                },
            },
        )
    }
}

} // verus!
