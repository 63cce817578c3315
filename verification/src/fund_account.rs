//! The fragmetric fund account, which prices the wfragSOL SY token.
use crate::bytes::{le_u16, le_u64, read_u16, read_u64};
use crate::number::{
    div_raw, lemma_div_raw_at_most_dividend, pow10, pow10_u64, Number, NUMBER_ONE,
};
use crate::pubkey::Pubkey;
use vstd::prelude::*;

verus! {

/// Size of the fund account after its 8-byte discriminator.
pub const FUND_ACCOUNT_SIZE: usize = 150640;

/// Version of the fund account layout.
pub const FUND_ACCOUNT_CURRENT_VERSION: u16 = 15;

pub const FUND_WITHDRAWAL_FEE_RATE_BPS_LIMIT: u16 = 500;

/// Number of supported-token slots in the fund account.
pub const FUND_ACCOUNT_MAX_SUPPORTED_TOKENS: usize = 30;

pub const FUND_ACCOUNT_MAX_RESTAKING_VAULTS: usize = 30;

/// Size of one supported-token slot.
pub const SUPPORTED_TOKEN_SIZE: usize = 1144;

/// Offset of the first supported-token slot in the account data.
pub const SUPPORTED_TOKENS_OFFSET: usize = 4368;

/// The fields of a supported token that pricing reads.
#[derive(Clone, Copy, Debug)]
pub struct SupportedToken {
    pub mint: Pubkey,
    pub program: Pubkey,
    pub decimals: u8,
    /// informative
    pub one_token_as_sol: u64,
    /// informative
    pub one_token_as_receipt_token: u64,
}

/// The fields of a fund account that pricing reads.
#[derive(Clone, Debug)]
pub struct FundAccount {
    pub data_version: u16,
    /// receipt token information
    pub receipt_token_mint: Pubkey,
    pub receipt_token_decimals: u8,
    pub receipt_token_supply_amount: u64,
    pub one_receipt_token_as_sol: u64,
    pub num_supported_tokens: u8,
    /// Every supported-token slot, used or not.
    pub supported_tokens: Vec<SupportedToken>,
}

/// `t` holds the supported token stored in slot `i` of the fund account `data`.
pub open spec fn parses_supported_token(t: SupportedToken, data: Seq<u8>, i: int) -> bool {
    let base = SUPPORTED_TOKENS_OFFSET + i * SUPPORTED_TOKEN_SIZE;
    &&& t.mint@ == data.subrange(base, base + 32)
    &&& t.program@ == data.subrange(base + 32, base + 64)
    &&& t.decimals == data[base + 64]
    &&& t.one_token_as_sol == le_u64(data, base + 112)
    &&& t.one_token_as_receipt_token == le_u64(data, base + 1088)
}

/// `f` holds the fields of the fund account stored in `data` after its 8-byte
/// discriminator, in the account's `repr(C)` layout.
pub open spec fn parses_fund_account(f: FundAccount, data: Seq<u8>) -> bool {
    &&& f.data_version == le_u16(data, 8)
    &&& f.receipt_token_mint@ == data.subrange(120, 152)
    &&& f.receipt_token_decimals == data[184]
    &&& f.receipt_token_supply_amount == le_u64(data, 192)
    &&& f.one_receipt_token_as_sol == le_u64(data, 200)
    &&& f.num_supported_tokens == data[4367]
    &&& f.supported_tokens@.len() == FUND_ACCOUNT_MAX_SUPPORTED_TOKENS
    &&& forall|i: int|
        0 <= i < FUND_ACCOUNT_MAX_SUPPORTED_TOKENS ==> parses_supported_token(
            #[trigger] f.supported_tokens@[i],
            data,
            i,
        )
}

/// Raw value of `one_receipt_token_as_sol / 10^decimals`.
pub open spec fn spec_fund_exchange_rate(one_receipt_token_as_sol: int, decimals: nat) -> int {
    div_raw(one_receipt_token_as_sol * NUMBER_ONE, pow10(decimals) * NUMBER_ONE)
}

/// Raw value of `10^decimals / one_token_as_receipt_token`.
pub open spec fn spec_supported_token_exchange_rate(
    decimals: nat,
    one_token_as_receipt_token: int,
) -> int {
    div_raw(pow10(decimals) * NUMBER_ONE, one_token_as_receipt_token * NUMBER_ONE)
}

/// Reads the supported token in slot `i`.
fn read_supported_token(data: &[u8], i: usize) -> (r: SupportedToken)
    requires
        data.len() >= 8 + FUND_ACCOUNT_SIZE,
        i < FUND_ACCOUNT_MAX_SUPPORTED_TOKENS,
    ensures
        parses_supported_token(r, data@, i as int),
{
    let base = SUPPORTED_TOKENS_OFFSET + i * SUPPORTED_TOKEN_SIZE;
    SupportedToken {
        mint: Pubkey::read(data, base),
        program: Pubkey::read(data, base + 32),
        decimals: data[base + 64],
        one_token_as_sol: read_u64(data, base + 112),
        one_token_as_receipt_token: read_u64(data, base + 1088),
    }
}

proof fn lemma_pow10_at_least_one(k: nat)
    ensures
        pow10(k) >= 1,
    decreases k,
{
    if k > 0 {
        lemma_pow10_at_least_one((k - 1) as nat);
    }
}

impl FundAccount {
    /// Reads the fund account stored in `data`: an 8-byte discriminator followed
    /// by at least `FUND_ACCOUNT_SIZE` bytes of the account.
    pub fn deserialize(data: &[u8]) -> (r: FundAccount)
        requires
            data.len() >= 8 + FUND_ACCOUNT_SIZE,
        ensures
            parses_fund_account(r, data@),
    {
        let mut tokens: Vec<SupportedToken> = Vec::new();
        let mut i: usize = 0;
        while i < FUND_ACCOUNT_MAX_SUPPORTED_TOKENS
            invariant
                0 <= i <= FUND_ACCOUNT_MAX_SUPPORTED_TOKENS,
                data.len() >= 8 + FUND_ACCOUNT_SIZE,
                tokens@.len() == i,
                forall|j: int| 0 <= j < i ==> parses_supported_token(#[trigger] tokens@[j], data@, j),
            decreases FUND_ACCOUNT_MAX_SUPPORTED_TOKENS - i,
        {
            tokens.push(read_supported_token(data, i));
            i = i + 1;
        }
        FundAccount {
            data_version: read_u16(data, 8),
            receipt_token_mint: Pubkey::read(data, 120),
            receipt_token_decimals: data[184],
            receipt_token_supply_amount: read_u64(data, 192),
            one_receipt_token_as_sol: read_u64(data, 200),
            num_supported_tokens: data[4367],
            supported_tokens: tokens,
        }
    }

    /// Value of one receipt token in SOL: `one_receipt_token_as_sol` scaled down
    /// by the receipt token's decimals.
    pub fn exchange_rate(&self) -> (r: Number)
        requires
            self.receipt_token_decimals <= 19,
        ensures
            r.raw == spec_fund_exchange_rate(
                self.one_receipt_token_as_sol as int,
                self.receipt_token_decimals as nat,
            ),
    {
        let scale = pow10_u64(self.receipt_token_decimals);
        let numerator = Number::from_natural_u64(self.one_receipt_token_as_sol);
        let denominator = Number::from_natural_u64(scale);
        proof {
            lemma_pow10_at_least_one(self.receipt_token_decimals as nat);
            lemma_div_raw_at_most_dividend(numerator.raw as int, denominator.raw as int);
        }
        match numerator.checked_div(&denominator) {
            Some(r) => r,
            None => {
                proof {
                    assert(false);
                }
                Number::zero()
            },
        }
    }

    /// Value of one unit of the supported token in slot `index`, in receipt
    /// tokens.
    pub fn supported_token_exchange_rate(&self, index: usize) -> (r: Number)
        requires
            index < self.supported_tokens@.len(),
            self.supported_tokens@[index as int].decimals <= 19,
            self.supported_tokens@[index as int].one_token_as_receipt_token > 0,
        ensures
            r.raw == spec_supported_token_exchange_rate(
                self.supported_tokens@[index as int].decimals as nat,
                self.supported_tokens@[index as int].one_token_as_receipt_token as int,
            ),
    {
        let supported_token = &self.supported_tokens[index];
        let scale = pow10_u64(supported_token.decimals);
        let numerator = Number::from_natural_u64(scale);
        let denominator = Number::from_natural_u64(supported_token.one_token_as_receipt_token);
        proof {
            lemma_div_raw_at_most_dividend(numerator.raw as int, denominator.raw as int);
        }
        match numerator.checked_div(&denominator) {
            Some(r) => r,
            None => {
                proof {
                    assert(false);
                }
                Number::zero()
            },
        }
    }
}

} // verus!
