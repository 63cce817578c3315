//! The SPL stake pool account, read for the balance that prices jitoSOL.
//!
//! The account is decoded by the stake pool program's own Borsh types; the
//! library keeps the two balances that the price needs.
use vstd::prelude::*;

verus! {

/// The balance of a stake pool.
#[derive(Clone, Copy, Debug)]
pub struct StakePool {
    /// Total stake under management.
    pub total_lamports: u64,
    /// Total supply of pool tokens.
    pub pool_token_supply: u64,
}

/// The total lamports and pool token supply that the stake pool program's Borsh
/// decoding of `data` holds, or `None` where it refuses `data`.
pub uninterp spec fn spec_decoded_stake_pool(data: Seq<u8>) -> Option<(u64, u64)>;

/// Decodes `data` with the `BorshDeserialize` impl of
/// `spl_stake_pool::state::StakePool`, reading from the start of `data` and
/// ignoring bytes past the record (as `try_from_slice_unchecked` does), and keeps
/// its `total_lamports` and `pool_token_supply`. The contract claims only that the
/// outcome is a function of `data`: `None` where decoding fails, the two fields
/// otherwise. Which byte strings decode is left to the stake pool program.
#[verifier::external_body]
fn decode_stake_pool(data: &[u8]) -> (r: Option<(u64, u64)>)
    ensures
        r == spec_decoded_stake_pool(data@),
{
    let mut input = data;
    match <spl_stake_pool::state::StakePool as anchor_lang::AnchorDeserialize>::deserialize(
        &mut input,
    ) {
        Ok(pool) => Some((pool.total_lamports, pool.pool_token_supply)),
        Err(_) => None,
    }
}

impl StakePool {
    /// Reads the balance of the stake pool record at the start of `data`, or
    /// `None` when `data` does not begin with a well-formed record.
    pub fn deserialize(data: &[u8]) -> (r: Option<StakePool>)
        ensures
            match spec_decoded_stake_pool(data@) {
                Some((total_lamports, pool_token_supply)) => r == Some(
                    StakePool { total_lamports, pool_token_supply },
                ),
                None => r is None,
            },
    {
        match decode_stake_pool(data) {
            Some((total_lamports, pool_token_supply)) => Some(
                StakePool { total_lamports, pool_token_supply },
            ),
            None => None,
        }
    }
}

} // verus!
