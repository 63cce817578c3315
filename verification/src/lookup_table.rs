//! Address lookup table accounts, decoded by the address lookup table
//! program's own types.
use crate::pubkey::Pubkey;
use vstd::prelude::*;

verus! {

/// The addresses that the address lookup table program's decoding of the
/// account data `data` holds, in order, or `None` where it refuses `data`.
pub uninterp spec fn spec_lookup_table_addresses(data: Seq<u8>) -> Option<Seq<Pubkey>>;

/// Decodes `data` with
/// `solana_address_lookup_table_interface::state::AddressLookupTable::deserialize`
/// and copies out its addresses, in order. The contract claims only that the
/// outcome is a function of `data`: `None` where decoding returns an error, the
/// addresses otherwise. Which byte strings decode, and to what, is left to the
/// lookup table program.
#[verifier::external_body]
fn decode_lookup_table(data: &[u8]) -> (r: Option<Vec<Pubkey>>)
    ensures
        match r {
            Some(keys) => spec_lookup_table_addresses(data@) == Some(keys@),
            None => spec_lookup_table_addresses(data@) is None,
        },
{
    match solana_address_lookup_table_interface::state::AddressLookupTable::deserialize(data) {
        Ok(table) => Some(table.addresses.iter().map(|a| Pubkey { bytes: a.to_bytes() }).collect()),
        Err(_) => None,
    }
}

/// The addresses stored in the lookup table account `data`, in order, or `None`
/// where `data` is not a lookup table.
pub fn lookup_table_addresses(data: &[u8]) -> (r: Option<Vec<Pubkey>>)
    ensures
        match r {
            Some(keys) => spec_lookup_table_addresses(data@) == Some(keys@),
            None => spec_lookup_table_addresses(data@) is None,
        },
{
    decode_lookup_table(data)
}

} // verus!
