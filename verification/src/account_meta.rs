//! Accounts passed to an instruction.
use crate::pubkey::Pubkey;
use vstd::prelude::*;

verus! {

/// An account reference of an instruction: its address and whether it must sign
/// and whether it may be written.
#[derive(Clone, Copy, Debug)]
pub struct AccountMeta {
    pub pubkey: Pubkey,
    pub is_signer: bool,
    pub is_writable: bool,
}

/// The account reference with the given address and flags.
pub open spec fn meta(pubkey: Pubkey, is_signer: bool, is_writable: bool) -> AccountMeta {
    AccountMeta { pubkey, is_signer, is_writable }
}

impl AccountMeta {
    /// A writable account reference.
    pub fn new(pubkey: Pubkey, is_signer: bool) -> (r: AccountMeta)
        ensures
            r == meta(pubkey, is_signer, true),
    {
        AccountMeta { pubkey, is_signer, is_writable: true }
    }

    /// A read-only account reference.
    pub fn new_readonly(pubkey: Pubkey, is_signer: bool) -> (r: AccountMeta)
        ensures
            r == meta(pubkey, is_signer, false),
    {
        AccountMeta { pubkey, is_signer, is_writable: false }
    }
}

} // verus!
