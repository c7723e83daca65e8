//! What an operation sees of an account that takes part in it.

use vstd::prelude::*;
use crate::pubkey::Pubkey;

verus! {

/// An account as an operation finds it: who it is, who owns it, whether
/// it signed, and what it holds.
#[derive(Debug)]
pub struct AccountInfo {
    /// The address of the account.
    pub key: Pubkey,
    /// The program that owns the account.
    pub owner: Pubkey,
    /// Whether the account signed the request.
    pub is_signer: bool,
    /// The balance of the account in the native currency.
    pub lamports: u64,
    /// The data that the account stores.
    pub data: Vec<u8>,
}

impl AccountInfo {
    /// Whether the account stores no data.
    pub fn data_is_empty(&self) -> (empty: bool)
        ensures
            empty == (self.data@.len() == 0),
    {
        self.data.len() == 0
    }
}

/// What the operations read of a token account.
#[derive(Clone, Copy, Debug, PartialEq, Eq)]
pub struct TokenAccount {
    /// The mint of the tokens.
    pub mint: Pubkey,
    /// Who owns the tokens.
    pub owner: Pubkey,
    /// How many tokens the account holds.
    pub amount: u64,
    /// Whether the account was initialised.
    pub is_initialized: bool,
}

} // verus!
