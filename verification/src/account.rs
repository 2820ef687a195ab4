//! Accounts as an instruction sees them.

use vstd::prelude::*;
use crate::pubkey::Pubkey;

verus! {

/// One account handed to an instruction: its address, what it holds, and what
/// the instruction may do with it.
#[derive(Clone, Debug, PartialEq, Eq)]
pub struct AccountInfo {
    /// Address of the account.
    pub key: Pubkey,
    /// Balance of the account. A program may change it.
    pub lamports: u64,
    /// Data held in the account. A program may change it.
    pub data: Vec<u8>,
    /// Program that owns the account.
    pub owner: Pubkey,
    /// Whether the transaction was signed with the account's key.
    pub is_signer: bool,
    /// Whether the account may be written.
    pub is_writable: bool,
    /// Whether the account holds a loaded program.
    pub executable: bool,
}

} // verus!
