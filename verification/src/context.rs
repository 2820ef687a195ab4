//! What a handler is given to work on.

use vstd::prelude::*;
use crate::account::AccountInfo;
use crate::pubkey::Pubkey;

verus! {

/// The validated view of one instruction that its handler receives: the
/// program that is executing, the accounts that the instruction declares,
/// bound as `T`, and the accounts supplied beyond those. It is made for one
/// invocation and consumed by the handler. The handler may write the accounts
/// through it; its contract says what it leaves of them.
#[derive(Debug)]
pub struct Context<'a, T> {
    /// Identifier of the program that is executing.
    pub program_id: &'a Pubkey,
    /// The declared accounts.
    pub accounts: T,
    /// The accounts that were supplied and that the declaration does not name.
    pub remaining_accounts: &'a mut [AccountInfo],
}

} // verus!
