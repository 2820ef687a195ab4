//! The verified core of a minimal on-chain program. Its one instruction,
//! `initialize`, logs a greeting that holds the identifier of the executing
//! program, succeeds, and leaves every account as it was.

use vstd::prelude::*;

pub mod account;
pub mod context;
pub mod error;
pub mod log;
pub mod pubkey;

use crate::account::AccountInfo;
use crate::context::Context;
use crate::error::Error;
use crate::log::Log;
use crate::pubkey::{debug_text, pubkey_text, Pubkey};

verus! {

/// The bytes of the identifier under which this program is deployed.
pub const ID_BYTES: [u8; 32] = [
    30, 44, 97, 123, 203, 115, 17, 72, 167, 85, 234, 99, 15, 21, 10, 134,
    130, 155, 7, 218, 164, 139, 119, 146, 77, 56, 191, 242, 184, 154, 127, 98,
];

/// The identifier under which this program is deployed.
pub fn id() -> (key: Pubkey)
    ensures
        key.bytes == ID_BYTES,
{
    Pubkey { bytes: ID_BYTES }
}

/// The accounts that `initialize` declares: none.
#[derive(Clone, Copy, Debug, PartialEq, Eq)]
pub struct Initialize {}

/// The record logged for a program whose identifier reads `id_text`.
pub open spec fn greeting_text(id_text: Seq<char>) -> Seq<char> {
    "Greetings from: "@ + id_text
}

/// The record that `initialize` logs when it runs under `program_id`.
pub open spec fn greeting_record(program_id: Pubkey) -> Seq<char> {
    greeting_text(pubkey_text(program_id@))
}

/// Builds the greeting for a program whose identifier reads `id_text`.
pub fn greeting(id_text: &str) -> (record: String)
    ensures
        record@ == greeting_text(id_text@),
{
    let mut record = String::from_str("Greetings from: ");
    record.append(id_text);
    record
}

/// What outlives an invocation: the accounts that the instruction was given,
/// and the log.
pub struct Ledger {
    pub accounts: Seq<AccountInfo>,
    pub log: Seq<Seq<char>>,
}

impl Ledger {
    /// The ledger as `initialize` leaves it when it runs under `program_id`:
    /// the accounts as they were, the log longer by the greeting.
    pub open spec fn initialized(self, program_id: Pubkey) -> Ledger {
        Ledger { accounts: self.accounts, log: self.log.push(greeting_record(program_id)) }
    }

    /// The ledger after `initialize` has run once under each of `program_ids`,
    /// in their order.
    pub open spec fn initialized_each(self, program_ids: Seq<Pubkey>) -> Ledger
        decreases program_ids.len(),
    {
        if program_ids.len() == 0 {
            self
        } else {
            self.initialized_each(program_ids.drop_last()).initialized(program_ids.last())
        }
    }
}

impl<'a> Context<'a, Initialize> {
    /// Binds an instruction to the context of `initialize`. The handler
    /// declares no account, so every account list is accepted, all of it is
    /// left in `remaining_accounts`, and the payload is not looked at.
    pub fn bind(
        program_id: &'a Pubkey,
        accounts: &'a mut [AccountInfo],
        data: &[u8],
    ) -> (bound: Result<Context<'a, Initialize>, Error>)
        ensures
            bound is Ok,
            bound.unwrap().program_id == program_id,
            bound.unwrap().accounts == (Initialize {}),
            bound.unwrap().remaining_accounts@ == old(accounts)@,
            final(accounts)@ == final(bound.unwrap().remaining_accounts)@,
    {
        Ok(Context { program_id, accounts: Initialize {}, remaining_accounts: accounts })
    }
}

/// The handler of the one instruction: logs the greeting of the executing
/// program and succeeds. It writes no account.
pub fn initialize(ctx: Context<Initialize>, log: &mut Log) -> (outcome: Result<(), Error>)
    ensures
        outcome == Ok::<(), Error>(()),
        (Ledger { accounts: final(ctx.remaining_accounts)@, log: final(log)@ })
            == (Ledger { accounts: old(ctx.remaining_accounts)@, log: old(log)@ }).initialized(
            *ctx.program_id,
        ),
{
    let id_text = debug_text(ctx.program_id);
    log.append(greeting(id_text.as_str()));
    Ok(())
}

/// Runs one instruction that was routed to this program: binds the context,
/// then runs the handler. Any account list and any payload are accepted.
pub fn process_instruction(
    program_id: &Pubkey,
    accounts: &mut [AccountInfo],
    data: &[u8],
    log: &mut Log,
) -> (outcome: Result<(), Error>)
    ensures
        outcome == Ok::<(), Error>(()),
        (Ledger { accounts: final(accounts)@, log: final(log)@ })
            == (Ledger { accounts: old(accounts)@, log: old(log)@ }).initialized(*program_id),
{
    match Context::bind(program_id, accounts, data) {
        Ok(ctx) => initialize(ctx, log),
        Err(e) => Err(e),
    }
}

/// A greeting is the fixed opening followed by the identifier's text and
/// nothing else, so the text can be read back from the record.
pub proof fn lemma_greeting_holds_identifier(id_text: Seq<char>)
    ensures
        greeting_text(id_text).len() == 16 + id_text.len(),
        greeting_text(id_text).subrange(0, 16) == "Greetings from: "@,
        greeting_text(id_text).skip(16) == id_text,
{
    reveal_strlit("Greetings from: ");
}

/// However often `initialize` runs in sequence, and under whichever programs,
/// the accounts stay as they were before the first run, and the log is the
/// one from before followed by one greeting for each run, in order.
pub proof fn lemma_initialized_each(ledger: Ledger, program_ids: Seq<Pubkey>)
    ensures
        ledger.initialized_each(program_ids).accounts == ledger.accounts,
        ledger.initialized_each(program_ids).log == ledger.log + program_ids.map_values(
            |id: Pubkey| greeting_record(id),
        ),
    decreases program_ids.len(),
{
    if program_ids.len() > 0 {
        lemma_initialized_each(ledger, program_ids.drop_last());
    }
}

} // verus!
