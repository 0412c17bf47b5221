//! A single on-chain instruction handler: it stores a 64-bit value in the
//! data field of the account it is given and reports success.

use vstd::prelude::*;

verus! {

/// An account-like record whose state is one 64-bit unsigned field. The field
/// holds the last value written to it.
pub struct AccountData {
    pub data: u64,
}

/// The accounts that `instruction_one` operates on: a single account.
pub struct InstructionAccounts {
    pub account_name: AccountData,
}

/// The execution context handed to the handler, carrying its accounts.
pub struct Context {
    pub accounts: InstructionAccounts,
}

/// Copies `instruction_data` into the account's data field. It validates
/// nothing and always succeeds.
pub fn instruction_one(ctx: &mut Context, instruction_data: u64) -> (r: Result<(), ()>)
    ensures
        r is Ok,
        final(ctx).accounts.account_name.data == instruction_data,
{
    ctx.accounts.account_name.data = instruction_data;
    Ok(())
}

} // verus!
