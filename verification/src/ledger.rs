//! The token ledger's records and the two balance changes it applies.
//!
//! A change either applies in full or is rejected and leaves every record as
//! it was.

use vstd::prelude::*;
use crate::principal::PrincipalId;

verus! {

/// A fungible asset: the number of its tokens in circulation.
#[derive(Clone, Copy, Debug, PartialEq, Eq)]
pub struct Mint {
    pub supply: u64,
}

/// A balance of one asset, held for a principal.
#[derive(Clone, Copy, Debug, PartialEq, Eq)]
pub struct TokenAccount {
    pub owner: PrincipalId,
    pub balance: u64,
}

/// Why an operation was rejected.
#[derive(Clone, Copy, Debug, PartialEq, Eq, Structural)]
pub enum Error {
    /// The caller is not the trusted principal.
    IllegalOwner,
    /// The source account holds less than the amount to move.
    InsufficientBalance,
    /// A balance or the supply would exceed what sixty-four bits hold.
    Overflow,
}

/// The asset and the account after `amount` new tokens went to `to`, or the
/// reason why none can.
pub open spec fn minted(mint: Mint, to: TokenAccount, amount: u64) -> Result<
    (Mint, TokenAccount),
    Error,
> {
    if to.balance + amount > u64::MAX || mint.supply + amount > u64::MAX {
        Err(Error::Overflow)
    } else {
        Ok(
            (
                Mint { supply: (mint.supply + amount) as u64 },
                TokenAccount { owner: to.owner, balance: (to.balance + amount) as u64 },
            ),
        )
    }
}

/// The two accounts after `amount` tokens moved from `from` to `to`, or the
/// reason why they cannot.
pub open spec fn transferred(from: TokenAccount, to: TokenAccount, amount: u64) -> Result<
    (TokenAccount, TokenAccount),
    Error,
> {
    if from.balance < amount {
        Err(Error::InsufficientBalance)
    } else if to.balance + amount > u64::MAX {
        Err(Error::Overflow)
    } else {
        Ok(
            (
                TokenAccount { owner: from.owner, balance: (from.balance - amount) as u64 },
                TokenAccount { owner: to.owner, balance: (to.balance + amount) as u64 },
            ),
        )
    }
}

/// Creates `amount` new tokens in `to` and counts them in the supply of
/// `mint`. Where either number would overflow, fails with `Overflow` and
/// changes nothing.
pub fn mint_to(mint: &mut Mint, to: &mut TokenAccount, amount: u64) -> (r: Result<(), Error>)
    ensures
        match minted(*old(mint), *old(to), amount) {
            Ok((m, t)) => r is Ok && *final(mint) == m && *final(to) == t,
            Err(e) => r == Err::<(), Error>(e) && *final(mint) == *old(mint) && *final(to) == *old(
                to,
            ),
        },
{
    let balance = match to.balance.checked_add(amount) {
        Some(b) => b,
        None => { return Err(Error::Overflow); },
    };
    let supply = match mint.supply.checked_add(amount) {
        Some(s) => s,
        None => { return Err(Error::Overflow); },
    };
    to.balance = balance;
    mint.supply = supply;
    Ok(())
}

/// Moves `amount` tokens from `from` to `to` on the authority of the owner of
/// `from`. Fails with `InsufficientBalance` where `from` holds less than
/// `amount`, and with `Overflow` where `to` cannot hold the sum; a failure
/// changes nothing.
pub fn transfer(
    from: &mut TokenAccount,
    to: &mut TokenAccount,
    authorizing_owner: &PrincipalId,
    amount: u64,
) -> (r: Result<(), Error>)
    requires
        authorizing_owner@ == old(from).owner@,
    ensures
        match transferred(*old(from), *old(to), amount) {
            Ok((f, t)) => r is Ok && *final(from) == f && *final(to) == t,
            Err(e) => r == Err::<(), Error>(e) && *final(from) == *old(from) && *final(to) == *old(
                to,
            ),
        },
        final(from).balance <= old(from).balance,
        final(from).balance + final(to).balance == old(from).balance + old(to).balance,
{
    if from.balance < amount {
        return Err(Error::InsufficientBalance);
    }
    let credited = match to.balance.checked_add(amount) {
        Some(c) => c,
        None => { return Err(Error::Overflow); },
    };
    from.balance = from.balance - amount;
    to.balance = credited;
    Ok(())
}

} // verus!
