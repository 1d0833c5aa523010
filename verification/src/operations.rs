//! The three operations on balances: mint, exchange and transfer.
//!
//! Minting and exchanging are open to the trusted principal alone; the guard
//! is asked before anything else, and whoever it turns away changes nothing.
//! A transfer needs no guard: it acts on the authority of the source account.

use vstd::prelude::*;
use crate::ledger::{mint_to, minted, transfer, transferred, Error, Mint, TokenAccount};
use crate::principal::{
    authorize, check_caller, is_trusted, permits, trusted_principal, verdict,
    AuthorizationError, PrincipalId,
};

verus! {

/// What a mint acts on: the asset, the account that receives the new tokens,
/// and the principal that asks for them.
#[derive(Clone, Copy, Debug, PartialEq, Eq)]
pub struct MintToken {
    pub mint: Mint,
    pub token_account: TokenAccount,
    pub authority: PrincipalId,
}

/// What an exchange acts on: the principal that asks for it.
#[derive(Clone, Copy, Debug, PartialEq, Eq)]
pub struct ExchangeToken {
    pub authority: PrincipalId,
}

/// What a transfer acts on: the account that gives and the account that
/// receives.
#[derive(Clone, Copy, Debug, PartialEq, Eq)]
pub struct TransferToken {
    pub from_token_account: TokenAccount,
    pub to_token_account: TokenAccount,
}

/// The records after a mint of `amount` whose caller the guard has judged,
/// or the reason why nothing was minted.
pub open spec fn mint_outcome(permitted: bool, ctx: MintToken, amount: u64) -> Result<
    MintToken,
    Error,
> {
    if !permitted {
        Err(Error::IllegalOwner)
    } else {
        match minted(ctx.mint, ctx.token_account, amount) {
            Ok((m, t)) => Ok(MintToken { mint: m, token_account: t, authority: ctx.authority }),
            Err(e) => Err(e),
        }
    }
}

/// The records after a transfer of `amount`, or the reason why nothing moved.
pub open spec fn transfer_outcome(ctx: TransferToken, amount: u64) -> Result<
    TransferToken,
    Error,
> {
    match transferred(ctx.from_token_account, ctx.to_token_account, amount) {
        Ok((f, t)) => Ok(TransferToken { from_token_account: f, to_token_account: t }),
        Err(e) => Err(e),
    }
}

/// Mints `amount` for a caller judged against `trusted`: a caller who is not
/// that principal gets `IllegalOwner`, the trusted one gets what the ledger
/// answers. Every failure leaves `ctx` as it was.
pub fn mint_token_for(trusted: &Option<PrincipalId>, ctx: &mut MintToken, amount: u64) -> (r:
    Result<(), Error>)
    ensures
        match mint_outcome(permits(*trusted, old(ctx).authority), *old(ctx), amount) {
            Ok(after) => r is Ok && *final(ctx) == after,
            Err(e) => r == Err::<(), Error>(e) && *final(ctx) == *old(ctx),
        },
{
    match check_caller(trusted, &ctx.authority) {
        Ok(()) => mint_to(&mut ctx.mint, &mut ctx.token_account, amount),
        Err(_) => Err(Error::IllegalOwner),
    }
}

/// Mints `amount` new tokens into the account of `ctx`, for the trusted
/// principal alone. Anyone else gets `IllegalOwner`; a balance or supply that
/// would overflow gives `Overflow`. Every failure leaves `ctx` as it was.
pub fn mint_token(ctx: &mut MintToken, amount: u64) -> (r: Result<(), Error>)
    ensures
        match mint_outcome(is_trusted(old(ctx).authority), *old(ctx), amount) {
            Ok(after) => r is Ok && *final(ctx) == after,
            Err(e) => r == Err::<(), Error>(e) && *final(ctx) == *old(ctx),
        },
        !is_trusted(old(ctx).authority) ==> r == Err::<(), Error>(Error::IllegalOwner)
            && *final(ctx) == *old(ctx),
        r is Ok ==> is_trusted(old(ctx).authority) && final(ctx).token_account.balance == old(
            ctx,
        ).token_account.balance + amount && final(ctx).mint.supply == old(ctx).mint.supply
            + amount && final(ctx).token_account.owner == old(ctx).token_account.owner
            && final(ctx).authority == old(ctx).authority,
{
    let trusted = trusted_principal();
    mint_token_for(&trusted, ctx, amount)
}

/// Admits a request to exchange `amount` tokens, for the trusted principal
/// alone; anyone else gets `IllegalOwner`. No balance changes: the request
/// is admitted, and that is all.
#[allow(unused_variables)]
pub fn exchange_token(ctx: &ExchangeToken, amount: u64) -> (r: Result<(), AuthorizationError>)
    ensures
        r == verdict(is_trusted(ctx.authority)),
        !is_trusted(ctx.authority) ==> r == Err::<(), AuthorizationError>(
            AuthorizationError::IllegalOwner,
        ),
{
    authorize(&ctx.authority)
}

/// Moves `amount` tokens from the source account of `ctx` to the other, on
/// the source account's own authority. Fails with `InsufficientBalance`
/// where the source holds less, and with `Overflow` where the receiver
/// cannot hold the sum. Every failure leaves `ctx` as it was.
pub fn transfer_token(ctx: &mut TransferToken, amount: u64) -> (r: Result<(), Error>)
    ensures
        match transfer_outcome(*old(ctx), amount) {
            Ok(after) => r is Ok && *final(ctx) == after,
            Err(e) => r == Err::<(), Error>(e) && *final(ctx) == *old(ctx),
        },
        final(ctx).from_token_account.balance <= old(ctx).from_token_account.balance,
        final(ctx).from_token_account.balance + final(ctx).to_token_account.balance == old(
            ctx,
        ).from_token_account.balance + old(ctx).to_token_account.balance,
        amount > old(ctx).from_token_account.balance ==> r == Err::<(), Error>(
            Error::InsufficientBalance,
        ) && *final(ctx) == *old(ctx),
{
    let owner = ctx.from_token_account.owner;
    transfer(&mut ctx.from_token_account, &mut ctx.to_token_account, &owner, amount)
}

/// A caller who is not the trusted principal is refused by both guarded
/// operations, whatever the amount and the accounts: the mint reports
/// `IllegalOwner` and leaves no new record, and so does the exchange.
pub proof fn lemma_untrusted_caller_is_refused(ctx: MintToken, amount: u64)
    requires
        !is_trusted(ctx.authority),
    ensures
        mint_outcome(is_trusted(ctx.authority), ctx, amount) == Err::<MintToken, Error>(
            Error::IllegalOwner,
        ),
        verdict(is_trusted(ctx.authority)) == Err::<(), AuthorizationError>(
            AuthorizationError::IllegalOwner,
        ),
{
}

/// For the trusted principal a mint succeeds exactly when neither the
/// balance nor the supply overflows, and then adds exactly `amount` to each
/// and changes nothing else.
pub proof fn lemma_trusted_mint_adds_amount(ctx: MintToken, amount: u64)
    requires
        is_trusted(ctx.authority),
    ensures
        mint_outcome(is_trusted(ctx.authority), ctx, amount) is Ok <==> ctx.token_account.balance
            + amount <= u64::MAX && ctx.mint.supply + amount <= u64::MAX,
        mint_outcome(is_trusted(ctx.authority), ctx, amount) matches Ok(after)
            ==> after.token_account.balance == ctx.token_account.balance + amount
            && after.mint.supply == ctx.mint.supply + amount && after.token_account.owner
            == ctx.token_account.owner && after.authority == ctx.authority,
{
}

/// A transfer never creates or destroys tokens: where it succeeds, the two
/// balances together are what they were and the source is not overdrawn.
pub proof fn lemma_transfer_keeps_the_sum(ctx: TransferToken, amount: u64)
    ensures
        transfer_outcome(ctx, amount) matches Ok(after) ==> after.from_token_account.balance
            + after.to_token_account.balance == ctx.from_token_account.balance
            + ctx.to_token_account.balance && after.from_token_account.balance
            == ctx.from_token_account.balance - amount && after.from_token_account.balance
            <= ctx.from_token_account.balance,
{
}

/// A transfer of more than the source holds is refused for want of balance.
pub proof fn lemma_overdraw_is_refused(ctx: TransferToken, amount: u64)
    requires
        amount > ctx.from_token_account.balance,
    ensures
        transfer_outcome(ctx, amount) == Err::<TransferToken, Error>(Error::InsufficientBalance),
{
}

} // verus!
