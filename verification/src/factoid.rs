//! The factoid ledger: the transferable token currency, convertible into
//! entry credits.
//!
//! Tokens obey a conservation rule: a transfer moves exactly the amount it
//! debits, and a conversion burns exactly the amount of credits it creates.
//! Outside genesis issuance (a host concern) and the explicit
//! burn-on-conversion, no operation creates or destroys tokens.

use vstd::prelude::*;

use crate::entry_credit::increase_ec_balance;
use crate::error::LedgerError;
use crate::id::{id_eq, Id};
use crate::store::{get_balance, set_balance, Store};

verus! {

/// The factoid-to-entry-credit conversion rate that [`fct_to_ec_rate`]
/// returns.
pub open spec fn spec_fct_to_ec_rate() -> u64 {
    1
}

/// The factoid-to-entry-credit conversion rate: how many credits one token
/// buys. Fixed at 1:1 by design, an explicit placeholder for a future
/// price-oracle-driven rate; every conversion goes through this single
/// lookup so the rate can be replaced without touching call sites.
pub fn fct_to_ec_rate() -> (r: u64)
    ensures
        r == spec_fct_to_ec_rate(),
{
    1
}

/// The exact outcome of [`transfer_factoids`] on a given store.
pub open spec fn transfer_check(pre: Store, sender: Seq<u8>, to: Seq<u8>, value: u64) -> Result<
    (),
    LedgerError,
> {
    if pre.tokens_of(sender) < value {
        Err(LedgerError::InsufficientBalance)
    } else if sender != to && pre.tokens_of(to) + value > u64::MAX {
        Err(LedgerError::BalanceOverflow)
    } else {
        Ok(())
    }
}

/// What a successful [`transfer_factoids`] does to the store.
pub open spec fn transfer_ok(pre: Store, post: Store, sender: Seq<u8>, to: Seq<u8>, value: u64) -> bool {
    &&& pre.tokens_of(sender) >= value
    &&& if sender == to {
        post.tokens_of(sender) == pre.tokens_of(sender)
    } else {
        &&& post.tokens_of(sender) == pre.tokens_of(sender) - value
        &&& post.tokens_of(to) == pre.tokens_of(to) + value
    }
    &&& forall|a: Seq<u8>| a != sender && a != to ==> post.tokens_of(a) == pre.tokens_of(a)
    &&& post.credits == pre.credits
    &&& post.chains == pre.chains
}

/// The exact outcome of [`buy_entry_credits`] on a given store.
pub open spec fn convert_check(pre: Store, sender: Seq<u8>, to: Seq<u8>, value: u64) -> Result<
    (),
    LedgerError,
> {
    if pre.tokens_of(sender) < value {
        Err(LedgerError::InsufficientBalance)
    } else if pre.credits_of(to) + value * spec_fct_to_ec_rate() > u64::MAX {
        Err(LedgerError::BalanceOverflow)
    } else {
        Ok(())
    }
}

/// What a successful [`buy_entry_credits`] does to the store: the tokens
/// are burned and the credits created at the conversion rate.
pub open spec fn convert_ok(pre: Store, post: Store, sender: Seq<u8>, to: Seq<u8>, value: u64) -> bool {
    &&& pre.tokens_of(sender) >= value
    &&& post.tokens_of(sender) == pre.tokens_of(sender) - value
    &&& forall|a: Seq<u8>| a != sender ==> post.tokens_of(a) == pre.tokens_of(a)
    &&& post.credits_of(to) == pre.credits_of(to) + value * spec_fct_to_ec_rate()
    &&& forall|a: Seq<u8>| a != to ==> post.credits_of(a) == pre.credits_of(a)
    &&& post.chains == pre.chains
}

/// Transfer factoids from one account to another.
///
/// No fee is charged. The transfer is atomic: it fails with
/// [`LedgerError::InsufficientBalance`] when the sender's balance cannot
/// cover `value`, or with [`LedgerError::BalanceOverflow`] when the
/// recipient's balance would wrap, and in either case changes nothing.
pub fn transfer_factoids(store: &mut Store, sender: &Id, to: &Id, value: u64) -> (r: Result<
    (),
    LedgerError,
>)
    requires
        old(store).wf(),
    ensures
        final(store).wf(),
        r == transfer_check(*old(store), sender@, to@, value),
        r is Ok ==> transfer_ok(*old(store), *final(store), sender@, to@, value),
        r is Err ==> *final(store) == *old(store),
{
    let sender_balance = get_balance(&store.tokens, sender);
    if sender_balance < value {
        return Err(LedgerError::InsufficientBalance);
    }
    if id_eq(sender, to) {
        return Ok(());
    }
    let to_balance = get_balance(&store.tokens, to);
    if value > u64::MAX - to_balance {
        return Err(LedgerError::BalanceOverflow);
    }
    set_balance(&mut store.tokens, sender, sender_balance - value);
    set_balance(&mut store.tokens, to, to_balance + value);
    Ok(())
}

/// Convert factoids into entry credits.
///
/// Burns `value` tokens from the sender and credits the target entry-credit
/// account at the rate [`fct_to_ec_rate`] returns. The conversion is
/// atomic: an insufficient token balance fails with
/// [`LedgerError::InsufficientBalance`], a credit balance that would wrap
/// fails with [`LedgerError::BalanceOverflow`], and either failure changes
/// nothing.
pub fn buy_entry_credits(store: &mut Store, sender: &Id, to_ec_addr: &Id, value: u64) -> (r:
    Result<(), LedgerError>)
    requires
        old(store).wf(),
    ensures
        final(store).wf(),
        r == convert_check(*old(store), sender@, to_ec_addr@, value),
        r is Ok ==> convert_ok(*old(store), *final(store), sender@, to_ec_addr@, value),
        r is Err ==> *final(store) == *old(store),
{
    let rate = fct_to_ec_rate();
    let sender_balance = get_balance(&store.tokens, sender);
    if sender_balance < value {
        return Err(LedgerError::InsufficientBalance);
    }
    let credit_amount = value * rate;
    let credit_balance = get_balance(&store.credits, to_ec_addr);
    if credit_amount > u64::MAX - credit_balance {
        return Err(LedgerError::BalanceOverflow);
    }
    set_balance(&mut store.tokens, sender, sender_balance - value);
    let increased = increase_ec_balance(store, to_ec_addr, credit_amount);
    assert(increased is Ok);
    Ok(())
}

/// The factoid balance of an account.
pub fn factoid_balance(store: &Store, who: &Id) -> (r: u64)
    ensures
        r == store.tokens_of(who@),
{
    get_balance(&store.tokens, who)
}

/// Token conservation: whatever a transfer returns, the sum of the two
/// accounts' balances afterwards equals the sum before, a failed transfer
/// changes nothing, and a transfer of more than the sender holds is exactly
/// the failing case.
pub proof fn lemma_transfer_conserves(
    pre: Store,
    post: Store,
    sender: Seq<u8>,
    to: Seq<u8>,
    value: u64,
    r: Result<(), LedgerError>,
)
    requires
        r == transfer_check(pre, sender, to, value),
        r is Ok ==> transfer_ok(pre, post, sender, to, value),
        r is Err ==> post == pre,
    ensures
        post.tokens_of(sender) + post.tokens_of(to) == pre.tokens_of(sender) + pre.tokens_of(to),
        value > pre.tokens_of(sender) ==> r == Err::<(), LedgerError>(
            LedgerError::InsufficientBalance,
        ) && post == pre,
{
}

} // verus!
