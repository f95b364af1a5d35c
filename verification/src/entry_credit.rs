//! The entry-credit account: per-account balances of the burnable credit
//! currency that pays for entries.
//!
//! Credits are spent by the entry ledger and replenished by the factoid
//! ledger's conversion operation. A balance is never negative: a spend that
//! cannot be covered is rejected with no side effect.

use vstd::prelude::*;

use crate::error::LedgerError;
use crate::id::Id;
use crate::store::{get_balance, set_balance, Store};

verus! {

/// The exact outcome of [`increase_ec_balance`] on a given store: the only
/// failure is a balance that would wrap.
pub open spec fn increase_check(pre: Store, who: Seq<u8>, increase: u64) -> Result<
    (),
    LedgerError,
> {
    if pre.credits_of(who) + increase > u64::MAX {
        Err(LedgerError::BalanceOverflow)
    } else {
        Ok(())
    }
}

/// What a successful [`increase_ec_balance`] does to the store.
pub open spec fn increase_ok(pre: Store, post: Store, who: Seq<u8>, increase: u64) -> bool {
    &&& post.credits_of(who) == pre.credits_of(who) + increase
    &&& forall|a: Seq<u8>| a != who ==> post.credits_of(a) == pre.credits_of(a)
    &&& post.tokens == pre.tokens
    &&& post.chains == pre.chains
}

/// The exact outcome of [`spend_entry_credits`] on a given store: the only
/// failure is a balance that cannot cover the charge.
pub open spec fn spend_check(pre: Store, who: Seq<u8>, value: u64) -> Result<(), LedgerError> {
    if pre.credits_of(who) < value {
        Err(LedgerError::InsufficientCredits)
    } else {
        Ok(())
    }
}

/// What a successful [`spend_entry_credits`] does to the store.
pub open spec fn spend_ok(pre: Store, post: Store, who: Seq<u8>, value: u64) -> bool {
    &&& pre.credits_of(who) >= value
    &&& post.credits_of(who) == pre.credits_of(who) - value
    &&& forall|a: Seq<u8>| a != who ==> post.credits_of(a) == pre.credits_of(a)
    &&& post.tokens == pre.tokens
    &&& post.chains == pre.chains
}

/// Increase the entry-credit balance of an account.
///
/// This is the only entry point that grows total credit supply; the factoid
/// ledger calls it when tokens are converted. The addition is checked: a
/// balance that would wrap is rejected with [`LedgerError::BalanceOverflow`]
/// and no change.
pub fn increase_ec_balance(store: &mut Store, who: &Id, increase: u64) -> (r: Result<
    (),
    LedgerError,
>)
    requires
        old(store).wf(),
    ensures
        final(store).wf(),
        r == increase_check(*old(store), who@, increase),
        r is Ok ==> increase_ok(*old(store), *final(store), who@, increase),
        r is Err ==> *final(store) == *old(store),
{
    let bal = get_balance(&store.credits, who);
    if increase > u64::MAX - bal {
        Err(LedgerError::BalanceOverflow)
    } else {
        set_balance(&mut store.credits, who, bal + increase);
        Ok(())
    }
}

/// Spend entry credits from an account, called when an entry or a chain is
/// paid for.
///
/// The whole charge is taken, or nothing: a balance below `value` fails
/// with [`LedgerError::InsufficientCredits`] and leaves the store exactly
/// as it was, so the caller can abort its own operation.
pub fn spend_entry_credits(store: &mut Store, who: &Id, value: u64) -> (r: Result<
    (),
    LedgerError,
>)
    requires
        old(store).wf(),
    ensures
        final(store).wf(),
        r == spend_check(*old(store), who@, value),
        r is Ok ==> spend_ok(*old(store), *final(store), who@, value),
        r is Err ==> *final(store) == *old(store),
{
    let bal = get_balance(&store.credits, who);
    if bal < value {
        Err(LedgerError::InsufficientCredits)
    } else {
        set_balance(&mut store.credits, who, bal - value);
        Ok(())
    }
}

/// The entry-credit balance of an account.
pub fn ec_balance(store: &Store, who: &Id) -> (r: u64)
    ensures
        r == store.credits_of(who@),
{
    get_balance(&store.credits, who)
}

/// Spending part of a balance and then exactly the remainder drains the
/// balance to zero and never past it: after a successful spend of
/// `n < balance`, the balance is the old balance minus `n`, a spend of the
/// remainder is owed success, and it leaves exactly zero.
pub proof fn lemma_spend_drains_to_zero(s0: Store, s1: Store, s2: Store, who: Seq<u8>, n: u64)
    requires
        n < s0.credits_of(who),
        spend_ok(s0, s1, who, n),
        spend_ok(s1, s2, who, (s0.credits_of(who) - n) as u64),
    ensures
        s1.credits_of(who) == s0.credits_of(who) - n,
        spend_check(s1, who, (s0.credits_of(who) - n) as u64) == Ok::<(), LedgerError>(()),
        s2.credits_of(who) == 0,
{
}

} // verus!
