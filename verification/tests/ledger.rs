//! Tests of the ledger transitions: credits, chains, entries and tokens.

use factomd::entry::{
    derive_chain_id, entry_data, put_chain, put_entry, total_entries, validate_entry_data,
};
use factomd::entry_credit::{ec_balance, increase_ec_balance, spend_entry_credits};
use factomd::error::LedgerError;
use factomd::factoid::{buy_entry_credits, factoid_balance, transfer_factoids};
use factomd::id::{id_eq, Id};
use factomd::store::{Account, ChainRecord, Store};

fn acct(n: u8) -> Id {
    Id([n; 32])
}

#[test]
fn spend_partial_then_drain_leaves_zero() {
    let mut s = Store::new();
    let a = acct(1);
    assert_eq!(increase_ec_balance(&mut s, &a, 10), Ok(()));
    assert_eq!(ec_balance(&s, &a), 10);
    // Spend n < balance, then the exact remainder: never negative.
    assert_eq!(spend_entry_credits(&mut s, &a, 3), Ok(()));
    assert_eq!(ec_balance(&s, &a), 7);
    assert_eq!(spend_entry_credits(&mut s, &a, 7), Ok(()));
    assert_eq!(ec_balance(&s, &a), 0);
}

#[test]
fn spend_over_balance_fails_unchanged() {
    let mut s = Store::new();
    let a = acct(1);
    assert_eq!(increase_ec_balance(&mut s, &a, 10), Ok(()));
    assert_eq!(
        spend_entry_credits(&mut s, &a, 11),
        Err(LedgerError::InsufficientCredits)
    );
    assert_eq!(ec_balance(&s, &a), 10);
}

#[test]
fn spend_from_unknown_account_fails() {
    let mut s = Store::new();
    let a = acct(9);
    assert_eq!(
        spend_entry_credits(&mut s, &a, 1),
        Err(LedgerError::InsufficientCredits)
    );
    assert_eq!(ec_balance(&s, &a), 0);
}

#[test]
fn increase_overflow_fails_unchanged() {
    let mut s = Store::new();
    let a = acct(1);
    assert_eq!(increase_ec_balance(&mut s, &a, u64::MAX), Ok(()));
    assert_eq!(
        increase_ec_balance(&mut s, &a, 1),
        Err(LedgerError::BalanceOverflow)
    );
    assert_eq!(ec_balance(&s, &a), u64::MAX);
}

#[test]
fn create_chain_then_duplicate_rejected() {
    let mut s = Store::new();
    let a = acct(1);
    assert_eq!(increase_ec_balance(&mut s, &a, 10), Ok(()));
    let ext = vec![1u8, 2, 3];
    let cid = derive_chain_id(&ext);
    assert_eq!(put_chain(&mut s, &a, vec![42u8], ext.clone()), Ok(()));
    assert_eq!(total_entries(&s, &cid), 1);
    assert_eq!(ec_balance(&s, &a), 8);
    // Identical external ids target the same chain id: the second call
    // collides, changes nothing and charges nothing.
    assert!(id_eq(&derive_chain_id(&ext), &cid));
    assert_eq!(
        put_chain(&mut s, &a, vec![99u8], ext.clone()),
        Err(LedgerError::ChainAlreadyExists)
    );
    assert_eq!(total_entries(&s, &cid), 1);
    assert_eq!(ec_balance(&s, &a), 8);
}

#[test]
fn first_entry_stored_at_sequence_one() {
    let mut s = Store::new();
    let a = acct(1);
    assert_eq!(increase_ec_balance(&mut s, &a, 2), Ok(()));
    let ext = vec![5u8, 6];
    let cid = derive_chain_id(&ext);
    assert_eq!(put_chain(&mut s, &a, vec![10u8, 11], ext.clone()), Ok(()));
    let first = entry_data(&s, &cid, 1).expect("first entry must exist");
    assert_eq!(first.content, vec![10u8, 11]);
    assert_eq!(first.external_ids, ext);
    assert!(id_eq(&first.chain_id, &cid));
    assert!(entry_data(&s, &cid, 2).is_none());
    assert!(entry_data(&s, &cid, 0).is_none());
}

#[test]
fn append_twice_counts_up_without_duplicates() {
    let mut s = Store::new();
    let a = acct(1);
    assert_eq!(increase_ec_balance(&mut s, &a, 10), Ok(()));
    let ext = vec![7u8];
    let cid = derive_chain_id(&ext);
    assert_eq!(put_chain(&mut s, &a, vec![0u8], ext), Ok(()));
    assert_eq!(total_entries(&s, &cid), 1);
    // The same logical call twice: each call appends at a fresh index.
    assert_eq!(put_entry(&mut s, &a, vec![1u8], vec![], &cid), Ok(()));
    assert_eq!(total_entries(&s, &cid), 2);
    assert_eq!(put_entry(&mut s, &a, vec![1u8], vec![], &cid), Ok(()));
    assert_eq!(total_entries(&s, &cid), 3);
    assert_eq!(entry_data(&s, &cid, 2).unwrap().content, vec![1u8]);
    assert_eq!(entry_data(&s, &cid, 3).unwrap().content, vec![1u8]);
    assert_eq!(entry_data(&s, &cid, 1).unwrap().content, vec![0u8]);
    assert_eq!(ec_balance(&s, &a), 10 - 2 - 1 - 1);
}

#[test]
fn oversize_entry_rejected_unchanged() {
    let mut s = Store::new();
    let a = acct(1);
    assert_eq!(increase_ec_balance(&mut s, &a, 10), Ok(()));
    let ext = vec![9u8];
    let cid = derive_chain_id(&ext);
    assert_eq!(put_chain(&mut s, &a, vec![], ext), Ok(()));
    // 1000 + 25 = 1025 bytes: one over the cap.
    let content = vec![0u8; 1000];
    let ids = vec![0u8; 25];
    assert_eq!(
        put_entry(&mut s, &a, content, ids, &cid),
        Err(LedgerError::EntryTooLarge)
    );
    assert_eq!(total_entries(&s, &cid), 1);
    assert_eq!(ec_balance(&s, &a), 8);
}

#[test]
fn entry_at_cap_accepted() {
    let mut s = Store::new();
    let a = acct(1);
    assert_eq!(increase_ec_balance(&mut s, &a, 3), Ok(()));
    let ext = vec![9u8];
    let cid = derive_chain_id(&ext);
    assert_eq!(put_chain(&mut s, &a, vec![], ext), Ok(()));
    // Exactly 1024 combined bytes is still accepted.
    assert_eq!(validate_entry_data(&vec![0u8; 1000], &vec![0u8; 24]), Ok(()));
    assert_eq!(
        put_entry(&mut s, &a, vec![0u8; 1000], vec![0u8; 24], &cid),
        Ok(())
    );
    assert_eq!(total_entries(&s, &cid), 2);
}

#[test]
fn oversize_chain_rejected() {
    let mut s = Store::new();
    let a = acct(1);
    assert_eq!(increase_ec_balance(&mut s, &a, 10), Ok(()));
    assert_eq!(
        put_chain(&mut s, &a, vec![0u8; 1024], vec![0u8; 1]),
        Err(LedgerError::EntryTooLarge)
    );
    assert_eq!(ec_balance(&s, &a), 10);
}

#[test]
fn append_to_missing_chain_rejected() {
    let mut s = Store::new();
    let a = acct(1);
    assert_eq!(increase_ec_balance(&mut s, &a, 10), Ok(()));
    let cid = derive_chain_id(&vec![1u8]);
    assert_eq!(
        put_entry(&mut s, &a, vec![0u8], vec![], &cid),
        Err(LedgerError::ChainNotFound)
    );
    assert_eq!(ec_balance(&s, &a), 10);
}

#[test]
fn append_without_credits_rejected() {
    let mut s = Store::new();
    let rich = acct(1);
    let poor = acct(2);
    assert_eq!(increase_ec_balance(&mut s, &rich, 10), Ok(()));
    let ext = vec![4u8];
    let cid = derive_chain_id(&ext);
    assert_eq!(put_chain(&mut s, &rich, vec![], ext), Ok(()));
    assert_eq!(
        put_entry(&mut s, &poor, vec![0u8], vec![], &cid),
        Err(LedgerError::InsufficientCredits)
    );
    assert_eq!(total_entries(&s, &cid), 1);
    assert_eq!(ec_balance(&s, &poor), 0);
}

#[test]
fn counter_at_limit_rejected() {
    // A chain whose counter already sits at the top of the range: the
    // append must refuse to wrap rather than store anything.
    let mut s = Store::new();
    let a = acct(1);
    assert_eq!(increase_ec_balance(&mut s, &a, 10), Ok(()));
    let cid = acct(200);
    s.chains.push(ChainRecord {
        chain_id: cid,
        count: u64::MAX,
        entries: Vec::new(),
    });
    assert_eq!(
        put_entry(&mut s, &a, vec![0u8], vec![], &cid),
        Err(LedgerError::CounterOverflow)
    );
    assert_eq!(total_entries(&s, &cid), u64::MAX);
    assert_eq!(ec_balance(&s, &a), 10);
}

#[test]
fn transfer_moves_and_conserves() {
    let mut s = Store::new();
    let a = acct(1);
    let b = acct(2);
    s.tokens.push(Account { id: a, balance: 10 });
    assert_eq!(transfer_factoids(&mut s, &a, &b, 4), Ok(()));
    assert_eq!(factoid_balance(&s, &a), 6);
    assert_eq!(factoid_balance(&s, &b), 4);
    assert_eq!(factoid_balance(&s, &a) + factoid_balance(&s, &b), 10);
}

#[test]
fn transfer_over_balance_fails_unchanged() {
    let mut s = Store::new();
    let a = acct(1);
    let b = acct(2);
    s.tokens.push(Account { id: a, balance: 10 });
    assert_eq!(
        transfer_factoids(&mut s, &a, &b, 11),
        Err(LedgerError::InsufficientBalance)
    );
    assert_eq!(factoid_balance(&s, &a), 10);
    assert_eq!(factoid_balance(&s, &b), 0);
    assert_eq!(factoid_balance(&s, &a) + factoid_balance(&s, &b), 10);
}

#[test]
fn transfer_to_self_changes_nothing() {
    let mut s = Store::new();
    let a = acct(1);
    s.tokens.push(Account { id: a, balance: 10 });
    assert_eq!(transfer_factoids(&mut s, &a, &a, 10), Ok(()));
    assert_eq!(factoid_balance(&s, &a), 10);
}

#[test]
fn transfer_overflowing_recipient_fails_unchanged() {
    let mut s = Store::new();
    let a = acct(1);
    let b = acct(2);
    s.tokens.push(Account { id: a, balance: 10 });
    s.tokens.push(Account {
        id: b,
        balance: u64::MAX,
    });
    assert_eq!(
        transfer_factoids(&mut s, &a, &b, 1),
        Err(LedgerError::BalanceOverflow)
    );
    assert_eq!(factoid_balance(&s, &a), 10);
    assert_eq!(factoid_balance(&s, &b), u64::MAX);
}

#[test]
fn convert_then_append_spends_one_credit() {
    // Account a starts with no credits and no tokens, is given 10 tokens,
    // converts them all: tokens drop by 10, credits rise by 10. One append
    // on an existing chain then leaves exactly 9 credits.
    let mut s = Store::new();
    let a = acct(1);
    let b = acct(2);
    assert_eq!(ec_balance(&s, &a), 0);
    assert_eq!(factoid_balance(&s, &a), 0);
    s.tokens.push(Account { id: a, balance: 10 });
    assert_eq!(buy_entry_credits(&mut s, &a, &a, 10), Ok(()));
    assert_eq!(factoid_balance(&s, &a), 0);
    assert_eq!(ec_balance(&s, &a), 10);

    assert_eq!(increase_ec_balance(&mut s, &b, 2), Ok(()));
    let ext = vec![1u8];
    let cid = derive_chain_id(&ext);
    assert_eq!(put_chain(&mut s, &b, vec![], ext), Ok(()));
    assert_eq!(put_entry(&mut s, &a, vec![3u8], vec![], &cid), Ok(()));
    assert_eq!(ec_balance(&s, &a), 9);
}

#[test]
fn convert_over_balance_fails_unchanged() {
    let mut s = Store::new();
    let a = acct(1);
    let b = acct(2);
    s.tokens.push(Account { id: a, balance: 5 });
    assert_eq!(
        buy_entry_credits(&mut s, &a, &b, 6),
        Err(LedgerError::InsufficientBalance)
    );
    assert_eq!(factoid_balance(&s, &a), 5);
    assert_eq!(ec_balance(&s, &b), 0);
}

#[test]
fn convert_overflowing_credits_fails_unchanged() {
    let mut s = Store::new();
    let a = acct(1);
    let b = acct(2);
    s.tokens.push(Account { id: a, balance: 10 });
    assert_eq!(increase_ec_balance(&mut s, &b, u64::MAX), Ok(()));
    assert_eq!(
        buy_entry_credits(&mut s, &a, &b, 1),
        Err(LedgerError::BalanceOverflow)
    );
    assert_eq!(factoid_balance(&s, &a), 10);
    assert_eq!(ec_balance(&s, &b), u64::MAX);
}

#[test]
fn underfunded_chain_creation_leaves_no_chain() {
    // One credit is not enough for the two-credit chain charge; the chain
    // must not come into existence, so a follow-up append cannot find it.
    let mut s = Store::new();
    let a = acct(1);
    assert_eq!(increase_ec_balance(&mut s, &a, 1), Ok(()));
    let ext = vec![8u8, 8];
    let cid = derive_chain_id(&ext);
    assert_eq!(
        put_chain(&mut s, &a, vec![], ext),
        Err(LedgerError::InsufficientCredits)
    );
    assert_eq!(ec_balance(&s, &a), 1);
    assert_eq!(total_entries(&s, &cid), 0);
    assert_eq!(
        put_entry(&mut s, &a, vec![], vec![], &cid),
        Err(LedgerError::ChainNotFound)
    );
}

#[test]
fn chain_id_is_blake2s_of_external_ids() {
    // BLAKE2s-256 of "abc", the reference test vector for the digest the
    // chain id derivation relies on.
    let expected: [u8; 32] = [
        0x50, 0x8c, 0x5e, 0x8c, 0x32, 0x7c, 0x14, 0xe2, 0xe1, 0xa7, 0x2b, 0xa3, 0x4e, 0xeb, 0x45,
        0x2f, 0x37, 0x45, 0x8b, 0x20, 0x9e, 0xd6, 0x3a, 0x29, 0x4d, 0x99, 0x9b, 0x4c, 0x86, 0x67,
        0x59, 0x82,
    ];
    let cid = derive_chain_id(&vec![b'a', b'b', b'c']);
    assert_eq!(cid.0, expected);
}

#[test]
fn chain_id_depends_on_input() {
    let x = derive_chain_id(&vec![1u8, 2, 3]);
    let y = derive_chain_id(&vec![1u8, 2, 4]);
    let x2 = derive_chain_id(&vec![1u8, 2, 3]);
    assert!(id_eq(&x, &x2));
    assert!(!id_eq(&x, &y));
}

#[test]
fn error_messages_name_the_error() {
    assert_eq!(LedgerError::EntryTooLarge.message(), "EntryTooLarge");
    assert_eq!(LedgerError::ChainNotFound.message(), "ChainNotFound");
    assert_eq!(
        LedgerError::ChainAlreadyExists.message(),
        "ChainAlreadyExists"
    );
    assert_eq!(
        LedgerError::InsufficientCredits.message(),
        "InsufficientCredits"
    );
    assert_eq!(
        LedgerError::InsufficientBalance.message(),
        "InsufficientBalance"
    );
    assert_eq!(LedgerError::CounterOverflow.message(), "CounterOverflow");
    assert_eq!(LedgerError::BalanceOverflow.message(), "BalanceOverflow");
}
