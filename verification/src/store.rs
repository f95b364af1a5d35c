//! The ledger store: the state that the transition functions read and write.
//!
//! The host runtime supplies a transactional key-value store; this module
//! models it as an explicit value passed by reference into every operation,
//! so that each test can construct an isolated store. It holds the three
//! mappings of the core: per-chain entry sequences with their counters,
//! per-account entry-credit balances, and per-account factoid balances.
//! A balance that was never written is zero; a chain that was never created
//! has entry count zero and no entries.

use vstd::prelude::*;

use crate::entry::EntryStruct;
use crate::id::{id_eq, Id};

verus! {

/// One account's balance row. The same row type serves the entry-credit
/// table and the factoid table.
#[derive(Clone, Copy, Debug)]
pub struct Account {
    /// The account's identity.
    pub id: Id,
    /// The unsigned balance; never negative by construction.
    pub balance: u64,
}

/// One chain: its content-derived identity, its entry counter, and its
/// append-only entry sequence. The entry stored at 1-based sequence number
/// `n` sits at index `n - 1` of `entries`.
#[derive(Debug)]
pub struct ChainRecord {
    /// The 32-byte hash that identifies the chain.
    pub chain_id: Id,
    /// The highest sequence number used so far; equals `entries.len()`.
    pub count: u64,
    /// The entries of the chain, in append order.
    pub entries: Vec<EntryStruct>,
}

impl ChainRecord {
    /// The record's internal invariant: the counter agrees with the stored
    /// entries, and every entry carries the chain's own id.
    pub open spec fn wf(self) -> bool {
        &&& self.count == self.entries@.len()
        &&& forall|i: int|
            0 <= i < self.entries@.len() ==> (#[trigger] self.entries@[i]).chain_id@
                == self.chain_id@
    }
}

/// The whole ledger state.
#[derive(Debug)]
pub struct Store {
    /// All chains that exist, each with its entries and counter.
    pub chains: Vec<ChainRecord>,
    /// Entry-credit balances by account.
    pub credits: Vec<Account>,
    /// Factoid balances by account.
    pub tokens: Vec<Account>,
}

/// The first row of `s` whose account id is `id`, if any.
pub open spec fn find_account(s: Seq<Account>, id: Seq<u8>) -> Option<Account>
    decreases s.len(),
{
    if s.len() == 0 {
        None
    } else if s[0].id@ == id {
        Some(s[0])
    } else {
        find_account(s.drop_first(), id)
    }
}

/// The balance recorded for `id` in `s`; zero when no row exists.
pub open spec fn balance_in(s: Seq<Account>, id: Seq<u8>) -> u64 {
    match find_account(s, id) {
        Some(a) => a.balance,
        None => 0,
    }
}

/// The first record of `s` whose chain id is `id`, if any.
pub open spec fn find_chain(s: Seq<ChainRecord>, id: Seq<u8>) -> Option<ChainRecord>
    decreases s.len(),
{
    if s.len() == 0 {
        None
    } else if s[0].chain_id@ == id {
        Some(s[0])
    } else {
        find_chain(s.drop_first(), id)
    }
}

impl Store {
    /// The store's internal invariant: every chain record is well formed.
    pub open spec fn wf(self) -> bool {
        forall|i: int| 0 <= i < self.chains@.len() ==> (#[trigger] self.chains@[i]).wf()
    }

    /// The entry-credit balance of `who`; zero for an account never credited.
    pub open spec fn credits_of(self, who: Seq<u8>) -> u64 {
        balance_in(self.credits@, who)
    }

    /// The factoid balance of `who`; zero for an account never endowed.
    pub open spec fn tokens_of(self, who: Seq<u8>) -> u64 {
        balance_in(self.tokens@, who)
    }

    /// Whether the chain identified by `chain` has been created.
    pub open spec fn chain_exists(self, chain: Seq<u8>) -> bool {
        find_chain(self.chains@, chain) is Some
    }

    /// The chain's current highest sequence number; zero for a chain that
    /// does not exist.
    pub open spec fn entry_count(self, chain: Seq<u8>) -> u64 {
        match find_chain(self.chains@, chain) {
            Some(r) => r.count,
            None => 0,
        }
    }

    /// The entry stored on `chain` at 1-based sequence number `seq_no`,
    /// if one exists.
    pub open spec fn spec_entry(self, chain: Seq<u8>, seq_no: int) -> Option<EntryStruct> {
        match find_chain(self.chains@, chain) {
            Some(r) => if 1 <= seq_no <= r.entries@.len() {
                Some(r.entries@[seq_no - 1])
            } else {
                None
            },
            None => None,
        }
    }

    /// An empty ledger: no chains, every balance zero.
    pub fn new() -> (s: Store)
        ensures
            s.wf(),
            forall|a: Seq<u8>| s.credits_of(a) == 0,
            forall|a: Seq<u8>| s.tokens_of(a) == 0,
            forall|c: Seq<u8>| !s.chain_exists(c),
            forall|c: Seq<u8>| s.entry_count(c) == 0,
    {
        Store { chains: Vec::new(), credits: Vec::new(), tokens: Vec::new() }
    }
}

/// Looking a key up in a row sequence extended by one row finds the old
/// result if there was one, and otherwise the new row exactly when it
/// carries the key.
pub(crate) proof fn lemma_find_account_push(s: Seq<Account>, acc: Account, id: Seq<u8>)
    ensures
        find_account(s.push(acc), id) == match find_account(s, id) {
            Some(a) => Some(a),
            None => if acc.id@ == id {
                Some(acc)
            } else {
                None
            },
        },
    decreases s.len(),
{
    if s.len() == 0 {
        assert(s.push(acc)[0] == acc);
        assert(s.push(acc).drop_first() =~= Seq::<Account>::empty());
    } else {
        assert(s.push(acc)[0] == s[0]);
        assert(s.push(acc).drop_first() =~= s.drop_first().push(acc));
        lemma_find_account_push(s.drop_first(), acc, id);
    }
}

/// Replacing the first row that carries a key changes lookups of that key
/// to the new row and leaves every other lookup unchanged.
pub(crate) proof fn lemma_find_account_update(s: Seq<Account>, j: int, acc: Account, id: Seq<u8>)
    requires
        0 <= j < s.len(),
        s[j].id@ == acc.id@,
        forall|i: int| 0 <= i < j ==> s[i].id@ != acc.id@,
    ensures
        find_account(s.update(j, acc), id) == if id == acc.id@ {
            Some(acc)
        } else {
            find_account(s, id)
        },
    decreases j,
{
    if j == 0 {
        assert(s.update(0, acc)[0] == acc);
        assert(s.update(0, acc).drop_first() =~= s.drop_first());
    } else {
        assert(s.update(j, acc)[0] == s[0]);
        assert(s.update(j, acc).drop_first() =~= s.drop_first().update(j - 1, acc));
        lemma_find_account_update(s.drop_first(), j - 1, acc, id);
    }
}

/// A key whose first occurrence is at index `j` is found there.
pub(crate) proof fn lemma_find_account_at(s: Seq<Account>, j: int)
    requires
        0 <= j < s.len(),
        forall|i: int| 0 <= i < j ==> s[i].id@ != s[j].id@,
    ensures
        find_account(s, s[j].id@) == Some(s[j]),
    decreases j,
{
    if j > 0 {
        lemma_find_account_at(s.drop_first(), j - 1);
    }
}

/// A key that occurs in no row is not found.
pub(crate) proof fn lemma_find_account_absent(s: Seq<Account>, id: Seq<u8>)
    requires
        forall|i: int| 0 <= i < s.len() ==> (#[trigger] s[i].id)@ != id,
    ensures
        find_account(s, id) is None,
    decreases s.len(),
{
    if s.len() > 0 {
        lemma_find_account_absent(s.drop_first(), id);
    }
}

/// As [`lemma_find_account_push`], for chain records.
pub(crate) proof fn lemma_find_chain_push(s: Seq<ChainRecord>, rec: ChainRecord, id: Seq<u8>)
    ensures
        find_chain(s.push(rec), id) == match find_chain(s, id) {
            Some(r) => Some(r),
            None => if rec.chain_id@ == id {
                Some(rec)
            } else {
                None
            },
        },
    decreases s.len(),
{
    if s.len() == 0 {
        assert(s.push(rec)[0] == rec);
        assert(s.push(rec).drop_first() =~= Seq::<ChainRecord>::empty());
    } else {
        assert(s.push(rec)[0] == s[0]);
        assert(s.push(rec).drop_first() =~= s.drop_first().push(rec));
        lemma_find_chain_push(s.drop_first(), rec, id);
    }
}

/// As [`lemma_find_account_update`], for chain records.
pub(crate) proof fn lemma_find_chain_update(s: Seq<ChainRecord>, j: int, rec: ChainRecord, id: Seq<u8>)
    requires
        0 <= j < s.len(),
        s[j].chain_id@ == rec.chain_id@,
        forall|i: int| 0 <= i < j ==> s[i].chain_id@ != rec.chain_id@,
    ensures
        find_chain(s.update(j, rec), id) == if id == rec.chain_id@ {
            Some(rec)
        } else {
            find_chain(s, id)
        },
    decreases j,
{
    if j == 0 {
        assert(s.update(0, rec)[0] == rec);
        assert(s.update(0, rec).drop_first() =~= s.drop_first());
    } else {
        assert(s.update(j, rec)[0] == s[0]);
        assert(s.update(j, rec).drop_first() =~= s.drop_first().update(j - 1, rec));
        lemma_find_chain_update(s.drop_first(), j - 1, rec, id);
    }
}

/// As [`lemma_find_account_at`], for chain records.
pub(crate) proof fn lemma_find_chain_at(s: Seq<ChainRecord>, j: int)
    requires
        0 <= j < s.len(),
        forall|i: int| 0 <= i < j ==> s[i].chain_id@ != s[j].chain_id@,
    ensures
        find_chain(s, s[j].chain_id@) == Some(s[j]),
    decreases j,
{
    if j > 0 {
        lemma_find_chain_at(s.drop_first(), j - 1);
    }
}

/// As [`lemma_find_account_absent`], for chain records.
pub(crate) proof fn lemma_find_chain_absent(s: Seq<ChainRecord>, id: Seq<u8>)
    requires
        forall|i: int| 0 <= i < s.len() ==> (#[trigger] s[i].chain_id)@ != id,
    ensures
        find_chain(s, id) is None,
    decreases s.len(),
{
    if s.len() > 0 {
        lemma_find_chain_absent(s.drop_first(), id);
    }
}

/// The index of the first balance row for `who`, if any row exists.
pub(crate) fn find_account_index(v: &Vec<Account>, who: &Id) -> (r: Option<usize>)
    ensures
        match r {
            Some(j) => {
                &&& j < v@.len()
                &&& v@[j as int].id@ == who@
                &&& forall|i: int| 0 <= i < j ==> v@[i].id@ != who@
                &&& find_account(v@, who@) == Some(v@[j as int])
            },
            None => find_account(v@, who@) is None,
        },
{
    let mut i: usize = 0;
    while i < v.len()
        invariant
            i <= v@.len(),
            forall|k: int| 0 <= k < i ==> v@[k].id@ != who@,
        decreases v@.len() - i,
    {
        if id_eq(&v[i].id, who) {
            proof {
                lemma_find_account_at(v@, i as int);
            }
            return Some(i);
        }
        i += 1;
    }
    proof {
        lemma_find_account_absent(v@, who@);
    }
    None
}

/// The balance recorded for `who`; zero when no row exists.
pub(crate) fn get_balance(v: &Vec<Account>, who: &Id) -> (r: u64)
    ensures
        r == balance_in(v@, who@),
{
    match find_account_index(v, who) {
        Some(j) => v[j].balance,
        None => 0,
    }
}

/// Record `new_balance` for `who`, leaving every other account's balance
/// as it was.
pub(crate) fn set_balance(v: &mut Vec<Account>, who: &Id, new_balance: u64)
    ensures
        balance_in(final(v)@, who@) == new_balance,
        forall|a: Seq<u8>| a != who@ ==> balance_in(final(v)@, a) == balance_in(old(v)@, a),
{
    match find_account_index(v, who) {
        Some(j) => {
            let row = Account { id: v[j].id, balance: new_balance };
            v[j] = row;
            proof {
                assert forall|a: Seq<u8>| true implies find_account(v@, a) == if a == row.id@ {
                    Some(row)
                } else {
                    find_account(old(v)@, a)
                } by {
                    lemma_find_account_update(old(v)@, j as int, row, a);
                }
            }
        },
        None => {
            let row = Account { id: *who, balance: new_balance };
            v.push(row);
            proof {
                assert forall|a: Seq<u8>| true implies find_account(v@, a) == match find_account(
                    old(v)@,
                    a,
                ) {
                    Some(x) => Some(x),
                    None => if row.id@ == a {
                        Some(row)
                    } else {
                        None
                    },
                } by {
                    lemma_find_account_push(old(v)@, row, a);
                }
            }
        },
    }
}

/// The index of the record for chain `chain_id`, if the chain exists.
pub(crate) fn find_chain_index(v: &Vec<ChainRecord>, chain_id: &Id) -> (r: Option<usize>)
    ensures
        match r {
            Some(j) => {
                &&& j < v@.len()
                &&& v@[j as int].chain_id@ == chain_id@
                &&& forall|i: int| 0 <= i < j ==> v@[i].chain_id@ != chain_id@
                &&& find_chain(v@, chain_id@) == Some(v@[j as int])
            },
            None => find_chain(v@, chain_id@) is None,
        },
{
    let mut i: usize = 0;
    while i < v.len()
        invariant
            i <= v@.len(),
            forall|k: int| 0 <= k < i ==> v@[k].chain_id@ != chain_id@,
        decreases v@.len() - i,
    {
        if id_eq(&v[i].chain_id, chain_id) {
            proof {
                lemma_find_chain_at(v@, i as int);
            }
            return Some(i);
        }
        i += 1;
    }
    proof {
        lemma_find_chain_absent(v@, chain_id@);
    }
    None
}

} // verus!
