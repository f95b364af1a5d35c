//! The entry ledger: chain identity and the append-only entries per chain.
//!
//! Entry data is stored as plain byte vectors; the client performs whatever
//! encoding it wants before submission. A chain's identity is derived from
//! the external ids of its first entry, so clients can predict a chain id
//! before submitting it. Writing costs entry credits: one credit per
//! appended entry, two for establishing a new chain.

use vstd::prelude::*;

use blake2::digest::Digest;
use blake2::Blake2s256;

use crate::entry_credit::spend_entry_credits;
use crate::error::LedgerError;
use crate::id::Id;
use crate::store::{find_chain, find_chain_index, ChainRecord, Store};

verus! {

/// The combined-size cap on one entry's content plus external ids, in
/// bytes: a coarse anti-spam and fee-sizing control.
pub const MAX_ENTRY_BYTES: usize = 1024;

/// The charge, in entry credits, for appending one entry to an existing
/// chain.
pub const ENTRY_COST: u64 = 1;

/// The charge, in entry credits, for creating a new chain with its first
/// entry: double the per-entry cost, reflecting the additional cost of
/// establishing a chain.
pub const CHAIN_COST: u64 = 2;

/// Entry data as stored on chain: opaque content bytes, opaque external-id
/// bytes, and the id of the chain the entry belongs to.
#[derive(Debug, PartialEq)]
pub struct EntryStruct {
    /// Content of arbitrary kind, already encoded to bytes by the caller.
    pub content: Vec<u8>,
    /// Caller-supplied metadata; also the hash preimage of the chain id
    /// when the entry is the first of a new chain.
    pub external_ids: Vec<u8>,
    /// The 32-byte id of the chain this entry belongs to.
    pub chain_id: Id,
}

/// The 32-byte chain id that the hash function derives from a sequence of
/// external-id bytes. The digest itself is computed by an outside
/// implementation; the core relies on it being a function of the input
/// bytes alone.
pub uninterp spec fn chain_id_of(external_ids: Seq<u8>) -> Seq<u8>;

/// Relies on `blake2::Blake2s256` via `digest::Digest::digest`: a 32-byte
/// BLAKE2s digest of the input, a function of the input bytes alone.
#[verifier::external_body]
fn blake2s_256(data: &Vec<u8>) -> (r: [u8; 32])
    ensures
        r@ == chain_id_of(data@),
{
    Blake2s256::digest(data.as_slice()).into()
}

/// Derive the chain id that a chain with first external ids `external_ids`
/// has. Two calls with identical bytes always yield the same id: this is
/// the content-addressing rule that lets a client predict a chain's
/// identity before submission.
pub fn derive_chain_id(external_ids: &Vec<u8>) -> (r: Id)
    ensures
        r@ == chain_id_of(external_ids@),
{
    Id(blake2s_256(external_ids))
}

/// Check the combined-size cap: the content and external ids of one entry
/// may hold at most [`MAX_ENTRY_BYTES`] bytes together.
pub fn validate_entry_data(content: &Vec<u8>, ext_ids: &Vec<u8>) -> (r: Result<(), LedgerError>)
    ensures
        r == if content@.len() + ext_ids@.len() <= MAX_ENTRY_BYTES {
            Result::<(), LedgerError>::Ok(())
        } else {
            Result::<(), LedgerError>::Err(LedgerError::EntryTooLarge)
        },
{
    if content.len() <= MAX_ENTRY_BYTES && ext_ids.len() <= MAX_ENTRY_BYTES - content.len() {
        Ok(())
    } else {
        Err(LedgerError::EntryTooLarge)
    }
}

/// The exact outcome of [`put_entry`] on a given store, in the order the
/// checks are made: the size cap, the chain's existence, the credit
/// charge, then the entry counter.
pub open spec fn put_entry_check(
    pre: Store,
    sender: Seq<u8>,
    content: Seq<u8>,
    external_ids: Seq<u8>,
    chain_id: Seq<u8>,
) -> Result<(), LedgerError> {
    if content.len() + external_ids.len() > MAX_ENTRY_BYTES {
        Err(LedgerError::EntryTooLarge)
    } else if !pre.chain_exists(chain_id) {
        Err(LedgerError::ChainNotFound)
    } else if pre.credits_of(sender) < ENTRY_COST {
        Err(LedgerError::InsufficientCredits)
    } else if pre.entry_count(chain_id) == u64::MAX {
        Err(LedgerError::CounterOverflow)
    } else {
        Ok(())
    }
}

/// What a successful [`put_entry`] does to the store: the chain's counter
/// steps to `k + 1`, the new entry sits at sequence number `k + 1`, every
/// earlier entry and every other chain is untouched, and the signer paid
/// [`ENTRY_COST`].
pub open spec fn put_entry_ok(
    pre: Store,
    post: Store,
    sender: Seq<u8>,
    content: Seq<u8>,
    external_ids: Seq<u8>,
    chain_id: Seq<u8>,
) -> bool {
    let k = pre.entry_count(chain_id);
    &&& post.chain_exists(chain_id)
    &&& post.entry_count(chain_id) == k + 1
    &&& (post.spec_entry(chain_id, k + 1) matches Some(e) && e.content@ == content
        && e.external_ids@ == external_ids && e.chain_id@ == chain_id)
    &&& forall|i: int| 1 <= i <= k ==> post.spec_entry(chain_id, i) == pre.spec_entry(chain_id, i)
    &&& forall|c: Seq<u8>|
        c != chain_id ==> find_chain(post.chains@, c) == find_chain(pre.chains@, c)
    &&& post.credits_of(sender) == pre.credits_of(sender) - ENTRY_COST
    &&& forall|a: Seq<u8>| a != sender ==> post.credits_of(a) == pre.credits_of(a)
    &&& post.tokens == pre.tokens
}

/// Append an entry to an existing chain.
///
/// The signer must hold a chain id: the chain must already exist. The
/// operation charges the signer [`ENTRY_COST`] credit and stores the entry
/// under the next sequence number. It is atomic: either the credit debit
/// and the entry write both happen, or neither does.
pub fn put_entry(
    store: &mut Store,
    sender: &Id,
    content: Vec<u8>,
    external_ids: Vec<u8>,
    chain_id: &Id,
) -> (r: Result<(), LedgerError>)
    requires
        old(store).wf(),
    ensures
        final(store).wf(),
        r == put_entry_check(*old(store), sender@, content@, external_ids@, chain_id@),
        r is Ok ==> put_entry_ok(
            *old(store),
            *final(store),
            sender@,
            content@,
            external_ids@,
            chain_id@,
        ),
        r is Err ==> *final(store) == *old(store),
{
    if let Err(e) = validate_entry_data(&content, &external_ids) {
        return Err(e);
    }
    let j = match find_chain_index(&store.chains, chain_id) {
        Some(j) => j,
        None => {
            return Err(LedgerError::ChainNotFound);
        },
    };
    let entries_total = store.chains[j].count;
    if crate::entry_credit::ec_balance(store, sender) < ENTRY_COST {
        return Err(LedgerError::InsufficientCredits);
    }
    if entries_total == u64::MAX {
        return Err(LedgerError::CounterOverflow);
    }
    let incr_entries_total = entries_total + 1;
    let spent = spend_entry_credits(store, sender, ENTRY_COST);
    assert(spent is Ok);
    let new_entry = EntryStruct { content, external_ids, chain_id: *chain_id };
    let rec = &mut store.chains[j];
    rec.count = incr_entries_total;
    rec.entries.push(new_entry);
    proof {
        let chains_mid = old(store).chains@;
        let updated = store.chains@[j as int];
        assert(store.chains@ == chains_mid.update(j as int, updated));
        assert forall|c: Seq<u8>| true implies find_chain(store.chains@, c) == if c
            == updated.chain_id@ {
            Some(updated)
        } else {
            find_chain(chains_mid, c)
        } by {
            lemma_find_chain_update_all(chains_mid, j as int, updated, c);
        }
        assert(updated.entries@ == chains_mid[j as int].entries@.push(new_entry));
        assert(updated.wf());
    }
    Ok(())
}

/// The exact outcome of [`put_chain`] on a given store, in the order the
/// checks are made: the size cap, the collision check against the derived
/// chain id, then the credit charge.
pub open spec fn put_chain_check(
    pre: Store,
    sender: Seq<u8>,
    content: Seq<u8>,
    external_ids: Seq<u8>,
) -> Result<(), LedgerError> {
    let c = chain_id_of(external_ids);
    if content.len() + external_ids.len() > MAX_ENTRY_BYTES {
        Err(LedgerError::EntryTooLarge)
    } else if pre.chain_exists(c) {
        Err(LedgerError::ChainAlreadyExists)
    } else if pre.credits_of(sender) < CHAIN_COST {
        Err(LedgerError::InsufficientCredits)
    } else {
        Ok(())
    }
}

/// What a successful [`put_chain`] does to the store: the chain derived
/// from the external ids comes into existence with exactly the first entry
/// at sequence number 1, every other chain is untouched, and the signer
/// paid [`CHAIN_COST`].
pub open spec fn put_chain_ok(
    pre: Store,
    post: Store,
    sender: Seq<u8>,
    content: Seq<u8>,
    external_ids: Seq<u8>,
) -> bool {
    let c = chain_id_of(external_ids);
    &&& !pre.chain_exists(c)
    &&& post.chain_exists(c)
    &&& post.entry_count(c) == 1
    &&& (post.spec_entry(c, 1) matches Some(e) && e.content@ == content && e.external_ids@
        == external_ids && e.chain_id@ == c)
    &&& forall|d: Seq<u8>| d != c ==> find_chain(post.chains@, d) == find_chain(pre.chains@, d)
    &&& post.credits_of(sender) == pre.credits_of(sender) - CHAIN_COST
    &&& forall|a: Seq<u8>| a != sender ==> post.credits_of(a) == pre.credits_of(a)
    &&& post.tokens == pre.tokens
}

/// Create a new chain from its first entry.
///
/// The chain id is derived deterministically as the hash of the external
/// ids, so two submissions with identical external ids target the same
/// chain and the second collides. The operation charges the signer
/// [`CHAIN_COST`] credits and, on success, stores the first entry at
/// sequence number 1 with the entry count set to 1. It is atomic: either
/// the credit debit and the writes all happen, or nothing does.
pub fn put_chain(store: &mut Store, sender: &Id, content: Vec<u8>, external_ids: Vec<u8>) -> (r:
    Result<(), LedgerError>)
    requires
        old(store).wf(),
    ensures
        final(store).wf(),
        r == put_chain_check(*old(store), sender@, content@, external_ids@),
        r is Ok ==> put_chain_ok(*old(store), *final(store), sender@, content@, external_ids@),
        r is Err ==> *final(store) == *old(store),
{
    if let Err(e) = validate_entry_data(&content, &external_ids) {
        return Err(e);
    }
    let chain_id = derive_chain_id(&external_ids);
    if let Some(_j) = find_chain_index(&store.chains, &chain_id) {
        return Err(LedgerError::ChainAlreadyExists);
    }
    if let Err(e) = spend_entry_credits(store, sender, CHAIN_COST) {
        return Err(e);
    }
    let new_entry = EntryStruct { content, external_ids, chain_id };
    let mut entries = Vec::new();
    entries.push(new_entry);
    let rec = ChainRecord { chain_id, count: 1, entries };
    store.chains.push(rec);
    proof {
        let chains_mid = old(store).chains@;
        let pushed = store.chains@[chains_mid.len() as int];
        assert(store.chains@ == chains_mid.push(pushed));
        assert forall|c: Seq<u8>| true implies find_chain(store.chains@, c) == match find_chain(
            chains_mid,
            c,
        ) {
            Some(r) => Some(r),
            None => if pushed.chain_id@ == c {
                Some(pushed)
            } else {
                None
            },
        } by {
            crate::store::lemma_find_chain_push(chains_mid, pushed, c);
        }
        assert(pushed.wf());
    }
    Ok(())
}

/// The chain's current highest sequence number; zero for a chain that does
/// not exist.
pub fn total_entries(store: &Store, chain_id: &Id) -> (r: u64)
    ensures
        r == store.entry_count(chain_id@),
{
    match find_chain_index(&store.chains, chain_id) {
        Some(j) => store.chains[j].count,
        None => 0,
    }
}

/// The entry stored on `chain_id` at 1-based sequence number `seq_no`, if
/// one exists.
pub fn entry_data<'a>(store: &'a Store, chain_id: &Id, seq_no: u64) -> (r: Option<
    &'a EntryStruct,
>)
    requires
        store.wf(),
    ensures
        match r {
            Some(e) => store.spec_entry(chain_id@, seq_no as int) == Some(*e),
            None => store.spec_entry(chain_id@, seq_no as int) is None,
        },
{
    match find_chain_index(&store.chains, chain_id) {
        Some(j) => {
            let rec = &store.chains[j];
            let len = rec.entries.len();
            proof {
                assert(store.chains@[j as int].wf());
                assert(rec.count as int == len as int);
            }
            if 1 <= seq_no && seq_no <= rec.count {
                let idx = (seq_no - 1) as usize;
                proof {
                    assert(seq_no as int - 1 < len as int);
                    assert(idx as int == seq_no as int - 1);
                }
                Some(&rec.entries[idx])
            } else {
                None
            }
        },
        None => None,
    }
}

/// Forwards [`crate::store::lemma_find_chain_update`] for a single key so
/// it can be applied under a `forall`.
proof fn lemma_find_chain_update_all(s: Seq<ChainRecord>, j: int, rec: ChainRecord, c: Seq<u8>)
    requires
        0 <= j < s.len(),
        s[j].chain_id@ == rec.chain_id@,
        forall|i: int| 0 <= i < j ==> s[i].chain_id@ != rec.chain_id@,
    ensures
        find_chain(s.update(j, rec), c) == if c == rec.chain_id@ {
            Some(rec)
        } else {
            find_chain(s, c)
        },
{
    crate::store::lemma_find_chain_update(s, j, rec, c);
}

/// Content addressing makes duplicate chains impossible: once a chain
/// creation with external ids `external_ids` has succeeded, any further
/// creation with the same external ids — whatever its content and whoever
/// signs it, as long as it passes the size cap — targets the same chain id
/// and is refused as a collision.
pub proof fn lemma_duplicate_chain_rejected(
    s0: Store,
    s1: Store,
    sender1: Seq<u8>,
    content1: Seq<u8>,
    sender2: Seq<u8>,
    content2: Seq<u8>,
    external_ids: Seq<u8>,
)
    requires
        put_chain_ok(s0, s1, sender1, content1, external_ids),
        content2.len() + external_ids.len() <= MAX_ENTRY_BYTES,
    ensures
        put_chain_check(s1, sender2, content2, external_ids) == Err::<(), LedgerError>(
            LedgerError::ChainAlreadyExists,
        ),
{
}

/// Appending is counted, never idempotent: two successful appends to the
/// same chain take its count from `k` to exactly `k + 2`, the first call's
/// entry stays at `k + 1`, and the second call's entry lands at `k + 2`
/// rather than overwriting it.
pub proof fn lemma_append_appends(
    s0: Store,
    s1: Store,
    s2: Store,
    sender1: Seq<u8>,
    content1: Seq<u8>,
    ext1: Seq<u8>,
    sender2: Seq<u8>,
    content2: Seq<u8>,
    ext2: Seq<u8>,
    chain_id: Seq<u8>,
)
    requires
        put_entry_ok(s0, s1, sender1, content1, ext1, chain_id),
        put_entry_ok(s1, s2, sender2, content2, ext2, chain_id),
    ensures
        s2.entry_count(chain_id) == s0.entry_count(chain_id) + 2,
        s2.spec_entry(chain_id, s0.entry_count(chain_id) + 1) == s1.spec_entry(
            chain_id,
            s0.entry_count(chain_id) + 1,
        ),
        (s2.spec_entry(chain_id, s0.entry_count(chain_id) + 1) matches Some(e) && e.content@
            == content1 && e.external_ids@ == ext1),
        (s2.spec_entry(chain_id, s0.entry_count(chain_id) + 2) matches Some(e) && e.content@
            == content2 && e.external_ids@ == ext2),
{
}

/// An oversize entry is always refused, with no effect at all: whenever
/// the combined size of content and external ids exceeds the cap, the
/// append reports [`LedgerError::EntryTooLarge`] and the store — in
/// particular the chain's entry count and the signer's credit balance —
/// stays exactly as it was.
pub proof fn lemma_oversize_entry_rejected(
    pre: Store,
    post: Store,
    sender: Seq<u8>,
    content: Seq<u8>,
    external_ids: Seq<u8>,
    chain_id: Seq<u8>,
    r: Result<(), LedgerError>,
)
    requires
        content.len() + external_ids.len() > MAX_ENTRY_BYTES,
        r == put_entry_check(pre, sender, content, external_ids, chain_id),
        r is Err ==> post == pre,
    ensures
        r == Err::<(), LedgerError>(LedgerError::EntryTooLarge),
        post == pre,
        post.entry_count(chain_id) == pre.entry_count(chain_id),
        post.credits_of(sender) == pre.credits_of(sender),
{
}

} // verus!
