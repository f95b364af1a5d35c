//! 32-byte identifiers for accounts and chains.

use vstd::prelude::*;

verus! {

/// Width in bytes of every identifier: chain ids are 32-byte hashes and
/// account ids are 32-byte public keys.
pub const ID_WIDTH: usize = 32;

/// A fixed-width identifier. A chain id is the 32-byte hash of the external
/// ids of the chain's first entry; an account id is the signer's 32-byte
/// public key, already authenticated by the host before the core is invoked.
#[derive(Clone, Copy, Debug, PartialEq, Eq)]
pub struct Id(pub [u8; 32]);

impl View for Id {
    type V = Seq<u8>;

    open spec fn view(&self) -> Seq<u8> {
        self.0@
    }
}

/// Byte-for-byte equality of two identifiers.
pub fn id_eq(a: &Id, b: &Id) -> (r: bool)
    ensures
        r == (a@ == b@),
{
    let mut i: usize = 0;
    while i < ID_WIDTH
        invariant
            i <= ID_WIDTH,
            forall|j: int| 0 <= j < i ==> a.0@[j] == b.0@[j],
        decreases ID_WIDTH - i,
    {
        if a.0[i] != b.0[i] {
            assert(a@[i as int] != b@[i as int]);
            return false;
        }
        i += 1;
    }
    assert(a.0@ =~= b.0@);
    true
}

} // verus!
