//! Chain specifications: the named network alternatives a node can join
//! and the genesis description of each.
//!
//! A specification is a plain-value description — network name and id,
//! authority and account seed names, and the genesis balance parameters.
//! Turning seed names into actual key pairs and feeding the description to
//! the block-production runtime is the host's job.

use vstd::prelude::*;

verus! {

/// The factoid endowment of every genesis account: 2 to the 60th power.
pub const ENDOWMENT: u64 = 0x1000_0000_0000_0000;

/// Alternatives available for the network.
#[derive(Clone, Copy, Debug, PartialEq, Eq, Structural)]
pub enum Alternative {
    /// A single authority node "Alice" for public networking availability.
    Development,
    /// Five public test accounts for localhost nodes, two authorities.
    LocalTestnet,
}

/// The genesis state description: who the initial authorities are, which
/// accounts exist with what endowment, the sudo root key, and the block
/// and fee parameters.
#[derive(Debug)]
pub struct GenesisSpec {
    /// Seed names of the initial block-production authorities.
    pub authorities: Vec<String>,
    /// Minimum period between blocks, in seconds.
    pub minimum_period: u64,
    /// Seed names of the accounts registered in the index at genesis.
    pub indices: Vec<String>,
    /// Base fee charged per transaction.
    pub transaction_base_fee: u64,
    /// Fee charged per transaction byte.
    pub transaction_byte_fee: u64,
    /// Minimum balance an account may hold.
    pub existential_deposit: u64,
    /// Fee charged per transfer.
    pub transfer_fee: u64,
    /// Fee charged per account creation.
    pub creation_fee: u64,
    /// Seed name and starting factoid balance of every endowed account.
    pub balances: Vec<(String, u64)>,
    /// Seed name of the sudo root key holder.
    pub root_key: String,
}

/// A chain specification: the network's display name and id, its
/// bootnodes, and its genesis description.
#[derive(Debug)]
pub struct ChainSpec {
    /// Human-readable network name.
    pub name: String,
    /// Network id, as given on the command line.
    pub id: String,
    /// Bootnodes to get into the network; none for the built-in networks.
    pub boot_nodes: Vec<String>,
    /// The genesis description.
    pub genesis: GenesisSpec,
}

/// Whether `g` is the genesis description with exactly the given authority
/// seeds, endowed account seeds and root key, and the fixed block and fee
/// parameters of the built-in networks.
pub open spec fn spec_genesis_names(
    g: GenesisSpec,
    authorities: Seq<Seq<char>>,
    endowed: Seq<Seq<char>>,
    root: Seq<char>,
) -> bool {
    &&& g.authorities@.len() == authorities.len()
    &&& forall|i: int| 0 <= i < authorities.len() ==> g.authorities@[i]@ == authorities[i]
    &&& g.minimum_period == 5
    &&& g.indices@.len() == endowed.len()
    &&& forall|i: int| 0 <= i < endowed.len() ==> g.indices@[i]@ == endowed[i]
    &&& g.transaction_base_fee == 1
    &&& g.transaction_byte_fee == 0
    &&& g.existential_deposit == 500
    &&& g.transfer_fee == 0
    &&& g.creation_fee == 0
    &&& g.balances@.len() == endowed.len()
    &&& forall|i: int|
        0 <= i < endowed.len() ==> (#[trigger] g.balances@[i]).0@ == endowed[i] && g.balances@[i].1
            == ENDOWMENT
    &&& g.root_key@ == root
}

/// Whether `cs` is the chain specification that [`Alternative::load`]
/// produces for `alt`.
pub open spec fn spec_chain_spec_of(alt: Alternative, cs: ChainSpec) -> bool {
    match alt {
        Alternative::Development => {
            &&& cs.name@ == "Development"@
            &&& cs.id@ == "dev"@
            &&& cs.boot_nodes@.len() == 0
            &&& spec_genesis_names(cs.genesis, seq!["Alice"@], seq!["Alice"@], "Alice"@)
        },
        Alternative::LocalTestnet => {
            &&& cs.name@ == "Local Testnet"@
            &&& cs.id@ == "local_testnet"@
            &&& cs.boot_nodes@.len() == 0
            &&& spec_genesis_names(
                cs.genesis,
                seq!["Alice"@, "Bob"@],
                seq!["Alice"@, "Bob"@, "Charlie"@, "Dave"@, "Eve"@, "Ferdie"@],
                "Alice"@,
            )
        },
    }
}

/// The alternative that a network id denotes, if any: the empty id falls
/// back to the local testnet.
pub open spec fn spec_alternative_from(s: Seq<char>) -> Option<Alternative> {
    if s == "dev"@ {
        Some(Alternative::Development)
    } else if s == ""@ || s == "local"@ {
        Some(Alternative::LocalTestnet)
    } else {
        None
    }
}

/// Make a hardcoded genesis description: the given authorities, the given
/// accounts each endowed with [`ENDOWMENT`] factoids, the given sudo root
/// key, and the fixed block and fee parameters.
pub fn make_genesis(
    initial_authorities: Vec<String>,
    endowed_accounts: Vec<String>,
    root_key: String,
) -> (r: GenesisSpec)
    ensures
        r.authorities == initial_authorities,
        r.minimum_period == 5,
        r.indices == endowed_accounts,
        r.transaction_base_fee == 1,
        r.transaction_byte_fee == 0,
        r.existential_deposit == 500,
        r.transfer_fee == 0,
        r.creation_fee == 0,
        r.balances@.len() == endowed_accounts@.len(),
        forall|i: int|
            0 <= i < endowed_accounts@.len() ==> (#[trigger] r.balances@[i]).0
                == endowed_accounts@[i] && r.balances@[i].1 == ENDOWMENT,
        r.root_key == root_key,
{
    let mut balances: Vec<(String, u64)> = Vec::new();
    let mut i: usize = 0;
    while i < endowed_accounts.len()
        invariant
            i <= endowed_accounts@.len(),
            balances@.len() == i,
            forall|k: int|
                0 <= k < i ==> (#[trigger] balances@[k]).0 == endowed_accounts@[k]
                    && balances@[k].1 == ENDOWMENT,
        decreases endowed_accounts@.len() - i,
    {
        balances.push((endowed_accounts[i].clone(), ENDOWMENT));
        i += 1;
    }
    GenesisSpec {
        authorities: initial_authorities,
        minimum_period: 5,
        indices: endowed_accounts,
        transaction_base_fee: 1,
        transaction_byte_fee: 0,
        existential_deposit: 500,
        transfer_fee: 0,
        creation_fee: 0,
        balances,
        root_key,
    }
}

impl Alternative {
    /// Get an actual chain specification from one of the alternatives.
    ///
    /// Alice has the root key for both networks.
    pub fn load(self) -> (r: Result<ChainSpec, String>)
        ensures
            r matches Ok(cs) && spec_chain_spec_of(self, cs),
    {
        match self {
            Alternative::Development => {
                let mut authorities: Vec<String> = Vec::new();
                authorities.push(String::from_str("Alice"));
                let mut accounts: Vec<String> = Vec::new();
                accounts.push(String::from_str("Alice"));
                let genesis = make_genesis(authorities, accounts, String::from_str("Alice"));
                Ok(
                    ChainSpec {
                        name: String::from_str("Development"),
                        id: String::from_str("dev"),
                        boot_nodes: Vec::new(),
                        genesis,
                    },
                )
            },
            Alternative::LocalTestnet => {
                let mut authorities: Vec<String> = Vec::new();
                authorities.push(String::from_str("Alice"));
                authorities.push(String::from_str("Bob"));
                let mut accounts: Vec<String> = Vec::new();
                accounts.push(String::from_str("Alice"));
                accounts.push(String::from_str("Bob"));
                accounts.push(String::from_str("Charlie"));
                accounts.push(String::from_str("Dave"));
                accounts.push(String::from_str("Eve"));
                accounts.push(String::from_str("Ferdie"));
                let genesis = make_genesis(authorities, accounts, String::from_str("Alice"));
                Ok(
                    ChainSpec {
                        name: String::from_str("Local Testnet"),
                        id: String::from_str("local_testnet"),
                        boot_nodes: Vec::new(),
                        genesis,
                    },
                )
            },
        }
    }

    /// Get the alternative that a network id from the configuration
    /// denotes, if any.
    pub fn from(s: &str) -> (r: Option<Alternative>)
        ensures
            r == spec_alternative_from(s@),
    {
        if crate::config::str_eq(s, "dev") {
            Some(Alternative::Development)
        } else if crate::config::str_eq(s, "") || crate::config::str_eq(s, "local") {
            Some(Alternative::LocalTestnet)
        } else {
            None
        }
    }
}

} // verus!
