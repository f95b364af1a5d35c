//! Service-facing helpers: selecting a chain specification from the
//! configured network id, and rendering the configuration into the
//! argument vector that the block-production service parses.
//!
//! The service itself — the runtime that produces blocks, gossips them and
//! stores them — is a surrounding collaborator; it consumes the plain
//! values produced here.

use vstd::prelude::*;

use crate::chain_spec::{spec_alternative_from, spec_chain_spec_of, Alternative, ChainSpec};
use crate::config::{FactomConfig, Role};

verus! {

/// The decimal digit character for `d`.
pub open spec fn spec_decimal_digit(d: int) -> char {
    if d == 0 {
        '0'
    } else if d == 1 {
        '1'
    } else if d == 2 {
        '2'
    } else if d == 3 {
        '3'
    } else if d == 4 {
        '4'
    } else if d == 5 {
        '5'
    } else if d == 6 {
        '6'
    } else if d == 7 {
        '7'
    } else if d == 8 {
        '8'
    } else {
        '9'
    }
}

/// The usual decimal rendering of a non-negative number: no sign, no
/// leading zeros except for zero itself.
pub open spec fn spec_decimal(n: int) -> Seq<char>
    decreases n,
{
    if n < 10 {
        seq![spec_decimal_digit(n)]
    } else {
        spec_decimal(n / 10).push(spec_decimal_digit(n % 10))
    }
}

/// The single-character string for decimal digit `d`.
fn decimal_digit_str(d: u16) -> (r: &'static str)
    requires
        d < 10,
    ensures
        r@ == seq![spec_decimal_digit(d as int)],
{
    proof {
        reveal_strlit("0");
        reveal_strlit("1");
        reveal_strlit("2");
        reveal_strlit("3");
        reveal_strlit("4");
        reveal_strlit("5");
        reveal_strlit("6");
        reveal_strlit("7");
        reveal_strlit("8");
        reveal_strlit("9");
    }
    let r: &'static str = match d {
        0 => "0",
        1 => "1",
        2 => "2",
        3 => "3",
        4 => "4",
        5 => "5",
        6 => "6",
        7 => "7",
        8 => "8",
        _ => "9",
    };
    proof {
        assert(r@ =~= seq![spec_decimal_digit(d as int)]);
    }
    r
}

/// Render a port number in decimal, as the service's command line expects
/// it.
pub fn u16_to_decimal(n: u16) -> (r: String)
    ensures
        r@ == spec_decimal(n as int),
    decreases n,
{
    if n < 10 {
        String::from_str(decimal_digit_str(n))
    } else {
        let mut prefix = u16_to_decimal(n / 10);
        prefix.append(decimal_digit_str(n % 10));
        proof {
            assert(prefix@ =~= spec_decimal(n as int));
        }
        prefix
    }
}

/// The argument vector that [`create_substrate_args`] produces for a
/// configuration and an optional node key.
pub open spec fn spec_substrate_args(config: FactomConfig, node_key: Option<String>) -> Seq<
    Seq<char>,
> {
    let validator_part: Seq<Seq<char>> = if config.server.role == Role::AUTHORITY {
        seq!["--validator"@, "--node-key"@, node_key->0@]
    } else {
        Seq::empty()
    };
    let base_path_part: Seq<Seq<char>> = if config.server.base_path@.len() == 0 {
        Seq::empty()
    } else {
        seq!["--base-path"@, config.server.base_path@]
    };
    seq!["_"@] + validator_part + base_path_part + seq![
        "--bootnodes"@,
        config.server.bootnodes@,
        "--port"@,
        spec_decimal(config.server.port as int),
        "--chain="@ + config.server.network@,
    ]
}

/// Turn the node configuration into the argument vector for the
/// block-production service's own command-line parser: the network to
/// join, the node key and validator mode when in the authority role, and
/// the networking settings.
///
/// `node_key` is the key that the host read from the environment variable
/// the configuration names; a node in the authority role must have one.
pub fn create_substrate_args(factom_config: &FactomConfig, node_key: Option<String>) -> (r: Vec<
    String,
>)
    requires
        factom_config.server.role == Role::AUTHORITY ==> node_key is Some,
    ensures
        r.deep_view() == spec_substrate_args(*factom_config, node_key),
{
    let ghost expected = spec_substrate_args(*factom_config, node_key);
    let mut args: Vec<String> = Vec::new();
    args.push(String::from_str("_"));

    if matches!(factom_config.server.role, Role::AUTHORITY) {
        let key = node_key.unwrap();
        args.push(String::from_str("--validator"));
        args.push(String::from_str("--node-key"));
        args.push(key);
    }

    if !factom_config.server.base_path.as_str().is_empty() {
        args.push(String::from_str("--base-path"));
        args.push(factom_config.server.base_path.clone());
    }

    args.push(String::from_str("--bootnodes"));
    args.push(factom_config.server.bootnodes.clone());

    args.push(String::from_str("--port"));
    args.push(u16_to_decimal(factom_config.server.port));

    args.push(String::from_str("--chain=").concat(factom_config.server.network.as_str()));

    proof {
        assert(args.deep_view() =~= expected);
    }
    args
}

/// Resolve a network id to its chain specification: the id of a built-in
/// alternative loads that alternative, any other id resolves to nothing.
pub fn load_spec(id: &str) -> (r: Result<Option<ChainSpec>, String>)
    ensures
        match spec_alternative_from(id@) {
            Some(alt) => r matches Ok(o) && o matches Some(cs) && spec_chain_spec_of(alt, cs),
            None => r matches Ok(o) && o is None,
        },
{
    match Alternative::from(id) {
        Some(spec) => match spec.load() {
            Ok(cs) => Ok(Some(cs)),
            Err(e) => Err(e),
        },
        None => Ok(None),
    }
}

} // verus!
