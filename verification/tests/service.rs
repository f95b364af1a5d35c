//! Tests of chain-spec selection and the service argument vector.

use factomd::chain_spec::{make_genesis, Alternative, ENDOWMENT};
use factomd::config::{FactomConfig, Role};
use factomd::service::{create_substrate_args, load_spec, u16_to_decimal};

#[test]
fn decimal_rendering_is_exact() {
    assert_eq!(u16_to_decimal(0), "0");
    assert_eq!(u16_to_decimal(7), "7");
    assert_eq!(u16_to_decimal(10), "10");
    assert_eq!(u16_to_decimal(8088), "8088");
    assert_eq!(u16_to_decimal(30333), "30333");
    assert_eq!(u16_to_decimal(u16::MAX), "65535");
}

#[test]
fn substrate_args_for_default_config() {
    let config = FactomConfig::default();
    let args = create_substrate_args(&config, None);
    assert_eq!(
        args,
        vec!["_", "--bootnodes", "", "--port", "30333", "--chain=local"]
    );
}

#[test]
fn substrate_args_for_authority_with_base_path() {
    let mut config = FactomConfig::default();
    config.server.role = Role::AUTHORITY;
    config.server.base_path = "/tmp/db".to_string();
    config.server.network = "dev".to_string();
    config.server.port = 30334;
    let args = create_substrate_args(&config, Some("0xkey".to_string()));
    assert_eq!(
        args,
        vec![
            "_",
            "--validator",
            "--node-key",
            "0xkey",
            "--base-path",
            "/tmp/db",
            "--bootnodes",
            "",
            "--port",
            "30334",
            "--chain=dev"
        ]
    );
}

#[test]
fn alternative_from_network_ids() {
    assert_eq!(Alternative::from("dev"), Some(Alternative::Development));
    assert_eq!(Alternative::from(""), Some(Alternative::LocalTestnet));
    assert_eq!(Alternative::from("local"), Some(Alternative::LocalTestnet));
    assert_eq!(Alternative::from("mainnet"), None);
}

#[test]
fn development_spec_loads() {
    let spec = Alternative::Development.load().unwrap();
    assert_eq!(spec.name, "Development");
    assert_eq!(spec.id, "dev");
    assert!(spec.boot_nodes.is_empty());
    assert_eq!(spec.genesis.authorities, vec!["Alice"]);
    assert_eq!(spec.genesis.indices, vec!["Alice"]);
    assert_eq!(spec.genesis.balances, vec![("Alice".to_string(), ENDOWMENT)]);
    assert_eq!(spec.genesis.root_key, "Alice");
    assert_eq!(spec.genesis.minimum_period, 5);
    assert_eq!(spec.genesis.transaction_base_fee, 1);
    assert_eq!(spec.genesis.transaction_byte_fee, 0);
    assert_eq!(spec.genesis.existential_deposit, 500);
    assert_eq!(spec.genesis.transfer_fee, 0);
    assert_eq!(spec.genesis.creation_fee, 0);
}

#[test]
fn local_testnet_spec_loads() {
    let spec = Alternative::LocalTestnet.load().unwrap();
    assert_eq!(spec.name, "Local Testnet");
    assert_eq!(spec.id, "local_testnet");
    assert_eq!(spec.genesis.authorities, vec!["Alice", "Bob"]);
    assert_eq!(
        spec.genesis.indices,
        vec!["Alice", "Bob", "Charlie", "Dave", "Eve", "Ferdie"]
    );
    assert_eq!(spec.genesis.balances.len(), 6);
    for (name, amount) in &spec.genesis.balances {
        assert_eq!(spec.genesis.indices.contains(name), true);
        assert_eq!(*amount, ENDOWMENT);
    }
    assert_eq!(spec.genesis.root_key, "Alice");
}

#[test]
fn endowment_is_two_to_the_sixtieth() {
    assert_eq!(ENDOWMENT, 1u64 << 60);
}

#[test]
fn load_spec_resolves_ids() {
    let dev = load_spec("dev").unwrap().unwrap();
    assert_eq!(dev.id, "dev");
    let local = load_spec("local").unwrap().unwrap();
    assert_eq!(local.id, "local_testnet");
    let fallback = load_spec("").unwrap().unwrap();
    assert_eq!(fallback.id, "local_testnet");
    assert!(load_spec("mainnet").unwrap().is_none());
}

#[test]
fn make_genesis_endows_each_account() {
    let genesis = make_genesis(
        vec!["A".to_string()],
        vec!["A".to_string(), "B".to_string()],
        "A".to_string(),
    );
    assert_eq!(genesis.authorities, vec!["A"]);
    assert_eq!(genesis.indices, vec!["A", "B"]);
    assert_eq!(
        genesis.balances,
        vec![("A".to_string(), ENDOWMENT), ("B".to_string(), ENDOWMENT)]
    );
    assert_eq!(genesis.root_key, "A");
}
