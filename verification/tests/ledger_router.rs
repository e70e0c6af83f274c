use indy_besu_vdr::error::VdrError;
use indy_besu_vdr::ffi::client::LedgerClient as FfiLedgerClient;
use indy_besu_vdr::ffi::ledger_router::{LedgerConfiguration, LedgerRouter as FfiLedgerRouter};
use indy_besu_vdr::ledger_router::{
    gather_ping_statuses, LedgerClientConfig, LedgerConfigs, LedgerMode, LedgerResult, LedgerRouter,
};
use indy_besu_vdr::text::split_on;
use indy_besu_vdr::types::{ContractConfig, QuorumConfig};

fn mock_client_config(network: &str) -> LedgerClientConfig {
    LedgerClientConfig {
        chain_id: 1337,
        rpc_node: "http://localhost:8545".to_string(),
        contract_configs: vec![],
        network: Some(network.to_string()),
        quorum_config: None,
    }
}

fn setup_router_config_mode() -> LedgerRouter {
    let mut configs = LedgerConfigs::new();
    configs.insert("mainnet".to_string(), mock_client_config("mainnet"));
    configs.insert("testnet".to_string(), mock_client_config("testnet"));

    LedgerRouter::new(configs, Some("mainnet"), Some(LedgerMode::ConfigOnly))
}

fn setup_router_client_mode() -> LedgerRouter {
    let mut configs = LedgerConfigs::new();
    configs.insert("mainnet".to_string(), mock_client_config("mainnet"));
    configs.insert("testnet".to_string(), mock_client_config("testnet"));

    LedgerRouter::new(configs, Some("mainnet"), Some(LedgerMode::LedgerClient))
}

#[test]
fn test_get_ledger_existing_network_config_mode() {
    let router = setup_router_config_mode();
    let id = "did:ethr:testnet:0x123";

    let result = router.get_ledger_for_identifier(id).unwrap();

    match result {
        LedgerResult::Config(config) => {
            assert_eq!(config.network, Some("testnet".to_string()));
        }
        LedgerResult::Client(_) => panic!("Expected LedgerResult::Config, got Client"),
    }
}

#[test]
fn test_get_ledger_uses_default_when_missing_network_config_mode() {
    let router = setup_router_config_mode();
    let id = "did:ethr:unknownnet:0x123";

    let result = router.get_ledger_for_identifier(id).unwrap();

    match result {
        LedgerResult::Config(config) => {
            assert_eq!(config.network, Some("mainnet".to_string()));
        }
        LedgerResult::Client(_) => panic!("Expected LedgerResult::Config, got Client"),
    }
}

#[test]
fn test_get_ledger_existing_network_client_mode() {
    let router = setup_router_client_mode();
    let id = "did:ethr:testnet:0x123";

    let result = router.get_ledger_for_identifier(id).unwrap();

    match result {
        LedgerResult::Client(client) => {
            assert_eq!(client.network(), Some(&"testnet".to_string()));
        }
        LedgerResult::Config(_) => panic!("Expected LedgerResult::Client, got Config"),
    }
}

#[test]
fn test_get_ledger_uses_default_when_missing_network_client_mode() {
    let router = setup_router_client_mode();
    let id = "did:ethr:unknownnet:0x123";

    let result = router.get_ledger_for_identifier(id).unwrap();

    match result {
        LedgerResult::Client(client) => {
            assert_eq!(client.network(), Some(&"mainnet".to_string()));
        }
        LedgerResult::Config(_) => panic!("Expected LedgerResult::Client, got Config"),
    }
}

// Further cases.

fn router_error(msg: &str) -> VdrError {
    VdrError::RouterConfigError(msg.to_string())
}

#[test]
fn extract_network_named() {
    assert_eq!(LedgerRouter::extract_network("did:ethr:testnet:0xabc"), Ok("testnet".to_string()));
    assert_eq!(LedgerRouter::extract_network("did:ethr:a:b:c"), Ok("a".to_string()));
    assert_eq!(LedgerRouter::extract_network("did:ethr::0xabc"), Ok("".to_string()));
}

#[test]
fn extract_network_default() {
    assert_eq!(LedgerRouter::extract_network("did:ethr:0xabc"), Ok("default".to_string()));
}

#[test]
fn extract_network_too_few_parts() {
    assert_eq!(
        LedgerRouter::extract_network("did:ethr"),
        Err(router_error("Invalid DID identifier: did:ethr"))
    );
    assert_eq!(LedgerRouter::extract_network(""), Err(router_error("Invalid DID identifier: ")));
}

#[test]
fn extract_network_unsupported_method() {
    assert_eq!(
        LedgerRouter::extract_network("did:web:example.com"),
        Err(router_error("Unsupported DID method: did:web:example.com"))
    );
    assert_eq!(
        LedgerRouter::extract_network("xid:ethr:net:0x1"),
        Err(router_error("Unsupported DID method: xid:ethr:net:0x1"))
    );
}

#[test]
fn split_on_keeps_empty_pieces() {
    assert_eq!(split_on("a::b:", ':'), vec!["a", "", "b", ""]);
    assert_eq!(split_on("", ':'), vec![""]);
    assert_eq!(split_on("héllo", ':'), vec!["héllo"]);
    for text in ["did:ethr:testnet:0xabc", "::", "a", ""] {
        assert_eq!(split_on(text, ':').join(":"), text);
    }
}

#[test]
fn unknown_network_without_default_is_refused() {
    let mut configs = LedgerConfigs::new();
    configs.insert("testnet".to_string(), mock_client_config("testnet"));
    let router = LedgerRouter::new(configs, None, None);
    let err = router.get_ledger_for_identifier("did:ethr:unknownnet:0x1").unwrap_err();
    assert_eq!(
        err,
        router_error("Ledger for network 'unknownnet' not configured and no default network defined")
    );
}

#[test]
fn router_defaults_to_config_only_and_default_network() {
    let mut configs = LedgerConfigs::new();
    configs.insert("default".to_string(), mock_client_config("default"));
    let router = LedgerRouter::new(configs, None, None);
    match router.get_ledger_for_identifier("did:ethr:0xabc").unwrap() {
        LedgerResult::Config(config) => assert_eq!(config.network, Some("default".to_string())),
        LedgerResult::Client(_) => panic!("expected a configuration"),
    }
    assert_eq!(LedgerMode::default(), LedgerMode::ConfigOnly);
}

#[test]
fn invalid_identifier_is_refused_by_router() {
    let router = setup_router_config_mode();
    assert_eq!(
        router.get_ledger_for_identifier("did:ethr").unwrap_err(),
        router_error("Invalid DID identifier: did:ethr")
    );
}

#[test]
fn insert_replaces_configuration() {
    let mut configs = LedgerConfigs::new();
    configs.insert("testnet".to_string(), mock_client_config("first"));
    configs.insert("testnet".to_string(), mock_client_config("second"));
    assert_eq!(configs.len(), 1);
    assert_eq!(configs.get("testnet").unwrap().network, Some("second".to_string()));
    assert!(configs.get("mainnet").is_none());
}

#[test]
fn list_networks_names_each_once() {
    let router = setup_router_config_mode();
    let mut names = router.list_networks();
    names.sort();
    assert_eq!(names, vec!["mainnet".to_string(), "testnet".to_string()]);
}

#[test]
fn clients_to_ping_config_only_refused() {
    let router = setup_router_config_mode();
    assert_eq!(
        router.clients_to_ping().unwrap_err(),
        router_error("Cannot ping ledgers in ConfigOnly mode")
    );
}

#[test]
fn clients_to_ping_client_mode_covers_all() {
    let router = setup_router_client_mode();
    let mut clients = router.clients_to_ping().unwrap();
    clients.sort_by(|a, b| a.0.cmp(&b.0));
    assert_eq!(clients.len(), 2);
    assert_eq!(clients[0].0, "mainnet");
    assert_eq!(clients[0].1.network(), Some(&"mainnet".to_string()));
    assert_eq!(clients[1].0, "testnet");
    assert_eq!(clients[1].1.chain_id(), 1337);
    assert_eq!(clients[1].1.rpc_node(), "http://localhost:8545");
}

#[test]
fn submission_needs_client_mode() {
    let router = setup_router_config_mode();
    assert_eq!(
        router.client_for_submission("did:ethr:testnet:0x1").unwrap_err(),
        router_error("Cannot submit transaction in ConfigOnly mode")
    );
    let router = setup_router_client_mode();
    let client = router.client_for_submission("did:ethr:testnet:0x1").unwrap();
    assert_eq!(client.network(), Some(&"testnet".to_string()));
}

#[test]
fn ledger_client_config_new_copies_inputs() {
    let contracts = vec![ContractConfig {
        address: "0x0000000000000000000000000000000000001111".to_string(),
        spec_path: Some("/tmp/spec.json".to_string()),
    }];
    let quorum = QuorumConfig {
        nodes: vec!["http://node1".to_string()],
        request_retries: Some(3),
        request_timeout: None,
        retry_interval: Some(10),
    };
    let config =
        LedgerClientConfig::new(7, "http://node0", &contracts, Some("net"), Some(&quorum));
    assert_eq!(config.chain_id, 7);
    assert_eq!(config.rpc_node, "http://node0");
    assert_eq!(config.contract_configs, contracts);
    assert_eq!(config.network, Some("net".to_string()));
    assert_eq!(config.quorum_config, Some(quorum.clone()));
    let copy = config.clone();
    assert_eq!(copy, config);
}

fn configuration(network: Option<&str>, chain_id: u64) -> LedgerConfiguration {
    LedgerConfiguration {
        chain_id,
        node_address: "http://localhost:8545".to_string(),
        contract_configs: vec![],
        network: network.map(|n| n.to_string()),
        quorum_config: None,
    }
}

#[test]
fn ffi_router_first_configuration_is_default() {
    let router = FfiLedgerRouter::new(vec![
        configuration(Some("mainnet"), 1),
        configuration(Some("testnet"), 2),
    ])
    .unwrap();
    let client = router.get_ledger_for_identifier("did:ethr:unknown:0x1").unwrap();
    assert_eq!(client.network().unwrap(), "mainnet");
    assert_eq!(client.client.chain_id(), 1);
    let client = router.get_ledger_for_identifier("did:ethr:testnet:0x1").unwrap();
    assert_eq!(client.client.chain_id(), 2);
}

#[test]
fn ffi_router_later_configuration_replaces_earlier() {
    let router = FfiLedgerRouter::new(vec![
        configuration(Some("testnet"), 1),
        configuration(Some("testnet"), 2),
    ])
    .unwrap();
    assert_eq!(router.list_networks(), vec!["testnet".to_string()]);
    let client = router.get_ledger_for_identifier("did:ethr:testnet:0x1").unwrap();
    assert_eq!(client.client.chain_id(), 2);
}

#[test]
fn ffi_router_unnamed_configuration_is_default() {
    let router = FfiLedgerRouter::new(vec![configuration(None, 5)]).unwrap();
    assert_eq!(router.list_networks(), vec!["default".to_string()]);
    let client = router.get_ledger_for_identifier("did:ethr:0xabc").unwrap();
    assert_eq!(client.client.chain_id(), 5);
    assert_eq!(client.network().unwrap(), "");
}

#[test]
fn ffi_router_without_configurations_refuses() {
    let router = FfiLedgerRouter::new(vec![]).unwrap();
    assert!(router.list_networks().is_empty());
    assert_eq!(
        router.get_ledger_for_identifier("did:ethr:net:0x1").unwrap_err(),
        router_error("Ledger for network 'net' not configured and no default network defined")
    );
}

#[test]
fn ffi_client_reports_network() {
    let client = FfiLedgerClient::new(
        10,
        "http://localhost:8545".to_string(),
        vec![],
        Some("testnet".to_string()),
        None,
    )
    .unwrap();
    assert_eq!(client.network().unwrap(), "testnet");
    assert_eq!(client.client.chain_id(), 10);
}

#[test]
fn gather_ping_statuses_all_succeed() {
    let outcomes: Vec<(String, Result<u32, VdrError>)> =
        vec![("mainnet".to_string(), Ok(1)), ("testnet".to_string(), Ok(2))];
    assert_eq!(
        gather_ping_statuses(outcomes),
        Ok(vec![("mainnet".to_string(), 1), ("testnet".to_string(), 2)])
    );
    let none: Vec<(String, Result<u32, VdrError>)> = vec![];
    assert_eq!(gather_ping_statuses(none), Ok(vec![]));
}

#[test]
fn gather_ping_statuses_first_failure_wins() {
    let outcomes: Vec<(String, Result<u32, VdrError>)> = vec![
        ("mainnet".to_string(), Ok(1)),
        ("testnet".to_string(), Err(router_error("first"))),
        ("devnet".to_string(), Err(router_error("second"))),
    ];
    assert_eq!(gather_ping_statuses(outcomes), Err(router_error("first")));
}
