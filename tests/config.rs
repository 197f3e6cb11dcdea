use skillsync::config::{Config, ConfigError, ConfigSources, Network, NetworkProfile, SorobanToml, DefaultProfile};

#[test]
fn test_network_from_str() {
    assert_eq!(Network::from_str("testnet").unwrap(), Network::Testnet);
    assert_eq!(Network::from_str("mainnet").unwrap(), Network::Mainnet);
    assert_eq!(Network::from_str("sandbox").unwrap(), Network::Sandbox);
    assert_eq!(Network::from_str("TESTNET").unwrap(), Network::Testnet);
}

#[test]
fn test_network_invalid() {
    assert!(Network::from_str("invalid").is_err());
}

#[test]
fn test_network_display() {
    assert_eq!(Network::Testnet.to_string(), "testnet");
    assert_eq!(Network::Mainnet.to_string(), "mainnet");
    assert_eq!(Network::Sandbox.to_string(), "sandbox");
}

#[test]
fn test_network_default_rpc_urls() {
    assert_eq!(Network::Testnet.default_rpc_url(), "https://soroban-testnet.stellar.org");
    assert_eq!(Network::Mainnet.default_rpc_url(), "https://mainnet.sorobanrpc.com");
    assert_eq!(Network::Sandbox.default_rpc_url(), "http://localhost:8000");
}

#[test]
fn test_network_passphrases() {
    assert_eq!(Network::Testnet.passphrase(), "Test SDF Network ; September 2015");
    assert_eq!(
        Network::Mainnet.passphrase(),
        "Public Global Stellar Network ; September 2015"
    );
    assert_eq!(Network::Sandbox.passphrase(), "Standalone Network ; February 2017");
}

#[test]
fn test_validate_missing_rpc_url() {
    let result = Config::validate(&Network::Testnet, "", "Test SDF Network ; September 2015");
    assert!(result.is_err());
}

#[test]
fn test_validate_missing_passphrase() {
    let result = Config::validate(&Network::Testnet, "https://example.com", "");
    assert!(result.is_err());
}

#[test]
fn test_validate_invalid_rpc_url() {
    let result = Config::validate(
        &Network::Testnet,
        "ftp://example.com",
        "Test SDF Network ; September 2015",
    );
    assert!(result.is_err());
}

#[test]
fn test_validate_success() {
    let result = Config::validate(
        &Network::Testnet,
        "https://soroban-testnet.stellar.org",
        "Test SDF Network ; September 2015",
    );
    assert!(result.is_ok());
}

#[test]
fn invalid_network_error_carries_lowercased_name() {
    match Network::from_str("MoonNet") {
        Err(ConfigError::InvalidNetwork(name)) => assert_eq!(name, "moonnet"),
        other => panic!("unexpected {:?}", other),
    }
}

#[test]
fn validate_reports_each_missing_field() {
    match Config::validate(&Network::Testnet, "", "p") {
        Err(ConfigError::MissingField(f)) => assert_eq!(f, "rpc_url"),
        other => panic!("unexpected {:?}", other),
    }
    match Config::validate(&Network::Testnet, "http://x", "") {
        Err(ConfigError::MissingField(f)) => assert_eq!(f, "network_passphrase"),
        other => panic!("unexpected {:?}", other),
    }
    match Config::validate(&Network::Testnet, "ftp://x", "p") {
        Err(ConfigError::ValidationError(m)) => {
            assert_eq!(m, "RPC URL must start with http:// or https://: ftp://x")
        }
        other => panic!("unexpected {:?}", other),
    }
    assert!(Config::validate(&Network::Sandbox, "http://localhost:8000", "p").is_ok());
}

fn empty_sources() -> ConfigSources {
    ConfigSources {
        network: None,
        rpc_url: None,
        network_passphrase: None,
        contract_id: None,
        account: None,
        rpc_timeout_ms: None,
        debug: None,
        toml: None,
    }
}

#[test]
fn resolve_defaults_to_testnet() {
    let c = Config::resolve(&empty_sources()).unwrap();
    assert_eq!(c.network, Network::Testnet);
    assert_eq!(c.rpc_url, "https://soroban-testnet.stellar.org");
    assert_eq!(c.network_passphrase, "Test SDF Network ; September 2015");
    assert_eq!(c.rpc_timeout_ms, 30000);
    assert!(!c.debug);
    assert_eq!(c.contract_id, None);
}

#[test]
fn resolve_prefers_environment_over_profile() {
    let profile = NetworkProfile {
        network: "mainnet".to_string(),
        rpc_url: "https://profile.example".to_string(),
        network_passphrase: "profile pass".to_string(),
        description: None,
    };
    let toml = SorobanToml {
        default: Some(DefaultProfile { network: Some("mainnet".to_string()) }),
        profile: vec![("mainnet".to_string(), profile)],
    };
    let mut src = empty_sources();
    src.toml = Some(toml);
    src.network_passphrase = Some("env pass".to_string());
    src.rpc_timeout_ms = Some("1500".to_string());
    src.debug = Some("TRUE".to_string());
    src.account = Some("GABC".to_string());
    let c = Config::resolve(&src).unwrap();
    assert_eq!(c.network, Network::Mainnet);
    assert_eq!(c.rpc_url, "https://profile.example");
    assert_eq!(c.network_passphrase, "env pass");
    assert_eq!(c.rpc_timeout_ms, 1500);
    assert!(c.debug);
    assert_eq!(c.account, Some("GABC".to_string()));
}

#[test]
fn resolve_rejects_bad_values() {
    let mut src = empty_sources();
    src.network = Some("nowhere".to_string());
    assert!(matches!(Config::resolve(&src), Err(ConfigError::InvalidNetwork(_))));
    let mut src = empty_sources();
    src.rpc_url = Some("ws://node".to_string());
    assert!(matches!(Config::resolve(&src), Err(ConfigError::ValidationError(_))));
    let mut src = empty_sources();
    src.rpc_timeout_ms = Some("soon".to_string());
    src.debug = Some("yes".to_string());
    let c = Config::resolve(&src).unwrap();
    assert_eq!(c.rpc_timeout_ms, 30000);
    assert!(!c.debug);
}
