//! Resolving the vault provider's configuration from environment settings,
//! link values and defaults.

use lattice_bindgen::Config;
use lattice_bindgen::ConfigError;
use lattice_bindgen::EnvSettings;

fn no_env() -> EnvSettings {
    EnvSettings {
        addr: None,
        token: None,
        mount: None,
        certs: None,
    }
}

fn pairs(entries: &[(&str, &str)]) -> Vec<(String, String)> {
    entries
        .iter()
        .map(|(k, v)| (k.to_string(), v.to_string()))
        .collect()
}

#[test]
fn missing_token_is_fatal() {
    let r = Config::from_values(&pairs(&[("addr", "http://localhost:8200")]), &no_env());
    match r {
        Err(e @ ConfigError::MissingToken) => {
            assert_eq!(e.message(), "missing setting for 'token' or VAULT_TOKEN")
        },
        _ => panic!("expected a missing token error"),
    }
}

#[test]
fn defaults_apply_when_only_token_is_set() {
    let cfg = Config::from_values(&pairs(&[("token", "test-token")]), &no_env()).expect("config");
    assert_eq!(cfg.token, "test-token");
    assert_eq!(cfg.addr, "http://127.0.0.1:8200");
    assert_eq!(cfg.mount, "secret");
    assert!(cfg.certs.is_empty());
}

#[test]
fn environment_wins_over_link_values() {
    let env = EnvSettings {
        addr: Some("http://vault.internal:8200".into()),
        token: Some("env-token".into()),
        mount: Some("kv".into()),
        certs: None,
    };
    let values = pairs(&[
        ("addr", "http://other:8200"),
        ("token", "link-token"),
        ("mount", "secret2"),
    ]);
    let cfg = Config::from_values(&values, &env).expect("config");
    assert_eq!(cfg.addr, "http://vault.internal:8200");
    assert_eq!(cfg.token, "env-token");
    assert_eq!(cfg.mount, "kv");
}

#[test]
fn lowercase_key_wins_over_uppercase() {
    let values = pairs(&[
        ("TOKEN", "upper-token"),
        ("token", "lower-token"),
        ("MOUNT", "upper"),
    ]);
    let cfg = Config::from_values(&values, &no_env()).expect("config");
    assert_eq!(cfg.token, "lower-token");
    assert_eq!(cfg.mount, "upper");
}

/// An address that is no well-formed URL falls back to the default; the
/// URL check runs through the real parser.
#[test]
fn bad_address_falls_back_to_default() {
    let values = pairs(&[("token", "test-token"), ("addr", "not a url at all")]);
    let cfg = Config::from_values(&values, &no_env()).expect("config");
    assert_eq!(cfg.addr, "http://127.0.0.1:8200");

    let good = pairs(&[("token", "test-token"), ("addr", "https://vault:8200")]);
    let cfg2 = Config::from_values(&good, &no_env()).expect("config");
    assert_eq!(cfg2.addr, "https://vault:8200");
}

#[test]
fn certs_split_on_commas_and_trim() {
    let values = pairs(&[
        ("token", "test-token"),
        ("certs", " /etc/ca.pem, /etc/other.pem ,/tmp/x.pem"),
    ]);
    let cfg = Config::from_values(&values, &no_env()).expect("config");
    assert_eq!(
        cfg.certs,
        vec![
            "/etc/ca.pem".to_string(),
            "/etc/other.pem".to_string(),
            "/tmp/x.pem".to_string(),
        ]
    );
}
