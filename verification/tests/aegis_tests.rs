use telemy::aegis::{build_aegis_client, AegisError, AegisSettings, Config, Vault};

fn config(base_url: Option<&str>, key: Option<&str>) -> Config {
    Config {
        aegis: AegisSettings {
            base_url: base_url.map(|s| s.to_string()),
            access_jwt_key: key.map(|s| s.to_string()),
        },
    }
}

#[test]
fn client_is_built_from_trimmed_config_and_vault_secret() {
    let mut vault = Vault::new();
    vault.store("aegis_jwt", " SECRET-REDACTED ");
    let cfg = config(Some(" https://aegis.example.net "), Some("aegis_jwt"));
    let client = build_aegis_client(&cfg, &vault).expect("config is complete");
    assert_eq!(client.base_url, "https://aegis.example.net");
    assert_eq!(client.access_jwt, "SECRET-REDACTED");
}

#[test]
fn missing_base_url_is_reported_first() {
    let vault = Vault::new();
    let err = build_aegis_client(&config(None, None), &vault).unwrap_err();
    assert_eq!(err, AegisError::MissingBaseUrl);
    assert_eq!(err.message(), "missing aegis.base_url in config");
}

#[test]
fn blank_base_url_counts_as_missing() {
    let mut vault = Vault::new();
    vault.store("k", "v");
    let err = build_aegis_client(&config(Some("   "), Some("k")), &vault).unwrap_err();
    assert_eq!(err, AegisError::MissingBaseUrl);
}

#[test]
fn missing_jwt_key_is_reported() {
    let vault = Vault::new();
    let err = build_aegis_client(&config(Some("https://x"), None), &vault).unwrap_err();
    assert_eq!(err, AegisError::MissingAccessJwtKey);
    assert_eq!(err.message(), "missing aegis.access_jwt_key in config");

    let err2 = build_aegis_client(&config(Some("https://x"), Some(" ")), &vault).unwrap_err();
    assert_eq!(err2, AegisError::MissingAccessJwtKey);
}

#[test]
fn absent_vault_entry_is_reported() {
    let vault = Vault::new();
    let err = build_aegis_client(&config(Some("https://x"), Some("k")), &vault).unwrap_err();
    assert_eq!(err, AegisError::SecretNotFound);
    assert_eq!(err.message(), "access token not found in vault");
}

#[test]
fn vault_lookup_uses_the_trimmed_key_and_replaces_on_store() {
    let mut vault = Vault::new();
    vault.store("k", "old");
    vault.store("k", "new");
    let client =
        build_aegis_client(&config(Some("https://x"), Some(" k ")), &vault).expect("stored");
    assert_eq!(client.access_jwt, "new");
    assert_eq!(vault.retrieve("k").as_deref(), Some("new"));
    assert_eq!(vault.retrieve("missing"), None);
}
