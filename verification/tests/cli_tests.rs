use std::path::PathBuf;

use certo::cli::{Args, TrustSources, DEFAULT_DAYS_TO_EXPIRATION};

fn args(custom: &[&str], force: bool, chain: &[&str], keyfile: Option<&str>) -> Args {
    Args {
        days_to_expiration: DEFAULT_DAYS_TO_EXPIRATION,
        custom_ca_certs: custom.iter().map(PathBuf::from).collect(),
        force_system_root_store: force,
        client_cert_chain: chain.iter().map(PathBuf::from).collect(),
        client_keyfile: keyfile.map(PathBuf::from),
        json: false,
        hosts: vec!["example.com".to_string()],
    }
}

#[test]
fn the_default_threshold_is_five_days() {
    assert_eq!(DEFAULT_DAYS_TO_EXPIRATION, 5);
}

#[test]
fn without_custom_roots_the_system_store_is_used() {
    let sources = args(&[], false, &[], None).trust_sources();
    assert_eq!(sources, TrustSources { custom: false, native: true });
    let sources = args(&[], true, &[], None).trust_sources();
    assert_eq!(sources, TrustSources { custom: false, native: true });
}

#[test]
fn custom_roots_replace_the_system_store_unless_it_is_forced() {
    let sources = args(&["ca.pem"], false, &[], None).trust_sources();
    assert_eq!(sources, TrustSources { custom: true, native: false });
    let sources = args(&["ca.pem", "other.pem"], true, &[], None).trust_sources();
    assert_eq!(sources, TrustSources { custom: true, native: true });
}

#[test]
fn client_authentication_needs_a_key_and_a_certificate() {
    assert!(!args(&[], false, &[], None).wants_client_auth());
    assert!(!args(&[], false, &["chain.pem"], None).wants_client_auth());
    assert!(!args(&[], false, &[], Some("key.pem")).wants_client_auth());
    assert!(args(&[], false, &["chain.pem"], Some("key.pem")).wants_client_auth());
    assert!(args(&[], false, &["a.pem", "b.pem"], Some("key.pem")).wants_client_auth());
}
