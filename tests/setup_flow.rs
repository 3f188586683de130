use witch_desktop::config::EnvFile;
use witch_desktop::setup::{
    check_credentials, decide_credentials, provider_verdict, setup_status, update_env_file, CredentialCheck,
};

fn decided(c: CredentialCheck) -> (bool, String) {
    match c {
        CredentialCheck::Decided(v) => (v.ok, v.message),
        CredentialCheck::AskProvider { .. } => panic!("expected a local verdict"),
    }
}

#[test]
fn blank_client_id_is_refused() {
    let (ok, msg) = decided(check_credentials("   ", Some("s".to_string()), true));
    assert!(!ok);
    assert_eq!(msg, "Client ID is required.");
}

#[test]
fn pkce_accepts_without_secret() {
    let (ok, msg) = decided(check_credentials("id", None, true));
    assert!(ok);
    assert_eq!(msg, "PKCE mode selected. We'll validate during login.");
}

#[test]
fn blank_secret_without_pkce_is_refused() {
    let (ok, msg) = decided(check_credentials("id", Some("  ".to_string()), false));
    assert!(!ok);
    assert_eq!(msg, "Client Secret is required unless PKCE is enabled.");
    let (ok, _) = decided(check_credentials("id", None, false));
    assert!(!ok);
}

#[test]
fn full_credentials_go_to_provider_trimmed() {
    match check_credentials("  my-id ", Some("\tsecret  ".to_string()), false) {
        CredentialCheck::AskProvider { client_id, client_secret } => {
            assert_eq!(client_id, "my-id");
            assert_eq!(client_secret, "secret");
        }
        CredentialCheck::Decided(_) => panic!("expected the provider to be asked"),
    }
}

#[test]
fn provider_verdict_messages() {
    let v = provider_verdict(true, "ignored".to_string());
    assert!(v.ok);
    assert_eq!(v.message, "Credentials validated successfully.");
    let v = provider_verdict(false, "Validation failed (400 Bad Request): nope".to_string());
    assert!(!v.ok);
    assert_eq!(v.message, "Validation failed (400 Bad Request): nope");
}

#[test]
fn status_without_config() {
    let s = setup_status(None, "/a/env.json".to_string());
    assert!(!s.has_client_id && !s.has_client_secret && !s.use_pkce);
    assert_eq!(s.client_id, None);
    assert_eq!(s.env_path, "/a/env.json");
}

#[test]
fn status_with_config() {
    let mut env = EnvFile::empty();
    env.twitch_client_id = Some("abc".to_string());
    env.twitch_client_secret = Some("   ".to_string());
    env.twitch_use_pkce = Some("TRUE".to_string());
    let s = setup_status(Some(env), "/a/env.json".to_string());
    assert!(s.has_client_id);
    assert!(!s.has_client_secret);
    assert!(s.use_pkce);
    assert_eq!(s.client_id.as_deref(), Some("abc"));
}

#[test]
fn update_keeps_db_path_and_trims() {
    let mut env = EnvFile::empty();
    env.witch_db_path = Some("custom.db".to_string());
    env.twitch_client_secret = Some("old".to_string());
    env.twitch_use_pkce = Some("true".to_string());
    let out = update_env_file(Some(env), " id ", Some("  ".to_string()), false);
    assert_eq!(out.twitch_client_id.as_deref(), Some("id"));
    assert_eq!(out.twitch_client_secret, None);
    assert_eq!(out.twitch_use_pkce, None);
    assert_eq!(out.witch_db_path.as_deref(), Some("custom.db"));
}

#[test]
fn update_from_nothing_sets_pkce_and_secret() {
    let out = update_env_file(None, "id", Some(" sec ".to_string()), true);
    assert_eq!(out.twitch_client_id.as_deref(), Some("id"));
    assert_eq!(out.twitch_client_secret.as_deref(), Some("sec"));
    assert_eq!(out.twitch_use_pkce.as_deref(), Some("true"));
    assert_eq!(out.witch_db_path, None);
}

#[test]
fn decide_on_trimmed_values() {
    let (ok, msg) = decided(decide_credentials(String::new(), None, false));
    assert!(!ok);
    assert_eq!(msg, "Client ID is required.");
    let (ok, msg) = decided(decide_credentials("id".to_string(), Some(String::new()), false));
    assert!(!ok);
    assert_eq!(msg, "Client Secret is required unless PKCE is enabled.");
    match decide_credentials("id".to_string(), Some("s".to_string()), false) {
        CredentialCheck::AskProvider { client_id, client_secret } => {
            assert_eq!(client_id, "id");
            assert_eq!(client_secret, "s");
        }
        CredentialCheck::Decided(_) => panic!("expected the provider to be asked"),
    }
    // A space is not trimmed here: it counts as text.
    assert!(matches!(
        decide_credentials(" ".to_string(), None, true),
        CredentialCheck::Decided(v) if v.ok
    ));
}
