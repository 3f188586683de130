use witch_desktop::config::{env_uses_pkce, eq_ignore_ascii_case, resolve_db_path, EnvFile};
use witch_desktop::sidecar::{
    next_probe_step, sidecar_env, status_after_probe, ProbeStep, SidecarStatus,
    PROBE_INTERVAL_MS, READY_DEADLINE_MS,
};

fn env_with_db(path: Option<&str>) -> EnvFile {
    let mut env = EnvFile::empty();
    env.witch_db_path = path.map(|p| p.to_string());
    env
}

fn env_with_pkce(flag: Option<&str>) -> EnvFile {
    let mut env = EnvFile::empty();
    env.twitch_use_pkce = flag.map(|p| p.to_string());
    env
}

#[test]
fn relative_override_resolves_inside_app_data() {
    let env = env_with_db(Some("custom.db"));
    assert_eq!(resolve_db_path("/a/b", Some(&env)), "/a/b/custom.db");
}

#[test]
fn absolute_override_is_kept() {
    let env = env_with_db(Some("/x/custom.db"));
    assert_eq!(resolve_db_path("/a/b", Some(&env)), "/x/custom.db");
}

#[test]
fn no_override_uses_default_file() {
    let env = env_with_db(None);
    assert_eq!(resolve_db_path("/a/b", Some(&env)), "/a/b/witch.db");
    assert_eq!(resolve_db_path("/a/b", None), "/a/b/witch.db");
}

#[test]
fn pkce_flag_is_case_insensitive_true() {
    for v in ["TRUE", "true", "True", "tRuE"] {
        assert!(env_uses_pkce(&env_with_pkce(Some(v))), "{v}");
    }
}

#[test]
fn pkce_flag_other_values_disable() {
    for v in ["1", "", "yes", "true ", "truee"] {
        assert!(!env_uses_pkce(&env_with_pkce(Some(v))), "{v:?}");
    }
    assert!(!env_uses_pkce(&env_with_pkce(None)));
}

fn keys(entries: &[(String, String)]) -> Vec<&str> {
    entries.iter().map(|(k, _)| k.as_str()).collect()
}

#[test]
fn env_without_config_has_only_paths() {
    let entries = sidecar_env("/a/b", "/a/b/env.json", None);
    assert_eq!(
        entries,
        vec![
            ("WITCH_DB_PATH".to_string(), "/a/b/witch.db".to_string()),
            ("WITCH_APP_DATA_DIR".to_string(), "/a/b".to_string()),
            ("WITCH_ENV_PATH".to_string(), "/a/b/env.json".to_string()),
        ]
    );
}

#[test]
fn env_omits_absent_credentials_and_keeps_empty_ones() {
    let mut env = EnvFile::empty();
    env.twitch_client_secret = Some(String::new());
    env.twitch_use_pkce = Some("no".to_string());
    let entries = sidecar_env("/a/b", "/a/b/env.json", Some(&env));
    assert_eq!(
        keys(&entries),
        vec!["WITCH_DB_PATH", "WITCH_APP_DATA_DIR", "WITCH_ENV_PATH", "TWITCH_CLIENT_SECRET"]
    );
    assert_eq!(entries[3].1, "");
    let entries = sidecar_env("/a/b", "/a/b/env.json", Some(&EnvFile::empty()));
    assert_eq!(keys(&entries), vec!["WITCH_DB_PATH", "WITCH_APP_DATA_DIR", "WITCH_ENV_PATH"]);
}

#[test]
fn env_carries_present_credentials() {
    let mut env = EnvFile::empty();
    env.twitch_client_id = Some("abc".to_string());
    env.twitch_client_secret = Some("s3".to_string());
    env.twitch_use_pkce = Some("True".to_string());
    env.witch_db_path = Some("/x/custom.db".to_string());
    let entries = sidecar_env("/a/b", "/a/b/env.json", Some(&env));
    assert_eq!(
        entries,
        vec![
            ("WITCH_DB_PATH".to_string(), "/x/custom.db".to_string()),
            ("WITCH_APP_DATA_DIR".to_string(), "/a/b".to_string()),
            ("WITCH_ENV_PATH".to_string(), "/a/b/env.json".to_string()),
            ("TWITCH_CLIENT_ID".to_string(), "abc".to_string()),
            ("TWITCH_CLIENT_SECRET".to_string(), "s3".to_string()),
            ("TWITCH_USE_PKCE".to_string(), "true".to_string()),
        ]
    );
}

/// Runs the probe decisions against a server that accepts connections from
/// `ready_at` milliseconds on, and returns when the supervisor goes on.
fn simulate(ready_at: Option<u64>) -> (u64, ProbeStep) {
    let mut elapsed = 0u64;
    loop {
        let connected = ready_at.is_some_and(|t| elapsed >= t);
        match next_probe_step(elapsed, connected) {
            ProbeStep::Wait(ms) => {
                assert!(ms > 0);
                elapsed += ms;
            }
            step => return (elapsed, step),
        }
    }
}

#[test]
fn probe_proceeds_when_server_is_ready() {
    assert_eq!(simulate(Some(300)), (300, ProbeStep::Ready));
    let (t, step) = simulate(Some(250));
    assert_eq!(step, ProbeStep::Ready);
    assert!(t >= 250 && t < 250 + PROBE_INTERVAL_MS);
}

#[test]
fn probe_gives_up_exactly_at_deadline() {
    assert_eq!(simulate(None), (READY_DEADLINE_MS, ProbeStep::TimedOut));
    assert_eq!(READY_DEADLINE_MS, 10_000);
}

#[test]
fn probe_last_wait_stops_at_deadline() {
    assert_eq!(next_probe_step(9_950, false), ProbeStep::Wait(50));
    assert_eq!(next_probe_step(0, false), ProbeStep::Wait(100));
    assert_eq!(next_probe_step(10_000, false), ProbeStep::TimedOut);
    assert_eq!(next_probe_step(10_000, true), ProbeStep::Ready);
}

#[test]
fn status_follows_probe() {
    assert_eq!(status_after_probe(ProbeStep::Ready), SidecarStatus::Ready);
    assert_eq!(status_after_probe(ProbeStep::TimedOut), SidecarStatus::TimedOut);
    assert_eq!(status_after_probe(ProbeStep::Wait(100)), SidecarStatus::Starting);
}

#[test]
fn ascii_case_comparison() {
    assert!(eq_ignore_ascii_case("TrUe", "true"));
    assert!(eq_ignore_ascii_case("", ""));
    assert!(eq_ignore_ascii_case("Ünï", "Ünï"));
    assert!(!eq_ignore_ascii_case("Ü", "ü"));
    assert!(!eq_ignore_ascii_case("true", "tru"));
    assert!(!eq_ignore_ascii_case("[", "{"));
}
