use vstd::prelude::*;
use crate::config::{EnvFile, EnvFileView, env_view, db_path_for, pkce_enabled, resolve_db_path, env_uses_pkce};

verus! {

/// Milliseconds between two readiness probes.
pub const PROBE_INTERVAL_MS: u64 = 100;

/// Milliseconds after spawn at which startup goes on without the server.
pub const READY_DEADLINE_MS: u64 = 10000;

/// What the supervisor does after one readiness probe.
#[derive(Clone, Copy, Debug, PartialEq, Eq, Structural)]
pub enum ProbeStep {
    /// The server accepted a connection: startup goes on.
    Ready,
    /// The deadline has passed without a connection: startup goes on anyway.
    TimedOut,
    /// Wait this many milliseconds, then probe again.
    Wait(u64),
}

/// The step after a probe at `elapsed` milliseconds since spawn: ready on a
/// connection, timed out at the deadline, else a wait of one interval that
/// never runs past the deadline.
pub open spec fn probe_step(elapsed: int, connected: bool) -> ProbeStep {
    if connected {
        ProbeStep::Ready
    } else if elapsed >= READY_DEADLINE_MS {
        ProbeStep::TimedOut
    } else if READY_DEADLINE_MS - elapsed < PROBE_INTERVAL_MS {
        ProbeStep::Wait((READY_DEADLINE_MS - elapsed) as u64)
    } else {
        ProbeStep::Wait(PROBE_INTERVAL_MS)
    }
}

/// Decides what follows a readiness probe made `elapsed_ms` after spawn.
pub fn next_probe_step(elapsed_ms: u64, connected: bool) -> (r: ProbeStep)
    ensures
        r == probe_step(elapsed_ms as int, connected),
{
    if connected {
        ProbeStep::Ready
    } else if elapsed_ms >= READY_DEADLINE_MS {
        ProbeStep::TimedOut
    } else if READY_DEADLINE_MS - elapsed_ms < PROBE_INTERVAL_MS {
        ProbeStep::Wait(READY_DEADLINE_MS - elapsed_ms)
    } else {
        ProbeStep::Wait(PROBE_INTERVAL_MS)
    }
}

/// The time at which the supervisor goes on when it probes at `elapsed`
/// and then follows `probe_step`, against a server that accepts connections
/// from `ready_at` milliseconds on.
pub open spec fn proceed_time(elapsed: int, ready_at: int) -> int
    decreases READY_DEADLINE_MS - elapsed,
{
    if elapsed < READY_DEADLINE_MS {
        match probe_step(elapsed, elapsed >= ready_at) {
            ProbeStep::Wait(ms) => if ms > 0 {
                proceed_time(elapsed + ms, ready_at)
            } else {
                elapsed
            },
            _ => elapsed,
        }
    } else {
        elapsed
    }
}

/// Readiness timing: a server that becomes connectable by the deadline is
/// noticed less than one probe interval after it does, not at the deadline;
/// one that never does (not before the deadline) lets startup go on at the
/// deadline exactly, never earlier and never later.
pub proof fn lemma_probe_timing(elapsed: int, ready_at: int)
    requires
        0 <= elapsed <= READY_DEADLINE_MS,
    ensures
        elapsed <= proceed_time(elapsed, ready_at) <= READY_DEADLINE_MS,
        ready_at <= READY_DEADLINE_MS && elapsed < ready_at + PROBE_INTERVAL_MS ==> ready_at
            <= proceed_time(elapsed, ready_at) < ready_at + PROBE_INTERVAL_MS,
        ready_at > READY_DEADLINE_MS ==> proceed_time(elapsed, ready_at) == READY_DEADLINE_MS,
    decreases READY_DEADLINE_MS - elapsed,
{
    if elapsed < READY_DEADLINE_MS && elapsed < ready_at {
        let next = if READY_DEADLINE_MS - elapsed < PROBE_INTERVAL_MS {
            READY_DEADLINE_MS as int
        } else {
            elapsed + PROBE_INTERVAL_MS
        };
        assert(proceed_time(elapsed, ready_at) == proceed_time(next, ready_at));
        lemma_probe_timing(next, ready_at);
    }
}

/// Where the sidecar process stands, as the supervisor sees it.
#[derive(Clone, Copy, Debug, PartialEq, Eq, Structural)]
pub enum SidecarStatus {
    /// Spawned, not yet reachable.
    Starting,
    /// Reachable on its local endpoint.
    Ready,
    /// Not reachable by the deadline; startup went on regardless.
    TimedOut,
    /// The process ended, with its exit code if it had one.
    Exited(Option<i32>),
}

/// The status after a probe step: a wait keeps the process starting.
pub fn status_after_probe(step: ProbeStep) -> (r: SidecarStatus)
    ensures
        step == ProbeStep::Ready ==> r == SidecarStatus::Ready,
        step == ProbeStep::TimedOut ==> r == SidecarStatus::TimedOut,
        step is Wait ==> r == SidecarStatus::Starting,
{
    match step {
        ProbeStep::Ready => SidecarStatus::Ready,
        ProbeStep::TimedOut => SidecarStatus::TimedOut,
        ProbeStep::Wait(_) => SidecarStatus::Starting,
    }
}

/// One environment entry for the child process, as characters.
pub type EnvEntry = (Seq<char>, Seq<char>);

/// The entry for an optional field: one when the field is present, with its
/// value as it is, none when it is absent.
pub open spec fn optional_entry(key: Seq<char>, value: Option<Seq<char>>) -> Seq<EnvEntry> {
    match value {
        Some(v) => seq![(key, v)],
        None => Seq::empty(),
    }
}

/// The credential entries: client id, client secret and the PKCE flag, each
/// only when the configuration holds it.
pub open spec fn credential_entries(env: Option<EnvFileView>) -> Seq<EnvEntry> {
    match env {
        Some(e) => optional_entry("TWITCH_CLIENT_ID"@, e.client_id) + optional_entry(
            "TWITCH_CLIENT_SECRET"@,
            e.client_secret,
        ) + (if pkce_enabled(e.use_pkce) {
            seq![("TWITCH_USE_PKCE"@, "true"@)]
        } else {
            Seq::empty()
        }),
        None => Seq::empty(),
    }
}

/// The child's environment: data-file path, application-data directory and
/// configuration-file path, then the credential entries that are present.
pub open spec fn launch_env(app_data_dir: Seq<char>, env_path: Seq<char>, env: Option<EnvFileView>) -> Seq<EnvEntry> {
    seq![
        ("WITCH_DB_PATH"@, db_path_for(app_data_dir, env)),
        ("WITCH_APP_DATA_DIR"@, app_data_dir),
        ("WITCH_ENV_PATH"@, env_path),
    ] + credential_entries(env)
}

/// The characters of a list of string pairs.
pub open spec fn entries_view(v: Seq<(String, String)>) -> Seq<EnvEntry> {
    v.map_values(|e: (String, String)| (e.0@, e.1@))
}

fn push_entry(entries: &mut Vec<(String, String)>, key: &str, value: &str)
    ensures
        entries_view(final(entries)@) == entries_view(old(entries)@).push((key@, value@)),
{
    entries.push((key.to_owned(), value.to_owned()));
    assert(entries_view(entries@) =~= entries_view(old(entries)@).push((key@, value@)));
}

fn push_optional(entries: &mut Vec<(String, String)>, key: &str, value: &Option<String>)
    ensures
        entries_view(final(entries)@) == entries_view(old(entries)@) + optional_entry(
            key@,
            match value {
                Some(s) => Some(s@),
                None => None,
            },
        ),
{
    match value {
        Some(v) => {
            let ghost before = entries_view(entries@);
            push_entry(entries, key, v.as_str());
            assert(entries_view(entries@) =~= before + seq![(key@, v@)]);
        },
        None => {
            assert(entries_view(entries@) =~= entries_view(entries@) + Seq::<EnvEntry>::empty());
        },
    }
}

/// Builds the environment handed to the sidecar process.
pub fn sidecar_env(app_data_dir: &str, env_path: &str, env: Option<&EnvFile>) -> (r: Vec<(String, String)>)
    ensures
        entries_view(r@) == launch_env(app_data_dir@, env_path@, env_view(env)),
{
    let mut entries: Vec<(String, String)> = Vec::new();
    let db_path = resolve_db_path(app_data_dir, env);
    push_entry(&mut entries, "WITCH_DB_PATH", db_path.as_str());
    push_entry(&mut entries, "WITCH_APP_DATA_DIR", app_data_dir);
    push_entry(&mut entries, "WITCH_ENV_PATH", env_path);
    let ghost fixed = entries_view(entries@);
    assert(fixed =~= seq![
        ("WITCH_DB_PATH"@, db_path_for(app_data_dir@, env_view(env))),
        ("WITCH_APP_DATA_DIR"@, app_data_dir@),
        ("WITCH_ENV_PATH"@, env_path@),
    ]);
    if let Some(e) = env {
        push_optional(&mut entries, "TWITCH_CLIENT_ID", &e.twitch_client_id);
        push_optional(&mut entries, "TWITCH_CLIENT_SECRET", &e.twitch_client_secret);
        let ghost with_ids = entries_view(entries@);
        if env_uses_pkce(e) {
            push_entry(&mut entries, "TWITCH_USE_PKCE", "true");
        } else {
            assert(entries_view(entries@) =~= with_ids + Seq::<EnvEntry>::empty());
        }
        assert(entries_view(entries@) =~= fixed + credential_entries(env_view(env)));
    } else {
        assert(entries_view(entries@) =~= fixed + Seq::<EnvEntry>::empty());
    }
    entries
}


/// A credential key is in the child's environment exactly when the
/// configuration holds that field, and its entry carries the field's value;
/// the PKCE entry is there exactly when the configuration enables PKCE. An
/// absent field never shows up as a key, not even with an empty value.
pub proof fn lemma_absent_credentials_not_passed(
    app_data_dir: Seq<char>,
    env_path: Seq<char>,
    env: Option<EnvFileView>,
)
    ensures
        forall|i: int|
            0 <= i < launch_env(app_data_dir, env_path, env).len() && (#[trigger] launch_env(
                app_data_dir,
                env_path,
                env,
            )[i]).0 == "TWITCH_CLIENT_ID"@ ==> env is Some && env->0.client_id == Some(
                launch_env(app_data_dir, env_path, env)[i].1,
            ),
        forall|i: int|
            0 <= i < launch_env(app_data_dir, env_path, env).len() && (#[trigger] launch_env(
                app_data_dir,
                env_path,
                env,
            )[i]).0 == "TWITCH_CLIENT_SECRET"@ ==> env is Some && env->0.client_secret == Some(
                launch_env(app_data_dir, env_path, env)[i].1,
            ),
        forall|i: int|
            0 <= i < launch_env(app_data_dir, env_path, env).len() && (#[trigger] launch_env(
                app_data_dir,
                env_path,
                env,
            )[i]).0 == "TWITCH_USE_PKCE"@ ==> env is Some && pkce_enabled(env->0.use_pkce),
        env is Some && env->0.client_id is Some ==> launch_env(app_data_dir, env_path, env).contains(
            ("TWITCH_CLIENT_ID"@, env->0.client_id->0),
        ),
        env is Some && env->0.client_secret is Some ==> launch_env(app_data_dir, env_path, env).contains(
            ("TWITCH_CLIENT_SECRET"@, env->0.client_secret->0),
        ),
        env is Some && pkce_enabled(env->0.use_pkce) ==> launch_env(app_data_dir, env_path, env).contains(
            ("TWITCH_USE_PKCE"@, "true"@),
        ),
{
    reveal_strlit("WITCH_DB_PATH");
    reveal_strlit("WITCH_APP_DATA_DIR");
    reveal_strlit("WITCH_ENV_PATH");
    reveal_strlit("TWITCH_CLIENT_ID");
    reveal_strlit("TWITCH_CLIENT_SECRET");
    reveal_strlit("TWITCH_USE_PKCE");
    let l = launch_env(app_data_dir, env_path, env);
    assert(l[0].0 == "WITCH_DB_PATH"@);
    assert(l[1].0 == "WITCH_APP_DATA_DIR"@);
    assert(l[2].0 == "WITCH_ENV_PATH"@);
    assert("WITCH_DB_PATH"@[0] != "TWITCH_CLIENT_ID"@[0]);
    assert("WITCH_DB_PATH"@[0] != "TWITCH_USE_PKCE"@[0]);
    assert("WITCH_APP_DATA_DIR"@[0] != "TWITCH_CLIENT_ID"@[0]);
    assert("WITCH_ENV_PATH"@[0] != "TWITCH_CLIENT_ID"@[0]);
    assert("TWITCH_CLIENT_ID"@.len() != "TWITCH_CLIENT_SECRET"@.len());
    assert("TWITCH_CLIENT_ID"@.len() != "TWITCH_USE_PKCE"@.len());
    assert("TWITCH_CLIENT_SECRET"@.len() != "TWITCH_USE_PKCE"@.len());
    if let Some(e) = env {
        let c = credential_entries(env);
        let id_len = optional_entry("TWITCH_CLIENT_ID"@, e.client_id).len() as int;
        let secret_len = optional_entry("TWITCH_CLIENT_SECRET"@, e.client_secret).len() as int;
        assert(l == seq![l[0], l[1], l[2]] + c);
        if let Some(v) = e.client_id {
            assert(l[3] == ("TWITCH_CLIENT_ID"@, v));
        }
        if let Some(v) = e.client_secret {
            assert(l[3 + id_len] == ("TWITCH_CLIENT_SECRET"@, v));
        }
        if pkce_enabled(e.use_pkce) {
            assert(l[3 + id_len + secret_len] == ("TWITCH_USE_PKCE"@, "true"@));
        }
    }
}

} // verus!
