use vstd::prelude::*;
use crate::config::{EnvFile, EnvFileView, opt_view, pkce_enabled, env_uses_pkce, trimmed, trim};

verus! {

/// What the setup screen is told about the stored configuration.
#[derive(Clone, Debug)]
pub struct SetupStatus {
    pub has_client_id: bool,
    pub has_client_secret: bool,
    pub use_pkce: bool,
    pub client_id: Option<String>,
    pub env_path: String,
}

/// The outcome of a credential check, with a message for the user.
#[derive(Clone, Debug)]
pub struct ValidationResult {
    pub ok: bool,
    pub message: String,
}

/// What the local checks decide about a set of credentials.
#[derive(Clone, Debug)]
pub enum CredentialCheck {
    /// Decided without asking the identity provider.
    Decided(ValidationResult),
    /// Must be confirmed by the identity provider with these trimmed values.
    AskProvider { client_id: String, client_secret: String },
}

/// A value that holds something besides white space.
pub open spec fn has_text(v: Option<Seq<char>>) -> bool {
    match v {
        Some(s) => trimmed(s).len() > 0,
        None => false,
    }
}

fn is_blank(s: &str) -> (r: bool)
    ensures
        r == (trimmed(s@).len() == 0),
{
    let t = trim(s);
    t.as_str().is_empty()
}

fn opt_has_text(v: &Option<String>) -> (r: bool)
    ensures
        r == has_text(opt_view(*v)),
{
    match v {
        Some(s) => !is_blank(s.as_str()),
        None => false,
    }
}

/// Summarises the stored configuration, if any, for the setup screen.
pub fn setup_status(env: Option<EnvFile>, env_path: String) -> (r: SetupStatus)
    ensures
        r.env_path@ == env_path@,
        match env {
            Some(e) => {
                &&& r.has_client_id == has_text(e@.client_id)
                &&& r.has_client_secret == has_text(e@.client_secret)
                &&& r.use_pkce == pkce_enabled(e@.use_pkce)
                &&& opt_view(r.client_id) == e@.client_id
            },
            None => !r.has_client_id && !r.has_client_secret && !r.use_pkce && r.client_id is None,
        },
{
    match env {
        Some(e) => {
            let has_client_id = opt_has_text(&e.twitch_client_id);
            let has_client_secret = opt_has_text(&e.twitch_client_secret);
            let use_pkce = env_uses_pkce(&e);
            SetupStatus {
                has_client_id,
                has_client_secret,
                use_pkce,
                client_id: e.twitch_client_id,
                env_path,
            }
        },
        None => SetupStatus {
            has_client_id: false,
            has_client_secret: false,
            use_pkce: false,
            client_id: None,
            env_path,
        },
    }
}

/// The local verdict on credentials: a blank client id is refused; with
/// PKCE anything else is accepted for now; without PKCE a blank secret is
/// refused; otherwise the identity provider must be asked.
pub fn check_credentials(client_id: &str, client_secret: Option<String>, use_pkce: bool) -> (r: CredentialCheck)
    ensures
        trimmed(client_id@).len() == 0 ==> (r matches CredentialCheck::Decided(v) && !v.ok
            && v.message@ == "Client ID is required."@),
        trimmed(client_id@).len() > 0 && use_pkce ==> (r matches CredentialCheck::Decided(v)
            && v.ok && v.message@ == "PKCE mode selected. We'll validate during login."@),
        trimmed(client_id@).len() > 0 && !use_pkce && !has_text(opt_view(client_secret)) ==> (r matches CredentialCheck::Decided(v)
            && !v.ok && v.message@ == "Client Secret is required unless PKCE is enabled."@),
        trimmed(client_id@).len() > 0 && !use_pkce && has_text(opt_view(client_secret)) ==> (r matches CredentialCheck::AskProvider { client_id: id, client_secret: secret }
            && id@ == trimmed(client_id@) && secret@ == trimmed(client_secret->0@)),
{
    let id = trim(client_id);
    let secret = match &client_secret {
        Some(s) => Some(trim(s.as_str())),
        None => None,
    };
    decide_credentials(id, secret, use_pkce)
}

/// The local verdict on credentials whose white space is already trimmed.
pub fn decide_credentials(client_id: String, client_secret: Option<String>, use_pkce: bool) -> (r: CredentialCheck)
    ensures
        client_id@.len() == 0 ==> (r matches CredentialCheck::Decided(v) && !v.ok
            && v.message@ == "Client ID is required."@),
        client_id@.len() > 0 && use_pkce ==> (r matches CredentialCheck::Decided(v)
            && v.ok && v.message@ == "PKCE mode selected. We'll validate during login."@),
        client_id@.len() > 0 && !use_pkce && (client_secret is None || client_secret->0@.len() == 0) ==> (r matches CredentialCheck::Decided(v)
            && !v.ok && v.message@ == "Client Secret is required unless PKCE is enabled."@),
        client_id@.len() > 0 && !use_pkce && client_secret is Some && client_secret->0@.len() > 0 ==> (r matches CredentialCheck::AskProvider { client_id: id, client_secret: secret }
            && id@ == client_id@ && secret@ == client_secret->0@),
{
    if client_id.as_str().is_empty() {
        return CredentialCheck::Decided(
            ValidationResult { ok: false, message: "Client ID is required.".to_owned() },
        );
    }
    if use_pkce {
        return CredentialCheck::Decided(
            ValidationResult {
                ok: true,
                message: "PKCE mode selected. We'll validate during login.".to_owned(),
            },
        );
    }
    match client_secret {
        Some(secret) => {
            if secret.as_str().is_empty() {
                CredentialCheck::Decided(
                    ValidationResult {
                        ok: false,
                        message: "Client Secret is required unless PKCE is enabled.".to_owned(),
                    },
                )
            } else {
                CredentialCheck::AskProvider { client_id, client_secret: secret }
            }
        },
        None => CredentialCheck::Decided(
            ValidationResult {
                ok: false,
                message: "Client Secret is required unless PKCE is enabled.".to_owned(),
            },
        ),
    }
}

/// The result once the identity provider has answered: accepted on a
/// success status, else refused with the given description of the failure.
pub fn provider_verdict(success: bool, failure_message: String) -> (r: ValidationResult)
    ensures
        r.ok == success,
        success ==> r.message@ == "Credentials validated successfully."@,
        !success ==> r.message@ == failure_message@,
{
    if success {
        ValidationResult { ok: true, message: "Credentials validated successfully.".to_owned() }
    } else {
        ValidationResult { ok: false, message: failure_message }
    }
}

/// The configuration after the setup screen saves credentials: the trimmed
/// client id; the trimmed secret unless it is absent or blank; the PKCE flag
/// `true` when chosen, else absent; the data path kept as it was.
pub open spec fn saved_env(
    existing: Option<EnvFileView>,
    client_id: Seq<char>,
    client_secret: Option<Seq<char>>,
    use_pkce: bool,
) -> EnvFileView {
    EnvFileView {
        client_id: Some(trimmed(client_id)),
        client_secret: match client_secret {
            Some(s) => if trimmed(s).len() > 0 {
                Some(trimmed(s))
            } else {
                None
            },
            None => None,
        },
        use_pkce: if use_pkce {
            Some("true"@)
        } else {
            None
        },
        db_path: match existing {
            Some(e) => e.db_path,
            None => None,
        },
    }
}

/// Applies the credentials from the setup screen to the stored
/// configuration, or to an empty one when there is none.
pub fn update_env_file(
    existing: Option<EnvFile>,
    client_id: &str,
    client_secret: Option<String>,
    use_pkce: bool,
) -> (r: EnvFile)
    ensures
        r@ == saved_env(
            match existing {
                Some(e) => Some(e@),
                None => None,
            },
            client_id@,
            opt_view(client_secret),
            use_pkce,
        ),
{
    let mut env_file = match existing {
        Some(e) => e,
        None => EnvFile::empty(),
    };
    env_file.twitch_client_id = Some(trim(client_id));
    env_file.twitch_client_secret = match &client_secret {
        Some(s) => {
            let t = trim(s.as_str());
            if t.as_str().is_empty() {
                None
            } else {
                Some(t)
            }
        },
        None => None,
    };
    env_file.twitch_use_pkce = if use_pkce {
        Some("true".to_owned())
    } else {
        None
    };
    env_file
}

} // verus!
