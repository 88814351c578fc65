//! Credential resolution: decides which (secret, password) pair to use from
//! the environment pair, an optional config file, or the interactive prompt,
//! under a strict precedence and validation policy.

use vstd::prelude::*;

verus! {

/// A resolved (secret, password) pair.
#[derive(Debug)]
pub struct LoginDetails {
    pub secret: String,
    pub password: String,
}

/// Why credential resolution failed. Every failure is terminal for the run.
#[derive(Clone, Copy, PartialEq, Eq, Structural, Debug)]
pub enum CredError {
    /// Exactly one of the two environment values is set and non-empty.
    InconsistentEnv,
    /// A config path was supplied but the file could not be read.
    ConfigUnreadable,
    /// The config file is not valid JSON.
    ConfigMalformed,
    /// The config file lacks the `secret` or `password` string field.
    ConfigFieldMissing,
    /// A resolved secret or password is empty.
    EmptyCredential,
}

/// The outcome of the caller's attempt to read the supplied config path:
/// the file's text, or the fact that it could not be read.
pub enum ConfigInput {
    Unreadable,
    Content(String),
}

/// Which source supplied the resolved credentials.
#[derive(Clone, Copy, PartialEq, Eq, Structural, Debug)]
pub enum CredSource {
    Env,
    ConfigFile,
}

/// The decision of `resolve`: credentials found (with their source), the
/// interactive prompt is still needed, or a hard failure.
pub enum ResolveOutcome {
    Resolved(LoginDetails, CredSource),
    NeedPrompt,
    Failed(CredError),
}

/// Whether serde_json accepts `s` as a JSON document.
pub uninterp spec fn json_wf(s: Seq<char>) -> bool;

/// The string value under top-level key `key` of the JSON text `s`: `None`
/// if `s` does not parse, is not an object, lacks the key, or holds a
/// non-string value there.
pub uninterp spec fn json_str_field(s: Seq<char>, key: Seq<char>) -> Option<Seq<char>>;

/// Relies on `serde_json::from_str`: whether the text parses as JSON, a
/// pure function of the text.
#[verifier::external_body]
fn json_parses(content: &str) -> (r: bool)
    ensures
        r == json_wf(content@),
{
    serde_json::from_str::<serde_json::Value>(content).is_ok()
}

/// Relies on `serde_json::from_str`, `Value::get` and `Value::as_str`: the
/// string value under a top-level key of a JSON text, a pure function of
/// text and key; `None` on unparsable text, a missing key or a non-string
/// value.
#[verifier::external_body]
fn json_string_field(content: &str, key: &str) -> (r: Option<String>)
    ensures
        r is Some <==> json_str_field(content@, key@) is Some,
        r matches Some(v) ==> json_str_field(content@, key@) matches Some(w) && v@ == w,
        !json_wf(content@) ==> r is None,
{
    match serde_json::from_str::<serde_json::Value>(content) {
        Ok(v) => v.get(key).and_then(|f| f.as_str()).map(|s| s.to_string()),
        Err(_) => None,
    }
}

/// Whether an optional environment value is set and non-empty.
pub open spec fn env_present(v: Option<Seq<char>>) -> bool {
    v is Some && v->0.len() > 0
}

/// Exactly what resolution returns for the config text `t` once the
/// environment has yielded nothing.
pub open spec fn config_resolution(t: Seq<char>, r: ResolveOutcome) -> bool {
    let s = json_str_field(t, "secret"@);
    let p = json_str_field(t, "password"@);
    &&& !json_wf(t) ==> r == ResolveOutcome::Failed(CredError::ConfigMalformed)
    &&& json_wf(t) && (s is None || p is None) ==> r == ResolveOutcome::Failed(
        CredError::ConfigFieldMissing,
    )
    &&& json_wf(t) && s is Some && p is Some && (s->0.len() == 0 || p->0.len() == 0) ==> r
        == ResolveOutcome::Failed(CredError::EmptyCredential)
    &&& json_wf(t) && s is Some && p is Some && s->0.len() > 0 && p->0.len() > 0 ==> (
    r matches ResolveOutcome::Resolved(d, src) && d.secret@ == s->0 && d.password@ == p->0
        && src is ConfigFile)
}

/// A supplied config file settles resolution one way or the other: once
/// its text is read, resolution never falls back to interactive prompting,
/// whatever the text holds.
pub proof fn lemma_config_never_prompts(t: Seq<char>, r: ResolveOutcome)
    requires
        config_resolution(t, r),
    ensures
        !(r is NeedPrompt),
{
}

/// A config file that lacks the `secret` or `password` string field fails
/// hard with `ConfigFieldMissing`; it is not skipped.
pub proof fn lemma_config_field_missing_fails_hard(t: Seq<char>, r: ResolveOutcome)
    requires
        config_resolution(t, r),
        json_wf(t),
        json_str_field(t, "secret"@) is None || json_str_field(t, "password"@) is None,
    ensures
        r == ResolveOutcome::Failed(CredError::ConfigFieldMissing),
{
}

fn resolve_config_text(text: &str) -> (r: ResolveOutcome)
    ensures
        config_resolution(text@, r),
{
    if !json_parses(text) {
        return ResolveOutcome::Failed(CredError::ConfigMalformed);
    }
    let secret_field = json_string_field(text, "secret");
    let password_field = json_string_field(text, "password");
    match (secret_field, password_field) {
        (Some(secret), Some(password)) => {
            if secret.as_str().is_empty() || password.as_str().is_empty() {
                ResolveOutcome::Failed(CredError::EmptyCredential)
            } else {
                ResolveOutcome::Resolved(
                    LoginDetails { secret, password },
                    CredSource::ConfigFile,
                )
            }
        },
        _ => ResolveOutcome::Failed(CredError::ConfigFieldMissing),
    }
}

fn resolve_without_env(config: Option<&ConfigInput>) -> (r: ResolveOutcome)
    ensures
        config is None ==> r is NeedPrompt,
        config matches Some(c) ==> {
            &&& c is Unreadable ==> r == ResolveOutcome::Failed(CredError::ConfigUnreadable)
            &&& c matches ConfigInput::Content(t) ==> config_resolution(t@, r)
        },
{
    match config {
        None => ResolveOutcome::NeedPrompt,
        Some(ConfigInput::Unreadable) => ResolveOutcome::Failed(CredError::ConfigUnreadable),
        Some(ConfigInput::Content(text)) => resolve_config_text(text.as_str()),
    }
}

/// Resolves the credential pair by precedence: the environment pair first
/// (both or neither must be non-empty, else a hard failure), then the
/// config file if one was supplied (its failures are fatal, never skipped),
/// else the interactive prompt is required. No field of one source is ever
/// mixed with a field of another.
pub fn resolve(
    env_secret: &Option<String>,
    env_password: &Option<String>,
    config: Option<&ConfigInput>,
) -> (r: ResolveOutcome)
    ensures
        env_present(env_secret.deep_view()) != env_present(env_password.deep_view()) ==> r
            == ResolveOutcome::Failed(CredError::InconsistentEnv),
        env_present(env_secret.deep_view()) && env_present(env_password.deep_view()) ==> (
        r matches ResolveOutcome::Resolved(d, src) && d.secret@ == env_secret.deep_view()->0
            && d.password@ == env_password.deep_view()->0 && src is Env),
        !env_present(env_secret.deep_view()) && !env_present(env_password.deep_view()) ==> {
            &&& config is None ==> r is NeedPrompt
            &&& config matches Some(c) ==> {
                &&& c is Unreadable ==> r == ResolveOutcome::Failed(CredError::ConfigUnreadable)
                &&& c matches ConfigInput::Content(t) ==> config_resolution(t@, r)
            }
        },
{
    match (env_secret, env_password) {
        (Some(s), Some(p)) => {
            let s_empty = s.as_str().is_empty();
            let p_empty = p.as_str().is_empty();
            if s_empty != p_empty {
                ResolveOutcome::Failed(CredError::InconsistentEnv)
            } else if !s_empty {
                ResolveOutcome::Resolved(
                    LoginDetails { secret: s.clone(), password: p.clone() },
                    CredSource::Env,
                )
            } else {
                resolve_without_env(config)
            }
        },
        (Some(s), None) => {
            if !s.as_str().is_empty() {
                ResolveOutcome::Failed(CredError::InconsistentEnv)
            } else {
                resolve_without_env(config)
            }
        },
        (None, Some(p)) => {
            if !p.as_str().is_empty() {
                ResolveOutcome::Failed(CredError::InconsistentEnv)
            } else {
                resolve_without_env(config)
            }
        },
        (None, None) => resolve_without_env(config),
    }
}

/// Validates an interactively prompted pair: neither field may be empty.
pub fn finish_prompted(secret: String, password: String) -> (r: Result<
    LoginDetails,
    CredError,
>)
    ensures
        r is Err <==> (secret@.len() == 0 || password@.len() == 0),
        r matches Err(e) ==> e is EmptyCredential,
        r matches Ok(d) ==> d.secret@ == secret@ && d.password@ == password@,
{
    if secret.as_str().is_empty() || password.as_str().is_empty() {
        Err(CredError::EmptyCredential)
    } else {
        Ok(LoginDetails { secret, password })
    }
}

impl CredError {
    /// The operator-facing description of this failure.
    pub open spec fn message_text(self) -> Seq<char> {
        match self {
            CredError::InconsistentEnv => "Both the secret and password environment variables must be set to be used for SAFE login."@,
            CredError::ConfigUnreadable => "Error reading config file."@,
            CredError::ConfigMalformed => "The config file does not hold valid JSON."@,
            CredError::ConfigFieldMissing => "The config file must provide both the secret and password fields."@,
            CredError::EmptyCredential => "Neither the secret nor password can be empty."@,
        }
    }

    pub fn message(&self) -> (m: String)
        ensures
            m@ == self.message_text(),
    {
        match self {
            CredError::InconsistentEnv => String::from_str(
                "Both the secret and password environment variables must be set to be used for SAFE login.",
            ),
            CredError::ConfigUnreadable => String::from_str("Error reading config file."),
            CredError::ConfigMalformed => String::from_str(
                "The config file does not hold valid JSON.",
            ),
            CredError::ConfigFieldMissing => String::from_str(
                "The config file must provide both the secret and password fields.",
            ),
            CredError::EmptyCredential => String::from_str(
                "Neither the secret nor password can be empty.",
            ),
        }
    }
}

/// The clear-text warning surfaced whenever config-file credentials are
/// used.
pub fn config_warning() -> (m: String)
    ensures
        m@
            == "Warning! Storing your secret/password in plaintext in a config file is not secure."@,
{
    String::from_str(
        "Warning! Storing your secret/password in plaintext in a config file is not secure.",
    )
}

} // verus!
