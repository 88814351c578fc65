use safe_auth_cli::creds::{
    config_warning, finish_prompted, resolve, ConfigInput, CredError, CredSource, ResolveOutcome,
};

fn s(x: &str) -> String {
    x.to_string()
}

#[test]
fn env_secret_alone_is_inconsistent() {
    let r = resolve(&Some(s("top secret")), &None, None);
    assert!(matches!(r, ResolveOutcome::Failed(CredError::InconsistentEnv)));
}

#[test]
fn env_password_alone_is_inconsistent() {
    let r = resolve(&None, &Some(s("pass")), None);
    assert!(matches!(r, ResolveOutcome::Failed(CredError::InconsistentEnv)));
}

#[test]
fn env_empty_secret_counts_as_unset() {
    let r = resolve(&Some(s("")), &Some(s("pass")), None);
    assert!(matches!(r, ResolveOutcome::Failed(CredError::InconsistentEnv)));
}

#[test]
fn env_pair_wins_over_config() {
    let cfg = ConfigInput::Content(s("{\"secret\":\"cs\",\"password\":\"cp\"}"));
    let r = resolve(&Some(s("es")), &Some(s("ep")), Some(&cfg));
    match r {
        ResolveOutcome::Resolved(d, src) => {
            assert_eq!(d.secret, "es");
            assert_eq!(d.password, "ep");
            assert_eq!(src, CredSource::Env);
        },
        _ => panic!("environment pair must win"),
    }
}

#[test]
fn config_supplies_pair_without_prompt() {
    let cfg = ConfigInput::Content(s("{\"secret\":\"s\",\"password\":\"p\"}"));
    let r = resolve(&None, &None, Some(&cfg));
    match r {
        ResolveOutcome::Resolved(d, src) => {
            assert_eq!(d.secret, "s");
            assert_eq!(d.password, "p");
            assert_eq!(src, CredSource::ConfigFile);
        },
        _ => panic!("config pair must resolve without prompting"),
    }
}

#[test]
fn config_ignores_extra_keys() {
    let cfg = ConfigInput::Content(s("{\"secret\":\"s\",\"password\":\"p\",\"other\":3}"));
    let r = resolve(&None, &None, Some(&cfg));
    assert!(matches!(r, ResolveOutcome::Resolved(_, _)));
}

#[test]
fn config_missing_password_field_fails_hard() {
    let cfg = ConfigInput::Content(s("{\"secret\":\"s\"}"));
    let r = resolve(&None, &None, Some(&cfg));
    assert!(matches!(r, ResolveOutcome::Failed(CredError::ConfigFieldMissing)));
}

#[test]
fn config_missing_secret_field_fails_hard() {
    let cfg = ConfigInput::Content(s("{\"password\":\"p\"}"));
    let r = resolve(&None, &None, Some(&cfg));
    assert!(matches!(r, ResolveOutcome::Failed(CredError::ConfigFieldMissing)));
}

#[test]
fn config_non_string_field_is_missing() {
    let cfg = ConfigInput::Content(s("{\"secret\":7,\"password\":\"p\"}"));
    let r = resolve(&None, &None, Some(&cfg));
    assert!(matches!(r, ResolveOutcome::Failed(CredError::ConfigFieldMissing)));
}

#[test]
fn config_malformed_json_fails_hard() {
    let cfg = ConfigInput::Content(s("secret = s"));
    let r = resolve(&None, &None, Some(&cfg));
    assert!(matches!(r, ResolveOutcome::Failed(CredError::ConfigMalformed)));
}

#[test]
fn config_unreadable_fails_hard() {
    let cfg = ConfigInput::Unreadable;
    let r = resolve(&None, &None, Some(&cfg));
    assert!(matches!(r, ResolveOutcome::Failed(CredError::ConfigUnreadable)));
}

#[test]
fn config_empty_secret_is_empty_credential() {
    let cfg = ConfigInput::Content(s("{\"secret\":\"\",\"password\":\"p\"}"));
    let r = resolve(&None, &None, Some(&cfg));
    assert!(matches!(r, ResolveOutcome::Failed(CredError::EmptyCredential)));
}

#[test]
fn no_sources_needs_prompt() {
    let r = resolve(&None, &None, None);
    assert!(matches!(r, ResolveOutcome::NeedPrompt));
}

#[test]
fn prompted_pair_is_validated() {
    let d = finish_prompted(s("a"), s("b")).expect("non-empty pair is accepted");
    assert_eq!(d.secret, "a");
    assert_eq!(d.password, "b");
    let e = finish_prompted(s(""), s("b")).expect_err("empty secret is rejected");
    assert_eq!(e, CredError::EmptyCredential);
    let e = finish_prompted(s("a"), s("")).expect_err("empty password is rejected");
    assert_eq!(e, CredError::EmptyCredential);
}

#[test]
fn error_messages_are_fixed() {
    assert_eq!(
        CredError::InconsistentEnv.message(),
        "Both the secret and password environment variables must be set to be used for SAFE login."
    );
    assert_eq!(
        CredError::EmptyCredential.message(),
        "Neither the secret nor password can be empty."
    );
}

#[test]
fn clear_text_warning_is_fixed() {
    assert_eq!(
        config_warning(),
        "Warning! Storing your secret/password in plaintext in a config file is not secure."
    );
}
