use macos_sign::auth::{notarize_auth, NotarizeAuth, NotarytoolCmdExt};
use macos_sign::command::Invocation;
use macos_sign::error::SignError;
use macos_sign::settings::Environment;

fn text(s: &str) -> Option<String> {
    Some(s.to_string())
}

fn account_env() -> Environment {
    Environment {
        apple_id: text("dev@example.com"),
        apple_password: text("app-specific"),
        ..Environment::default()
    }
}

fn api_key_env() -> Environment {
    Environment {
        apple_api_key: text("KEY123"),
        apple_api_issuer: text("issuer-uuid"),
        apple_api_key_path: text("/keys/AuthKey_KEY123.p8"),
        ..Environment::default()
    }
}

#[test]
fn empty_environment_has_no_credentials() {
    assert_eq!(notarize_auth(&Environment::default()), Err(SignError::MissingCredentials));
}

#[test]
fn account_without_password_is_missing() {
    let env = Environment { apple_id: text("dev@example.com"), ..Environment::default() };
    assert_eq!(notarize_auth(&env), Err(SignError::MissingCredentials));
}

#[test]
fn password_without_account_is_missing() {
    let env = Environment { apple_password: text("pw"), ..Environment::default() };
    assert_eq!(notarize_auth(&env), Err(SignError::MissingCredentials));
}

#[test]
fn incomplete_api_key_is_missing() {
    let mut env = api_key_env();
    env.apple_api_key_path = None;
    assert_eq!(notarize_auth(&env), Err(SignError::MissingCredentials));
    let mut env = api_key_env();
    env.apple_api_issuer = None;
    assert_eq!(notarize_auth(&env), Err(SignError::MissingCredentials));
    let mut env = api_key_env();
    env.apple_api_key = None;
    assert_eq!(notarize_auth(&env), Err(SignError::MissingCredentials));
}

#[test]
fn certificate_alone_gives_no_credentials() {
    let env = Environment {
        apple_certificate: text("Y2VydA=="),
        apple_certificate_password: text("secret"),
        ..Environment::default()
    };
    assert_eq!(notarize_auth(&env), Err(SignError::MissingCredentials));
}

#[test]
fn account_is_resolved() {
    assert_eq!(
        notarize_auth(&account_env()),
        Ok(NotarizeAuth::AppleId {
            apple_id: "dev@example.com".to_string(),
            password: "app-specific".to_string(),
        })
    );
}

#[test]
fn api_key_is_resolved() {
    assert_eq!(
        notarize_auth(&api_key_env()),
        Ok(NotarizeAuth::ApiKey {
            key: "KEY123".to_string(),
            key_path: "/keys/AuthKey_KEY123.p8".to_string(),
            issuer: "issuer-uuid".to_string(),
        })
    );
}

#[test]
fn account_takes_precedence_over_api_key() {
    let mut env = api_key_env();
    env.apple_id = text("dev@example.com");
    env.apple_password = text("app-specific");
    assert_eq!(
        notarize_auth(&env),
        Ok(NotarizeAuth::AppleId {
            apple_id: "dev@example.com".to_string(),
            password: "app-specific".to_string(),
        })
    );
}

#[test]
fn api_key_is_used_when_account_is_incomplete() {
    let mut env = api_key_env();
    env.apple_id = text("dev@example.com");
    assert_eq!(
        notarize_auth(&env),
        Ok(NotarizeAuth::ApiKey {
            key: "KEY123".to_string(),
            key_path: "/keys/AuthKey_KEY123.p8".to_string(),
            issuer: "issuer-uuid".to_string(),
        })
    );
}

#[test]
fn empty_values_count_as_present() {
    let env =
        Environment { apple_id: text(""), apple_password: text(""), ..Environment::default() };
    assert_eq!(
        notarize_auth(&env),
        Ok(NotarizeAuth::AppleId { apple_id: String::new(), password: String::new() })
    );
}

#[test]
fn missing_credentials_name_both_sets() {
    assert_eq!(
        SignError::MissingCredentials.describe(),
        "no APPLE_ID & APPLE_PASSWORD or APPLE_API_KEY & APPLE_API_ISSUER & APPLE_API_KEY_PATH environment variables found"
    );
}

#[test]
fn account_arguments() {
    let mut inv = Invocation::new("xcrun");
    inv.arg("notarytool");
    let auth = NotarizeAuth::AppleId {
        apple_id: "dev@example.com".to_string(),
        password: "app-specific".to_string(),
    };
    inv.notarytool_args(&auth);
    assert_eq!(inv.program, "xcrun");
    assert_eq!(
        inv.args,
        vec!["notarytool", "--apple-id", "dev@example.com", "--password", "app-specific"]
    );
    assert_eq!(inv.working_dir, None);
}

#[test]
fn api_key_arguments() {
    let mut inv = Invocation::new("xcrun");
    let auth = NotarizeAuth::ApiKey {
        key: "KEY123".to_string(),
        key_path: "/keys/AuthKey_KEY123.p8".to_string(),
        issuer: "issuer-uuid".to_string(),
    };
    inv.notarytool_args(&auth).arg("--verbose");
    assert_eq!(
        inv.args,
        vec![
            "--key-id",
            "KEY123",
            "--key",
            "/keys/AuthKey_KEY123.p8",
            "--issuer",
            "issuer-uuid",
            "--verbose"
        ]
    );
}
