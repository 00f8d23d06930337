//! Credentials for the notarization service.

use vstd::prelude::*;
use crate::command::{Invocation, InvocationView};
use crate::error::{SignError, SignErrorView};
use crate::settings::{Environment, EnvironmentView};

verus! {

/// How a submission authenticates with the notarization service.
#[derive(Debug, Clone, PartialEq, Eq)]
pub enum NotarizeAuth {
    /// An account and its password.
    AppleId { apple_id: String, password: String },
    /// A key of the store's API: its identifier, the file that holds it and
    /// who issued it.
    ApiKey { key: String, key_path: String, issuer: String },
}

/// Mathematical content of a [`NotarizeAuth`].
pub ghost enum NotarizeAuthView {
    AppleId { apple_id: Seq<char>, password: Seq<char> },
    ApiKey { key: Seq<char>, key_path: Seq<char>, issuer: Seq<char> },
}

impl View for NotarizeAuth {
    type V = NotarizeAuthView;

    open spec fn view(&self) -> NotarizeAuthView {
        match self {
            NotarizeAuth::AppleId { apple_id, password } => NotarizeAuthView::AppleId {
                apple_id: apple_id@,
                password: password@,
            },
            NotarizeAuth::ApiKey { key, key_path, issuer } => NotarizeAuthView::ApiKey {
                key: key@,
                key_path: key_path@,
                issuer: issuer@,
            },
        }
    }
}

/// Views the result of looking for credentials.
pub open spec fn auth_result_view(r: Result<NotarizeAuth, SignError>) -> Result<
    NotarizeAuthView,
    SignErrorView,
> {
    match r {
        Ok(auth) => Ok(auth@),
        Err(e) => Err(e@),
    }
}

/// Whether the environment names an account and its password.
pub open spec fn has_account(env: EnvironmentView) -> bool {
    env.apple_id is Some && env.apple_password is Some
}

/// Whether the environment names an API key, its issuer and its file.
pub open spec fn has_api_key(env: EnvironmentView) -> bool {
    env.apple_api_key is Some && env.apple_api_issuer is Some && env.apple_api_key_path is Some
}

/// The credentials that the environment holds: the account if it is
/// complete, else the API key if it is complete, else none.
pub open spec fn credentials(env: EnvironmentView) -> Result<NotarizeAuthView, SignErrorView> {
    if has_account(env) {
        Ok(
            NotarizeAuthView::AppleId {
                apple_id: env.apple_id->0,
                password: env.apple_password->0,
            },
        )
    } else if has_api_key(env) {
        Ok(
            NotarizeAuthView::ApiKey {
                key: env.apple_api_key->0,
                key_path: env.apple_api_key_path->0,
                issuer: env.apple_api_issuer->0,
            },
        )
    } else {
        Err(SignErrorView::MissingCredentials)
    }
}

/// Picks the notarization credentials out of the environment.
pub fn notarize_auth(env: &Environment) -> (auth: Result<NotarizeAuth, SignError>)
    ensures
        auth_result_view(auth) == credentials(env@),
{
    match (&env.apple_id, &env.apple_password) {
        (Some(apple_id), Some(password)) => Ok(
            NotarizeAuth::AppleId { apple_id: apple_id.clone(), password: password.clone() },
        ),
        _ => match (&env.apple_api_key, &env.apple_api_issuer, &env.apple_api_key_path) {
            (Some(key), Some(issuer), Some(key_path)) => Ok(
                NotarizeAuth::ApiKey {
                    key: key.clone(),
                    key_path: key_path.clone(),
                    issuer: issuer.clone(),
                },
            ),
            _ => Err(SignError::MissingCredentials),
        },
    }
}

/// An environment that holds neither a complete account nor a complete API
/// key gives no credentials.
pub proof fn lemma_missing_credentials(env: EnvironmentView)
    requires
        !has_account(env),
        !has_api_key(env),
    ensures
        credentials(env) == Err::<NotarizeAuthView, SignErrorView>(
            SignErrorView::MissingCredentials,
        ),
{
}

/// Where the environment holds both a complete account and a complete API
/// key, the account is used.
pub proof fn lemma_account_takes_precedence(env: EnvironmentView)
    requires
        has_account(env),
        has_api_key(env),
    ensures
        credentials(env) == Ok::<NotarizeAuthView, SignErrorView>(
            NotarizeAuthView::AppleId {
                apple_id: env.apple_id->0,
                password: env.apple_password->0,
            },
        ),
{
}

/// Credentials are found exactly when one of the two sets is complete.
pub proof fn lemma_credentials_found(env: EnvironmentView)
    ensures
        credentials(env) is Ok <==> has_account(env) || has_api_key(env),
        credentials(env) is Err ==> credentials(env)->Err_0 is MissingCredentials,
{
}

/// The arguments that hand the credentials to `notarytool`.
pub open spec fn auth_args(auth: NotarizeAuthView) -> Seq<Seq<char>> {
    match auth {
        NotarizeAuthView::AppleId { apple_id, password } => seq![
            "--apple-id"@,
            apple_id,
            "--password"@,
            password,
        ],
        NotarizeAuthView::ApiKey { key, key_path, issuer } => seq![
            "--key-id"@,
            key,
            "--key"@,
            key_path,
            "--issuer"@,
            issuer,
        ],
    }
}

/// Commands that can be given credentials for `notarytool`.
pub trait NotarytoolCmdExt {
    /// Appends the arguments that authenticate with `auth`.
    fn notarytool_args(&mut self, auth: &NotarizeAuth) -> &mut Self;
}

impl NotarytoolCmdExt for Invocation {
    fn notarytool_args(&mut self, auth: &NotarizeAuth) -> (ret: &mut Self)
        ensures
            ret@ == (InvocationView {
                args: old(self)@.args + auth_args(auth@),
                ..old(self)@
            }),
            *final(self) == *final(ret),
    {
        match auth {
            NotarizeAuth::AppleId { apple_id, password } => {
                self.arg("--apple-id");
                self.arg(apple_id.as_str());
                self.arg("--password");
                self.arg(password.as_str());
            },
            NotarizeAuth::ApiKey { key, key_path, issuer } => {
                self.arg("--key-id");
                self.arg(key.as_str());
                self.arg("--key");
                self.arg(key_path.as_str());
                self.arg("--issuer");
                self.arg(issuer.as_str());
            },
        }
        assert(self@.args =~= old(self)@.args + auth_args(auth@));
        self
    }
}

} // verus!
