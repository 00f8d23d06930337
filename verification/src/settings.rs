//! What a workflow is told before it starts: the packaging settings and the
//! relevant part of the process environment.

use vstd::prelude::*;
use crate::command::opt_text;

verus! {

/// The packaging settings that signing reads.
#[derive(Debug, Clone, Default, PartialEq, Eq)]
pub struct Settings {
    /// Path of the entitlements file, if one is configured.
    pub entitlements: Option<String>,
    /// Identity to sign with by default, if one is configured.
    pub signing_identity: Option<String>,
}

/// Mathematical content of [`Settings`].
pub ghost struct SettingsView {
    pub entitlements: Option<Seq<char>>,
    pub signing_identity: Option<Seq<char>>,
}

impl View for Settings {
    type V = SettingsView;

    open spec fn view(&self) -> SettingsView {
        SettingsView {
            entitlements: opt_text(self.entitlements),
            signing_identity: opt_text(self.signing_identity),
        }
    }
}

/// The environment variables that signing and notarization read, each
/// `None` when the variable is not set.
#[derive(Debug, Clone, Default, PartialEq, Eq)]
pub struct Environment {
    /// `APPLE_CERTIFICATE`: the signing certificate, encoded in base64.
    pub apple_certificate: Option<String>,
    /// `APPLE_CERTIFICATE_PASSWORD`: the password of the certificate.
    pub apple_certificate_password: Option<String>,
    /// `APPLE_ID`: the account to notarize with.
    pub apple_id: Option<String>,
    /// `APPLE_PASSWORD`: the password of the account.
    pub apple_password: Option<String>,
    /// `APPLE_API_KEY`: identifier of the API key.
    pub apple_api_key: Option<String>,
    /// `APPLE_API_ISSUER`: issuer of the API key.
    pub apple_api_issuer: Option<String>,
    /// `APPLE_API_KEY_PATH`: path of the API key file.
    pub apple_api_key_path: Option<String>,
}

/// Mathematical content of an [`Environment`].
pub ghost struct EnvironmentView {
    pub apple_certificate: Option<Seq<char>>,
    pub apple_certificate_password: Option<Seq<char>>,
    pub apple_id: Option<Seq<char>>,
    pub apple_password: Option<Seq<char>>,
    pub apple_api_key: Option<Seq<char>>,
    pub apple_api_issuer: Option<Seq<char>>,
    pub apple_api_key_path: Option<Seq<char>>,
}

impl View for Environment {
    type V = EnvironmentView;

    open spec fn view(&self) -> EnvironmentView {
        EnvironmentView {
            apple_certificate: opt_text(self.apple_certificate),
            apple_certificate_password: opt_text(self.apple_certificate_password),
            apple_id: opt_text(self.apple_id),
            apple_password: opt_text(self.apple_password),
            apple_api_key: opt_text(self.apple_api_key),
            apple_api_issuer: opt_text(self.apple_api_issuer),
            apple_api_key_path: opt_text(self.apple_api_key_path),
        }
    }
}

/// Copies an optional string.
pub fn copy_opt_text(o: &Option<String>) -> (copy: Option<String>)
    ensures
        opt_text(copy) == opt_text(*o),
{
    match o {
        Some(s) => Some(s.clone()),
        None => None,
    }
}

impl Settings {
    /// Copies the settings.
    pub fn copy(&self) -> (copy: Settings)
        ensures
            copy@ == self@,
    {
        Settings {
            entitlements: copy_opt_text(&self.entitlements),
            signing_identity: copy_opt_text(&self.signing_identity),
        }
    }
}

} // verus!
