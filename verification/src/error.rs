//! The ways in which signing and notarization fail.

use vstd::prelude::*;
use vstd::string::StringExecFns;
use crate::keychain::SetupStep;

verus! {

/// Why a workflow ended without success.
#[derive(Debug, Clone, PartialEq, Eq)]
pub enum SignError {
    /// Neither set of notarization credentials is complete.
    MissingCredentials,
    /// A step of the keychain setup failed.
    KeychainError { step: SetupStep, output: String },
    /// The signing tool failed.
    SigningFailed { output: String },
    /// The bundle could not be archived.
    ArchiveError { output: String },
    /// The submission tool failed.
    SubmissionToolFailure { output: String },
    /// The submission tool's answer could not be decoded.
    InvalidResponse { raw: String },
    /// The notarization service did not accept the bundle.
    Rejected { status: String, message: String, id: String },
    /// The notarization ticket could not be attached to the bundle.
    StapleError { output: String },
}

/// Mathematical content of a [`SignError`].
pub ghost enum SignErrorView {
    MissingCredentials,
    KeychainError { step: SetupStep, output: Seq<char> },
    SigningFailed { output: Seq<char> },
    ArchiveError { output: Seq<char> },
    SubmissionToolFailure { output: Seq<char> },
    InvalidResponse { raw: Seq<char> },
    Rejected { status: Seq<char>, message: Seq<char>, id: Seq<char> },
    StapleError { output: Seq<char> },
}

impl View for SignError {
    type V = SignErrorView;

    open spec fn view(&self) -> SignErrorView {
        match self {
            SignError::MissingCredentials => SignErrorView::MissingCredentials,
            SignError::KeychainError { step, output } => SignErrorView::KeychainError {
                step: *step,
                output: output@,
            },
            SignError::SigningFailed { output } => SignErrorView::SigningFailed {
                output: output@,
            },
            SignError::ArchiveError { output } => SignErrorView::ArchiveError { output: output@ },
            SignError::SubmissionToolFailure { output } => SignErrorView::SubmissionToolFailure {
                output: output@,
            },
            SignError::InvalidResponse { raw } => SignErrorView::InvalidResponse { raw: raw@ },
            SignError::Rejected { status, message, id } => SignErrorView::Rejected {
                status: status@,
                message: message@,
                id: id@,
            },
            SignError::StapleError { output } => SignErrorView::StapleError { output: output@ },
        }
    }
}

/// Views the result of a workflow.
pub open spec fn result_view(r: Result<(), SignError>) -> Result<(), SignErrorView> {
    match r {
        Ok(_) => Ok(()),
        Err(e) => Err(e@),
    }
}

/// Names the step of the keychain setup that failed.
pub open spec fn step_context(step: SetupStep) -> Seq<char> {
    match step {
        SetupStep::DeleteExisting => "failed to delete keychain"@,
        SetupStep::QuerySearchList => "failed to query keychain search list"@,
        SetupStep::CreateScratch => "failed to create scratch directory"@,
        SetupStep::WriteCertificate => "failed to write certificate"@,
        SetupStep::DecodeCertificate => "failed to decode certificate"@,
        SetupStep::CreateKeychain => "failed to create keychain"@,
        SetupStep::UnlockKeychain => "failed to set unlock keychain"@,
        SetupStep::ImportCertificate => "failed to import keychain certificate"@,
        SetupStep::ConfigureKeychain => "failed to set keychain settings"@,
        SetupStep::SetPartitionList => "failed to set key partition list"@,
        SetupStep::SetSearchList => "failed to list keychain"@,
    }
}

/// The sentence that reports a rejection by the notarization service.
pub open spec fn verdict_sentence(status: Seq<char>, id: Seq<char>, message: Seq<char>) -> Seq<
    char,
> {
    "Finished with status "@ + status + " for id "@ + id + " ("@ + message + ")"@
}

/// The text that reports the error: the stage that failed, then what the
/// failing tool said.
pub open spec fn description(e: SignErrorView) -> Seq<char> {
    match e {
        SignErrorView::MissingCredentials =>
            "no APPLE_ID & APPLE_PASSWORD or APPLE_API_KEY & APPLE_API_ISSUER & APPLE_API_KEY_PATH environment variables found"@,
        SignErrorView::KeychainError { step, output } => step_context(step) + ": "@ + output,
        SignErrorView::SigningFailed { output } => "failed to sign app: "@ + output,
        SignErrorView::ArchiveError { output } => "failed to zip app with ditto: "@ + output,
        SignErrorView::SubmissionToolFailure { output } => "failed to notarize app: "@ + output,
        SignErrorView::InvalidResponse { raw } => "failed to parse notarytool output as JSON: `"@
            + raw + "`"@,
        SignErrorView::Rejected { status, message, id } => verdict_sentence(status, id, message),
        SignErrorView::StapleError { output } => "failed to staple app: "@ + output,
    }
}

/// Names the step of the keychain setup that failed.
fn step_context_text(step: SetupStep) -> (s: &'static str)
    ensures
        s@ == step_context(step),
{
    match step {
        SetupStep::DeleteExisting => "failed to delete keychain",
        SetupStep::QuerySearchList => "failed to query keychain search list",
        SetupStep::CreateScratch => "failed to create scratch directory",
        SetupStep::WriteCertificate => "failed to write certificate",
        SetupStep::DecodeCertificate => "failed to decode certificate",
        SetupStep::CreateKeychain => "failed to create keychain",
        SetupStep::UnlockKeychain => "failed to set unlock keychain",
        SetupStep::ImportCertificate => "failed to import keychain certificate",
        SetupStep::ConfigureKeychain => "failed to set keychain settings",
        SetupStep::SetPartitionList => "failed to set key partition list",
        SetupStep::SetSearchList => "failed to list keychain",
    }
}

/// Builds the sentence that reports the service's verdict.
pub fn verdict_text(status: &str, id: &str, message: &str) -> (s: String)
    ensures
        s@ == verdict_sentence(status@, id@, message@),
{
    let mut s = String::from_str("Finished with status ");
    s.append(status);
    s.append(" for id ");
    s.append(id);
    s.append(" (");
    s.append(message);
    s.append(")");
    s
}

impl SignError {
    /// Renders the error for the user.
    pub fn describe(&self) -> (s: String)
        ensures
            s@ == description(self@),
    {
        match self {
            SignError::MissingCredentials => String::from_str(
                "no APPLE_ID & APPLE_PASSWORD or APPLE_API_KEY & APPLE_API_ISSUER & APPLE_API_KEY_PATH environment variables found",
            ),
            SignError::KeychainError { step, output } => {
                let mut s = String::from_str(step_context_text(*step));
                s.append(": ");
                s.append(output.as_str());
                s
            },
            SignError::SigningFailed { output } => String::from_str("failed to sign app: ").concat(
                output.as_str(),
            ),
            SignError::ArchiveError { output } => String::from_str(
                "failed to zip app with ditto: ",
            ).concat(output.as_str()),
            SignError::SubmissionToolFailure { output } => String::from_str(
                "failed to notarize app: ",
            ).concat(output.as_str()),
            SignError::InvalidResponse { raw } => {
                let mut s = String::from_str("failed to parse notarytool output as JSON: `");
                s.append(raw.as_str());
                s.append("`");
                s
            },
            SignError::Rejected { status, message, id } => verdict_text(
                status.as_str(),
                id.as_str(),
                message.as_str(),
            ),
            SignError::StapleError { output } => String::from_str("failed to staple app: ").concat(
                output.as_str(),
            ),
        }
    }
}

} // verus!
