//! Notarizing a bundle: archive it, sign the archive, submit it, wait for
//! the verdict, and attach the ticket once the bundle is accepted.

use vstd::prelude::*;
use vstd::string::StringExecFns;
use crate::auth::{auth_args, NotarizeAuth, NotarizeAuthView, NotarytoolCmdExt};
use crate::command::{
    failure_detail, printed, succeeded, texts, tool, Action, ActionView, Invocation,
    InvocationView, NotarytoolSubmitOutput, Outcome, OutcomeView, SubmitOutputView,
};
use crate::error::{SignError, SignErrorView};
use crate::settings::{Environment, EnvironmentView, Settings, SettingsView};
use crate::sign::{
    sign, sign_advance, sign_start, sign_steps_left, SignRequestView, Signing, SigningView,
};
use crate::workflow::{Progress, ProgressView};

verus! {

/// Where a bundle lies, taken apart by whoever knows the platform's paths.
#[derive(Debug, Clone, PartialEq, Eq)]
pub struct BundlePath {
    /// The whole path of the bundle.
    pub path: String,
    /// Its last component.
    pub file_name: String,
    /// Its last component without the extension.
    pub file_stem: String,
    /// The directory that holds the bundle.
    pub parent: String,
}

/// Mathematical content of a [`BundlePath`].
pub ghost struct BundlePathView {
    pub path: Seq<char>,
    pub file_name: Seq<char>,
    pub file_stem: Seq<char>,
    pub parent: Seq<char>,
}

impl View for BundlePath {
    type V = BundlePathView;

    open spec fn view(&self) -> BundlePathView {
        BundlePathView {
            path: self.path@,
            file_name: self.file_name@,
            file_stem: self.file_stem@,
            parent: self.parent@,
        }
    }
}

/// What the notarization service said of a submission.
#[derive(Debug, Clone, PartialEq, Eq)]
pub enum Verdict {
    /// The bundle is notarized.
    Accepted { id: String, message: String },
    /// The service answered with another status than acceptance.
    Rejected { status: String, message: String, id: String },
    /// The answer could not be decoded; `raw` is the answer as it came.
    InvalidResponse { raw: String },
}

/// Mathematical content of a [`Verdict`].
pub ghost enum VerdictView {
    Accepted { id: Seq<char>, message: Seq<char> },
    Rejected { status: Seq<char>, message: Seq<char>, id: Seq<char> },
    InvalidResponse { raw: Seq<char> },
}

impl View for Verdict {
    type V = VerdictView;

    open spec fn view(&self) -> VerdictView {
        match self {
            Verdict::Accepted { id, message } => VerdictView::Accepted {
                id: id@,
                message: message@,
            },
            Verdict::Rejected { status, message, id } => VerdictView::Rejected {
                status: status@,
                message: message@,
                id: id@,
            },
            Verdict::InvalidResponse { raw } => VerdictView::InvalidResponse { raw: raw@ },
        }
    }
}

/// The status with which the service accepts a bundle.
pub const ACCEPTED: &'static str = "Accepted";

/// The verdict that an answer amounts to: acceptance for the status
/// `Accepted`, rejection with status and message as they came for every
/// other status, and an invalid response where nothing could be decoded.
pub open spec fn verdict_of(parsed: Option<SubmitOutputView>, raw: Seq<char>) -> VerdictView {
    match parsed {
        None => VerdictView::InvalidResponse { raw },
        Some(out) => if out.status == ACCEPTED@ {
            VerdictView::Accepted { id: out.id, message: out.message }
        } else {
            VerdictView::Rejected { status: out.status, message: out.message, id: out.id }
        },
    }
}

/// Reads the verdict out of the decoded answer; `raw` is the answer as it
/// came.
pub fn verdict(parsed: Option<NotarytoolSubmitOutput>, raw: String) -> (v: Verdict)
    ensures
        v@ == verdict_of(crate::command::opt_submit_output(parsed), raw@),
{
    match parsed {
        None => Verdict::InvalidResponse { raw },
        Some(out) => {
            let accepted = ACCEPTED.to_string();
            if out.status == accepted {
                Verdict::Accepted { id: out.id, message: out.message }
            } else {
                Verdict::Rejected { status: out.status, message: out.message, id: out.id }
            }
        },
    }
}

/// The error with which a workflow ends on the verdict, or `None` for an
/// accepted bundle.
pub open spec fn verdict_error(v: VerdictView) -> Option<SignErrorView> {
    match v {
        VerdictView::Accepted { .. } => None,
        VerdictView::Rejected { status, message, id } => Some(
            SignErrorView::Rejected { status, message, id },
        ),
        VerdictView::InvalidResponse { raw } => Some(SignErrorView::InvalidResponse { raw }),
    }
}

/// Name of the archive of the bundle with the given stem.
pub open spec fn archive_name(file_stem: Seq<char>) -> Seq<char> {
    file_stem + ".zip"@
}

/// The invocation that archives the bundle as the system's file manager
/// would: as a zip file that keeps the bundle's directory as its one top
/// entry, and its extended attributes.
pub open spec fn archive_spec(bundle_path: Seq<char>, archive_path: Seq<char>) -> InvocationView {
    tool(
        "ditto"@,
        seq!["-c"@, "-k"@, "--keepParent"@, "--sequesterRsrc"@, bundle_path, archive_path],
    )
}

/// The invocation that submits the archive and waits for the verdict.
pub open spec fn submit_spec(archive_path: Seq<char>, auth: NotarizeAuthView) -> InvocationView {
    tool(
        "xcrun"@,
        seq![
            "notarytool"@,
            "submit"@,
            archive_path,
            "--wait"@,
            "--output-format"@,
            "json"@,
        ] + auth_args(auth),
    )
}

/// The invocation that attaches the ticket to the bundle. The tool finds
/// the bundle by its name from the directory it runs in, so it runs in the
/// directory that holds the bundle.
pub open spec fn staple_spec(bundle: BundlePathView) -> InvocationView {
    InvocationView {
        program: "xcrun"@,
        args: seq!["stapler"@, "staple"@, "-v"@, bundle.file_name],
        working_dir: Some(bundle.parent),
    }
}

/// Describes the archiving of the bundle at `bundle_path` into the file at
/// `archive_path`.
pub fn archive_app(bundle_path: &str, archive_path: &str) -> (inv: Invocation)
    ensures
        inv@ == archive_spec(bundle_path@, archive_path@),
{
    let mut inv = Invocation::new("ditto");
    inv.arg("-c");
    inv.arg("-k");
    inv.arg("--keepParent");
    inv.arg("--sequesterRsrc");
    inv.arg(bundle_path);
    inv.arg(archive_path);
    assert(inv@.args =~= archive_spec(bundle_path@, archive_path@).args);
    inv
}

/// Describes the submission of the archive.
fn submit_app(archive_path: &str, auth: &NotarizeAuth) -> (inv: Invocation)
    ensures
        inv@ == submit_spec(archive_path@, auth@),
{
    let mut inv = Invocation::new("xcrun");
    inv.arg("notarytool");
    inv.arg("submit");
    inv.arg(archive_path);
    inv.arg("--wait");
    inv.arg("--output-format");
    inv.arg("json");
    inv.notarytool_args(auth);
    assert(inv@.args =~= submit_spec(archive_path@, auth@).args);
    inv
}

/// Describes the attaching of the notarization ticket to the bundle.
pub fn staple_app(bundle: &BundlePath) -> (inv: Invocation)
    ensures
        inv@ == staple_spec(bundle@),
{
    let mut inv = Invocation::new("xcrun");
    inv.arg("stapler");
    inv.arg("staple");
    inv.arg("-v");
    inv.arg(bundle.file_name.as_str());
    inv.current_dir(bundle.parent.as_str());
    assert(inv@.args =~= staple_spec(bundle@).args);
    inv
}

/// What a notarization works on.
#[derive(Debug, Clone, PartialEq, Eq)]
pub struct NotarizeJob {
    /// The bundle to notarize.
    pub bundle: BundlePath,
    /// The credentials for the service.
    pub auth: NotarizeAuth,
    /// The packaging settings.
    pub settings: Settings,
    /// The certificate of the environment, encoded in base64.
    pub certificate: Option<String>,
    /// The password of that certificate.
    pub certificate_password: Option<String>,
    /// Where the archive lies; empty until the scratch directory exists.
    pub archive_path: String,
}

/// Mathematical content of a [`NotarizeJob`].
pub ghost struct NotarizeJobView {
    pub bundle: BundlePathView,
    pub auth: NotarizeAuthView,
    pub settings: SettingsView,
    pub certificate: Option<Seq<char>>,
    pub certificate_password: Option<Seq<char>>,
    pub archive_path: Seq<char>,
}

impl View for NotarizeJob {
    type V = NotarizeJobView;

    open spec fn view(&self) -> NotarizeJobView {
        NotarizeJobView {
            bundle: self.bundle@,
            auth: self.auth@,
            settings: self.settings@,
            certificate: crate::command::opt_text(self.certificate),
            certificate_password: crate::command::opt_text(self.certificate_password),
            archive_path: self.archive_path@,
        }
    }
}

/// A notarization under way.
#[derive(Debug, PartialEq, Eq)]
pub enum Notarization {
    /// The directory for the archive is being created.
    Created(NotarizeJob),
    /// The bundle is being archived.
    Archiving(NotarizeJob),
    /// The archive is being signed.
    SigningArchive(NotarizeJob, Signing),
    /// The archive is with the service.
    Submitting(NotarizeJob),
    /// The answer of the service, kept as it came, is being decoded.
    Parsing(NotarizeJob, String),
    /// The ticket is being attached to the bundle.
    Stapling,
}

/// Mathematical content of a [`Notarization`].
pub ghost enum NotarizationView {
    Created(NotarizeJobView),
    Archiving(NotarizeJobView),
    SigningArchive(NotarizeJobView, SigningView),
    Submitting(NotarizeJobView),
    Parsing(NotarizeJobView, Seq<char>),
    Stapling,
}

impl View for Notarization {
    type V = NotarizationView;

    open spec fn view(&self) -> NotarizationView {
        match self {
            Notarization::Created(job) => NotarizationView::Created(job@),
            Notarization::Archiving(job) => NotarizationView::Archiving(job@),
            Notarization::SigningArchive(job, signing) => NotarizationView::SigningArchive(
                job@,
                signing@,
            ),
            Notarization::Submitting(job) => NotarizationView::Submitting(job@),
            Notarization::Parsing(job, raw) => NotarizationView::Parsing(job@, raw@),
            Notarization::Stapling => NotarizationView::Stapling,
        }
    }
}

/// The part of the environment that signing the archive reads.
pub open spec fn job_environment(job: NotarizeJobView) -> EnvironmentView {
    EnvironmentView {
        apple_certificate: job.certificate,
        apple_certificate_password: job.certificate_password,
        apple_id: None,
        apple_password: None,
        apple_api_key: None,
        apple_api_issuer: None,
        apple_api_key_path: None,
    }
}

/// How the archive is signed: as a plain file, never as an executable.
pub open spec fn archive_sign_request(job: NotarizeJobView, identity: Seq<char>) -> SignRequestView {
    SignRequestView {
        path_to_sign: job.archive_path,
        identity,
        settings: job.settings,
        is_an_executable: false,
    }
}

/// The state in which the archive is with the service, and the submitting
/// action.
pub open spec fn submission(job: NotarizeJobView) -> ProgressView<NotarizationView> {
    ProgressView::Next(
        NotarizationView::Submitting(job),
        ActionView::Run(submit_spec(job.archive_path, job.auth)),
    )
}

/// What the outcome says the service's answer decodes to.
pub open spec fn decoded(o: OutcomeView) -> Option<SubmitOutputView> {
    match o {
        OutcomeView::Response(parsed) => parsed,
        _ => None,
    }
}

/// How a notarization begins: by asking for a directory to put the archive
/// in.
pub open spec fn notarize_start(
    bundle: BundlePathView,
    auth: NotarizeAuthView,
    settings: SettingsView,
    env: EnvironmentView,
) -> (NotarizationView, ActionView) {
    (
        NotarizationView::Created(
            NotarizeJobView {
                bundle,
                auth,
                settings,
                certificate: env.apple_certificate,
                certificate_password: env.apple_certificate_password,
                archive_path: Seq::empty(),
            },
        ),
        ActionView::CreateScratch { file_names: seq![archive_name(bundle.file_stem)] },
    )
}

/// The notarization after the outcome `o` of its last action.
///
/// The archive is signed only where the settings name an identity. The
/// submission is made once: whatever the service answers is final. The
/// ticket is attached after an acceptance and in no other case.
pub open spec fn notarize_advance(st: NotarizationView, o: OutcomeView) -> ProgressView<
    NotarizationView,
> {
    match st {
        NotarizationView::Created(job) => match o {
            OutcomeView::Scratch { paths } if paths.len() == 1 => {
                let job = NotarizeJobView { archive_path: paths[0], ..job };
                ProgressView::Next(
                    NotarizationView::Archiving(job),
                    ActionView::Run(archive_spec(job.bundle.path, job.archive_path)),
                )
            },
            _ => ProgressView::Done(
                Err(SignErrorView::ArchiveError { output: failure_detail(o) }),
            ),
        },
        NotarizationView::Archiving(job) => if !succeeded(o) {
            ProgressView::Done(Err(SignErrorView::ArchiveError { output: failure_detail(o) }))
        } else {
            match job.settings.signing_identity {
                Some(identity) => {
                    let (signing, action) = sign_start(
                        archive_sign_request(job, identity),
                        job_environment(job),
                    );
                    ProgressView::Next(NotarizationView::SigningArchive(job, signing), action)
                },
                None => submission(job),
            }
        },
        NotarizationView::SigningArchive(job, signing) => match sign_advance(signing, o) {
            ProgressView::Next(signing, action) => ProgressView::Next(
                NotarizationView::SigningArchive(job, signing),
                action,
            ),
            ProgressView::Done(Ok(_)) => submission(job),
            ProgressView::Done(Err(e)) => ProgressView::Done(Err(e)),
        },
        NotarizationView::Submitting(job) => if succeeded(o) {
            ProgressView::Next(
                NotarizationView::Parsing(job, printed(o)),
                ActionView::ParseResponse { text: printed(o) },
            )
        } else {
            ProgressView::Done(
                Err(SignErrorView::SubmissionToolFailure { output: failure_detail(o) }),
            )
        },
        NotarizationView::Parsing(job, raw) => match verdict_error(verdict_of(decoded(o), raw)) {
            None => ProgressView::Next(
                NotarizationView::Stapling,
                ActionView::Run(staple_spec(job.bundle)),
            ),
            Some(e) => ProgressView::Done(Err(e)),
        },
        NotarizationView::Stapling => if succeeded(o) {
            ProgressView::Done(Ok(()))
        } else {
            ProgressView::Done(Err(SignErrorView::StapleError { output: failure_detail(o) }))
        },
    }
}

/// An upper bound on the number of actions that the notarization still asks
/// for.
pub open spec fn notarize_steps_left(st: NotarizationView) -> nat {
    match st {
        NotarizationView::Created(_) => 20,
        NotarizationView::Archiving(_) => 19,
        NotarizationView::SigningArchive(_, signing) => sign_steps_left(signing) + 3,
        NotarizationView::Submitting(_) => 3,
        NotarizationView::Parsing(_, _) => 2,
        NotarizationView::Stapling => 1,
    }
}

/// Begins the notarization of the bundle.
pub fn notarize(
    bundle: BundlePath,
    auth: NotarizeAuth,
    settings: &Settings,
    env: &Environment,
) -> (started: (Notarization, Action))
    ensures
        (started.0@, started.1@) == notarize_start(bundle@, auth@, settings@, env@),
{
    let name = bundle.file_stem.clone().concat(".zip");
    let mut file_names: Vec<String> = Vec::new();
    file_names.push(name);
    assert(texts(file_names@) =~= seq![archive_name(bundle@.file_stem)]);
    let job = NotarizeJob {
        bundle,
        auth,
        settings: settings.copy(),
        certificate: crate::settings::copy_opt_text(&env.apple_certificate),
        certificate_password: crate::settings::copy_opt_text(&env.apple_certificate_password),
        archive_path: String::new(),
    };
    (Notarization::Created(job), Action::CreateScratch { file_names })
}

/// Asks for the submission of the archive.
fn submit(job: NotarizeJob) -> (next: Progress<Notarization>)
    ensures
        next@ == submission(job@),
{
    let inv = submit_app(job.archive_path.as_str(), &job.auth);
    Progress::Next(Notarization::Submitting(job), Action::Run(inv))
}

/// Begins the signing of the archive.
fn sign_archive(job: NotarizeJob, identity: String) -> (next: Progress<Notarization>)
    ensures
        next@ == ({
            let (signing, action) = sign_start(
                archive_sign_request(job@, identity@),
                job_environment(job@),
            );
            ProgressView::Next(NotarizationView::SigningArchive(job@, signing), action)
        }),
{
    let env = Environment {
        apple_certificate: crate::settings::copy_opt_text(&job.certificate),
        apple_certificate_password: crate::settings::copy_opt_text(&job.certificate_password),
        apple_id: None,
        apple_password: None,
        apple_api_key: None,
        apple_api_issuer: None,
        apple_api_key_path: None,
    };
    let (signing, action) = sign(
        job.archive_path.clone(),
        identity.as_str(),
        &job.settings,
        false,
        &env,
    );
    Progress::Next(Notarization::SigningArchive(job, signing), action)
}

impl Notarization {
    /// Moves the notarization on after the outcome of its last action.
    pub fn advance(self, outcome: Outcome) -> (progress: Progress<Notarization>)
        ensures
            progress@ == notarize_advance(self@, outcome@),
    {
        match self {
            Notarization::Created(job) => {
                let mut job = job;
                match &outcome {
                    Outcome::Scratch { paths } => {
                        if paths.len() == 1 {
                            job.archive_path = paths[0].clone();
                            let inv = archive_app(
                                job.bundle.path.as_str(),
                                job.archive_path.as_str(),
                            );
                            return Progress::Next(Notarization::Archiving(job), Action::Run(inv));
                        }
                    },
                    _ => {},
                }
                Progress::Done(Err(SignError::ArchiveError { output: outcome.into_detail() }))
            },
            Notarization::Archiving(job) => {
                if !outcome.succeeded() {
                    return Progress::Done(
                        Err(SignError::ArchiveError { output: outcome.into_detail() }),
                    );
                }
                match crate::settings::copy_opt_text(&job.settings.signing_identity) {
                    Some(identity) => sign_archive(job, identity),
                    None => submit(job),
                }
            },
            Notarization::SigningArchive(job, signing) => match signing.advance(outcome) {
                Progress::Next(signing, action) => Progress::Next(
                    Notarization::SigningArchive(job, signing),
                    action,
                ),
                Progress::Done(Ok(_)) => submit(job),
                Progress::Done(Err(e)) => Progress::Done(Err(e)),
            },
            Notarization::Submitting(job) => {
                if outcome.succeeded() {
                    match outcome {
                        Outcome::Exited { stdout, .. } => {
                            let text = stdout.clone();
                            Progress::Next(
                                Notarization::Parsing(job, stdout),
                                Action::ParseResponse { text },
                            )
                        },
                        _ => Progress::Done(
                            Err(SignError::SubmissionToolFailure { output: String::new() }),
                        ),
                    }
                } else {
                    Progress::Done(
                        Err(SignError::SubmissionToolFailure { output: outcome.into_detail() }),
                    )
                }
            },
            Notarization::Parsing(job, raw) => {
                let parsed = match outcome {
                    Outcome::Response(parsed) => parsed,
                    _ => None,
                };
                match verdict(parsed, raw) {
                    Verdict::Accepted { .. } => Progress::Next(
                        Notarization::Stapling,
                        Action::Run(staple_app(&job.bundle)),
                    ),
                    Verdict::Rejected { status, message, id } => Progress::Done(
                        Err(SignError::Rejected { status, message, id }),
                    ),
                    Verdict::InvalidResponse { raw } => Progress::Done(
                        Err(SignError::InvalidResponse { raw }),
                    ),
                }
            },
            Notarization::Stapling => {
                if outcome.succeeded() {
                    Progress::Done(Ok(()))
                } else {
                    Progress::Done(Err(SignError::StapleError { output: outcome.into_detail() }))
                }
            },
        }
    }
}

/// Every step of a notarization brings its end nearer: the number of
/// actions still to come is bounded, and the bound falls with each of them.
pub proof fn lemma_notarize_terminates(st: NotarizationView, o: OutcomeView)
    ensures
        notarize_advance(st, o) matches ProgressView::Next(next, _) ==> notarize_steps_left(next)
            < notarize_steps_left(st),
{
    if let NotarizationView::SigningArchive(_, signing) = st {
        crate::sign::lemma_sign_terminates(signing, o);
    }
}

/// How the answer of the service decides: the status `Accepted` leads to
/// the attaching of the ticket; every other status ends the notarization
/// with a rejection that carries status, message and identifier as they
/// came; an answer that could not be decoded ends it as an invalid response
/// that carries the answer as it was printed.
pub proof fn lemma_verdict_decides(job: NotarizeJobView, raw: Seq<char>, o: OutcomeView)
    ensures
        match decoded(o) {
            Some(out) => if out.status == ACCEPTED@ {
                notarize_advance(NotarizationView::Parsing(job, raw), o) == ProgressView::Next(
                    NotarizationView::Stapling,
                    ActionView::Run(staple_spec(job.bundle)),
                )
            } else {
                notarize_advance(NotarizationView::Parsing(job, raw), o) == ProgressView::<
                    NotarizationView,
                >::Done(
                    Err(
                        SignErrorView::Rejected {
                            status: out.status,
                            message: out.message,
                            id: out.id,
                        },
                    ),
                )
            },
            None => notarize_advance(NotarizationView::Parsing(job, raw), o) == ProgressView::<
                NotarizationView,
            >::Done(Err(SignErrorView::InvalidResponse { raw })),
        },
{
}

/// The ticket is attached only after the service accepted the submission,
/// and a notarization succeeds only when the attaching did.
pub proof fn lemma_staple_follows_acceptance(st: NotarizationView, o: OutcomeView)
    ensures
        notarize_advance(st, o) matches ProgressView::Next(NotarizationView::Stapling, action)
            ==> st is Parsing && decoded(o) is Some && decoded(o)->0.status == ACCEPTED@ && action
            == ActionView::Run(staple_spec(st->Parsing_0.bundle)),
        notarize_advance(st, o) matches ProgressView::Done(Ok(_)) ==> st is Stapling && succeeded(
            o,
        ),
{
}

/// While the archive is being signed the notarization follows the signing:
/// it submits the archive once the signing has ended well, and ends with
/// the signing's error, without submitting anything, once it has failed.
pub proof fn lemma_archive_signing_decides(
    job: NotarizeJobView,
    signing: SigningView,
    o: OutcomeView,
)
    ensures
        match sign_advance(signing, o) {
            ProgressView::Next(next, action) => notarize_advance(
                NotarizationView::SigningArchive(job, signing),
                o,
            ) == ProgressView::Next(NotarizationView::SigningArchive(job, next), action),
            ProgressView::Done(Ok(_)) => notarize_advance(
                NotarizationView::SigningArchive(job, signing),
                o,
            ) == submission(job),
            ProgressView::Done(Err(e)) => notarize_advance(
                NotarizationView::SigningArchive(job, signing),
                o,
            ) == ProgressView::<NotarizationView>::Done(Err(e)),
        },
{
}

/// A submission tool that does not run, or does not report success, ends
/// the notarization at once: nothing is decoded and no ticket is attached.
pub proof fn lemma_submission_failure_is_final(job: NotarizeJobView, o: OutcomeView)
    requires
        !succeeded(o),
    ensures
        notarize_advance(NotarizationView::Submitting(job), o) == ProgressView::<
            NotarizationView,
        >::Done(Err(SignErrorView::SubmissionToolFailure { output: failure_detail(o) })),
{
}

} // verus!
