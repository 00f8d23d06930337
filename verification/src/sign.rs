//! Signing one path with `codesign`, inside a temporary keychain when the
//! environment brings a certificate.

use vstd::prelude::*;
use crate::command::{
    failure_detail, succeeded, tool, Action, ActionView, Invocation, InvocationView, Outcome,
    OutcomeView,
};
use crate::error::{SignError, SignErrorView};
use crate::keychain::{
    delete_keychain, delete_keychain_spec, setup_action, setup_advance, setup_keychain,
    setup_start, steps_left, KeychainSetup, KeychainSetupView, KEYCHAIN_ID,
};
use crate::settings::{Environment, EnvironmentView, Settings, SettingsView};
use crate::workflow::{Progress, ProgressView};

verus! {

/// The options that `codesign` is given, in their order: always to replace
/// an existing signature and the identity; the temporary keychain if the
/// identity is to be looked up there; the entitlements file if one is
/// configured; the hardened runtime for an executable; nested code too if
/// the target is a directory.
pub open spec fn sign_options(
    identity: Seq<char>,
    entitlements: Option<Seq<char>>,
    is_an_executable: bool,
    is_dir: bool,
    tauri_keychain: bool,
) -> Seq<Seq<char>> {
    seq!["--force"@, "-s"@, identity] + (if tauri_keychain {
        seq!["--keychain"@, KEYCHAIN_ID@]
    } else {
        Seq::empty()
    }) + (match entitlements {
        Some(path) => seq!["--entitlements"@, path],
        None => Seq::empty(),
    }) + (if is_an_executable {
        seq!["--options"@, "runtime"@]
    } else {
        Seq::empty()
    }) + (if is_dir {
        seq!["--deep"@]
    } else {
        Seq::empty()
    })
}

/// The invocation that signs `path_to_sign`: the options, then the path.
pub open spec fn try_sign_spec(
    path_to_sign: Seq<char>,
    identity: Seq<char>,
    entitlements: Option<Seq<char>>,
    is_an_executable: bool,
    is_dir: bool,
    tauri_keychain: bool,
) -> InvocationView {
    tool(
        "codesign"@,
        sign_options(identity, entitlements, is_an_executable, is_dir, tauri_keychain).push(
            path_to_sign,
        ),
    )
}

/// Describes the signing of `path_to_sign` with `identity`. `is_dir` tells
/// whether the path is a directory, `tauri_keychain` whether the identity
/// is looked up in the temporary keychain.
pub fn try_sign(
    path_to_sign: &str,
    identity: &str,
    settings: &Settings,
    is_an_executable: bool,
    is_dir: bool,
    tauri_keychain: bool,
) -> (inv: Invocation)
    ensures
        inv@ == try_sign_spec(
            path_to_sign@,
            identity@,
            settings@.entitlements,
            is_an_executable,
            is_dir,
            tauri_keychain,
        ),
{
    let mut inv = Invocation::new("codesign");
    inv.arg("--force");
    inv.arg("-s");
    inv.arg(identity);
    if tauri_keychain {
        inv.arg("--keychain");
        inv.arg(KEYCHAIN_ID);
    }
    if let Some(entitlements_path) = &settings.entitlements {
        inv.arg("--entitlements");
        inv.arg(entitlements_path.as_str());
    }
    if is_an_executable {
        inv.arg("--options");
        inv.arg("runtime");
    }
    if is_dir {
        inv.arg("--deep");
    }
    inv.arg(path_to_sign);
    assert(inv@.args =~= try_sign_spec(
        path_to_sign@,
        identity@,
        settings@.entitlements,
        is_an_executable,
        is_dir,
        tauri_keychain,
    ).args);
    inv
}

/// What signing came to: success if the tool ran and reported it, else a
/// failure that carries the tool's diagnostic text.
pub open spec fn sign_result(o: OutcomeView) -> Result<(), SignErrorView> {
    if succeeded(o) {
        Ok(())
    } else {
        Err(SignErrorView::SigningFailed { output: failure_detail(o) })
    }
}

/// What is to be signed, and how.
#[derive(Debug, Clone, PartialEq, Eq)]
pub struct SignRequest {
    /// The file or directory to sign.
    pub path_to_sign: String,
    /// The identity to sign with.
    pub identity: String,
    /// The packaging settings.
    pub settings: Settings,
    /// Whether the path is an executable, which is signed for the hardened
    /// runtime.
    pub is_an_executable: bool,
}

/// Mathematical content of a [`SignRequest`].
pub ghost struct SignRequestView {
    pub path_to_sign: Seq<char>,
    pub identity: Seq<char>,
    pub settings: SettingsView,
    pub is_an_executable: bool,
}

impl View for SignRequest {
    type V = SignRequestView;

    open spec fn view(&self) -> SignRequestView {
        SignRequestView {
            path_to_sign: self.path_to_sign@,
            identity: self.identity@,
            settings: self.settings@,
            is_an_executable: self.is_an_executable,
        }
    }
}

/// A signing under way.
#[derive(Debug, PartialEq, Eq)]
pub enum Signing {
    /// The temporary keychain is being set up.
    SettingUp { request: SignRequest, setup: KeychainSetup },
    /// The path is being inspected. `keychain` tells whether the temporary
    /// keychain was set up.
    Probing { request: SignRequest, keychain: bool },
    /// `codesign` is running.
    Running { keychain: bool },
    /// The temporary keychain is being removed; `result` is what signing
    /// came to.
    TearingDown { result: Result<(), SignError> },
}

/// Mathematical content of a [`Signing`].
pub ghost enum SigningView {
    SettingUp { request: SignRequestView, setup: KeychainSetupView },
    Probing { request: SignRequestView, keychain: bool },
    Running { keychain: bool },
    TearingDown { result: Result<(), SignErrorView> },
}

impl View for Signing {
    type V = SigningView;

    open spec fn view(&self) -> SigningView {
        match self {
            Signing::SettingUp { request, setup } => SigningView::SettingUp {
                request: request@,
                setup: setup@,
            },
            Signing::Probing { request, keychain } => SigningView::Probing {
                request: request@,
                keychain: *keychain,
            },
            Signing::Running { keychain } => SigningView::Running { keychain: *keychain },
            Signing::TearingDown { result } => SigningView::TearingDown {
                result: crate::error::result_view(*result),
            },
        }
    }
}

/// Whether the environment brings a certificate and its password.
pub open spec fn has_certificate(env: EnvironmentView) -> bool {
    env.apple_certificate is Some && env.apple_certificate_password is Some
}

/// Whether the outcome says that the inspected path is a directory. A path
/// that could not be inspected counts as none.
pub open spec fn found_directory(o: OutcomeView) -> bool {
    o matches OutcomeView::Probed { is_dir } && is_dir
}

/// The state in which the path of `request` is inspected, with the action
/// that does so.
pub open spec fn probe(request: SignRequestView, keychain: bool) -> (SigningView, ActionView) {
    (
        SigningView::Probing { request, keychain },
        ActionView::Probe { path: request.path_to_sign },
    )
}

/// The state in which the temporary keychain is removed, with the action
/// that does so.
pub open spec fn tear_down(result: Result<(), SignErrorView>) -> (SigningView, ActionView) {
    (SigningView::TearingDown { result }, ActionView::Run(delete_keychain_spec()))
}

/// How a signing begins: with the setup of the temporary keychain if the
/// environment brings a certificate and its password, else with the
/// inspection of the path.
pub open spec fn sign_start(request: SignRequestView, env: EnvironmentView) -> (
    SigningView,
    ActionView,
) {
    if has_certificate(env) {
        let setup = setup_start(env.apple_certificate->0, env.apple_certificate_password->0);
        (SigningView::SettingUp { request, setup }, setup_action(setup))
    } else {
        probe(request, false)
    }
}

/// The signing after the outcome `o` of its last action.
///
/// Once the setup of the temporary keychain has begun, the keychain is
/// removed before the signing ends, whether the setup and the signing went
/// well or not; what comes of the removal changes nothing.
pub open spec fn sign_advance(st: SigningView, o: OutcomeView) -> ProgressView<SigningView> {
    match st {
        SigningView::SettingUp { request, setup } => match setup_advance(setup, o) {
            ProgressView::Next(setup, action) => ProgressView::Next(
                SigningView::SettingUp { request, setup },
                action,
            ),
            ProgressView::Done(Ok(_)) => {
                let (state, action) = probe(request, true);
                ProgressView::Next(state, action)
            },
            ProgressView::Done(Err(e)) => {
                let (state, action) = tear_down(Err(e));
                ProgressView::Next(state, action)
            },
        },
        SigningView::Probing { request, keychain } => ProgressView::Next(
            SigningView::Running { keychain },
            ActionView::Run(
                try_sign_spec(
                    request.path_to_sign,
                    request.identity,
                    request.settings.entitlements,
                    request.is_an_executable,
                    found_directory(o),
                    keychain,
                ),
            ),
        ),
        SigningView::Running { keychain } => if keychain {
            let (state, action) = tear_down(sign_result(o));
            ProgressView::Next(state, action)
        } else {
            ProgressView::Done(sign_result(o))
        },
        SigningView::TearingDown { result } => ProgressView::Done(result),
    }
}

/// An upper bound on the number of actions that the signing still asks for.
pub open spec fn sign_steps_left(st: SigningView) -> nat {
    match st {
        SigningView::SettingUp { setup, .. } => steps_left(setup.step) + 3,
        SigningView::Probing { .. } => 3,
        SigningView::Running { .. } => 2,
        SigningView::TearingDown { .. } => 1,
    }
}

/// Begins the signing of `path_to_sign` with `identity`.
pub fn sign(
    path_to_sign: String,
    identity: &str,
    settings: &Settings,
    is_an_executable: bool,
    env: &Environment,
) -> (started: (Signing, Action))
    ensures
        (started.0@, started.1@) == sign_start(
            SignRequestView {
                path_to_sign: path_to_sign@,
                identity: identity@,
                settings: settings@,
                is_an_executable,
            },
            env@,
        ),
{
    let request = SignRequest {
        path_to_sign,
        identity: identity.to_string(),
        settings: settings.copy(),
        is_an_executable,
    };
    match (&env.apple_certificate, &env.apple_certificate_password) {
        (Some(certificate_encoded), Some(certificate_password)) => {
            let (setup, action) = setup_keychain(
                certificate_encoded.clone(),
                certificate_password.clone(),
            );
            (Signing::SettingUp { request, setup }, action)
        },
        _ => probe_path(request, false),
    }
}

/// Asks for the inspection of the path to sign.
fn probe_path(request: SignRequest, keychain: bool) -> (next: (Signing, Action))
    ensures
        (next.0@, next.1@) == probe(request@, keychain),
{
    let action = Action::Probe { path: request.path_to_sign.clone() };
    (Signing::Probing { request, keychain }, action)
}

/// Asks for the removal of the temporary keychain.
fn remove_keychain(result: Result<(), SignError>) -> (next: Progress<Signing>)
    ensures
        next@ == ProgressView::Next(
            tear_down(crate::error::result_view(result)).0,
            tear_down(crate::error::result_view(result)).1,
        ),
{
    Progress::Next(Signing::TearingDown { result }, Action::Run(delete_keychain()))
}

/// Tells what signing came to.
pub fn try_sign_result(outcome: Outcome) -> (result: Result<(), SignError>)
    ensures
        crate::error::result_view(result) == sign_result(outcome@),
{
    if outcome.succeeded() {
        Ok(())
    } else {
        Err(SignError::SigningFailed { output: outcome.into_detail() })
    }
}

impl Signing {
    /// Moves the signing on after the outcome of its last action.
    pub fn advance(self, outcome: Outcome) -> (progress: Progress<Signing>)
        ensures
            progress@ == sign_advance(self@, outcome@),
    {
        match self {
            Signing::SettingUp { request, setup } => match setup.advance(outcome) {
                Progress::Next(setup, action) => Progress::Next(
                    Signing::SettingUp { request, setup },
                    action,
                ),
                Progress::Done(Ok(_)) => {
                    let (state, action) = probe_path(request, true);
                    Progress::Next(state, action)
                },
                Progress::Done(Err(e)) => remove_keychain(Err(e)),
            },
            Signing::Probing { request, keychain } => {
                let is_dir = match outcome {
                    Outcome::Probed { is_dir } => is_dir,
                    _ => false,
                };
                let inv = try_sign(
                    request.path_to_sign.as_str(),
                    request.identity.as_str(),
                    &request.settings,
                    request.is_an_executable,
                    is_dir,
                    keychain,
                );
                Progress::Next(Signing::Running { keychain }, Action::Run(inv))
            },
            Signing::Running { keychain } => {
                let result = try_sign_result(outcome);
                if keychain {
                    remove_keychain(result)
                } else {
                    Progress::Done(result)
                }
            },
            Signing::TearingDown { result } => Progress::Done(result),
        }
    }
}

/// Every step of a signing brings its end nearer: the number of actions
/// still to come is bounded, and the bound falls with each of them.
pub proof fn lemma_sign_terminates(st: SigningView, o: OutcomeView)
    ensures
        sign_advance(st, o) matches ProgressView::Next(next, _) ==> sign_steps_left(next)
            < sign_steps_left(st),
{
}

/// A signing that set out to use the temporary keychain ends only after it
/// has asked for the keychain's removal: it ends from the state that awaits
/// the removal, and that state is entered with the removing action alone.
pub proof fn lemma_keychain_removed_before_end(st: SigningView, o: OutcomeView)
    ensures
        sign_advance(st, o) is Done ==> st is TearingDown || st matches SigningView::Running {
            keychain: false,
        },
        st matches SigningView::SettingUp { .. } ==> sign_advance(st, o) matches ProgressView::Next(
            next,
            _,
        ) && !(next matches SigningView::Probing { keychain: false, .. }),
        st matches SigningView::Probing { keychain, .. } ==> sign_advance(st, o)
            matches ProgressView::Next(SigningView::Running { keychain: k }, _) && k == keychain,
        sign_advance(st, o) matches ProgressView::Next(SigningView::TearingDown { .. }, action)
            ==> action == ActionView::Run(delete_keychain_spec()),
{
}

/// Where the signing stands after the outcomes of its actions were reported
/// to it one after the other, from its beginning `started` on. Once the
/// signing has ended, further outcomes change nothing.
pub open spec fn sign_run(
    started: (SigningView, ActionView),
    outcomes: Seq<OutcomeView>,
) -> ProgressView<SigningView>
    decreases outcomes.len(),
{
    if outcomes.len() == 0 {
        ProgressView::Next(started.0, started.1)
    } else {
        match sign_run(started, outcomes.drop_last()) {
            ProgressView::Next(reached, _) => sign_advance(reached, outcomes.last()),
            ProgressView::Done(result) => ProgressView::Done(result),
        }
    }
}

/// Whether the signing has set out to use the temporary keychain.
pub open spec fn uses_keychain(st: SigningView) -> bool {
    match st {
        SigningView::SettingUp { .. } => true,
        SigningView::Probing { keychain, .. } => keychain,
        SigningView::Running { keychain } => keychain,
        SigningView::TearingDown { .. } => true,
    }
}

/// A signing that began with a certificate keeps to the temporary keychain,
/// and awaits its removal only after asking for it.
proof fn lemma_sign_run(
    request: SignRequestView,
    env: EnvironmentView,
    outcomes: Seq<OutcomeView>,
    k: nat,
)
    requires
        has_certificate(env),
        k <= outcomes.len(),
    ensures
        sign_run(sign_start(request, env), outcomes.take(k as int)) matches ProgressView::Next(
            st,
            action,
        ) ==> uses_keychain(st) && (st is TearingDown ==> action == ActionView::Run(
            delete_keychain_spec(),
        )),
    decreases k,
{
    if k > 0 {
        lemma_sign_run(request, env, outcomes, (k - 1) as nat);
        assert(outcomes.take(k as int).drop_last() =~= outcomes.take(k - 1));
    }
}

/// The last thing that a signing with a certificate asks for is the removal
/// of the temporary keychain, however the signing ends: after a setup that
/// failed, after a signing tool that failed, and after success.
pub proof fn lemma_keychain_removed_last(
    request: SignRequestView,
    env: EnvironmentView,
    outcomes: Seq<OutcomeView>,
)
    requires
        has_certificate(env),
        outcomes.len() > 0,
        sign_run(sign_start(request, env), outcomes.drop_last()) is Next,
        sign_run(sign_start(request, env), outcomes) is Done,
    ensures
        sign_run(sign_start(request, env), outcomes.drop_last()) matches ProgressView::Next(
            st,
            action,
        ) && st is TearingDown && action == ActionView::Run(delete_keychain_spec())
            && sign_run(sign_start(request, env), outcomes) == ProgressView::<SigningView>::Done(
            st->TearingDown_result,
        ),
{
    lemma_sign_run(request, env, outcomes, (outcomes.len() - 1) as nat);
    assert(outcomes.take(outcomes.len() - 1) =~= outcomes.drop_last());
}

/// Removing the temporary keychain never fails and never changes what the
/// signing came to, whatever the removing tool reports: also when there was
/// no keychain to remove.
pub proof fn lemma_teardown_keeps_result(result: Result<(), SignErrorView>, o: OutcomeView)
    ensures
        sign_advance(SigningView::TearingDown { result }, o) == ProgressView::<SigningView>::Done(
            result,
        ),
{
}

/// A setup that fails is followed by the removal of the keychain, and the
/// signing then ends with the setup's error.
pub proof fn lemma_failed_setup_is_torn_down(
    request: SignRequestView,
    setup: KeychainSetupView,
    o: OutcomeView,
    removal: OutcomeView,
)
    requires
        setup_advance(setup, o) matches ProgressView::Done(Err(_)),
    ensures
        sign_advance(SigningView::SettingUp { request, setup }, o) matches ProgressView::Next(
            state,
            action,
        ) && action == ActionView::Run(delete_keychain_spec()) && sign_advance(state, removal)
            == ProgressView::<SigningView>::Done(
            Err(
                SignErrorView::KeychainError { step: setup.step, output: failure_detail(o) },
            ),
        ),
{
}

} // verus!
