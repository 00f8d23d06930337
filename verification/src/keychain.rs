//! The temporary signing keychain: how it is set up and removed.

use vstd::prelude::*;
use crate::command::{
    failure_detail, printed, succeeded, texts, tool, Action, ActionView, Invocation,
    InvocationView, Outcome, OutcomeView,
};
use crate::error::{SignError, SignErrorView};
use crate::text::{parse_search_list, search_list_entries};
use crate::workflow::{Progress, ProgressView};

verus! {

/// Identifier of the temporary signing keychain. It is the same for every
/// run, so two runs must not share one user account at the same time.
pub const KEYCHAIN_ID: &'static str = "tauri-build.keychain";

/// Password of the temporary signing keychain.
pub const KEYCHAIN_PWD: &'static str = "tauri-build";

/// The steps of setting up the temporary keychain, in their order.
#[derive(Clone, Copy, Debug, PartialEq, Eq, Structural)]
pub enum SetupStep {
    /// Remove what an earlier run may have left behind.
    DeleteExisting,
    /// Ask for the user's keychain search list.
    QuerySearchList,
    /// Create the directory that holds the certificate files.
    CreateScratch,
    /// Write the encoded certificate to a file.
    WriteCertificate,
    /// Decode the certificate with the system's `base64` tool.
    DecodeCertificate,
    /// Create the keychain.
    CreateKeychain,
    /// Unlock the keychain.
    UnlockKeychain,
    /// Import the decoded certificate into the keychain.
    ImportCertificate,
    /// Set the time after which the keychain locks itself.
    ConfigureKeychain,
    /// Let the signing tools use the key without a prompt.
    SetPartitionList,
    /// Put the keychain at the end of the user's search list.
    SetSearchList,
}

/// The invocation that removes the temporary keychain.
pub open spec fn delete_keychain_spec() -> InvocationView {
    tool("security"@, seq!["delete-keychain"@, KEYCHAIN_ID@])
}

/// Describes the removal of the temporary keychain. Whatever comes of
/// running it is disregarded: removal is also asked for when no such
/// keychain exists.
pub fn delete_keychain() -> (inv: Invocation)
    ensures
        inv@ == delete_keychain_spec(),
{
    let mut inv = Invocation::new("security");
    inv.arg("delete-keychain");
    inv.arg(KEYCHAIN_ID);
    assert(inv@.args =~= delete_keychain_spec().args);
    inv
}

/// Name of the file that receives the decoded certificate.
pub const DECODED_FILE: &'static str = "cert.p12";

/// Name of the file that receives the certificate as it was handed in.
pub const ENCODED_FILE: &'static str = "cert.p12.tmp";

/// The invocation that asks for the user's keychain search list.
pub open spec fn query_search_list_spec() -> InvocationView {
    tool("security"@, seq!["list-keychain"@, "-d"@, "user"@])
}

/// The invocation that decodes the certificate. The system's own tool does
/// it, since it copes with white space inside the encoded text.
pub open spec fn decode_certificate_spec(
    encoded_path: Seq<char>,
    decoded_path: Seq<char>,
) -> InvocationView {
    tool("base64"@, seq!["--decode"@, "-i"@, encoded_path, "-o"@, decoded_path])
}

/// The invocation that creates the temporary keychain.
pub open spec fn create_keychain_spec() -> InvocationView {
    tool("security"@, seq!["create-keychain"@, "-p"@, KEYCHAIN_PWD@, KEYCHAIN_ID@])
}

/// The invocation that unlocks the temporary keychain.
pub open spec fn unlock_keychain_spec() -> InvocationView {
    tool("security"@, seq!["unlock-keychain"@, "-p"@, KEYCHAIN_PWD@, KEYCHAIN_ID@])
}

/// The invocation that imports the certificate and lets exactly the
/// signing, package-build and product-build tools use it.
pub open spec fn import_certificate_spec(
    decoded_path: Seq<char>,
    certificate_password: Seq<char>,
) -> InvocationView {
    tool(
        "security"@,
        seq![
            "import"@,
            decoded_path,
            "-k"@,
            KEYCHAIN_ID@,
            "-P"@,
            certificate_password,
            "-T"@,
            "/usr/bin/codesign"@,
            "-T"@,
            "/usr/bin/pkgbuild"@,
            "-T"@,
            "/usr/bin/productbuild"@,
        ],
    )
}

/// The invocation that makes the keychain lock itself after 3600 seconds.
pub open spec fn configure_keychain_spec() -> InvocationView {
    tool("security"@, seq!["set-keychain-settings"@, "-t"@, "3600"@, "-u"@, KEYCHAIN_ID@])
}

/// The invocation that lets the system's signing tools use the key without
/// asking each time.
pub open spec fn partition_list_spec() -> InvocationView {
    tool(
        "security"@,
        seq![
            "set-key-partition-list"@,
            "-S"@,
            "apple-tool:,apple:,codesign:"@,
            "-s"@,
            "-k"@,
            KEYCHAIN_PWD@,
            KEYCHAIN_ID@,
        ],
    )
}

/// The search list that takes the place of `current`: `current` as it is,
/// then the temporary keychain.
pub open spec fn extended_search_list(current: Seq<Seq<char>>) -> Seq<Seq<char>> {
    current.push(KEYCHAIN_ID@)
}

/// The invocation that replaces the user's keychain search list.
pub open spec fn set_search_list_spec(current: Seq<Seq<char>>) -> InvocationView {
    tool(
        "security"@,
        seq!["list-keychain"@, "-d"@, "user"@, "-s"@] + extended_search_list(current),
    )
}

/// A keychain setup under way.
#[derive(Debug, Clone, PartialEq, Eq)]
pub struct KeychainSetup {
    /// The step whose outcome is awaited.
    pub step: SetupStep,
    /// The certificate, encoded in base64.
    pub certificate_encoded: String,
    /// The password that protects the certificate.
    pub certificate_password: String,
    /// The user's search list as it was before the setup.
    pub search_list: Vec<String>,
    /// Where the encoded certificate is written.
    pub encoded_path: String,
    /// Where the decoded certificate is written.
    pub decoded_path: String,
}

/// Mathematical content of a [`KeychainSetup`].
pub ghost struct KeychainSetupView {
    pub step: SetupStep,
    pub certificate_encoded: Seq<char>,
    pub certificate_password: Seq<char>,
    pub search_list: Seq<Seq<char>>,
    pub encoded_path: Seq<char>,
    pub decoded_path: Seq<char>,
}

impl View for KeychainSetup {
    type V = KeychainSetupView;

    open spec fn view(&self) -> KeychainSetupView {
        KeychainSetupView {
            step: self.step,
            certificate_encoded: self.certificate_encoded@,
            certificate_password: self.certificate_password@,
            search_list: texts(self.search_list@),
            encoded_path: self.encoded_path@,
            decoded_path: self.decoded_path@,
        }
    }
}

/// The step that follows `step`, if any.
pub open spec fn next_step(step: SetupStep) -> Option<SetupStep> {
    match step {
        SetupStep::DeleteExisting => Some(SetupStep::QuerySearchList),
        SetupStep::QuerySearchList => Some(SetupStep::CreateScratch),
        SetupStep::CreateScratch => Some(SetupStep::WriteCertificate),
        SetupStep::WriteCertificate => Some(SetupStep::DecodeCertificate),
        SetupStep::DecodeCertificate => Some(SetupStep::CreateKeychain),
        SetupStep::CreateKeychain => Some(SetupStep::UnlockKeychain),
        SetupStep::UnlockKeychain => Some(SetupStep::ImportCertificate),
        SetupStep::ImportCertificate => Some(SetupStep::ConfigureKeychain),
        SetupStep::ConfigureKeychain => Some(SetupStep::SetPartitionList),
        SetupStep::SetPartitionList => Some(SetupStep::SetSearchList),
        SetupStep::SetSearchList => None,
    }
}

/// Number of steps that are still to be done, `step` included.
pub open spec fn steps_left(step: SetupStep) -> nat {
    match step {
        SetupStep::DeleteExisting => 11,
        SetupStep::QuerySearchList => 10,
        SetupStep::CreateScratch => 9,
        SetupStep::WriteCertificate => 8,
        SetupStep::DecodeCertificate => 7,
        SetupStep::CreateKeychain => 6,
        SetupStep::UnlockKeychain => 5,
        SetupStep::ImportCertificate => 4,
        SetupStep::ConfigureKeychain => 3,
        SetupStep::SetPartitionList => 2,
        SetupStep::SetSearchList => 1,
    }
}

/// The external work that the step of `st` consists of.
pub open spec fn setup_action(st: KeychainSetupView) -> ActionView {
    match st.step {
        SetupStep::DeleteExisting => ActionView::Run(delete_keychain_spec()),
        SetupStep::QuerySearchList => ActionView::Run(query_search_list_spec()),
        SetupStep::CreateScratch => ActionView::CreateScratch {
            file_names: seq![DECODED_FILE@, ENCODED_FILE@],
        },
        SetupStep::WriteCertificate => ActionView::WriteFile {
            path: st.encoded_path,
            contents: st.certificate_encoded,
        },
        SetupStep::DecodeCertificate => ActionView::Run(
            decode_certificate_spec(st.encoded_path, st.decoded_path),
        ),
        SetupStep::CreateKeychain => ActionView::Run(create_keychain_spec()),
        SetupStep::UnlockKeychain => ActionView::Run(unlock_keychain_spec()),
        SetupStep::ImportCertificate => ActionView::Run(
            import_certificate_spec(st.decoded_path, st.certificate_password),
        ),
        SetupStep::ConfigureKeychain => ActionView::Run(configure_keychain_spec()),
        SetupStep::SetPartitionList => ActionView::Run(partition_list_spec()),
        SetupStep::SetSearchList => ActionView::Run(set_search_list_spec(st.search_list)),
    }
}

/// What the setup knows once the step of `st` has gone well, or `None` if
/// the outcome says that the step failed.
///
/// Removing an earlier keychain cannot fail. Every later tool must run and
/// report success; what the query printed is read only then.
pub open spec fn setup_absorb(st: KeychainSetupView, o: OutcomeView) -> Option<
    KeychainSetupView,
> {
    match st.step {
        SetupStep::DeleteExisting => Some(st),
        SetupStep::QuerySearchList => if succeeded(o) {
            Some(KeychainSetupView { search_list: search_list_entries(printed(o)), ..st })
        } else {
            None
        },
        SetupStep::CreateScratch => match o {
            OutcomeView::Scratch { paths } if paths.len() == 2 => Some(
                KeychainSetupView { decoded_path: paths[0], encoded_path: paths[1], ..st },
            ),
            _ => None,
        },
        SetupStep::WriteCertificate => if o is Written {
            Some(st)
        } else {
            None
        },
        _ => if succeeded(o) {
            Some(st)
        } else {
            None
        },
    }
}

/// The setup after the outcome `o` of the step of `st`: a failed step ends
/// it with an error that names the step and carries the diagnostic text;
/// otherwise the next step is asked for, and after the last one the setup
/// has succeeded.
pub open spec fn setup_advance(st: KeychainSetupView, o: OutcomeView) -> ProgressView<
    KeychainSetupView,
> {
    match setup_absorb(st, o) {
        None => ProgressView::Done(
            Err(SignErrorView::KeychainError { step: st.step, output: failure_detail(o) }),
        ),
        Some(learned) => match next_step(st.step) {
            None => ProgressView::Done(Ok(())),
            Some(step) => {
                let next = KeychainSetupView { step, ..learned };
                ProgressView::Next(next, setup_action(next))
            },
        },
    }
}

/// The setup before its first step.
pub open spec fn setup_start(
    certificate_encoded: Seq<char>,
    certificate_password: Seq<char>,
) -> KeychainSetupView {
    KeychainSetupView {
        step: SetupStep::DeleteExisting,
        certificate_encoded,
        certificate_password,
        search_list: Seq::empty(),
        encoded_path: Seq::empty(),
        decoded_path: Seq::empty(),
    }
}

/// Begins the setup of the temporary keychain from a certificate encoded in
/// base64 and its password. The first action removes what an earlier run
/// may have left behind.
///
/// The setup does not undo its completed steps when a later one fails:
/// whoever started it removes the keychain with [`delete_keychain`].
pub fn setup_keychain(certificate_encoded: String, certificate_password: String) -> (started: (
    KeychainSetup,
    Action,
))
    ensures
        started.0@ == setup_start(certificate_encoded@, certificate_password@),
        started.1@ == setup_action(started.0@),
{
    let st = KeychainSetup {
        step: SetupStep::DeleteExisting,
        certificate_encoded,
        certificate_password,
        search_list: Vec::new(),
        encoded_path: String::new(),
        decoded_path: String::new(),
    };
    assert(st@.search_list =~= Seq::empty());
    let action = st.action();
    (st, action)
}

/// Gives the step that follows `step`, if any.
fn following(step: SetupStep) -> (next: Option<SetupStep>)
    ensures
        next == next_step(step),
{
    match step {
        SetupStep::DeleteExisting => Some(SetupStep::QuerySearchList),
        SetupStep::QuerySearchList => Some(SetupStep::CreateScratch),
        SetupStep::CreateScratch => Some(SetupStep::WriteCertificate),
        SetupStep::WriteCertificate => Some(SetupStep::DecodeCertificate),
        SetupStep::DecodeCertificate => Some(SetupStep::CreateKeychain),
        SetupStep::CreateKeychain => Some(SetupStep::UnlockKeychain),
        SetupStep::UnlockKeychain => Some(SetupStep::ImportCertificate),
        SetupStep::ImportCertificate => Some(SetupStep::ConfigureKeychain),
        SetupStep::ConfigureKeychain => Some(SetupStep::SetPartitionList),
        SetupStep::SetPartitionList => Some(SetupStep::SetSearchList),
        SetupStep::SetSearchList => None,
    }
}

/// Builds an invocation of `security` on the given arguments.
fn security(args: &[&str]) -> (inv: Invocation)
    ensures
        inv@ == tool("security"@, Seq::new(args@.len(), |i: int| args@[i]@)),
{
    let mut inv = Invocation::new("security");
    let mut i: usize = 0;
    assert(inv@.args =~= Seq::new(0, |k: int| args@[k]@));
    while i < args.len()
        invariant
            i <= args.len(),
            inv@ == tool("security"@, Seq::new(i as nat, |k: int| args@[k]@)),
        decreases args.len() - i,
    {
        inv.arg(args[i]);
        assert(inv@.args =~= Seq::new((i + 1) as nat, |k: int| args@[k]@));
        i += 1;
    }
    inv
}

impl KeychainSetup {
    /// Describes the external work of the current step.
    pub fn action(&self) -> (action: Action)
        ensures
            action@ == setup_action(self@),
    {
        match self.step {
            SetupStep::DeleteExisting => Action::Run(delete_keychain()),
            SetupStep::QuerySearchList => {
                let inv = security(&["list-keychain", "-d", "user"]);
                assert(inv@.args =~= query_search_list_spec().args);
                Action::Run(inv)
            },
            SetupStep::CreateScratch => {
                let mut file_names: Vec<String> = Vec::new();
                file_names.push(DECODED_FILE.to_string());
                file_names.push(ENCODED_FILE.to_string());
                assert(texts(file_names@) =~= seq![DECODED_FILE@, ENCODED_FILE@]);
                Action::CreateScratch { file_names }
            },
            SetupStep::WriteCertificate => Action::WriteFile {
                path: self.encoded_path.clone(),
                contents: self.certificate_encoded.clone(),
            },
            SetupStep::DecodeCertificate => {
                let mut inv = Invocation::new("base64");
                inv.arg("--decode");
                inv.arg("-i");
                inv.arg(self.encoded_path.as_str());
                inv.arg("-o");
                inv.arg(self.decoded_path.as_str());
                assert(inv@.args =~= decode_certificate_spec(
                    self@.encoded_path,
                    self@.decoded_path,
                ).args);
                Action::Run(inv)
            },
            SetupStep::CreateKeychain => {
                let inv = security(&["create-keychain", "-p", KEYCHAIN_PWD, KEYCHAIN_ID]);
                assert(inv@.args =~= create_keychain_spec().args);
                Action::Run(inv)
            },
            SetupStep::UnlockKeychain => {
                let inv = security(&["unlock-keychain", "-p", KEYCHAIN_PWD, KEYCHAIN_ID]);
                assert(inv@.args =~= unlock_keychain_spec().args);
                Action::Run(inv)
            },
            SetupStep::ImportCertificate => {
                let inv = security(
                    &[
                        "import",
                        self.decoded_path.as_str(),
                        "-k",
                        KEYCHAIN_ID,
                        "-P",
                        self.certificate_password.as_str(),
                        "-T",
                        "/usr/bin/codesign",
                        "-T",
                        "/usr/bin/pkgbuild",
                        "-T",
                        "/usr/bin/productbuild",
                    ],
                );
                assert(inv@.args =~= import_certificate_spec(
                    self@.decoded_path,
                    self@.certificate_password,
                ).args);
                Action::Run(inv)
            },
            SetupStep::ConfigureKeychain => {
                let inv = security(&["set-keychain-settings", "-t", "3600", "-u", KEYCHAIN_ID]);
                assert(inv@.args =~= configure_keychain_spec().args);
                Action::Run(inv)
            },
            SetupStep::SetPartitionList => {
                let inv = security(
                    &[
                        "set-key-partition-list",
                        "-S",
                        "apple-tool:,apple:,codesign:",
                        "-s",
                        "-k",
                        KEYCHAIN_PWD,
                        KEYCHAIN_ID,
                    ],
                );
                assert(inv@.args =~= partition_list_spec().args);
                Action::Run(inv)
            },
            SetupStep::SetSearchList => {
                let mut inv = security(&["list-keychain", "-d", "user", "-s"]);
                inv.args(&self.search_list);
                inv.arg(KEYCHAIN_ID);
                assert(inv@.args =~= set_search_list_spec(self@.search_list).args);
                Action::Run(inv)
            },
        }
    }

    /// Takes in what the outcome of the current step tells. Returns whether
    /// the step went well.
    fn absorb(&mut self, outcome: &Outcome) -> (ok: bool)
        ensures
            ok == setup_absorb(old(self)@, outcome@).is_some(),
            ok ==> setup_absorb(old(self)@, outcome@) == Some(final(self)@),
            final(self).step == old(self).step,
    {
        match self.step {
            SetupStep::DeleteExisting => true,
            SetupStep::QuerySearchList => match outcome {
                Outcome::Exited { success, stdout, .. } => {
                    if *success {
                        self.search_list = parse_search_list(stdout.as_str());
                        true
                    } else {
                        false
                    }
                },
                _ => false,
            },
            SetupStep::CreateScratch => match outcome {
                Outcome::Scratch { paths } => {
                    if paths.len() == 2 {
                        self.decoded_path = paths[0].clone();
                        self.encoded_path = paths[1].clone();
                        true
                    } else {
                        false
                    }
                },
                _ => false,
            },
            SetupStep::WriteCertificate => match outcome {
                Outcome::Written => true,
                _ => false,
            },
            _ => outcome.succeeded(),
        }
    }

    /// Moves the setup on after the outcome of its current step.
    pub fn advance(self, outcome: Outcome) -> (progress: Progress<KeychainSetup>)
        ensures
            progress@ == setup_advance(self@, outcome@),
    {
        let mut st = self;
        let step = st.step;
        if !st.absorb(&outcome) {
            return Progress::Done(
                Err(SignError::KeychainError { step, output: outcome.into_detail() }),
            );
        }
        match following(step) {
            None => Progress::Done(Ok(())),
            Some(next) => {
                st.step = next;
                let action = st.action();
                Progress::Next(st, action)
            },
        }
    }
}

/// Where the setup stands after the outcomes of its actions were reported
/// to it one after the other, from the state `st` on. Once the setup has
/// ended, further outcomes change nothing.
pub open spec fn setup_run(st: KeychainSetupView, outcomes: Seq<OutcomeView>) -> ProgressView<
    KeychainSetupView,
>
    decreases outcomes.len(),
{
    if outcomes.len() == 0 {
        ProgressView::Next(st, setup_action(st))
    } else {
        match setup_run(st, outcomes.drop_last()) {
            ProgressView::Next(reached, _) => setup_advance(reached, outcomes.last()),
            ProgressView::Done(result) => ProgressView::Done(result),
        }
    }
}

/// What holds of a setup that is still under way after the first `k` of the
/// outcomes: it stands at its step number `k`, asks for that step's action,
/// holds the certificate it began with, and from the second step on holds
/// the search list that the query printed.
proof fn lemma_setup_run(
    certificate_encoded: Seq<char>,
    certificate_password: Seq<char>,
    outcomes: Seq<OutcomeView>,
    k: nat,
)
    requires
        k <= outcomes.len(),
    ensures
        setup_run(setup_start(certificate_encoded, certificate_password), outcomes.take(k as int))
            matches ProgressView::Next(st, action) ==> {
            &&& steps_left(st.step) + k == 11
            &&& action == setup_action(st)
            &&& st.certificate_encoded == certificate_encoded
            &&& st.certificate_password == certificate_password
            &&& k >= 2 ==> succeeded(outcomes[1]) && st.search_list == search_list_entries(
                printed(outcomes[1]),
            )
        },
    decreases k,
{
    if k > 0 {
        lemma_setup_run(certificate_encoded, certificate_password, outcomes, (k - 1) as nat);
        assert(outcomes.take(k as int).drop_last() =~= outcomes.take(k - 1));
        assert(outcomes.take(k as int).last() == outcomes[k - 1]);
    }
}

/// A setup that reaches its last step replaces the user's search list by
/// the list it found, entry for entry and in the same order, followed by
/// the temporary keychain. The list it found is what the query printed
/// when it reported success, read as [`search_list_entries`] says; an entry
/// that already names the temporary keychain stays where it is.
pub proof fn lemma_setup_extends_search_list(
    certificate_encoded: Seq<char>,
    certificate_password: Seq<char>,
    outcomes: Seq<OutcomeView>,
)
    requires
        setup_run(setup_start(certificate_encoded, certificate_password), outcomes)
            matches ProgressView::Next(st, _) && st.step == SetupStep::SetSearchList,
    ensures
        outcomes.len() == 10,
        succeeded(outcomes[1]),
        ({
            let found = search_list_entries(printed(outcomes[1]));
            &&& setup_run(setup_start(certificate_encoded, certificate_password), outcomes)
                matches ProgressView::Next(_, action) && action == ActionView::Run(
                set_search_list_spec(found),
            )
            &&& set_search_list_spec(found).args == seq![
                "list-keychain"@,
                "-d"@,
                "user"@,
                "-s"@,
            ] + found + seq![KEYCHAIN_ID@]
            &&& extended_search_list(found).len() == found.len() + 1
            &&& extended_search_list(found).last() == KEYCHAIN_ID@
            &&& forall|i: int| 0 <= i < found.len() ==> extended_search_list(found)[i] == found[i]
        }),
{
    lemma_setup_run(certificate_encoded, certificate_password, outcomes, outcomes.len());
    assert(outcomes.take(outcomes.len() as int) =~= outcomes);
    let found = search_list_entries(printed(outcomes[1]));
    assert(set_search_list_spec(found).args =~= seq!["list-keychain"@, "-d"@, "user"@, "-s"@]
        + found + seq![KEYCHAIN_ID@]);
}

/// A query for the search list that does not run, or does not report
/// success, ends the setup: no keychain is created and the search list is
/// left as it is.
pub proof fn lemma_failed_query_ends_setup(st: KeychainSetupView, o: OutcomeView)
    requires
        st.step == SetupStep::QuerySearchList,
        !succeeded(o),
    ensures
        setup_advance(st, o) == ProgressView::<KeychainSetupView>::Done(
            Err(
                SignErrorView::KeychainError {
                    step: SetupStep::QuerySearchList,
                    output: failure_detail(o),
                },
            ),
        ),
{
}

/// A setup ends with success only after all its eleven steps, and an error
/// names a step that can fail: never the removal of an earlier keychain,
/// which is followed by the query whatever the removing tool reports.
pub proof fn lemma_setup_end(st: KeychainSetupView, o: OutcomeView)
    ensures
        st.step == SetupStep::DeleteExisting ==> setup_advance(st, o) == ProgressView::Next(
            KeychainSetupView { step: SetupStep::QuerySearchList, ..st },
            ActionView::Run(query_search_list_spec()),
        ),
        setup_advance(st, o) matches ProgressView::Done(Ok(_)) ==> st.step
            == SetupStep::SetSearchList && succeeded(o),
        setup_advance(st, o) matches ProgressView::Done(Err(e)) ==> e
            == (SignErrorView::KeychainError { step: st.step, output: failure_detail(o) })
            && st.step != SetupStep::DeleteExisting,
        setup_advance(st, o) matches ProgressView::Next(next, action) ==> steps_left(next.step)
            < steps_left(st.step) && action == setup_action(next),
{
}

} // verus!
