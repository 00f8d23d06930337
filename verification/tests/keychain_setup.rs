use macos_sign::command::{Action, Invocation, Outcome};
use macos_sign::error::SignError;
use macos_sign::keychain::{
    delete_keychain, setup_keychain, KeychainSetup, SetupStep, KEYCHAIN_ID, KEYCHAIN_PWD,
};
use macos_sign::workflow::Progress;

fn run(program: &str, args: &[&str]) -> Action {
    Action::Run(Invocation {
        program: program.to_string(),
        args: args.iter().map(|a| a.to_string()).collect(),
        working_dir: None,
    })
}

fn ok() -> Outcome {
    Outcome::Exited { success: true, stdout: String::new(), stderr: String::new() }
}

fn printed(stdout: &str) -> Outcome {
    Outcome::Exited { success: true, stdout: stdout.to_string(), stderr: String::new() }
}

fn exit_failure(stderr: &str) -> Outcome {
    Outcome::Exited { success: false, stdout: String::new(), stderr: stderr.to_string() }
}

fn scratch() -> Outcome {
    Outcome::Scratch {
        paths: vec!["/tmp/s/cert.p12".to_string(), "/tmp/s/cert.p12.tmp".to_string()],
    }
}

const LISTING: &str = "    \"/Users/me/Library/Keychains/login.keychain-db\"\n    \"/Library/Keychains/System.keychain\"\n";

/// The outcomes of a setup in which everything goes well.
fn good_outcomes() -> Vec<Outcome> {
    vec![
        exit_failure("no such keychain"),
        printed(LISTING),
        scratch(),
        Outcome::Written,
        ok(),
        ok(),
        ok(),
        ok(),
        ok(),
        ok(),
        ok(),
    ]
}

/// The actions that such a setup asks for.
fn expected_actions() -> Vec<Action> {
    vec![
        run("security", &["delete-keychain", "tauri-build.keychain"]),
        run("security", &["list-keychain", "-d", "user"]),
        Action::CreateScratch {
            file_names: vec!["cert.p12".to_string(), "cert.p12.tmp".to_string()],
        },
        Action::WriteFile {
            path: "/tmp/s/cert.p12.tmp".to_string(),
            contents: "Y2Vy\ndA==".to_string(),
        },
        run("base64", &["--decode", "-i", "/tmp/s/cert.p12.tmp", "-o", "/tmp/s/cert.p12"]),
        run("security", &["create-keychain", "-p", "tauri-build", "tauri-build.keychain"]),
        run("security", &["unlock-keychain", "-p", "tauri-build", "tauri-build.keychain"]),
        run(
            "security",
            &[
                "import",
                "/tmp/s/cert.p12",
                "-k",
                "tauri-build.keychain",
                "-P",
                "secret",
                "-T",
                "/usr/bin/codesign",
                "-T",
                "/usr/bin/pkgbuild",
                "-T",
                "/usr/bin/productbuild",
            ],
        ),
        run("security", &["set-keychain-settings", "-t", "3600", "-u", "tauri-build.keychain"]),
        run(
            "security",
            &[
                "set-key-partition-list",
                "-S",
                "apple-tool:,apple:,codesign:",
                "-s",
                "-k",
                "tauri-build",
                "tauri-build.keychain",
            ],
        ),
        run(
            "security",
            &[
                "list-keychain",
                "-d",
                "user",
                "-s",
                "/Users/me/Library/Keychains/login.keychain-db",
                "/Library/Keychains/System.keychain",
                "tauri-build.keychain",
            ],
        ),
    ]
}

fn start() -> (KeychainSetup, Action) {
    setup_keychain("Y2Vy\ndA==".to_string(), "secret".to_string())
}

/// Feeds the outcomes to a fresh setup; returns the actions it asked for and
/// how it ended, if it did.
fn drive(outcomes: Vec<Outcome>) -> (Vec<Action>, Option<Result<(), SignError>>) {
    let (mut state, first) = start();
    let mut actions = vec![first];
    for outcome in outcomes {
        match state.advance(outcome) {
            Progress::Next(next, action) => {
                state = next;
                actions.push(action);
            }
            Progress::Done(result) => return (actions, Some(result)),
        }
    }
    (actions, None)
}

#[test]
fn keychain_constants() {
    assert_eq!(KEYCHAIN_ID, "tauri-build.keychain");
    assert_eq!(KEYCHAIN_PWD, "tauri-build");
}

#[test]
fn delete_keychain_invocation() {
    assert_eq!(Action::Run(delete_keychain()), run("security", &["delete-keychain", KEYCHAIN_ID]));
}

#[test]
fn setup_begins_by_deleting() {
    let (state, action) = start();
    assert_eq!(state.step, SetupStep::DeleteExisting);
    assert_eq!(state.certificate_encoded, "Y2Vy\ndA==");
    assert_eq!(state.certificate_password, "secret");
    assert_eq!(action, run("security", &["delete-keychain", "tauri-build.keychain"]));
}

#[test]
fn setup_runs_every_step_in_order() {
    let (actions, result) = drive(good_outcomes());
    assert_eq!(actions, expected_actions());
    assert_eq!(result, Some(Ok(())));
}

#[test]
fn setup_is_not_done_before_the_last_step() {
    let mut outcomes = good_outcomes();
    outcomes.pop();
    let (actions, result) = drive(outcomes);
    assert_eq!(actions.len(), 11);
    assert_eq!(result, None);
}

#[test]
fn search_list_is_extended_in_order() {
    let mut outcomes = good_outcomes();
    outcomes[1] = printed("\"b\"\n\"a\"\n\"b\"\n");
    let (actions, result) = drive(outcomes);
    assert_eq!(
        actions[10],
        run("security", &["list-keychain", "-d", "user", "-s", "b", "a", "b", KEYCHAIN_ID])
    );
    assert_eq!(result, Some(Ok(())));
}

#[test]
fn empty_search_list_gets_only_the_keychain() {
    let mut outcomes = good_outcomes();
    outcomes[1] = printed("");
    let (actions, _) = drive(outcomes);
    assert_eq!(actions[10], run("security", &["list-keychain", "-d", "user", "-s", KEYCHAIN_ID]));
}

#[test]
fn keychain_already_listed_is_listed_twice() {
    let mut outcomes = good_outcomes();
    outcomes[1] = printed("\"tauri-build.keychain\"\n\"login\"\n");
    let (actions, _) = drive(outcomes);
    assert_eq!(
        actions[10],
        run(
            "security",
            &[
                "list-keychain",
                "-d",
                "user",
                "-s",
                "tauri-build.keychain",
                "login",
                "tauri-build.keychain"
            ]
        )
    );
}

#[test]
fn deleting_an_absent_keychain_is_no_failure() {
    for first in [
        ok(),
        exit_failure("SecKeychainDelete: The specified keychain could not be found."),
        Outcome::Failed { reason: "security: not found".to_string() },
        Outcome::Written,
    ] {
        let (state, _) = start();
        match state.advance(first) {
            Progress::Next(next, action) => {
                assert_eq!(next.step, SetupStep::QuerySearchList);
                assert_eq!(action, run("security", &["list-keychain", "-d", "user"]));
            }
            Progress::Done(result) => panic!("setup ended with {:?}", result),
        }
    }
}

#[test]
fn failed_query_aborts_the_setup() {
    let mut outcomes = good_outcomes();
    outcomes[1] =
        Outcome::Exited { success: false, stdout: "\"x\"\n".to_string(), stderr: "e".to_string() };
    let (actions, result) = drive(outcomes);
    assert_eq!(
        actions,
        vec![
            run("security", &["delete-keychain", "tauri-build.keychain"]),
            run("security", &["list-keychain", "-d", "user"]),
        ]
    );
    assert_eq!(
        result,
        Some(Err(SignError::KeychainError {
            step: SetupStep::QuerySearchList,
            output: "e".to_string(),
        }))
    );
}

#[test]
fn query_that_cannot_run_fails() {
    let mut outcomes = good_outcomes();
    outcomes[1] = Outcome::Failed { reason: "No such file or directory".to_string() };
    let (actions, result) = drive(outcomes);
    assert_eq!(actions.len(), 2);
    assert_eq!(
        result,
        Some(Err(SignError::KeychainError {
            step: SetupStep::QuerySearchList,
            output: "No such file or directory".to_string(),
        }))
    );
}

#[test]
fn each_failing_step_is_named() {
    let steps = [
        SetupStep::QuerySearchList,
        SetupStep::CreateScratch,
        SetupStep::WriteCertificate,
        SetupStep::DecodeCertificate,
        SetupStep::CreateKeychain,
        SetupStep::UnlockKeychain,
        SetupStep::ImportCertificate,
        SetupStep::ConfigureKeychain,
        SetupStep::SetPartitionList,
        SetupStep::SetSearchList,
    ];
    for (i, step) in steps.iter().enumerate() {
        let mut outcomes = good_outcomes();
        outcomes[i + 1] = Outcome::Failed { reason: format!("broken at {}", i) };
        let (actions, result) = drive(outcomes);
        assert_eq!(actions, expected_actions()[..i + 2].to_vec());
        assert_eq!(
            result,
            Some(Err(SignError::KeychainError { step: *step, output: format!("broken at {}", i) }))
        );
    }
}

#[test]
fn tool_that_exits_with_failure_fails_the_step() {
    let mut outcomes = good_outcomes();
    outcomes[7] = exit_failure("security: SecKeychainItemImport: wrong passphrase");
    let (actions, result) = drive(outcomes);
    assert_eq!(actions.len(), 8);
    assert_eq!(
        result,
        Some(Err(SignError::KeychainError {
            step: SetupStep::ImportCertificate,
            output: "security: SecKeychainItemImport: wrong passphrase".to_string(),
        }))
    );
}

#[test]
fn scratch_with_wrong_number_of_paths_fails() {
    let mut outcomes = good_outcomes();
    outcomes[2] = Outcome::Scratch { paths: vec!["/tmp/s/cert.p12".to_string()] };
    let (_, result) = drive(outcomes);
    assert_eq!(
        result,
        Some(Err(SignError::KeychainError {
            step: SetupStep::CreateScratch,
            output: String::new()
        }))
    );
}

#[test]
fn outcome_of_another_kind_fails_the_step() {
    let mut outcomes = good_outcomes();
    outcomes[3] = ok();
    let (_, result) = drive(outcomes);
    assert_eq!(
        result,
        Some(Err(SignError::KeychainError {
            step: SetupStep::WriteCertificate,
            output: String::new()
        }))
    );
    let mut outcomes = good_outcomes();
    outcomes[5] = Outcome::Written;
    let (_, result) = drive(outcomes);
    assert_eq!(
        result,
        Some(Err(SignError::KeychainError {
            step: SetupStep::CreateKeychain,
            output: String::new()
        }))
    );
}

#[test]
fn keychain_errors_are_described() {
    let texts = [
        (SetupStep::QuerySearchList, "failed to query keychain search list: x"),
        (SetupStep::CreateScratch, "failed to create scratch directory: x"),
        (SetupStep::WriteCertificate, "failed to write certificate: x"),
        (SetupStep::DecodeCertificate, "failed to decode certificate: x"),
        (SetupStep::CreateKeychain, "failed to create keychain: x"),
        (SetupStep::UnlockKeychain, "failed to set unlock keychain: x"),
        (SetupStep::ImportCertificate, "failed to import keychain certificate: x"),
        (SetupStep::ConfigureKeychain, "failed to set keychain settings: x"),
        (SetupStep::SetPartitionList, "failed to set key partition list: x"),
        (SetupStep::SetSearchList, "failed to list keychain: x"),
        (SetupStep::DeleteExisting, "failed to delete keychain: x"),
    ];
    for (step, text) in texts {
        let e = SignError::KeychainError { step, output: "x".to_string() };
        assert_eq!(e.describe(), text);
    }
}
