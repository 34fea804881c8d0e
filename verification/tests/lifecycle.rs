use agenix::config::Config;
use agenix::crypto::{CryptoError, CryptoManager};
use agenix::lifecycle::{
    crypto_error, detect_change, editor_call, read_reply, Action, EditError, EditOutcome,
    EditSession, EditorChoice, Event, Phase, Reply,
};
use agenix::nix::NixError;
use agenix::process::{Invocation, ProcessReply};

fn config() -> Config {
    Config::new().with_rules_path("./secrets.nix")
}

fn crypto() -> CryptoManager {
    let mut manager = CryptoManager::new(config());
    manager.add_identity("/keys/id");
    manager
}

fn answer(text: &str) -> Reply {
    Reply::Process(ProcessReply::exited(true, text.as_bytes().to_vec()))
}

fn exit_ok() -> Reply {
    Reply::Process(ProcessReply::exited(true, Vec::new()))
}

fn exit_failed() -> Reply {
    Reply::Process(ProcessReply::exited(false, Vec::new()))
}

fn strings(items: &[&str]) -> Vec<String> {
    items.iter().map(|s| s.to_string()).collect()
}

fn contents(working_copy: Option<&[u8]>, snapshot: Option<&[u8]>) -> Reply {
    Reply::Contents {
        working_copy: working_copy.map(|b| b.to_vec()),
        snapshot: snapshot.map(|b| b.to_vec()),
    }
}

fn start(target: &str, editor: EditorChoice) -> (EditSession, Action) {
    EditSession::start(target, &config(), &crypto(), &Vec::new(), editor)
}

/// A session that has decrypted an existing target and waits for the
/// inspection after the editor ran.
fn edited(target: &str) -> EditSession {
    let (mut session, _) = start(target, EditorChoice::Run("vi".to_string()));
    session.step(answer("[\"age1abc\"]"));
    session.step(answer("false"));
    session.step(Reply::Workspace("/tmp/ws".to_string()));
    session.step(Reply::Exists(true));
    session.step(exit_ok());
    session.step(Reply::Exists(true));
    session.step(Reply::Done);
    let action = session.step(exit_ok());
    assert!(matches!(action, Action::Inspect { .. }));
    session
}

#[test]
fn edit_of_an_existing_secret_step_by_step() {
    let (mut session, first) = start("secrets/db.age", EditorChoice::Run("vi".to_string()));
    assert_eq!(session.phase(), Phase::Recipients);
    assert_eq!(session.target(), "secrets/db.age");
    assert_eq!(
        first,
        Action::Run(Invocation {
            program: "nix-instantiate".to_string(),
            args: strings(&[
                "--json",
                "--eval",
                "--strict",
                "-E",
                "(let rules = import ./secrets.nix; in rules.\"secrets/db.age\".publicKeys)"
            ]),
            input: None,
            capture: true,
        })
    );

    let action = session.step(answer("[\"age1abc\",\"age1def\"]\n"));
    assert_eq!(session.phase(), Phase::Armor);
    match action {
        Action::Run(call) => {
            assert_eq!(call.program, "nix-instantiate");
            assert!(call.args[4].contains("builtins.hasAttr \"armor\""));
        }
        other => panic!("unexpected action: {:?}", other),
    }

    let action = session.step(answer("true\n"));
    assert_eq!(action, Action::CreateWorkspace);

    let action = session.step(Reply::Workspace("/tmp/ws".to_string()));
    assert_eq!(action, Action::Exists("secrets/db.age".to_string()));

    let action = session.step(Reply::Exists(true));
    assert_eq!(
        action,
        Action::Run(Invocation {
            program: "age".to_string(),
            args: strings(&[
                "--decrypt",
                "--identity",
                "/keys/id",
                "-o",
                "/tmp/ws/db.age",
                "--",
                "secrets/db.age"
            ]),
            input: None,
            capture: false,
        })
    );

    let action = session.step(exit_ok());
    assert_eq!(action, Action::Exists("/tmp/ws/db.age".to_string()));
    assert_eq!(session.phase(), Phase::PlaintextProbe);

    let action = session.step(Reply::Exists(true));
    assert_eq!(
        action,
        Action::Copy {
            from: "/tmp/ws/db.age".to_string(),
            to: "/tmp/ws/db.age.before".to_string(),
        }
    );

    let action = session.step(Reply::Done);
    assert_eq!(
        action,
        Action::Run(Invocation {
            program: "sh".to_string(),
            args: strings(&["-c", "vi '/tmp/ws/db.age'"]),
            input: None,
            capture: false,
        })
    );

    let action = session.step(exit_ok());
    assert_eq!(
        action,
        Action::Inspect {
            working_copy: "/tmp/ws/db.age".to_string(),
            snapshot: "/tmp/ws/db.age.before".to_string(),
        }
    );

    let action = session.step(contents(Some(b"new secret\n"), Some(b"old secret\n")));
    assert_eq!(action, Action::CreateParentDirs("secrets/db.age".to_string()));

    let action = session.step(Reply::Done);
    assert_eq!(
        action,
        Action::Run(Invocation {
            program: "age".to_string(),
            args: strings(&[
                "--armor",
                "--recipient",
                "age1abc",
                "--recipient",
                "age1def",
                "-o",
                "secrets/db.age"
            ]),
            input: Some(b"new secret\n".to_vec()),
            capture: false,
        })
    );

    let action = session.step(exit_ok());
    assert_eq!(action, Action::RemoveWorkspace("/tmp/ws".to_string()));
    assert_eq!(session.phase(), Phase::Cleanup);
    assert!(!session.is_finished());

    let action = session.step(Reply::Done);
    assert_eq!(action, Action::Finish(Ok(EditOutcome::Changed)));
    assert!(session.is_finished());
}

#[test]
fn encryption_input_is_the_plaintext_after_the_edit() {
    let plaintext: Vec<u8> = vec![0, 159, 146, 150, 10, 13, 255];
    let mut session = edited("binary.age");
    session.step(contents(Some(&plaintext), Some(b"before")));
    match session.step(Reply::Done) {
        Action::Run(call) => assert_eq!(call.input, Some(plaintext)),
        other => panic!("unexpected action: {:?}", other),
    }
}

#[test]
fn unchanged_plaintext_is_not_encrypted_again() {
    let mut session = edited("secret.age");
    let action = session.step(contents(Some(b"same bytes\n"), Some(b"same bytes\n")));
    assert_eq!(action, Action::RemoveWorkspace("/tmp/ws".to_string()));
    let action = session.step(Reply::Done);
    assert_eq!(action, Action::Finish(Ok(EditOutcome::Unchanged)));
    // Whatever comes later, the answer stays the same.
    assert_eq!(
        session.step(exit_ok()),
        Action::Finish(Ok(EditOutcome::Unchanged))
    );
    assert_eq!(
        session.step(Reply::Failed),
        Action::Finish(Ok(EditOutcome::Unchanged))
    );
}

#[test]
fn missing_working_copy_is_not_an_error() {
    let mut session = edited("secret.age");
    let action = session.step(contents(None, Some(b"old")));
    assert_eq!(action, Action::RemoveWorkspace("/tmp/ws".to_string()));
    assert_eq!(
        session.step(Reply::Done),
        Action::Finish(Ok(EditOutcome::NotCreated))
    );
}

#[test]
fn empty_recipient_set_fails_before_anything_is_touched() {
    let (mut session, first) = start("orphan.age", EditorChoice::Run("vi".to_string()));
    assert!(matches!(first, Action::Run(_)));
    let action = session.step(answer("[]"));
    assert_eq!(action, Action::Finish(Err(EditError::NoRuleForTarget)));
    assert!(session.is_finished());
    assert_eq!(
        session.step(Reply::Done),
        Action::Finish(Err(EditError::NoRuleForTarget))
    );
}

#[test]
fn recipients_that_are_no_strings_do_not_count() {
    let (mut session, _) = start("orphan.age", EditorChoice::Skip);
    let action = session.step(answer("[1, null]"));
    assert_eq!(action, Action::Finish(Err(EditError::NoRuleForTarget)));
}

#[test]
fn new_secret_is_edited_without_decryption() {
    let (mut session, _) = start("new.age", EditorChoice::Run("nano -w".to_string()));
    session.step(answer("[\"k\"]"));
    session.step(answer("false"));
    session.step(Reply::Workspace("/run/ws/".to_string()));
    let action = session.step(Reply::Exists(false));
    assert_eq!(
        action,
        Action::Run(Invocation {
            program: "sh".to_string(),
            args: strings(&["-c", "nano -w '/run/ws/new.age'"]),
            input: None,
            capture: false,
        })
    );
    session.step(exit_ok());
    let action = session.step(contents(Some(b"fresh"), None));
    assert_eq!(action, Action::CreateParentDirs("new.age".to_string()));
    match session.step(Reply::Done) {
        Action::Run(call) => {
            assert_eq!(call.args, strings(&["--recipient", "k", "-o", "new.age"]));
            assert_eq!(call.input, Some(b"fresh".to_vec()));
        }
        other => panic!("unexpected action: {:?}", other),
    }
    assert_eq!(
        session.step(exit_ok()),
        Action::RemoveWorkspace("/run/ws/".to_string())
    );
    assert_eq!(
        session.step(Reply::Done),
        Action::Finish(Ok(EditOutcome::Changed))
    );
}

#[test]
fn new_secret_that_the_editor_did_not_create() {
    let (mut session, _) = start("new.age", EditorChoice::Run("vi".to_string()));
    session.step(answer("[\"k\"]"));
    session.step(answer("false"));
    session.step(Reply::Workspace("/tmp/ws".to_string()));
    session.step(Reply::Exists(false));
    session.step(exit_ok());
    assert_eq!(
        session.step(contents(None, None)),
        Action::RemoveWorkspace("/tmp/ws".to_string())
    );
    assert_eq!(
        session.step(Reply::Done),
        Action::Finish(Ok(EditOutcome::NotCreated))
    );
}

#[test]
fn skipped_editor_always_encrypts_again() {
    let (mut session, _) = start("secret.age", EditorChoice::Skip);
    session.step(answer("[\"k\"]"));
    session.step(answer("false"));
    session.step(Reply::Workspace("/tmp/ws".to_string()));
    session.step(Reply::Exists(true));
    session.step(exit_ok());
    session.step(Reply::Exists(true));
    // No editor runs: the inspection follows the snapshot at once.
    let action = session.step(Reply::Done);
    assert_eq!(
        action,
        Action::Inspect {
            working_copy: "/tmp/ws/secret.age".to_string(),
            snapshot: "/tmp/ws/secret.age.before".to_string(),
        }
    );
    let action = session.step(contents(Some(b"same"), Some(b"same")));
    assert_eq!(action, Action::CreateParentDirs("secret.age".to_string()));
}

#[test]
fn editor_failure_cleans_up_and_leaves_the_target() {
    let (mut session, _) = start("secret.age", EditorChoice::Run("vi".to_string()));
    session.step(answer("[\"k\"]"));
    session.step(answer("false"));
    session.step(Reply::Workspace("/tmp/ws".to_string()));
    session.step(Reply::Exists(true));
    session.step(exit_ok());
    session.step(Reply::Exists(true));
    session.step(Reply::Done);
    let action = session.step(exit_failed());
    assert_eq!(action, Action::RemoveWorkspace("/tmp/ws".to_string()));
    assert_eq!(
        session.step(Reply::Done),
        Action::Finish(Err(EditError::EditorFailed))
    );
}

#[test]
fn editor_that_cannot_start_counts_as_failed() {
    let (mut session, _) = start("secret.age", EditorChoice::Run("vi".to_string()));
    session.step(answer("[\"k\"]"));
    session.step(answer("false"));
    session.step(Reply::Workspace("/tmp/ws".to_string()));
    session.step(Reply::Exists(false));
    let action = session.step(Reply::Process(ProcessReply::not_started()));
    assert_eq!(action, Action::RemoveWorkspace("/tmp/ws".to_string()));
    assert_eq!(
        session.step(Reply::Done),
        Action::Finish(Err(EditError::EditorFailed))
    );
}

#[test]
fn decryption_failure_cleans_up() {
    let (mut session, _) = start("secret.age", EditorChoice::Run("vi".to_string()));
    session.step(answer("[\"k\"]"));
    session.step(answer("false"));
    session.step(Reply::Workspace("/tmp/ws".to_string()));
    session.step(Reply::Exists(true));
    let action = session.step(exit_failed());
    assert_eq!(action, Action::RemoveWorkspace("/tmp/ws".to_string()));
    assert_eq!(
        session.step(Reply::Failed),
        Action::Finish(Err(EditError::CryptoFailed(CryptoError::DecryptFailed)))
    );
}

#[test]
fn encryption_failure_cleans_up() {
    let mut session = edited("secret.age");
    session.step(contents(Some(b"new"), Some(b"old")));
    session.step(Reply::Done);
    let action = session.step(exit_failed());
    assert_eq!(action, Action::RemoveWorkspace("/tmp/ws".to_string()));
    assert_eq!(
        session.step(Reply::Done),
        Action::Finish(Err(EditError::CryptoFailed(CryptoError::EncryptFailed)))
    );
}

#[test]
fn age_that_cannot_start_is_reported() {
    let mut session = edited("secret.age");
    session.step(contents(Some(b"new"), Some(b"old")));
    session.step(Reply::Done);
    session.step(Reply::Process(ProcessReply::not_started()));
    assert_eq!(
        session.step(Reply::Done),
        Action::Finish(Err(EditError::CryptoFailed(CryptoError::NotStarted)))
    );
}

#[test]
fn no_identity_is_fatal_at_decrypt_time() {
    let bare = CryptoManager::new(config());
    let (mut session, _) = EditSession::start(
        "secret.age",
        &config(),
        &bare,
        &Vec::new(),
        EditorChoice::Run("vi".to_string()),
    );
    session.step(answer("[\"k\"]"));
    session.step(answer("false"));
    session.step(Reply::Workspace("/tmp/ws".to_string()));
    let action = session.step(Reply::Exists(true));
    assert_eq!(action, Action::RemoveWorkspace("/tmp/ws".to_string()));
    assert_eq!(
        session.step(Reply::Done),
        Action::Finish(Err(EditError::NoIdentityAvailable))
    );
}

#[test]
fn default_identities_are_used_when_none_is_named() {
    let bare = CryptoManager::new(config());
    let defaults = strings(&["/home/op/.ssh/id_rsa", "/home/op/.ssh/id_ed25519"]);
    let (mut session, _) = EditSession::start(
        "secret.age",
        &config(),
        &bare,
        &defaults,
        EditorChoice::Run("vi".to_string()),
    );
    session.step(answer("[\"k\"]"));
    session.step(answer("false"));
    session.step(Reply::Workspace("/tmp/ws".to_string()));
    match session.step(Reply::Exists(true)) {
        Action::Run(call) => assert_eq!(
            call.args,
            strings(&[
                "--decrypt",
                "--identity",
                "/home/op/.ssh/id_rsa",
                "--identity",
                "/home/op/.ssh/id_ed25519",
                "-o",
                "/tmp/ws/secret.age",
                "--",
                "secret.age"
            ])
        ),
        other => panic!("unexpected action: {:?}", other),
    }
}

#[test]
fn host_failures_end_the_lifecycle() {
    // The workspace cannot be created: nothing to clean up.
    let (mut session, _) = start("secret.age", EditorChoice::Skip);
    session.step(answer("[\"k\"]"));
    session.step(answer("false"));
    assert_eq!(
        session.step(Reply::Failed),
        Action::Finish(Err(EditError::WorkspaceFailed))
    );

    // The snapshot cannot be taken.
    let (mut session, _) = start("secret.age", EditorChoice::Skip);
    session.step(answer("[\"k\"]"));
    session.step(answer("false"));
    session.step(Reply::Workspace("/tmp/ws".to_string()));
    session.step(Reply::Exists(true));
    session.step(exit_ok());
    session.step(Reply::Exists(true));
    assert_eq!(
        session.step(Reply::Failed),
        Action::RemoveWorkspace("/tmp/ws".to_string())
    );
    assert_eq!(
        session.step(Reply::Done),
        Action::Finish(Err(EditError::SnapshotFailed))
    );

    // The plaintext cannot be read back.
    let mut session = edited("secret.age");
    session.step(Reply::Failed);
    assert_eq!(
        session.step(Reply::Done),
        Action::Finish(Err(EditError::ReadFailed))
    );

    // The directory of the target cannot be made.
    let mut session = edited("secret.age");
    session.step(contents(Some(b"new"), Some(b"old")));
    session.step(Reply::Failed);
    assert_eq!(
        session.step(Reply::Done),
        Action::Finish(Err(EditError::TargetDirFailed))
    );
}

#[test]
fn replies_that_do_not_fit_end_the_lifecycle() {
    let (mut session, _) = start("secret.age", EditorChoice::Skip);
    assert_eq!(
        session.step(Reply::Done),
        Action::Finish(Err(EditError::UnexpectedReply))
    );

    let (mut session, _) = start("secret.age", EditorChoice::Skip);
    session.step(answer("[\"k\"]"));
    session.step(answer("false"));
    session.step(Reply::Workspace("/tmp/ws".to_string()));
    assert_eq!(
        session.step(Reply::Workspace("/tmp/other".to_string())),
        Action::RemoveWorkspace("/tmp/ws".to_string())
    );
    assert_eq!(
        session.step(Reply::Done),
        Action::Finish(Err(EditError::UnexpectedReply))
    );
}

#[test]
fn resolution_failures_are_passed_on() {
    let (mut session, _) = start("secret.age", EditorChoice::Skip);
    assert_eq!(
        session.step(Reply::Process(ProcessReply::not_started())),
        Action::Finish(Err(EditError::Resolve(NixError::NotStarted)))
    );
    let (mut session, _) = start("secret.age", EditorChoice::Skip);
    assert_eq!(
        session.step(answer("{}")),
        Action::Finish(Err(EditError::Resolve(NixError::NotAnArray)))
    );
}

#[test]
fn armor_failure_means_no_armor() {
    let (mut session, _) = start("secret.age", EditorChoice::Skip);
    session.step(answer("[\"k\"]"));
    assert_eq!(session.step(exit_failed()), Action::CreateWorkspace);
    session.step(Reply::Workspace("/tmp/ws".to_string()));
    session.step(Reply::Exists(false));
    session.step(contents(Some(b"x"), None));
    match session.step(Reply::Done) {
        Action::Run(call) => assert!(!call.args.contains(&"--armor".to_string())),
        other => panic!("unexpected action: {:?}", other),
    }
}

#[test]
fn plaintext_of_odd_targets_stays_in_the_workspace() {
    for (target, name) in [("..", "temp"), ("a/..", "temp"), ("dir/", "dir"), ("", "temp")] {
        let (mut session, _) = start(target, EditorChoice::Skip);
        session.step(answer("[\"k\"]"));
        session.step(answer("false"));
        session.step(Reply::Workspace("/tmp/ws".to_string()));
        let action = session.step(Reply::Exists(false));
        assert_eq!(
            action,
            Action::Inspect {
                working_copy: format!("/tmp/ws/{}", name),
                snapshot: format!("/tmp/ws/{}.before", name),
            }
        );
    }
}

#[test]
fn detect_change_is_tri_state() {
    let old = b"content 1\n".to_vec();
    let new = b"content 2\n".to_vec();
    assert_eq!(detect_change(Some(&old), None, true), EditOutcome::NotCreated);
    assert_eq!(detect_change(None, None, false), EditOutcome::NotCreated);
    assert_eq!(
        detect_change(Some(&old), Some(&old), true),
        EditOutcome::Unchanged
    );
    assert_eq!(
        detect_change(Some(&old), Some(&new), true),
        EditOutcome::Changed
    );
    assert_eq!(
        detect_change(Some(&old), Some(&old), false),
        EditOutcome::Changed
    );
    assert_eq!(detect_change(None, Some(&new), true), EditOutcome::Changed);
}

#[test]
fn outcome_warnings() {
    assert_eq!(
        EditOutcome::NotCreated.warning("a.age"),
        Some("a.age wasn't created.".to_string())
    );
    assert_eq!(
        EditOutcome::Unchanged.warning("a.age"),
        Some("a.age wasn't changed, skipping re-encryption.".to_string())
    );
    assert_eq!(EditOutcome::Changed.warning("a.age"), None);
}

#[test]
fn editor_choice_from_command() {
    assert_eq!(EditorChoice::from_command(":"), EditorChoice::Skip);
    assert_eq!(
        EditorChoice::from_command("vi"),
        EditorChoice::Run("vi".to_string())
    );
    assert_eq!(
        EditorChoice::from_command(": "),
        EditorChoice::Run(": ".to_string())
    );
    let choice = EditorChoice::Run("cp -- /dev/stdin".to_string());
    assert_eq!(choice.duplicate(), choice);
    assert_eq!(EditorChoice::Skip.duplicate(), EditorChoice::Skip);
}

#[test]
fn editor_call_goes_through_the_shell() {
    let call = editor_call("cp -- /dev/stdin", "/tmp/ws/a.age");
    assert_eq!(call.program, "sh");
    assert_eq!(
        call.args,
        strings(&["-c", "cp -- /dev/stdin '/tmp/ws/a.age'"])
    );
    assert_eq!(call.input, None);
    assert!(!call.capture);
}

#[test]
fn crypto_errors_map_to_edit_errors() {
    assert_eq!(
        crypto_error(CryptoError::NoIdentity),
        EditError::NoIdentityAvailable
    );
    assert_eq!(
        crypto_error(CryptoError::DecryptFailed),
        EditError::CryptoFailed(CryptoError::DecryptFailed)
    );
    assert_eq!(
        crypto_error(CryptoError::NoRecipients),
        EditError::CryptoFailed(CryptoError::NoRecipients)
    );
}

#[test]
fn process_replies_are_read_by_phase() {
    assert_eq!(
        read_reply(
            Phase::Recipients,
            Reply::Process(ProcessReply::exited(true, b"[\"k1\", \"k2\"]".to_vec()))
        ),
        Event::List(Ok(strings(&["k1", "k2"])))
    );
    assert_eq!(
        read_reply(
            Phase::Recipients,
            Reply::Process(ProcessReply::exited(false, Vec::new()))
        ),
        Event::List(Err(NixError::EvalFailed))
    );
    assert_eq!(
        read_reply(
            Phase::Armor,
            Reply::Process(ProcessReply::exited(true, b"true\n".to_vec()))
        ),
        Event::Armor(true)
    );
    assert_eq!(
        read_reply(Phase::Armor, Reply::Process(ProcessReply::not_started())),
        Event::Armor(false)
    );
    for phase in [Phase::Decrypt, Phase::Editor, Phase::Encrypt, Phase::Finished] {
        assert_eq!(
            read_reply(
                phase,
                Reply::Process(ProcessReply::exited(true, b"[\"k\"]".to_vec()))
            ),
            Event::Exited {
                started: true,
                success: true
            }
        );
        assert_eq!(
            read_reply(phase, Reply::Process(ProcessReply::not_started())),
            Event::Exited {
                started: false,
                success: false
            }
        );
    }
}

#[test]
fn other_replies_are_read_as_they_are() {
    for phase in [Phase::Recipients, Phase::Workspace, Phase::Inspect, Phase::Cleanup] {
        assert_eq!(
            read_reply(phase, Reply::Workspace("/tmp/ws".to_string())),
            Event::Workspace("/tmp/ws".to_string())
        );
        assert_eq!(read_reply(phase, Reply::Exists(true)), Event::Exists(true));
        assert_eq!(read_reply(phase, Reply::Done), Event::Done);
        assert_eq!(read_reply(phase, Reply::Failed), Event::Failed);
        assert_eq!(
            read_reply(phase, contents(Some(b"a"), None)),
            Event::Contents {
                working_copy: Some(b"a".to_vec()),
                snapshot: None
            }
        );
    }
}

#[test]
fn session_reads_replies_for_its_own_phase() {
    let (mut session, _) = start("secret.age", EditorChoice::Skip);
    assert_eq!(
        session.read(answer("[\"k\"]")),
        Event::List(Ok(strings(&["k"])))
    );
    session.step(answer("[\"k\"]"));
    assert_eq!(session.read(answer("true")), Event::Armor(true));
}

#[test]
fn resume_takes_events_directly() {
    let (mut session, _) = start("secrets/db.age", EditorChoice::Run("vi".to_string()));
    let action = session.resume(Event::List(Ok(strings(&["age1abc"]))));
    assert!(matches!(action, Action::Run(_)));
    assert_eq!(session.resume(Event::Armor(true)), Action::CreateWorkspace);
    assert_eq!(
        session.resume(Event::Workspace("/tmp/ws".to_string())),
        Action::Exists("secrets/db.age".to_string())
    );
    let action = session.resume(Event::Exists(false));
    assert!(matches!(action, Action::Run(_)));
    let action = session.resume(Event::Exited {
        started: true,
        success: true,
    });
    assert!(matches!(action, Action::Inspect { .. }));
    let action = session.resume(Event::Contents {
        working_copy: Some(b"new".to_vec()),
        snapshot: None,
    });
    assert_eq!(action, Action::CreateParentDirs("secrets/db.age".to_string()));
    match session.resume(Event::Done) {
        Action::Run(call) => {
            assert_eq!(
                call.args,
                strings(&["--armor", "--recipient", "age1abc", "-o", "secrets/db.age"])
            );
            assert_eq!(call.input, Some(b"new".to_vec()));
        }
        other => panic!("unexpected action: {:?}", other),
    }
    assert_eq!(
        session.resume(Event::Exited {
            started: true,
            success: true
        }),
        Action::RemoveWorkspace("/tmp/ws".to_string())
    );
    assert_eq!(
        session.resume(Event::Done),
        Action::Finish(Ok(EditOutcome::Changed))
    );
}

#[test]
fn events_that_do_not_fit_end_the_lifecycle() {
    let (mut session, _) = start("secret.age", EditorChoice::Skip);
    assert_eq!(
        session.resume(Event::Armor(true)),
        Action::Finish(Err(EditError::UnexpectedReply))
    );
    let (mut session, _) = start("secret.age", EditorChoice::Skip);
    session.resume(Event::List(Ok(strings(&["k"]))));
    assert_eq!(
        session.resume(Event::List(Ok(strings(&["k"])))),
        Action::Finish(Err(EditError::UnexpectedReply))
    );
    let (mut session, _) = start("secret.age", EditorChoice::Skip);
    assert_eq!(
        session.resume(Event::Exited {
            started: true,
            success: true
        }),
        Action::Finish(Err(EditError::UnexpectedReply))
    );
}

#[test]
fn decryption_that_left_no_plaintext_takes_no_snapshot() {
    let (mut session, _) = start("secret.age", EditorChoice::Run("vi".to_string()));
    session.step(answer("[\"k\"]"));
    session.step(answer("false"));
    session.step(Reply::Workspace("/tmp/ws".to_string()));
    session.step(Reply::Exists(true));
    assert_eq!(
        session.step(exit_ok()),
        Action::Exists("/tmp/ws/secret.age".to_string())
    );
    // Nothing to copy aside: the editor is next.
    match session.step(Reply::Exists(false)) {
        Action::Run(call) => assert_eq!(call.program, "sh"),
        other => panic!("unexpected action: {:?}", other),
    }
}
