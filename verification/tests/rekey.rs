use agenix::config::Config;
use agenix::crypto::{CryptoError, CryptoManager};
use agenix::lifecycle::{Action, EditError, EditOutcome, Event, Reply};
use agenix::nix::NixError;
use agenix::process::ProcessReply;
use agenix::rekey::{progress_line, RekeyAction, RekeyError, RekeySession};

fn crypto() -> CryptoManager {
    let mut manager = CryptoManager::new(Config::new());
    manager.add_identity("/keys/id");
    manager
}

fn answer(text: &str) -> Reply {
    Reply::Process(ProcessReply::exited(true, text.as_bytes().to_vec()))
}

fn exit_ok() -> Reply {
    Reply::Process(ProcessReply::exited(true, Vec::new()))
}

fn exit_failed() -> Reply {
    Reply::Process(ProcessReply::exited(false, Vec::new()))
}

fn start() -> (RekeySession, RekeyAction) {
    RekeySession::start(&Config::new(), &crypto(), &Vec::new())
}

/// Carries the lifecycle that has just begun through to its encryption and
/// returns the action that follows the removal of its workspace.
fn rekey_one_well(pass: &mut RekeySession, file: &str) -> RekeyAction {
    pass.step(answer("[\"k\"]"));
    pass.step(answer("false"));
    pass.step(Reply::Workspace("/tmp/ws".to_string()));
    pass.step(Reply::Exists(true));
    pass.step(exit_ok());
    pass.step(Reply::Exists(true));
    // Editing is skipped: the inspection follows the snapshot.
    let action = pass.step(Reply::Done);
    assert!(matches!(
        action,
        RekeyAction::Perform {
            begins: None,
            action: Action::Inspect { .. }
        }
    ));
    // The plaintext is as it was, and is encrypted all the same.
    let action = pass.step(Reply::Contents {
        working_copy: Some(b"plain".to_vec()),
        snapshot: Some(b"plain".to_vec()),
    });
    assert_eq!(
        action,
        RekeyAction::Perform {
            begins: None,
            action: Action::CreateParentDirs(file.to_string()),
        }
    );
    let action = pass.step(Reply::Done);
    match action {
        RekeyAction::Perform {
            begins: None,
            action: Action::Run(call),
        } => assert_eq!(call.input, Some(b"plain".to_vec())),
        other => panic!("unexpected action: {:?}", other),
    }
    let action = pass.step(exit_ok());
    assert_eq!(
        action,
        RekeyAction::Perform {
            begins: None,
            action: Action::RemoveWorkspace("/tmp/ws".to_string()),
        }
    );
    pass.step(Reply::Done)
}

fn begins(action: &RekeyAction) -> Option<String> {
    match action {
        RekeyAction::Perform { begins, .. } => begins.clone(),
        RekeyAction::Finish(_) => None,
    }
}

#[test]
fn rekey_lists_the_files_first() {
    let (pass, first) = start();
    assert!(!pass.is_finished());
    assert!(pass.files().is_empty());
    match first {
        RekeyAction::Perform {
            begins: None,
            action: Action::Run(call),
        } => {
            assert_eq!(call.program, "nix-instantiate");
            assert_eq!(
                call.args,
                vec![
                    "--json",
                    "--eval",
                    "-E",
                    "(let rules = import ./secrets.nix; in builtins.attrNames rules)"
                ]
            );
        }
        other => panic!("unexpected action: {:?}", other),
    }
}

#[test]
fn rekey_goes_through_the_files_in_list_order() {
    let (mut pass, _) = start();
    let action = pass.step(answer("[\"a\",\"b\",\"c\"]"));
    assert_eq!(pass.files(), &vec!["a".to_string(), "b".to_string(), "c".to_string()]);
    assert_eq!(begins(&action), Some("a".to_string()));
    let action = rekey_one_well(&mut pass, "a");
    assert_eq!(begins(&action), Some("b".to_string()));
    let action = rekey_one_well(&mut pass, "b");
    assert_eq!(begins(&action), Some("c".to_string()));
    let action = rekey_one_well(&mut pass, "c");
    assert_eq!(action, RekeyAction::Finish(Ok(())));
    assert!(pass.is_finished());
    assert_eq!(pass.step(Reply::Done), RekeyAction::Finish(Ok(())));
}

#[test]
fn rekey_stops_at_the_first_failure() {
    let (mut pass, _) = start();
    let action = pass.step(answer("[\"a\",\"b\",\"c\"]"));
    assert_eq!(begins(&action), Some("a".to_string()));
    let action = rekey_one_well(&mut pass, "a");
    assert_eq!(begins(&action), Some("b".to_string()));

    // The lifecycle of b fails in decryption.
    pass.step(answer("[\"k\"]"));
    pass.step(answer("false"));
    pass.step(Reply::Workspace("/tmp/ws".to_string()));
    pass.step(Reply::Exists(true));
    let action = pass.step(exit_failed());
    assert_eq!(
        action,
        RekeyAction::Perform {
            begins: None,
            action: Action::RemoveWorkspace("/tmp/ws".to_string()),
        }
    );
    let failure = RekeyError::File {
        file: "b".to_string(),
        cause: EditError::CryptoFailed(CryptoError::DecryptFailed),
    };
    let action = pass.step(Reply::Done);
    assert_eq!(action, RekeyAction::Finish(Err(failure)));
    assert!(pass.is_finished());

    // c is never attempted, whatever the caller goes on to say.
    for reply in [answer("[\"k\"]"), Reply::Done, Reply::Exists(true), exit_ok()] {
        let action = pass.step(reply);
        assert_eq!(begins(&action), None);
        assert!(matches!(action, RekeyAction::Finish(Err(_))));
    }
}

#[test]
fn rekey_fails_on_a_file_without_rule() {
    let (mut pass, _) = start();
    pass.step(answer("[\"a\",\"b\"]"));
    let action = pass.step(answer("[]"));
    assert_eq!(
        action,
        RekeyAction::Finish(Err(RekeyError::File {
            file: "a".to_string(),
            cause: EditError::NoRuleForTarget,
        }))
    );
}

#[test]
fn rekey_of_an_empty_list_ends_at_once() {
    let (mut pass, _) = start();
    assert_eq!(pass.step(answer("[]")), RekeyAction::Finish(Ok(())));
    assert!(pass.is_finished());
}

#[test]
fn rekey_skips_the_editor() {
    let (mut pass, _) = start();
    pass.step(answer("[\"only\"]"));
    pass.step(answer("[\"k\"]"));
    pass.step(answer("false"));
    pass.step(Reply::Workspace("/tmp/ws".to_string()));
    // The file is declared but not there yet: nothing to decrypt, and no
    // editor to make it.
    let action = pass.step(Reply::Exists(false));
    assert!(matches!(
        action,
        RekeyAction::Perform {
            begins: None,
            action: Action::Inspect { .. }
        }
    ));
    let action = pass.step(Reply::Contents {
        working_copy: None,
        snapshot: None,
    });
    assert_eq!(
        action,
        RekeyAction::Perform {
            begins: None,
            action: Action::RemoveWorkspace("/tmp/ws".to_string()),
        }
    );
    assert_eq!(pass.step(Reply::Done), RekeyAction::Finish(Ok(())));
}

#[test]
fn rekey_listing_failures() {
    let (mut pass, _) = start();
    assert_eq!(
        pass.step(exit_failed()),
        RekeyAction::Finish(Err(RekeyError::List(NixError::EvalFailed)))
    );
    let (mut pass, _) = start();
    assert_eq!(
        pass.step(answer("not json")),
        RekeyAction::Finish(Err(RekeyError::List(NixError::InvalidJson)))
    );
    let (mut pass, _) = start();
    assert_eq!(
        pass.step(Reply::Done),
        RekeyAction::Finish(Err(RekeyError::UnexpectedReply))
    );
}

#[test]
fn rekey_error_duplicate_is_equal() {
    let error = RekeyError::File {
        file: "b".to_string(),
        cause: EditError::EditorFailed,
    };
    assert_eq!(error.duplicate(), error);
    assert_eq!(
        RekeyError::List(NixError::NotStarted).duplicate(),
        RekeyError::List(NixError::NotStarted)
    );
    assert_eq!(
        RekeyError::UnexpectedReply.duplicate(),
        RekeyError::UnexpectedReply
    );
}

#[test]
fn rekey_error_messages() {
    assert_eq!(
        RekeyError::List(NixError::EvalFailed).message("./secrets.nix"),
        "Failed to get list of files from rules: nix-instantiate failed to evaluate the rules"
    );
    assert_eq!(
        RekeyError::File {
            file: "b.age".to_string(),
            cause: EditError::NoRuleForTarget,
        }
        .message("./secrets.nix"),
        "Failed to rekey b.age: There is no rule for b.age in ./secrets.nix"
    );
    assert_eq!(
        RekeyError::UnexpectedReply.message("./secrets.nix"),
        "Unexpected reply to a pending action"
    );
}

#[test]
fn rekey_records_how_each_lifecycle_ended() {
    let (mut pass, _) = start();
    pass.step(answer("[\"a\",\"b\"]"));
    assert!(pass.outcomes().is_empty());
    rekey_one_well(&mut pass, "a");
    assert_eq!(pass.outcomes(), &vec![EditOutcome::Changed]);
    // b is declared but was never created.
    pass.step(answer("[\"k\"]"));
    pass.step(answer("false"));
    pass.step(Reply::Workspace("/tmp/ws".to_string()));
    pass.step(Reply::Exists(false));
    pass.step(Reply::Contents {
        working_copy: None,
        snapshot: None,
    });
    assert_eq!(pass.step(Reply::Done), RekeyAction::Finish(Ok(())));
    assert_eq!(
        pass.outcomes(),
        &vec![EditOutcome::Changed, EditOutcome::NotCreated]
    );
}

#[test]
fn progress_line_names_the_file() {
    assert_eq!(progress_line("secret1.age"), "rekeying secret1.age...");
}

#[test]
fn rekey_resume_takes_events_directly() {
    let (mut pass, _) = start();
    let action = pass.resume(Event::List(Ok(vec!["a".to_string(), "b".to_string()])));
    assert_eq!(begins(&action), Some("a".to_string()));
    // a has no rule: the pass ends with a, and b is never begun.
    let action = pass.resume(Event::List(Ok(Vec::new())));
    assert_eq!(
        action,
        RekeyAction::Finish(Err(RekeyError::File {
            file: "a".to_string(),
            cause: EditError::NoRuleForTarget,
        }))
    );
    assert_eq!(
        begins(&pass.resume(Event::List(Ok(vec!["k".to_string()])))),
        None
    );
}

#[test]
fn rekey_reads_replies_for_the_running_lifecycle() {
    let (mut pass, _) = start();
    assert_eq!(
        pass.read(answer("[\"a\"]")),
        Event::List(Ok(vec!["a".to_string()]))
    );
    pass.step(answer("[\"a\"]"));
    pass.step(answer("[\"k\"]"));
    // The lifecycle of a now waits for the armor flag.
    assert_eq!(pass.read(answer("true")), Event::Armor(true));
    pass.step(answer("true"));
    pass.step(Reply::Workspace("/tmp/ws".to_string()));
    pass.step(Reply::Exists(true));
    assert_eq!(
        pass.read(exit_failed()),
        Event::Exited {
            started: true,
            success: false
        }
    );
}
