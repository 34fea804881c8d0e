//! The life of one edit: from the encrypted file to a private plaintext
//! copy, through the editor, and back to ciphertext where the plaintext
//! changed.
//!
//! The lifecycle is a state machine. An [`EditSession`] hands its caller one
//! [`Action`] at a time; the caller carries it out and resumes the session
//! with the [`Reply`]. A reply is first read as an [`Event`]: what it means
//! to the lifecycle at the point where it stands. Every path out of the
//! lifecycle that has created the workspace leads through its removal.

use vstd::prelude::*;
use crate::config::{Config, ConfigView};
use crate::crypto::{
    crypto_error_text, decrypt_plan, encrypt_plan, exit_verdict, judge_exit, same_bytes,
    same_contents, CryptoError, CryptoManager, CryptoManagerView,
};
use crate::nix::{
    armor_expression, armor_in, armor_query, eval_invocation, get_public_keys, keys_expression,
    nix_error_text, public_keys_query, should_armor, string_list_in, NixError,
};
use crate::process::{Invocation, InvocationView, ProcessReply, ProcessReplyView};
use crate::text::{base_name, base_name_of, clone_strings, join_path, joined, texts};

verus! {

/// What an edit came to.
#[derive(Clone, Copy, Debug, PartialEq, Eq, Structural)]
pub enum EditOutcome {
    /// The plaintext is what it was before the edit; nothing was encrypted.
    Unchanged,
    /// The plaintext was encrypted anew.
    Changed,
    /// There is no plaintext after the edit; nothing was written.
    NotCreated,
}

/// Why an edit was given up.
#[derive(Clone, Copy, Debug, PartialEq, Eq, Structural)]
pub enum EditError {
    /// The recipients could not be resolved.
    Resolve(NixError),
    /// The rules declare no recipient for the file.
    NoRuleForTarget,
    /// There is no identity to decrypt with.
    NoIdentityAvailable,
    /// The workspace could not be created.
    WorkspaceFailed,
    /// age failed.
    CryptoFailed(CryptoError),
    /// The plaintext could not be copied aside before the edit.
    SnapshotFailed,
    /// The editor could not be run, or ended with an error.
    EditorFailed,
    /// The plaintext could not be read back.
    ReadFailed,
    /// The directory of the encrypted file could not be created.
    TargetDirFailed,
    /// The caller answered with something the pending action cannot yield.
    UnexpectedReply,
}

/// Where a lifecycle stands: what it waits for.
#[derive(Clone, Copy, Debug, PartialEq, Eq, Structural)]
pub enum Phase {
    /// The recipients declared for the target.
    Recipients,
    /// Whether the target is declared armored.
    Armor,
    /// The workspace.
    Workspace,
    /// Whether the target exists.
    TargetProbe,
    /// The end of the decryption into the workspace.
    Decrypt,
    /// Whether the decryption left plaintext in the workspace.
    PlaintextProbe,
    /// The copy of the plaintext as it is before the edit.
    Snapshot,
    /// The end of the editor.
    Editor,
    /// The plaintext as it is after the edit, and its copy from before.
    Inspect,
    /// The directory that is to hold the target.
    Prepare,
    /// The end of the encryption.
    Encrypt,
    /// The removal of the workspace.
    Cleanup,
    /// Nothing: the lifecycle is over.
    Finished,
}

/// How the plaintext is edited: not at all, or by a command.
#[derive(Debug, PartialEq, Eq)]
pub enum EditorChoice {
    /// No editor runs; the plaintext is encrypted again as it is.
    Skip,
    /// The command is run through the shell on the plaintext.
    Run(String),
}

impl View for EditorChoice {
    type V = Option<Seq<char>>;

    open spec fn view(&self) -> Option<Seq<char>> {
        match self {
            EditorChoice::Skip => None,
            EditorChoice::Run(command) => Some(command@),
        }
    }
}

/// What the caller is asked to do next.
#[derive(Debug, PartialEq, Eq)]
pub enum Action {
    /// Run a process and report how it ended.
    Run(Invocation),
    /// Create a private directory that only this lifecycle uses.
    CreateWorkspace,
    /// Report whether a file exists.
    Exists(String),
    /// Copy the file `from` to `to`.
    Copy { from: String, to: String },
    /// Report the bytes of both files, each as far as it exists.
    Inspect { working_copy: String, snapshot: String },
    /// Create the directory that is to hold the file at this path.
    CreateParentDirs(String),
    /// Remove the workspace and all it holds.
    RemoveWorkspace(String),
    /// Nothing more: the lifecycle is over, with this result.
    Finish(Result<EditOutcome, EditError>),
}

/// The mathematical content of an [`Action`].
pub enum ActionView {
    Run(InvocationView),
    CreateWorkspace,
    Exists(Seq<char>),
    Copy { from: Seq<char>, to: Seq<char> },
    Inspect { working_copy: Seq<char>, snapshot: Seq<char> },
    CreateParentDirs(Seq<char>),
    RemoveWorkspace(Seq<char>),
    Finish(Result<EditOutcome, EditError>),
}

impl View for Action {
    type V = ActionView;

    open spec fn view(&self) -> ActionView {
        match self {
            Action::Run(call) => ActionView::Run(call@),
            Action::CreateWorkspace => ActionView::CreateWorkspace,
            Action::Exists(path) => ActionView::Exists(path@),
            Action::Copy { from, to } => ActionView::Copy { from: from@, to: to@ },
            Action::Inspect { working_copy, snapshot } => ActionView::Inspect {
                working_copy: working_copy@,
                snapshot: snapshot@,
            },
            Action::CreateParentDirs(path) => ActionView::CreateParentDirs(path@),
            Action::RemoveWorkspace(dir) => ActionView::RemoveWorkspace(dir@),
            Action::Finish(result) => ActionView::Finish(*result),
        }
    }
}

/// What came of an action.
#[derive(Debug, PartialEq, Eq)]
pub enum Reply {
    /// How the process of `Run` ended.
    Process(ProcessReply),
    /// The directory made for `CreateWorkspace`.
    Workspace(String),
    /// The answer to `Exists`.
    Exists(bool),
    /// `Copy`, `CreateParentDirs` or `RemoveWorkspace` was carried out.
    Done,
    /// The answer to `Inspect`: each file's bytes, or `None` where it does
    /// not exist.
    Contents { working_copy: Option<Vec<u8>>, snapshot: Option<Vec<u8>> },
    /// The action could not be carried out.
    Failed,
}

/// The mathematical content of a [`Reply`].
pub enum ReplyView {
    Process(ProcessReplyView),
    Workspace(Seq<char>),
    Exists(bool),
    Done,
    Contents { working_copy: Option<Seq<u8>>, snapshot: Option<Seq<u8>> },
    Failed,
}

/// The bytes of a file that may be missing.
pub open spec fn bytes_view(bytes: Option<Vec<u8>>) -> Option<Seq<u8>> {
    match bytes {
        Some(b) => Some(b@),
        None => None,
    }
}

impl View for Reply {
    type V = ReplyView;

    open spec fn view(&self) -> ReplyView {
        match self {
            Reply::Process(reply) => ReplyView::Process(reply@),
            Reply::Workspace(dir) => ReplyView::Workspace(dir@),
            Reply::Exists(found) => ReplyView::Exists(*found),
            Reply::Done => ReplyView::Done,
            Reply::Contents { working_copy, snapshot } => ReplyView::Contents {
                working_copy: bytes_view(*working_copy),
                snapshot: bytes_view(*snapshot),
            },
            Reply::Failed => ReplyView::Failed,
        }
    }
}

/// What a reply means to a lifecycle, once it is read.
#[derive(Debug, PartialEq, Eq)]
pub enum Event {
    /// The list of strings that nix-instantiate answered with, or why there
    /// is none.
    List(Result<Vec<String>, NixError>),
    /// Whether the rules declare the secret armored.
    Armor(bool),
    /// The directory made as the workspace.
    Workspace(String),
    /// Whether the file exists.
    Exists(bool),
    /// A process has ended; `started` is false where it could not be run.
    Exited { started: bool, success: bool },
    /// The action was carried out.
    Done,
    /// The bytes of working copy and snapshot, each as far as it exists.
    Contents { working_copy: Option<Vec<u8>>, snapshot: Option<Vec<u8>> },
    /// The action could not be carried out.
    Failed,
}

/// The mathematical content of an [`Event`].
pub enum EventView {
    List(Result<Seq<Seq<char>>, NixError>),
    Armor(bool),
    Workspace(Seq<char>),
    Exists(bool),
    Exited { started: bool, success: bool },
    Done,
    Contents { working_copy: Option<Seq<u8>>, snapshot: Option<Seq<u8>> },
    Failed,
}

impl View for Event {
    type V = EventView;

    open spec fn view(&self) -> EventView {
        match self {
            Event::List(Ok(list)) => EventView::List(Ok(texts(list@))),
            Event::List(Err(e)) => EventView::List(Err(*e)),
            Event::Armor(flag) => EventView::Armor(*flag),
            Event::Workspace(dir) => EventView::Workspace(dir@),
            Event::Exists(found) => EventView::Exists(*found),
            Event::Exited { started, success } => EventView::Exited {
                started: *started,
                success: *success,
            },
            Event::Done => EventView::Done,
            Event::Contents { working_copy, snapshot } => EventView::Contents {
                working_copy: bytes_view(*working_copy),
                snapshot: bytes_view(*snapshot),
            },
            Event::Failed => EventView::Failed,
        }
    }
}

/// How a reply is read by a lifecycle in `phase`. The end of a process is
/// read for what the process was asked: as the list of recipients, as the
/// armor flag, or as no more than its success. Every other reply is taken
/// as it is.
pub open spec fn event_of(phase: Phase, reply: ReplyView) -> EventView {
    match reply {
        ReplyView::Process(p) => match phase {
            Phase::Recipients => EventView::List(string_list_in(p)),
            Phase::Armor => EventView::Armor(armor_in(p)),
            _ => EventView::Exited { started: p.started, success: p.success },
        },
        ReplyView::Workspace(dir) => EventView::Workspace(dir),
        ReplyView::Exists(found) => EventView::Exists(found),
        ReplyView::Done => EventView::Done,
        ReplyView::Contents { working_copy, snapshot } => EventView::Contents {
            working_copy,
            snapshot,
        },
        ReplyView::Failed => EventView::Failed,
    }
}

/// One lifecycle in progress.
pub struct EditSession {
    phase: Phase,
    target: String,
    config: Config,
    crypto: CryptoManager,
    defaults: Vec<String>,
    editor: EditorChoice,
    recipients: Vec<String>,
    armor: bool,
    workspace: Option<String>,
    content: Vec<u8>,
    result: Result<EditOutcome, EditError>,
}

/// The mathematical content of an [`EditSession`].
pub struct EditSessionView {
    /// The action the session waits for.
    pub phase: Phase,
    /// The encrypted file.
    pub target: Seq<char>,
    /// Where the rules and nix-instantiate are.
    pub config: ConfigView,
    /// Where age is, and the identities the operator named.
    pub crypto: CryptoManagerView,
    /// The identities to fall back on.
    pub defaults: Seq<Seq<char>>,
    /// The editor command; `None` where editing is skipped.
    pub editor: Option<Seq<char>>,
    /// The recipients resolved for the target.
    pub recipients: Seq<Seq<char>>,
    /// Whether the ciphertext is to be armored.
    pub armor: bool,
    /// The workspace, from its creation until its removal is answered.
    pub workspace: Option<Seq<char>>,
    /// The plaintext to encrypt, held from the inspection until age is called.
    pub content: Seq<u8>,
    /// The result the lifecycle ends with, once it is known.
    pub result: Result<EditOutcome, EditError>,
}

impl View for EditSession {
    type V = EditSessionView;

    closed spec fn view(&self) -> EditSessionView {
        EditSessionView {
            phase: self.phase,
            target: self.target@,
            config: self.config@,
            crypto: self.crypto@,
            defaults: texts(self.defaults@),
            editor: self.editor@,
            recipients: texts(self.recipients@),
            armor: self.armor,
            workspace: match self.workspace {
                Some(dir) => Some(dir@),
                None => None,
            },
            content: self.content@,
            result: self.result,
        }
    }
}

/// The outcome of an edit, from the plaintext before and after it. Without
/// plaintext afterwards nothing was created. The edit changed nothing where
/// an editor ran and left exactly the bytes that were there before.
/// Everything else counts as changed: there is something to encrypt.
pub open spec fn change_detected(
    snapshot: Option<Seq<u8>>,
    working_copy: Option<Seq<u8>>,
    editor_ran: bool,
) -> EditOutcome {
    if working_copy is None {
        EditOutcome::NotCreated
    } else if snapshot is Some && editor_ran && same_contents(snapshot, working_copy) {
        EditOutcome::Unchanged
    } else {
        EditOutcome::Changed
    }
}

/// The directory plaintext is kept in; empty before there is a workspace.
pub open spec fn workspace_dir(s: EditSessionView) -> Seq<char> {
    match s.workspace {
        Some(dir) => dir,
        None => Seq::empty(),
    }
}

/// Where the plaintext of `target` lies in the workspace `dir`.
pub open spec fn working_copy_path(dir: Seq<char>, target: Seq<char>) -> Seq<char> {
    joined(dir, base_name_of(target))
}

/// Where the plaintext of `target` is copied to before the edit.
pub open spec fn snapshot_path(dir: Seq<char>, target: Seq<char>) -> Seq<char> {
    working_copy_path(dir, target) + ".before"@
}

/// The call that runs `editor` on the file at `path`, through the shell.
pub open spec fn editor_invocation(editor: Seq<char>, path: Seq<char>) -> InvocationView {
    InvocationView {
        program: "sh"@,
        args: seq!["-c"@, editor + " '"@ + path + "'"@],
        input: None,
        capture: false,
    }
}

/// How a failure to plan or run age ends a lifecycle.
pub open spec fn crypto_failure(error: CryptoError) -> EditError {
    match error {
        CryptoError::NoIdentity => EditError::NoIdentityAvailable,
        _ => EditError::CryptoFailed(error),
    }
}

/// The request to inspect the plaintext of a session.
pub open spec fn inspection(s: EditSessionView) -> ActionView {
    ActionView::Inspect {
        working_copy: working_copy_path(workspace_dir(s), s.target),
        snapshot: snapshot_path(workspace_dir(s), s.target),
    }
}

/// A session as it begins, and its first action: the question for the
/// recipients of the target.
pub open spec fn edit_start(
    target: Seq<char>,
    config: ConfigView,
    crypto: CryptoManagerView,
    defaults: Seq<Seq<char>>,
    editor: Option<Seq<char>>,
) -> (EditSessionView, ActionView) {
    (
        EditSessionView {
            phase: Phase::Recipients,
            target,
            config,
            crypto,
            defaults,
            editor,
            recipients: Seq::empty(),
            armor: false,
            workspace: None,
            content: Seq::empty(),
            result: Err(EditError::UnexpectedReply),
        },
        ActionView::Run(
            eval_invocation(
                config.nix_instantiate,
                keys_expression(config.rules_path, target),
                true,
            ),
        ),
    )
}

/// Ends a lifecycle with `result`: at once where there is no workspace,
/// else by removing the workspace first.
pub open spec fn edit_finish(s: EditSessionView, result: Result<EditOutcome, EditError>) -> (
    EditSessionView,
    ActionView,
) {
    match s.workspace {
        Some(dir) => (
            EditSessionView { phase: Phase::Cleanup, content: Seq::empty(), result, ..s },
            ActionView::RemoveWorkspace(dir),
        ),
        None => (
            EditSessionView { phase: Phase::Finished, content: Seq::empty(), result, ..s },
            ActionView::Finish(result),
        ),
    }
}

/// Hands the plaintext to the editor, or goes on to the inspection where
/// editing is skipped.
pub open spec fn edit_begin_editing(s: EditSessionView) -> (EditSessionView, ActionView) {
    match s.editor {
        Some(command) => (
            EditSessionView { phase: Phase::Editor, ..s },
            ActionView::Run(
                editor_invocation(command, working_copy_path(workspace_dir(s), s.target)),
            ),
        ),
        None => (EditSessionView { phase: Phase::Inspect, ..s }, inspection(s)),
    }
}

/// The lifecycle's rule: the session and the action that follow when a
/// session is resumed with an event. An event that the pending action
/// cannot yield ends the lifecycle.
pub open spec fn edit_apply(s: EditSessionView, event: EventView) -> (EditSessionView, ActionView) {
    match s.phase {
        Phase::Recipients => match event {
            EventView::List(list) => match list {
                Err(e) => edit_finish(s, Err(EditError::Resolve(e))),
                Ok(keys) => if keys.len() == 0 {
                    edit_finish(s, Err(EditError::NoRuleForTarget))
                } else {
                    (
                        EditSessionView { phase: Phase::Armor, recipients: keys, ..s },
                        ActionView::Run(
                            eval_invocation(
                                s.config.nix_instantiate,
                                armor_expression(s.config.rules_path, s.target),
                                true,
                            ),
                        ),
                    )
                },
            },
            _ => edit_finish(s, Err(EditError::UnexpectedReply)),
        },
        Phase::Armor => match event {
            EventView::Armor(flag) => (
                EditSessionView { phase: Phase::Workspace, armor: flag, ..s },
                ActionView::CreateWorkspace,
            ),
            _ => edit_finish(s, Err(EditError::UnexpectedReply)),
        },
        Phase::Workspace => match event {
            EventView::Workspace(dir) => (
                EditSessionView { phase: Phase::TargetProbe, workspace: Some(dir), ..s },
                ActionView::Exists(s.target),
            ),
            EventView::Failed => edit_finish(s, Err(EditError::WorkspaceFailed)),
            _ => edit_finish(s, Err(EditError::UnexpectedReply)),
        },
        Phase::TargetProbe => match event {
            EventView::Exists(found) => if found {
                match decrypt_plan(
                    s.crypto,
                    s.target,
                    Some(working_copy_path(workspace_dir(s), s.target)),
                    true,
                    s.defaults,
                ) {
                    Ok(call) => (
                        EditSessionView { phase: Phase::Decrypt, ..s },
                        ActionView::Run(call),
                    ),
                    Err(e) => edit_finish(s, Err(crypto_failure(e))),
                }
            } else {
                edit_begin_editing(s)
            },
            _ => edit_finish(s, Err(EditError::UnexpectedReply)),
        },
        Phase::Decrypt => match event {
            EventView::Exited { started, success } => match exit_verdict(
                started,
                success,
                CryptoError::DecryptFailed,
            ) {
                Ok(_) => (
                    EditSessionView { phase: Phase::PlaintextProbe, ..s },
                    ActionView::Exists(working_copy_path(workspace_dir(s), s.target)),
                ),
                Err(e) => edit_finish(s, Err(crypto_failure(e))),
            },
            _ => edit_finish(s, Err(EditError::UnexpectedReply)),
        },
        Phase::PlaintextProbe => match event {
            EventView::Exists(found) => if found {
                (
                    EditSessionView { phase: Phase::Snapshot, ..s },
                    ActionView::Copy {
                        from: working_copy_path(workspace_dir(s), s.target),
                        to: snapshot_path(workspace_dir(s), s.target),
                    },
                )
            } else {
                edit_begin_editing(s)
            },
            _ => edit_finish(s, Err(EditError::UnexpectedReply)),
        },
        Phase::Snapshot => match event {
            EventView::Done => edit_begin_editing(s),
            EventView::Failed => edit_finish(s, Err(EditError::SnapshotFailed)),
            _ => edit_finish(s, Err(EditError::UnexpectedReply)),
        },
        Phase::Editor => match event {
            EventView::Exited { started, success } => if started && success {
                (EditSessionView { phase: Phase::Inspect, ..s }, inspection(s))
            } else {
                edit_finish(s, Err(EditError::EditorFailed))
            },
            _ => edit_finish(s, Err(EditError::UnexpectedReply)),
        },
        Phase::Inspect => match event {
            EventView::Contents { working_copy, snapshot } => match change_detected(
                snapshot,
                working_copy,
                s.editor is Some,
            ) {
                EditOutcome::Changed => (
                    EditSessionView { phase: Phase::Prepare, content: working_copy->0, ..s },
                    ActionView::CreateParentDirs(s.target),
                ),
                outcome => edit_finish(s, Ok(outcome)),
            },
            EventView::Failed => edit_finish(s, Err(EditError::ReadFailed)),
            _ => edit_finish(s, Err(EditError::UnexpectedReply)),
        },
        Phase::Prepare => match event {
            EventView::Done => match encrypt_plan(
                s.crypto,
                s.content,
                s.target,
                s.recipients,
                s.armor,
            ) {
                Ok(call) => (
                    EditSessionView { phase: Phase::Encrypt, content: Seq::empty(), ..s },
                    ActionView::Run(call),
                ),
                Err(e) => edit_finish(s, Err(crypto_failure(e))),
            },
            EventView::Failed => edit_finish(s, Err(EditError::TargetDirFailed)),
            _ => edit_finish(s, Err(EditError::UnexpectedReply)),
        },
        Phase::Encrypt => match event {
            EventView::Exited { started, success } => match exit_verdict(
                started,
                success,
                CryptoError::EncryptFailed,
            ) {
                Ok(_) => edit_finish(s, Ok(EditOutcome::Changed)),
                Err(e) => edit_finish(s, Err(crypto_failure(e))),
            },
            _ => edit_finish(s, Err(EditError::UnexpectedReply)),
        },
        Phase::Cleanup => (
            EditSessionView { phase: Phase::Finished, workspace: None, ..s },
            ActionView::Finish(s.result),
        ),
        Phase::Finished => (s, ActionView::Finish(s.result)),
    }
}

/// The lifecycle's rule for replies: a reply is read as an event, and the
/// event is applied.
pub open spec fn edit_step(s: EditSessionView, reply: ReplyView) -> (EditSessionView, ActionView) {
    edit_apply(s, event_of(s.phase, reply))
}

/// Whether an edit changed anything, from the plaintext's bytes before and
/// after it (each `None` where there is no such file) and from whether an
/// editor ran at all.
pub fn detect_change(
    snapshot: Option<&Vec<u8>>,
    working_copy: Option<&Vec<u8>>,
    editor_ran: bool,
) -> (outcome: EditOutcome)
    ensures
        outcome == change_detected(
            match snapshot {
                Some(bytes) => Some(bytes@),
                None => None,
            },
            match working_copy {
                Some(bytes) => Some(bytes@),
                None => None,
            },
            editor_ran,
        ),
{
    match working_copy {
        None => EditOutcome::NotCreated,
        Some(after) => match snapshot {
            Some(before) => if editor_ran && same_bytes(before, after) {
                EditOutcome::Unchanged
            } else {
                EditOutcome::Changed
            },
            None => EditOutcome::Changed,
        },
    }
}

/// The call that runs `editor` on the file at `path`, through the shell.
pub fn editor_call(editor: &str, path: &str) -> (call: Invocation)
    ensures
        call@ == editor_invocation(editor@, path@),
{
    let mut line: String = editor.to_owned();
    line.append(" '");
    line.append(path);
    line.append("'");
    let mut args: Vec<String> = Vec::new();
    args.push("-c".to_owned());
    args.push(line);
    assert(texts(args@) =~= seq!["-c"@, editor@ + " '"@ + path@ + "'"@]);
    Invocation { program: "sh".to_owned(), args, input: None, capture: false }
}

/// What the operator is told about an outcome that wrote nothing.
pub open spec fn outcome_warning(outcome: EditOutcome, target: Seq<char>) -> Option<Seq<char>> {
    match outcome {
        EditOutcome::NotCreated => Some(target + " wasn't created."@),
        EditOutcome::Unchanged => Some(target + " wasn't changed, skipping re-encryption."@),
        EditOutcome::Changed => None,
    }
}

impl EditOutcome {
    /// The warning for the operator where the edit of `target` wrote nothing.
    pub fn warning(&self, target: &str) -> (line: Option<String>)
        ensures
            match line {
                Some(text) => outcome_warning(*self, target@) == Some(text@),
                None => outcome_warning(*self, target@) is None,
            },
    {
        match self {
            EditOutcome::NotCreated => {
                let mut line: String = target.to_owned();
                line.append(" wasn't created.");
                Some(line)
            },
            EditOutcome::Unchanged => {
                let mut line: String = target.to_owned();
                line.append(" wasn't changed, skipping re-encryption.");
                Some(line)
            },
            EditOutcome::Changed => None,
        }
    }
}

impl EditorChoice {
    /// The choice that an editor command stands for: `:` does nothing and
    /// means that editing is skipped; anything else is run.
    pub fn from_command(command: &str) -> (choice: EditorChoice)
        ensures
            choice@ == if command@ == ":"@ {
                None
            } else {
                Some(command@)
            },
    {
        let given: String = command.to_owned();
        let skip: String = ":".to_owned();
        if given == skip {
            EditorChoice::Skip
        } else {
            EditorChoice::Run(given)
        }
    }

    /// A copy of this choice.
    pub fn duplicate(&self) -> (copy: EditorChoice)
        ensures
            copy@ == self@,
    {
        match self {
            EditorChoice::Skip => EditorChoice::Skip,
            EditorChoice::Run(command) => EditorChoice::Run(command.clone()),
        }
    }
}

impl EditSession {
    /// Begins the lifecycle of `target`. The first action asks the rules for
    /// the target's recipients.
    pub fn start(
        target: &str,
        config: &Config,
        crypto: &CryptoManager,
        defaults: &Vec<String>,
        editor: EditorChoice,
    ) -> (begun: (EditSession, Action))
        ensures
            (begun.0@, begun.1@) == edit_start(
                target@,
                config@,
                crypto@,
                texts(defaults@),
                editor@,
            ),
    {
        let session = EditSession {
            phase: Phase::Recipients,
            target: target.to_owned(),
            config: config.clone(),
            crypto: crypto.duplicate(),
            defaults: clone_strings(defaults),
            editor,
            recipients: Vec::new(),
            armor: false,
            workspace: None,
            content: Vec::new(),
            result: Err(EditError::UnexpectedReply),
        };
        assert(texts(session.recipients@) =~= Seq::<Seq<char>>::empty());
        let action = Action::Run(public_keys_query(config, target));
        (session, action)
    }

    /// The action the session waits for.
    pub fn phase(&self) -> (phase: Phase)
        ensures
            phase == self@.phase,
    {
        self.phase
    }

    /// Whether the lifecycle is over.
    pub fn is_finished(&self) -> (over: bool)
        ensures
            over == (self@.phase == Phase::Finished),
    {
        match self.phase {
            Phase::Finished => true,
            _ => false,
        }
    }

    /// The encrypted file this lifecycle is about.
    pub fn target(&self) -> (target: &str)
        ensures
            target@ == self@.target,
    {
        self.target.as_str()
    }

    /// Where the plaintext lies.
    fn working_copy(&self) -> (path: String)
        ensures
            path@ == working_copy_path(workspace_dir(self@), self@.target),
    {
        let name = base_name(self.target.as_str());
        match &self.workspace {
            Some(dir) => join_path(dir.as_str(), name.as_str()),
            None => {
                let path = join_path("", name.as_str());
                proof {
                    reveal_strlit("");
                }
                path
            },
        }
    }

    /// Where the plaintext is copied to before the edit.
    fn snapshot(&self) -> (path: String)
        ensures
            path@ == snapshot_path(workspace_dir(self@), self@.target),
    {
        let mut path = self.working_copy();
        path.append(".before");
        path
    }

    /// The request to inspect the plaintext.
    fn inspect(&self) -> (action: Action)
        ensures
            action@ == inspection(self@),
    {
        Action::Inspect { working_copy: self.working_copy(), snapshot: self.snapshot() }
    }

    /// Ends the lifecycle with `result`, through the removal of the
    /// workspace where there is one.
    fn finish(&mut self, result: Result<EditOutcome, EditError>) -> (action: Action)
        ensures
            (final(self)@, action@) == edit_finish(old(self)@, result),
    {
        self.content = Vec::new();
        self.result = result;
        let open: Option<String> = match &self.workspace {
            Some(dir) => Some(dir.clone()),
            None => None,
        };
        match open {
            Some(dir) => {
                self.phase = Phase::Cleanup;
                Action::RemoveWorkspace(dir)
            },
            None => {
                self.phase = Phase::Finished;
                Action::Finish(result)
            },
        }
    }

    /// Hands the plaintext to the editor, or goes on to the inspection
    /// where editing is skipped.
    fn begin_editing(&mut self) -> (action: Action)
        ensures
            (final(self)@, action@) == edit_begin_editing(old(self)@),
    {
        let call: Option<Invocation> = match &self.editor {
            EditorChoice::Run(command) => Some(
                editor_call(command.as_str(), self.working_copy().as_str()),
            ),
            EditorChoice::Skip => None,
        };
        match call {
            Some(call) => {
                self.phase = Phase::Editor;
                Action::Run(call)
            },
            None => {
                let action = self.inspect();
                self.phase = Phase::Inspect;
                action
            },
        }
    }

    /// Reads the reply to the action that this lifecycle last handed out.
    pub fn read(&self, reply: Reply) -> (event: Event)
        ensures
            event@ == event_of(self@.phase, reply@),
    {
        read_reply(self.phase, reply)
    }

    /// Resumes the lifecycle with the reply to the action it last handed
    /// out, and hands out the next one. A finished lifecycle answers every
    /// reply with its result.
    pub fn step(&mut self, reply: Reply) -> (action: Action)
        ensures
            (final(self)@, action@) == edit_step(old(self)@, reply@),
    {
        let event = read_reply(self.phase, reply);
        self.resume(event)
    }

    /// Resumes the lifecycle with what the reply to its last action means,
    /// and hands out the next action. A finished lifecycle answers every
    /// event with its result.
    pub fn resume(&mut self, event: Event) -> (action: Action)
        ensures
            (final(self)@, action@) == edit_apply(old(self)@, event@),
    {
        match self.phase {
            Phase::Recipients => match event {
                Event::List(list) => match list {
                    Err(e) => self.finish(Err(EditError::Resolve(e))),
                    Ok(keys) => if keys.len() == 0 {
                        self.finish(Err(EditError::NoRuleForTarget))
                    } else {
                        self.phase = Phase::Armor;
                        self.recipients = keys;
                        Action::Run(armor_query(&self.config, self.target.as_str()))
                    },
                },
                _ => self.finish(Err(EditError::UnexpectedReply)),
            },
            Phase::Armor => match event {
                Event::Armor(flag) => {
                    self.phase = Phase::Workspace;
                    self.armor = flag;
                    Action::CreateWorkspace
                },
                _ => self.finish(Err(EditError::UnexpectedReply)),
            },
            Phase::Workspace => match event {
                Event::Workspace(dir) => {
                    self.phase = Phase::TargetProbe;
                    self.workspace = Some(dir);
                    Action::Exists(self.target.clone())
                },
                Event::Failed => self.finish(Err(EditError::WorkspaceFailed)),
                _ => self.finish(Err(EditError::UnexpectedReply)),
            },
            Phase::TargetProbe => match event {
                Event::Exists(found) => if found {
                    let working_copy = self.working_copy();
                    match self.crypto.decrypt(
                        self.target.as_str(),
                        Some(working_copy.as_str()),
                        true,
                        &self.defaults,
                    ) {
                        Ok(call) => {
                            self.phase = Phase::Decrypt;
                            Action::Run(call)
                        },
                        Err(e) => self.finish(Err(crypto_error(e))),
                    }
                } else {
                    self.begin_editing()
                },
                _ => self.finish(Err(EditError::UnexpectedReply)),
            },
            Phase::Decrypt => match event {
                Event::Exited { started, success } => match judge_exit(
                    started,
                    success,
                    CryptoError::DecryptFailed,
                ) {
                    Ok(_) => {
                        let action = Action::Exists(self.working_copy());
                        self.phase = Phase::PlaintextProbe;
                        action
                    },
                    Err(e) => self.finish(Err(crypto_error(e))),
                },
                _ => self.finish(Err(EditError::UnexpectedReply)),
            },
            Phase::PlaintextProbe => match event {
                Event::Exists(found) => if found {
                    let action = Action::Copy { from: self.working_copy(), to: self.snapshot() };
                    self.phase = Phase::Snapshot;
                    action
                } else {
                    self.begin_editing()
                },
                _ => self.finish(Err(EditError::UnexpectedReply)),
            },
            Phase::Snapshot => match event {
                Event::Done => self.begin_editing(),
                Event::Failed => self.finish(Err(EditError::SnapshotFailed)),
                _ => self.finish(Err(EditError::UnexpectedReply)),
            },
            Phase::Editor => match event {
                Event::Exited { started, success } => if started && success {
                    let action = self.inspect();
                    self.phase = Phase::Inspect;
                    action
                } else {
                    self.finish(Err(EditError::EditorFailed))
                },
                _ => self.finish(Err(EditError::UnexpectedReply)),
            },
            Phase::Inspect => match event {
                Event::Contents { working_copy, snapshot } => {
                    let editor_ran: bool = match &self.editor {
                        EditorChoice::Run(_) => true,
                        EditorChoice::Skip => false,
                    };
                    match detect_change(snapshot.as_ref(), working_copy.as_ref(), editor_ran) {
                        EditOutcome::Changed => match working_copy {
                            Some(bytes) => {
                                self.phase = Phase::Prepare;
                                self.content = bytes;
                                Action::CreateParentDirs(self.target.clone())
                            },
                            None => self.finish(Ok(EditOutcome::NotCreated)),
                        },
                        EditOutcome::Unchanged => self.finish(Ok(EditOutcome::Unchanged)),
                        EditOutcome::NotCreated => self.finish(Ok(EditOutcome::NotCreated)),
                    }
                },
                Event::Failed => self.finish(Err(EditError::ReadFailed)),
                _ => self.finish(Err(EditError::UnexpectedReply)),
            },
            Phase::Prepare => match event {
                Event::Done => match self.crypto.encrypt(
                    &self.content,
                    self.target.as_str(),
                    &self.recipients,
                    self.armor,
                ) {
                    Ok(call) => {
                        self.phase = Phase::Encrypt;
                        self.content = Vec::new();
                        Action::Run(call)
                    },
                    Err(e) => self.finish(Err(crypto_error(e))),
                },
                Event::Failed => self.finish(Err(EditError::TargetDirFailed)),
                _ => self.finish(Err(EditError::UnexpectedReply)),
            },
            Phase::Encrypt => match event {
                Event::Exited { started, success } => match judge_exit(
                    started,
                    success,
                    CryptoError::EncryptFailed,
                ) {
                    Ok(_) => self.finish(Ok(EditOutcome::Changed)),
                    Err(e) => self.finish(Err(crypto_error(e))),
                },
                _ => self.finish(Err(EditError::UnexpectedReply)),
            },
            Phase::Cleanup => {
                self.phase = Phase::Finished;
                self.workspace = None;
                Action::Finish(self.result)
            },
            Phase::Finished => Action::Finish(self.result),
        }
    }
}

/// What a failed edit of `target` reads like.
pub open spec fn edit_error_text(error: EditError, target: Seq<char>, rules_path: Seq<char>)
    -> Seq<char> {
    match error {
        EditError::Resolve(e) => "Failed to get public keys for "@ + target + ": "@
            + nix_error_text(e, rules_path),
        EditError::NoRuleForTarget => "There is no rule for "@ + target + " in "@ + rules_path,
        EditError::NoIdentityAvailable => crypto_error_text(CryptoError::NoIdentity, target),
        EditError::WorkspaceFailed => "Failed to create temporary directory"@,
        EditError::CryptoFailed(e) => crypto_error_text(e, target),
        EditError::SnapshotFailed => "Failed to create backup of cleartext file"@,
        EditError::EditorFailed => "Editor exited with non-zero status"@,
        EditError::ReadFailed => "Failed to read cleartext file"@,
        EditError::TargetDirFailed => "Failed to create parent directory"@,
        EditError::UnexpectedReply => "Unexpected reply to a pending action"@,
    }
}

impl EditError {
    /// A line for the operator that says why the edit of `target` failed.
    pub fn message(&self, target: &str, rules_path: &str) -> (line: String)
        ensures
            line@ == edit_error_text(*self, target@, rules_path@),
    {
        match self {
            EditError::Resolve(e) => {
                let mut line: String = "Failed to get public keys for ".to_owned();
                line.append(target);
                line.append(": ");
                line.append(e.message(rules_path).as_str());
                line
            },
            EditError::NoRuleForTarget => {
                let mut line: String = "There is no rule for ".to_owned();
                line.append(target);
                line.append(" in ");
                line.append(rules_path);
                line
            },
            EditError::NoIdentityAvailable => CryptoError::NoIdentity.message(target),
            EditError::WorkspaceFailed => "Failed to create temporary directory".to_owned(),
            EditError::CryptoFailed(e) => e.message(target),
            EditError::SnapshotFailed => "Failed to create backup of cleartext file".to_owned(),
            EditError::EditorFailed => "Editor exited with non-zero status".to_owned(),
            EditError::ReadFailed => "Failed to read cleartext file".to_owned(),
            EditError::TargetDirFailed => "Failed to create parent directory".to_owned(),
            EditError::UnexpectedReply => "Unexpected reply to a pending action".to_owned(),
        }
    }
}

/// Reads a reply as a lifecycle in `phase` reads it: the end of a process
/// for what the process was asked, every other reply as it is.
pub fn read_reply(phase: Phase, reply: Reply) -> (event: Event)
    ensures
        event@ == event_of(phase, reply@),
{
    match reply {
        Reply::Process(p) => match phase {
            Phase::Recipients => Event::List(get_public_keys(&p)),
            Phase::Armor => Event::Armor(should_armor(&p)),
            _ => Event::Exited { started: p.started, success: p.success },
        },
        Reply::Workspace(dir) => Event::Workspace(dir),
        Reply::Exists(found) => Event::Exists(found),
        Reply::Done => Event::Done,
        Reply::Contents { working_copy, snapshot } => Event::Contents { working_copy, snapshot },
        Reply::Failed => Event::Failed,
    }
}

/// How a failure to plan or run age ends a lifecycle.
pub fn crypto_error(error: CryptoError) -> (end: EditError)
    ensures
        end == crypto_failure(error),
{
    match error {
        CryptoError::NoIdentity => EditError::NoIdentityAvailable,
        _ => EditError::CryptoFailed(error),
    }
}

} // verus!
