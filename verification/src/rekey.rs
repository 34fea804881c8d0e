//! Rekeying: every declared file goes through the edit lifecycle with
//! editing skipped, one after the other, in the order the rules list them.
//! The first lifecycle that fails ends the pass.

use vstd::prelude::*;
use crate::config::{Config, ConfigView};
use crate::crypto::{CryptoManager, CryptoManagerView};
use crate::lifecycle::{
    edit_apply, edit_error_text, edit_start, event_of, read_reply, Action, ActionView, EditError,
    EditOutcome, EditSession, EditSessionView, EditorChoice, Event, EventView, Phase, Reply,
    ReplyView,
};
use crate::nix::{all_files_query, eval_invocation, files_expression, nix_error_text, NixError};
use crate::text::{clone_strings, texts};

verus! {

/// Why a rekeying pass was given up.
#[derive(Debug, PartialEq, Eq)]
pub enum RekeyError {
    /// The declared files could not be listed.
    List(NixError),
    /// The lifecycle of this file failed.
    File { file: String, cause: EditError },
    /// The caller answered the listing with something it cannot yield.
    UnexpectedReply,
}

/// The mathematical content of a [`RekeyError`].
pub enum RekeyErrorView {
    List(NixError),
    File { file: Seq<char>, cause: EditError },
    UnexpectedReply,
}

impl View for RekeyError {
    type V = RekeyErrorView;

    open spec fn view(&self) -> RekeyErrorView {
        match self {
            RekeyError::List(e) => RekeyErrorView::List(*e),
            RekeyError::File { file, cause } => RekeyErrorView::File { file: file@, cause: *cause },
            RekeyError::UnexpectedReply => RekeyErrorView::UnexpectedReply,
        }
    }
}

/// The content of the result of a pass.
pub open spec fn rekey_result_view(result: Result<(), RekeyError>) -> Result<(), RekeyErrorView> {
    match result {
        Ok(_) => Ok(()),
        Err(e) => Err(e@),
    }
}

/// What the caller is asked to do next.
#[derive(Debug, PartialEq, Eq)]
pub enum RekeyAction {
    /// Carry out `action` and resume the pass with its reply. Where the
    /// action is the first of a file's lifecycle, `begins` names that file.
    Perform { begins: Option<String>, action: Action },
    /// Nothing more: the pass is over, with this result.
    Finish(Result<(), RekeyError>),
}

/// The mathematical content of a [`RekeyAction`].
pub enum RekeyActionView {
    Perform { begins: Option<Seq<char>>, action: ActionView },
    Finish(Result<(), RekeyErrorView>),
}

impl View for RekeyAction {
    type V = RekeyActionView;

    open spec fn view(&self) -> RekeyActionView {
        match self {
            RekeyAction::Perform { begins, action } => RekeyActionView::Perform {
                begins: match begins {
                    Some(file) => Some(file@),
                    None => None,
                },
                action: action@,
            },
            RekeyAction::Finish(result) => RekeyActionView::Finish(rekey_result_view(*result)),
        }
    }
}

/// Where a pass stands.
enum Stage {
    Listing,
    Running { file: String, next: usize, edit: EditSession },
    Finished,
}

/// Where a pass stands: it waits for the list of files, or it runs the
/// lifecycle `edit` of `file`, with `next` the index of the file that
/// follows, or it is over.
pub enum StageView {
    Listing,
    Running { file: Seq<char>, next: int, edit: EditSessionView },
    Finished,
}

impl View for Stage {
    type V = StageView;

    closed spec fn view(&self) -> StageView {
        match self {
            Stage::Listing => StageView::Listing,
            Stage::Running { file, next, edit } => StageView::Running {
                file: file@,
                next: *next as int,
                edit: edit@,
            },
            Stage::Finished => StageView::Finished,
        }
    }
}

/// One rekeying pass in progress.
pub struct RekeySession {
    files: Vec<String>,
    config: Config,
    crypto: CryptoManager,
    defaults: Vec<String>,
    stage: Stage,
    outcomes: Vec<EditOutcome>,
    result: Result<(), RekeyError>,
}

/// The mathematical content of a [`RekeySession`].
pub struct RekeySessionView {
    /// The declared files, in the order they were listed.
    pub files: Seq<Seq<char>>,
    /// Where the rules and nix-instantiate are.
    pub config: ConfigView,
    /// Where age is, and the identities the operator named.
    pub crypto: CryptoManagerView,
    /// The identities to fall back on.
    pub defaults: Seq<Seq<char>>,
    /// Where the pass stands.
    pub stage: StageView,
    /// What the lifecycles that ended well came to, in list order.
    pub outcomes: Seq<EditOutcome>,
    /// The result the pass ends with, once it is known.
    pub result: Result<(), RekeyErrorView>,
}

impl View for RekeySession {
    type V = RekeySessionView;

    closed spec fn view(&self) -> RekeySessionView {
        RekeySessionView {
            files: texts(self.files@),
            config: self.config@,
            crypto: self.crypto@,
            defaults: texts(self.defaults@),
            stage: self.stage@,
            outcomes: self.outcomes@,
            result: rekey_result_view(self.result),
        }
    }
}

/// What the operator is told when the lifecycle of `file` begins.
pub open spec fn progress_text(file: Seq<char>) -> Seq<char> {
    "rekeying "@ + file + "..."@
}

/// A pass as it begins, and its first action: the question for the
/// declared files.
pub open spec fn rekey_start(
    config: ConfigView,
    crypto: CryptoManagerView,
    defaults: Seq<Seq<char>>,
) -> (RekeySessionView, RekeyActionView) {
    (
        RekeySessionView {
            files: Seq::empty(),
            config,
            crypto,
            defaults,
            stage: StageView::Listing,
            outcomes: Seq::empty(),
            result: Err(RekeyErrorView::UnexpectedReply),
        },
        RekeyActionView::Perform {
            begins: None,
            action: ActionView::Run(
                eval_invocation(config.nix_instantiate, files_expression(config.rules_path), false),
            ),
        },
    )
}

/// Ends a pass with `result`.
pub open spec fn rekey_finish(s: RekeySessionView, result: Result<(), RekeyErrorView>) -> (
    RekeySessionView,
    RekeyActionView,
) {
    (RekeySessionView { stage: StageView::Finished, result, ..s }, RekeyActionView::Finish(result))
}

/// Begins the lifecycle of the file at index `next`, with editing skipped;
/// behind the last file the pass ends well.
pub open spec fn rekey_begin(s: RekeySessionView, next: int) -> (
    RekeySessionView,
    RekeyActionView,
) {
    if 0 <= next < s.files.len() {
        let begun = edit_start(s.files[next], s.config, s.crypto, s.defaults, None);
        (
            RekeySessionView {
                stage: StageView::Running { file: s.files[next], next: next + 1, edit: begun.0 },
                ..s
            },
            RekeyActionView::Perform { begins: Some(s.files[next]), action: begun.1 },
        )
    } else {
        rekey_finish(s, Ok(()))
    }
}

/// The pass's rule: the session and the action that follow when a pass is
/// resumed with an event. The answer to the listing sets the list and
/// begins the first lifecycle. Every other event belongs to the lifecycle
/// that is running: where that lifecycle ends well with it, the next one
/// begins; where it fails, the pass fails with it.
pub open spec fn rekey_apply(s: RekeySessionView, event: EventView) -> (
    RekeySessionView,
    RekeyActionView,
) {
    match s.stage {
        StageView::Listing => match event {
            EventView::List(Ok(files)) => rekey_begin(RekeySessionView { files, ..s }, 0),
            EventView::List(Err(e)) => rekey_finish(s, Err(RekeyErrorView::List(e))),
            _ => rekey_finish(s, Err(RekeyErrorView::UnexpectedReply)),
        },
        StageView::Running { file, next, edit } => {
            let stepped = edit_apply(edit, event);
            match stepped.1 {
                ActionView::Finish(Ok(outcome)) => rekey_begin(
                    RekeySessionView { outcomes: s.outcomes.push(outcome), ..s },
                    next,
                ),
                ActionView::Finish(Err(cause)) => rekey_finish(
                    s,
                    Err(RekeyErrorView::File { file, cause }),
                ),
                action => (
                    RekeySessionView {
                        stage: StageView::Running { file, next, edit: stepped.0 },
                        ..s
                    },
                    RekeyActionView::Perform { begins: None, action },
                ),
            }
        },
        StageView::Finished => (s, RekeyActionView::Finish(s.result)),
    }
}

/// How a reply is read by a pass: as the lifecycle that is running reads
/// it, and otherwise as the answer to a question for a list.
pub open spec fn rekey_event_of(stage: StageView, reply: ReplyView) -> EventView {
    match stage {
        StageView::Running { edit, .. } => event_of(edit.phase, reply),
        _ => event_of(Phase::Recipients, reply),
    }
}

/// The pass's rule for replies: a reply is read as an event, and the event
/// is applied.
pub open spec fn rekey_step(s: RekeySessionView, reply: ReplyView) -> (
    RekeySessionView,
    RekeyActionView,
) {
    rekey_apply(s, rekey_event_of(s.stage, reply))
}

/// What a failed pass reads like.
pub open spec fn rekey_error_text(error: RekeyErrorView, rules_path: Seq<char>) -> Seq<char> {
    match error {
        RekeyErrorView::List(e) => "Failed to get list of files from rules: "@ + nix_error_text(
            e,
            rules_path,
        ),
        RekeyErrorView::File { file, cause } => "Failed to rekey "@ + file + ": "@
            + edit_error_text(cause, file, rules_path),
        RekeyErrorView::UnexpectedReply => "Unexpected reply to a pending action"@,
    }
}

/// What the operator is told when the lifecycle of `file` begins.
pub fn progress_line(file: &str) -> (line: String)
    ensures
        line@ == progress_text(file@),
{
    let mut line: String = "rekeying ".to_owned();
    line.append(file);
    line.append("...");
    line
}

impl RekeyError {
    /// A line for the operator that says why the pass failed.
    pub fn message(&self, rules_path: &str) -> (line: String)
        ensures
            line@ == rekey_error_text(self@, rules_path@),
    {
        match self {
            RekeyError::List(e) => {
                let mut line: String = "Failed to get list of files from rules: ".to_owned();
                line.append(e.message(rules_path).as_str());
                line
            },
            RekeyError::File { file, cause } => {
                let mut line: String = "Failed to rekey ".to_owned();
                line.append(file.as_str());
                line.append(": ");
                line.append(cause.message(file.as_str(), rules_path).as_str());
                line
            },
            RekeyError::UnexpectedReply => "Unexpected reply to a pending action".to_owned(),
        }
    }

    /// A copy of this error.
    pub fn duplicate(&self) -> (copy: RekeyError)
        ensures
            copy@ == self@,
    {
        match self {
            RekeyError::List(e) => RekeyError::List(*e),
            RekeyError::File { file, cause } => RekeyError::File {
                file: file.clone(),
                cause: *cause,
            },
            RekeyError::UnexpectedReply => RekeyError::UnexpectedReply,
        }
    }
}

/// A copy of the result of a pass.
fn copy_result(result: &Result<(), RekeyError>) -> (copy: Result<(), RekeyError>)
    ensures
        rekey_result_view(copy) == rekey_result_view(*result),
{
    match result {
        Ok(_) => Ok(()),
        Err(e) => Err(e.duplicate()),
    }
}

impl RekeySession {
    /// Begins a pass. The first action asks the rules for the declared files.
    pub fn start(config: &Config, crypto: &CryptoManager, defaults: &Vec<String>) -> (begun: (
        RekeySession,
        RekeyAction,
    ))
        ensures
            (begun.0@, begun.1@) == rekey_start(config@, crypto@, texts(defaults@)),
    {
        let session = RekeySession {
            files: Vec::new(),
            config: config.clone(),
            crypto: crypto.duplicate(),
            defaults: clone_strings(defaults),
            stage: Stage::Listing,
            outcomes: Vec::new(),
            result: Err(RekeyError::UnexpectedReply),
        };
        assert(texts(session.files@) =~= Seq::<Seq<char>>::empty());
        let action = RekeyAction::Perform {
            begins: None,
            action: Action::Run(all_files_query(config)),
        };
        (session, action)
    }

    /// Whether the pass is over.
    pub fn is_finished(&self) -> (over: bool)
        ensures
            over == (self@.stage is Finished),
    {
        match &self.stage {
            Stage::Finished => true,
            _ => false,
        }
    }

    /// The declared files, as far as they are known.
    pub fn files(&self) -> (files: &Vec<String>)
        ensures
            texts(files@) == self@.files,
    {
        &self.files
    }

    /// What the lifecycles that have ended well came to, in list order.
    pub fn outcomes(&self) -> (outcomes: &Vec<EditOutcome>)
        ensures
            outcomes@ == self@.outcomes,
    {
        &self.outcomes
    }

    /// Ends the pass with `result`.
    fn finish(&mut self, result: Result<(), RekeyError>) -> (action: RekeyAction)
        ensures
            (final(self)@, action@) == rekey_finish(old(self)@, rekey_result_view(result)),
    {
        self.result = copy_result(&result);
        self.stage = Stage::Finished;
        RekeyAction::Finish(result)
    }

    /// Begins the lifecycle of the file at index `next`, or ends the pass
    /// behind the last file.
    fn begin(&mut self, next: usize) -> (action: RekeyAction)
        ensures
            (final(self)@, action@) == rekey_begin(old(self)@, next as int),
    {
        if next < self.files.len() {
            let begun = EditSession::start(
                self.files[next].as_str(),
                &self.config,
                &self.crypto,
                &self.defaults,
                EditorChoice::Skip,
            );
            self.stage = Stage::Running {
                file: self.files[next].clone(),
                next: next + 1,
                edit: begun.0,
            };
            RekeyAction::Perform { begins: Some(self.files[next].clone()), action: begun.1 }
        } else {
            self.finish(Ok(()))
        }
    }

    /// Reads the reply to the action that this pass last handed out.
    pub fn read(&self, reply: Reply) -> (event: Event)
        ensures
            event@ == rekey_event_of(self@.stage, reply@),
    {
        match &self.stage {
            Stage::Running { edit, .. } => edit.read(reply),
            _ => read_reply(Phase::Recipients, reply),
        }
    }

    /// Resumes the pass with the reply to the action it last handed out,
    /// and hands out the next one. A finished pass answers every reply with
    /// its result.
    pub fn step(&mut self, reply: Reply) -> (action: RekeyAction)
        ensures
            (final(self)@, action@) == rekey_step(old(self)@, reply@),
    {
        let event = self.read(reply);
        self.resume(event)
    }

    /// Resumes the pass with what the reply to its last action means, and
    /// hands out the next action. A finished pass answers every event with
    /// its result.
    pub fn resume(&mut self, event: Event) -> (action: RekeyAction)
        ensures
            (final(self)@, action@) == rekey_apply(old(self)@, event@),
    {
        let mut stage = Stage::Finished;
        core::mem::swap(&mut self.stage, &mut stage);
        match stage {
            Stage::Listing => match event {
                Event::List(Ok(files)) => {
                    self.stage = Stage::Listing;
                    self.files = files;
                    self.begin(0)
                },
                Event::List(Err(e)) => self.finish(Err(RekeyError::List(e))),
                _ => self.finish(Err(RekeyError::UnexpectedReply)),
            },
            Stage::Running { file, next, edit } => {
                let mut edit = edit;
                let action = edit.resume(event);
                match action {
                    Action::Finish(Ok(outcome)) => {
                        self.outcomes.push(outcome);
                        self.begin(next)
                    },
                    Action::Finish(Err(cause)) => self.finish(
                        Err(RekeyError::File { file, cause }),
                    ),
                    action => {
                        self.stage = Stage::Running { file, next, edit };
                        RekeyAction::Perform { begins: None, action }
                    },
                }
            },
            Stage::Finished => RekeyAction::Finish(copy_result(&self.result)),
        }
    }
}

} // verus!
