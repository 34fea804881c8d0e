//! What holds of every edit lifecycle and of every rekeying pass, whatever
//! the caller answers.
//!
//! The statements speak of runs: a session resumed with a sequence of
//! events, one after the other, and the actions it hands out on the way.
//! Every reply is read as one event, so what holds of all runs of events
//! holds of all that a caller can answer.

use vstd::prelude::*;
use crate::config::ConfigView;
use crate::crypto::{
    decrypt_invocation, encrypt_invocation, identities_in_use, CryptoManagerView,
};
use crate::lifecycle::{
    change_detected, edit_apply, edit_finish, edit_start, editor_invocation, snapshot_path,
    working_copy_path, ActionView, EditError, EditOutcome, EditSessionView, EventView, Phase,
};
use crate::nix::{armor_expression, eval_invocation};
use crate::rekey::{
    rekey_apply, rekey_start, RekeyActionView, RekeyErrorView, RekeySessionView, StageView,
};
use crate::text::{base_name_of, joined, lemma_base_name_is_a_name, separator_free};

verus! {

/// The session reached when `s` is resumed with each of `events` in turn.
pub open spec fn edit_run(s: EditSessionView, events: Seq<EventView>) -> EditSessionView
    decreases events.len(),
{
    if events.len() == 0 {
        s
    } else {
        edit_run(edit_apply(s, events[0]).0, events.drop_first())
    }
}

/// The action handed out in answer to the event at index `i`, when `s` is
/// resumed with each of `events` in turn.
pub open spec fn edit_action(s: EditSessionView, events: Seq<EventView>, i: int) -> ActionView
    recommends
        0 <= i < events.len(),
    decreases events.len(),
{
    if events.len() == 0 || i <= 0 {
        edit_apply(s, events[0]).1
    } else {
        edit_action(edit_apply(s, events[0]).0, events.drop_first(), i - 1)
    }
}

/// Whether a phase lies between the creation of the workspace and the
/// answer to its removal.
pub open spec fn holds_workspace(phase: Phase) -> bool {
    match phase {
        Phase::Recipients | Phase::Armor | Phase::Workspace | Phase::Finished => false,
        _ => true,
    }
}

/// Whether a phase lies behind the resolution of the recipients and before
/// the end of the encryption.
pub open spec fn holds_recipients(phase: Phase) -> bool {
    match phase {
        Phase::Recipients | Phase::Cleanup | Phase::Finished => false,
        _ => true,
    }
}

/// What holds of every session that a lifecycle can reach: it has a
/// workspace exactly in the phases that work in one, and it has recipients
/// wherever it may still encrypt.
pub open spec fn session_sound(s: EditSessionView) -> bool {
    &&& holds_workspace(s.phase) <==> s.workspace is Some
    &&& holds_recipients(s.phase) ==> s.recipients.len() > 0
}

/// Whether an action starts a process.
pub open spec fn is_run(action: ActionView) -> bool {
    action is Run
}

/// Whether an action is the call that encrypts: the one call that is fed
/// data on its standard input.
pub open spec fn is_encryption(action: ActionView) -> bool {
    action matches ActionView::Run(call) && call.input is Some
}

/// A lifecycle begins sound.
pub proof fn law_start_is_sound(
    target: Seq<char>,
    config: ConfigView,
    crypto: CryptoManagerView,
    defaults: Seq<Seq<char>>,
    editor: Option<Seq<char>>,
)
    ensures
        session_sound(edit_start(target, config, crypto, defaults, editor).0),
{
}

/// Whatever the event, a sound session is followed by a sound session.
pub proof fn law_step_keeps_sound(s: EditSessionView, event: EventView)
    requires
        session_sound(s),
    ensures
        session_sound(edit_apply(s, event).0),
{
}

/// Every session that a lifecycle reaches is sound, whatever the events.
pub proof fn law_reachable_sessions_are_sound(
    target: Seq<char>,
    config: ConfigView,
    crypto: CryptoManagerView,
    defaults: Seq<Seq<char>>,
    editor: Option<Seq<char>>,
    events: Seq<EventView>,
)
    ensures
        session_sound(
            edit_run(edit_start(target, config, crypto, defaults, editor).0, events),
        ),
{
    lemma_run_keeps_sound(edit_start(target, config, crypto, defaults, editor).0, events);
}

proof fn lemma_run_keeps_sound(s: EditSessionView, events: Seq<EventView>)
    requires
        session_sound(s),
    ensures
        session_sound(edit_run(s, events)),
    decreases events.len(),
{
    if events.len() > 0 {
        law_step_keeps_sound(s, events[0]);
        lemma_run_keeps_sound(edit_apply(s, events[0]).0, events.drop_first());
    }
}

/// The end of a lifecycle is reported only when no workspace is left: a
/// session that holds a workspace hands out `Finish` only in answer to the
/// removal it asked for, and after that holds none. While it works in the
/// workspace, each step either keeps the workspace or asks for its removal.
pub proof fn law_no_finish_over_a_workspace(s: EditSessionView, event: EventView)
    requires
        session_sound(s),
    ensures
        edit_apply(s, event).1 is Finish ==> edit_apply(s, event).0.workspace is None && edit_apply(
            s,
            event,
        ).0.phase == Phase::Finished && (s.workspace is Some ==> s.phase == Phase::Cleanup),
        s.workspace is Some && s.phase != Phase::Cleanup ==> edit_apply(s, event).0.workspace
            == s.workspace && (edit_apply(s, event).0.phase == Phase::Cleanup <==> edit_apply(
            s,
            event,
        ).1 == ActionView::RemoveWorkspace(s.workspace->0)),
{
}

/// Once a workspace exists, the lifecycle does not report its end before it
/// has asked for the removal of that workspace: in every run from a session
/// that works in the workspace `dir`, a `Finish` is preceded by
/// `RemoveWorkspace(dir)`.
pub proof fn law_workspace_removed_before_finish(
    s: EditSessionView,
    events: Seq<EventView>,
    j: int,
) -> (k: int)
    requires
        session_sound(s),
        s.workspace is Some,
        s.phase != Phase::Cleanup,
        0 <= j < events.len(),
        edit_action(s, events, j) is Finish,
    ensures
        0 <= k < j,
        edit_action(s, events, k) == ActionView::RemoveWorkspace(s.workspace->0),
    decreases events.len(),
{
    law_no_finish_over_a_workspace(s, events[0]);
    law_step_keeps_sound(s, events[0]);
    let next = edit_apply(s, events[0]).0;
    if j == 0 {
        0
    } else if next.phase == Phase::Cleanup {
        0
    } else {
        let k = law_workspace_removed_before_finish(next, events.drop_first(), j - 1);
        k + 1
    }
}

/// A finished lifecycle answers every event with its result and nothing else.
pub proof fn law_finished_stays_finished(s: EditSessionView, events: Seq<EventView>, i: int)
    requires
        s.phase == Phase::Finished,
        0 <= i < events.len(),
    ensures
        edit_action(s, events, i) == ActionView::Finish(s.result),
        edit_run(s, events) == s,
    decreases events.len(),
{
    if i > 0 {
        law_finished_stays_finished(s, events.drop_first(), i - 1);
    } else {
        lemma_finished_run(s, events);
    }
}

proof fn lemma_finished_run(s: EditSessionView, events: Seq<EventView>)
    requires
        s.phase == Phase::Finished,
    ensures
        edit_run(s, events) == s,
    decreases events.len(),
{
    if events.len() > 0 {
        lemma_finished_run(s, events.drop_first());
    }
}

/// A lifecycle that has its result, be it that it waits for the removal of
/// its workspace or that it is finished, answers every event with that
/// result and asks for nothing more.
pub proof fn law_decided_lifecycle_only_ends(s: EditSessionView, events: Seq<EventView>, i: int)
    requires
        s.phase == Phase::Cleanup || s.phase == Phase::Finished,
        0 <= i < events.len(),
    ensures
        edit_action(s, events, i) == ActionView::Finish(s.result),
    decreases events.len(),
{
    if i > 0 {
        let next = edit_apply(s, events[0]).0;
        law_decided_lifecycle_only_ends(next, events.drop_first(), i - 1);
    }
}

/// Where the rules declare no recipient for the target, the lifecycle fails
/// with `NoRuleForTarget` and asks for nothing: after the question for the
/// recipients, every action is that failure. No workspace is made, no file
/// is read or written, and no process is started.
pub proof fn law_no_rule_asks_for_nothing(
    target: Seq<char>,
    config: ConfigView,
    crypto: CryptoManagerView,
    defaults: Seq<Seq<char>>,
    editor: Option<Seq<char>>,
    later: Seq<EventView>,
    i: int,
)
    requires
        0 <= i <= later.len(),
    ensures
        edit_action(
            edit_start(target, config, crypto, defaults, editor).0,
            seq![EventView::List(Ok(Seq::empty()))] + later,
            i,
        ) == ActionView::Finish(Err(EditError::NoRuleForTarget)),
{
    let start = edit_start(target, config, crypto, defaults, editor).0;
    let events = seq![EventView::List(Ok(Seq::empty()))] + later;
    if i > 0 {
        assert(events.drop_first() =~= later);
        law_finished_stays_finished(edit_apply(start, events[0]).0, later, i - 1);
    }
}

/// An edit that leaves the plaintext as it was encrypts nothing. Where an
/// editor ran and the working copy holds the very bytes of the snapshot, the
/// lifecycle ends with `Unchanged`: every action from then on is the removal
/// of the workspace or the report of that end. No process is started, so
/// the encrypted file stays as it is.
pub proof fn law_unchanged_edit_encrypts_nothing(
    s: EditSessionView,
    bytes: Seq<u8>,
    later: Seq<EventView>,
    i: int,
)
    requires
        s.phase == Phase::Inspect,
        s.editor is Some,
        0 <= i <= later.len(),
    ensures
        ({
            let events = seq![
                EventView::Contents { working_copy: Some(bytes), snapshot: Some(bytes) },
            ] + later;
            let action = edit_action(s, events, i);
            &&& !is_run(action)
            &&& i == 0 ==> action == edit_finish(s, Ok(EditOutcome::Unchanged)).1
            &&& i > 0 ==> action == ActionView::Finish(Ok(EditOutcome::Unchanged))
        }),
{
    let event = EventView::Contents { working_copy: Some(bytes), snapshot: Some(bytes) };
    let events = seq![event] + later;
    if i > 0 {
        assert(events.drop_first() =~= later);
        law_decided_lifecycle_only_ends(edit_apply(s, event).0, later, i - 1);
    }
}

/// Nothing is encrypted unless the inspection found a change. The call that
/// encrypts is handed out only by a session that waits for the directory of
/// the encrypted file, and a session comes to wait for it only from an
/// inspection whose outcome is `Changed`.
pub proof fn law_encryption_needs_a_change(s: EditSessionView, event: EventView)
    requires
        session_sound(s),
    ensures
        is_encryption(edit_apply(s, event).1) ==> s.phase == Phase::Prepare,
        edit_apply(s, event).0.phase == Phase::Prepare ==> s.phase == Phase::Inspect && (
        event matches EventView::Contents { working_copy, snapshot } && change_detected(
            snapshot,
            working_copy,
            s.editor is Some,
        ) == EditOutcome::Changed),
{
}

/// What is encrypted is what the edit left. When the inspection finds the
/// working copy changed, and the directory of the encrypted file is then
/// made, the next action encrypts exactly the bytes of the working copy, to
/// the recipients resolved at the start, and writes to the target.
pub proof fn law_encryption_carries_the_working_copy(
    s: EditSessionView,
    working_copy: Seq<u8>,
    snapshot: Option<Seq<u8>>,
)
    requires
        session_sound(s),
        s.phase == Phase::Inspect,
        change_detected(snapshot, Some(working_copy), s.editor is Some) == EditOutcome::Changed,
    ensures
        ({
            let found = EventView::Contents { working_copy: Some(working_copy), snapshot };
            let waiting = edit_apply(s, found);
            let encrypting = edit_apply(waiting.0, EventView::Done);
            &&& waiting.1 == ActionView::CreateParentDirs(s.target)
            &&& encrypting.1 == ActionView::Run(
                encrypt_invocation(
                    s.crypto.config.age_bin,
                    working_copy,
                    s.target,
                    s.recipients,
                    s.armor,
                ),
            )
        }),
{
}

/// The whole lifecycle of an edit that changes an existing secret. Where
/// the rules name recipients, there is an identity, age and the editor
/// succeed, and the editor leaves other bytes than it found, the lifecycle
/// asks, in this order: whether the secret is armored; for a workspace;
/// whether the target exists; to decrypt the target into the workspace with
/// the identities in use; whether that left plaintext; to copy the plaintext
/// aside; to run the editor on the plaintext; to inspect plaintext and copy;
/// to make the target's directory; to encrypt the edited bytes, and no
/// others, to the recipients resolved at the start, writing to the target;
/// to remove the workspace. Then it reports `Changed`. Each action is the
/// answer to the event before it.
pub proof fn law_changed_edit_step_by_step(
    target: Seq<char>,
    config: ConfigView,
    crypto: CryptoManagerView,
    defaults: Seq<Seq<char>>,
    command: Seq<char>,
    recipients: Seq<Seq<char>>,
    armor: bool,
    dir: Seq<char>,
    before: Seq<u8>,
    after: Seq<u8>,
)
    requires
        recipients.len() > 0,
        identities_in_use(crypto.identities, defaults).len() > 0,
        before != after,
    ensures
        ({
            let working_copy = working_copy_path(dir, target);
            let snapshot = snapshot_path(dir, target);
            let begun = edit_start(target, config, crypto, defaults, Some(command));
            let resolved = edit_apply(begun.0, EventView::List(Ok(recipients)));
            let armored = edit_apply(resolved.0, EventView::Armor(armor));
            let housed = edit_apply(armored.0, EventView::Workspace(dir));
            let probed = edit_apply(housed.0, EventView::Exists(true));
            let opened = edit_apply(probed.0, EventView::Exited { started: true, success: true });
            let found = edit_apply(opened.0, EventView::Exists(true));
            let copied = edit_apply(found.0, EventView::Done);
            let closed = edit_apply(copied.0, EventView::Exited { started: true, success: true });
            let inspected = edit_apply(
                closed.0,
                EventView::Contents { working_copy: Some(after), snapshot: Some(before) },
            );
            let prepared = edit_apply(inspected.0, EventView::Done);
            let sealed = edit_apply(prepared.0, EventView::Exited { started: true, success: true });
            let removed = edit_apply(sealed.0, EventView::Done);
            &&& resolved.1 == ActionView::Run(
                eval_invocation(
                    config.nix_instantiate,
                    armor_expression(config.rules_path, target),
                    true,
                ),
            )
            &&& armored.1 == ActionView::CreateWorkspace
            &&& housed.1 == ActionView::Exists(target)
            &&& probed.1 == ActionView::Run(
                decrypt_invocation(
                    crypto.config.age_bin,
                    identities_in_use(crypto.identities, defaults),
                    target,
                    Some(working_copy),
                ),
            )
            &&& opened.1 == ActionView::Exists(working_copy)
            &&& found.1 == ActionView::Copy { from: working_copy, to: snapshot }
            &&& copied.1 == ActionView::Run(editor_invocation(command, working_copy))
            &&& closed.1 == ActionView::Inspect { working_copy, snapshot }
            &&& inspected.1 == ActionView::CreateParentDirs(target)
            &&& prepared.1 == ActionView::Run(
                encrypt_invocation(
                    crypto.config.age_bin,
                    after,
                    target,
                    recipients,
                    armor,
                ),
            )
            &&& sealed.1 == ActionView::RemoveWorkspace(dir)
            &&& removed.1 == ActionView::Finish(Ok(EditOutcome::Changed))
        }),
{
    let begun = edit_start(target, config, crypto, defaults, Some(command));
    let resolved = edit_apply(begun.0, EventView::List(Ok(recipients)));
    assert(resolved.0.phase == Phase::Armor);
    let armored = edit_apply(resolved.0, EventView::Armor(armor));
    assert(armored.0.phase == Phase::Workspace);
    let housed = edit_apply(armored.0, EventView::Workspace(dir));
    assert(housed.0.phase == Phase::TargetProbe);
    let probed = edit_apply(housed.0, EventView::Exists(true));
    assert(probed.0.phase == Phase::Decrypt);
    let opened = edit_apply(probed.0, EventView::Exited { started: true, success: true });
    assert(opened.0.phase == Phase::PlaintextProbe);
    let found = edit_apply(opened.0, EventView::Exists(true));
    assert(found.0.phase == Phase::Snapshot);
    let copied = edit_apply(found.0, EventView::Done);
    assert(copied.0.phase == Phase::Editor);
    let closed = edit_apply(copied.0, EventView::Exited { started: true, success: true });
    assert(closed.0.phase == Phase::Inspect);
    let inspected = edit_apply(
        closed.0,
        EventView::Contents { working_copy: Some(after), snapshot: Some(before) },
    );
    assert(inspected.0.phase == Phase::Prepare);
    let prepared = edit_apply(inspected.0, EventView::Done);
    assert(prepared.0.phase == Phase::Encrypt);
    let sealed = edit_apply(prepared.0, EventView::Exited { started: true, success: true });
    assert(sealed.0.phase == Phase::Cleanup);
}

/// Plaintext stays in the workspace. The working copy and its snapshot lie
/// directly in the workspace directory: each path is the directory, one
/// separator unless the directory ends in one, and a name without separator
/// that is neither `.` nor `..`.
pub proof fn law_plaintext_stays_in_workspace(dir: Seq<char>, target: Seq<char>)
    ensures
        working_copy_path(dir, target) == joined(dir, base_name_of(target)),
        snapshot_path(dir, target) == joined(dir, base_name_of(target) + ".before"@),
        separator_free(base_name_of(target)),
        separator_free(base_name_of(target) + ".before"@),
        base_name_of(target) != seq!['.'],
        base_name_of(target) != seq!['.', '.'],
        (base_name_of(target) + ".before"@).len() > 2,
{
    lemma_base_name_is_a_name(target);
    reveal_strlit(".before");
}

/// Whether an event is the answer to an inspection that found the plaintext
/// changed, for a lifecycle whose editor is `editor`.
pub open spec fn reports_change(event: EventView, editor: Option<Seq<char>>) -> bool {
    event matches EventView::Contents { working_copy, snapshot } && change_detected(
        snapshot,
        working_copy,
        editor is Some,
    ) == EditOutcome::Changed
}

/// From its start, a lifecycle encrypts only after an inspection has found
/// the plaintext changed: in every run, the call that encrypts is preceded
/// by such an answer. So a run in which no inspection reports a change
/// leaves the encrypted file to itself.
pub proof fn law_no_encryption_without_change(
    target: Seq<char>,
    config: ConfigView,
    crypto: CryptoManagerView,
    defaults: Seq<Seq<char>>,
    editor: Option<Seq<char>>,
    events: Seq<EventView>,
    i: int,
) -> (j: int)
    requires
        0 <= i < events.len(),
        is_encryption(
            edit_action(edit_start(target, config, crypto, defaults, editor).0, events, i),
        ),
    ensures
        0 <= j < i,
        reports_change(events[j], editor),
{
    let start = edit_start(target, config, crypto, defaults, editor).0;
    lemma_encryption_follows_change(start, events, i)
}

proof fn lemma_encryption_follows_change(s: EditSessionView, events: Seq<EventView>, i: int) -> (j:
    int)
    requires
        session_sound(s),
        s.phase != Phase::Prepare,
        0 <= i < events.len(),
        is_encryption(edit_action(s, events, i)),
    ensures
        0 <= j < i,
        reports_change(events[j], s.editor),
    decreases events.len(),
{
    law_encryption_needs_a_change(s, events[0]);
    law_step_keeps_sound(s, events[0]);
    let next = edit_apply(s, events[0]).0;
    if next.phase == Phase::Prepare {
        0
    } else {
        let j = lemma_encryption_follows_change(next, events.drop_first(), i - 1);
        j + 1
    }
}

/// From its start, a lifecycle removes every workspace it was given before
/// it reports its end. In every run: where the session reached after `j`
/// events holds the workspace `dir`, and a later action is `Finish`, the
/// removal of `dir` was asked for before that `Finish`.
pub proof fn law_lifecycle_removes_its_workspace(
    target: Seq<char>,
    config: ConfigView,
    crypto: CryptoManagerView,
    defaults: Seq<Seq<char>>,
    editor: Option<Seq<char>>,
    events: Seq<EventView>,
    j: int,
    i: int,
    dir: Seq<char>,
) -> (k: int)
    requires
        0 <= j <= i < events.len(),
        edit_run(edit_start(target, config, crypto, defaults, editor).0, events.take(j)).workspace
            == Some(dir),
        edit_action(edit_start(target, config, crypto, defaults, editor).0, events, i)
            is Finish,
    ensures
        0 <= k < i,
        edit_action(edit_start(target, config, crypto, defaults, editor).0, events, k)
            == ActionView::RemoveWorkspace(dir),
{
    let start = edit_start(target, config, crypto, defaults, editor).0;
    lemma_fresh_lifecycle_removes_workspace(start, events, j, i, dir)
}

proof fn lemma_fresh_lifecycle_removes_workspace(
    s: EditSessionView,
    events: Seq<EventView>,
    j: int,
    i: int,
    dir: Seq<char>,
) -> (k: int)
    requires
        session_sound(s),
        s.workspace is None,
        0 <= j <= i < events.len(),
        edit_run(s, events.take(j)).workspace == Some(dir),
        edit_action(s, events, i) is Finish,
    ensures
        0 <= k < i,
        edit_action(s, events, k) == ActionView::RemoveWorkspace(dir),
    decreases events.len(),
{
    if j == 0 {
        0
    } else {
        law_step_keeps_sound(s, events[0]);
        let next = edit_apply(s, events[0]).0;
        let rest = events.drop_first();
        assert(events.take(j).drop_first() =~= rest.take(j - 1));
        if next.workspace is None {
            let k = lemma_fresh_lifecycle_removes_workspace(next, rest, j - 1, i - 1, dir);
            k + 1
        } else {
            lemma_workspace_is_kept_or_gone(next, rest.take(j - 1), next.workspace->0);
            let k = law_workspace_removed_before_finish(next, rest, i - 1);
            k + 1
        }
    }
}

proof fn lemma_workspace_is_kept_or_gone(
    s: EditSessionView,
    events: Seq<EventView>,
    dir: Seq<char>,
)
    requires
        session_sound(s),
        s.workspace == Some(dir) || s.phase == Phase::Finished,
    ensures
        edit_run(s, events).workspace == Some(dir) || edit_run(s, events).workspace is None,
    decreases events.len(),
{
    if events.len() > 0 {
        law_step_keeps_sound(s, events[0]);
        law_no_finish_over_a_workspace(s, events[0]);
        lemma_workspace_is_kept_or_gone(edit_apply(s, events[0]).0, events.drop_first(), dir);
    }
}

/// The pass reached when `s` is resumed with each of `events` in turn.
pub open spec fn rekey_run(s: RekeySessionView, events: Seq<EventView>) -> RekeySessionView
    decreases events.len(),
{
    if events.len() == 0 {
        s
    } else {
        rekey_run(rekey_apply(s, events[0]).0, events.drop_first())
    }
}

/// The action handed out in answer to the event at index `i`, when the pass
/// `s` is resumed with each of `events` in turn.
pub open spec fn rekey_action(s: RekeySessionView, events: Seq<EventView>, i: int)
    -> RekeyActionView
    recommends
        0 <= i < events.len(),
    decreases events.len(),
{
    if events.len() == 0 || i <= 0 {
        rekey_apply(s, events[0]).1
    } else {
        rekey_action(rekey_apply(s, events[0]).0, events.drop_first(), i - 1)
    }
}

/// The files whose lifecycles begin while the pass `s` is resumed with each
/// of `events` in turn, in the order in which they begin.
pub open spec fn rekey_begun(s: RekeySessionView, events: Seq<EventView>) -> Seq<Seq<char>>
    decreases events.len(),
{
    if events.len() == 0 {
        Seq::empty()
    } else {
        let stepped = rekey_apply(s, events[0]);
        let rest = rekey_begun(stepped.0, events.drop_first());
        match stepped.1 {
            RekeyActionView::Perform { begins: Some(file), .. } => seq![file] + rest,
            _ => rest,
        }
    }
}

/// What holds of every pass that can be reached. The lifecycle it runs is
/// that of the listed file just before `next`, with editing skipped, and
/// the lifecycles of all files before that one have ended well. A pass that
/// has ended well has seen the lifecycle of every listed file end well.
pub open spec fn rekey_sound(s: RekeySessionView) -> bool {
    match s.stage {
        StageView::Listing => s.outcomes.len() == 0,
        StageView::Running { file, next, edit } => {
            &&& 1 <= next <= s.files.len()
            &&& file == s.files[next - 1]
            &&& edit.target == file
            &&& edit.editor is None
            &&& s.outcomes.len() == next - 1
        },
        StageView::Finished => s.result is Ok ==> s.outcomes.len() == s.files.len(),
    }
}

/// A pass begins sound.
pub proof fn law_rekey_start_is_sound(
    config: ConfigView,
    crypto: CryptoManagerView,
    defaults: Seq<Seq<char>>,
)
    ensures
        rekey_sound(rekey_start(config, crypto, defaults).0),
{
}

/// Every pass that can be reached is sound, whatever the events.
pub proof fn law_reachable_passes_are_sound(
    config: ConfigView,
    crypto: CryptoManagerView,
    defaults: Seq<Seq<char>>,
    events: Seq<EventView>,
)
    ensures
        rekey_sound(rekey_run(rekey_start(config, crypto, defaults).0, events)),
{
    lemma_rekey_run_keeps_sound(rekey_start(config, crypto, defaults).0, events);
}

proof fn lemma_rekey_run_keeps_sound(s: RekeySessionView, events: Seq<EventView>)
    requires
        rekey_sound(s),
    ensures
        rekey_sound(rekey_run(s, events)),
    decreases events.len(),
{
    if events.len() > 0 {
        law_rekey_step_keeps_sound(s, events[0]);
        lemma_rekey_run_keeps_sound(rekey_apply(s, events[0]).0, events.drop_first());
    }
}

/// A pass ends well only when every listed file has gone through its
/// lifecycle, and each of these lifecycles ended well.
pub proof fn law_rekey_success_covers_every_file(s: RekeySessionView, event: EventView)
    requires
        rekey_sound(s),
    ensures
        rekey_apply(s, event).1 == RekeyActionView::Finish(Ok(())) ==> rekey_apply(
            s,
            event,
        ).0.outcomes.len() == rekey_apply(s, event).0.files.len(),
{
}

/// Whatever the event, a sound pass is followed by a sound pass over the
/// same list; only the answer to the listing sets the list.
pub proof fn law_rekey_step_keeps_sound(s: RekeySessionView, event: EventView)
    requires
        rekey_sound(s),
    ensures
        rekey_sound(rekey_apply(s, event).0),
        !(s.stage is Listing) ==> rekey_apply(s, event).0.files == s.files,
        rekey_apply(s, event).0.stage !is Listing,
{
}

/// Lifecycles begin in list order, one file at a time. A step begins a
/// lifecycle only for the first file, in answer to the listing, or for the
/// file that follows the one whose lifecycle it has just seen end well.
pub proof fn law_rekey_begins_the_next_file(s: RekeySessionView, event: EventView)
    requires
        rekey_sound(s),
    ensures
        rekey_apply(s, event).1 matches RekeyActionView::Perform { begins: Some(begun), .. } ==> {
            let after = rekey_apply(s, event).0;
            &&& after.stage matches StageView::Running { file, next, edit }
            &&& file == begun
            &&& edit.phase == Phase::Recipients
            &&& match s.stage {
                StageView::Listing => next == 1 && begun == after.files[0],
                StageView::Running { next: before, edit: ended, .. } => {
                    &&& next == before + 1
                    &&& begun == s.files[before]
                    &&& edit_apply(ended, event).1 matches ActionView::Finish(Ok(_))
                },
                StageView::Finished => false,
            }
        },
{
}

/// The lifecycles of a pass follow the list. From a pass that has begun the
/// files before index `next`, the files begun by any run are the listed
/// files from `next` on, in list order, none left out and none twice; a
/// finished pass begins none.
pub proof fn law_rekey_follows_the_list(s: RekeySessionView, events: Seq<EventView>)
    requires
        rekey_sound(s),
        !(s.stage is Listing),
    ensures
        s.stage is Finished ==> rekey_begun(s, events).len() == 0,
        s.stage matches StageView::Running { next, .. } ==> {
            &&& next + rekey_begun(s, events).len() <= s.files.len()
            &&& rekey_begun(s, events) == s.files.subrange(
                next,
                next + rekey_begun(s, events).len(),
            )
        },
    decreases events.len(),
{
    if events.len() > 0 {
        law_rekey_step_keeps_sound(s, events[0]);
        law_rekey_begins_the_next_file(s, events[0]);
        law_rekey_follows_the_list(rekey_apply(s, events[0]).0, events.drop_first());
    }
}

/// From its start, a pass begins the lifecycles of the listed files in the
/// order of the list: the files begun by any run are the first so many of
/// the list that the rules answered with.
pub proof fn law_rekey_runs_in_list_order(
    config: ConfigView,
    crypto: CryptoManagerView,
    defaults: Seq<Seq<char>>,
    files: Seq<Seq<char>>,
    later: Seq<EventView>,
)
    ensures
        ({
            let begun = rekey_begun(
                rekey_start(config, crypto, defaults).0,
                seq![EventView::List(Ok(files))] + later,
            );
            begun.len() <= files.len() && begun == files.subrange(0, begun.len() as int)
        }),
{
    let start = rekey_start(config, crypto, defaults).0;
    let events = seq![EventView::List(Ok(files))] + later;
    assert(events.drop_first() =~= later);
    law_rekey_step_keeps_sound(start, events[0]);
    law_rekey_follows_the_list(rekey_apply(start, events[0]).0, later);
}

/// A finished pass answers every event with its result, and begins nothing.
pub proof fn law_rekey_finished_stays_finished(
    s: RekeySessionView,
    events: Seq<EventView>,
    i: int,
)
    requires
        s.stage is Finished,
        0 <= i < events.len(),
    ensures
        rekey_action(s, events, i) == RekeyActionView::Finish(s.result),
    decreases events.len(),
{
    if i > 0 {
        law_rekey_finished_stays_finished(s, events.drop_first(), i - 1);
    }
}

/// The first failure ends the pass. When the lifecycle of a file fails, the
/// pass ends with that failure and the file's name, and no later file is
/// attempted: every action from then on is the report of that end.
pub proof fn law_rekey_stops_at_first_failure(
    s: RekeySessionView,
    event: EventView,
    later: Seq<EventView>,
    i: int,
)
    requires
        s.stage matches StageView::Running { edit, .. } && edit_apply(edit, event).1
            matches ActionView::Finish(Err(_)),
        0 <= i <= later.len(),
    ensures
        s.stage matches StageView::Running { file, edit, .. } && edit_apply(edit, event).1
            matches ActionView::Finish(Err(cause)) && rekey_action(s, seq![event] + later, i)
            == RekeyActionView::Finish(Err(RekeyErrorView::File { file, cause })),
        rekey_begun(s, seq![event] + later).len() == 0,
{
    let events = seq![event] + later;
    assert(events.drop_first() =~= later);
    if i > 0 {
        law_rekey_finished_stays_finished(rekey_apply(s, event).0, later, i - 1);
    }
    lemma_finished_begins_nothing(rekey_apply(s, event).0, later);
}

proof fn lemma_finished_begins_nothing(s: RekeySessionView, events: Seq<EventView>)
    requires
        s.stage is Finished,
    ensures
        rekey_begun(s, events).len() == 0,
    decreases events.len(),
{
    if events.len() > 0 {
        lemma_finished_begins_nothing(s, events.drop_first());
    }
}

} // verus!
