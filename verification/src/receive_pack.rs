//! Push: what to do next for one reference update, given what has happened
//! so far. The caller decodes objects, applies edits and writes packs; the
//! functions here tell it which of these comes next, and with what.

use vstd::prelude::*;
use vstd::string::*;
use crate::commit::{CommitModel, CommitSummary, commit_from_bytes, parsed_commit};
use crate::error::TransferError;
use crate::object::{ObjectId, ObjectKind};
use crate::reference::{
    ChangeModel, Command, CommandKind, EditModel, Expected, ExpectedModel, RefEdit, RefUpdate, Signer,
    SignerModel, build_delete_edit, build_update_edit, delete_edit, full_name_accepts, hex_id,
    kind_of, reference_name_valid, update_edit, wants_report,
};

verus! {

/// How far one reference update has come.
#[derive(Clone, Copy, Debug, PartialEq, Eq, Structural)]
pub enum PushState {
    /// Nothing has been done yet.
    Pending,
    /// The object that the reference is to point at is being decoded.
    Decoding,
    /// The edit is with the reference store.
    Preparing,
    /// The reference has changed; the pack is on its way to the second
    /// object store.
    Syncing,
    /// The reference has changed and both stores hold the objects.
    Committed,
    /// The reference has changed, and the second object store did not take
    /// the pack.
    Diverged,
    /// The update was given up; nothing has changed.
    Aborted,
}

/// What happened to the step that was asked for last.
#[derive(Clone, Debug, PartialEq, Eq)]
pub enum PushEvent {
    /// Nothing yet: the update is to begin.
    Start,
    /// The index of the pack does not list the object.
    Missing,
    /// The object was decoded.
    Decoded { kind: ObjectKind, data: Vec<u8> },
    /// The reference store refused the edit: the reference did not hold the
    /// required value, or another writer held it.
    Rejected,
    /// The reference store applied the edit.
    Applied,
    /// The second object store took the pack.
    Synced,
    /// Reading or writing failed.
    Failed,
}

/// An event as a mathematical value.
pub enum Event {
    Start,
    Missing,
    Decoded { kind: ObjectKind, data: Seq<u8> },
    Rejected,
    Applied,
    Synced,
    Failed,
}

impl View for PushEvent {
    type V = Event;

    open spec fn view(&self) -> Event {
        match self {
            PushEvent::Start => Event::Start,
            PushEvent::Missing => Event::Missing,
            PushEvent::Decoded { kind, data } => Event::Decoded { kind: *kind, data: data@ },
            PushEvent::Rejected => Event::Rejected,
            PushEvent::Applied => Event::Applied,
            PushEvent::Synced => Event::Synced,
            PushEvent::Failed => Event::Failed,
        }
    }
}

/// What the caller is to do next.
#[derive(Clone, Debug, PartialEq, Eq)]
pub enum PushAction {
    /// Look the object up in the index of the pack and decode it.
    Decode { id: ObjectId },
    /// Hand the edit to the reference store, alone, to fail at once if the
    /// reference is held or does not hold the required value.
    Apply { edit: RefEdit, signer: Signer },
    /// Write the pack into the second object store.
    SyncPack,
    /// The update is done: write `line` on a writer of its own and send what
    /// that gives on the data band.
    Report { line: String },
    /// The update is done, and the client did not ask to be told.
    Finish,
    /// The update failed.
    Fail { error: TransferError },
    /// The event does not belong to the state: there is nothing to do.
    Ignore,
}

/// An action as a mathematical value.
pub enum Action {
    Decode { id: Seq<u8> },
    Apply { edit: EditModel, signer: SignerModel },
    SyncPack,
    Report { line: Seq<char> },
    Finish,
    Fail { error: TransferError },
    Ignore,
}

impl View for PushAction {
    type V = Action;

    open spec fn view(&self) -> Action {
        match self {
            PushAction::Decode { id } => Action::Decode { id: id@ },
            PushAction::Apply { edit, signer } => Action::Apply { edit: edit@, signer: signer@ },
            PushAction::SyncPack => Action::SyncPack,
            PushAction::Report { line } => Action::Report { line: line@ },
            PushAction::Finish => Action::Finish,
            PushAction::Fail { error } => Action::Fail { error: *error },
            PushAction::Ignore => Action::Ignore,
        }
    }
}

/// Where a creating or moving command takes its reference, and from where.
#[derive(Clone, Copy, Debug, PartialEq, Eq)]
pub struct Target {
    /// The object that the reference is to point at.
    pub new: ObjectId,
    /// The value that the reference must hold before.
    pub expected: Expected,
}

/// A target as a mathematical value.
pub struct TargetModel {
    pub new: Seq<u8>,
    pub expected: ExpectedModel,
}

impl View for Target {
    type V = TargetModel;

    open spec fn view(&self) -> TargetModel {
        TargetModel { new: self.new@, expected: self.expected@ }
    }
}

/// Giving the update up for `error`.
pub open spec fn abort(error: TransferError) -> (PushState, Action) {
    (PushState::Aborted, Action::Fail { error })
}

/// The object that a creating or moving command points its reference at,
/// and the value that it requires the reference to hold: none for a
/// creation, the old value for a move. Nothing where either value is no
/// object id.
pub open spec fn target_of(command: Command) -> Option<TargetModel> {
    match command.new {
        None => None,
        Some(new) => match hex_id(new) {
            None => None,
            Some(new) => match command.old {
                None => Some(TargetModel { new, expected: ExpectedModel::Absent }),
                Some(old) => match hex_id(old) {
                    None => None,
                    Some(old) => Some(TargetModel { new, expected: ExpectedModel::Value(old) }),
                },
            },
        },
    }
}

/// How an update ends once the reference has changed: with the line that
/// tells the client so, if it asked to be told.
pub open spec fn completion(command: Command) -> Action {
    if wants_report(command) {
        Action::Report { line: "ok "@ + command.target_ref }
    } else {
        Action::Finish
    }
}

/// What follows the decoding of the new target: only a commit is taken; it
/// must come apart, and the reference's name must be within the grammar;
/// then the edit goes to the reference store under the committer's name.
pub open spec fn decoded_outcome(
    command: Command,
    kind: ObjectKind,
    commit: Option<CommitModel>,
    name_valid: bool,
) -> (PushState, Action) {
    if kind != ObjectKind::Commit {
        abort(TransferError::UnexpectedPayloadKind)
    } else if commit is None || !name_valid || target_of(command) is None {
        abort(TransferError::MalformedInput)
    } else {
        (
            PushState::Preparing,
            Action::Apply {
                edit: update_edit(
                    command.target_ref,
                    target_of(command)->0.expected,
                    target_of(command)->0.new,
                    commit->0,
                ),
                signer: SignerModel::Committer(commit->0.committer),
            },
        )
    }
}

/// One step of a command that creates or moves a reference.
pub open spec fn create_update_step(command: Command, state: PushState, event: Event) -> (
    PushState,
    Action,
) {
    match (state, event) {
        (PushState::Pending, Event::Start) => match target_of(command) {
            None => abort(TransferError::MalformedInput),
            Some(target) => (PushState::Decoding, Action::Decode { id: target.new }),
        },
        (PushState::Decoding, Event::Missing) => abort(TransferError::ObjectNotFound),
        (PushState::Decoding, Event::Failed) => abort(TransferError::StorageFailure),
        (PushState::Decoding, Event::Decoded { kind, data }) => decoded_outcome(
            command,
            kind,
            parsed_commit(data),
            reference_name_valid(command.target_ref),
        ),
        (PushState::Preparing, Event::Rejected) => abort(TransferError::TransactionConflict),
        (PushState::Preparing, Event::Failed) => abort(TransferError::StorageFailure),
        (PushState::Preparing, Event::Applied) => (PushState::Syncing, Action::SyncPack),
        (PushState::Syncing, Event::Synced) => (PushState::Committed, completion(command)),
        (PushState::Syncing, Event::Failed) => (
            PushState::Diverged,
            Action::Fail { error: TransferError::StorageFailure },
        ),
        _ => (state, Action::Ignore),
    }
}

/// How a deleting command begins: the old value must be an object id, and
/// the reference's name within the grammar; then the edit goes to the
/// reference store under the connection's own name.
pub open spec fn delete_outcome(command: Command, name_valid: bool) -> (PushState, Action) {
    match command.old {
        None => abort(TransferError::MalformedInput),
        Some(old) => match hex_id(old) {
            None => abort(TransferError::ObjectNotFound),
            Some(old) => if name_valid {
                (
                    PushState::Preparing,
                    Action::Apply {
                        edit: delete_edit(command.target_ref, old),
                        signer: SignerModel::Connection,
                    },
                )
            } else {
                abort(TransferError::MalformedInput)
            },
        },
    }
}

/// One step of a command that deletes a reference.
pub open spec fn delete_step(command: Command, state: PushState, event: Event) -> (
    PushState,
    Action,
) {
    match (state, event) {
        (PushState::Pending, Event::Start) => delete_outcome(
            command,
            reference_name_valid(command.target_ref),
        ),
        (PushState::Preparing, Event::Rejected) => abort(TransferError::TransactionConflict),
        (PushState::Preparing, Event::Failed) => abort(TransferError::StorageFailure),
        (PushState::Preparing, Event::Applied) => (PushState::Committed, completion(command)),
        _ => (state, Action::Ignore),
    }
}

/// One step of any command: by what the command asks for. A command that
/// asks for nothing is given up when it is to begin.
pub open spec fn step(command: Command, state: PushState, event: Event) -> (PushState, Action) {
    match kind_of(command) {
        CommandKind::Create | CommandKind::Update => create_update_step(command, state, event),
        CommandKind::Delete => delete_step(command, state, event),
        CommandKind::Invalid => match (state, event) {
            (PushState::Pending, Event::Start) => abort(TransferError::MalformedInput),
            _ => (state, Action::Ignore),
        },
    }
}

/// Whether nothing more happens in `state`.
pub open spec fn is_final(state: PushState) -> bool {
    state == PushState::Committed || state == PushState::Diverged || state == PushState::Aborted
}

impl PushState {
    /// Whether nothing more happens in this state.
    pub fn is_final(&self) -> (done: bool)
        ensures
            done == is_final(*self),
    {
        match self {
            PushState::Committed | PushState::Diverged | PushState::Aborted => true,
            _ => false,
        }
    }
}

fn give_up(error: TransferError) -> (next: (PushState, PushAction))
    ensures
        next.0 == abort(error).0,
        next.1@ == abort(error).1,
{
    (PushState::Aborted, PushAction::Fail { error })
}

fn complete(update: &RefUpdate) -> (action: PushAction)
    ensures
        action@ == completion(update@),
{
    if update.wants_report() {
        let mut line = String::from_str("ok ");
        line.append(update.target_ref.as_str());
        PushAction::Report { line }
    } else {
        PushAction::Finish
    }
}

/// Reads the target of a creating or moving command.
pub fn read_target(update: &RefUpdate) -> (target: Option<Target>)
    ensures
        target is Some <==> target_of(update@) is Some,
        target is Some ==> target_of(update@) == Some(target->0@),
{
    match &update.new {
        None => None,
        Some(new) => match ObjectId::from_hex(new.as_str()) {
            None => None,
            Some(new) => match &update.old {
                None => Some(Target { new, expected: Expected::Absent }),
                Some(old) => match ObjectId::from_hex(old.as_str()) {
                    None => None,
                    Some(old) => Some(Target { new, expected: Expected::Value(old) }),
                },
            },
        },
    }
}

/// Decides what follows the decoding of the new target of `update`: the
/// object was of kind `kind`, `commit` is what taking it apart as a commit
/// gave, and `name_valid` tells whether the reference's name is within the
/// grammar.
pub fn after_decode(
    update: &RefUpdate,
    kind: ObjectKind,
    commit: Option<CommitSummary>,
    name_valid: bool,
) -> (next: (PushState, PushAction))
    ensures
        next.0 == decoded_outcome(update@, kind, commit_view(commit), name_valid).0,
        next.1@ == decoded_outcome(update@, kind, commit_view(commit), name_valid).1,
{
    match kind {
        ObjectKind::Commit => {},
        _ => {
            return give_up(TransferError::UnexpectedPayloadKind);
        },
    }
    let commit = match commit {
        Some(commit) => commit,
        None => {
            return give_up(TransferError::MalformedInput);
        },
    };
    if !name_valid {
        return give_up(TransferError::MalformedInput);
    }
    match read_target(update) {
        None => give_up(TransferError::MalformedInput),
        Some(target) => {
            let edit = build_update_edit(update, target.expected, target.new, &commit);
            (PushState::Preparing, PushAction::Apply { edit, signer: Signer::Committer(commit.committer) })
        },
    }
}

/// What `commit` holds, as a mathematical value.
pub open spec fn commit_view(commit: Option<CommitSummary>) -> Option<CommitModel> {
    match commit {
        Some(commit) => Some(commit@),
        None => None,
    }
}

/// Decides how the deleting command `update` begins; `name_valid` tells
/// whether the reference's name is within the grammar.
pub fn begin_delete(update: &RefUpdate, name_valid: bool) -> (next: (PushState, PushAction))
    ensures
        next.0 == delete_outcome(update@, name_valid).0,
        next.1@ == delete_outcome(update@, name_valid).1,
{
    match &update.old {
        None => give_up(TransferError::MalformedInput),
        Some(old) => match ObjectId::from_hex(old.as_str()) {
            None => give_up(TransferError::ObjectNotFound),
            Some(old) => if name_valid {
                let edit = build_delete_edit(update, old);
                (PushState::Preparing, PushAction::Apply { edit, signer: Signer::Connection })
            } else {
                give_up(TransferError::MalformedInput)
            },
        },
    }
}

/// Takes a command that creates or moves a reference one step further:
/// from `state`, on `event`, to the state and the action that follow.
pub fn process_create_update(update: &RefUpdate, state: PushState, event: &PushEvent) -> (next: (
    PushState,
    PushAction,
))
    requires
        update@.new is Some,
    ensures
        next.0 == create_update_step(update@, state, event@).0,
        next.1@ == create_update_step(update@, state, event@).1,
{
    match state {
        PushState::Pending => match event {
            PushEvent::Start => match read_target(update) {
                None => give_up(TransferError::MalformedInput),
                Some(target) => (PushState::Decoding, PushAction::Decode { id: target.new }),
            },
            _ => (state, PushAction::Ignore),
        },
        PushState::Decoding => match event {
            PushEvent::Missing => give_up(TransferError::ObjectNotFound),
            PushEvent::Failed => give_up(TransferError::StorageFailure),
            PushEvent::Decoded { kind, data } => {
                let commit = commit_from_bytes(data.as_slice());
                let name_valid = full_name_accepts(update.target_ref.as_str());
                after_decode(update, *kind, commit, name_valid)
            },
            _ => (state, PushAction::Ignore),
        },
        PushState::Preparing => match event {
            PushEvent::Rejected => give_up(TransferError::TransactionConflict),
            PushEvent::Failed => give_up(TransferError::StorageFailure),
            PushEvent::Applied => (PushState::Syncing, PushAction::SyncPack),
            _ => (state, PushAction::Ignore),
        },
        PushState::Syncing => match event {
            PushEvent::Synced => (PushState::Committed, complete(update)),
            PushEvent::Failed => (
                PushState::Diverged,
                PushAction::Fail { error: TransferError::StorageFailure },
            ),
            _ => (state, PushAction::Ignore),
        },
        _ => (state, PushAction::Ignore),
    }
}

/// Takes a command that deletes a reference one step further: from `state`,
/// on `event`, to the state and the action that follow.
pub fn process_delete(update: &RefUpdate, state: PushState, event: &PushEvent) -> (next: (
    PushState,
    PushAction,
))
    requires
        update@.old is Some,
        update@.new is None,
    ensures
        next.0 == delete_step(update@, state, event@).0,
        next.1@ == delete_step(update@, state, event@).1,
{
    match state {
        PushState::Pending => match event {
            PushEvent::Start => {
                let name_valid = full_name_accepts(update.target_ref.as_str());
                begin_delete(update, name_valid)
            },
            _ => (state, PushAction::Ignore),
        },
        PushState::Preparing => match event {
            PushEvent::Rejected => give_up(TransferError::TransactionConflict),
            PushEvent::Failed => give_up(TransferError::StorageFailure),
            PushEvent::Applied => (PushState::Committed, complete(update)),
            _ => (state, PushAction::Ignore),
        },
        _ => (state, PushAction::Ignore),
    }
}

/// Takes any command one step further: from `state`, on `event`, to the
/// state and the action that follow.
pub fn process_update(update: &RefUpdate, state: PushState, event: &PushEvent) -> (next: (
    PushState,
    PushAction,
))
    ensures
        next.0 == step(update@, state, event@).0,
        next.1@ == step(update@, state, event@).1,
{
    match update.kind() {
        CommandKind::Create | CommandKind::Update => process_create_update(update, state, event),
        CommandKind::Delete => process_delete(update, state, event),
        CommandKind::Invalid => match state {
            PushState::Pending => match event {
                PushEvent::Start => give_up(TransferError::MalformedInput),
                _ => (state, PushAction::Ignore),
            },
            _ => (state, PushAction::Ignore),
        },
    }
}

/// Once an update is committed, diverged or aborted, no event moves it and
/// nothing more is asked of the caller.
pub proof fn law_final_states_absorb(command: Command, state: PushState, event: Event)
    requires
        is_final(state),
    ensures
        step(command, state, event) == (state, Action::Ignore),
{
}

/// A command that names an old value, and whose edit the reference store
/// refuses, is given up as a conflict: the state says that nothing has
/// changed, and whatever comes after, neither a pack is written nor a line
/// reported.
pub proof fn law_conflict_changes_nothing(command: Command, later: Event)
    requires
        command.old is Some,
    ensures
        step(command, PushState::Preparing, Event::Rejected) == abort(
            TransferError::TransactionConflict,
        ),
        step(command, step(command, PushState::Preparing, Event::Rejected).0, later) == (
            PushState::Aborted,
            Action::Ignore,
        ),
{
}

/// Every edit that a command with an old value sends to the reference
/// store goes through only if the reference holds that value.
pub proof fn law_edit_requires_old_value(command: Command, state: PushState, event: Event)
    requires
        command.old is Some,
        step(command, state, event).1 is Apply,
    ensures
        hex_id(command.old->0) is Some,
        step(command, state, event).1->edit.change matches ChangeModel::Update { expected, .. }
            ==> expected == ExpectedModel::Value(hex_id(command.old->0)->0),
        step(command, state, event).1->edit.change matches ChangeModel::Delete { old }
            ==> old == hex_id(command.old->0)->0,
{
}

/// Every edit that a command without an old value sends to the reference
/// store goes through only if the reference does not exist yet.
pub proof fn law_creation_requires_absence(command: Command, state: PushState, event: Event)
    requires
        command.old is None,
        step(command, state, event).1 is Apply,
    ensures
        step(command, state, event).1->edit.change matches ChangeModel::Update { expected, .. }
            && expected == ExpectedModel::Absent,
{
}

/// A line is reported only when the update is committed and the client
/// asked to be told, and it names the reference.
pub proof fn law_report_follows_commit(command: Command, state: PushState, event: Event)
    requires
        step(command, state, event).1 is Report,
    ensures
        step(command, state, event).0 == PushState::Committed,
        wants_report(command),
        step(command, state, event).1->line == "ok "@ + command.target_ref,
{
}

/// The pack goes to the second object store only after the reference store
/// applied the edit of a command that creates or moves a reference.
pub proof fn law_sync_follows_apply(command: Command, state: PushState, event: Event)
    requires
        step(command, state, event).1 is SyncPack,
    ensures
        state == PushState::Preparing,
        event == Event::Applied,
        command.new is Some,
{
}

/// An edit goes to the reference store of a creating or moving command only
/// after its new target was decoded as a commit.
pub proof fn law_apply_follows_commit(command: Command, state: PushState, event: Event)
    requires
        command.new is Some,
        step(command, state, event).1 is Apply,
    ensures
        state == PushState::Decoding,
        event matches Event::Decoded { kind, data } && kind == ObjectKind::Commit && parsed_commit(
            data,
        ) is Some,
{
}

} // verus!
