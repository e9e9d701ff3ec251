//! Reference updates: the commands of a push and the edits that they turn
//! into.

use vstd::prelude::*;
use vstd::string::*;
use vstd::utf8::*;
use crate::commit::{CommitModel, CommitSummary, Signature, SignatureModel};
use crate::object::{ObjectId, hex_bytes, is_full_hex};

verus! {

/// One command of a push: move, create or delete a reference.
#[derive(Clone, Debug, PartialEq, Eq)]
pub struct RefUpdate {
    /// The value that the reference must hold before, in hexadecimal.
    pub old: Option<String>,
    /// The value that the reference is to hold after, in hexadecimal.
    pub new: Option<String>,
    pub target_ref: String,
    pub report_status: bool,
    pub report_status_v2: bool,
}

/// A command of a push as a mathematical value.
pub struct Command {
    pub old: Option<Seq<char>>,
    pub new: Option<Seq<char>>,
    pub target_ref: Seq<char>,
    pub report_status: bool,
    pub report_status_v2: bool,
}

/// The characters of `text`, where there is one.
pub open spec fn optional_text(text: Option<String>) -> Option<Seq<char>> {
    match text {
        Some(text) => Some(text@),
        None => None,
    }
}

impl View for RefUpdate {
    type V = Command;

    open spec fn view(&self) -> Command {
        Command {
            old: optional_text(self.old),
            new: optional_text(self.new),
            target_ref: self.target_ref@,
            report_status: self.report_status,
            report_status_v2: self.report_status_v2,
        }
    }
}

/// What a command asks for.
#[derive(Clone, Copy, Debug, PartialEq, Eq, Structural)]
pub enum CommandKind {
    /// No old value: the reference is to come into being.
    Create,
    /// Both values: the reference is to move.
    Update,
    /// No new value: the reference is to go.
    Delete,
    /// Neither value: the command asks for nothing.
    Invalid,
}

/// What `command` asks for.
pub open spec fn kind_of(command: Command) -> CommandKind {
    if command.new is Some {
        if command.old is Some {
            CommandKind::Update
        } else {
            CommandKind::Create
        }
    } else if command.old is Some {
        CommandKind::Delete
    } else {
        CommandKind::Invalid
    }
}

/// Whether the client asked to be told how the command went.
pub open spec fn wants_report(command: Command) -> bool {
    command.report_status || command.report_status_v2
}

impl RefUpdate {
    /// What the command asks for.
    pub fn kind(&self) -> (kind: CommandKind)
        ensures
            kind == kind_of(self@),
    {
        if self.new.is_some() {
            if self.old.is_some() {
                CommandKind::Update
            } else {
                CommandKind::Create
            }
        } else if self.old.is_some() {
            CommandKind::Delete
        } else {
            CommandKind::Invalid
        }
    }

    /// Whether the client asked to be told how the command went.
    pub fn wants_report(&self) -> (wanted: bool)
        ensures
            wanted == wants_report(self@),
    {
        self.report_status || self.report_status_v2
    }
}

/// The object id that `text` spells in full, if it spells one.
pub open spec fn hex_id(text: Seq<char>) -> Option<Seq<u8>> {
    if is_full_hex(encode_utf8(text)) {
        Some(hex_bytes(encode_utf8(text)))
    } else {
        None
    }
}

/// Whether `git_ref::mutable::FullName` takes `name` as the full name of a
/// reference.
pub uninterp spec fn reference_name_valid(name: Seq<char>) -> bool;

/// `TryFrom<&str>` of `git_ref::mutable::FullName`: whether the reference
/// name grammar admits `name`. The same name always gets the same answer.
#[verifier::external_body]
pub(crate) fn full_name_accepts(name: &str) -> (valid: bool)
    ensures
        valid == reference_name_valid(name@),
{
    git_ref::mutable::FullName::try_from(name).is_ok()
}

/// The value that a reference must hold for an edit to go through.
#[derive(Clone, Copy, Debug, PartialEq, Eq)]
pub enum Expected {
    /// The reference must not exist yet.
    Absent,
    /// The reference must exist and point at this object.
    Value(ObjectId),
}

/// A required previous value as a mathematical value.
pub enum ExpectedModel {
    Absent,
    Value(Seq<u8>),
}

impl View for Expected {
    type V = ExpectedModel;

    open spec fn view(&self) -> ExpectedModel {
        match self {
            Expected::Absent => ExpectedModel::Absent,
            Expected::Value(id) => ExpectedModel::Value(id@),
        }
    }
}

/// The change that an edit makes to its reference.
#[derive(Clone, Debug, PartialEq, Eq)]
pub enum Change {
    /// Point the reference at `new` and log the change under `message`.
    Update { message: Vec<u8>, force_create_reflog: bool, expected: Expected, new: ObjectId },
    /// Remove the reference, which must point at `old`.
    Delete { old: ObjectId },
}

/// A change as a mathematical value.
pub enum ChangeModel {
    Update { message: Seq<u8>, force_create_reflog: bool, expected: ExpectedModel, new: Seq<u8> },
    Delete { old: Seq<u8> },
}

impl View for Change {
    type V = ChangeModel;

    open spec fn view(&self) -> ChangeModel {
        match self {
            Change::Update { message, force_create_reflog, expected, new } => ChangeModel::Update {
                message: message@,
                force_create_reflog: *force_create_reflog,
                expected: expected@,
                new: new@,
            },
            Change::Delete { old } => ChangeModel::Delete { old: old@ },
        }
    }
}

/// One edit of a reference transaction. Both the reference and its log are
/// written.
#[derive(Clone, Debug, PartialEq, Eq)]
pub struct RefEdit {
    pub name: String,
    pub change: Change,
    /// Whether a symbolic reference is followed to the one it names.
    pub deref: bool,
}

/// An edit as a mathematical value.
pub struct EditModel {
    pub name: Seq<char>,
    pub change: ChangeModel,
    pub deref: bool,
}

impl View for RefEdit {
    type V = EditModel;

    open spec fn view(&self) -> EditModel {
        EditModel { name: self.name@, change: self.change@, deref: self.deref }
    }
}

/// Under whose name an edit is logged.
#[derive(Clone, Debug, PartialEq, Eq)]
pub enum Signer {
    /// The committer of the commit that the reference moves to.
    Committer(Signature),
    /// The identity that the connection has by default.
    Connection,
}

/// A signer as a mathematical value.
pub enum SignerModel {
    Committer(SignatureModel),
    Connection,
}

impl View for Signer {
    type V = SignerModel;

    open spec fn view(&self) -> SignerModel {
        match self {
            Signer::Committer(signature) => SignerModel::Committer(signature@),
            Signer::Connection => SignerModel::Connection,
        }
    }
}

/// The edit that creates or moves the reference `name`: it points the
/// reference at `new`, takes the reference's log into being where there is
/// none, logs the change under the commit's message, follows a symbolic
/// reference, and goes through only if the reference holds `expected`.
pub open spec fn update_edit(
    name: Seq<char>,
    expected: ExpectedModel,
    new: Seq<u8>,
    commit: CommitModel,
) -> EditModel {
    EditModel {
        name,
        change: ChangeModel::Update {
            message: commit.message,
            force_create_reflog: true,
            expected,
            new,
        },
        deref: true,
    }
}

/// The edit that removes the reference `name`: it follows a symbolic
/// reference and goes through only if the reference points at `old`.
pub open spec fn delete_edit(name: Seq<char>, old: Seq<u8>) -> EditModel {
    EditModel { name, change: ChangeModel::Delete { old }, deref: true }
}

fn copy_bytes(bytes: &Vec<u8>) -> (copy: Vec<u8>)
    ensures
        copy@ == bytes@,
{
    let mut copy: Vec<u8> = Vec::new();
    let mut i: usize = 0;
    while i < bytes.len()
        invariant
            i <= bytes.len(),
            copy@ == bytes@.subrange(0, i as int),
        decreases bytes.len() - i,
    {
        copy.push(bytes[i]);
        i += 1;
    }
    assert(bytes@.subrange(0, bytes.len() as int) == bytes@);
    copy
}

/// Builds the edit that creates or moves the reference of `update`.
pub fn build_update_edit(
    update: &RefUpdate,
    expected: Expected,
    new: ObjectId,
    commit: &CommitSummary,
) -> (edit: RefEdit)
    ensures
        edit@ == update_edit(update@.target_ref, expected@, new@, commit@),
{
    RefEdit {
        name: update.target_ref.clone(),
        change: Change::Update {
            message: copy_bytes(&commit.message),
            force_create_reflog: true,
            expected,
            new,
        },
        deref: true,
    }
}

/// Builds the edit that removes the reference of `update`.
pub fn build_delete_edit(update: &RefUpdate, old: ObjectId) -> (edit: RefEdit)
    ensures
        edit@ == delete_edit(update@.target_ref, old@),
{
    RefEdit { name: update.target_ref.clone(), change: Change::Delete { old }, deref: true }
}

} // verus!
