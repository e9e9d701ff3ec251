//! What the push reads of a commit: its message and who committed it.

use vstd::prelude::*;

verus! {

/// The sign of a time zone offset.
#[derive(Clone, Copy, Debug, PartialEq, Eq, Structural)]
pub enum Sign {
    Plus,
    Minus,
}

/// Who did something to the repository, and when.
#[derive(Clone, Debug, PartialEq, Eq)]
pub struct Signature {
    pub name: Vec<u8>,
    pub email: Vec<u8>,
    /// Seconds since the epoch.
    pub seconds: u32,
    /// Offset of the time zone in seconds.
    pub offset: i32,
    /// The sign of `offset`, which tells `-0000` from `+0000`.
    pub sign: Sign,
}

/// A signature as a mathematical value.
pub struct SignatureModel {
    pub name: Seq<u8>,
    pub email: Seq<u8>,
    pub seconds: u32,
    pub offset: i32,
    pub sign: Sign,
}

impl View for Signature {
    type V = SignatureModel;

    open spec fn view(&self) -> SignatureModel {
        SignatureModel {
            name: self.name@,
            email: self.email@,
            seconds: self.seconds,
            offset: self.offset,
            sign: self.sign,
        }
    }
}

/// The parts of a commit that a reference update needs.
#[derive(Clone, Debug, PartialEq, Eq)]
pub struct CommitSummary {
    pub message: Vec<u8>,
    pub committer: Signature,
}

/// A commit summary as a mathematical value.
pub struct CommitModel {
    pub message: Seq<u8>,
    pub committer: SignatureModel,
}

impl View for CommitSummary {
    type V = CommitModel;

    open spec fn view(&self) -> CommitModel {
        CommitModel { message: self.message@, committer: self.committer@ }
    }
}

/// What `git_object::immutable::Commit::from_bytes` reads from the bytes of
/// an object: the message and the committer of the commit, or nothing where
/// the bytes are no commit.
pub uninterp spec fn parsed_commit(data: Seq<u8>) -> Option<CommitModel>;

/// `git_object::immutable::Commit::from_bytes`, of whose result the message
/// and the committer are kept. The same bytes always give the same result.
#[verifier::external_body]
pub(crate) fn commit_from_bytes(data: &[u8]) -> (commit: Option<CommitSummary>)
    ensures
        commit is Some ==> parsed_commit(data@) == Some(commit->0@),
        commit is None ==> parsed_commit(data@) is None,
{
    let commit = git_object::immutable::Commit::from_bytes(data).ok()?;
    let who = commit.committer;
    let sign = match who.time.sign {
        git_actor::Sign::Plus => Sign::Plus,
        git_actor::Sign::Minus => Sign::Minus,
    };
    let (seconds, offset) = (who.time.time, who.time.offset);
    let committer = Signature { name: who.name.to_vec(), email: who.email.to_vec(), seconds, offset, sign };
    Some(CommitSummary { message: commit.message.to_vec(), committer })
}

} // verus!
