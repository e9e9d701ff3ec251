//! Decoding an entry of an uploaded pack: where the base of a delta is
//! looked for.

use vstd::prelude::*;
use crate::object::ObjectKind;

verus! {

/// Where the base of a delta was found.
#[derive(Clone, Copy, Debug, PartialEq, Eq, Structural)]
pub enum ResolvedBase {
    /// In the pack that is being decoded, at this offset.
    InPack { offset: u64 },
    /// In the object store of the repository: an object of this kind, whose
    /// bytes end at `end` in the buffer that was handed out.
    OutOfPack { kind: ObjectKind, end: usize },
}

/// What the object store of the repository said when asked for an object.
#[derive(Clone, Copy, Debug, PartialEq, Eq, Structural)]
pub enum StoreAnswer {
    /// It holds the object, of this kind and length.
    Found { kind: ObjectKind, len: usize },
    /// It does not hold the object.
    Absent,
    /// It could not be read.
    Failed,
}

/// How the search for a base goes on after the index was asked.
#[derive(Clone, Copy, Debug, PartialEq, Eq, Structural)]
pub enum BaseSearch {
    /// The base is found.
    Resolved(ResolvedBase),
    /// The object store of the repository is to be asked.
    AskStore,
}

/// The base that the object store's answer gives: the object that it holds,
/// with its end in the buffer; none where it holds none or failed.
pub open spec fn base_from_store(answer: StoreAnswer) -> Option<ResolvedBase> {
    match answer {
        StoreAnswer::Found { kind, len } => Some(ResolvedBase::OutOfPack { kind, end: len }),
        StoreAnswer::Absent => None,
        StoreAnswer::Failed => None,
    }
}

/// The base of a delta: the entry of the same pack where the index lists
/// the base, else what the object store of the repository holds.
pub open spec fn resolved_base(in_pack: Option<u64>, answer: StoreAnswer) -> Option<ResolvedBase> {
    match in_pack {
        Some(offset) => Some(ResolvedBase::InPack { offset }),
        None => base_from_store(answer),
    }
}

/// Begins the search for a base with what the index of the pack gave for
/// its id: the offset of its entry, if it lists it.
pub fn search_pack(in_pack: Option<u64>) -> (search: BaseSearch)
    ensures
        search == match in_pack {
            Some(offset) => BaseSearch::Resolved(ResolvedBase::InPack { offset }),
            None => BaseSearch::AskStore,
        },
{
    match in_pack {
        Some(offset) => BaseSearch::Resolved(ResolvedBase::InPack { offset }),
        None => BaseSearch::AskStore,
    }
}

/// Ends the search for a base with the answer of the object store.
pub fn take_from_store(answer: StoreAnswer) -> (base: Option<ResolvedBase>)
    ensures
        base == base_from_store(answer),
{
    match answer {
        StoreAnswer::Found { kind, len } => Some(ResolvedBase::OutOfPack { kind, end: len }),
        StoreAnswer::Absent => None,
        StoreAnswer::Failed => None,
    }
}

/// Resolves the base of a delta from what the index gave and what the
/// object store answered.
pub fn resolve_base(in_pack: Option<u64>, answer: StoreAnswer) -> (base: Option<ResolvedBase>)
    ensures
        base == resolved_base(in_pack, answer),
{
    match search_pack(in_pack) {
        BaseSearch::Resolved(base) => Some(base),
        BaseSearch::AskStore => take_from_store(answer),
    }
}

/// A base that the pack itself holds is taken from there, whatever the
/// object store holds.
pub proof fn law_pack_comes_first(offset: u64, answer: StoreAnswer, other: StoreAnswer)
    ensures
        resolved_base(Some(offset), answer) == Some(ResolvedBase::InPack { offset }),
        resolved_base(Some(offset), answer) == resolved_base(Some(offset), other),
{
}

} // verus!
