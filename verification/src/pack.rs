//! Assembling the pack of a fetch: which objects go in, and how the result
//! is laid out for the client.

use vstd::prelude::*;
use vstd::string::*;
use vstd::utf8::*;
use crate::error::TransferError;
use crate::fetch::Fetch;
use crate::object::{ObjectId, ObjectKind, hex_bytes, is_abbreviated_hex};
use crate::text::{decimal_digits, push_decimal};
use crate::writer::{Call, WriterCall, calls_view, frame_data_band, on_data_band, push_call};

verus! {

/// An object that the store holds under a wanted id.
#[derive(Clone, Copy, Debug, PartialEq, Eq)]
pub struct FoundObject {
    pub id: ObjectId,
    /// What the object is, where the store can tell.
    pub kind: Option<ObjectKind>,
}

/// One request to the pack builder.
#[derive(Clone, Debug, PartialEq, Eq)]
pub enum PackInsert {
    /// Insert the commit and all that is reachable from it.
    Commit(ObjectId),
    /// Insert the tree and all that is reachable from it.
    Tree(ObjectId),
    /// Insert the one object, with `name` as a hint.
    Object { id: ObjectId, name: String },
}

/// A request to the pack builder as a mathematical value.
pub enum Insertion {
    Commit(Seq<u8>),
    Tree(Seq<u8>),
    Object { id: Seq<u8>, name: Seq<char> },
}

impl View for PackInsert {
    type V = Insertion;

    open spec fn view(&self) -> Insertion {
        match self {
            PackInsert::Commit(id) => Insertion::Commit(id@),
            PackInsert::Tree(id) => Insertion::Tree(id@),
            PackInsert::Object { id, name } => Insertion::Object { id: id@, name: name@ },
        }
    }
}

/// How the object found for `wanted` goes into the pack: a commit and a
/// tree with all that they reach, anything else alone, under the text by
/// which it was asked for.
pub open spec fn insertion_for(wanted: Seq<char>, found: FoundObject) -> Insertion {
    match found.kind {
        Some(ObjectKind::Commit) => Insertion::Commit(found.id@),
        Some(ObjectKind::Tree) => Insertion::Tree(found.id@),
        _ => Insertion::Object { id: found.id@, name: wanted },
    }
}

/// Chooses what to ask of the pack builder for the want `wanted`, of which
/// `found` is what the object store holds. A want that the store does not
/// hold is passed over.
pub fn pack_insertion(wanted: &str, found: Option<FoundObject>) -> (insert: Option<PackInsert>)
    ensures
        found is None ==> insert is None,
        found is Some ==> insert is Some && insert->0@ == insertion_for(wanted@, found->0),
{
    match found {
        None => None,
        Some(object) => match object.kind {
            Some(ObjectKind::Commit) => Some(PackInsert::Commit(object.id)),
            Some(ObjectKind::Tree) => Some(PackInsert::Tree(object.id)),
            _ => Some(PackInsert::Object { id: object.id, name: wanted.to_owned() }),
        },
    }
}

/// Whether every want of `want` can be read as an object id.
pub open spec fn wants_readable(want: Seq<Seq<char>>) -> bool {
    forall|i: int| 0 <= i < want.len() ==> is_abbreviated_hex(#[trigger] encode_utf8(want[i]))
}

/// Reads the wants of `options` as object ids, in order. One want that is
/// no object id fails the request.
pub fn wanted_ids(options: &Fetch) -> (ids: Result<Vec<ObjectId>, TransferError>)
    ensures
        ids is Ok <==> wants_readable(options@.want),
        ids is Ok ==> ids->Ok_0@.len() == options@.want.len() && forall|i: int|
            0 <= i < options@.want.len() ==> (#[trigger] ids->Ok_0@[i])@ == hex_bytes(
                encode_utf8(options@.want[i]),
            ),
        ids is Err ==> ids->Err_0 == TransferError::MalformedInput,
{
    let mut ids: Vec<ObjectId> = Vec::new();
    let mut i: usize = 0;
    while i < options.want.len()
        invariant
            i <= options.want.len(),
            ids@.len() == i,
            forall|j: int| 0 <= j < i ==> is_abbreviated_hex(#[trigger] encode_utf8(options@.want[j])),
            forall|j: int|
                0 <= j < i ==> (#[trigger] ids@[j])@ == hex_bytes(encode_utf8(options@.want[j])),
        decreases options.want.len() - i,
    {
        assert(options@.want[i as int] == options.want@[i as int]@);
        match ObjectId::from_abbreviated_hex(options.want[i].as_str()) {
            Some(id) => {
                ids.push(id);
            },
            None => {
                return Err(TransferError::MalformedInput);
            },
        }
        i += 1;
    }
    Ok(ids)
}

/// The line that tells the client how many objects were asked for.
pub open spec fn enumeration_line(count: nat) -> Seq<char> {
    "\x02Enumerating objects: "@ + decimal_digits(count) + ", done."@
}

/// The packfile section: its header, the count of the wants, and the pack
/// on the data band.
pub open spec fn packfile_section(want: Seq<Seq<char>>, pack: Seq<u8>) -> Seq<Call> {
    seq![
        Call::Text("packfile"@),
        Call::Text(enumeration_line(want.len())),
        Call::Binary(on_data_band(pack)),
    ]
}

/// Writes the packfile section for the wants of `options`, of which `pack`
/// is the pack that was built.
pub fn process_wants(options: &Fetch, pack: &[u8]) -> (section: Option<Vec<WriterCall>>)
    ensures
        section is Some,
        calls_view(section->0@) == packfile_section(options@.want, pack@),
{
    let mut calls: Vec<WriterCall> = Vec::new();
    push_call(&mut calls, WriterCall::Text(String::from_str("packfile")));
    let mut line = String::from_str("\x02Enumerating objects: ");
    push_decimal(&mut line, options.want.len());
    line.append(", done.");
    push_call(&mut calls, WriterCall::Text(line));
    push_call(&mut calls, WriterCall::Binary(frame_data_band(pack)));
    assert(calls_view(calls@) =~= packfile_section(options@.want, pack@));
    Some(calls)
}

/// The count that the packfile section reports is the number of wants,
/// whatever went into the pack.
pub proof fn law_enumeration_counts_wants(want: Seq<Seq<char>>, pack: Seq<u8>, other: Seq<u8>)
    ensures
        packfile_section(want, pack)[1] == Call::Text(enumeration_line(want.len())),
        packfile_section(want, pack)[1] == packfile_section(want, other)[1],
{
}

/// `num_cpus::get`: the number of logical cores that this machine offers,
/// which is at least one. Which number it is depends on the machine.
#[verifier::external_body]
fn available_cores() -> (cores: usize)
    ensures
        cores >= 1,
{
    num_cpus::get()
}

/// The number of worker threads for `cores` cores: as many, cut to 32 bits.
pub open spec fn threads_of(cores: usize) -> u32 {
    cores as u32
}

/// The number of worker threads with which to build a pack on this machine:
/// as many as the machine offers cores, of which there is at least one, cut
/// to the width that the pack builder takes.
pub fn pack_threads() -> (threads: u32)
    ensures
        exists|cores: usize| cores >= 1 && threads == #[trigger] threads_of(cores),
{
    let cores = available_cores();
    threads_for(cores)
}

/// The number of worker threads for `cores` cores: their number, cut to the
/// width that the pack builder takes.
pub fn threads_for(cores: usize) -> (threads: u32)
    ensures
        threads == threads_of(cores),
{
    #[verifier::truncate]
    (cores as u32)
}

} // verus!
