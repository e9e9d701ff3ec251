//! Object ids and object kinds.

use vstd::prelude::*;
use vstd::string::*;

verus! {

/// Width of an object id written in hexadecimal.
pub const HEX_LEN: usize = 40;

/// A content hash that identifies a commit, tree, blob or tag.
#[derive(Clone, Copy, Debug, PartialEq, Eq)]
pub struct ObjectId {
    pub bytes: [u8; 20],
}

impl View for ObjectId {
    type V = Seq<u8>;

    open spec fn view(&self) -> Seq<u8> {
        self.bytes@
    }
}

/// What an object is.
#[derive(Clone, Copy, Debug, PartialEq, Eq, Structural)]
pub enum ObjectKind {
    Commit,
    Tree,
    Blob,
    Tag,
}

/// The value of the hexadecimal digit `b`, in either case.
pub open spec fn hex_value(b: u8) -> Option<u8> {
    if 0x30 <= b <= 0x39 {
        Some((b - 0x30) as u8)
    } else if 0x61 <= b <= 0x66 {
        Some((b - 0x61 + 10) as u8)
    } else if 0x41 <= b <= 0x46 {
        Some((b - 0x41 + 10) as u8)
    } else {
        None
    }
}

/// Whether every byte of `text` is a hexadecimal digit.
pub open spec fn is_hex(text: Seq<u8>) -> bool {
    forall|i: int| 0 <= i < text.len() ==> (#[trigger] hex_value(text[i])) is Some
}

/// The value of the digit at position `k` of `text`; zero past its end.
pub open spec fn nibble(text: Seq<u8>, k: int) -> int {
    if 0 <= k < text.len() && hex_value(text[k]) is Some {
        hex_value(text[k])->0 as int
    } else {
        0
    }
}

/// The id that the hexadecimal digits `text` spell: two digits per byte,
/// the first one the high half, and zero where the digits run out.
pub open spec fn hex_bytes(text: Seq<u8>) -> Seq<u8> {
    Seq::new(20, |i: int| (nibble(text, 2 * i) * 16 + nibble(text, 2 * i + 1)) as u8)
}

/// Whether `text` is a full object id in hexadecimal: forty digits.
pub open spec fn is_full_hex(text: Seq<u8>) -> bool {
    text.len() == 40 && is_hex(text)
}

/// Whether `text` is an object id or a leading part of one in hexadecimal:
/// one to forty digits.
pub open spec fn is_abbreviated_hex(text: Seq<u8>) -> bool {
    1 <= text.len() <= 40 && is_hex(text)
}

/// `git_hash::ObjectId::from_hex`: a buffer of forty hexadecimal digits gives
/// the id that they spell, and a buffer of any other length is refused.
/// Forty bytes that are not all digits are kept out, as the call does not
/// return on them.
#[verifier::external_body]
fn object_id_from_hex(hex: &[u8]) -> (id: Option<ObjectId>)
    requires
        hex@.len() == 40 ==> is_hex(hex@),
    ensures
        id is Some <==> hex@.len() == 40,
        id is Some ==> id->0@ == hex_bytes(hex@),
{
    match git_hash::ObjectId::from_hex(hex) {
        Ok(id) => Some(ObjectId { bytes: *id.sha1() }),
        Err(_) => None,
    }
}

/// `git2::Oid::from_str`: one to forty hexadecimal digits give the id that
/// they spell, filled up with zeros; an empty text, a longer one, and one
/// with any other byte in it are refused.
#[verifier::external_body]
fn oid_from_str(hex: &str) -> (id: Option<ObjectId>)
    ensures
        id is Some <==> is_abbreviated_hex(hex.spec_bytes()),
        id is Some ==> id->0@ == hex_bytes(hex.spec_bytes()),
{
    match git2::Oid::from_str(hex) {
        Ok(oid) => <[u8; 20]>::try_from(oid.as_bytes()).ok().map(|bytes| ObjectId { bytes }),
        Err(_) => None,
    }
}

/// Tells whether `b` is a hexadecimal digit.
pub fn is_hex_digit(b: u8) -> (digit: bool)
    ensures
        digit == hex_value(b) is Some,
{
    (0x30 <= b && b <= 0x39) || (0x61 <= b && b <= 0x66) || (0x41 <= b && b <= 0x46)
}

/// Tells whether every byte of `text` is a hexadecimal digit.
pub fn all_hex(text: &[u8]) -> (hex: bool)
    ensures
        hex == is_hex(text@),
{
    let mut i: usize = 0;
    while i < text.len()
        invariant
            i <= text.len(),
            forall|j: int| 0 <= j < i ==> (#[trigger] hex_value(text@[j])) is Some,
        decreases text.len() - i,
    {
        if !is_hex_digit(text[i]) {
            return false;
        }
        i += 1;
    }
    true
}

/// Two ids are the same exactly when their bytes are.
pub proof fn law_ids_are_their_bytes(a: ObjectId, b: ObjectId)
    ensures
        a == b <==> a@ == b@,
{
    if a@ == b@ {
        assert(a.bytes =~= b.bytes);
    }
}

impl ObjectId {
    /// The id whose bytes are all zero.
    pub fn null() -> (id: ObjectId)
        ensures
            id@ == Seq::new(20, |i: int| 0u8),
    {
        let id = ObjectId { bytes: [0u8; 20] };
        assert(id@ =~= Seq::new(20, |i: int| 0u8));
        id
    }

    /// Reads a full object id: forty hexadecimal digits, in either case.
    /// Any other text is refused.
    pub fn from_hex(text: &str) -> (id: Option<ObjectId>)
        ensures
            id is Some <==> is_full_hex(text.spec_bytes()),
            id is Some ==> id->0@ == hex_bytes(text.spec_bytes()),
    {
        let bytes = text.as_bytes();
        if bytes.len() != HEX_LEN || !all_hex(bytes) {
            return None;
        }
        object_id_from_hex(bytes)
    }

    /// Reads an object id that may be cut short: one to forty hexadecimal
    /// digits, in either case, the missing ones taken as zero. Any other text
    /// is refused.
    pub fn from_abbreviated_hex(text: &str) -> (id: Option<ObjectId>)
        ensures
            id is Some <==> is_abbreviated_hex(text.spec_bytes()),
            id is Some ==> id->0@ == hex_bytes(text.spec_bytes()),
    {
        oid_from_str(text)
    }
}

} // verus!
