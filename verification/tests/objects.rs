use gitarena::decoder::{resolve_base, search_pack, take_from_store, BaseSearch, ResolvedBase, StoreAnswer};
use gitarena::error::TransferError;
use gitarena::fetch::Fetch;
use gitarena::object::{all_hex, is_hex_digit, ObjectId, ObjectKind};
use gitarena::pack::{pack_insertion, pack_threads, threads_for, wanted_ids, FoundObject, PackInsert};
use gitarena::text::{after, push_decimal, starts_with};
use gitarena::writer::frame_data_band;

const HEX: &str = "0123456789abcdefABCDEF00ff10a0b0c0d0e0f1";

fn bytes_of_hex() -> [u8; 20] {
    [
        0x01, 0x23, 0x45, 0x67, 0x89, 0xab, 0xcd, 0xef, 0xab, 0xcd, 0xef, 0x00, 0xff, 0x10, 0xa0, 0xb0, 0xc0, 0xd0,
        0xe0, 0xf1,
    ]
}

#[test]
fn full_hex_is_read_byte_by_byte() {
    assert_eq!(ObjectId::from_hex(HEX), Some(ObjectId { bytes: bytes_of_hex() }));
}

#[test]
fn full_hex_must_have_forty_digits() {
    assert_eq!(ObjectId::from_hex(""), None);
    assert_eq!(ObjectId::from_hex(&HEX[..39]), None);
    assert_eq!(ObjectId::from_hex(&format!("{}0", HEX)), None);
}

#[test]
fn full_hex_must_be_all_digits() {
    let mut text = HEX.to_owned();
    text.replace_range(10..11, "g");
    assert_eq!(ObjectId::from_hex(&text), None);
    text.replace_range(10..11, " ");
    assert_eq!(ObjectId::from_hex(&text), None);
    assert_eq!(ObjectId::from_hex("\u{e9}123456789abcdefABCDEF00ff10a0b0c0d0e0"), None);
}

#[test]
fn null_id_is_all_zero() {
    assert_eq!(ObjectId::null(), ObjectId { bytes: [0; 20] });
    assert_eq!(ObjectId::from_hex("0000000000000000000000000000000000000000"), Some(ObjectId::null()));
}

#[test]
fn abbreviated_hex_is_filled_with_zeros() {
    let mut bytes = [0u8; 20];
    bytes[0] = 0xab;
    bytes[1] = 0xc0;
    assert_eq!(ObjectId::from_abbreviated_hex("abc"), Some(ObjectId { bytes }));
    assert_eq!(ObjectId::from_abbreviated_hex("ABC"), Some(ObjectId { bytes }));
    assert_eq!(ObjectId::from_abbreviated_hex(HEX), Some(ObjectId { bytes: bytes_of_hex() }));
}

#[test]
fn abbreviated_hex_is_refused_when_empty_long_or_no_hex() {
    assert_eq!(ObjectId::from_abbreviated_hex(""), None);
    assert_eq!(ObjectId::from_abbreviated_hex(&format!("{}0", HEX)), None);
    assert_eq!(ObjectId::from_abbreviated_hex("abcx"), None);
    assert_eq!(ObjectId::from_abbreviated_hex("ab cd"), None);
    assert_eq!(ObjectId::from_abbreviated_hex("\u{e9}"), None);
}

#[test]
fn hex_digits_in_either_case() {
    for b in 0u8..=255 {
        let expected = (b as char).is_ascii_hexdigit();
        assert_eq!(is_hex_digit(b), expected);
    }
    assert!(all_hex(b""));
    assert!(all_hex(b"09afAF"));
    assert!(!all_hex(b"09afAG"));
}

#[test]
fn wants_are_read_in_order() {
    let mut options = Fetch::default();
    options.want = vec![HEX.to_owned(), "ff".to_owned()];
    let mut short = [0u8; 20];
    short[0] = 0xff;
    assert_eq!(wanted_ids(&options), Ok(vec![ObjectId { bytes: bytes_of_hex() }, ObjectId { bytes: short }]));
}

#[test]
fn one_unreadable_want_fails_the_request() {
    let mut options = Fetch::default();
    options.want = vec![HEX.to_owned(), "refs/heads/main".to_owned(), HEX.to_owned()];
    assert_eq!(wanted_ids(&options), Err(TransferError::MalformedInput));
}

#[test]
fn no_wants_no_ids() {
    assert_eq!(wanted_ids(&Fetch::default()), Ok(Vec::new()));
}

#[test]
fn commits_and_trees_are_inserted_with_what_they_reach() {
    let id = ObjectId { bytes: bytes_of_hex() };
    assert_eq!(
        pack_insertion(HEX, Some(FoundObject { id, kind: Some(ObjectKind::Commit) })),
        Some(PackInsert::Commit(id))
    );
    assert_eq!(
        pack_insertion(HEX, Some(FoundObject { id, kind: Some(ObjectKind::Tree) })),
        Some(PackInsert::Tree(id))
    );
}

#[test]
fn other_objects_are_inserted_alone_under_their_name() {
    let id = ObjectId { bytes: bytes_of_hex() };
    for kind in [Some(ObjectKind::Blob), Some(ObjectKind::Tag), None] {
        assert_eq!(
            pack_insertion(HEX, Some(FoundObject { id, kind })),
            Some(PackInsert::Object { id, name: HEX.to_owned() })
        );
    }
}

#[test]
fn wants_that_are_not_found_are_passed_over() {
    assert_eq!(pack_insertion(HEX, None), None);
}

#[test]
fn worker_threads_follow_the_cores() {
    assert_eq!(threads_for(1), 1);
    assert_eq!(threads_for(64), 64);
    assert_eq!(threads_for(u32::MAX as usize), u32::MAX);
    assert!(pack_threads() >= 1);
}

#[test]
fn data_band_marker_comes_first() {
    assert_eq!(frame_data_band(&[]), vec![1]);
    assert_eq!(frame_data_band(&[0, 1, 2]), vec![1, 0, 1, 2]);
}

#[test]
fn prefixes_and_rests() {
    assert!(starts_with("have x", "have "));
    assert!(starts_with("have ", "have "));
    assert!(starts_with("anything", ""));
    assert!(!starts_with("have", "have "));
    assert!(!starts_with("hive x", "have "));
    assert!(!starts_with("", "w"));
    assert_eq!(after("want abc", 5), "abc");
    assert_eq!(after("h\u{e9}llo", 2), "llo");
    assert_eq!(after("abc", 3), "");
    assert_eq!(after("abc", 0), "abc");
}

#[test]
fn decimal_notation() {
    for n in [0usize, 7, 10, 99, 100, 4096, 1_000_000, usize::MAX] {
        let mut out = String::from("n=");
        push_decimal(&mut out, n);
        assert_eq!(out, format!("n={}", n));
    }
}

#[test]
fn base_in_the_pack_comes_first() {
    let found = StoreAnswer::Found { kind: ObjectKind::Blob, len: 12 };
    assert_eq!(search_pack(Some(40)), BaseSearch::Resolved(ResolvedBase::InPack { offset: 40 }));
    assert_eq!(resolve_base(Some(40), found), Some(ResolvedBase::InPack { offset: 40 }));
    assert_eq!(resolve_base(Some(40), StoreAnswer::Absent), Some(ResolvedBase::InPack { offset: 40 }));
    assert_eq!(resolve_base(Some(0), StoreAnswer::Failed), Some(ResolvedBase::InPack { offset: 0 }));
}

#[test]
fn base_outside_the_pack_comes_from_the_store() {
    assert_eq!(search_pack(None), BaseSearch::AskStore);
    assert_eq!(
        take_from_store(StoreAnswer::Found { kind: ObjectKind::Tree, len: 77 }),
        Some(ResolvedBase::OutOfPack { kind: ObjectKind::Tree, end: 77 })
    );
    assert_eq!(
        resolve_base(None, StoreAnswer::Found { kind: ObjectKind::Commit, len: 3 }),
        Some(ResolvedBase::OutOfPack { kind: ObjectKind::Commit, end: 3 })
    );
}

#[test]
fn base_that_nobody_holds_is_not_resolved() {
    assert_eq!(resolve_base(None, StoreAnswer::Absent), None);
    assert_eq!(resolve_base(None, StoreAnswer::Failed), None);
    assert_eq!(take_from_store(StoreAnswer::Absent), None);
}

#[test]
fn status_codes() {
    assert_eq!(TransferError::MalformedInput.status(), 400);
    assert_eq!(TransferError::ObjectNotFound.status(), 404);
    assert_eq!(TransferError::UnexpectedPayloadKind.status(), 400);
    assert_eq!(TransferError::TransactionConflict.status(), 500);
    assert_eq!(TransferError::StorageFailure.status(), 500);
}

#[test]
fn failures_that_end_the_request() {
    assert!(TransferError::MalformedInput.ends_request());
    assert!(TransferError::StorageFailure.ends_request());
    assert!(!TransferError::ObjectNotFound.ends_request());
    assert!(!TransferError::UnexpectedPayloadKind.ends_request());
    assert!(!TransferError::TransactionConflict.ends_request());
}
