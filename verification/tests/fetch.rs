use gitarena::error::TransferError;
use gitarena::fetch::{fetch, parse_fetch, Fetch};
use gitarena::negotiation::process_haves;
use gitarena::pack::{process_wants, wanted_ids};
use gitarena::writer::WriterCall;

fn lines(text: &[&str]) -> Vec<Vec<u8>> {
    text.iter().map(|line| line.as_bytes().to_vec()).collect()
}

fn text(line: &str) -> WriterCall {
    WriterCall::Text(line.to_owned())
}

const COMMIT: &str = "7f3c1b2a9d8e4f5061728394a5b6c7d8e9f00112";

#[test]
fn default_request_asks_for_nothing() {
    let options = Fetch::default();
    assert!(!options.thin_pack);
    assert!(!options.no_progress);
    assert!(!options.include_tag);
    assert!(!options.ofs_delta);
    assert!(options.have.is_empty());
    assert!(options.want.is_empty());
}

#[test]
fn empty_input_gives_the_default_request() {
    assert_eq!(parse_fetch(&Vec::new()), Ok(Fetch::default()));
}

#[test]
fn flags_are_read_in_any_order() {
    let options = parse_fetch(&lines(&["ofs-delta", "thin-pack", "include-tag", "no-progress", "done"])).unwrap();
    assert!(options.thin_pack);
    assert!(options.no_progress);
    assert!(options.include_tag);
    assert!(options.ofs_delta);
    assert!(options.have.is_empty());
    assert!(options.want.is_empty());
}

#[test]
fn a_single_flag_sets_only_itself() {
    let options = parse_fetch(&lines(&["include-tag"])).unwrap();
    assert!(!options.thin_pack);
    assert!(!options.no_progress);
    assert!(options.include_tag);
    assert!(!options.ofs_delta);
}

#[test]
fn repeated_flags_count_once() {
    let once = parse_fetch(&lines(&["thin-pack", "done"])).unwrap();
    let twice = parse_fetch(&lines(&["thin-pack", "thin-pack", "done"])).unwrap();
    assert_eq!(once, twice);
}

#[test]
fn haves_and_wants_keep_their_order() {
    let options = parse_fetch(&lines(&[
        "want aaaa",
        "have refs/heads/main",
        "want bbbb",
        "have refs/heads/dev",
        "have refs/heads/main",
        "done",
    ]))
    .unwrap();
    assert_eq!(options.want, vec!["aaaa".to_owned(), "bbbb".to_owned()]);
    assert_eq!(
        options.have,
        vec!["refs/heads/main".to_owned(), "refs/heads/dev".to_owned(), "refs/heads/main".to_owned()]
    );
}

#[test]
fn argument_is_everything_after_the_prefix() {
    let options = parse_fetch(&lines(&["have ", "want  x y", "have h\u{e9}llo \u{1f600}"])).unwrap();
    assert_eq!(options.have, vec!["".to_owned(), "h\u{e9}llo \u{1f600}".to_owned()]);
    assert_eq!(options.want, vec![" x y".to_owned()]);
}

#[test]
fn lines_after_done_are_ignored() {
    let options = parse_fetch(&lines(&["want aaaa", "done", "want bbbb", "thin-pack", "have x"])).unwrap();
    assert_eq!(options.want, vec!["aaaa".to_owned()]);
    assert!(options.have.is_empty());
    assert!(!options.thin_pack);
}

#[test]
fn unknown_lines_are_ignored() {
    let options = parse_fetch(&lines(&[
        "deepen 3",
        "shallow aaaa",
        "",
        "thin-pack ",
        "THIN-PACK",
        "have",
        "wantaaaa",
        " want aaaa",
        "done ",
        "ofs-delta",
    ]))
    .unwrap();
    assert!(!options.thin_pack);
    assert!(options.ofs_delta);
    assert!(options.have.is_empty());
    assert!(options.want.is_empty());
}

#[test]
fn a_line_that_is_no_text_fails_the_request() {
    let mut input = lines(&["want aaaa"]);
    input.push(vec![0x68, 0x61, 0x76, 0x65, 0x20, 0xff, 0xfe]);
    input.push(b"done".to_vec());
    assert_eq!(parse_fetch(&input), Err(TransferError::MalformedInput));
}

#[test]
fn a_line_that_is_no_text_after_done_is_not_read() {
    let mut input = lines(&["want aaaa", "done"]);
    input.push(vec![0xc3, 0x28]);
    let options = parse_fetch(&input).unwrap();
    assert_eq!(options.want, vec!["aaaa".to_owned()]);
}

#[test]
fn truncated_text_fails_the_request() {
    let input = vec![vec![0xe2, 0x82]];
    assert_eq!(parse_fetch(&input), Err(TransferError::MalformedInput));
}

#[test]
fn no_haves_no_acknowledgments() {
    let options = Fetch::default();
    assert_eq!(process_haves(&options, &Vec::new()), None);
}

#[test]
fn unresolved_haves_give_one_nak() {
    let options = parse_fetch(&lines(&["have refs/heads/gone", "have refs/heads/renamed"])).unwrap();
    let section = process_haves(&options, &vec![None, None]).unwrap();
    assert_eq!(section, vec![text("acknowledgments"), text("NAK")]);
}

#[test]
fn resolved_haves_give_one_ack_each() {
    let options = parse_fetch(&lines(&["have main", "have gone", "have refs/tags/v1", "have nope"])).unwrap();
    let resolved = vec![Some("refs/heads/main".to_owned()), None, Some("refs/tags/v1".to_owned()), None];
    let section = process_haves(&options, &resolved).unwrap();
    assert_eq!(
        section,
        vec![text("acknowledgments"), text("ACK refs/heads/main"), text("ACK refs/tags/v1")]
    );
}

#[test]
fn packfile_section_is_written_without_wants() {
    let section = process_wants(&Fetch::default(), &[]).unwrap();
    assert_eq!(
        section,
        vec![text("packfile"), text("\u{2}Enumerating objects: 0, done."), WriterCall::Binary(vec![1])]
    );
}

#[test]
fn enumeration_counts_the_wants_not_the_pack() {
    let mut options = Fetch::default();
    for _ in 0..12 {
        options.want.push(COMMIT.to_owned());
    }
    let small = process_wants(&options, &[9]).unwrap();
    let large = process_wants(&options, &vec![7u8; 4096]).unwrap();
    assert_eq!(small[1], text("\u{2}Enumerating objects: 12, done."));
    assert_eq!(large[1], small[1]);
    assert_eq!(small[2], WriterCall::Binary(vec![1, 9]));
}

#[test]
fn enumeration_line_in_decimal() {
    for (count, expected) in [(1usize, "1"), (9, "9"), (10, "10"), (101, "101"), (1230, "1230")] {
        let mut options = Fetch::default();
        options.want = vec![String::new(); count];
        let section = process_wants(&options, &[]).unwrap();
        assert_eq!(section[1], WriterCall::Text(format!("\u{2}Enumerating objects: {}, done.", expected)));
    }
}

#[test]
fn pack_travels_on_band_one() {
    let pack = b"PACK\x00\x00\x00\x02".to_vec();
    let section = process_wants(&Fetch::default(), &pack).unwrap();
    let mut framed = vec![1u8];
    framed.extend_from_slice(&pack);
    assert_eq!(section[2], WriterCall::Binary(framed));
}

#[test]
fn clone_of_one_commit() {
    let want = format!("want {}", COMMIT);
    let options = parse_fetch(&lines(&[want.as_str(), "done"])).unwrap();
    assert!(options.have.is_empty());
    assert_eq!(wanted_ids(&options).unwrap().len(), 1);
    let pack = b"PACK-bytes".to_vec();
    let calls = fetch(&options, &Vec::new(), &pack);
    let mut framed = vec![1u8];
    framed.extend_from_slice(&pack);
    assert_eq!(
        calls,
        vec![
            text("packfile"),
            text("\u{2}Enumerating objects: 1, done."),
            WriterCall::Binary(framed),
            WriterCall::Flush,
        ]
    );
}

#[test]
fn response_with_acknowledgments() {
    let want = format!("want {}", COMMIT);
    let options = parse_fetch(&lines(&["have refs/heads/main", want.as_str(), "done"])).unwrap();
    let calls = fetch(&options, &vec![Some("refs/heads/main".to_owned())], &[]);
    assert_eq!(
        calls,
        vec![
            text("acknowledgments"),
            text("ACK refs/heads/main"),
            text("packfile"),
            text("\u{2}Enumerating objects: 1, done."),
            WriterCall::Binary(vec![1]),
            WriterCall::Flush,
        ]
    );
}
