//! Fetch: reading the negotiation request and laying out the response.

use vstd::prelude::*;
use vstd::string::*;
use vstd::utf8::*;
use crate::error::TransferError;
use crate::negotiation::{acknowledgments, process_haves, resolved_names};
use crate::pack::{packfile_section, process_wants};
use crate::text::{after, has_prefix, starts_with, string_from_utf8};
use crate::writer::{Call, WriterCall, append_calls, calls_view, push_call};

verus! {

/// What a client asks of a fetch.
#[derive(Clone, Debug, PartialEq, Eq)]
pub struct Fetch {
    pub thin_pack: bool,
    pub no_progress: bool,
    pub include_tag: bool,
    pub ofs_delta: bool,
    pub have: Vec<String>,
    pub want: Vec<String>,
}

/// A negotiation request as a mathematical value.
pub struct NegotiationRequest {
    pub thin_pack: bool,
    pub no_progress: bool,
    pub include_tag: bool,
    pub ofs_delta: bool,
    pub have: Seq<Seq<char>>,
    pub want: Seq<Seq<char>>,
}

/// The characters of each string of `strings`.
pub open spec fn texts(strings: Seq<String>) -> Seq<Seq<char>> {
    strings.map_values(|s: String| s@)
}

impl View for Fetch {
    type V = NegotiationRequest;

    open spec fn view(&self) -> NegotiationRequest {
        NegotiationRequest {
            thin_pack: self.thin_pack,
            no_progress: self.no_progress,
            include_tag: self.include_tag,
            ofs_delta: self.ofs_delta,
            have: texts(self.have@),
            want: texts(self.want@),
        }
    }
}

/// The request that asks for nothing.
pub open spec fn empty_request() -> NegotiationRequest {
    NegotiationRequest {
        thin_pack: false,
        no_progress: false,
        include_tag: false,
        ofs_delta: false,
        have: Seq::empty(),
        want: Seq::empty(),
    }
}

impl Default for Fetch {
    fn default() -> (options: Fetch)
        ensures
            options@ == empty_request(),
    {
        let options = Fetch {
            thin_pack: false,
            no_progress: false,
            include_tag: false,
            ofs_delta: false,
            have: Vec::new(),
            want: Vec::new(),
        };
        assert(texts(options.have@) =~= Seq::empty());
        assert(texts(options.want@) =~= Seq::empty());
        options
    }
}

/// The bytes of each line of `input`.
pub open spec fn raw_lines(input: Seq<Vec<u8>>) -> Seq<Seq<u8>> {
    input.map_values(|line: Vec<u8>| line@)
}

/// The text of each line of `lines`.
pub open spec fn decoded(lines: Seq<Seq<u8>>) -> Seq<Seq<char>> {
    lines.map_values(|line: Seq<u8>| decode_utf8(line))
}

/// Whether reading ends at `line`: it is no text, or it is the terminator.
pub open spec fn ends_reading(line: Seq<u8>) -> bool {
    !valid_utf8(line) || decode_utf8(line) == "done"@
}

/// The position of the first line at or after `from` at which reading ends,
/// or the number of lines where there is none.
pub open spec fn first_stop(lines: Seq<Seq<u8>>, from: int) -> int
    decreases lines.len() - from,
{
    if from < 0 || from >= lines.len() || ends_reading(lines[from]) {
        from
    } else {
        first_stop(lines, from + 1)
    }
}

/// What a line says after `prefix`, if it begins with it.
pub open spec fn argument_of(prefix: Seq<char>) -> spec_fn(Seq<char>) -> Option<Seq<char>> {
    |text: Seq<char>|
        if has_prefix(text, prefix) {
            Some(text.skip(prefix.len() as int))
        } else {
            None
        }
}

/// The arguments of the lines of `lines` that begin with `prefix`, in order.
pub open spec fn arguments(lines: Seq<Seq<char>>, prefix: Seq<char>) -> Seq<Seq<char>> {
    lines.filter_map(argument_of(prefix))
}

/// The request that the directives among `lines` make up: a flag is set when
/// its line occurs, and the haves and wants are the arguments of their lines.
/// Lines that are no directive count for nothing.
pub open spec fn directives(lines: Seq<Seq<char>>) -> NegotiationRequest {
    NegotiationRequest {
        thin_pack: lines.contains("thin-pack"@),
        no_progress: lines.contains("no-progress"@),
        include_tag: lines.contains("include-tag"@),
        ofs_delta: lines.contains("ofs-delta"@),
        have: arguments(lines, "have "@),
        want: arguments(lines, "want "@),
    }
}

/// What reading `lines` gives: the directives before the terminator, or
/// before the end where there is none; a failure where a line that is no
/// text comes before any terminator.
pub open spec fn parsed_request(lines: Seq<Seq<u8>>) -> Result<NegotiationRequest, TransferError> {
    let stop = first_stop(lines, 0);
    if stop < lines.len() && !valid_utf8(lines[stop]) {
        Err(TransferError::MalformedInput)
    } else {
        Ok(directives(decoded(lines.take(stop))))
    }
}

/// Where reading ends: no earlier line ends it, and the line there, if there
/// is one, does.
pub proof fn lemma_first_stop(lines: Seq<Seq<u8>>, from: int)
    requires
        0 <= from <= lines.len(),
    ensures
        from <= first_stop(lines, from) <= lines.len(),
        forall|i: int| from <= i < first_stop(lines, from) ==> !ends_reading(#[trigger] lines[i]),
        first_stop(lines, from) < lines.len() ==> ends_reading(lines[first_stop(lines, from)]),
    decreases lines.len() - from,
{
    if from < lines.len() && !ends_reading(lines[from]) {
        lemma_first_stop(lines, from + 1);
    }
}

proof fn lemma_first_stop_of_longer(lines: Seq<Seq<u8>>, more: Seq<Seq<u8>>, from: int)
    requires
        0 <= from <= lines.len(),
        first_stop(lines, from) < lines.len(),
    ensures
        first_stop(lines + more, from) == first_stop(lines, from),
    decreases lines.len() - from,
{
    assert((lines + more)[from] == lines[from]);
    if !ends_reading(lines[from]) {
        lemma_first_stop_of_longer(lines, more, from + 1);
    }
}

/// Whatever follows the line at which reading ends counts for nothing.
pub proof fn law_reading_ends_once(lines: Seq<Seq<u8>>, more: Seq<Seq<u8>>)
    requires
        first_stop(lines, 0) < lines.len(),
    ensures
        parsed_request(lines + more) == parsed_request(lines),
{
    let stop = first_stop(lines, 0);
    lemma_first_stop(lines, 0);
    lemma_first_stop_of_longer(lines, more, 0);
    assert((lines + more)[stop] == lines[stop]);
    assert((lines + more).take(stop) =~= lines.take(stop));
}

proof fn lemma_contains_add<A>(before: Seq<A>, after: Seq<A>, needle: A)
    ensures
        (before + after).contains(needle) <==> before.contains(needle) || after.contains(needle),
{
    let all = before + after;
    if before.contains(needle) {
        let i = choose|i: int| 0 <= i < before.len() && before[i] == needle;
        assert(all[i] == needle);
    }
    if after.contains(needle) {
        let i = choose|i: int| 0 <= i < after.len() && after[i] == needle;
        assert(all[before.len() + i] == needle);
    }
    if all.contains(needle) {
        let i = choose|i: int| 0 <= i < all.len() && all[i] == needle;
        if i < before.len() {
            assert(before[i] == needle);
        } else {
            assert(after[i - before.len()] == needle);
        }
    }
}

proof fn lemma_filter_map_add<A, B>(before: Seq<A>, after: Seq<A>, f: spec_fn(A) -> Option<B>)
    ensures
        (before + after).filter_map(f) == before.filter_map(f) + after.filter_map(f),
    decreases after.len(),
{
    if after.len() == 0 {
        assert(before + after =~= before);
        assert(before.filter_map(f) + after.filter_map(f) =~= before.filter_map(f));
    } else {
        let init = after.drop_last();
        assert((before + after).drop_last() =~= before + init);
        assert((before + after).last() == after.last());
        lemma_filter_map_add(before, init, f);
        match f(after.last()) {
            Some(b) => {
                assert((before.filter_map(f) + init.filter_map(f)) + seq![b] =~= before.filter_map(f)
                    + (init.filter_map(f) + seq![b]));
            },
            None => {},
        }
    }
}

/// Whether `line` is one of the directives.
pub open spec fn is_directive(line: Seq<char>) -> bool {
    line == "thin-pack"@ || line == "no-progress"@ || line == "include-tag"@ || line
        == "ofs-delta"@ || has_prefix(line, "have "@) || has_prefix(line, "want "@)
}

/// A line that is no directive, wherever it stands, leaves the request as
/// it is without that line.
pub proof fn law_unknown_lines_are_ignored(
    before: Seq<Seq<char>>,
    line: Seq<char>,
    after: Seq<Seq<char>>,
)
    requires
        !is_directive(line),
    ensures
        directives(before + seq![line] + after) == directives(before + after),
{
    let one = seq![line];
    let have = argument_of("have "@);
    let want = argument_of("want "@);
    assert(forall|needle: Seq<char>| one.contains(needle) ==> needle == line) by {
        assert forall|needle: Seq<char>| one.contains(needle) implies needle == line by {
            let i = choose|i: int| 0 <= i < one.len() && one[i] == needle;
            assert(one[i] == line);
        }
    }
    assert forall|needle: Seq<char>| is_directive(needle) implies (before + one + after).contains(
        needle,
    ) == (before + after).contains(needle) by {
        lemma_contains_add(before + one, after, needle);
        lemma_contains_add(before, one, needle);
        lemma_contains_add(before, after, needle);
    }
    reveal_strlit("have ");
    reveal_strlit("want ");
    assert(is_directive("thin-pack"@));
    assert(is_directive("no-progress"@));
    assert(is_directive("include-tag"@));
    assert(is_directive("ofs-delta"@));
    Seq::lemma_filter_map_singleton(line, have);
    Seq::lemma_filter_map_singleton(line, want);
    lemma_filter_map_add(before + one, after, have);
    lemma_filter_map_add(before, one, have);
    lemma_filter_map_add(before, after, have);
    lemma_filter_map_add(before + one, after, want);
    lemma_filter_map_add(before, one, want);
    lemma_filter_map_add(before, after, want);
    assert(before.filter_map(have) + Seq::<Seq<char>>::empty() =~= before.filter_map(have));
    assert(before.filter_map(want) + Seq::<Seq<char>>::empty() =~= before.filter_map(want));
}

/// A flag is set by its line wherever and however often the line stands.
pub proof fn law_flags_by_occurrence(lines: Seq<Seq<char>>, other: Seq<Seq<char>>)
    requires
        forall|line: Seq<char>| lines.contains(line) <==> other.contains(line),
    ensures
        directives(lines).thin_pack == directives(other).thin_pack,
        directives(lines).no_progress == directives(other).no_progress,
        directives(lines).include_tag == directives(other).include_tag,
        directives(lines).ofs_delta == directives(other).ofs_delta,
{
}

proof fn lemma_contains_push<A>(s: Seq<A>, last: A, needle: A)
    ensures
        s.push(last).contains(needle) <==> s.contains(needle) || last == needle,
{
    let t = s.push(last);
    if s.contains(needle) {
        let i = choose|i: int| 0 <= i < s.len() && s[i] == needle;
        assert(t[i] == needle);
    }
    if last == needle {
        assert(t[s.len() as int] == needle);
    }
    if t.contains(needle) {
        let i = choose|i: int| 0 <= i < t.len() && t[i] == needle;
        if i < s.len() {
            assert(s[i] == needle);
        }
    }
}

proof fn lemma_filter_map_push<A, B>(s: Seq<A>, last: A, f: spec_fn(A) -> Option<B>)
    ensures
        s.push(last).filter_map(f) == match f(last) {
            Some(b) => s.filter_map(f).push(b),
            None => s.filter_map(f),
        },
{
    assert(s.push(last).drop_last() =~= s);
    match f(last) {
        Some(b) => {
            assert(s.filter_map(f) + seq![b] =~= s.filter_map(f).push(b));
        },
        None => {},
    }
}

proof fn lemma_directives_push(lines: Seq<Seq<char>>, line: Seq<char>)
    ensures
        directives(lines.push(line)).thin_pack == (directives(lines).thin_pack || line
            == "thin-pack"@),
        directives(lines.push(line)).no_progress == (directives(lines).no_progress || line
            == "no-progress"@),
        directives(lines.push(line)).include_tag == (directives(lines).include_tag || line
            == "include-tag"@),
        directives(lines.push(line)).ofs_delta == (directives(lines).ofs_delta || line
            == "ofs-delta"@),
        directives(lines.push(line)).have == (if has_prefix(line, "have "@) {
            directives(lines).have.push(line.skip("have "@.len() as int))
        } else {
            directives(lines).have
        }),
        directives(lines.push(line)).want == (if has_prefix(line, "want "@) {
            directives(lines).want.push(line.skip("want "@.len() as int))
        } else {
            directives(lines).want
        }),
{
    lemma_contains_push(lines, line, "thin-pack"@);
    lemma_contains_push(lines, line, "no-progress"@);
    lemma_contains_push(lines, line, "include-tag"@);
    lemma_contains_push(lines, line, "ofs-delta"@);
    lemma_filter_map_push(lines, line, argument_of("have "@));
    lemma_filter_map_push(lines, line, argument_of("want "@));
}

fn text_is(text: &str, word: &str) -> (same: bool)
    ensures
        same == (text@ == word@),
{
    let text_len: usize = text.unicode_len();
    let word_len: usize = word.unicode_len();
    if text_len != word_len {
        return false;
    }
    let found = starts_with(text, word);
    assert(text@.subrange(0, text@.len() as int) =~= text@);
    found
}

/// Reads a negotiation request from the lines that the transport took out
/// of their frames.
pub fn parse_fetch(input: &Vec<Vec<u8>>) -> (parsed: Result<Fetch, TransferError>)
    ensures
        match parsed {
            Ok(options) => parsed_request(raw_lines(input@)) == Ok::<
                NegotiationRequest,
                TransferError,
            >(options@),
            Err(error) => parsed_request(raw_lines(input@)) == Err::<
                NegotiationRequest,
                TransferError,
            >(error),
        },
{
    let ghost lines = raw_lines(input@);
    let mut options = Fetch::default();
    let mut i: usize = 0;
    proof {
        assert(decoded(lines.take(0)) =~= Seq::empty());
        assert(arguments(Seq::empty(), "have "@) =~= Seq::empty());
        assert(arguments(Seq::empty(), "want "@) =~= Seq::empty());
    }
    while i < input.len()
        invariant
            i <= input.len(),
            lines == raw_lines(input@),
            first_stop(lines, 0) == first_stop(lines, i as int),
            options@ == directives(decoded(lines.take(i as int))),
        decreases input.len() - i,
    {
        assert(lines[i as int] == input@[i as int]@);
        let line = match string_from_utf8(&input[i]) {
            Some(line) => line,
            None => {
                return Err(TransferError::MalformedInput);
            },
        };
        let text = line.as_str();
        if text_is(text, "done") {
            return Ok(options);
        }
        proof {
            assert(lines.take(i + 1) =~= lines.take(i as int).push(lines[i as int]));
            assert(decoded(lines.take(i + 1)) =~= decoded(lines.take(i as int)).push(text@));
            lemma_directives_push(decoded(lines.take(i as int)), text@);
            reveal_strlit("have ");
            reveal_strlit("want ");
        }
        if text_is(text, "thin-pack") {
            options.thin_pack = true;
        }
        if text_is(text, "no-progress") {
            options.no_progress = true;
        }
        if text_is(text, "include-tag") {
            options.include_tag = true;
        }
        if text_is(text, "ofs-delta") {
            options.ofs_delta = true;
        }
        if starts_with(text, "have ") {
            let ghost before = options.have@;
            let argument = after(text, 5);
            options.have.push(argument);
            assert(texts(options.have@) =~= texts(before).push(text@.skip(5)));
        }
        if starts_with(text, "want ") {
            let ghost before = options.want@;
            let argument = after(text, 5);
            options.want.push(argument);
            assert(texts(options.want@) =~= texts(before).push(text@.skip(5)));
        }
        i += 1;
    }
    proof {
        assert(lines.take(i as int) =~= lines);
    }
    Ok(options)
}

/// The whole response to a fetch: the acknowledgments section where there
/// is one, the packfile section, and the mark that ends the response.
pub open spec fn response(
    request: NegotiationRequest,
    names: Seq<Option<Seq<char>>>,
    pack: Seq<u8>,
) -> Seq<Call> {
    (match acknowledgments(request.have, names) {
        Some(section) => section,
        None => Seq::empty(),
    }) + packfile_section(request.want, pack) + seq![Call::Flush]
}

/// The packfile section is written whatever was asked, the mark that ends
/// the response comes last, and a client that has nothing gets nothing
/// before the packfile section.
pub proof fn law_packfile_section_always(
    request: NegotiationRequest,
    names: Seq<Option<Seq<char>>>,
    pack: Seq<u8>,
)
    ensures
        response(request, names, pack).len() >= 4,
        response(request, names, pack).subrange(
            response(request, names, pack).len() - 4,
            response(request, names, pack).len() as int,
        ) == packfile_section(request.want, pack) + seq![Call::Flush],
        request.have.len() == 0 ==> response(request, names, pack) == packfile_section(
            request.want,
            pack,
        ) + seq![Call::Flush],
{
    let all = response(request, names, pack);
    let tail = packfile_section(request.want, pack) + seq![Call::Flush];
    assert(tail.len() == 4);
    assert(all.subrange(all.len() - 4, all.len() as int) =~= tail);
    if request.have.len() == 0 {
        assert(all =~= tail);
    }
}

/// Lays out the response to the request `options`: `resolved` tells, have by
/// have, the reference that each resolved to, and `pack` is the pack built
/// for the wants.
pub fn fetch(options: &Fetch, resolved: &Vec<Option<String>>, pack: &[u8]) -> (calls: Vec<
    WriterCall,
>)
    ensures
        calls_view(calls@) == response(options@, resolved_names(resolved@), pack@),
{
    let mut calls: Vec<WriterCall> = Vec::new();
    assert(calls_view(calls@) =~= Seq::empty());
    if let Some(acknowledged) = process_haves(options, resolved) {
        append_calls(&mut calls, acknowledged);
    }
    if let Some(wanted) = process_wants(options, pack) {
        append_calls(&mut calls, wanted);
    }
    push_call(&mut calls, WriterCall::Flush);
    assert(calls_view(calls@) =~= response(options@, resolved_names(resolved@), pack@));
    calls
}

} // verus!
