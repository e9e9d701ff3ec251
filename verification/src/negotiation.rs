//! Acknowledging what the client has.

use vstd::prelude::*;
use vstd::string::*;
use crate::fetch::Fetch;
use crate::writer::{Call, WriterCall, calls_view, push_call};

verus! {

/// What became of each have: the full name of the reference that it
/// resolved to, or nothing where it did not resolve.
pub open spec fn resolved_names(resolved: Seq<Option<String>>) -> Seq<Option<Seq<char>>> {
    resolved.map_values(
        |name: Option<String>|
            match name {
                Some(name) => Some(name@),
                None => None,
            },
    )
}

/// The line that acknowledges a have, if it resolved.
pub open spec fn ack_of() -> spec_fn(Option<Seq<char>>) -> Option<Call> {
    |name: Option<Seq<char>>|
        match name {
            Some(name) => Some(Call::Text("ACK "@ + name)),
            None => None,
        }
}

/// One acknowledging line for each have that resolved, in order.
pub open spec fn ack_lines(names: Seq<Option<Seq<char>>>) -> Seq<Call> {
    names.filter_map(ack_of())
}

/// The acknowledgments section: none where the client has nothing; else the
/// section's header, then the acknowledging lines or, where there is none,
/// the one line that says so.
pub open spec fn acknowledgments(have: Seq<Seq<char>>, names: Seq<Option<Seq<char>>>) -> Option<
    Seq<Call>,
> {
    if have.len() == 0 {
        None
    } else if ack_lines(names).len() == 0 {
        Some(seq![Call::Text("acknowledgments"@), Call::Text("NAK"@)])
    } else {
        Some(seq![Call::Text("acknowledgments"@)] + ack_lines(names))
    }
}

/// Whether `call` writes an acknowledging line.
pub open spec fn is_ack(call: Call) -> bool {
    call matches Call::Text(line) && line.len() >= 4 && line.subrange(0, 4) == "ACK "@
}

/// Whether `call` writes the line that says that nothing was acknowledged.
pub open spec fn is_nak(call: Call) -> bool {
    call == Call::Text("NAK"@)
}

/// The test for an acknowledging line.
pub open spec fn ack_test() -> spec_fn(Call) -> bool {
    |call: Call| is_ack(call)
}

/// The test for the line that says that nothing was acknowledged.
pub open spec fn nak_test() -> spec_fn(Call) -> bool {
    |call: Call| is_nak(call)
}

/// The test for a have that resolved.
pub open spec fn resolved_test() -> spec_fn(Option<Seq<char>>) -> bool {
    |name: Option<Seq<char>>| name is Some
}

/// How many calls of `calls` write an acknowledging line.
pub open spec fn ack_count(calls: Seq<Call>) -> nat {
    calls.filter(ack_test()).len()
}

/// How many calls of `calls` write the line that says that nothing was
/// acknowledged.
pub open spec fn nak_count(calls: Seq<Call>) -> nat {
    calls.filter(nak_test()).len()
}

/// How many haves of `names` resolved.
pub open spec fn resolved_count(names: Seq<Option<Seq<char>>>) -> nat {
    names.filter(resolved_test()).len()
}

proof fn lemma_ack_lines_push(names: Seq<Option<Seq<char>>>, name: Option<Seq<char>>)
    ensures
        ack_lines(names.push(name)) == match name {
            Some(name) => ack_lines(names).push(Call::Text("ACK "@ + name)),
            None => ack_lines(names),
        },
{
    assert(names.push(name).drop_last() =~= names);
    match name {
        Some(n) => {
            assert(ack_lines(names) + seq![Call::Text("ACK "@ + n)] =~= ack_lines(names).push(
                Call::Text("ACK "@ + n),
            ));
        },
        None => {},
    }
}

/// Writes the acknowledgments section for the haves of `options`, of which
/// `resolved` tells, one by one, the reference that each resolved to.
pub fn process_haves(options: &Fetch, resolved: &Vec<Option<String>>) -> (section: Option<
    Vec<WriterCall>,
>)
    ensures
        match section {
            Some(calls) => acknowledgments(options@.have, resolved_names(resolved@)) == Some(
                calls_view(calls@),
            ),
            None => acknowledgments(options@.have, resolved_names(resolved@)) is None,
        },
{
    if options.have.len() == 0 {
        return None;
    }
    let ghost names = resolved_names(resolved@);
    let mut written_one = false;
    let mut calls: Vec<WriterCall> = Vec::new();
    push_call(&mut calls, WriterCall::Text(String::from_str("acknowledgments")));
    let mut i: usize = 0;
    proof {
        assert(names.take(0) =~= Seq::empty());
        assert(calls_view(calls@) =~= seq![Call::Text("acknowledgments"@)] + ack_lines(
            names.take(0),
        ));
    }
    while i < resolved.len()
        invariant
            i <= resolved.len(),
            names == resolved_names(resolved@),
            calls_view(calls@) == seq![Call::Text("acknowledgments"@)] + ack_lines(
                names.take(i as int),
            ),
            written_one == (ack_lines(names.take(i as int)).len() > 0),
        decreases resolved.len() - i,
    {
        proof {
            assert(names.take(i + 1) =~= names.take(i as int).push(names[i as int]));
            lemma_ack_lines_push(names.take(i as int), names[i as int]);
        }
        match &resolved[i] {
            Some(name) => {
                let mut line = String::from_str("ACK ");
                line.append(name.as_str());
                push_call(&mut calls, WriterCall::Text(line));
                written_one = true;
                assert(calls_view(calls@) =~= seq![Call::Text("acknowledgments"@)] + ack_lines(
                    names.take(i + 1),
                ));
            },
            None => {},
        }
        i += 1;
    }
    proof {
        assert(names.take(i as int) =~= names);
    }
    if !written_one {
        push_call(&mut calls, WriterCall::Text(String::from_str("NAK")));
        assert(calls_view(calls@) =~= seq![Call::Text("acknowledgments"@), Call::Text("NAK"@)]);
    }
    Some(calls)
}

proof fn lemma_ack_lines_counts(names: Seq<Option<Seq<char>>>)
    ensures
        ack_lines(names).len() == resolved_count(names),
        ack_count(ack_lines(names)) == resolved_count(names),
        nak_count(ack_lines(names)) == 0,
    decreases names.len(),
{
    reveal(Seq::filter);
    if names.len() > 0 {
        let init = names.drop_last();
        let last = names.last();
        assert(names =~= init.push(last));
        lemma_ack_lines_counts(init);
        lemma_ack_lines_push(init, last);
        init.lemma_filter_len_push(resolved_test(), last);
        match last {
            Some(name) => {
                let call = Call::Text("ACK "@ + name);
                reveal_strlit("ACK ");
                reveal_strlit("NAK");
                assert(("ACK "@ + name).subrange(0, 4) =~= "ACK "@);
                assert(is_ack(call));
                assert(!is_nak(call));
                ack_lines(init).lemma_filter_len_push(ack_test(), call);
                ack_lines(init).lemma_filter_len_push(nak_test(), call);
            },
            None => {},
        }
    }
}

proof fn lemma_header_counts()
    ensures
        ack_count(seq![Call::Text("acknowledgments"@)]) == 0,
        nak_count(seq![Call::Text("acknowledgments"@)]) == 0,
        ack_count(seq![Call::Text("NAK"@)]) == 0,
        nak_count(seq![Call::Text("NAK"@)]) == 1,
{
    reveal_strlit("acknowledgments");
    reveal_strlit("ACK ");
    reveal_strlit("NAK");
    let header = Call::Text("acknowledgments"@);
    let nak = Call::Text("NAK"@);
    assert("acknowledgments"@.subrange(0, 4)[0] == 'a');
    assert(!is_ack(header));
    assert(!is_nak(header));
    assert(!is_ack(nak));
    assert(is_nak(nak));
    let none = Seq::<Call>::empty();
    assert(seq![header] =~= none.push(header));
    assert(seq![nak] =~= none.push(nak));
    reveal(Seq::filter);
    assert(none.filter(ack_test()).len() == 0);
    assert(none.filter(nak_test()).len() == 0);
    none.lemma_filter_len_push(ack_test(), header);
    none.lemma_filter_len_push(nak_test(), header);
    none.lemma_filter_len_push(ack_test(), nak);
    none.lemma_filter_len_push(nak_test(), nak);
}

/// Where the client has something and none of it resolves, the section
/// holds exactly one line that says so and no acknowledging line.
pub proof fn law_nothing_resolved(have: Seq<Seq<char>>, names: Seq<Option<Seq<char>>>)
    requires
        have.len() > 0,
        forall|i: int| 0 <= i < names.len() ==> names[i] is None,
    ensures
        acknowledgments(have, names) is Some,
        nak_count(acknowledgments(have, names)->0) == 1,
        ack_count(acknowledgments(have, names)->0) == 0,
{
    lemma_ack_lines_counts(names);
    names.lemma_all_neg_filter_empty(resolved_test());
    lemma_header_counts();
    let header = seq![Call::Text("acknowledgments"@)];
    let nak = seq![Call::Text("NAK"@)];
    assert(acknowledgments(have, names)->0 =~= header + nak);
    Seq::filter_distributes_over_add(header, nak, ack_test());
    Seq::filter_distributes_over_add(header, nak, nak_test());
}

/// Where at least one have resolves, the section holds one acknowledging
/// line for each have that resolved, and no line that says that nothing
/// was acknowledged.
pub proof fn law_resolved_are_acknowledged(have: Seq<Seq<char>>, names: Seq<Option<Seq<char>>>)
    requires
        have.len() > 0,
        resolved_count(names) > 0,
    ensures
        acknowledgments(have, names) is Some,
        ack_count(acknowledgments(have, names)->0) == resolved_count(names),
        nak_count(acknowledgments(have, names)->0) == 0,
{
    lemma_ack_lines_counts(names);
    lemma_header_counts();
    let header = seq![Call::Text("acknowledgments"@)];
    Seq::filter_distributes_over_add(header, ack_lines(names), ack_test());
    Seq::filter_distributes_over_add(header, ack_lines(names), nak_test());
}

} // verus!
