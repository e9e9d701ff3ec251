//! What a response is made of: the calls to make on the line writer of the
//! transport, in order.

use vstd::prelude::*;

verus! {

/// Band of the multiplexed channel that carries data.
pub const DATA_BAND: u8 = 1;

/// One call on the line writer.
#[derive(Clone, Debug, PartialEq, Eq)]
pub enum WriterCall {
    /// Write a line of text.
    Text(String),
    /// Write a chunk of bytes.
    Binary(Vec<u8>),
    /// Write the mark that ends a response.
    Flush,
}

/// A writer call as a mathematical value.
pub enum Call {
    Text(Seq<char>),
    Binary(Seq<u8>),
    Flush,
}

impl View for WriterCall {
    type V = Call;

    open spec fn view(&self) -> Call {
        match self {
            WriterCall::Text(line) => Call::Text(line@),
            WriterCall::Binary(bytes) => Call::Binary(bytes@),
            WriterCall::Flush => Call::Flush,
        }
    }
}

/// The calls of `calls` as mathematical values.
pub open spec fn calls_view(calls: Seq<WriterCall>) -> Seq<Call> {
    calls.map_values(|call: WriterCall| call@)
}

/// `payload` as it travels on the data band: the band's marker, then the
/// payload.
pub open spec fn on_data_band(payload: Seq<u8>) -> Seq<u8> {
    seq![DATA_BAND] + payload
}

/// Frames `payload` for the data band.
pub fn frame_data_band(payload: &[u8]) -> (framed: Vec<u8>)
    ensures
        framed@ == on_data_band(payload@),
{
    let mut framed: Vec<u8> = Vec::new();
    framed.push(DATA_BAND);
    let mut i: usize = 0;
    while i < payload.len()
        invariant
            i <= payload.len(),
            framed@ == seq![DATA_BAND] + payload@.subrange(0, i as int),
        decreases payload.len() - i,
    {
        framed.push(payload[i]);
        i += 1;
    }
    assert(payload@.subrange(0, payload.len() as int) == payload@);
    framed
}

/// Adds `call` to `calls`.
pub fn push_call(calls: &mut Vec<WriterCall>, call: WriterCall)
    ensures
        calls_view(final(calls)@) == calls_view(old(calls)@).push(call@),
{
    calls.push(call);
    assert(calls_view(calls@) =~= calls_view(old(calls)@).push(call@));
}

/// Moves the calls of `tail` to the end of `calls`.
pub fn append_calls(calls: &mut Vec<WriterCall>, tail: Vec<WriterCall>)
    ensures
        calls_view(final(calls)@) == calls_view(old(calls)@) + calls_view(tail@),
{
    let mut tail = tail;
    let ghost moved = tail@;
    calls.append(&mut tail);
    assert(calls_view(calls@) =~= calls_view(old(calls)@) + calls_view(moved));
}

} // verus!
