//! Server side of the Git smart transfer protocol: the decisions of a fetch
//! negotiation and of a push's reference updates, over plain values.
//!
//! The library reads the lines of a fetch request ([`fetch`]), writes the
//! acknowledgments ([`negotiation`]) and chooses and lays out the pack
//! ([`pack`]). For a push it tells, step by step, what is to happen to one
//! reference update ([`receive_pack`], [`reference`], [`commit`]) and where
//! the base of a delta is looked for ([`decoder`]). A response is the list
//! of calls to make on the transport's line writer ([`writer`]).
//!
//! Repositories, packs on disk and the reference store stay with the
//! caller: it performs what the library asks for and reports back what
//! happened.

pub mod commit;
pub mod decoder;
pub mod error;
pub mod fetch;
pub mod negotiation;
pub mod object;
pub mod pack;
pub mod receive_pack;
pub mod reference;
pub mod text;
pub mod writer;
