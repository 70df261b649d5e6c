//! Client-side command/response core for a keyspace-oriented store.
//!
//! The crate provides a quote-aware command-line tokenizer, a command
//! builder that keeps an ordered argument list, a decoder that maps an
//! untyped wire response onto one of a fixed set of typed shapes, and the
//! unified error taxonomy shared by all callers. The wire transport itself
//! is an external collaborator: it hands this core an already-parsed
//! [`response::RawResponse`] and takes a finished [`command::Command`].

pub mod command;
pub mod errors;
pub mod export;
pub mod response;
pub mod tokenizer;
