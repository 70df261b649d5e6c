//! The unified error taxonomy of the command/response core.

use vstd::prelude::*;

verus! {

/// The shape a caller asked the decoder for.
#[derive(Clone, Copy, Debug, PartialEq, Eq, Structural)]
pub enum ExpectedShape {
    Boolean,
    Integer,
    Str,
    OptionalStr,
    OptionalInt,
    StrList,
    MappingList,
}

/// The shape a raw wire response actually has.
#[derive(Clone, Copy, Debug, PartialEq, Eq, Structural)]
pub enum ResponseShape {
    Null,
    Boolean,
    Integer,
    Str,
    StrList,
    MappingList,
}

/// Failure of the tokenizer: the input line ended inside an open quote.
#[derive(Clone, Copy, Debug, PartialEq, Eq, Structural)]
pub enum TokenizeError {
    MalformedInput,
}

/// The closed error sum type surfaced to every caller of the core.
///
/// The four kinds do not overlap: transport failures come from the
/// collaborator, a type mismatch is a decode-time caller error carrying
/// the requested and the received shape, and a server error carries the
/// server's literal message, never parsed further.
#[derive(Debug)]
pub enum CommandError {
    ConnectionFailure,
    ProtocolFailure,
    TypeMismatch { expected: ExpectedShape, actual: ResponseShape },
    ServerError(String),
}

} // verus!
