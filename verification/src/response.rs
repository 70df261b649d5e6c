//! The untyped wire response and its decoding onto typed shapes.
//!
//! A raw response has exactly one of six shapes. A caller asks for one of
//! seven target shapes; every pair has an explicit, total mapping: the
//! identity (wrapped for the optional targets, where a null becomes the
//! absent value) where the shapes agree, and a type-mismatch error naming
//! both the requested and the received shape everywhere else. There is no
//! coercion: a string is never read as an integer.

use crate::command::{expected_shape_spec, CommandKind};
use crate::errors::{CommandError, ExpectedShape, ResponseShape};
use vstd::prelude::*;

verus! {

/// One key/value pair of a string-to-string mapping entry.
#[derive(Debug)]
pub struct Entry {
    pub key: String,
    pub value: String,
}

/// An untyped wire response, already parsed by the transport collaborator.
#[derive(Debug)]
pub enum RawResponse {
    Null,
    Boolean(bool),
    Integer(i64),
    Str(String),
    StrList(Vec<String>),
    MappingList(Vec<Vec<Entry>>),
}

/// A decoded response: the typed shape the caller asked for.
#[derive(Debug)]
pub enum DecodedValue {
    Boolean(bool),
    Integer(i64),
    Str(String),
    OptionalStr(Option<String>),
    OptionalInt(Option<i64>),
    StrList(Vec<String>),
    MappingList(Vec<Vec<Entry>>),
}

impl RawResponse {
    /// The wire shape of this response.
    pub open spec fn spec_shape(self) -> ResponseShape {
        match self {
            RawResponse::Null => ResponseShape::Null,
            RawResponse::Boolean(_) => ResponseShape::Boolean,
            RawResponse::Integer(_) => ResponseShape::Integer,
            RawResponse::Str(_) => ResponseShape::Str,
            RawResponse::StrList(_) => ResponseShape::StrList,
            RawResponse::MappingList(_) => ResponseShape::MappingList,
        }
    }

    pub fn shape(&self) -> (r: ResponseShape)
        ensures
            r == self.spec_shape(),
    {
        match self {
            RawResponse::Null => ResponseShape::Null,
            RawResponse::Boolean(_) => ResponseShape::Boolean,
            RawResponse::Integer(_) => ResponseShape::Integer,
            RawResponse::Str(_) => ResponseShape::Str,
            RawResponse::StrList(_) => ResponseShape::StrList,
            RawResponse::MappingList(_) => ResponseShape::MappingList,
        }
    }
}

/// The full decode table: for every requested shape and every wire shape,
/// either the identity mapping or a type mismatch naming both shapes.
pub open spec fn decode_spec(expected: ExpectedShape, raw: RawResponse) -> Result<
    DecodedValue,
    CommandError,
> {
    match (expected, raw) {
        (ExpectedShape::Boolean, RawResponse::Boolean(b)) => Ok(DecodedValue::Boolean(b)),
        (ExpectedShape::Integer, RawResponse::Integer(i)) => Ok(DecodedValue::Integer(i)),
        (ExpectedShape::Str, RawResponse::Str(s)) => Ok(DecodedValue::Str(s)),
        (ExpectedShape::OptionalStr, RawResponse::Null) => Ok(DecodedValue::OptionalStr(None)),
        (ExpectedShape::OptionalStr, RawResponse::Str(s)) => Ok(
            DecodedValue::OptionalStr(Some(s)),
        ),
        (ExpectedShape::OptionalInt, RawResponse::Null) => Ok(DecodedValue::OptionalInt(None)),
        (ExpectedShape::OptionalInt, RawResponse::Integer(i)) => Ok(
            DecodedValue::OptionalInt(Some(i)),
        ),
        (ExpectedShape::StrList, RawResponse::StrList(v)) => Ok(DecodedValue::StrList(v)),
        (ExpectedShape::MappingList, RawResponse::MappingList(v)) => Ok(
            DecodedValue::MappingList(v),
        ),
        (e, r) => Err((CommandError::TypeMismatch { expected: e, actual: r.spec_shape() })),
    }
}

/// Decode a raw response as the requested shape, per the decode table.
pub fn decode(expected: ExpectedShape, raw: RawResponse) -> (r: Result<DecodedValue, CommandError>)
    ensures
        r == decode_spec(expected, raw),
{
    match (expected, raw) {
        (ExpectedShape::Boolean, RawResponse::Boolean(b)) => Ok(DecodedValue::Boolean(b)),
        (ExpectedShape::Integer, RawResponse::Integer(i)) => Ok(DecodedValue::Integer(i)),
        (ExpectedShape::Str, RawResponse::Str(s)) => Ok(DecodedValue::Str(s)),
        (ExpectedShape::OptionalStr, RawResponse::Null) => Ok(DecodedValue::OptionalStr(None)),
        (ExpectedShape::OptionalStr, RawResponse::Str(s)) => Ok(
            DecodedValue::OptionalStr(Some(s)),
        ),
        (ExpectedShape::OptionalInt, RawResponse::Null) => Ok(DecodedValue::OptionalInt(None)),
        (ExpectedShape::OptionalInt, RawResponse::Integer(i)) => Ok(
            DecodedValue::OptionalInt(Some(i)),
        ),
        (ExpectedShape::StrList, RawResponse::StrList(v)) => Ok(DecodedValue::StrList(v)),
        (ExpectedShape::MappingList, RawResponse::MappingList(v)) => Ok(
            DecodedValue::MappingList(v),
        ),
        (exp, rest) => {
            let actual = rest.shape();
            Err(CommandError::TypeMismatch { expected: exp, actual })
        },
    }
}

/// Decode a raw response as the shape the given command kind expects.
pub fn decode_for_kind(kind: CommandKind, raw: RawResponse) -> (r: Result<
    DecodedValue,
    CommandError,
>)
    requires
        kind !is Unknown,
    ensures
        expected_shape_spec(kind) matches Some(shape) && r == decode_spec(shape, raw),
{
    let shape_opt = crate::command::expected_shape(kind);
    proof {
        assert(shape_opt is Some);
    }
    let shape = shape_opt.unwrap();
    decode(shape, raw)
}

/// Decode as a boolean: the identity on a boolean response, a mismatch on
/// every other shape.
pub fn decode_boolean(raw: RawResponse) -> (r: Result<bool, CommandError>)
    ensures
        raw matches RawResponse::Boolean(b) ==> r == Ok::<bool, CommandError>(b),
        !(raw is Boolean) ==> r == Err::<bool, CommandError>(
            (CommandError::TypeMismatch {
                expected: ExpectedShape::Boolean,
                actual: raw.spec_shape(),
            }),
        ),
{
    match raw {
        RawResponse::Boolean(b) => Ok(b),
        other => {
            let actual = other.shape();
            Err(CommandError::TypeMismatch { expected: ExpectedShape::Boolean, actual })
        },
    }
}

/// Decode as an integer: the identity on an integer response, a mismatch
/// on every other shape.
pub fn decode_integer(raw: RawResponse) -> (r: Result<i64, CommandError>)
    ensures
        raw matches RawResponse::Integer(i) ==> r == Ok::<i64, CommandError>(i),
        !(raw is Integer) ==> r == Err::<i64, CommandError>(
            (CommandError::TypeMismatch {
                expected: ExpectedShape::Integer,
                actual: raw.spec_shape(),
            }),
        ),
{
    match raw {
        RawResponse::Integer(i) => Ok(i),
        other => {
            let actual = other.shape();
            Err(CommandError::TypeMismatch { expected: ExpectedShape::Integer, actual })
        },
    }
}

/// Decode as a string: the identity on a string response, a mismatch on
/// every other shape.
pub fn decode_string(raw: RawResponse) -> (r: Result<String, CommandError>)
    ensures
        raw matches RawResponse::Str(s) ==> r == Ok::<String, CommandError>(s),
        !(raw is Str) ==> r == Err::<String, CommandError>(
            (CommandError::TypeMismatch { expected: ExpectedShape::Str, actual: raw.spec_shape() }),
        ),
{
    match raw {
        RawResponse::Str(s) => Ok(s),
        other => {
            let actual = other.shape();
            Err(CommandError::TypeMismatch { expected: ExpectedShape::Str, actual })
        },
    }
}

/// Decode as an optional string: a null response is the absent value,
/// never an error; a string response is present; everything else is a
/// mismatch.
pub fn decode_optional_string(raw: RawResponse) -> (r: Result<Option<String>, CommandError>)
    ensures
        raw is Null ==> r == Ok::<Option<String>, CommandError>(None),
        raw matches RawResponse::Str(s) ==> r == Ok::<Option<String>, CommandError>(Some(s)),
        !(raw is Null) && !(raw is Str) ==> r == Err::<Option<String>, CommandError>(
            (CommandError::TypeMismatch {
                expected: ExpectedShape::OptionalStr,
                actual: raw.spec_shape(),
            }),
        ),
{
    match raw {
        RawResponse::Null => Ok(None),
        RawResponse::Str(s) => Ok(Some(s)),
        other => {
            let actual = other.shape();
            Err(CommandError::TypeMismatch { expected: ExpectedShape::OptionalStr, actual })
        },
    }
}

/// Decode as an optional integer: a null response is the absent value, an
/// integer response is present; everything else is a mismatch.
pub fn decode_optional_integer(raw: RawResponse) -> (r: Result<Option<i64>, CommandError>)
    ensures
        raw is Null ==> r == Ok::<Option<i64>, CommandError>(None),
        raw matches RawResponse::Integer(i) ==> r == Ok::<Option<i64>, CommandError>(Some(i)),
        !(raw is Null) && !(raw is Integer) ==> r == Err::<Option<i64>, CommandError>(
            (CommandError::TypeMismatch {
                expected: ExpectedShape::OptionalInt,
                actual: raw.spec_shape(),
            }),
        ),
{
    match raw {
        RawResponse::Null => Ok(None),
        RawResponse::Integer(i) => Ok(Some(i)),
        other => {
            let actual = other.shape();
            Err(CommandError::TypeMismatch { expected: ExpectedShape::OptionalInt, actual })
        },
    }
}

/// Decode as an ordered sequence of strings: the identity on a
/// list-of-string response, a mismatch on every other shape.
pub fn decode_string_list(raw: RawResponse) -> (r: Result<Vec<String>, CommandError>)
    ensures
        raw matches RawResponse::StrList(v) ==> r == Ok::<Vec<String>, CommandError>(v),
        !(raw is StrList) ==> r == Err::<Vec<String>, CommandError>(
            (CommandError::TypeMismatch {
                expected: ExpectedShape::StrList,
                actual: raw.spec_shape(),
            }),
        ),
{
    match raw {
        RawResponse::StrList(v) => Ok(v),
        other => {
            let actual = other.shape();
            Err(CommandError::TypeMismatch { expected: ExpectedShape::StrList, actual })
        },
    }
}

/// Decode as an ordered sequence of string-to-string mappings: the
/// identity on a list-of-mapping response, a mismatch on every other
/// shape.
pub fn decode_mapping_list(raw: RawResponse) -> (r: Result<Vec<Vec<Entry>>, CommandError>)
    ensures
        raw matches RawResponse::MappingList(v) ==> r == Ok::<Vec<Vec<Entry>>, CommandError>(v),
        !(raw is MappingList) ==> r == Err::<Vec<Vec<Entry>>, CommandError>(
            (CommandError::TypeMismatch {
                expected: ExpectedShape::MappingList,
                actual: raw.spec_shape(),
            }),
        ),
{
    match raw {
        RawResponse::MappingList(v) => Ok(v),
        other => {
            let actual = other.shape();
            Err(CommandError::TypeMismatch { expected: ExpectedShape::MappingList, actual })
        },
    }
}

/// The value of the first entry with the given key, if any.
pub open spec fn lookup_spec(m: Seq<Entry>, k: Seq<char>) -> Option<Seq<char>>
    decreases m.len(),
{
    if m.len() == 0 {
        None
    } else if m[0].key@ == k {
        Some(m[0].value@)
    } else {
        lookup_spec(m.drop_first(), k)
    }
}

/// Look a key up in one mapping entry: the value of the first pair whose
/// key equals the given key.
pub fn lookup<'a>(m: &'a Vec<Entry>, key: &String) -> (r: Option<&'a String>)
    ensures
        r matches Some(v) ==> lookup_spec(m@, key@) == Some(v@),
        r is None <==> lookup_spec(m@, key@) is None,
{
    let mut i: usize = 0;
    proof {
        assert(m@.skip(0) =~= m@);
    }
    while i < m.len()
        invariant
            i <= m@.len(),
            lookup_spec(m@, key@) == lookup_spec(m@.skip(i as int), key@),
            forall|j: int| 0 <= j < i ==> m@[j].key@ != key@,
        decreases m@.len() - i,
    {
        proof {
            assert(m@.skip(i as int)[0] == m@[i as int]);
            assert(m@.skip(i as int).drop_first() =~= m@.skip(i as int + 1));
        }
        if m[i].key == *key {
            return Some(&m[i].value);
        }
        i = i + 1;
    }
    proof {
        assert(m@.skip(i as int) =~= Seq::<Entry>::empty());
    }
    None
}

} // verus!
