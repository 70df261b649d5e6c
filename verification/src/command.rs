//! The outbound command: an ordered token list, and the lookup that maps
//! a command name, case-insensitively, onto the finite vocabulary of
//! known commands together with the decode shape each one expects.

use crate::errors::{ExpectedShape, TokenizeError};
use crate::tokenizer::{balanced_quotes, spec_tokens, tokenize};
use vstd::prelude::*;

verus! {

/// An outbound request: the command name followed by its positional
/// arguments, kept exactly in the order the caller supplied them.
#[derive(Debug)]
pub struct Command {
    tokens: Vec<String>,
}

impl View for Command {
    type V = Seq<Seq<char>>;

    closed spec fn view(&self) -> Seq<Seq<char>> {
        self.tokens.deep_view()
    }
}

impl Command {
    /// A command with no tokens yet. It is not valid to send until at
    /// least the name token has been supplied.
    pub fn new() -> (r: Command)
        ensures
            r@ == Seq::<Seq<char>>::empty(),
    {
        let tokens: Vec<String> = Vec::new();
        proof {
            assert(tokens.deep_view() =~~= Seq::<Seq<char>>::empty());
        }
        Command { tokens }
    }

    /// Append one token at the end; no reordering, no deduplication.
    pub fn arg(&mut self, token: String)
        ensures
            final(self)@ == old(self)@.push(token@),
    {
        let ghost pre = self.tokens.deep_view();
        self.tokens.push(token);
        proof {
            assert(self.tokens.deep_view() =~~= pre.push(token@));
        }
    }

    /// A command holding exactly the given tokens, in their order.
    pub fn from_tokens(tokens: Vec<String>) -> (r: Command)
        ensures
            r@ == tokens.deep_view(),
    {
        Command { tokens }
    }

    /// The ordered token list, name first.
    pub fn tokens(&self) -> (r: &Vec<String>)
        ensures
            r.deep_view() == self@,
    {
        &self.tokens
    }

    pub fn len(&self) -> (n: usize)
        ensures
            n == self@.len(),
    {
        self.tokens.len()
    }

    /// A command may be dispatched only once it has a name token.
    pub open spec fn spec_valid(self) -> bool {
        self@.len() >= 1
    }

    pub fn is_valid(&self) -> (r: bool)
        ensures
            r == self.spec_valid(),
    {
        self.tokens.len() >= 1
    }

    /// The command kind: the vocabulary lookup of the lowercased name.
    pub fn kind(&self) -> (r: CommandKind)
        requires
            self.spec_valid(),
        ensures
            r == kind_spec(self@[0]),
    {
        proof {
            assert(self.tokens.deep_view()[0] == self.tokens@[0]@);
        }
        kind_of(&self.tokens[0])
    }
}

/// The finite vocabulary of known commands, with an explicit variant for
/// an unknown name.
#[derive(Clone, Copy, Debug, PartialEq, Eq, Structural)]
pub enum CommandKind {
    Create,
    SetValue,
    GetValue,
    Del,
    DropKeyspace,
    Count,
    Ttl,
    Ping,
    Keyspaces,
    Unknown,
}

/// ASCII lowercasing of one character; every other character is kept.
pub open spec fn lower_char(c: char) -> char {
    match c {
        'A' => 'a',
        'B' => 'b',
        'C' => 'c',
        'D' => 'd',
        'E' => 'e',
        'F' => 'f',
        'G' => 'g',
        'H' => 'h',
        'I' => 'i',
        'J' => 'j',
        'K' => 'k',
        'L' => 'l',
        'M' => 'm',
        'N' => 'n',
        'O' => 'o',
        'P' => 'p',
        'Q' => 'q',
        'R' => 'r',
        'S' => 's',
        'T' => 't',
        'U' => 'u',
        'V' => 'v',
        'W' => 'w',
        'X' => 'x',
        'Y' => 'y',
        'Z' => 'z',
        _ => c,
    }
}

/// ASCII lowercasing of a whole name.
pub open spec fn lower(s: Seq<char>) -> Seq<char> {
    s.map_values(|c: char| lower_char(c))
}

fn lower_char_exec(c: char) -> (r: char)
    ensures
        r == lower_char(c),
{
    match c {
        'A' => 'a',
        'B' => 'b',
        'C' => 'c',
        'D' => 'd',
        'E' => 'e',
        'F' => 'f',
        'G' => 'g',
        'H' => 'h',
        'I' => 'i',
        'J' => 'j',
        'K' => 'k',
        'L' => 'l',
        'M' => 'm',
        'N' => 'n',
        'O' => 'o',
        'P' => 'p',
        'Q' => 'q',
        'R' => 'r',
        'S' => 's',
        'T' => 't',
        'U' => 'u',
        'V' => 'v',
        'W' => 'w',
        'X' => 'x',
        'Y' => 'y',
        'Z' => 'z',
        _ => c,
    }
}

/// Whether the ASCII-lowercased name equals the given literal.
fn eq_lower(s: &String, lit: &str) -> (r: bool)
    ensures
        r == (lower(s@) == lit@),
{
    let n: usize = s.as_str().unicode_len();
    let m: usize = lit.unicode_len();
    if n != m {
        proof {
            assert(lower(s@).len() == s@.len());
        }
        return false;
    }
    let mut i: usize = 0;
    while i < n
        invariant
            n == s@.len(),
            n == lit@.len(),
            i <= n,
            forall|j: int| 0 <= j < i ==> lower(s@)[j] == lit@[j],
        decreases n - i,
    {
        let c = lower_char_exec(s.as_str().get_char(i));
        let d = lit.get_char(i);
        if c != d {
            proof {
                assert(lower(s@)[i as int] != lit@[i as int]);
            }
            return false;
        }
        i = i + 1;
    }
    proof {
        assert(lower(s@) =~= lit@);
    }
    true
}

/// The vocabulary lookup: the kind whose name is the ASCII-lowercased
/// form of the given name, or the unknown variant.
pub open spec fn kind_spec(name: Seq<char>) -> CommandKind {
    let l = lower(name);
    if l == "create"@ {
        CommandKind::Create
    } else if l == "set"@ {
        CommandKind::SetValue
    } else if l == "get"@ {
        CommandKind::GetValue
    } else if l == "del"@ {
        CommandKind::Del
    } else if l == "drop"@ {
        CommandKind::DropKeyspace
    } else if l == "count"@ {
        CommandKind::Count
    } else if l == "ttl"@ {
        CommandKind::Ttl
    } else if l == "ping"@ {
        CommandKind::Ping
    } else if l == "keyspaces"@ {
        CommandKind::Keyspaces
    } else {
        CommandKind::Unknown
    }
}

/// Case-insensitive lookup of a command name in the vocabulary.
pub fn kind_of(name: &String) -> (r: CommandKind)
    ensures
        r == kind_spec(name@),
{
    if eq_lower(name, "create") {
        CommandKind::Create
    } else if eq_lower(name, "set") {
        CommandKind::SetValue
    } else if eq_lower(name, "get") {
        CommandKind::GetValue
    } else if eq_lower(name, "del") {
        CommandKind::Del
    } else if eq_lower(name, "drop") {
        CommandKind::DropKeyspace
    } else if eq_lower(name, "count") {
        CommandKind::Count
    } else if eq_lower(name, "ttl") {
        CommandKind::Ttl
    } else if eq_lower(name, "ping") {
        CommandKind::Ping
    } else if eq_lower(name, "keyspaces") {
        CommandKind::Keyspaces
    } else {
        CommandKind::Unknown
    }
}

/// The decode shape each known command's reply carries; an unknown
/// command has none and is rejected before dispatch.
pub open spec fn expected_shape_spec(kind: CommandKind) -> Option<ExpectedShape> {
    match kind {
        CommandKind::Create => Some(ExpectedShape::Boolean),
        CommandKind::SetValue => Some(ExpectedShape::Boolean),
        CommandKind::GetValue => Some(ExpectedShape::OptionalStr),
        CommandKind::Del => Some(ExpectedShape::Boolean),
        CommandKind::DropKeyspace => Some(ExpectedShape::Boolean),
        CommandKind::Count => Some(ExpectedShape::Integer),
        CommandKind::Ttl => Some(ExpectedShape::OptionalInt),
        CommandKind::Ping => Some(ExpectedShape::Str),
        CommandKind::Keyspaces => Some(ExpectedShape::MappingList),
        CommandKind::Unknown => None,
    }
}

pub fn expected_shape(kind: CommandKind) -> (r: Option<ExpectedShape>)
    ensures
        r == expected_shape_spec(kind),
{
    match kind {
        CommandKind::Create => Some(ExpectedShape::Boolean),
        CommandKind::SetValue => Some(ExpectedShape::Boolean),
        CommandKind::GetValue => Some(ExpectedShape::OptionalStr),
        CommandKind::Del => Some(ExpectedShape::Boolean),
        CommandKind::DropKeyspace => Some(ExpectedShape::Boolean),
        CommandKind::Count => Some(ExpectedShape::Integer),
        CommandKind::Ttl => Some(ExpectedShape::OptionalInt),
        CommandKind::Ping => Some(ExpectedShape::Str),
        CommandKind::Keyspaces => Some(ExpectedShape::MappingList),
        CommandKind::Unknown => None,
    }
}

/// Tokenize one input line into a command holding the whole token
/// sequence, name first. A line with an unterminated quote is rejected
/// wholesale.
pub fn command_from_line(line: String) -> (r: Result<Command, TokenizeError>)
    ensures
        r is Ok <==> balanced_quotes(line@),
        r matches Ok(cmd) ==> cmd@ == spec_tokens(line@),
{
    match tokenize(line) {
        Ok(tokens) => Ok(Command::from_tokens(tokens)),
        Err(e) => Err(e),
    }
}

} // verus!
