//! Quote-aware command-line tokenizer.
//!
//! A line is scanned character by character while an "inside quotes" flag
//! is maintained. Spaces outside quotes end the token being built, spaces
//! inside quotes belong to it, and a double quote toggles the flag; on the
//! inside-to-outside transition a non-empty buffer is emitted even without
//! a trailing space. A line that ends inside an open quote is rejected
//! wholesale: no partial token list is returned.

use crate::errors::TokenizeError;
use vstd::prelude::*;

verus! {

/// The scanning state: the tokens emitted so far, the buffer of the token
/// currently being built, and whether the scan stands inside double quotes.
#[verifier::ext_equal]
pub ghost struct TokState {
    pub tokens: Seq<Seq<char>>,
    pub buf: Seq<char>,
    pub in_quotes: bool,
}

/// The state before any character has been read.
pub open spec fn tok_init() -> TokState {
    TokState { tokens: Seq::empty(), buf: Seq::empty(), in_quotes: false }
}

/// One step of the scan: how a single character changes the state.
pub open spec fn tok_step(st: TokState, c: char) -> TokState {
    if c == ' ' {
        if st.in_quotes {
            TokState { buf: st.buf.push(c), ..st }
        } else if st.buf.len() > 0 {
            TokState { tokens: st.tokens.push(st.buf), buf: Seq::empty(), ..st }
        } else {
            st
        }
    } else if c == '"' {
        if st.in_quotes {
            if st.buf.len() > 0 {
                TokState { tokens: st.tokens.push(st.buf), buf: Seq::empty(), in_quotes: false }
            } else {
                TokState { in_quotes: false, ..st }
            }
        } else {
            TokState { in_quotes: true, ..st }
        }
    } else {
        TokState { buf: st.buf.push(c), ..st }
    }
}

/// The scan folded over a whole character sequence, front to back.
pub open spec fn tok_fold(st: TokState, s: Seq<char>) -> TokState
    decreases s.len(),
{
    if s.len() == 0 {
        st
    } else {
        tok_fold(tok_step(st, s[0]), s.drop_first())
    }
}

/// The state after scanning the first `i` characters of a line.
pub open spec fn tok_scan_prefix(s: Seq<char>, i: int) -> TokState {
    tok_fold(tok_init(), s.take(i))
}

/// The state after scanning a whole line.
pub open spec fn tok_scan(s: Seq<char>) -> TokState {
    tok_fold(tok_init(), s)
}

/// Every double quote opened in the line is closed again.
pub open spec fn balanced_quotes(s: Seq<char>) -> bool {
    !tok_scan(s).in_quotes
}

/// End of input: a non-empty buffer is emitted as the final token.
pub open spec fn finish(st: TokState) -> Seq<Seq<char>> {
    if st.buf.len() > 0 {
        st.tokens.push(st.buf)
    } else {
        st.tokens
    }
}

/// The token sequence of a line with balanced quotes.
pub open spec fn spec_tokens(s: Seq<char>) -> Seq<Seq<char>> {
    finish(tok_scan(s))
}

/// Folding a sequence extended by one character takes one more step.
pub(crate) proof fn lemma_tok_fold_snoc(st: TokState, s: Seq<char>, c: char)
    ensures
        tok_fold(st, s.push(c)) == tok_step(tok_fold(st, s), c),
    decreases s.len(),
{
    reveal_with_fuel(tok_fold, 3);
    if s.len() == 0 {
        assert(s.push(c)[0] == c);
        assert(s.push(c).drop_first() =~= Seq::<char>::empty());
    } else {
        assert(s.push(c)[0] == s[0]);
        assert(s.push(c).drop_first() =~= s.drop_first().push(c));
        lemma_tok_fold_snoc(tok_step(st, s[0]), s.drop_first(), c);
    }
}

/// Folding a concatenation folds the two halves in turn.
pub(crate) proof fn lemma_tok_fold_concat(st: TokState, s1: Seq<char>, s2: Seq<char>)
    ensures
        tok_fold(st, s1 + s2) == tok_fold(tok_fold(st, s1), s2),
    decreases s1.len(),
{
    reveal_with_fuel(tok_fold, 3);
    if s1.len() == 0 {
        assert(s1 + s2 =~= s2);
    } else {
        assert((s1 + s2)[0] == s1[0]);
        assert((s1 + s2).drop_first() =~= s1.drop_first() + s2);
        lemma_tok_fold_concat(tok_step(st, s1[0]), s1.drop_first(), s2);
    }
}

/// Folding a single character is one step.
pub(crate) proof fn lemma_tok_fold_one(st: TokState, c: char)
    ensures
        tok_fold(st, seq![c]) == tok_step(st, c),
{
    reveal_with_fuel(tok_fold, 2);
    assert(seq![c].drop_first() =~= Seq::<char>::empty());
    assert(seq![c][0] == c);
}

/// Folding a run without spaces and quotes, outside quotes, only grows
/// the buffer by that run.
pub(crate) proof fn lemma_tok_fold_plain(st: TokState, s: Seq<char>)
    requires
        !st.in_quotes,
        forall|i: int| 0 <= i < s.len() ==> s[i] != ' ' && s[i] != '"',
    ensures
        tok_fold(st, s) == (TokState { buf: st.buf + s, ..st }),
    decreases s.len(),
{
    if s.len() == 0 {
        assert(st.buf + s =~= st.buf);
        assert(tok_fold(st, s) =~= (TokState { buf: st.buf + s, ..st }));
    } else {
        lemma_tok_fold_plain(tok_step(st, s[0]), s.drop_first());
        assert(st.buf.push(s[0]) + s.drop_first() =~= st.buf + s);
        assert(tok_fold(st, s) =~= (TokState { buf: st.buf + s, ..st }));
    }
}

/// The line contains no double quote at all.
pub open spec fn quote_free(s: Seq<char>) -> bool {
    forall|i: int| 0 <= i < s.len() ==> s[i] != '"'
}

/// The number of maximal runs of non-space characters in the line: the
/// number of positions where a non-space character follows a space or
/// starts the line.
pub open spec fn run_count(s: Seq<char>) -> nat
    decreases s.len(),
{
    if s.len() == 0 {
        0
    } else {
        run_count(s.drop_last()) + (if s.last() != ' ' && (s.len() == 1 || s[s.len() - 2] == ' ') {
            1nat
        } else {
            0nat
        })
    }
}

proof fn lemma_scan_quote_free(s: Seq<char>)
    requires
        quote_free(s),
    ensures
        !tok_scan(s).in_quotes,
        tok_scan(s).tokens.len() + (if tok_scan(s).buf.len() > 0 {
            1nat
        } else {
            0nat
        }) == run_count(s),
        tok_scan(s).buf.len() > 0 <==> (s.len() > 0 && s.last() != ' '),
    decreases s.len(),
{
    if s.len() > 0 {
        assert forall|i: int| 0 <= i < s.drop_last().len() implies s.drop_last()[i] != '"' by {
            assert(s.drop_last()[i] == s[i]);
        }
        lemma_scan_quote_free(s.drop_last());
        lemma_tok_fold_snoc(tok_init(), s.drop_last(), s.last());
        assert(s.drop_last().push(s.last()) =~= s);
        assert(s.last() == s[s.len() - 1]);
        if s.len() > 1 {
            assert(s.drop_last().last() == s[s.len() - 2]);
        }
    }
}

/// Law of the tokenizer on quote-free lines: tokenization succeeds and
/// the number of tokens equals the number of maximal non-space runs.
///
/// On lines that do use quotes the run count and the token count can
/// differ, because closing a quote emits the buffered token even when no
/// space follows: two adjacent quoted segments form one non-space run but
/// two tokens.
pub proof fn lemma_token_count_quote_free(s: Seq<char>)
    requires
        quote_free(s),
    ensures
        balanced_quotes(s),
        spec_tokens(s).len() == run_count(s),
{
    lemma_scan_quote_free(s);
}

/// Every token of the sequence is non-empty.
pub open spec fn no_empty_tokens(toks: Seq<Seq<char>>) -> bool {
    forall|i: int| 0 <= i < toks.len() ==> toks[i].len() > 0
}

proof fn lemma_fold_no_empty(st: TokState, s: Seq<char>)
    requires
        no_empty_tokens(st.tokens),
    ensures
        no_empty_tokens(tok_fold(st, s).tokens),
    decreases s.len(),
{
    if s.len() > 0 {
        let st1 = tok_step(st, s[0]);
        assert forall|i: int| 0 <= i < st1.tokens.len() implies st1.tokens[i].len() > 0 by {
            if i < st.tokens.len() {
                assert(st.tokens[i].len() > 0);
            }
        }
        lemma_fold_no_empty(st1, s.drop_first());
    }
}

/// Law of the tokenizer: no line ever yields an empty token. A token is
/// emitted only from a non-empty buffer, whether a space, a closing quote
/// or the end of input ends it.
pub proof fn lemma_no_empty_tokens(s: Seq<char>)
    ensures
        no_empty_tokens(spec_tokens(s)),
{
    lemma_fold_no_empty(tok_init(), s);
}

/// Relies on String::push: appends one character at the end of the string.
#[verifier::external_body]
fn push_char(s: &mut String, c: char)
    ensures
        final(s)@ == old(s)@.push(c),
{
    s.push(c);
}

/// Split a raw input line into its ordered token sequence.
///
/// Succeeds exactly on lines with balanced quotes and then returns the
/// tokens of the scan; on an unterminated quote the whole line is
/// rejected and no tokens are surfaced.
pub fn tokenize(input: String) -> (r: Result<Vec<String>, TokenizeError>)
    ensures
        r is Ok <==> balanced_quotes(input@),
        r matches Ok(tokens) ==> tokens.deep_view() == spec_tokens(input@),
        !balanced_quotes(input@) ==> r == Err::<Vec<String>, TokenizeError>(
            TokenizeError::MalformedInput,
        ),
{
    let n: usize = input.as_str().unicode_len();
    let mut tokens: Vec<String> = Vec::new();
    let mut token: String = String::new();
    let mut open_quotes: bool = false;
    let mut i: usize = 0;

    proof {
        assert(input@.take(0) =~= Seq::<char>::empty());
        assert(tokens.deep_view() =~= Seq::<Seq<char>>::empty());
    }

    while i < n
        invariant
            n == input@.len(),
            i <= n,
            tokens.deep_view() == tok_scan_prefix(input@, i as int).tokens,
            token@ == tok_scan_prefix(input@, i as int).buf,
            open_quotes == tok_scan_prefix(input@, i as int).in_quotes,
        decreases n - i,
    {
        let c = input.as_str().get_char(i);
        proof {
            assert(input@.take(i as int + 1) =~= input@.take(i as int).push(c));
            lemma_tok_fold_snoc(tok_init(), input@.take(i as int), c);
        }
        let ghost pre = tokens.deep_view();
        if c == ' ' {
            if open_quotes {
                push_char(&mut token, c);
            } else if !token.as_str().is_empty() {
                tokens.push(token);
                token = String::new();
                proof {
                    assert(tokens.deep_view() =~~= pre.push(tok_scan_prefix(input@, i as int).buf));
                }
            }
        } else if c == '"' {
            if open_quotes {
                if !token.as_str().is_empty() {
                    tokens.push(token);
                    token = String::new();
                    proof {
                        assert(tokens.deep_view() =~~= pre.push(
                            tok_scan_prefix(input@, i as int).buf,
                        ));
                    }
                }
                open_quotes = false;
            } else {
                open_quotes = true;
            }
        } else {
            push_char(&mut token, c);
        }
        i = i + 1;
    }

    proof {
        assert(input@.take(n as int) =~= input@);
    }

    if !token.as_str().is_empty() {
        let ghost pre = tokens.deep_view();
        tokens.push(token);
        proof {
            assert(tokens.deep_view() =~~= pre.push(tok_scan(input@).buf));
        }
    }

    if open_quotes {
        return Err(TokenizeError::MalformedInput);
    }

    Ok(tokens)
}

} // verus!
