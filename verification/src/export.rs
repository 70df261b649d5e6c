//! Bulk export of keyspaces: one line per mapping entry of a keyspaces
//! reply, in the shape `create <name> evictor <policy>`, with the values
//! taken from the "name" and the "evictor" key of the entry.
//!
//! Replaying such a line through the restore path tokenizes it again; the
//! round-trip law at the end of this module says that for plain names the
//! tokens of an exported line are exactly the create command again.

use crate::response::{lookup, lookup_spec, Entry};
use crate::tokenizer::{
    balanced_quotes, lemma_tok_fold_concat, lemma_tok_fold_one, lemma_tok_fold_plain, spec_tokens,
    tok_fold, tok_init, tok_scan, tok_step,
};
use vstd::prelude::*;

verus! {

/// The exported line for one keyspace: its name and its eviction policy.
pub open spec fn export_line_spec(name: Seq<char>, evictor: Seq<char>) -> Seq<char> {
    "create "@ + name + " evictor "@ + evictor
}

/// The export line of one mapping entry, if it holds both the "name" and
/// the "evictor" key; entries missing either key yield no line.
pub fn export_line(m: &Vec<Entry>) -> (r: Option<String>)
    ensures
        r matches Some(line) ==> (lookup_spec(m@, "name"@) matches Some(n) && lookup_spec(
            m@,
            "evictor"@,
        ) matches Some(e) && line@ == export_line_spec(n, e)),
        r is None <==> (lookup_spec(m@, "name"@) is None || lookup_spec(m@, "evictor"@) is None),
{
    let name_key = String::from_str("name");
    let evictor_key = String::from_str("evictor");
    match (lookup(m, &name_key), lookup(m, &evictor_key)) {
        (Some(n), Some(e)) => {
            let mut line = String::from_str("create ");
            line.append(n.as_str());
            line.append(" evictor ");
            line.append(e.as_str());
            Some(line)
        },
        _ => None,
    }
}

/// The export lines of a whole keyspaces reply, in the reply's order.
pub open spec fn export_lines_spec(ms: Seq<Vec<Entry>>) -> Seq<Seq<char>>
    decreases ms.len(),
{
    if ms.len() == 0 {
        Seq::empty()
    } else {
        export_lines_spec(ms.drop_last()) + (match (
            lookup_spec(ms.last()@, "name"@),
            lookup_spec(ms.last()@, "evictor"@),
        ) {
            (Some(n), Some(e)) => seq![export_line_spec(n, e)],
            _ => Seq::<Seq<char>>::empty(),
        })
    }
}

/// Export every entry of a keyspaces reply, in order, skipping entries
/// that miss the "name" or the "evictor" key.
pub fn export_lines(ms: &Vec<Vec<Entry>>) -> (r: Vec<String>)
    ensures
        r.deep_view() == export_lines_spec(ms@),
{
    let mut out: Vec<String> = Vec::new();
    let mut i: usize = 0;
    proof {
        assert(ms@.take(0) =~= Seq::<Vec<Entry>>::empty());
        assert(out.deep_view() =~= export_lines_spec(ms@.take(0)));
    }
    while i < ms.len()
        invariant
            i <= ms@.len(),
            out.deep_view() == export_lines_spec(ms@.take(i as int)),
        decreases ms@.len() - i,
    {
        proof {
            assert(ms@.take(i as int + 1).drop_last() =~= ms@.take(i as int));
            assert(ms@.take(i as int + 1).last() == ms@[i as int]);
        }
        let ghost pre = out.deep_view();
        match export_line(&ms[i]) {
            Some(line) => {
                let ghost lv = line@;
                out.push(line);
                proof {
                    assert(out.deep_view() =~~= pre.push(lv));
                    assert(pre.push(lv) =~= pre + seq![lv]);
                }
            },
            None => {
                proof {
                    assert(export_lines_spec(ms@.take(i as int + 1)) =~= pre);
                }
            },
        }
        i = i + 1;
    }
    proof {
        assert(ms@.take(ms@.len() as int) =~= ms@);
    }
    out
}

/// A plain token: non-empty, without spaces and double quotes, so that it
/// comes through an export/restore round trip unchanged.
pub open spec fn plain_token(s: Seq<char>) -> bool {
    s.len() > 0 && forall|i: int| 0 <= i < s.len() ==> s[i] != ' ' && s[i] != '"'
}

/// Round-trip law of export and restore: for a keyspace whose name and
/// eviction policy are plain tokens, tokenizing its exported line
/// succeeds and yields exactly the four tokens of the create command that
/// the restore path replays: `create`, the name, `evictor`, the policy.
pub proof fn lemma_export_round_trip(name: Seq<char>, evictor: Seq<char>)
    requires
        plain_token(name),
        plain_token(evictor),
    ensures
        balanced_quotes(export_line_spec(name, evictor)),
        spec_tokens(export_line_spec(name, evictor)) == seq!["create"@, name, "evictor"@, evictor],
{
    reveal_strlit("create ");
    reveal_strlit("create");
    reveal_strlit(" evictor ");
    reveal_strlit("evictor");
    reveal_strlit(" ");

    let create_lit = "create"@;
    let evictor_lit = "evictor"@;
    let sp = " "@;
    assert(sp =~= seq![' ']);
    assert("create "@ =~= create_lit + sp);
    assert(" evictor "@ =~= sp + evictor_lit + sp);

    let line = export_line_spec(name, evictor);
    assert(line =~= create_lit + sp + name + sp + evictor_lit + sp + evictor);

    let st0 = tok_init();
    lemma_tok_fold_concat(st0, create_lit + sp + name + sp + evictor_lit + sp, evictor);
    lemma_tok_fold_concat(st0, create_lit + sp + name + sp + evictor_lit, sp);
    lemma_tok_fold_concat(st0, create_lit + sp + name + sp, evictor_lit);
    lemma_tok_fold_concat(st0, create_lit + sp + name, sp);
    lemma_tok_fold_concat(st0, create_lit + sp, name);
    lemma_tok_fold_concat(st0, create_lit, sp);

    assert(forall|i: int| 0 <= i < create_lit.len() ==> create_lit[i] != ' ' && create_lit[i]
        != '"');
    assert(forall|i: int| 0 <= i < evictor_lit.len() ==> evictor_lit[i] != ' ' && evictor_lit[i]
        != '"');

    lemma_tok_fold_plain(st0, create_lit);
    let st1 = tok_fold(st0, create_lit);
    assert(st1.buf =~= create_lit);
    lemma_tok_fold_one(st1, ' ');
    let st2 = tok_fold(st1, sp);
    assert(st2 == tok_step(st1, ' '));
    assert(st2.tokens =~= seq![create_lit]);
    assert(st2.buf.len() == 0 && !st2.in_quotes);

    lemma_tok_fold_plain(st2, name);
    let st3 = tok_fold(st2, name);
    assert(st3.buf =~= name);
    lemma_tok_fold_one(st3, ' ');
    let st4 = tok_fold(st3, sp);
    assert(st4.tokens =~= seq![create_lit, name]);
    assert(st4.buf.len() == 0 && !st4.in_quotes);

    lemma_tok_fold_plain(st4, evictor_lit);
    let st5 = tok_fold(st4, evictor_lit);
    assert(st5.buf =~= evictor_lit);
    lemma_tok_fold_one(st5, ' ');
    let st6 = tok_fold(st5, sp);
    assert(st6.tokens =~= seq![create_lit, name, evictor_lit]);
    assert(st6.buf.len() == 0 && !st6.in_quotes);

    lemma_tok_fold_plain(st6, evictor);
    let st7 = tok_fold(st6, evictor);
    assert(st7 == tok_scan(line));
    assert(st7.buf =~= evictor);
    assert(!st7.in_quotes);
    assert(spec_tokens(line) =~~= seq!["create"@, name, "evictor"@, evictor]);
}

} // verus!
