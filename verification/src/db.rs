//! Records of the book of record as the persistence layer hands them out, and the
//! splitting of the embedded schema into the statements that are run in order.
use vstd::prelude::*;

use crate::text::{
    join_lines, join_newline, split_char, split_on, strs, trim, trim_end_spec, trim_spec,
    trim_start_spec,
};

verus! {

/// A household.
#[derive(Clone, Debug, PartialEq)]
pub struct Household {
    pub id: String,
    pub name: String,
    pub advisor_rep: String,
}

/// A custodian.
#[derive(Clone, Debug, PartialEq)]
pub struct Custodian {
    pub id: String,
    pub name: String,
}

/// A note attached to an account.
#[derive(Clone, Debug, PartialEq)]
pub struct Note {
    pub id: String,
    pub body: String,
    pub at: String,
}

/// One row of the generic key/value store (value is an opaque JSON string).
#[derive(Clone, Debug, PartialEq)]
pub struct KvEntry {
    pub key: String,
    pub value: String,
}

/// One audit-log event.
#[derive(Clone, Debug, PartialEq)]
pub struct AuditEvent {
    pub id: String,
    pub household_id: Option<String>,
    pub action: String,
    pub entity: String,
    pub detail: String,
    pub at: String,
}

/// A line up to its first `--` (the whole line when it holds none).
pub open spec fn comment_free(l: Seq<char>) -> Seq<char>
    decreases l.len(),
{
    if l.len() < 2 {
        l
    } else if l[0] == '-' && l[1] == '-' {
        Seq::empty()
    } else {
        seq![l[0]] + comment_free(l.drop_first())
    }
}

/// A line without one trailing carriage return.
pub open spec fn strip_cr(l: Seq<char>) -> Seq<char> {
    if l.len() > 0 && l.last() == '\r' {
        l.drop_last()
    } else {
        l
    }
}

/// The lines of a text as `str::lines` yields them: split at `\n`, a `\r` before a `\n`
/// dropped, no empty line after a final `\n`.
pub open spec fn text_lines(s: Seq<char>) -> Seq<Seq<char>> {
    let p = split_on(s, '\n');
    let n = if p.last().len() == 0 {
        p.len() - 1
    } else {
        p.len() as int
    };
    Seq::new(
        n as nat,
        |i: int|
            if i < p.len() - 1 {
                strip_cr(p[i])
            } else {
                p[i]
            },
    )
}

/// The statements of a schema text: `--` comments removed line by line, the rest split at
/// `;`, each piece trimmed, empty pieces skipped.
pub open spec fn schema_statements_spec(sql: Seq<char>) -> Seq<Seq<char>> {
    let cleaned = join_lines(text_lines(sql).map_values(|l: Seq<char>| comment_free(l)));
    split_on(cleaned, ';').map_values(|p: Seq<char>| trim_spec(p)).filter(
        |t: Seq<char>| t.len() > 0,
    )
}

fn cut_comment(l: &str) -> (r: String)
    ensures
        r@ == comment_free(l@),
{
    let n = l.unicode_len();
    let mut j: usize = 0;
    assert(l@.skip(0) =~= l@);
    assert(l@.take(0) =~= Seq::<char>::empty());
    while j < n && n - j > 1
        invariant
            n == l@.len(),
            j <= n,
            comment_free(l@) == l@.take(j as int) + comment_free(l@.skip(j as int)),
        decreases n - j,
    {
        let ghost rest = l@.skip(j as int);
        if l.get_char(j) == '-' && l.get_char(j + 1) == '-' {
            assert(rest[0] == '-' && rest[1] == '-');
            return String::from_str(l.substring_char(0, j));
        }
        assert(rest.drop_first() =~= l@.skip(j + 1));
        assert(l@.take(j + 1) =~= l@.take(j as int) + seq![rest[0]]);
        j = j + 1;
    }
    assert(l@.skip(j as int).len() < 2);
    assert(l@.take(j as int) + l@.skip(j as int) =~= l@);
    String::from_str(l)
}

fn without_cr(l: &str) -> (r: &str)
    ensures
        r@ == strip_cr(l@),
{
    let n = l.unicode_len();
    if n > 0 && l.get_char(n - 1) == '\r' {
        let r = l.substring_char(0, n - 1);
        assert(r@ =~= l@.drop_last());
        r
    } else {
        l
    }
}

/// Split an embedded schema into the statements to run, in order.
pub fn schema_statements(sql: &str) -> (stmts: Vec<String>)
    ensures
        strs(stmts@) == schema_statements_spec(sql@),
{
    let pieces = split_char(sql, '\n');
    let ghost p = split_on(sql@, '\n');
    proof {
        crate::text::lemma_split_on_nonempty(sql@, '\n');
    }
    let last = pieces.len() - 1;
    assert(strs(pieces@)[last as int] == pieces@[last as int]@);
    let count = if pieces[last].unicode_len() == 0 {
        last
    } else {
        pieces.len()
    };
    let ghost tl = text_lines(sql@);
    let ghost wanted = tl.map_values(|l: Seq<char>| comment_free(l));
    assert(tl.len() == count);
    let mut lines: Vec<String> = Vec::new();
    let mut i: usize = 0;
    while i < count
        invariant
            pieces@.len() >= 1,
            last == pieces@.len() - 1,
            count <= pieces@.len(),
            strs(pieces@) == p,
            tl == text_lines(sql@),
            p == split_on(sql@, '\n'),
            tl.len() == count,
            wanted == tl.map_values(|l: Seq<char>| comment_free(l)),
            i <= count,
            strs(lines@) == wanted.take(i as int),
        decreases count - i,
    {
        assert(p[i as int] == pieces@[i as int]@);
        let cleaned = if i < last {
            cut_comment(without_cr(pieces[i].as_str()))
        } else {
            cut_comment(pieces[i].as_str())
        };
        assert(tl[i as int] == (if i < p.len() - 1 {
            strip_cr(p[i as int])
        } else {
            p[i as int]
        }));
        assert(cleaned@ == wanted[i as int]);
        let ghost before = strs(lines@);
        lines.push(cleaned);
        assert(strs(lines@) =~= before.push(cleaned@));
        assert(wanted.take(i + 1) =~= wanted.take(i as int).push(wanted[i as int]));
        i = i + 1;
    }
    assert(wanted.take(i as int) =~= wanted);
    let joined = join_newline(&lines);
    let parts = split_char(joined.as_str(), ';');
    let ghost trimmed = strs(parts@).map_values(|q: Seq<char>| trim_spec(q));
    let ghost keep = |t: Seq<char>| t.len() > 0;
    let mut stmts: Vec<String> = Vec::new();
    let mut k: usize = 0;
    while k < parts.len()
        invariant
            k <= parts@.len(),
            trimmed == strs(parts@).map_values(|q: Seq<char>| trim_spec(q)),
            keep == (|t: Seq<char>| t.len() > 0),
            strs(stmts@) == trimmed.take(k as int).filter(keep),
        decreases parts@.len() - k,
    {
        let t = trim(parts[k].as_str());
        assert(trimmed[k as int] == t@);
        assert(trimmed.take(k + 1) =~= trimmed.take(k as int).push(t@));
        proof {
            trimmed.take(k as int).lemma_filter_push(t@, keep);
        }
        if t.unicode_len() > 0 {
            let ghost before = strs(stmts@);
            stmts.push(String::from_str(t));
            assert(strs(stmts@) =~= before.push(t@));
        }
        k = k + 1;
    }
    assert(trimmed.take(k as int) =~= trimmed);
    stmts
}

proof fn lemma_split_pieces_lack_sep(s: Seq<char>, sep: char)
    ensures
        forall|i: int| 0 <= i < split_on(s, sep).len() ==> !(#[trigger] split_on(s, sep)[i]).contains(sep),
    decreases s.len(),
{
    if s.len() > 0 {
        lemma_split_pieces_lack_sep(s.drop_last(), sep);
        crate::text::lemma_split_on_nonempty(s.drop_last(), sep);
        let p = split_on(s.drop_last(), sep);
        if s.last() != sep {
            assert forall|i: int| 0 <= i < split_on(s, sep).len() implies !(
            #[trigger] split_on(s, sep)[i]).contains(sep) by {
                if i == p.len() - 1 {
                    let q = p.last().push(s.last());
                    assert(split_on(s, sep)[i] == q);
                    if q.contains(sep) {
                        let k = choose|k: int| 0 <= k < q.len() && q[k] == sep;
                        assert(p.last()[k] == sep);
                    }
                } else {
                    assert(split_on(s, sep)[i] == p[i]);
                }
            }
        } else {
            assert forall|i: int| 0 <= i < split_on(s, sep).len() implies !(
            #[trigger] split_on(s, sep)[i]).contains(sep) by {
                if i < p.len() {
                    assert(split_on(s, sep)[i] == p[i]);
                } else {
                    assert(split_on(s, sep)[i] =~= Seq::<char>::empty());
                }
            }
        }
    }
}

proof fn lemma_trim_start_lacks(p: Seq<char>, c: char)
    requires
        !p.contains(c),
    ensures
        !trim_start_spec(p).contains(c),
    decreases p.len(),
{
    if p.len() > 0 && crate::text::unicode_white_space(p[0]) {
        assert forall|k: int| 0 <= k < p.drop_first().len() implies p.drop_first()[k] != c by {
            assert(p.drop_first()[k] == p[k + 1]);
        }
        lemma_trim_start_lacks(p.drop_first(), c);
    }
}

proof fn lemma_trim_end_lacks(p: Seq<char>, c: char)
    requires
        !p.contains(c),
    ensures
        !trim_end_spec(p).contains(c),
    decreases p.len(),
{
    if p.len() > 0 && crate::text::unicode_white_space(p.last()) {
        assert forall|k: int| 0 <= k < p.drop_last().len() implies p.drop_last()[k] != c by {
            assert(p.drop_last()[k] == p[k]);
        }
        lemma_trim_end_lacks(p.drop_last(), c);
    }
}

/// Every statement split out of a schema is non-empty and holds no `;`: a statement never
/// runs into the next one.
pub proof fn lemma_statements_are_separate(sql: Seq<char>)
    ensures
        forall|i: int|
            0 <= i < schema_statements_spec(sql).len() ==> (#[trigger] schema_statements_spec(
                sql,
            )[i]).len() > 0 && !schema_statements_spec(sql)[i].contains(';'),
{
    let cleaned = join_lines(text_lines(sql).map_values(|l: Seq<char>| comment_free(l)));
    let pieces = split_on(cleaned, ';');
    let trimmed = pieces.map_values(|p: Seq<char>| trim_spec(p));
    let keep = |t: Seq<char>| t.len() > 0;
    lemma_split_pieces_lack_sep(cleaned, ';');
    assert forall|i: int| 0 <= i < schema_statements_spec(sql).len() implies (
    #[trigger] schema_statements_spec(sql)[i]).len() > 0 && !schema_statements_spec(
        sql,
    )[i].contains(';') by {
        let st = trimmed.filter(keep)[i];
        assert(schema_statements_spec(sql)[i] == st);
        trimmed.lemma_filter_pred(keep, i);
        assert(trimmed.filter(keep).contains(st));
        trimmed.lemma_filter_contains_rev(keep, st);
        let k = choose|k: int| 0 <= k < trimmed.len() && trimmed[k] == st;
        assert(!pieces[k].contains(';'));
        lemma_trim_start_lacks(pieces[k], ';');
        lemma_trim_end_lacks(trim_start_spec(pieces[k]), ';');
    }
}

} // verus!
