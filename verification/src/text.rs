//! Small verified string utilities shared by the rest of the library.
use vstd::prelude::*;

verus! {

/// Character-wise equality of two string slices.
pub fn str_eq(a: &str, b: &str) -> (res: bool)
    ensures
        res == (a@ == b@),
{
    let n = a.unicode_len();
    let m = b.unicode_len();
    if n != m {
        return false;
    }
    let mut i: usize = 0;
    while i < n
        invariant
            n == a@.len(),
            m == b@.len(),
            n == m,
            i <= n,
            forall|j: int| 0 <= j < i ==> a@[j] == b@[j],
        decreases n - i,
    {
        if a.get_char(i) != b.get_char(i) {
            return false;
        }
        i = i + 1;
    }
    assert(a@ =~= b@);
    true
}

/// The character views of a sequence of strings.
pub open spec fn strs(v: Seq<String>) -> Seq<Seq<char>> {
    v.map_values(|s: String| s@)
}

/// Whether some string of `v` equals `s` character-wise.
pub fn contains_text(v: &Vec<String>, s: &str) -> (res: bool)
    ensures
        res == strs(v@).contains(s@),
{
    let mut i: usize = 0;
    while i < v.len()
        invariant
            i <= v@.len(),
            forall|j: int| 0 <= j < i ==> v@[j]@ != s@,
        decreases v@.len() - i,
    {
        if str_eq(v[i].as_str(), s) {
            assert(strs(v@)[i as int] == s@);
            return true;
        }
        i = i + 1;
    }
    assert forall|j: int| 0 <= j < strs(v@).len() implies strs(v@)[j] != s@ by {
        assert(strs(v@)[j] == v@[j]@);
    }
    false
}

/// Element-wise character equality of two string vectors.
pub fn strs_eq(a: &Vec<String>, b: &Vec<String>) -> (res: bool)
    ensures
        res == (strs(a@) == strs(b@)),
{
    if a.len() != b.len() {
        assert(strs(a@).len() != strs(b@).len());
        return false;
    }
    let mut i: usize = 0;
    while i < a.len()
        invariant
            a@.len() == b@.len(),
            i <= a@.len(),
            forall|j: int| 0 <= j < i ==> a@[j]@ == b@[j]@,
        decreases a@.len() - i,
    {
        if !str_eq(a[i].as_str(), b[i].as_str()) {
            assert(strs(a@)[i as int] != strs(b@)[i as int]);
            return false;
        }
        i = i + 1;
    }
    assert(strs(a@) =~= strs(b@));
    true
}

/// The decimal digit character for `d` (0..=9).
pub open spec fn digit_char(d: int) -> char {
    if d == 0 {
        '0'
    } else if d == 1 {
        '1'
    } else if d == 2 {
        '2'
    } else if d == 3 {
        '3'
    } else if d == 4 {
        '4'
    } else if d == 5 {
        '5'
    } else if d == 6 {
        '6'
    } else if d == 7 {
        '7'
    } else if d == 8 {
        '8'
    } else {
        '9'
    }
}

/// The decimal rendering of a natural number, most significant digit first, no padding.
pub open spec fn decimal(n: nat) -> Seq<char>
    decreases n,
{
    if n < 10 {
        seq![digit_char(n as int)]
    } else {
        decimal(n / 10).push(digit_char((n % 10) as int))
    }
}

fn digit_text(d: u64) -> (s: &'static str)
    requires
        d < 10,
    ensures
        s@ == seq![digit_char(d as int)],
{
    proof {
        reveal_strlit("0");
        reveal_strlit("1");
        reveal_strlit("2");
        reveal_strlit("3");
        reveal_strlit("4");
        reveal_strlit("5");
        reveal_strlit("6");
        reveal_strlit("7");
        reveal_strlit("8");
        reveal_strlit("9");
    }
    let s = if d == 0 {
        "0"
    } else if d == 1 {
        "1"
    } else if d == 2 {
        "2"
    } else if d == 3 {
        "3"
    } else if d == 4 {
        "4"
    } else if d == 5 {
        "5"
    } else if d == 6 {
        "6"
    } else if d == 7 {
        "7"
    } else if d == 8 {
        "8"
    } else {
        "9"
    };
    assert(s@ =~= seq![digit_char(d as int)]);
    s
}

/// The decimal text of `n`.
pub fn decimal_text(n: u64) -> (s: String)
    ensures
        s@ == decimal(n as nat),
    decreases n,
{
    if n < 10 {
        String::from_str(digit_text(n))
    } else {
        let mut s = decimal_text(n / 10);
        s.append(digit_text(n % 10));
        assert(s@ =~= decimal(n as nat));
        s
    }
}

/// Lines joined with a newline between consecutive lines (no trailing newline).
pub open spec fn join_lines(lines: Seq<Seq<char>>) -> Seq<char>
    decreases lines.len(),
{
    if lines.len() == 0 {
        Seq::empty()
    } else if lines.len() == 1 {
        lines[0]
    } else {
        join_lines(lines.drop_last()) + "\n"@ + lines.last()
    }
}

/// Join string lines with `\n`.
pub fn join_newline(lines: &Vec<String>) -> (s: String)
    ensures
        s@ == join_lines(strs(lines@)),
{
    let mut out = String::new();
    let ghost ls = strs(lines@);
    let mut i: usize = 0;
    while i < lines.len()
        invariant
            ls == strs(lines@),
            i <= lines@.len(),
            out@ == join_lines(ls.take(i as int)),
        decreases lines@.len() - i,
    {
        assert(ls.take(i + 1).drop_last() =~= ls.take(i as int));
        assert(ls[i as int] == lines@[i as int]@);
        if i != 0 {
            out.append("\n");
        } else {
            assert(ls.take(1) =~= seq![ls[0]]);
            assert(out@ =~= Seq::<char>::empty());
        }
        out.append(lines[i].as_str());
        i = i + 1;
        assert(out@ =~= join_lines(ls.take(i as int)));
    }
    assert(ls.take(i as int) =~= ls);
    out
}

/// What follows the last `::` of `s` (all of `s` when it holds none).
pub open spec fn after_last_sep(s: Seq<char>) -> Seq<char>
    decreases s.len(),
{
    if s.len() < 2 {
        s
    } else if s[s.len() - 2] == ':' && s[s.len() - 1] == ':' {
        Seq::empty()
    } else {
        after_last_sep(s.drop_last()).push(s.last())
    }
}

/// The last `::`-separated segment of a path-like string.
pub fn last_path_segment(s: &str) -> (r: &str)
    ensures
        r@ == after_last_sep(s@),
{
    let n = s.unicode_len();
    let mut e: usize = n;
    assert(s@.take(n as int) =~= s@);
    assert(s@.subrange(n as int, n as int) =~= Seq::<char>::empty());
    assert(s@ + Seq::<char>::empty() =~= s@);
    while e >= 2
        invariant
            n == s@.len(),
            e <= n,
            after_last_sep(s@) == after_last_sep(s@.take(e as int)) + s@.subrange(e as int, n as int),
        decreases e,
    {
        let a = s.get_char(e - 2);
        let b = s.get_char(e - 1);
        assert(s@.take(e as int)[e - 2] == a && s@.take(e as int)[e - 1] == b);
        if a == ':' && b == ':' {
            assert(after_last_sep(s@.take(e as int)) =~= Seq::<char>::empty());
            assert(after_last_sep(s@) =~= s@.subrange(e as int, n as int));
            return s.substring_char(e, n);
        }
        assert(s@.take(e as int).drop_last() =~= s@.take(e - 1));
        assert(s@.subrange(e - 1, n as int) =~= seq![s@[e - 1]] + s@.subrange(e as int, n as int));
        e = e - 1;
    }
    assert(after_last_sep(s@.take(e as int)) == s@.take(e as int));
    assert(s@.take(e as int) + s@.subrange(e as int, n as int) =~= s@.subrange(0, n as int));
    s.substring_char(0, n)
}

/// The Unicode `White_Space` property of a character, the test `char::is_whitespace`
/// performs: tab, line feed, vertical tab, form feed, carriage return, space, next line,
/// no-break space, ogham space mark, the spaces U+2000 to U+200A, line separator, paragraph
/// separator, narrow no-break space, medium mathematical space and ideographic space.
pub open spec fn unicode_white_space(c: char) -> bool {
    let u = c as u32;
    ||| 0x09 <= u <= 0x0D
    ||| u == 0x20
    ||| u == 0x85
    ||| u == 0xA0
    ||| u == 0x1680
    ||| 0x2000 <= u <= 0x200A
    ||| u == 0x2028
    ||| u == 0x2029
    ||| u == 0x202F
    ||| u == 0x205F
    ||| u == 0x3000
}

/// Whether `c` is Unicode white space (the characters `char::is_whitespace` accepts).
pub fn is_white_space(c: char) -> (b: bool)
    ensures
        b == unicode_white_space(c),
{
    let u = c as u32;
    (0x09 <= u && u <= 0x0D) || u == 0x20 || u == 0x85 || u == 0xA0 || u == 0x1680 || (0x2000
        <= u && u <= 0x200A) || u == 0x2028 || u == 0x2029 || u == 0x202F || u == 0x205F || u
        == 0x3000
}

/// `s` without its leading white space.
pub open spec fn trim_start_spec(s: Seq<char>) -> Seq<char>
    decreases s.len(),
{
    if s.len() > 0 && unicode_white_space(s[0]) {
        trim_start_spec(s.drop_first())
    } else {
        s
    }
}

/// `s` without its trailing white space.
pub open spec fn trim_end_spec(s: Seq<char>) -> Seq<char>
    decreases s.len(),
{
    if s.len() > 0 && unicode_white_space(s.last()) {
        trim_end_spec(s.drop_last())
    } else {
        s
    }
}

/// `s` without leading and trailing white space.
pub open spec fn trim_spec(s: Seq<char>) -> Seq<char> {
    trim_end_spec(trim_start_spec(s))
}

/// Remove leading and trailing white space.
pub fn trim(s: &str) -> (r: &str)
    ensures
        r@ == trim_spec(s@),
{
    let n = s.unicode_len();
    let mut a: usize = 0;
    assert(s@.subrange(0, n as int) =~= s@);
    while a < n && is_white_space(s.get_char(a))
        invariant
            n == s@.len(),
            a <= n,
            trim_start_spec(s@) == trim_start_spec(s@.subrange(a as int, n as int)),
        decreases n - a,
    {
        assert(s@.subrange(a as int, n as int).drop_first() =~= s@.subrange(a + 1, n as int));
        a = a + 1;
    }
    let ghost mid = s@.subrange(a as int, n as int);
    assert(trim_start_spec(mid) == mid);
    let mut b: usize = n;
    assert(mid =~= s@.subrange(a as int, b as int));
    while b > a && is_white_space(s.get_char(b - 1))
        invariant
            n == s@.len(),
            a <= b <= n,
            trim_end_spec(mid) == trim_end_spec(s@.subrange(a as int, b as int)),
        decreases b,
    {
        assert(s@.subrange(a as int, b as int).drop_last() =~= s@.subrange(a as int, b - 1));
        b = b - 1;
    }
    s.substring_char(a, b)
}

/// The prefix of `s` before its first `<` (all of `s` when it holds none).
pub open spec fn before_angle(s: Seq<char>) -> Seq<char>
    decreases s.len(),
{
    if s.len() == 0 {
        s
    } else if s[0] == '<' {
        Seq::empty()
    } else {
        seq![s[0]] + before_angle(s.drop_first())
    }
}

/// The prefix of `s` before its first `<`.
pub fn before_first_angle(s: &str) -> (r: &str)
    ensures
        r@ == before_angle(s@),
{
    let n = s.unicode_len();
    let mut i: usize = 0;
    assert(s@.subrange(0, n as int) =~= s@);
    assert(s@.take(0) + s@ =~= s@);
    while i < n
        invariant
            n == s@.len(),
            i <= n,
            before_angle(s@) == s@.take(i as int) + before_angle(s@.subrange(i as int, n as int)),
        decreases n - i,
    {
        let c = s.get_char(i);
        if c == '<' {
            assert(before_angle(s@.subrange(i as int, n as int)) =~= Seq::<char>::empty());
            assert(s@.take(i as int) + Seq::<char>::empty() =~= s@.take(i as int));
            return s.substring_char(0, i);
        }
        assert(s@.subrange(i as int, n as int).drop_first() =~= s@.subrange(i + 1, n as int));
        assert(s@.take(i + 1) =~= s@.take(i as int) + seq![c]);
        i = i + 1;
    }
    assert(s@.subrange(n as int, n as int) =~= Seq::<char>::empty());
    assert(s@.take(n as int) + Seq::<char>::empty() =~= s@);
    assert(s@.subrange(0, n as int) =~= s@);
    s.substring_char(0, n)
}

/// Whether `s` begins with `p`.
pub open spec fn starts_with_spec(s: Seq<char>, p: Seq<char>) -> bool {
    p.len() <= s.len() && s.take(p.len() as int) == p
}

/// Whether `s` begins with `p`.
pub fn starts_with(s: &str, p: &str) -> (b: bool)
    ensures
        b == starts_with_spec(s@, p@),
{
    let n = s.unicode_len();
    let m = p.unicode_len();
    if m > n {
        return false;
    }
    let mut i: usize = 0;
    while i < m
        invariant
            n == s@.len(),
            m == p@.len(),
            m <= n,
            i <= m,
            forall|j: int| 0 <= j < i ==> s@[j] == p@[j],
        decreases m - i,
    {
        if s.get_char(i) != p.get_char(i) {
            assert(s@.take(m as int)[i as int] != p@[i as int]);
            return false;
        }
        i = i + 1;
    }
    assert(s@.take(m as int) =~= p@);
    true
}

/// The Unicode lowercase mapping of a string.
pub uninterp spec fn unicode_lowercase(s: Seq<char>) -> Seq<char>;

/// Calls `str::to_lowercase`: the string's Unicode lowercase mapping. The contract names
/// that mapping and states nothing more of it.
#[verifier::external_body]
pub(crate) fn to_lowercase(s: &str) -> (r: String)
    ensures
        r@ == unicode_lowercase(s@),
{
    s.to_lowercase()
}

/// The Unicode uppercase mapping of a string.
pub uninterp spec fn unicode_uppercase(s: Seq<char>) -> Seq<char>;

/// Calls `str::to_uppercase`: the string's Unicode uppercase mapping. The contract names
/// that mapping and states nothing more of it.
#[verifier::external_body]
pub(crate) fn to_uppercase(s: &str) -> (r: String)
    ensures
        r@ == unicode_uppercase(s@),
{
    s.to_uppercase()
}

/// The Unicode uppercase mapping of one character (possibly several characters).
pub uninterp spec fn unicode_uppercase_char(c: char) -> Seq<char>;

/// Calls `char::to_uppercase` and collects the characters it yields into a string. The
/// contract names that mapping and states nothing more of it.
#[verifier::external_body]
pub(crate) fn char_to_uppercase(c: char) -> (r: String)
    ensures
        r@ == unicode_uppercase_char(c),
{
    c.to_uppercase().collect()
}

/// Whether `p` occurs in `s` as a contiguous run.
pub open spec fn has_substring(s: Seq<char>, p: Seq<char>) -> bool {
    exists|i: int| 0 <= i && i + p.len() <= s.len() && #[trigger] s.subrange(i, i + p.len()) == p
}

/// Whether `p` occurs in `s`.
pub fn contains_str(s: &str, p: &str) -> (b: bool)
    ensures
        b == has_substring(s@, p@),
{
    let n = s.unicode_len();
    let m = p.unicode_len();
    if m > n {
        return false;
    }
    let mut i: usize = 0;
    while i <= n - m
        invariant
            n == s@.len(),
            m == p@.len(),
            m <= n,
            i <= n - m + 1,
            forall|k: int| 0 <= k < i ==> #[trigger] s@.subrange(k, k + m) != p@,
        decreases n - m + 1 - i,
    {
        let mut j: usize = 0;
        let mut same = true;
        while j < m
            invariant
                n == s@.len(),
                m == p@.len(),
                i + m <= n,
                j <= m,
                same == (forall|t: int| 0 <= t < j ==> s@[i + t] == p@[t]),
            decreases m - j,
        {
            if s.get_char(i + j) != p.get_char(j) {
                same = false;
            }
            j = j + 1;
        }
        if same {
            assert(s@.subrange(i as int, i + m) =~= p@);
            return true;
        } else {
            let ghost t = choose|t: int| 0 <= t < m && s@[i + t] != p@[t];
            assert(s@.subrange(i as int, i + m)[t] != p@[t]);
        }
        i = i + 1;
    }
    false
}

/// The pieces of `s` between occurrences of `sep` (one more piece than separators, empty
/// pieces kept), as `str::split` with a `char` pattern yields them.
pub open spec fn split_on(s: Seq<char>, sep: char) -> Seq<Seq<char>>
    decreases s.len(),
{
    if s.len() == 0 {
        seq![Seq::empty()]
    } else {
        let p = split_on(s.drop_last(), sep);
        if s.last() == sep {
            p.push(Seq::empty())
        } else {
            p.update(p.len() - 1, p.last().push(s.last()))
        }
    }
}

/// There is always at least one piece.
pub proof fn lemma_split_on_nonempty(s: Seq<char>, sep: char)
    ensures
        split_on(s, sep).len() >= 1,
    decreases s.len(),
{
    if s.len() > 0 {
        lemma_split_on_nonempty(s.drop_last(), sep);
    }
}

/// Split `s` at every `sep`.
pub fn split_char(s: &str, sep: char) -> (pieces: Vec<String>)
    ensures
        strs(pieces@) == split_on(s@, sep),
{
    let n = s.unicode_len();
    let mut pieces: Vec<String> = Vec::new();
    let mut cur = String::new();
    let mut i: usize = 0;
    assert(s@.take(0) =~= Seq::<char>::empty());
    assert(strs(pieces@).push(cur@) =~= split_on(s@.take(0), sep));
    while i < n
        invariant
            n == s@.len(),
            i <= n,
            strs(pieces@).push(cur@) == split_on(s@.take(i as int), sep),
        decreases n - i,
    {
        let c = s.get_char(i);
        let ghost prev = s@.take(i as int);
        let ghost p = split_on(prev, sep);
        proof {
            lemma_split_on_nonempty(prev, sep);
        }
        assert(s@.take(i + 1).drop_last() =~= prev);
        assert(s@.take(i + 1).last() == c);
        let ghost old_pieces = strs(pieces@);
        let ghost old_cur = cur@;
        if c == sep {
            let done = cur;
            pieces.push(done);
            cur = String::new();
            assert(strs(pieces@) =~= old_pieces.push(old_cur));
            assert(strs(pieces@).push(cur@) =~= p.push(Seq::empty()));
        } else {
            let one = s.substring_char(i, i + 1);
            assert(one@ =~= seq![c]);
            cur.append(one);
            assert(p.last() == old_cur);
            assert(cur@ =~= old_cur.push(c));
            assert(strs(pieces@) == old_pieces);
            assert(strs(pieces@).push(cur@) =~= p.update(p.len() - 1, p.last().push(c)));
        }
        i = i + 1;
    }
    assert(s@.take(n as int) =~= s@);
    let ghost before = strs(pieces@);
    pieces.push(cur);
    assert(strs(pieces@) =~= before.push(cur@));
    pieces
}

/// Lexicographic order of character sequences by code point, the order of `String`'s `Ord`
/// (UTF-8 keeps code point order).
pub open spec fn lex_lt(a: Seq<char>, b: Seq<char>) -> bool
    decreases a.len(),
{
    if a.len() == 0 {
        b.len() > 0
    } else if b.len() == 0 {
        false
    } else if a[0] != b[0] {
        (a[0] as int) < (b[0] as int)
    } else {
        lex_lt(a.drop_first(), b.drop_first())
    }
}

proof fn lemma_lex_total(a: Seq<char>, b: Seq<char>)
    ensures
        a != b ==> lex_lt(a, b) || lex_lt(b, a),
        !(lex_lt(a, b) && lex_lt(b, a)),
        !lex_lt(a, a),
    decreases a.len(),
{
    if a.len() == 0 && b.len() == 0 {
        assert(a =~= b);
    } else if a.len() > 0 && b.len() > 0 {
        lemma_lex_total(a.drop_first(), b.drop_first());
        lemma_lex_total(a.drop_first(), a.drop_first());
        if a[0] == b[0] && a != b {
            assert(a.drop_first() != b.drop_first()) by {
                if a.drop_first() == b.drop_first() {
                    assert(a =~= seq![a[0]] + a.drop_first());
                    assert(b =~= seq![b[0]] + b.drop_first());
                }
            }
        }
        if a[0] != b[0] {
            assert((a[0] as int) != (b[0] as int));
        }
    } else if a.len() > 0 {
        lemma_lex_total(a.drop_first(), a.drop_first());
    }
}

proof fn lemma_lex_trans(a: Seq<char>, b: Seq<char>, c: Seq<char>)
    ensures
        lex_lt(a, b) && lex_lt(b, c) ==> lex_lt(a, c),
    decreases a.len(),
{
    if a.len() > 0 && b.len() > 0 && c.len() > 0 {
        lemma_lex_trans(a.drop_first(), b.drop_first(), c.drop_first());
    }
}

/// `lex_lt` is a strict total order.
pub proof fn lemma_lex_order(a: Seq<char>, b: Seq<char>, c: Seq<char>)
    ensures
        !lex_lt(a, a),
        a != b ==> lex_lt(a, b) || lex_lt(b, a),
        !(lex_lt(a, b) && lex_lt(b, a)),
        lex_lt(a, b) && lex_lt(b, c) ==> lex_lt(a, c),
{
    lemma_lex_total(a, b);
    lemma_lex_trans(a, b, c);
}

/// Whether `a` sorts before `b` as strings do.
pub fn str_lt(a: &str, b: &str) -> (r: bool)
    ensures
        r == lex_lt(a@, b@),
{
    let n = a.unicode_len();
    let m = b.unicode_len();
    let mut i: usize = 0;
    assert(a@.skip(0) =~= a@);
    assert(b@.skip(0) =~= b@);
    while i < n && i < m
        invariant
            n == a@.len(),
            m == b@.len(),
            i <= n,
            i <= m,
            lex_lt(a@, b@) == lex_lt(a@.skip(i as int), b@.skip(i as int)),
        decreases n - i,
    {
        let x = a.get_char(i);
        let y = b.get_char(i);
        assert(a@.skip(i as int)[0] == x);
        assert(b@.skip(i as int)[0] == y);
        if x != y {
            return x < y;
        }
        assert(a@.skip(i as int).drop_first() =~= a@.skip(i + 1));
        assert(b@.skip(i as int).drop_first() =~= b@.skip(i + 1));
        i = i + 1;
    }
    i == n && i < m
}

} // verus!
