//! Naming helpers of the route-record derive: snake_case field names to PascalCase
//! identifiers (`get_user` -> `GetUser`).
use vstd::prelude::*;

use crate::text::{char_to_uppercase, unicode_uppercase_char};

verus! {

/// PascalCase of `s`: underscores dropped, the first character of every `_`-separated
/// non-empty part uppercased, everything else kept. `at_start` says whether the next
/// character begins a part.
pub open spec fn pascal_from(s: Seq<char>, at_start: bool) -> Seq<char>
    decreases s.len(),
{
    if s.len() == 0 {
        Seq::empty()
    } else if s[0] == '_' {
        pascal_from(s.drop_first(), true)
    } else if at_start {
        unicode_uppercase_char(s[0]) + pascal_from(s.drop_first(), false)
    } else {
        seq![s[0]] + pascal_from(s.drop_first(), false)
    }
}

/// `get_user` -> `GetUser` (for generated generic parameter names).
pub fn to_pascal(s: &str) -> (r: String)
    ensures
        r@ == pascal_from(s@, true),
{
    let n = s.unicode_len();
    let mut out = String::new();
    let mut at_start = true;
    let mut i: usize = 0;
    assert(s@.skip(0) =~= s@);
    while i < n
        invariant
            n == s@.len(),
            i <= n,
            out@ + pascal_from(s@.skip(i as int), at_start) == pascal_from(s@, true),
        decreases n - i,
    {
        let c = s.get_char(i);
        let ghost rest = s@.skip(i as int);
        assert(rest[0] == c);
        assert(rest.drop_first() =~= s@.skip(i + 1));
        if c == '_' {
            at_start = true;
        } else if at_start {
            let u = char_to_uppercase(c);
            out.append(u.as_str());
            at_start = false;
        } else {
            let one = s.substring_char(i, i + 1);
            assert(one@ =~= seq![c]);
            out.append(one);
        }
        i = i + 1;
    }
    assert(s@.skip(n as int) =~= Seq::<char>::empty());
    assert(out@ + Seq::<char>::empty() =~= out@);
    out
}

} // verus!
