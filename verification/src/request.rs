//! The parts of a client request's origin-form target that do not depend on the API
//! description: percent-encoding a path segment, and composing the path, the raw query and
//! the rendered query items into the target.
use vstd::prelude::*;

use crate::text::strs;

verus! {

/// A byte a path segment keeps as it is: an ASCII letter or digit, `-`, `_`, `.` or `~`.
pub open spec fn unreserved(b: u8) -> bool {
    ||| 0x30 <= b <= 0x39
    ||| 0x41 <= b <= 0x5A
    ||| 0x61 <= b <= 0x7A
    ||| b == 0x2D
    ||| b == 0x5F
    ||| b == 0x2E
    ||| b == 0x7E
}

/// An uppercase hexadecimal digit for `0 <= n < 16`.
pub open spec fn hex_digit(n: int) -> char {
    if n < 10 {
        (48 + n) as char
    } else {
        (55 + n) as char
    }
}

/// The percent-escape of a byte: `%` and its two uppercase hexadecimal digits.
pub open spec fn escaped(b: u8) -> Seq<char> {
    seq!['%', hex_digit(b as int / 16), hex_digit(b as int % 16)]
}

/// The percent-encoding of a path segment's bytes: each unreserved byte as itself, every other
/// byte escaped.
pub open spec fn encoded_segment(bytes: Seq<u8>) -> Seq<char>
    decreases bytes.len(),
{
    if bytes.len() == 0 {
        Seq::empty()
    } else {
        encoded_segment(bytes.drop_last()) + if unreserved(bytes.last()) {
            seq![bytes.last() as char]
        } else {
            escaped(bytes.last())
        }
    }
}

/// Calls `percent_encoding::percent_encode_byte`, which looks the byte up in a table of
/// `%00` .. `%FF`: the contract states that table entry.
#[verifier::external_body]
fn percent_byte(b: u8) -> (s: &'static str)
    ensures
        s@ == escaped(b),
{
    percent_encoding::percent_encode_byte(b)
}

/// Calls `char::to_string` on the ASCII character `b`: a one-character string.
#[verifier::external_body]
fn ascii_text(b: u8) -> (s: String)
    requires
        b < 128,
    ensures
        s@ == seq![b as char],
{
    (b as char).to_string()
}

fn is_unreserved(b: u8) -> (r: bool)
    ensures
        r == unreserved(b),
{
    (0x30 <= b && b <= 0x39) || (0x41 <= b && b <= 0x5A) || (0x61 <= b && b <= 0x7A) || b == 0x2D
        || b == 0x5F || b == 0x2E || b == 0x7E
}

/// Percent-encode a raw path segment: its UTF-8 bytes, unreserved ones kept, every other one
/// escaped.
pub fn encode_path_segment(raw: &str) -> (s: String)
    ensures
        s@ == encoded_segment(vstd::utf8::encode_utf8(raw@)),
{
    let bytes = raw.as_bytes();
    let ghost bs = vstd::utf8::encode_utf8(raw@);
    let mut out = String::new();
    let mut i: usize = 0;
    assert(bs.take(0) =~= Seq::<u8>::empty());
    while i < bytes.len()
        invariant
            bytes@ == bs,
            i <= bs.len(),
            out@ == encoded_segment(bs.take(i as int)),
        decreases bs.len() - i,
    {
        let b = bytes[i];
        assert(bs.take(i + 1).drop_last() =~= bs.take(i as int));
        assert(bs.take(i + 1).last() == b);
        if is_unreserved(b) {
            let t = ascii_text(b);
            out.append(t.as_str());
        } else {
            out.append(percent_byte(b));
        }
        i = i + 1;
    }
    assert(bs.take(i as int) =~= bs);
    out
}

/// Parts joined with `sep` between consecutive parts.
pub open spec fn joined(parts: Seq<Seq<char>>, sep: Seq<char>) -> Seq<char>
    decreases parts.len(),
{
    if parts.len() == 0 {
        Seq::empty()
    } else if parts.len() == 1 {
        parts[0]
    } else {
        joined(parts.drop_last(), sep) + sep + parts.last()
    }
}

fn join_with(parts: &Vec<String>, sep: &str, out: &mut String)
    ensures
        final(out)@ == old(out)@ + joined(strs(parts@), sep@),
{
    let ghost start = out@;
    let ghost ps = strs(parts@);
    let mut i: usize = 0;
    assert(ps.take(0) =~= Seq::<Seq<char>>::empty());
    assert(out@ =~= start + joined(ps.take(0), sep@));
    while i < parts.len()
        invariant
            ps == strs(parts@),
            i <= parts@.len(),
            out@ == start + joined(ps.take(i as int), sep@),
        decreases parts@.len() - i,
    {
        assert(ps.take(i + 1).drop_last() =~= ps.take(i as int));
        assert(ps[i as int] == parts@[i as int]@);
        if i != 0 {
            out.append(sep);
        } else {
            assert(ps.take(1) =~= seq![ps[0]]);
        }
        out.append(parts[i].as_str());
        i = i + 1;
        assert(out@ =~= start + joined(ps.take(i as int), sep@));
    }
    assert(ps.take(i as int) =~= ps);
}

/// The origin-form target: `/` and the segments joined by `/`; then, when there is a raw
/// query or a query item, `?`, the raw query, an `&` when both are non-empty, and the items
/// joined by `&`.
pub open spec fn target_text(
    segments: Seq<Seq<char>>,
    raw_query: Option<Seq<char>>,
    items: Seq<Seq<char>>,
) -> Seq<char> {
    let path = "/"@ + joined(segments, "/"@);
    if raw_query is Some || items.len() > 0 {
        let raw = match raw_query {
            Some(r) => r,
            None => Seq::empty(),
        };
        let amp = if raw.len() > 0 && items.len() > 0 {
            "&"@
        } else {
            Seq::<char>::empty()
        };
        path + "?"@ + raw + amp + joined(items, "&"@)
    } else {
        path
    }
}

/// The view of an optional string.
pub open spec fn opt_text(s: Option<&str>) -> Option<Seq<char>> {
    match s {
        Some(t) => Some(t@),
        None => None,
    }
}

/// Compose a request's origin-form target from its percent-encoded path segments, its raw
/// query prefix and its rendered query items (`key=value` or `key`).
pub fn request_target(segments: &Vec<String>, raw_query: Option<&str>, items: &Vec<String>) -> (t: String)
    ensures
        t@ == target_text(strs(segments@), opt_text(raw_query), strs(items@)),
{
    let mut out = String::from_str("/");
    join_with(segments, "/", &mut out);
    let has_raw = raw_query.is_some();
    if has_raw || items.len() > 0 {
        out.append("?");
        match raw_query {
            Some(raw) => {
                out.append(raw);
                if raw.unicode_len() > 0 && items.len() > 0 {
                    out.append("&");
                }
            },
            None => {},
        }
        join_with(items, "&", &mut out);
    }
    out
}

} // verus!
