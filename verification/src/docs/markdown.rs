//! Rendering an [`ApiDoc`] to Markdown: each endpoint becomes an `## METHOD /path` heading
//! followed by a fixed section order (notes, captures, headers, query parameters, query
//! string, fragment, request, response). Endpoints are rendered in API order.
use vstd::prelude::*;

use crate::docs::model::{
    docs_view, parts_view, params_view, part_text, ApiDoc, EndpointDoc, EndpointView,
    ParamDocView, ParamKind, PathPart, PathPartView,
};
use crate::text::{after_last_sep, decimal, decimal_text, join_lines, join_newline,
    last_path_segment, strs};

verus! {

/// `/part1/part2/...` for a non-empty path.
pub open spec fn slash_parts(path: Seq<PathPartView>) -> Seq<char>
    decreases path.len(),
{
    if path.len() == 0 {
        Seq::empty()
    } else {
        slash_parts(path.drop_last()) + "/"@ + part_text(path.last())
    }
}

/// The path line of an endpoint: `/` for the root, else `/` before every part.
pub open spec fn path_text(path: Seq<PathPartView>) -> Seq<char> {
    if path.len() == 0 {
        "/"@
    } else {
        slash_parts(path)
    }
}

/// Heading and blank line.
pub open spec fn heading_lines(ep: EndpointView) -> Seq<Seq<char>> {
    seq!["## "@ + ep.method + " "@ + path_text(ep.path), Seq::empty()]
}

/// Summary, description and operation id notes (each followed by a blank line).
pub open spec fn notes_lines(ep: EndpointView) -> Seq<Seq<char>> {
    (match ep.summary {
        Some(s) => seq!["### "@ + s, Seq::<char>::empty()],
        None => Seq::empty(),
    }) + (match ep.description {
        Some(d) => seq![d, Seq::<char>::empty()],
        None => Seq::empty(),
    }) + (match ep.operation_id {
        Some(o) => seq!["OperationId: "@ + o, Seq::<char>::empty()],
        None => Seq::empty(),
    })
}

/// One `- *name*: `type`` line per capture, in path order.
pub open spec fn capture_items(path: Seq<PathPartView>) -> Seq<Seq<char>>
    decreases path.len(),
{
    if path.len() == 0 {
        Seq::empty()
    } else {
        capture_items(path.drop_last()) + match path.last() {
            PathPartView::Static(_) => Seq::<Seq<char>>::empty(),
            PathPartView::Capture { name, rust_type } => seq![
                "- *"@ + name + "*: `"@ + rust_type + "`"@,
            ],
            PathPartView::CaptureAll { name, rust_type } => seq![
                "- *"@ + name + "*: `"@ + rust_type + "`"@,
            ],
        }
    }
}

/// The captures section (absent when the path has no captures).
pub open spec fn captures_lines(ep: EndpointView) -> Seq<Seq<char>> {
    let items = capture_items(ep.path);
    if items.len() == 0 {
        Seq::empty()
    } else {
        seq!["### Captures:"@, Seq::empty()] + items + seq![Seq::empty()]
    }
}

/// The line naming a header the endpoint is sensitive to.
pub open spec fn header_line(h: Seq<char>) -> Seq<char> {
    "- This endpoint is sensitive to the value of the **"@ + h + "** HTTP header."@
}

/// The headers section (absent when there are none).
pub open spec fn headers_lines(ep: EndpointView) -> Seq<Seq<char>> {
    if ep.headers.len() == 0 {
        Seq::empty()
    } else {
        seq!["### Headers:"@, Seq::empty()] + ep.headers.map_values(|h: Seq<char>| header_line(h))
            + seq![Seq::empty()]
    }
}

/// The lines describing one query parameter.
pub open spec fn param_lines(method: Seq<char>, p: ParamDocView) -> Seq<Seq<char>> {
    let values = "     - **Values**: `"@ + p.rust_type + "`"@;
    seq!["- "@ + p.name] + match p.kind {
        ParamKind::Normal => seq![values],
        ParamKind::List => seq![
            values,
            "     - This parameter is a **list**. All "@ + method
                + " parameters with the name "@ + p.name
                + "[] will forward their values in a list to the handler."@,
        ],
        ParamKind::Flag => seq![
            "     - This parameter is a **flag**. This means no value is expected to be associated to this parameter."@,
        ],
    }
}

/// The parameter descriptions, in declaration order.
pub open spec fn params_items(method: Seq<char>, ps: Seq<ParamDocView>) -> Seq<Seq<char>>
    decreases ps.len(),
{
    if ps.len() == 0 {
        Seq::empty()
    } else {
        params_items(method, ps.drop_last()) + param_lines(method, ps.last())
    }
}

/// The query parameters section (absent when there are none).
pub open spec fn params_lines(ep: EndpointView) -> Seq<Seq<char>> {
    if ep.query_params.len() == 0 {
        Seq::empty()
    } else {
        seq!["### "@ + ep.method + " Parameters:"@, Seq::empty()] + params_items(
            ep.method,
            ep.query_params,
        ) + seq![Seq::empty()]
    }
}

/// The query string section (present iff query-string capture is documented).
pub open spec fn query_string_lines(ep: EndpointView) -> Seq<Seq<char>> {
    if ep.query_string is None {
        Seq::empty()
    } else {
        seq![
            "### Query String:"@,
            Seq::empty(),
            "- Captures the raw query string when available and decoded ordered query pairs."@,
            Seq::empty(),
        ]
    }
}

/// The fragment section: the short type name and the description.
pub open spec fn fragment_lines(ep: EndpointView) -> Seq<Seq<char>> {
    match ep.fragment {
        None => Seq::empty(),
        Some(f) => seq![
            "### Fragment:"@,
            Seq::empty(),
            "- *"@ + after_last_sep(f.rust_type) + "*: "@ + f.description,
            Seq::empty(),
        ],
    }
}

/// One bullet per content type.
pub open spec fn content_type_lines(cts: Seq<Seq<char>>) -> Seq<Seq<char>> {
    cts.map_values(|ct: Seq<char>| "    - `"@ + ct + "`"@)
}

/// The request section (absent without a request body).
pub open spec fn request_lines(ep: EndpointView) -> Seq<Seq<char>> {
    match ep.request_body {
        None => Seq::empty(),
        Some(b) => seq![
            "### Request:"@,
            Seq::empty(),
            "- Decoded as: `"@ + b.rust_type + "`"@,
            "- Supported content types are:"@,
            Seq::empty(),
        ] + content_type_lines(b.content_types) + seq![Seq::empty()],
    }
}

/// The response section: the status and the response content types (or a no-body note).
pub open spec fn response_lines(ep: EndpointView) -> Seq<Seq<char>> {
    seq!["### Response:"@, Seq::empty(), "- Status code "@ + decimal(ep.status as nat)] + (if ep.response_types.len()
        == 0 {
        seq!["- No response body"@]
    } else {
        seq!["- Supported content types are:"@, Seq::empty()] + content_type_lines(ep.response_types)
    }) + seq![Seq::empty()]
}

/// All lines of one endpoint, in the fixed section order.
pub open spec fn endpoint_lines(ep: EndpointView) -> Seq<Seq<char>> {
    heading_lines(ep) + notes_lines(ep) + captures_lines(ep) + headers_lines(ep) + params_lines(ep)
        + query_string_lines(ep) + fragment_lines(ep) + request_lines(ep) + response_lines(ep)
}

/// All lines of a document, endpoint by endpoint.
pub open spec fn doc_lines(eps: Seq<EndpointView>) -> Seq<Seq<char>>
    decreases eps.len(),
{
    if eps.len() == 0 {
        Seq::empty()
    } else {
        doc_lines(eps.drop_last()) + endpoint_lines(eps.last())
    }
}

/// The Markdown text of a document: its lines joined by newlines, plus a trailing newline.
pub open spec fn markdown_text(eps: Seq<EndpointView>) -> Seq<char> {
    join_lines(doc_lines(eps)) + "\n"@
}

fn push_text(lines: &mut Vec<String>, s: String)
    ensures
        strs(final(lines)@) == strs(old(lines)@).push(s@),
{
    let ghost before = lines@;
    lines.push(s);
    assert(strs(lines@) =~= strs(before).push(s@));
}

fn push_blank(lines: &mut Vec<String>)
    ensures
        strs(final(lines)@) == strs(old(lines)@).push(Seq::<char>::empty()),
{
    proof {
        reveal_strlit("");
    }
    assert(""@ =~= Seq::<char>::empty());
    push_lit(lines, "");
}

fn push_lit(lines: &mut Vec<String>, s: &str)
    ensures
        strs(final(lines)@) == strs(old(lines)@).push(s@),
{
    push_text(lines, String::from_str(s));
}

/// Render `doc` to a Markdown string with a fixed section order per endpoint.
pub fn markdown(doc: &ApiDoc) -> (md: String)
    ensures
        md@ == markdown_text(doc@),
{
    let mut lines: Vec<String> = Vec::new();
    let eps = doc.endpoints();
    let ghost d = doc@;
    let mut i: usize = 0;
    assert(strs(lines@) =~= doc_lines(d.take(0)));
    while i < eps.len()
        invariant
            eps@ == doc.0@,
            d == doc@,
            d == docs_view(doc.0@),
            i <= eps@.len(),
            strs(lines@) == doc_lines(d.take(i as int)),
        decreases eps@.len() - i,
    {
        assert(d[i as int] == eps@[i as int]@);
        assert(d.take(i + 1).drop_last() =~= d.take(i as int));
        render_endpoint(&eps[i], &mut lines);
        i = i + 1;
    }
    assert(d.take(i as int) =~= d);
    let mut out = join_newline(&lines);
    out.append("\n");
    out
}

/// The path line of an endpoint.
pub fn render_path(path: &[PathPart]) -> (s: String)
    ensures
        s@ == path_text(parts_view(path@)),
{
    if path.len() == 0 {
        return String::from_str("/");
    }
    let ghost pv = parts_view(path@);
    let mut s = String::new();
    let mut i: usize = 0;
    assert(s@ =~= slash_parts(pv.take(0)));
    while i < path.len()
        invariant
            pv == parts_view(path@),
            i <= path@.len(),
            s@ == slash_parts(pv.take(i as int)),
        decreases path@.len() - i,
    {
        assert(pv.take(i + 1).drop_last() =~= pv.take(i as int));
        assert(pv[i as int] == path@[i as int]@);
        s.append("/");
        let r = path[i].render();
        s.append(r.as_str());
        i = i + 1;
    }
    assert(pv.take(i as int) =~= pv);
    s
}

fn render_endpoint(ep: &EndpointDoc, lines: &mut Vec<String>)
    ensures
        strs(final(lines)@) == strs(old(lines)@) + endpoint_lines(ep@),
{
    let ghost start = strs(lines@);
    let head = String::from_str("## ").concat(ep.method.as_str()).concat(" ").concat(
        render_path(ep.path.as_slice()).as_str(),
    );
    push_text(lines, head);
    push_blank(lines);
    assert(strs(lines@) =~= start + heading_lines(ep@));
    let ghost a = heading_lines(ep@);
    render_notes(ep, lines);
    let ghost b = a + notes_lines(ep@);
    assert(strs(lines@) =~= start + b);
    render_captures(ep, lines);
    let ghost c = b + captures_lines(ep@);
    assert(strs(lines@) =~= start + c);
    render_headers(ep, lines);
    let ghost d = c + headers_lines(ep@);
    assert(strs(lines@) =~= start + d);
    render_params(ep, lines);
    let ghost e = d + params_lines(ep@);
    assert(strs(lines@) =~= start + e);
    render_query_string(ep, lines);
    let ghost f = e + query_string_lines(ep@);
    assert(strs(lines@) =~= start + f);
    render_fragment(ep, lines);
    let ghost g = f + fragment_lines(ep@);
    assert(strs(lines@) =~= start + g);
    render_request(ep, lines);
    let ghost h = g + request_lines(ep@);
    assert(strs(lines@) =~= start + h);
    render_response(ep, lines);
    assert(h + response_lines(ep@) == endpoint_lines(ep@));
    assert(strs(lines@) =~= start + endpoint_lines(ep@));
}

fn render_notes(ep: &EndpointDoc, lines: &mut Vec<String>)
    ensures
        strs(final(lines)@) == strs(old(lines)@) + notes_lines(ep@),
{
    let ghost start = strs(lines@);
    if ep.summary.is_none() && ep.description.is_none() && ep.operation_id.is_none() {
        assert(notes_lines(ep@) =~= Seq::<Seq<char>>::empty());
        assert(strs(lines@) =~= start + notes_lines(ep@));
        return ;
    }
    let ghost s1 = match ep@.summary {
        Some(s) => seq!["### "@ + s, Seq::<char>::empty()],
        None => Seq::<Seq<char>>::empty(),
    };
    let ghost s2 = match ep@.description {
        Some(d) => seq![d, Seq::<char>::empty()],
        None => Seq::<Seq<char>>::empty(),
    };
    if let Some(summary) = &ep.summary {
        push_text(lines, String::from_str("### ").concat(summary.as_str()));
        push_blank(lines);
    }
    assert(strs(lines@) =~= start + s1);
    if let Some(description) = &ep.description {
        push_text(lines, description.clone());
        push_blank(lines);
    }
    assert(strs(lines@) =~= start + s1 + s2);
    if let Some(operation_id) = &ep.operation_id {
        push_text(lines, String::from_str("OperationId: ").concat(operation_id.as_str()));
        push_blank(lines);
    }
    assert(strs(lines@) =~= start + notes_lines(ep@));
}

fn capture_line(name: &String, rust_type: &str) -> (s: String)
    ensures
        s@ == "- *"@ + name@ + "*: `"@ + rust_type@ + "`"@,
{
    String::from_str("- *").concat(name.as_str()).concat("*: `").concat(rust_type).concat("`")
}

fn render_captures(ep: &EndpointDoc, lines: &mut Vec<String>)
    ensures
        strs(final(lines)@) == strs(old(lines)@) + captures_lines(ep@),
{
    let ghost start = strs(lines@);
    let ghost pv = ep@.path;
    let mut caps: Vec<String> = Vec::new();
    let mut i: usize = 0;
    assert(strs(caps@) =~= capture_items(pv.take(0)));
    while i < ep.path.len()
        invariant
            pv == parts_view(ep.path@),
            i <= ep.path@.len(),
            strs(caps@) == capture_items(pv.take(i as int)),
        decreases ep.path@.len() - i,
    {
        assert(pv.take(i + 1).drop_last() =~= pv.take(i as int));
        assert(pv[i as int] == ep.path@[i as int]@);
        let ghost before = strs(caps@);
        match &ep.path[i] {
            PathPart::Capture { name, rust_type } => {
                caps.push(capture_line(name, rust_type));
            },
            PathPart::CaptureAll { name, rust_type } => {
                caps.push(capture_line(name, rust_type));
            },
            PathPart::Static(_) => {},
        }
        i = i + 1;
        assert(strs(caps@) =~= capture_items(pv.take(i as int)));
    }
    assert(pv.take(i as int) =~= pv);
    if caps.len() == 0 {
        assert(strs(lines@) =~= start + captures_lines(ep@));
        return ;
    }
    push_lit(lines, "### Captures:");
    push_blank(lines);
    let mut j: usize = 0;
    let ghost head = strs(lines@);
    while j < caps.len()
        invariant
            j <= caps@.len(),
            strs(lines@) == head + strs(caps@).take(j as int),
        decreases caps@.len() - j,
    {
        assert(strs(caps@).take(j + 1) =~= strs(caps@).take(j as int).push(caps@[j as int]@));
        push_text(lines, caps[j].clone());
        j = j + 1;
        assert(strs(lines@) =~= head + strs(caps@).take(j as int));
    }
    assert(strs(caps@).take(j as int) =~= strs(caps@));
    push_blank(lines);
    assert(strs(lines@) =~= start + captures_lines(ep@));
}

fn render_headers(ep: &EndpointDoc, lines: &mut Vec<String>)
    ensures
        strs(final(lines)@) == strs(old(lines)@) + headers_lines(ep@),
{
    let ghost start = strs(lines@);
    let ghost hs = ep@.headers;
    if ep.headers.len() == 0 {
        assert(strs(lines@) =~= start + headers_lines(ep@));
        return ;
    }
    push_lit(lines, "### Headers:");
    push_blank(lines);
    let ghost head = strs(lines@);
    let ghost body = hs.map_values(|h: Seq<char>| header_line(h));
    let mut j: usize = 0;
    while j < ep.headers.len()
        invariant
            hs == strs(ep.headers@),
            body == hs.map_values(|h: Seq<char>| header_line(h)),
            j <= ep.headers@.len(),
            strs(lines@) == head + body.take(j as int),
        decreases ep.headers@.len() - j,
    {
        assert(body.take(j + 1) =~= body.take(j as int).push(header_line(ep.headers@[j as int]@)));
        let line = String::from_str("- This endpoint is sensitive to the value of the **").concat(
            ep.headers[j].as_str(),
        ).concat("** HTTP header.");
        push_text(lines, line);
        j = j + 1;
        assert(strs(lines@) =~= head + body.take(j as int));
    }
    assert(body.take(j as int) =~= body);
    push_blank(lines);
    assert(strs(lines@) =~= start + headers_lines(ep@));
}

fn render_params(ep: &EndpointDoc, lines: &mut Vec<String>)
    ensures
        strs(final(lines)@) == strs(old(lines)@) + params_lines(ep@),
{
    let ghost start = strs(lines@);
    let ghost ps = ep@.query_params;
    let ghost m = ep@.method;
    if ep.query_params.len() == 0 {
        assert(strs(lines@) =~= start + params_lines(ep@));
        return ;
    }
    push_text(lines, String::from_str("### ").concat(ep.method.as_str()).concat(" Parameters:"));
    push_blank(lines);
    let ghost head = strs(lines@);
    let mut j: usize = 0;
    assert(head =~= head + params_items(m, ps.take(0)));
    while j < ep.query_params.len()
        invariant
            ps == params_view(ep.query_params@),
            m == ep.method@,
            j <= ep.query_params@.len(),
            strs(lines@) == head + params_items(m, ps.take(j as int)),
        decreases ep.query_params@.len() - j,
    {
        assert(ps.take(j + 1).drop_last() =~= ps.take(j as int));
        assert(ps[j as int] == ep.query_params@[j as int]@);
        let ghost before = strs(lines@);
        let param = &ep.query_params[j];
        push_text(lines, String::from_str("- ").concat(param.name.as_str()));
        match param.kind {
            ParamKind::Normal => {
                push_text(
                    lines,
                    String::from_str("     - **Values**: `").concat(param.rust_type).concat("`"),
                );
            },
            ParamKind::List => {
                push_text(
                    lines,
                    String::from_str("     - **Values**: `").concat(param.rust_type).concat("`"),
                );
                push_text(
                    lines,
                    String::from_str("     - This parameter is a **list**. All ").concat(
                        ep.method.as_str(),
                    ).concat(" parameters with the name ").concat(param.name.as_str()).concat(
                        "[] will forward their values in a list to the handler.",
                    ),
                );
            },
            ParamKind::Flag => {
                push_lit(
                    lines,
                    "     - This parameter is a **flag**. This means no value is expected to be associated to this parameter.",
                );
            },
        }
        assert(strs(lines@) =~= before + param_lines(m, ps[j as int]));
        j = j + 1;
        assert(strs(lines@) =~= head + params_items(m, ps.take(j as int)));
    }
    assert(ps.take(j as int) =~= ps);
    push_blank(lines);
    assert(strs(lines@) =~= start + params_lines(ep@));
}

fn render_query_string(ep: &EndpointDoc, lines: &mut Vec<String>)
    ensures
        strs(final(lines)@) == strs(old(lines)@) + query_string_lines(ep@),
{
    let ghost start = strs(lines@);
    if ep.query_string.is_none() {
        assert(strs(lines@) =~= start + query_string_lines(ep@));
        return ;
    }
    push_lit(lines, "### Query String:");
    push_blank(lines);
    push_lit(
        lines,
        "- Captures the raw query string when available and decoded ordered query pairs.",
    );
    push_blank(lines);
    assert(strs(lines@) =~= start + query_string_lines(ep@));
}

/// The last `::` segment of a Rust type name.
pub fn short_type_name(rust_type: &str) -> (s: &str)
    ensures
        s@ == after_last_sep(rust_type@),
{
    last_path_segment(rust_type)
}

fn render_fragment(ep: &EndpointDoc, lines: &mut Vec<String>)
    ensures
        strs(final(lines)@) == strs(old(lines)@) + fragment_lines(ep@),
{
    let ghost start = strs(lines@);
    match &ep.fragment {
        None => {
            assert(strs(lines@) =~= start + fragment_lines(ep@));
        },
        Some(fragment) => {
            push_lit(lines, "### Fragment:");
            push_blank(lines);
            push_text(
                lines,
                String::from_str("- *").concat(short_type_name(fragment.rust_type)).concat(
                    "*: ",
                ).concat(fragment.description.as_str()),
            );
            push_blank(lines);
            assert(strs(lines@) =~= start + fragment_lines(ep@));
        },
    }
}

fn push_content_types(cts: &Vec<String>, lines: &mut Vec<String>)
    ensures
        strs(final(lines)@) == strs(old(lines)@) + content_type_lines(strs(cts@)),
{
    let ghost head = strs(lines@);
    let ghost body = content_type_lines(strs(cts@));
    let mut j: usize = 0;
    while j < cts.len()
        invariant
            body == content_type_lines(strs(cts@)),
            j <= cts@.len(),
            strs(lines@) == head + body.take(j as int),
        decreases cts@.len() - j,
    {
        assert(body.take(j + 1) =~= body.take(j as int).push("    - `"@ + cts@[j as int]@ + "`"@));
        push_text(lines, String::from_str("    - `").concat(cts[j].as_str()).concat("`"));
        j = j + 1;
        assert(strs(lines@) =~= head + body.take(j as int));
    }
    assert(body.take(j as int) =~= body);
}

fn render_request(ep: &EndpointDoc, lines: &mut Vec<String>)
    ensures
        strs(final(lines)@) == strs(old(lines)@) + request_lines(ep@),
{
    let ghost start = strs(lines@);
    match &ep.request_body {
        None => {
            assert(strs(lines@) =~= start + request_lines(ep@));
        },
        Some(body) => {
            push_lit(lines, "### Request:");
            push_blank(lines);
            push_text(lines, String::from_str("- Decoded as: `").concat(body.rust_type).concat("`"));
            push_lit(lines, "- Supported content types are:");
            push_blank(lines);
            push_content_types(&body.content_types, lines);
            push_blank(lines);
            assert(strs(lines@) =~= start + request_lines(ep@));
        },
    }
}

fn render_response(ep: &EndpointDoc, lines: &mut Vec<String>)
    ensures
        strs(final(lines)@) == strs(old(lines)@) + response_lines(ep@),
{
    let ghost start = strs(lines@);
    push_lit(lines, "### Response:");
    push_blank(lines);
    push_text(lines, String::from_str("- Status code ").concat(decimal_text(ep.status as u64).as_str()));
    if ep.response_types.len() == 0 {
        push_lit(lines, "- No response body");
    } else {
        push_lit(lines, "- Supported content types are:");
        push_blank(lines);
        push_content_types(&ep.response_types, lines);
    }
    push_blank(lines);
    assert(strs(lines@) =~= start + response_lines(ep@));
}

/// A query parameter is described by its `- name` line, then: a `**Values**` line giving its
/// Rust type unless it is a flag; the **list** line, naming the method and `name[]`, exactly
/// when it is a list; and the **flag** line exactly when it is a flag.
pub proof fn lemma_param_kind_lines(method: Seq<char>, p: ParamDocView)
    ensures
        param_lines(method, p)[0] == "- "@ + p.name,
        param_lines(method, p).contains("     - **Values**: `"@ + p.rust_type + "`"@) <==> !(p.kind is Flag),
        param_lines(method, p).contains(
            "     - This parameter is a **list**. All "@ + method + " parameters with the name "@
                + p.name + "[] will forward their values in a list to the handler."@,
        ) <==> p.kind is List,
        param_lines(method, p).contains(
            "     - This parameter is a **flag**. This means no value is expected to be associated to this parameter."@,
        ) <==> p.kind is Flag,
{
    reveal_strlit("- ");
    reveal_strlit("     - **Values**: `");
    reveal_strlit("     - This parameter is a **list**. All ");
    reveal_strlit(
        "     - This parameter is a **flag**. This means no value is expected to be associated to this parameter.",
    );
    let n = "- "@ + p.name;
    let v = "     - **Values**: `"@ + p.rust_type + "`"@;
    let l = "     - This parameter is a **list**. All "@ + method + " parameters with the name "@
        + p.name + "[] will forward their values in a list to the handler."@;
    let f =
        "     - This parameter is a **flag**. This means no value is expected to be associated to this parameter."@;
    assert(n[0] == '-');
    assert(v[0] == ' ' && v[7] == '*');
    assert(l[0] == ' ' && l[7] == 'T' && l[29] == 'l');
    assert(f[0] == ' ' && f[7] == 'T' && f[29] == 'f');
    assert(n != v && n != l && n != f && v != l && v != f && l != f);
    let lines = param_lines(method, p);
    match p.kind {
        ParamKind::Normal => {
            assert(lines =~= seq![n, v]);
            assert(lines[1] == v);
            assert(!lines.contains(l));
            assert(!lines.contains(f));
        },
        ParamKind::List => {
            assert(lines =~= seq![n, v, l]);
            assert(lines[1] == v);
            assert(lines[2] == l);
            assert(!lines.contains(f));
        },
        ParamKind::Flag => {
            assert(lines =~= seq![n, f]);
            assert(lines[1] == f);
            assert(!lines.contains(v));
            assert(!lines.contains(l));
        },
    }
}

/// Every documented query parameter gets its `- name` line in the parameters section.
pub proof fn lemma_params_listed(method: Seq<char>, ps: Seq<ParamDocView>)
    ensures
        forall|j: int| 0 <= j < ps.len() ==> params_items(method, ps).contains(
            "- "@ + (#[trigger] ps[j]).name,
        ),
    decreases ps.len(),
{
    if ps.len() > 0 {
        let pre = ps.drop_last();
        lemma_params_listed(method, pre);
        let a = params_items(method, pre);
        let b = param_lines(method, ps.last());
        lemma_param_kind_lines(method, ps.last());
        assert forall|j: int| 0 <= j < ps.len() implies params_items(method, ps).contains(
            "- "@ + (#[trigger] ps[j]).name,
        ) by {
            if j < pre.len() {
                assert(pre[j] == ps[j]);
                let k = choose|k: int| 0 <= k < a.len() && a[k] == "- "@ + pre[j].name;
                assert((a + b)[k] == a[k]);
            } else {
                assert((a + b)[a.len() as int] == b[0]);
            }
        }
    }
}

/// The response section names the status code, and says there is no response body exactly
/// when the endpoint lists no response content type; each listed type gets its bullet.
pub proof fn lemma_response_section(ep: EndpointView)
    ensures
        response_lines(ep)[2] == "- Status code "@ + decimal(ep.status as nat),
        response_lines(ep).contains("- No response body"@) <==> ep.response_types.len() == 0,
        forall|j: int| 0 <= j < ep.response_types.len() ==> response_lines(ep).contains(
            "    - `"@ + #[trigger] ep.response_types[j] + "`"@,
        ),
{
    reveal_strlit("### Response:");
    reveal_strlit("- Status code ");
    reveal_strlit("- No response body");
    reveal_strlit("- Supported content types are:");
    reveal_strlit("    - `");
    let nb = "- No response body"@;
    let lines = response_lines(ep);
    let head = seq!["### Response:"@, Seq::empty(), "- Status code "@ + decimal(ep.status as nat)];
    assert(nb[0] == '-' && nb[2] == 'N');
    assert(("### Response:"@)[0] == '#');
    assert(("- Status code "@ + decimal(ep.status as nat))[2] == 'S');
    assert(("- Supported content types are:"@)[2] == 'S');
    if ep.response_types.len() == 0 {
        assert(lines =~= head + seq![nb] + seq![Seq::<char>::empty()]);
        assert(lines[3] == nb);
    } else {
        let cts = content_type_lines(ep.response_types);
        let mid = seq!["- Supported content types are:"@, Seq::<char>::empty()] + cts;
        assert(lines =~= head + mid + seq![Seq::<char>::empty()]);
        assert forall|k: int| 0 <= k < lines.len() implies lines[k] != nb by {
            if k == 0 {
                assert(lines[k][0] == '#');
            } else if k == 2 || k == 3 {
                assert(lines[k][2] == 'S');
            } else if 5 <= k < 5 + cts.len() {
                assert(lines[k] == "    - `"@ + ep.response_types[k - 5] + "`"@);
                assert(lines[k][0] == ' ');
            } else {
                assert(lines[k].len() == 0);
            }
        }
        assert forall|j: int| 0 <= j < ep.response_types.len() implies lines.contains(
            "    - `"@ + #[trigger] ep.response_types[j] + "`"@,
        ) by {
            assert(lines[5 + j] == cts[j]);
        }
    }
}

/// An empty document renders as a single newline.
pub proof fn lemma_empty_markdown()
    ensures
        markdown_text(Seq::empty()) == "\n"@,
{
    assert(doc_lines(Seq::<EndpointView>::empty()) =~= Seq::<Seq<char>>::empty());
    assert(join_lines(Seq::<Seq<char>>::empty()) + "\n"@ =~= "\n"@);
}

/// Every endpoint's section starts with its `## METHOD /path` heading, and the document's
/// lines are the endpoints' sections in API order.
pub proof fn lemma_doc_lines_concat(eps: Seq<EndpointView>, more: Seq<EndpointView>)
    ensures
        doc_lines(eps + more) == doc_lines(eps) + doc_lines(more),
        forall|i: int| 0 <= i < eps.len() ==> (#[trigger] endpoint_lines(eps[i]))[0] == "## "@ + eps[i].method + " "@ + path_text(eps[i].path),
    decreases more.len(),
{
    if more.len() == 0 {
        assert(eps + more =~= eps);
        assert(doc_lines(eps) + doc_lines(more) =~= doc_lines(eps));
    } else {
        lemma_doc_lines_concat(eps, more.drop_last());
        assert((eps + more).drop_last() =~= eps + more.drop_last());
        assert(doc_lines(eps + more) =~= doc_lines(eps) + doc_lines(more));
    }
}

} // verus!
