//! The documentation value model: a flat, insertion-ordered list of endpoints, where
//! endpoints sharing a `(path, method)` key are merged left-biased.
use vstd::prelude::*;

use crate::text::{contains_text, str_eq, strs, strs_eq};

verus! {

/// One segment of an endpoint path.
#[derive(Debug, Clone, PartialEq, Eq)]
pub enum PathPart {
    /// A literal path segment, e.g. `users`.
    Static(String),
    /// A single-segment capture, e.g. `Capture "id" u64`.
    Capture { name: String, rust_type: &'static str },
    /// A capture of all remaining segments.
    CaptureAll { name: String, rust_type: &'static str },
}

/// Abstract value of a [`PathPart`].
pub enum PathPartView {
    Static(Seq<char>),
    Capture { name: Seq<char>, rust_type: Seq<char> },
    CaptureAll { name: Seq<char>, rust_type: Seq<char> },
}

impl View for PathPart {
    type V = PathPartView;

    open spec fn view(&self) -> PathPartView {
        match self {
            PathPart::Static(s) => PathPartView::Static(s@),
            PathPart::Capture { name, rust_type } => PathPartView::Capture {
                name: name@,
                rust_type: rust_type@,
            },
            PathPart::CaptureAll { name, rust_type } => PathPartView::CaptureAll {
                name: name@,
                rust_type: rust_type@,
            },
        }
    }
}

/// How a path part appears in a path line: the literal, or `:name` for a capture.
pub open spec fn part_text(p: PathPartView) -> Seq<char> {
    match p {
        PathPartView::Static(s) => s,
        PathPartView::Capture { name, .. } => ":"@ + name,
        PathPartView::CaptureAll { name, .. } => ":"@ + name,
    }
}

impl PathPart {
    /// Render this part as it appears in a path line.
    pub fn render(&self) -> (s: String)
        ensures
            s@ == part_text(self@),
    {
        match self {
            PathPart::Static(s) => s.clone(),
            PathPart::Capture { name, .. } => String::from_str(":").concat(name.as_str()),
            PathPart::CaptureAll { name, .. } => String::from_str(":").concat(name.as_str()),
        }
    }
}

/// What kind of query parameter a [`ParamDoc`] describes.
#[derive(Debug, Clone, Copy, PartialEq, Eq, Structural)]
pub enum ParamKind {
    /// A single-valued `QueryParam`.
    Normal,
    /// A repeated `QueryParams`.
    List,
    /// A valueless `QueryFlag`.
    Flag,
}

/// A documented query parameter.
#[derive(Debug, Clone, PartialEq, Eq)]
pub struct ParamDoc {
    /// The query key.
    pub name: String,
    /// Single, list, or flag.
    pub kind: ParamKind,
    /// The Rust type each value is parsed as (empty for a flag).
    pub rust_type: &'static str,
}

/// Abstract value of a [`ParamDoc`].
pub struct ParamDocView {
    pub name: Seq<char>,
    pub kind: ParamKind,
    pub rust_type: Seq<char>,
}

impl View for ParamDoc {
    type V = ParamDocView;

    open spec fn view(&self) -> ParamDocView {
        ParamDocView { name: self.name@, kind: self.kind, rust_type: self.rust_type@ }
    }
}

/// A documented request body: accepted content types (in their textual form) and the Rust
/// type it is decoded as.
#[derive(Debug, Clone, PartialEq, Eq)]
pub struct BodyDoc {
    /// The media types the body may be sent as.
    pub content_types: Vec<String>,
    /// The Rust type the body is decoded as.
    pub rust_type: &'static str,
}

/// Abstract value of a [`BodyDoc`].
pub struct BodyDocView {
    pub content_types: Seq<Seq<char>>,
    pub rust_type: Seq<char>,
}

impl View for BodyDoc {
    type V = BodyDocView;

    open spec fn view(&self) -> BodyDocView {
        BodyDocView { content_types: strs(self.content_types@), rust_type: self.rust_type@ }
    }
}

/// A documented URI fragment.
#[derive(Debug, Clone, PartialEq, Eq)]
pub struct FragmentDoc {
    /// The Rust type rendered into the fragment.
    pub rust_type: &'static str,
    /// Human-readable fragment description.
    pub description: String,
}

/// Abstract value of a [`FragmentDoc`].
pub struct FragmentDocView {
    pub rust_type: Seq<char>,
    pub description: Seq<char>,
}

impl View for FragmentDoc {
    type V = FragmentDocView;

    open spec fn view(&self) -> FragmentDocView {
        FragmentDocView { rust_type: self.rust_type@, description: self.description@ }
    }
}

/// Query-string capture metadata.
#[derive(Debug, Clone, Copy, PartialEq, Eq, Structural)]
pub struct QueryStringDoc {
    /// Whether decoded ordered pairs are available to the handler.
    pub decoded_ordered_pairs: bool,
    /// Whether the original raw query string is available when supplied.
    pub raw_query_available: bool,
}

/// A single fully-resolved endpoint: a path/extractor chain ending in a verb.
/// The method is held by its name (e.g. `GET`) and the status by its code.
#[derive(Debug, Clone, PartialEq, Eq)]
pub struct EndpointDoc {
    /// The path, in segment order.
    pub path: Vec<PathPart>,
    /// The HTTP method name.
    pub method: String,
    /// The declared success status code.
    pub status: u16,
    /// Documented query parameters, in declaration order.
    pub query_params: Vec<ParamDoc>,
    /// Names of headers the endpoint is sensitive to.
    pub headers: Vec<String>,
    /// The request body, if any.
    pub request_body: Option<BodyDoc>,
    /// The response content types (empty for a no-content verb).
    pub response_types: Vec<String>,
    /// An optional one-line summary.
    pub summary: Option<String>,
    /// An optional longer description.
    pub description: Option<String>,
    /// An optional stable operation identifier.
    pub operation_id: Option<String>,
    /// Optional URI fragment metadata.
    pub fragment: Option<FragmentDoc>,
    /// Optional full query-string capture metadata.
    pub query_string: Option<QueryStringDoc>,
}

/// Abstract value of an [`EndpointDoc`].
pub struct EndpointView {
    pub path: Seq<PathPartView>,
    pub method: Seq<char>,
    pub status: u16,
    pub query_params: Seq<ParamDocView>,
    pub headers: Seq<Seq<char>>,
    pub request_body: Option<BodyDocView>,
    pub response_types: Seq<Seq<char>>,
    pub summary: Option<Seq<char>>,
    pub description: Option<Seq<char>>,
    pub operation_id: Option<Seq<char>>,
    pub fragment: Option<FragmentDocView>,
    pub query_string: Option<QueryStringDoc>,
}

/// The view of an optional string.
pub open spec fn opt_text(o: Option<String>) -> Option<Seq<char>> {
    match o {
        Some(s) => Some(s@),
        None => None,
    }
}

/// The views of a sequence of path parts.
pub open spec fn parts_view(v: Seq<PathPart>) -> Seq<PathPartView> {
    v.map_values(|p: PathPart| p@)
}

/// The views of a sequence of query parameter docs.
pub open spec fn params_view(v: Seq<ParamDoc>) -> Seq<ParamDocView> {
    v.map_values(|p: ParamDoc| p@)
}

impl View for EndpointDoc {
    type V = EndpointView;

    open spec fn view(&self) -> EndpointView {
        EndpointView {
            path: parts_view(self.path@),
            method: self.method@,
            status: self.status,
            query_params: params_view(self.query_params@),
            headers: strs(self.headers@),
            request_body: match self.request_body {
                Some(b) => Some(b@),
                None => None,
            },
            response_types: strs(self.response_types@),
            summary: opt_text(self.summary),
            description: opt_text(self.description),
            operation_id: opt_text(self.operation_id),
            fragment: match self.fragment {
                Some(f) => Some(f@),
                None => None,
            },
            query_string: self.query_string,
        }
    }
}

/// The merge key of an endpoint: its rendered path parts and its method.
pub open spec fn key_of(e: EndpointView) -> (Seq<Seq<char>>, Seq<char>) {
    (e.path.map_values(|p: PathPartView| part_text(p)), e.method)
}

/// `acc` extended by the items it does not yet contain, in order.
pub open spec fn add_missing(acc: Seq<Seq<char>>, items: Seq<Seq<char>>) -> Seq<Seq<char>>
    decreases items.len(),
{
    if items.len() == 0 {
        acc
    } else {
        let r = add_missing(acc, items.drop_last());
        if r.contains(items.last()) {
            r
        } else {
            r.push(items.last())
        }
    }
}

/// Adding the missing items keeps `acc` as a prefix and yields exactly the texts found in
/// `acc` or in `items`.
pub proof fn lemma_add_missing(acc: Seq<Seq<char>>, items: Seq<Seq<char>>)
    ensures
        add_missing(acc, items).len() >= acc.len(),
        add_missing(acc, items).take(acc.len() as int) == acc,
        forall|t: Seq<char>| #[trigger]
            add_missing(acc, items).contains(t) <==> acc.contains(t) || items.contains(t),
    decreases items.len(),
{
    if items.len() > 0 {
        let p = items.drop_last();
        let x = items.last();
        lemma_add_missing(acc, p);
        let r = add_missing(acc, p);
        assert forall|t: Seq<char>| #[trigger] items.contains(t) <==> p.contains(t) || t == x by {
            if items.contains(t) {
                let j = choose|j: int| 0 <= j < items.len() && items[j] == t;
                if j < p.len() {
                    assert(p[j] == t);
                }
            }
            if p.contains(t) {
                let j = choose|j: int| 0 <= j < p.len() && p[j] == t;
                assert(items[j] == t);
            }
            if t == x {
                assert(items[items.len() - 1] == t);
            }
        }
        if !r.contains(x) {
            assert(r.push(x).take(acc.len() as int) =~= r.take(acc.len() as int));
            assert forall|t: Seq<char>| #[trigger] r.push(x).contains(t) <==> r.contains(t) || t == x by {
                if r.push(x).contains(t) {
                    let j = choose|j: int| 0 <= j < r.push(x).len() && r.push(x)[j] == t;
                    if j < r.len() {
                        assert(r[j] == t);
                    }
                }
                if r.contains(t) {
                    let j = choose|j: int| 0 <= j < r.len() && r[j] == t;
                    assert(r.push(x)[j] == t);
                }
                if t == x {
                    assert(r.push(x)[r.len() as int] == t);
                }
            }
        }
    }
}

/// Left-biased merge of two actions sharing a key: the list fields concatenate, the response
/// types are unioned in left-then-right order, and every optional field keeps the left value
/// when present. Path, method and status come from the left.
pub open spec fn combine_view(l: EndpointView, r: EndpointView) -> EndpointView {
    EndpointView {
        path: l.path,
        method: l.method,
        status: l.status,
        query_params: l.query_params + r.query_params,
        headers: l.headers + r.headers,
        request_body: if l.request_body is Some { l.request_body } else { r.request_body },
        response_types: add_missing(l.response_types, r.response_types),
        summary: if l.summary is Some { l.summary } else { r.summary },
        description: if l.description is Some { l.description } else { r.description },
        operation_id: if l.operation_id is Some { l.operation_id } else { r.operation_id },
        fragment: if l.fragment is Some { l.fragment } else { r.fragment },
        query_string: if l.query_string is Some { l.query_string } else { r.query_string },
    }
}

/// The empty accumulator: `GET /`, status 200, nothing else.
pub open spec fn empty_view() -> EndpointView {
    EndpointView {
        path: Seq::empty(),
        method: "GET"@,
        status: 200,
        query_params: Seq::empty(),
        headers: Seq::empty(),
        request_body: None,
        response_types: Seq::empty(),
        summary: None,
        description: None,
        operation_id: None,
        fragment: None,
        query_string: None,
    }
}

impl EndpointDoc {
    /// A fresh accumulator: empty path, `GET`, status 200.
    pub fn empty() -> (e: EndpointDoc)
        ensures
            e@ == empty_view(),
    {
        let e = EndpointDoc {
            path: Vec::new(),
            method: String::from_str("GET"),
            status: 200,
            query_params: Vec::new(),
            headers: Vec::new(),
            request_body: None,
            response_types: Vec::new(),
            summary: None,
            description: None,
            operation_id: None,
            fragment: None,
            query_string: None,
        };
        assert(e@.path =~= Seq::<PathPartView>::empty());
        assert(e@.query_params =~= Seq::<ParamDocView>::empty());
        assert(e@.headers =~= Seq::<Seq<char>>::empty());
        assert(e@.response_types =~= Seq::<Seq<char>>::empty());
        e
    }

    /// The merge key: the rendered path parts and the method name.
    pub fn key(&self) -> (k: (Vec<String>, String))
        ensures
            strs(k.0@) == key_of(self@).0,
            k.1@ == key_of(self@).1,
    {
        let mut parts: Vec<String> = Vec::new();
        let mut i: usize = 0;
        while i < self.path.len()
            invariant
                i <= self.path@.len(),
                parts@.len() == i,
                strs(parts@) =~= key_of(self@).0.take(i as int),
            decreases self.path@.len() - i,
        {
            let r = self.path[i].render();
            proof {
                assert(parts_view(self.path@)[i as int] == self.path@[i as int]@);
                assert(key_of(self@).0[i as int] == part_text(self.path@[i as int]@));
            }
            let ghost old_parts = parts@;
            parts.push(r);
            proof {
                assert(parts@[i as int]@ == part_text(self.path@[i as int]@));
                assert forall|j: int| 0 <= j < i + 1 implies strs(parts@)[j] == key_of(self@).0.take(i + 1)[j] by {
                    if j < i {
                        assert(parts@[j] == old_parts[j]);
                        assert(strs(old_parts)[j] == key_of(self@).0.take(i as int)[j]);
                    }
                }
            }
            i = i + 1;
            assert(strs(parts@) =~= key_of(self@).0.take(i as int));
        }
        assert(key_of(self@).0.take(i as int) =~= key_of(self@).0);
        (parts, self.method.clone())
    }

    /// Left-biased merge of `other` (same key) into `self`.
    pub fn combine(&mut self, other: EndpointDoc)
        ensures
            final(self)@ == combine_view(old(self)@, other@),
            final(self).query_params@ == old(self).query_params@ + other.query_params@,
            final(self).headers@ == old(self).headers@ + other.headers@,
    {
        let mut other = other;
        let ghost l = self@;
        let ghost r = other@;
        let ghost lq = self.query_params@;
        let ghost rq = other.query_params@;
        let ghost lh = self.headers@;
        let ghost rh = other.headers@;
        self.query_params.append(&mut other.query_params);
        self.headers.append(&mut other.headers);
        assert(params_view(lq + rq) =~= params_view(lq) + params_view(rq));
        assert(strs(lh + rh) =~= strs(lh) + strs(rh));
        let mut merged: Vec<String> = Vec::new();
        std::mem::swap(&mut merged, &mut self.response_types);
        let mut i: usize = 0;
        while i < other.response_types.len()
            invariant
                i <= other.response_types@.len(),
                strs(other.response_types@) == r.response_types,
                strs(merged@) == add_missing(l.response_types, r.response_types.take(i as int)),
            decreases other.response_types@.len() - i,
        {
            let t = other.response_types[i].clone();
            assert(r.response_types.take(i + 1).drop_last() =~= r.response_types.take(i as int));
            assert(r.response_types[i as int] == t@);
            if !contains_text(&merged, t.as_str()) {
                let ghost before = merged@;
                merged.push(t);
                assert(strs(merged@) =~= strs(before).push(t@));
            }
            i = i + 1;
        }
        assert(r.response_types.take(i as int) =~= r.response_types);
        self.response_types = merged;
        if self.request_body.is_none() {
            self.request_body = other.request_body;
        }
        if self.summary.is_none() {
            self.summary = other.summary;
        }
        if self.description.is_none() {
            self.description = other.description;
        }
        if self.operation_id.is_none() {
            self.operation_id = other.operation_id;
        }
        if self.fragment.is_none() {
            self.fragment = other.fragment;
        }
        if self.query_string.is_none() {
            self.query_string = other.query_string;
        }
    }
}


/// The views of a sequence of endpoints.
pub open spec fn docs_view(v: Seq<EndpointDoc>) -> Seq<EndpointView> {
    v.map_values(|e: EndpointDoc| e@)
}

/// Index of the first endpoint of `doc` whose key is `k`, or -1 when there is none.
pub open spec fn key_index(doc: Seq<EndpointView>, k: (Seq<Seq<char>>, Seq<char>)) -> int
    decreases doc.len(),
{
    if doc.len() == 0 {
        -1
    } else {
        let r = key_index(doc.drop_last(), k);
        if r >= 0 {
            r
        } else if key_of(doc.last()) == k {
            doc.len() - 1
        } else {
            -1
        }
    }
}

/// `doc` after pushing `ep`: merged (left-biased) into the first endpoint with the same key,
/// else appended.
pub open spec fn push_view(doc: Seq<EndpointView>, ep: EndpointView) -> Seq<EndpointView> {
    let i = key_index(doc, key_of(ep));
    if i >= 0 {
        doc.update(i, combine_view(doc[i], ep))
    } else {
        doc.push(ep)
    }
}

/// `doc` after pushing every endpoint of `eps`, in order.
pub open spec fn extend_view(doc: Seq<EndpointView>, eps: Seq<EndpointView>) -> Seq<EndpointView>
    decreases eps.len(),
{
    if eps.len() == 0 {
        doc
    } else {
        push_view(extend_view(doc, eps.drop_last()), eps.last())
    }
}

/// No two endpoints of the document share a `(path, method)` key.
pub open spec fn unique_keys(doc: Seq<EndpointView>) -> bool {
    forall|i: int, j: int|
        0 <= i < doc.len() && 0 <= j < doc.len() && i != j ==> key_of(doc[i]) != key_of(doc[j])
}

/// `key_index` finds the first endpoint carrying the key, and -1 means none carries it.
pub proof fn lemma_key_index(doc: Seq<EndpointView>, k: (Seq<Seq<char>>, Seq<char>))
    ensures
        -1 <= key_index(doc, k) < doc.len(),
        key_index(doc, k) >= 0 ==> key_of(doc[key_index(doc, k)]) == k,
        forall|j: int| 0 <= j < doc.len() && j < key_index(doc, k) ==> key_of(doc[j]) != k,
        key_index(doc, k) < 0 ==> forall|j: int| 0 <= j < doc.len() ==> key_of(doc[j]) != k,
    decreases doc.len(),
{
    if doc.len() > 0 {
        lemma_key_index(doc.drop_last(), k);
        assert forall|j: int| 0 <= j < doc.len() - 1 implies doc.drop_last()[j] == doc[j] by {}
    }
}

/// Merging keeps the left endpoint's key.
pub proof fn lemma_combine_keeps_key(l: EndpointView, r: EndpointView)
    ensures
        key_of(combine_view(l, r)) == key_of(l),
        combine_view(l, r).status == l.status,
{
    assert(key_of(combine_view(l, r)).0 =~= key_of(l).0);
}

/// Pushing keeps every existing endpoint's key and status (left wins), keeps keys unique,
/// and either merges (same length) or appends the new endpoint.
pub proof fn lemma_push_left_biased(doc: Seq<EndpointView>, ep: EndpointView)
    ensures
        push_view(doc, ep).len() >= doc.len(),
        forall|i: int|
            0 <= i < doc.len() ==> key_of(#[trigger] push_view(doc, ep)[i]) == key_of(doc[i])
                && push_view(doc, ep)[i].status == doc[i].status,
        (exists|i: int| 0 <= i < doc.len() && key_of(doc[i]) == key_of(ep)) ==> push_view(
            doc,
            ep,
        ).len() == doc.len(),
        (forall|i: int| 0 <= i < doc.len() ==> key_of(doc[i]) != key_of(ep)) ==> push_view(doc, ep)
            == doc.push(ep),
        unique_keys(doc) ==> unique_keys(push_view(doc, ep)),
{
    lemma_key_index(doc, key_of(ep));
    let i = key_index(doc, key_of(ep));
    if i >= 0 {
        lemma_combine_keeps_key(doc[i], ep);
    }
}

/// Extending keeps every endpoint of the left document in place with its key and status
/// (the left document wins on collisions) and keeps keys unique.
pub proof fn lemma_extend_left_biased(doc: Seq<EndpointView>, eps: Seq<EndpointView>)
    ensures
        extend_view(doc, eps).len() >= doc.len(),
        forall|i: int|
            0 <= i < doc.len() ==> key_of(#[trigger] extend_view(doc, eps)[i]) == key_of(doc[i])
                && extend_view(doc, eps)[i].status == doc[i].status,
        unique_keys(doc) ==> unique_keys(extend_view(doc, eps)),
    decreases eps.len(),
{
    if eps.len() > 0 {
        lemma_extend_left_biased(doc, eps.drop_last());
        let mid = extend_view(doc, eps.drop_last());
        lemma_push_left_biased(mid, eps.last());
        assert forall|i: int| 0 <= i < doc.len() implies key_of(
            #[trigger] extend_view(doc, eps)[i],
        ) == key_of(doc[i]) && extend_view(doc, eps)[i].status == doc[i].status by {
            assert(key_of(push_view(mid, eps.last())[i]) == key_of(mid[i]));
        }
    }
}

/// Merging two endpoints documents everything of both: the query parameters and headers of
/// the left come first, then those of the right, in order; the response types of the left
/// stay in front, and a response type is listed exactly when either side lists it.
pub proof fn lemma_combine_documents_both(l: EndpointView, r: EndpointView)
    ensures
        combine_view(l, r).query_params == l.query_params + r.query_params,
        combine_view(l, r).headers == l.headers + r.headers,
        combine_view(l, r).response_types.take(l.response_types.len() as int) == l.response_types,
        forall|t: Seq<char>| #[trigger]
            combine_view(l, r).response_types.contains(t) <==> l.response_types.contains(t)
                || r.response_types.contains(t),
{
    lemma_add_missing(l.response_types, r.response_types);
}

/// Merging is left-biased: path, method and status are the left's, and each optional field
/// keeps the left's value when it has one and takes the right's only when it has none.
pub proof fn lemma_combine_left_wins(l: EndpointView, r: EndpointView)
    ensures
        combine_view(l, r).path == l.path,
        combine_view(l, r).method == l.method,
        combine_view(l, r).status == l.status,
        l.request_body is Some ==> combine_view(l, r).request_body == l.request_body,
        l.request_body is None ==> combine_view(l, r).request_body == r.request_body,
        l.summary is Some ==> combine_view(l, r).summary == l.summary,
        l.summary is None ==> combine_view(l, r).summary == r.summary,
        l.description is Some ==> combine_view(l, r).description == l.description,
        l.description is None ==> combine_view(l, r).description == r.description,
        l.operation_id is Some ==> combine_view(l, r).operation_id == l.operation_id,
        l.operation_id is None ==> combine_view(l, r).operation_id == r.operation_id,
        l.fragment is Some ==> combine_view(l, r).fragment == l.fragment,
        l.fragment is None ==> combine_view(l, r).fragment == r.fragment,
        l.query_string is Some ==> combine_view(l, r).query_string == l.query_string,
        l.query_string is None ==> combine_view(l, r).query_string == r.query_string,
{
}

/// Pushing an endpoint whose key the document already carries merges it into the first such
/// endpoint, in place: the document keeps its length, and that endpoint gains the pushed
/// endpoint's query parameters and headers after its own and every response type of both.
pub proof fn lemma_push_merges(doc: Seq<EndpointView>, ep: EndpointView, i: int)
    requires
        0 <= i < doc.len(),
        key_of(doc[i]) == key_of(ep),
        forall|j: int| 0 <= j < i ==> key_of(doc[j]) != key_of(ep),
    ensures
        push_view(doc, ep).len() == doc.len(),
        push_view(doc, ep)[i].query_params == doc[i].query_params + ep.query_params,
        push_view(doc, ep)[i].headers == doc[i].headers + ep.headers,
        forall|t: Seq<char>| #[trigger]
            push_view(doc, ep)[i].response_types.contains(t) <==> doc[i].response_types.contains(t)
                || ep.response_types.contains(t),
        forall|j: int| 0 <= j < doc.len() && j != i ==> push_view(doc, ep)[j] == doc[j],
{
    lemma_key_index(doc, key_of(ep));
    assert(key_index(doc, key_of(ep)) == i);
    lemma_combine_documents_both(doc[i], ep);
}

/// The whole documentation model: every endpoint of an API in left-to-right order, with
/// endpoints sharing a `(path, method)` key merged.
#[derive(Debug, Clone, PartialEq, Eq)]
pub struct ApiDoc(pub Vec<EndpointDoc>);

impl View for ApiDoc {
    type V = Seq<EndpointView>;

    open spec fn view(&self) -> Seq<EndpointView> {
        docs_view(self.0@)
    }
}

fn key_eq(a: &(Vec<String>, String), b: &(Vec<String>, String)) -> (res: bool)
    ensures
        res == ((strs(a.0@), a.1@) == (strs(b.0@), b.1@)),
{
    strs_eq(&a.0, &b.0) && str_eq(a.1.as_str(), b.1.as_str())
}

/// Position of the first endpoint sharing `ep`'s key.
fn find_key(eps: &Vec<EndpointDoc>, ep: &EndpointDoc) -> (r: Option<usize>)
    ensures
        r matches Some(i) ==> i as int == key_index(docs_view(eps@), key_of(ep@)),
        r is None ==> key_index(docs_view(eps@), key_of(ep@)) == -1,
{
    let key = ep.key();
    let ghost d = docs_view(eps@);
    proof {
        lemma_key_index(d, key_of(ep@));
    }
    let mut i: usize = 0;
    while i < eps.len()
        invariant
            d == docs_view(eps@),
            i <= eps@.len(),
            strs(key.0@) == key_of(ep@).0,
            key.1@ == key_of(ep@).1,
            forall|j: int| 0 <= j < i ==> key_of(d[j]) != key_of(ep@),
            -1 <= key_index(d, key_of(ep@)) < d.len(),
            key_index(d, key_of(ep@)) >= 0 ==> key_of(d[key_index(d, key_of(ep@))]) == key_of(ep@),
            forall|j: int|
                0 <= j < d.len() && j < key_index(d, key_of(ep@)) ==> key_of(d[j]) != key_of(ep@),
            key_index(d, key_of(ep@)) < 0 ==> forall|j: int|
                0 <= j < d.len() ==> key_of(d[j]) != key_of(ep@),
        decreases eps@.len() - i,
    {
        let k2 = eps[i].key();
        assert(d[i as int] == eps@[i as int]@);
        if key_eq(&k2, &key) {
            return Some(i);
        }
        i = i + 1;
    }
    None
}

impl ApiDoc {
    /// An empty document.
    pub fn empty() -> (d: ApiDoc)
        ensures
            d@ == Seq::<EndpointView>::empty(),
    {
        let d = ApiDoc(Vec::new());
        assert(d@ =~= Seq::<EndpointView>::empty());
        d
    }

    /// A document with a single endpoint.
    pub fn single(ep: EndpointDoc) -> (d: ApiDoc)
        ensures
            d@ == seq![ep@],
    {
        let mut v: Vec<EndpointDoc> = Vec::new();
        v.push(ep);
        let d = ApiDoc(v);
        assert(d@ =~= seq![ep@]);
        d
    }

    /// All endpoints, in order.
    pub fn endpoints(&self) -> (e: &[EndpointDoc])
        ensures
            e@ == self.0@,
    {
        self.0.as_slice()
    }

    /// Append `ep`, merging it (left-biased) into an existing endpoint with the same
    /// `(path, method)` key, else pushing it.
    pub fn push(&mut self, ep: EndpointDoc)
        ensures
            final(self)@ == push_view(old(self)@, ep@),
    {
        let ghost d = self@;
        proof {
            lemma_key_index(d, key_of(ep@));
        }
        match find_key(&self.0, &ep) {
            Some(i) => {
                let mut e = self.0.remove(i);
                e.combine(ep);
                self.0.insert(i, e);
                assert(self@ =~= d.update(i as int, combine_view(d[i as int], ep@)));
            },
            None => {
                self.0.push(ep);
                assert(self@ =~= d.push(ep@));
            },
        }
    }

    /// Concatenate `other` into `self`, left-biased: `self`'s endpoints keep precedence;
    /// `other`'s are appended or merged in order.
    pub fn extend(&mut self, other: ApiDoc)
        ensures
            final(self)@ == extend_view(old(self)@, other@),
    {
        let mut rest = other.0;
        let ghost base = self@;
        let ghost orig = docs_view(rest@);
        let ghost mut k: int = 0;
        while rest.len() > 0
            invariant
                0 <= k <= orig.len(),
                docs_view(rest@) == orig.skip(k as int),
                self@ == extend_view(base, orig.take(k as int)),
            decreases rest@.len(),
        {
            let ghost before = rest@;
            assert(docs_view(before).len() == before.len());
            assert(orig.skip(k as int).len() == orig.len() - k);
            let ep = rest.remove(0);
            assert(docs_view(before)[0] == ep@);
            assert(orig.skip(k as int)[0] == orig[k as int]);
            assert(orig[k as int] == ep@);
            assert(orig.take(k + 1).drop_last() =~= orig.take(k as int));
            self.push(ep);
            assert forall|j: int| 0 <= j < rest@.len() implies docs_view(rest@)[j] == orig.skip(
                k + 1,
            )[j] by {
                assert(rest@[j] == before[j + 1]);
                assert(docs_view(before)[j + 1] == orig.skip(k as int)[j + 1]);
            }
            assert(docs_view(rest@) =~= orig.skip(k + 1));
            proof {
                k = k + 1;
            }
        }
        assert(orig.take(k as int) =~= orig);
    }
}

} // verus!
