use ponoma::docs::markdown::{markdown, render_path, short_type_name};
use ponoma::docs::model::{ApiDoc, BodyDoc, EndpointDoc, FragmentDoc, ParamDoc, ParamKind, PathPart};

const JSON: &str = "application/json";
const TEXT: &str = "text/plain; charset=utf-8";

fn stat(s: &str) -> PathPart {
    PathPart::Static(s.to_string())
}

fn endpoint(path: Vec<PathPart>, method: &str, status: u16, responses: &[&str]) -> EndpointDoc {
    let mut ep = EndpointDoc::empty();
    ep.path = path;
    ep.method = method.to_string();
    ep.status = status;
    ep.response_types = responses.iter().map(|s| s.to_string()).collect();
    ep
}

/// What walking `alt(l, r)` yields: the left documentation extended by the right.
fn alt(l: ApiDoc, r: ApiDoc) -> ApiDoc {
    let mut d = l;
    d.extend(r);
    d
}

// GET /users/:id?verbose, POST /users (JSON body, 201), GET /hello?name with notes.
fn sample_doc() -> ApiDoc {
    let mut get_user = endpoint(
        vec![stat("users"), PathPart::Capture { name: "id".to_string(), rust_type: "u64" }],
        "GET",
        200,
        &[JSON],
    );
    get_user.query_params =
        vec![ParamDoc { name: "verbose".to_string(), kind: ParamKind::Flag, rust_type: "bool" }];

    let mut post_user = endpoint(vec![stat("users")], "POST", 201, &[JSON, TEXT]);
    post_user.request_body =
        Some(BodyDoc { content_types: vec![JSON.to_string()], rust_type: "servant_docs::tests::User" });

    let mut hello = endpoint(vec![stat("hello")], "GET", 200, &[TEXT]);
    hello.summary = Some("Greet the caller".to_string());
    hello.description = Some("Returns a friendly greeting.".to_string());
    hello.query_params = vec![ParamDoc {
        name: "name".to_string(),
        kind: ParamKind::Normal,
        rust_type: "alloc::string::String",
    }];

    alt(ApiDoc::single(get_user), alt(ApiDoc::single(post_user), ApiDoc::single(hello)))
}

#[test]
fn walk_produces_expected_endpoints() {
    let doc = sample_doc();
    let eps = doc.endpoints();
    assert_eq!(eps.len(), 3, "three distinct (path, method) endpoints");

    let get_user = &eps[0];
    assert_eq!(get_user.method, "GET");
    assert_eq!(get_user.status, 200);
    assert_eq!(get_user.path.len(), 2);
    assert_eq!(get_user.path[0], PathPart::Static("users".into()));
    match &get_user.path[1] {
        PathPart::Capture { name, rust_type } => {
            assert_eq!(name, "id");
            assert!(rust_type.ends_with("u64"), "capture type: {rust_type}");
        }
        other => panic!("expected capture, got {other:?}"),
    }
    assert_eq!(get_user.query_params.len(), 1);
    assert_eq!(get_user.query_params[0].name, "verbose");
    assert_eq!(get_user.query_params[0].kind, ParamKind::Flag);
    assert_eq!(get_user.response_types, vec![JSON.to_string()]);
    assert!(get_user.request_body.is_none());

    let post_user = &eps[1];
    assert_eq!(post_user.method, "POST");
    assert_eq!(post_user.status, 201);
    let body = post_user.request_body.as_ref().expect("has body");
    assert_eq!(body.content_types, vec![JSON.to_string()]);
    assert!(body.rust_type.ends_with("User"));
    assert_eq!(post_user.response_types, vec![JSON.to_string(), TEXT.to_string()]);

    let hello = &eps[2];
    assert_eq!(hello.method, "GET");
    assert_eq!(hello.path[0], PathPart::Static("hello".into()));
    assert_eq!(hello.summary.as_deref(), Some("Greet the caller"));
    assert_eq!(hello.description.as_deref(), Some("Returns a friendly greeting."));
    assert_eq!(hello.query_params.len(), 1);
    assert_eq!(hello.query_params[0].name, "name");
    assert_eq!(hello.query_params[0].kind, ParamKind::Normal);
    assert_eq!(hello.response_types, vec![TEXT.to_string()]);
}

#[test]
fn capture_all_renders_in_path() {
    let ep = endpoint(
        vec![stat("files"), PathPart::CaptureAll { name: "rest".to_string(), rust_type: "alloc::string::String" }],
        "GET",
        200,
        &[JSON],
    );
    let doc = ApiDoc::single(ep);
    let ep = &doc.endpoints()[0];
    assert_eq!(ep.path.len(), 2);
    match &ep.path[1] {
        PathPart::CaptureAll { name, .. } => assert_eq!(name, "rest"),
        other => panic!("expected capture-all, got {other:?}"),
    }
    let md = markdown(&doc);
    assert!(md.contains("## GET /files/:rest"), "md was:\n{md}");
}

#[test]
fn no_content_verb_has_no_response_types() {
    let doc = ApiDoc::single(endpoint(vec![stat("ping")], "DELETE", 204, &[]));
    let ep = &doc.endpoints()[0];
    assert_eq!(ep.method, "DELETE");
    assert_eq!(ep.status, 204);
    assert!(ep.response_types.is_empty());
    let md = markdown(&doc);
    assert!(md.contains("- Status code 204"), "md was:\n{md}");
    assert!(md.contains("- No response body"), "md was:\n{md}");
}

#[test]
fn header_is_recorded() {
    let mut ep = endpoint(vec![stat("secret")], "GET", 200, &[JSON]);
    ep.headers = vec!["X-Token".to_string()];
    let doc = ApiDoc::single(ep);
    assert_eq!(doc.endpoints()[0].headers, vec!["X-Token".to_string()]);
    let md = markdown(&doc);
    assert!(md.contains("sensitive to the value of the **X-Token** HTTP header"), "md was:\n{md}");
}

#[test]
fn alt_is_left_biased_in_order() {
    let doc = alt(
        ApiDoc::single(endpoint(vec![stat("a")], "GET", 200, &[JSON])),
        ApiDoc::single(endpoint(vec![stat("b")], "GET", 200, &[JSON])),
    );
    assert_eq!(doc.endpoints().len(), 2);
    assert_eq!(doc.endpoints()[0].path[0], PathPart::Static("a".into()));
    assert_eq!(doc.endpoints()[1].path[0], PathPart::Static("b".into()));
}

#[test]
fn same_path_method_merges_left_biased() {
    let doc = alt(
        ApiDoc::single(endpoint(vec![stat("x")], "GET", 200, &[JSON])),
        ApiDoc::single(endpoint(vec![stat("x")], "GET", 418, &[TEXT])),
    );
    assert_eq!(doc.endpoints().len(), 1, "merged into one endpoint");
    let ep = &doc.endpoints()[0];
    assert_eq!(ep.status, 200, "left status wins");
    assert_eq!(ep.response_types, vec![JSON.to_string(), TEXT.to_string()]);
}

#[test]
fn empty_api_documents_nothing() {
    let doc = ApiDoc::empty();
    assert!(doc.endpoints().is_empty());
    assert_eq!(markdown(&doc), "\n");
}

#[test]
fn markdown_golden_sections() {
    let doc = sample_doc();
    let md = markdown(&doc);

    assert!(md.contains("## GET /users/:id"), "md:\n{md}");
    assert!(md.contains("## POST /users"), "md:\n{md}");
    assert!(md.contains("## GET /hello"), "md:\n{md}");

    assert!(md.contains("### Captures:"), "md:\n{md}");
    assert!(md.contains("### GET Parameters:"), "md:\n{md}");
    assert!(md.contains("### Request:"), "md:\n{md}");
    assert!(md.contains("### Response:"), "md:\n{md}");

    assert!(md.contains("### Greet the caller"), "md:\n{md}");
    assert!(md.contains("Returns a friendly greeting."), "md:\n{md}");

    assert!(md.contains("This parameter is a **flag**."), "md:\n{md}");

    assert!(md.contains("- Supported content types are:"), "md:\n{md}");
    assert!(md.contains("    - `application/json`"), "md:\n{md}");

    assert!(md.contains("- Status code 200"), "md:\n{md}");
    assert!(md.contains("- Status code 201"), "md:\n{md}");
}

#[test]
fn fragment_metadata_is_recorded_in_docs_model_and_markdown() {
    let mut ep = endpoint(vec![stat("article")], "GET", 200, &[JSON]);
    ep.fragment = Some(FragmentDoc {
        rust_type: "alloc::string::String",
        description: "section anchor".to_string(),
    });
    let doc = ApiDoc::single(ep);
    let ep = &doc.endpoints()[0];
    let fragment = ep.fragment.as_ref().expect("fragment metadata");

    assert_eq!(fragment.rust_type, "alloc::string::String");
    assert_eq!(fragment.description, "section anchor");

    let md = markdown(&doc);
    assert!(md.contains("### Fragment:"), "md:\n{md}");
    assert!(md.contains("- *String*: section anchor"), "fragment line missing:\n{md}");
}

#[test]
fn operation_id_metadata_is_recorded_in_docs_model_and_markdown() {
    let mut ep = endpoint(vec![stat("article")], "GET", 200, &[JSON]);
    ep.operation_id = Some("getArticle".to_string());
    let doc = ApiDoc::single(ep);
    let ep = &doc.endpoints()[0];

    assert_eq!(ep.operation_id.as_deref(), Some("getArticle"));

    let md = markdown(&doc);
    assert!(md.contains("OperationId: getArticle"), "md:\n{md}");
}

#[test]
fn merged_endpoint_keeps_left_notes_and_fills_missing_ones() {
    let mut left = endpoint(vec![stat("x")], "GET", 200, &[JSON]);
    left.summary = Some("left summary".to_string());
    let mut right = endpoint(vec![stat("x")], "GET", 500, &[JSON, TEXT]);
    right.summary = Some("right summary".to_string());
    right.description = Some("right description".to_string());
    right.headers = vec!["X-Right".to_string()];
    let mut doc = ApiDoc::single(left);
    doc.push(right);
    assert_eq!(doc.endpoints().len(), 1);
    let ep = &doc.endpoints()[0];
    assert_eq!(ep.summary.as_deref(), Some("left summary"));
    assert_eq!(ep.description.as_deref(), Some("right description"));
    assert_eq!(ep.headers, vec!["X-Right".to_string()]);
    assert_eq!(ep.response_types, vec![JSON.to_string(), TEXT.to_string()]);
    assert_eq!(ep.status, 200);
}

#[test]
fn different_method_on_same_path_stays_separate() {
    let mut doc = ApiDoc::single(endpoint(vec![stat("x")], "GET", 200, &[JSON]));
    doc.push(endpoint(vec![stat("x")], "POST", 201, &[JSON]));
    assert_eq!(doc.endpoints().len(), 2);
    assert_eq!(doc.endpoints()[1].method, "POST");
}

#[test]
fn root_path_and_exact_markdown() {
    assert_eq!(render_path(&[]), "/");
    assert_eq!(
        render_path(&[stat("a"), PathPart::Capture { name: "id".to_string(), rust_type: "u64" }]),
        "/a/:id"
    );
    assert_eq!(short_type_name("alloc::string::String"), "String");
    assert_eq!(short_type_name("u64"), "u64");
    let doc = ApiDoc::single(endpoint(vec![], "DELETE", 204, &[]));
    assert_eq!(
        markdown(&doc),
        "## DELETE /\n\n### Response:\n\n- Status code 204\n- No response body\n\n"
    );
}
