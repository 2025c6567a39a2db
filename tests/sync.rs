use meh::confluence::{
    classify, get_endpoint, is_success, to_http, Body, BodyView, ConfluencePage, ContentView, Credentials,
    Failure, Method, Request, RequestKind, Space, Version,
};
use meh::content::{render, AncestorRef, Document, PageDraft};
use meh::error::SyncError;
use meh::json::{decimal_text, encode, frame_document};
use meh::ops::{create, get, get_update_content, Outcome, Reply, Session, Step};
use meh::text::text_contains;

fn page(id: &str, title: &str, version: u32, space: &str) -> ConfluencePage {
    ConfluencePage {
        id: id.to_string(),
        title: title.to_string(),
        version: Version { number: version },
        space: Space { key: space.to_string() },
    }
}

fn creds() -> Credentials {
    Credentials {
        username: "alice".to_string(),
        password: "SECRET-REDACTED".to_string(),
        endpoint: "https://wiki.example.com".to_string(),
    }
}

fn draft(text: &str) -> PageDraft {
    PageDraft {
        title: "Runbook".to_string(),
        space_key: "DOCS".to_string(),
        version: 3,
        body_text: text.to_string(),
        ancestors: vec![AncestorRef { id: "7".to_string() }],
    }
}

fn status(code: u16, body: &str) -> Reply {
    Reply::Failed(Failure::Status { status: code, body: body.to_string() })
}

fn sent_document(step: Step) -> Document {
    match step {
        Step::Send(Request::Create { document }) => document,
        Step::Send(Request::Update { document, .. }) => document,
        other => panic!("expected a write, got {:?}", other),
    }
}

#[test]
fn endpoint_appends_content_path() {
    assert_eq!(get_endpoint(&creds()), "https://wiki.example.com/confluence/rest/api/content");
}

#[test]
fn render_fills_every_field() {
    let doc = render(draft("# Hello"));
    assert_eq!(doc.version.number, 3);
    assert_eq!(doc.page_type, "page");
    assert_eq!(doc.space.key, "DOCS");
    assert_eq!(doc.title, "Runbook");
    assert_eq!(doc.body.storage.value, "# Hello");
    assert_eq!(doc.body.storage.representation, "wiki");
    assert_eq!(doc.ancestors, vec![AncestorRef { id: "7".to_string() }]);
}

#[test]
fn render_twice_gives_equal_documents() {
    assert_eq!(render(draft("line one\nline two")), render(draft("line one\nline two")));
}

#[test]
fn render_keeps_empty_text() {
    assert_eq!(render(draft("")).body.storage.value, "");
}

#[test]
fn render_keeps_multiline_text() {
    let text = "first\n\n  second\r\nthird \u{e9}\t{\"json\": true}\n";
    assert_eq!(render(draft(text)).body.storage.value, text);
}

#[test]
fn successful_update_scenario() {
    let (s, step) = meh::ops::update("DOCS".to_string(), "Runbook".to_string(), "# Hello".to_string());
    assert_eq!(step, Step::Send(Request::Search { space: "DOCS".to_string(), title: "Runbook".to_string() }));
    let (s, step) = s.advance(Reply::Pages(vec![page("123", "Runbook", 5, "DOCS")]));
    assert_eq!(s, Session::Updating);
    match &step {
        Step::Send(Request::Update { id, .. }) => assert_eq!(id, "123"),
        other => panic!("expected an update, got {:?}", other),
    }
    let doc = sent_document(step);
    assert_eq!(doc.version.number, 6);
    assert_eq!(doc.body.storage.value, "# Hello");
    assert_eq!(doc.title, "Runbook");
    assert_eq!(doc.space.key, "DOCS");
    assert!(doc.ancestors.is_empty());
    let (s, step) = s.advance(Reply::Accepted);
    assert_eq!(s, Session::Finished);
    assert_eq!(step, Step::Finish(Ok(Outcome::Written)));
}

#[test]
fn update_uses_first_search_result() {
    let (s, _) = meh::ops::update("DOCS".to_string(), "Runbook".to_string(), "x".to_string());
    let (_, step) = s.advance(Reply::Pages(vec![page("1", "Runbook", 2, "DOCS"), page("2", "Runbook", 9, "DOCS")]));
    match &step {
        Step::Send(Request::Update { id, .. }) => assert_eq!(id, "1"),
        other => panic!("expected an update, got {:?}", other),
    }
    assert_eq!(sent_document(step).version.number, 3);
}

#[test]
fn update_of_largest_version_does_not_wrap() {
    let (s, _) = meh::ops::update("DOCS".to_string(), "Runbook".to_string(), "x".to_string());
    let (_, step) = s.advance(Reply::Pages(vec![page("1", "Runbook", u32::MAX, "DOCS")]));
    assert_eq!(sent_document(step).version.number, 4294967296);
}

#[test]
fn update_draft_bumps_version() {
    let d = get_update_content(page("5", "Notes", 41, "ENG"), "text".to_string());
    assert_eq!(d.version, 42);
    assert_eq!(d.title, "Notes");
    assert_eq!(d.space_key, "ENG");
    assert_eq!(d.body_text, "text");
    assert!(d.ancestors.is_empty());
}

#[test]
fn create_with_parent_scenario() {
    let (s, step) = create(
        "Child".to_string(),
        "DOCS".to_string(),
        "body".to_string(),
        Some("Index".to_string()),
    );
    assert_eq!(step, Step::Send(Request::Search { space: "DOCS".to_string(), title: "Index".to_string() }));
    let (s, step) = s.advance(Reply::Pages(vec![page("900", "Index", 4, "DOCS")]));
    assert_eq!(s, Session::Creating);
    let doc = sent_document(step);
    assert_eq!(doc.ancestors, vec![AncestorRef { id: "900".to_string() }]);
    assert_eq!(doc.version.number, 1);
    assert_eq!(doc.title, "Child");
    assert_eq!(doc.space.key, "DOCS");
    assert_eq!(doc.body.storage.value, "body");
    let (_, step) = s.advance(Reply::Accepted);
    assert_eq!(step, Step::Finish(Ok(Outcome::Written)));
}

#[test]
fn create_without_parent_sends_at_once() {
    let (s, step) = create("Child".to_string(), "DOCS".to_string(), "body".to_string(), None);
    assert_eq!(s, Session::Creating);
    let doc = sent_document(step);
    assert!(doc.ancestors.is_empty());
    assert_eq!(doc.version.number, 1);
}

#[test]
fn not_found_scenario() {
    let (s, _) = meh::ops::update("DOCS".to_string(), "Runbook".to_string(), "# Hello".to_string());
    let (s, step) = s.advance(Reply::Pages(vec![]));
    assert_eq!(s, Session::Finished);
    assert_eq!(step, Step::Finish(Err(SyncError::NotFound { title: "Runbook".to_string() })));
    let (s, step) = s.advance(Reply::Accepted);
    assert_eq!(s, Session::Finished);
    assert_eq!(step, Step::Pending);
}

#[test]
fn missing_parent_fails_create() {
    let (s, _) = create("Child".to_string(), "DOCS".to_string(), "b".to_string(), Some("Index".to_string()));
    let (s, step) = s.advance(Reply::Pages(vec![]));
    assert_eq!(s, Session::Finished);
    assert_eq!(step, Step::Finish(Err(SyncError::NotFound { title: "Index".to_string() })));
}

#[test]
fn parent_search_failure_fails_create() {
    let (s, _) = create("Child".to_string(), "DOCS".to_string(), "b".to_string(), Some("Index".to_string()));
    let (s, step) = s.advance(Reply::Failed(Failure::Transport { message: "connection refused".to_string() }));
    assert_eq!(s, Session::Finished);
    assert_eq!(step, Step::Finish(Err(SyncError::Transport { message: "connection refused".to_string() })));
}

#[test]
fn unauthorized_scenario() {
    let (s, _) = meh::ops::update("DOCS".to_string(), "Runbook".to_string(), "# Hello".to_string());
    let (s, step) = s.advance(status(401, "bad credentials"));
    assert_eq!(s, Session::Finished);
    assert_eq!(step, Step::Finish(Err(SyncError::Unauthorized { body: "bad credentials".to_string() })));
}

#[test]
fn unauthorized_on_write() {
    let (s, _) = create("Child".to_string(), "DOCS".to_string(), "b".to_string(), None);
    let (_, step) = s.advance(status(401, "nope"));
    assert_eq!(step, Step::Finish(Err(SyncError::Unauthorized { body: "nope".to_string() })));
}

#[test]
fn stale_update_is_version_conflict() {
    let (s, _) = meh::ops::update("DOCS".to_string(), "Runbook".to_string(), "x".to_string());
    let (s, _) = s.advance(Reply::Pages(vec![page("1", "Runbook", 2, "DOCS")]));
    let (_, step) = s.advance(status(409, "Version must be incremented"));
    assert_eq!(
        step,
        Step::Finish(Err(SyncError::VersionConflict { body: "Version must be incremented".to_string() }))
    );
}

#[test]
fn lookup_fetches_first_result() {
    let (s, step) = get("Runbook".to_string(), "DOCS".to_string());
    assert_eq!(step, Step::Send(Request::Search { space: "DOCS".to_string(), title: "Runbook".to_string() }));
    let (s, step) = s.advance(Reply::Pages(vec![page("123", "Runbook", 5, "DOCS")]));
    assert_eq!(s, Session::Reading);
    assert_eq!(step, Step::Send(Request::Fetch { id: "123".to_string() }));
    let view = ContentView {
        id: "123".to_string(),
        title: "Runbook".to_string(),
        body: Body { view: BodyView { value: "<p>Hello</p>".to_string() } },
    };
    let expected = ContentView {
        id: "123".to_string(),
        title: "Runbook".to_string(),
        body: Body { view: BodyView { value: "<p>Hello</p>".to_string() } },
    };
    let (s, step) = s.advance(Reply::Content(view));
    assert_eq!(s, Session::Finished);
    assert_eq!(step, Step::Finish(Ok(Outcome::Content(expected))));
}

#[test]
fn lookup_fetch_failure() {
    let (s, _) = get("Runbook".to_string(), "DOCS".to_string());
    let (s, _) = s.advance(Reply::Pages(vec![page("123", "Runbook", 5, "DOCS")]));
    let (_, step) = s.advance(status(500, "boom"));
    assert_eq!(step, Step::Finish(Err(SyncError::RemoteError { status: 500, body: "boom".to_string() })));
}

#[test]
fn reply_of_wrong_kind_is_ignored() {
    let (s, _) = meh::ops::update("DOCS".to_string(), "Runbook".to_string(), "x".to_string());
    let (s, step) = s.advance(Reply::Accepted);
    assert_eq!(step, Step::Pending);
    assert_eq!(s, Session::FindingPage { title: "Runbook".to_string(), source_text: "x".to_string() });
    assert!(!s.accepts(&Reply::Accepted));
    assert!(s.accepts(&Reply::Pages(vec![])));
}

#[test]
fn classify_each_error_kind() {
    let st = |code: u16, body: &str| Failure::Status { status: code, body: body.to_string() };
    assert_eq!(classify(RequestKind::Fetch, st(403, "f")), SyncError::Unauthorized { body: "f".to_string() });
    assert_eq!(classify(RequestKind::Create, st(409, "c")), SyncError::Conflict { body: "c".to_string() });
    assert_eq!(
        classify(RequestKind::Create, st(400, "A page with this title already exists: x")),
        SyncError::Conflict { body: "A page with this title already exists: x".to_string() }
    );
    assert_eq!(
        classify(RequestKind::Create, st(400, "bad body")),
        SyncError::RemoteError { status: 400, body: "bad body".to_string() }
    );
    assert_eq!(
        classify(RequestKind::Update, st(400, "already exists")),
        SyncError::RemoteError { status: 400, body: "already exists".to_string() }
    );
    assert_eq!(classify(RequestKind::Update, st(409, "v")), SyncError::VersionConflict { body: "v".to_string() });
    assert_eq!(
        classify(RequestKind::Search, st(409, "s")),
        SyncError::RemoteError { status: 409, body: "s".to_string() }
    );
    assert_eq!(
        classify(RequestKind::Search, Failure::Transport { message: "dns".to_string() }),
        SyncError::Transport { message: "dns".to_string() }
    );
}

#[test]
fn success_statuses() {
    assert!(is_success(200));
    assert!(is_success(204));
    assert!(is_success(299));
    assert!(!is_success(199));
    assert!(!is_success(300));
    assert!(!is_success(401));
}

#[test]
fn substring_search() {
    assert!(text_contains("title already exists here", "already exists"));
    assert!(text_contains("abc", ""));
    assert!(text_contains("", ""));
    assert!(!text_contains("", "a"));
    assert!(!text_contains("already exist", "already exists"));
    assert!(text_contains("caf\u{e9} ok", "\u{e9} o"));
}

#[test]
fn search_call_shape() {
    let call = to_http(&creds(), Request::Search { space: "DOCS".to_string(), title: "My Page".to_string() });
    assert_eq!(call.method, Method::Get);
    assert_eq!(call.url, "https://wiki.example.com/confluence/rest/api/content");
    assert_eq!(
        call.query,
        vec![
            ("spaceKey".to_string(), "DOCS".to_string()),
            ("title".to_string(), "My Page".to_string()),
            ("expand".to_string(), "version,space".to_string()),
        ]
    );
    assert!(call.body.is_none());
}

#[test]
fn fetch_call_shape() {
    let call = to_http(&creds(), Request::Fetch { id: "123".to_string() });
    assert_eq!(call.method, Method::Get);
    assert_eq!(call.url, "https://wiki.example.com/confluence/rest/api/content/123");
    assert_eq!(call.query, vec![("expand".to_string(), "body.view".to_string())]);
}

#[test]
fn write_call_shapes() {
    let call = to_http(&creds(), Request::Create { document: render(draft("a")) });
    assert_eq!(call.method, Method::Post);
    assert_eq!(call.url, "https://wiki.example.com/confluence/rest/api/content");
    assert!(call.query.is_empty());
    assert_eq!(
        call.body.as_deref(),
        Some(
            "{\"version\":{\"number\":3},\"type\":\"page\",\"space\":{\"key\":\"DOCS\"},\"title\":\"Runbook\",\"body\":{\"storage\":{\"value\":\"a\",\"representation\":\"wiki\"}},\"ancestors\":[{\"id\":\"7\"}]}"
        )
    );
    let call = to_http(&creds(), Request::Update { id: "77".to_string(), document: render(draft("b")) });
    assert_eq!(call.method, Method::Put);
    assert_eq!(call.url, "https://wiki.example.com/confluence/rest/api/content/77");
    assert_eq!(call.body, Some(encode(&render(draft("b")))));
}

#[test]
fn search_returns_first_page() {
    let (s, step) = meh::ops::search("DOCS".to_string(), "Runbook".to_string());
    assert_eq!(step, Step::Send(Request::Search { space: "DOCS".to_string(), title: "Runbook".to_string() }));
    let (s, step) = s.advance(Reply::Pages(vec![page("8", "Runbook", 3, "DOCS"), page("9", "Runbook", 1, "DOCS")]));
    assert_eq!(s, Session::Finished);
    assert_eq!(step, Step::Finish(Ok(Outcome::Found(page("8", "Runbook", 3, "DOCS")))));
}

#[test]
fn search_with_no_results_is_not_found() {
    let (s, _) = meh::ops::search("DOCS".to_string(), "Nothing".to_string());
    let (_, step) = s.advance(Reply::Pages(vec![]));
    assert_eq!(step, Step::Finish(Err(SyncError::NotFound { title: "Nothing".to_string() })));
}

#[test]
fn encode_escapes_text_and_lists_ancestors() {
    let d = PageDraft {
        title: "Q\"A\"".to_string(),
        space_key: "OPS".to_string(),
        version: 12,
        body_text: "line 1\nline \\2\t".to_string(),
        ancestors: vec![AncestorRef { id: "1".to_string() }, AncestorRef { id: "22".to_string() }],
    };
    assert_eq!(
        encode(&render(d)),
        "{\"version\":{\"number\":12},\"type\":\"page\",\"space\":{\"key\":\"OPS\"},\"title\":\"Q\\\"A\\\"\",\"body\":{\"storage\":{\"value\":\"line 1\\nline \\\\2\\t\",\"representation\":\"wiki\"}},\"ancestors\":[{\"id\":\"1\"},{\"id\":\"22\"}]}"
    );
}

#[test]
fn encode_twice_gives_same_text() {
    assert_eq!(encode(&render(draft("x\ny"))), encode(&render(draft("x\ny"))));
}

#[test]
fn encode_without_ancestors_and_empty_text() {
    let d = PageDraft {
        title: "T".to_string(),
        space_key: "S".to_string(),
        version: 1,
        body_text: String::new(),
        ancestors: vec![],
    };
    assert_eq!(
        encode(&render(d)),
        "{\"version\":{\"number\":1},\"type\":\"page\",\"space\":{\"key\":\"S\"},\"title\":\"T\",\"body\":{\"storage\":{\"value\":\"\",\"representation\":\"wiki\"}},\"ancestors\":[]}"
    );
}

#[test]
fn encoded_payload_parses_back() {
    let text = "# Heading\n\n* item \"quoted\"\n\u{1F600}\n";
    let json = encode(&render(draft(text)));
    let value: serde_json::Value = serde_json::from_str(&json).unwrap();
    assert_eq!(value["body"]["storage"]["value"].as_str(), Some(text));
    assert_eq!(value["version"]["number"].as_u64(), Some(3));
    assert_eq!(value["ancestors"][0]["id"].as_str(), Some("7"));
}

#[test]
fn frame_places_fields() {
    let ids = vec!["\"a\"".to_string(), "\"b\"".to_string()];
    assert_eq!(
        frame_document("5", "P", "K", "T", "V", "R", &ids),
        "{\"version\":{\"number\":5},\"type\":P,\"space\":{\"key\":K},\"title\":T,\"body\":{\"storage\":{\"value\":V,\"representation\":R}},\"ancestors\":[{\"id\":\"a\"},{\"id\":\"b\"}]}"
    );
}

#[test]
fn decimal_numerals() {
    assert_eq!(decimal_text(0), "0");
    assert_eq!(decimal_text(9), "9");
    assert_eq!(decimal_text(10), "10");
    assert_eq!(decimal_text(4294967296), "4294967296");
    assert_eq!(decimal_text(u64::MAX), "18446744073709551615");
}
