use webshift::searxng::{
    collect_string_msgs, collect_tuple_msgs, jstr, parse_search_response, BackendResponse,
    SearchAction, SearchEvent, SearxngBackend, SearxngConfig, WebshiftError,
};

fn backend_at(url: &str) -> SearxngBackend {
    let config = SearxngConfig { url: url.to_string() };
    SearxngBackend::new(&config)
}

fn json(text: &str) -> serde_json::Value {
    serde_json::from_str(text).unwrap()
}

fn param<'a>(params: &'a [(String, String)], key: &str) -> Option<&'a str> {
    params.iter().find(|(k, _)| k == key).map(|(_, v)| v.as_str())
}

/// Runs a whole exchange in which the instance answers 200 with `body`,
/// checking the request on the way, and returns the outcome.
fn answer_ok(
    backend: &SearxngBackend,
    query: &str,
    num_results: usize,
    lang: Option<&str>,
    body: &str,
) -> (Vec<(String, String)>, Result<BackendResponse, WebshiftError>) {
    let params = match backend.search_step(query, num_results, lang, SearchEvent::Start) {
        SearchAction::Send(req) => {
            assert!(req.url.ends_with("/search"));
            req.params
        }
        _ => panic!("expected a request"),
    };
    match backend.search_step(query, num_results, lang, SearchEvent::Status(200)) {
        SearchAction::ReadJson => {}
        _ => panic!("expected to read the body"),
    }
    match backend.search_step(query, num_results, lang, SearchEvent::Body(json(body))) {
        SearchAction::Finish(outcome) => (params, outcome),
        _ => panic!("expected the end of the search"),
    }
}

fn answer_status(backend: &SearxngBackend, query: &str, code: u16) -> Result<BackendResponse, WebshiftError> {
    match backend.search_step(query, 5, None, SearchEvent::Status(code)) {
        SearchAction::Finish(outcome) => outcome,
        _ => panic!("expected the end of the search"),
    }
}

#[test]
fn searxng_parses_results() {
    let backend = backend_at("http://127.0.0.1:4000");
    let body = r#"{
        "results": [
            {"title": "Rust Lang", "url": "https://rust-lang.org", "content": "Systems programming"},
            {"title": "Tokio", "url": "https://tokio.rs", "content": "Async runtime for Rust"},
            {"title": "Serde", "url": "https://serde.rs", "content": "Serialization framework"}
        ]
    }"#;
    let (params, outcome) = answer_ok(&backend, "rust", 2, None, body);
    assert_eq!(param(&params, "q"), Some("rust"));
    assert_eq!(param(&params, "format"), Some("json"));
    let response = outcome.ok().unwrap();

    assert_eq!(response.results.len(), 2);
    assert_eq!(response.results[0].title, "Rust Lang");
    assert_eq!(response.results[0].url, "https://rust-lang.org");
    assert_eq!(response.results[0].snippet, "Systems programming");
    assert_eq!(response.results[1].title, "Tokio");
    assert!(response.warnings.is_empty());
}

#[test]
fn searxng_with_lang_param() {
    let backend = backend_at("http://127.0.0.1:4000");
    let body = r#"{
        "results": [
            {"title": "Rust IT", "url": "https://rust-lang.org/it", "content": "Linguaggio di sistema"}
        ]
    }"#;
    let (params, outcome) = answer_ok(&backend, "rust", 10, Some("it"), body);
    assert_eq!(param(&params, "language"), Some("it"));
    let response = outcome.ok().unwrap();

    assert_eq!(response.results.len(), 1);
    assert_eq!(response.results[0].title, "Rust IT");
}

#[test]
fn searxng_handles_http_error() {
    let backend = backend_at("http://127.0.0.1:4000");
    let result = answer_status(&backend, "test", 500);

    assert!(result.is_err());
    assert!(result.err().unwrap().to_string().contains("500"));
}

#[test]
fn searxng_handles_empty_results() {
    let backend = backend_at("http://127.0.0.1:4000");
    let (_, outcome) = answer_ok(&backend, "noresults", 5, None, r#"{"results": []}"#);
    let response = outcome.ok().unwrap();

    assert!(response.results.is_empty());
    assert!(response.warnings.is_empty());
}

#[test]
fn searxng_surfaces_legacy_string_msg_format() {
    let backend = backend_at("http://127.0.0.1:4000");
    let body = r#"{
        "results": [],
        "error_msgs": [
            "startpage: SearxEngineCaptchaException: redirected to captcha (suspended_time=3600)",
            "karmasearch: SearxEngineAccessDeniedException: HTTP 403 (suspended_time=180)"
        ],
        "unresponsive_msgs": [
            "duckduckgo: SearxEngineNetworkError: connection reset"
        ]
    }"#;
    let (_, outcome) = answer_ok(&backend, "blocked", 5, None, body);
    let response = outcome.ok().unwrap();

    assert!(response.results.is_empty());
    assert_eq!(response.warnings.len(), 3);
    assert!(response.warnings[0].contains("startpage"));
    assert!(response.warnings[0].contains("CaptchaException"));
    assert!(response.warnings[1].contains("karmasearch"));
    assert!(response.warnings[2].contains("duckduckgo"));
    assert!(response.warnings[2].contains("unresponsive"));
}

#[test]
fn searxng_surfaces_unresponsive_engines_tuple_format() {
    let backend = backend_at("http://127.0.0.1:4000");
    let body = r#"{
        "results": [],
        "unresponsive_engines": [
            ["brave", "Suspended: too many requests"],
            ["startpage", "SearxEngineCaptchaException: redirected to captcha"]
        ],
        "errors": [
            ["karmasearch", "HTTP error 403"]
        ]
    }"#;
    let (_, outcome) = answer_ok(&backend, "blocked", 5, None, body);
    let response = outcome.ok().unwrap();

    assert!(response.results.is_empty());
    assert_eq!(response.warnings.len(), 3);
    assert!(response.warnings.iter().any(|w| w.contains("brave") && w.contains("Suspended")));
    assert!(response
        .warnings
        .iter()
        .any(|w| w.contains("startpage") && w.contains("CaptchaException")));
    assert!(response.warnings.iter().any(|w| w.contains("karmasearch") && w.contains("403")));
}

#[test]
fn searxng_results_with_partial_engine_failures() {
    let backend = backend_at("http://127.0.0.1:4000");
    let body = r#"{
        "results": [
            {"title": "Rust", "url": "https://rust-lang.org", "content": "Systems lang"}
        ],
        "unresponsive_engines": [
            ["brave", "Suspended: too many requests"]
        ]
    }"#;
    let (_, outcome) = answer_ok(&backend, "rust", 5, None, body);
    let response = outcome.ok().unwrap();

    assert_eq!(response.results.len(), 1);
    assert_eq!(response.warnings.len(), 1);
    assert!(response.warnings[0].contains("brave"));
}

// ---------------------------------------------------------------------------
// Further cases

#[test]
fn new_drops_trailing_slashes() {
    assert_eq!(backend_at("http://localhost:4000/").base_url(), "http://localhost:4000");
    assert_eq!(backend_at("http://localhost:4000///").base_url(), "http://localhost:4000");
    assert_eq!(backend_at("http://localhost:4000").base_url(), "http://localhost:4000");
    assert_eq!(backend_at("////").base_url(), "");
    assert_eq!(backend_at("").base_url(), "");
    assert_eq!(backend_at("http://h/a/b/").base_url(), "http://h/a/b");
    let once = backend_at("http://h//");
    assert_eq!(backend_at(once.base_url()).base_url(), once.base_url());
}

#[test]
fn trailing_slash_gives_same_backend() {
    let a = backend_at("http://searx.example:8888");
    let b = backend_at("http://searx.example:8888/");
    assert_eq!(a.base_url(), b.base_url());
}

#[test]
fn request_has_exact_url_and_params() {
    let backend = backend_at("http://localhost:4000/");
    let req = backend.search_request("rust lang", None);
    assert_eq!(req.url, "http://localhost:4000/search");
    let expected: Vec<(String, String)> = vec![
        ("q".to_string(), "rust lang".to_string()),
        ("format".to_string(), "json".to_string()),
        ("pageno".to_string(), "1".to_string()),
    ];
    assert_eq!(req.params, expected);

    let req = backend.search_request("rust", Some("de"));
    assert_eq!(req.params.len(), 4);
    assert_eq!(req.params[3], ("language".to_string(), "de".to_string()));
}

#[test]
fn start_sends_the_request() {
    let backend = backend_at("http://localhost:4000");
    match backend.search_step("q1", 3, Some("fr"), SearchEvent::Start) {
        SearchAction::Send(req) => {
            assert_eq!(req.url, "http://localhost:4000/search");
            assert_eq!(param(&req.params, "q"), Some("q1"));
            assert_eq!(param(&req.params, "pageno"), Some("1"));
            assert_eq!(param(&req.params, "language"), Some("fr"));
        }
        _ => panic!("expected a request"),
    }
}

#[test]
fn transport_failure_message() {
    let backend = backend_at("http://localhost:4000");
    match backend.search_step("q", 3, None, SearchEvent::RequestFailed("connection refused".to_string())) {
        SearchAction::Finish(Err(e)) => {
            assert_eq!(e.to_string(), "searxng request failed: connection refused")
        }
        _ => panic!("expected a failure"),
    }
}

#[test]
fn body_failure_message() {
    let backend = backend_at("http://localhost:4000");
    match backend.search_step("q", 3, None, SearchEvent::BodyFailed("error decoding response body".to_string())) {
        SearchAction::Finish(Err(WebshiftError::Backend(m))) => {
            assert_eq!(m, "searxng parse error: error decoding response body")
        }
        _ => panic!("expected a failure"),
    }
}

#[test]
fn http_status_message_has_code_and_reason() {
    let backend = backend_at("http://localhost:4000");
    let e = answer_status(&backend, "q", 404).err().unwrap();
    assert_eq!(e.to_string(), "searxng HTTP 404 Not Found");
    let e = answer_status(&backend, "q", 503).err().unwrap();
    assert_eq!(e.to_string(), "searxng HTTP 503 Service Unavailable");
    let e = answer_status(&backend, "q", 302).err().unwrap();
    assert_eq!(e.to_string(), "searxng HTTP 302 Found");
    let e = answer_status(&backend, "q", 199).err().unwrap();
    assert!(e.to_string().starts_with("searxng HTTP 199 "));
}

#[test]
fn every_2xx_status_reads_the_body() {
    let backend = backend_at("http://localhost:4000");
    for code in [200u16, 201, 204, 299] {
        match backend.search_step("q", 1, None, SearchEvent::Status(code)) {
            SearchAction::ReadJson => {}
            _ => panic!("expected to read the body for {}", code),
        }
    }
    assert!(answer_status(&backend, "q", 300).is_err());
    assert!(answer_status(&backend, "q", 100).is_err());
}

#[test]
fn jstr_reads_string_fields_only() {
    let v = json(r#"{"a": "x", "b": 3, "c": null, "d": ["y"]}"#);
    assert_eq!(jstr(&v, "a"), "x");
    assert_eq!(jstr(&v, "b"), "");
    assert_eq!(jstr(&v, "c"), "");
    assert_eq!(jstr(&v, "d"), "");
    assert_eq!(jstr(&v, "missing"), "");
    assert_eq!(jstr(&json(r#"["a"]"#), "a"), "");
    assert_eq!(jstr(&json(r#""a""#), "a"), "");
}

#[test]
fn string_msgs_skip_non_strings() {
    let v = json(r#"{"m": ["one", 2, null, "two", ["x"]], "n": "not a list"}"#);
    assert_eq!(collect_string_msgs(&v, "m", "lbl"), vec!["lbl: one".to_string(), "lbl: two".to_string()]);
    assert!(collect_string_msgs(&v, "n", "lbl").is_empty());
    assert!(collect_string_msgs(&v, "missing", "lbl").is_empty());
    assert!(collect_string_msgs(&json("[1]"), "m", "lbl").is_empty());
}

#[test]
fn tuple_msgs_every_entry_shape() {
    let v = json(
        r#"{"e": [
            ["brave", "Suspended"],
            ["qwant"],
            "bing",
            ["a", "b", "c"],
            [1, "only"],
            [],
            42,
            {"k": true},
            null,
            [1, 2]
        ]}"#,
    );
    let msgs = collect_tuple_msgs(&v, "e", "L");
    let expected: Vec<String> = vec![
        "L: brave: Suspended",
        "L: qwant",
        "L: bing",
        r#"L: ["a","b","c"]"#,
        "L: only",
        "L: []",
        "L: 42",
        r#"L: {"k":true}"#,
        "L: null",
        "L: [1,2]",
    ]
    .into_iter()
    .map(|s| s.to_string())
    .collect();
    assert_eq!(msgs, expected);
    assert!(collect_tuple_msgs(&v, "missing", "L").is_empty());
    assert!(collect_tuple_msgs(&json(r#"{"e": {"x": 1}}"#), "e", "L").is_empty());
}

#[test]
fn warnings_come_in_key_order() {
    let body = json(
        r#"{
        "unresponsive_msgs": ["d"],
        "error_msgs": ["c"],
        "errors": [["b", "why"]],
        "unresponsive_engines": [["a", "why"]]
    }"#,
    );
    let response = parse_search_response(&body, 5);
    assert_eq!(
        response.warnings,
        vec![
            "searxng unresponsive: a: why".to_string(),
            "searxng engine error: b: why".to_string(),
            "searxng engine error: c".to_string(),
            "searxng unresponsive: d".to_string(),
        ]
    );
    assert!(response.results.is_empty());
}

#[test]
fn results_are_capped_and_in_order() {
    let body = json(
        r#"{"results": [
            {"title": "A", "url": "ua", "content": "ca"},
            {"title": "B"},
            {"url": 7},
            "not an object"
        ]}"#,
    );
    let all = parse_search_response(&body, 10);
    assert_eq!(all.results.len(), 4);
    assert_eq!(all.results[1].title, "B");
    assert_eq!(all.results[1].url, "");
    assert_eq!(all.results[2].url, "");
    assert_eq!(all.results[3].title, "");
    let two = parse_search_response(&body, 2);
    assert_eq!(two.results.len(), 2);
    for i in 0..2 {
        assert_eq!(two.results[i].title, all.results[i].title);
        assert_eq!(two.results[i].url, all.results[i].url);
        assert_eq!(two.results[i].snippet, all.results[i].snippet);
    }
    assert!(parse_search_response(&body, 0).results.is_empty());
}

#[test]
fn answer_without_results_list() {
    let response = parse_search_response(&json(r#"{"results": {"a": 1}}"#), 5);
    assert!(response.results.is_empty());
    let response = parse_search_response(&json("[]"), 5);
    assert!(response.results.is_empty());
    assert!(response.warnings.is_empty());
}

#[test]
fn every_warning_is_labelled() {
    let body = json(
        r#"{
        "unresponsive_engines": [["a", "x"], 5, "z"],
        "errors": [{"k": 1}],
        "error_msgs": ["c", 3],
        "unresponsive_msgs": ["d"]
    }"#,
    );
    let response = parse_search_response(&body, 5);
    assert_eq!(response.warnings.len(), 6);
    for w in &response.warnings {
        assert!(w.starts_with("searxng unresponsive: ") || w.starts_with("searxng engine error: "));
    }
}
