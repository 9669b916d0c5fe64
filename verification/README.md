# webshift (SearXNG backend)

The SearXNG search backend of webshift, verified with Verus.

- `src/searxng.rs` — the backend: building the search request, the decision
  step of a search (`SearxngBackend::search_step`), and the reading of the JSON
  answer into hits and warnings (`parse_search_response`, `jstr`,
  `collect_string_msgs`, `collect_tuple_msgs`).
- `src/json.rs` — `serde_json::Value` as the verifier sees it: a model of what
  a value holds, and contracts for the accessors that the backend calls.
- `src/status.rs` — HTTP status codes: success, and their display text.
- `src/text.rs` — trimming trailing slashes and building labelled messages.
- `src/laws.rs` — properties that span the functions above.
- `app/lib.rs` — the HTTP client (reqwest) that performs the steps.
