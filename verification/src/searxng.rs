//! SearXNG search backend.
//!
//! Queries a self-hosted SearXNG instance. No API key required. The network
//! exchange itself is driven from outside the library: `SearxngBackend::search_step`
//! says, for each event of the exchange, what to do next, and
//! `parse_search_response` turns the JSON answer into results and warnings.
use vstd::prelude::*;
use vstd::string::*;

use crate::json::{
    items_of, json_as_array, json_as_str, json_display, json_get, json_model, json_text, member,
    models, str_of, JsonModel,
};
use crate::status::{
    http_status_text, is_success, status_digits, status_display, status_is_success, valid_status,
};
use crate::text::{labelled, lemma_trim_shape, make_labelled, trim_end_slashes, trim_trailing_slashes};

verus! {

// ---------------------------------------------------------------------------
// Reading fields

/// The text of the string member `key` of `m`; empty when there is no such
/// member or it is no string.
pub open spec fn field_text(m: JsonModel, key: Seq<char>) -> Seq<char> {
    match member(m, key) {
        Some(x) => match str_of(x) {
            Some(s) => s,
            None => Seq::empty(),
        },
        None => Seq::empty(),
    }
}

/// Extract a string field from a JSON value, defaulting to "".
pub fn jstr<'a>(val: &'a serde_json::Value, key: &str) -> (r: &'a str)
    ensures
        r@ == field_text(json_model(*val), key@),
{
    proof {
        reveal_strlit("");
    }
    match json_get(val, key) {
        Some(m) => match json_as_str(m) {
            Some(s) => s,
            None => "",
        },
        None => "",
    }
}

// ---------------------------------------------------------------------------
// String entries

/// The texts of the string values in `xs`, in order (other values are
/// skipped).
pub open spec fn strings_in(xs: Seq<JsonModel>) -> Seq<Seq<char>>
    decreases xs.len(),
{
    if xs.len() == 0 {
        Seq::empty()
    } else {
        let rest = strings_in(xs.drop_last());
        match str_of(xs.last()) {
            Some(s) => rest.push(s),
            None => rest,
        }
    }
}

/// The views of a sequence of strings.
pub open spec fn str_views(v: Seq<&str>) -> Seq<Seq<char>> {
    v.map_values(|s: &str| s@)
}

/// The views of a sequence of owned strings.
pub open spec fn string_views(v: Seq<String>) -> Seq<Seq<char>> {
    v.map_values(|s: String| s@)
}

/// The string values among `parts`, in order.
fn string_parts<'a>(parts: &'a Vec<serde_json::Value>) -> (r: Vec<&'a str>)
    ensures
        str_views(r@) == strings_in(models(parts@)),
{
    let mut r: Vec<&'a str> = Vec::new();
    let ghost ms = models(parts@);
    for i in 0..parts.len()
        invariant
            ms == models(parts@),
            str_views(r@) == strings_in(ms.take(i as int)),
    {
        proof {
            assert(ms.take(i + 1).drop_last() =~= ms.take(i as int));
            assert(ms.take(i + 1).last() == json_model(parts@[i as int]));
        }
        match json_as_str(&parts[i]) {
            Some(s) => {
                r.push(s);
                assert(str_views(r@) =~= strings_in(ms.take(i as int)).push(s@));
            },
            None => {},
        }
    }
    assert(ms.take(parts.len() as int) =~= ms);
    r
}

/// `label: s` for each text `s` of `xs`.
pub open spec fn labelled_all(label: Seq<char>, xs: Seq<Seq<char>>) -> Seq<Seq<char>> {
    xs.map_values(|s: Seq<char>| labelled(label, s))
}

/// The items of the array member `key` of `m`, or `None` when there is no
/// such member or it is no array.
pub open spec fn array_member(m: JsonModel, key: Seq<char>) -> Option<Seq<JsonModel>> {
    match member(m, key) {
        Some(x) => items_of(x),
        None => None,
    }
}

/// The messages that `collect_string_msgs` gathers: `label: s` for every
/// string `s` in the array member `key`.
pub open spec fn string_msgs(m: JsonModel, key: Seq<char>, label: Seq<char>) -> Seq<Seq<char>> {
    match array_member(m, key) {
        Some(xs) => labelled_all(label, strings_in(xs)),
        None => Seq::empty(),
    }
}

/// The array under `key` in `data`, if there is one.
fn array_field<'a>(data: &'a serde_json::Value, key: &str) -> (r: Option<&'a Vec<serde_json::Value>>)
    ensures
        match r {
            Some(a) => array_member(json_model(*data), key@) == Some(models(a@)),
            None => array_member(json_model(*data), key@) is None,
        },
{
    match json_get(data, key) {
        Some(v) => json_as_array(v),
        None => None,
    }
}

/// Collect string entries from a JSON array of strings, prefixed with `label:`.
///
/// Some SearXNG variants/forks expose engine errors as flat string arrays
/// under `error_msgs` / `unresponsive_msgs`.
pub fn collect_string_msgs(data: &serde_json::Value, key: &str, label: &str) -> (r: Vec<String>)
    ensures
        string_views(r@) == string_msgs(json_model(*data), key@, label@),
{
    let mut out: Vec<String> = Vec::new();
    match array_field(data, key) {
        Some(arr) => {
            let strs = string_parts(arr);
            let ghost want = strings_in(models(arr@));
            for i in 0..strs.len()
                invariant
                    str_views(strs@) == want,
                    out@.len() == i,
                    strs@.len() == want.len(),
                    string_views(out@) == labelled_all(label@, want.take(i as int)),
            {
                assert(want[i as int] == str_views(strs@)[i as int]);
                let ghost before = out@;
                let msg = make_labelled(label, strs[i]);
                out.push(msg);
                assert(string_views(out@) =~= labelled_all(label@, want.take(i + 1))) by {
                    assert(out@ == before.push(msg));
                    assert(want.take(i + 1).drop_last() =~= want.take(i as int));
                    assert forall|j: int| 0 <= j < i implies #[trigger] string_views(out@)[j]
                        == labelled_all(label@, want.take(i + 1))[j] by {
                        assert(string_views(before)[j] == labelled_all(label@, want.take(i as int))[j]);

                    }
                }
            }
            assert(want.take(strs.len() as int) =~= want);
        },
        None => {
            assert(string_views(out@) =~= Seq::<Seq<char>>::empty());
        },
    }
    out
}


// ---------------------------------------------------------------------------
// Tuple entries

/// The message for one entry of an `[engine_name, reason]` list: a pair of
/// strings gives `label: name: reason`, a single string (alone in an array or
/// bare) gives `label: s`, and anything else gives `label:` followed by its
/// JSON text.
pub open spec fn tuple_msg(label: Seq<char>, e: JsonModel) -> Seq<char> {
    match e {
        JsonModel::Array(parts) => {
            let strs = strings_in(parts);
            if strs.len() == 2 {
                labelled(label, strs[0] + ": "@ + strs[1])
            } else if strs.len() == 1 {
                labelled(label, strs[0])
            } else {
                labelled(label, json_text(e))
            }
        },
        JsonModel::Str(s) => labelled(label, s),
        _ => labelled(label, json_text(e)),
    }
}

/// One message per entry of `xs`.
pub open spec fn tuple_msgs_of(label: Seq<char>, xs: Seq<JsonModel>) -> Seq<Seq<char>> {
    xs.map_values(|e: JsonModel| tuple_msg(label, e))
}

/// The messages that `collect_tuple_msgs` gathers: one per entry of the
/// array member `key`.
pub open spec fn tuple_msgs(m: JsonModel, key: Seq<char>, label: Seq<char>) -> Seq<Seq<char>> {
    match array_member(m, key) {
        Some(xs) => tuple_msgs_of(label, xs),
        None => Seq::empty(),
    }
}

/// The message for one entry of a tuple list.
fn tuple_entry_msg(entry: &serde_json::Value, label: &str) -> (r: String)
    ensures
        r@ == tuple_msg(label@, json_model(*entry)),
{
    match json_as_array(entry) {
        Some(parts) => {
            let strs = string_parts(parts);
            assert(strs@.len() == str_views(strs@).len());
            if strs.len() == 2 {
                assert(str_views(strs@)[0] == strs@[0]@);
                assert(str_views(strs@)[1] == strs@[1]@);
                let mut text = String::from_str(strs[0]);
                text.append(": ");
                text.append(strs[1]);
                make_labelled(label, text.as_str())
            } else if strs.len() == 1 {
                assert(str_views(strs@)[0] == strs@[0]@);
                make_labelled(label, strs[0])
            } else {
                let text = json_display(entry);
                make_labelled(label, text.as_str())
            }
        },
        None => match json_as_str(entry) {
            Some(s) => make_labelled(label, s),
            None => {
                let text = json_display(entry);
                make_labelled(label, text.as_str())
            },
        },
    }
}

/// Collect entries from a JSON array of `[engine_name, reason]` tuples.
///
/// This is the shape used by mainline SearXNG for `unresponsive_engines`
/// and `errors`: each entry is a 2-element array (or sometimes a single string
/// when no reason is provided).
pub fn collect_tuple_msgs(data: &serde_json::Value, key: &str, label: &str) -> (r: Vec<String>)
    ensures
        string_views(r@) == tuple_msgs(json_model(*data), key@, label@),
{
    let mut out: Vec<String> = Vec::new();
    match array_field(data, key) {
        Some(arr) => {
            let ghost ms = models(arr@);
            for i in 0..arr.len()
                invariant
                    ms == models(arr@),
                    out@.len() == i,
                    string_views(out@) == tuple_msgs_of(label@, ms.take(i as int)),
            {
                let ghost before = out@;
                let msg = tuple_entry_msg(&arr[i], label);
                out.push(msg);
                assert(string_views(out@) =~= tuple_msgs_of(label@, ms.take(i + 1))) by {
                    assert(out@ == before.push(msg));
                    assert(ms[i as int] == json_model(arr@[i as int]));
                    assert forall|j: int| 0 <= j < i implies #[trigger] string_views(out@)[j]
                        == tuple_msgs_of(label@, ms.take(i + 1))[j] by {
                        assert(string_views(before)[j] == tuple_msgs_of(label@, ms.take(i as int))[j]);
                    }
                }
            }
            assert(ms.take(arr.len() as int) =~= ms);
        },
        None => {
            assert(string_views(out@) =~= Seq::<Seq<char>>::empty());
        },
    }
    out
}


// ---------------------------------------------------------------------------
// The response

/// One search hit.
pub struct SearchResult {
    pub title: String,
    pub url: String,
    pub snippet: String,
}

impl View for SearchResult {
    /// Title, URL and snippet.
    type V = (Seq<char>, Seq<char>, Seq<char>);

    open spec fn view(&self) -> (Seq<char>, Seq<char>, Seq<char>) {
        (self.title@, self.url@, self.snippet@)
    }
}

/// What a backend returns: the hits, and the warnings that engines reported.
pub struct BackendResponse {
    pub results: Vec<SearchResult>,
    pub warnings: Vec<String>,
}

/// The views of a sequence of hits.
pub open spec fn result_views(v: Seq<SearchResult>) -> Seq<(Seq<char>, Seq<char>, Seq<char>)> {
    v.map_values(|r: SearchResult| r@)
}

impl View for BackendResponse {
    /// The hits, then the warnings.
    type V = (Seq<(Seq<char>, Seq<char>, Seq<char>)>, Seq<Seq<char>>);

    open spec fn view(&self) -> (Seq<(Seq<char>, Seq<char>, Seq<char>)>, Seq<Seq<char>>) {
        (result_views(self.results@), string_views(self.warnings@))
    }
}

/// The hit that a result item yields: its `title`, `url` and `content`
/// strings, each empty where missing.
pub open spec fn result_fields(item: JsonModel) -> (Seq<char>, Seq<char>, Seq<char>) {
    (field_text(item, "title"@), field_text(item, "url"@), field_text(item, "content"@))
}

/// The items of the `results` array of an answer (none if it has no such
/// array).
pub open spec fn result_items(m: JsonModel) -> Seq<JsonModel> {
    match array_member(m, "results"@) {
        Some(xs) => xs,
        None => Seq::empty(),
    }
}

/// The smaller of two numbers.
pub open spec fn min_nat(a: nat, b: nat) -> nat {
    if a < b {
        a
    } else {
        b
    }
}

/// The hits of an answer when at most `n` are wanted: the first `n` result
/// items, in order.
pub open spec fn expected_results(m: JsonModel, n: nat) -> Seq<(Seq<char>, Seq<char>, Seq<char>)> {
    let xs = result_items(m);
    xs.take(min_nat(n, xs.len()) as int).map_values(|x: JsonModel| result_fields(x))
}

/// The warnings of an answer: the `[name, reason]` lists `unresponsive_engines`
/// and `errors`, then the string lists `error_msgs` and `unresponsive_msgs`.
pub open spec fn expected_warnings(m: JsonModel) -> Seq<Seq<char>> {
    tuple_msgs(m, "unresponsive_engines"@, "searxng unresponsive"@)
        + tuple_msgs(m, "errors"@, "searxng engine error"@)
        + string_msgs(m, "error_msgs"@, "searxng engine error"@)
        + string_msgs(m, "unresponsive_msgs"@, "searxng unresponsive"@)
}

/// The hit built from one result item.
fn result_from_item(item: &serde_json::Value) -> (r: SearchResult)
    ensures
        r@ == result_fields(json_model(*item)),
{
    SearchResult {
        title: String::from_str(jstr(item, "title")),
        url: String::from_str(jstr(item, "url")),
        snippet: String::from_str(jstr(item, "content")),
    }
}

/// The first `num_results` hits of an answer.
fn collect_results(data: &serde_json::Value, num_results: usize) -> (r: Vec<SearchResult>)
    ensures
        result_views(r@) == expected_results(json_model(*data), num_results as nat),
{
    let mut results: Vec<SearchResult> = Vec::new();
    match array_field(data, "results") {
        Some(items) => {
            let ghost ms = models(items@);
            let limit = if num_results < items.len() {
                num_results
            } else {
                items.len()
            };
            for i in 0..limit
                invariant
                    ms == models(items@),
                    limit <= items.len(),
                    results@.len() == i,
                    result_views(results@) == ms.take(i as int).map_values(
                        |x: JsonModel| result_fields(x),
                    ),
            {
                let ghost before = results@;
                let hit = result_from_item(&items[i]);
                results.push(hit);
                assert(result_views(results@) =~= ms.take(i + 1).map_values(
                    |x: JsonModel| result_fields(x),
                )) by {
                    assert(results@ == before.push(hit));
                    assert(ms[i as int] == json_model(items@[i as int]));
                    assert forall|j: int| 0 <= j < i implies #[trigger] result_views(results@)[j]
                        == ms.take(i + 1).map_values(|x: JsonModel| result_fields(x))[j] by {
                        assert(result_views(before)[j] == ms.take(i as int).map_values(
                            |x: JsonModel| result_fields(x),
                        )[j]);
                    }
                }
            }
        },
        None => {
            assert(result_views(results@) =~= expected_results(json_model(*data), num_results as nat));
        },
    }
    results
}

/// Turns a SearXNG JSON answer into hits and warnings.
///
/// At most `num_results` hits are kept, in the answer's order. SearXNG
/// signals engine-side failures under several keys depending on version or
/// fork; all of them are gathered, so that both the mainline shape
/// (`unresponsive_engines`, `errors`: arrays of `[name, reason]` tuples) and
/// the flat-string shape (`error_msgs`, `unresponsive_msgs`) are covered.
pub fn parse_search_response(data: &serde_json::Value, num_results: usize) -> (resp: BackendResponse)
    ensures
        resp@.0 == expected_results(json_model(*data), num_results as nat),
        resp@.1 == expected_warnings(json_model(*data)),
{
    let results = collect_results(data, num_results);
    let mut warnings = collect_tuple_msgs(data, "unresponsive_engines", "searxng unresponsive");
    let mut more = collect_tuple_msgs(data, "errors", "searxng engine error");
    let ghost w1 = warnings@;
    let ghost w2 = more@;
    warnings.append(&mut more);
    assert(string_views(warnings@) =~= string_views(w1) + string_views(w2));
    let mut more = collect_string_msgs(data, "error_msgs", "searxng engine error");
    let ghost w12 = warnings@;
    let ghost w3 = more@;
    warnings.append(&mut more);
    assert(string_views(warnings@) =~= string_views(w12) + string_views(w3));
    let mut more = collect_string_msgs(data, "unresponsive_msgs", "searxng unresponsive");
    let ghost w123 = warnings@;
    let ghost w4 = more@;
    warnings.append(&mut more);
    assert(string_views(warnings@) =~= string_views(w123) + string_views(w4));
    BackendResponse { results, warnings }
}


// ---------------------------------------------------------------------------
// Errors

/// Errors of a backend.
pub enum WebshiftError {
    /// The backend failed; the text says how.
    Backend(String),
}

impl View for WebshiftError {
    /// The message.
    type V = Seq<char>;

    open spec fn view(&self) -> Seq<char> {
        match self {
            WebshiftError::Backend(m) => m@,
        }
    }
}

impl WebshiftError {
    /// The message of the error.
    pub fn to_string(&self) -> (s: String)
        ensures
            s@ == self@,
    {
        match self {
            WebshiftError::Backend(m) => m.clone(),
        }
    }
}

// ---------------------------------------------------------------------------
// The backend and its exchange with SearXNG

/// Where a SearXNG instance is reached.
pub struct SearxngConfig {
    pub url: String,
}

/// The SearXNG backend: the base URL of the instance, kept without trailing
/// slashes.
pub struct SearxngBackend {
    base_url: String,
}

impl View for SearxngBackend {
    /// The base URL.
    type V = Seq<char>;

    closed spec fn view(&self) -> Seq<char> {
        self.base_url@
    }
}

/// A text that does not end in `'/'`.
pub open spec fn no_trailing_slash(s: Seq<char>) -> bool {
    s.len() == 0 || s.last() != '/'
}

/// The query parameters sent for a search: `q`, `format=json`, `pageno=1`,
/// and `language` when one is given.
pub open spec fn search_params(query: Seq<char>, lang: Option<Seq<char>>) -> Seq<(Seq<char>, Seq<char>)> {
    let base = seq![("q"@, query), ("format"@, "json"@), ("pageno"@, "1"@)];
    match lang {
        Some(l) => base.push(("language"@, l)),
        None => base,
    }
}

/// The view of an optional text.
pub open spec fn opt_view(o: Option<&str>) -> Option<Seq<char>> {
    match o {
        Some(s) => Some(s@),
        None => None,
    }
}

/// A GET request to make: the URL and its query parameters, in order.
pub struct SearchRequest {
    pub url: String,
    pub params: Vec<(String, String)>,
}

/// The views of a sequence of text pairs.
pub open spec fn pair_views(v: Seq<(String, String)>) -> Seq<(Seq<char>, Seq<char>)> {
    v.map_values(|p: (String, String)| (p.0@, p.1@))
}

impl View for SearchRequest {
    /// The URL and the parameters.
    type V = (Seq<char>, Seq<(Seq<char>, Seq<char>)>);

    open spec fn view(&self) -> (Seq<char>, Seq<(Seq<char>, Seq<char>)>) {
        (self.url@, pair_views(self.params@))
    }
}

/// What happened last in the exchange with SearXNG.
pub enum SearchEvent {
    /// The search begins.
    Start,
    /// Sending the request failed; the text is the transport's error.
    RequestFailed(String),
    /// The instance answered with this HTTP status code.
    Status(u16),
    /// Reading or decoding the JSON body failed; the text is the error.
    BodyFailed(String),
    /// The JSON body of the answer.
    Body(serde_json::Value),
}

/// What to do next in the exchange with SearXNG.
pub enum SearchAction {
    /// Send this GET request.
    Send(SearchRequest),
    /// Read the answer's body as JSON.
    ReadJson,
    /// The search is over, with this outcome.
    Finish(Result<BackendResponse, WebshiftError>),
}

/// A pair of owned texts.
fn text_pair(k: &str, v: &str) -> (r: (String, String))
    ensures
        r.0@ == k@,
        r.1@ == v@,
{
    (String::from_str(k), String::from_str(v))
}

/// An error outcome whose message is `prefix` followed by `detail`.
fn fail_with(prefix: &str, detail: &str) -> (act: SearchAction)
    ensures
        act matches SearchAction::Finish(Err(e)) && e@ == prefix@ + detail@,
{
    let mut m = String::from_str(prefix);
    m.append(detail);
    SearchAction::Finish(Err(WebshiftError::Backend(m)))
}

impl SearxngBackend {
    #[verifier::type_invariant]
    spec fn base_url_is_trimmed(self) -> bool {
        no_trailing_slash(self.base_url@)
    }

    /// Creates the backend for the instance at `config.url`, dropping any
    /// trailing `'/'` from the URL.
    pub fn new(config: &SearxngConfig) -> (b: Self)
        ensures
            b@ == trim_trailing_slashes(config.url@),
    {
        let base_url = trim_end_slashes(config.url.as_str());
        proof {
            lemma_trim_shape(config.url@);
        }
        SearxngBackend { base_url }
    }

    /// The base URL of the instance.
    pub fn base_url(&self) -> (r: &str)
        ensures
            r@ == self@,
            no_trailing_slash(r@),
    {
        proof {
            use_type_invariant(self);
        }
        self.base_url.as_str()
    }

    /// The request for a search: `GET {base_url}/search` with the query
    /// parameters of `search_params`.
    pub fn search_request(&self, query: &str, lang: Option<&str>) -> (req: SearchRequest)
        ensures
            req@.0 == self@ + "/search"@,
            no_trailing_slash(self@),
            req@.1 == search_params(query@, opt_view(lang)),
    {
        proof {
            use_type_invariant(self);
        }
        let mut params: Vec<(String, String)> = Vec::new();
        params.push(text_pair("q", query));
        params.push(text_pair("format", "json"));
        params.push(text_pair("pageno", "1"));
        match lang {
            Some(l) => {
                params.push(text_pair("language", l));
            },
            None => {},
        }
        let mut url = String::from_str(self.base_url.as_str());
        url.append("/search");
        let req = SearchRequest { url, params };
        assert(req@.1 =~= search_params(query@, opt_view(lang)));
        req
    }

    /// The next step of a search for `query` (at most `num_results` hits, in
    /// language `lang` when one is given), after `event`.
    ///
    /// The exchange starts by sending `search_request`; a transport failure
    /// ends it with `searxng request failed: ..`; a status outside `200..300`
    /// ends it with `searxng HTTP ..` (the status code and its reason); on
    /// success the body is read as JSON, and a failure there ends it with
    /// `searxng parse error: ..`. A JSON body always ends the search with the
    /// hits and warnings of `parse_search_response`: engine failures that the
    /// answer reports are warnings, not an error.
    pub fn search_step(&self, query: &str, num_results: usize, lang: Option<&str>, event: SearchEvent) -> (act: SearchAction)
        requires
            event matches SearchEvent::Status(code) ==> valid_status(code),
        ensures
            event is Start ==> (act matches SearchAction::Send(req) && req@.0 == self@ + "/search"@
                && req@.1 == search_params(query@, opt_view(lang))),
            event matches SearchEvent::RequestFailed(e) ==> (act matches SearchAction::Finish(Err(err))
                && err@ == "searxng request failed: "@ + e@),
            event matches SearchEvent::Status(code) ==> (status_is_success(code) ==> act is ReadJson),
            event matches SearchEvent::Status(code) ==> (act is ReadJson <==> 200 <= code && code < 300),
            event matches SearchEvent::Status(code) ==> (!status_is_success(code) ==> (act matches SearchAction::Finish(Err(err))
                && err@ == "searxng HTTP "@ + http_status_text(code)
                && err@.len() >= 16 && err@.subrange(13, 16) == status_digits(code))),
            event matches SearchEvent::BodyFailed(e) ==> (act matches SearchAction::Finish(Err(err))
                && err@ == "searxng parse error: "@ + e@),
            event matches SearchEvent::Body(data) ==> (act matches SearchAction::Finish(Ok(resp))
                && resp@.0 == expected_results(json_model(data), num_results as nat)
                && resp@.1 == expected_warnings(json_model(data))),
    {
        match event {
            SearchEvent::Start => SearchAction::Send(self.search_request(query, lang)),
            SearchEvent::RequestFailed(e) => fail_with("searxng request failed: ", e.as_str()),
            SearchEvent::Status(code) => {
                if is_success(code) {
                    SearchAction::ReadJson
                } else {
                    let text = status_display(code);
                    proof {
                        reveal_strlit("searxng HTTP ");
                        assert(text@.take(4)[0] == text@[0]);
                    }
                    let act = fail_with("searxng HTTP ", text.as_str());
                    proof {
                        let m = "searxng HTTP "@ + text@;
                        assert(m.subrange(13, 16) =~= text@.take(4).take(3));
                    }
                    act
                }
            },
            SearchEvent::BodyFailed(e) => fail_with("searxng parse error: ", e.as_str()),
            SearchEvent::Body(data) => SearchAction::Finish(Ok(parse_search_response(&data, num_results))),
        }
    }
}

} // verus!
