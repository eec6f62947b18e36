//! The developer console: raw requests against the active endpoint, and the
//! records kept of them.

use vstd::prelude::*;
use vstd::string::*;

use crate::client::HttpMethod;
use crate::text::{str_equal, trim_spaces, trim_spec};

verus! {

/// The console page's query parameters.
pub struct ConsoleQuery {
    pub endpoint_filter: Option<i64>,
}

/// A raw request the operator typed.
pub struct ExecuteRequest {
    pub method: String,
    pub path: String,
    pub body: String,
}

/// What the console shows of the response.
pub struct ExecuteResponse {
    pub status: u16,
    pub body: String,
    pub is_json: bool,
}

/// The console page's assembled data.
pub struct ConsoleData {
    pub history: Vec<ConsoleHistoryWithEndpoint>,
    pub endpoint_filter: Option<i64>,
}

/// One history row, joined with its endpoint's name.
pub struct ConsoleHistoryWithEndpoint {
    pub id: i64,
    pub endpoint_id: i64,
    pub endpoint_name: String,
    pub method: String,
    pub path: String,
    pub body: Option<String>,
    pub response_status: Option<i32>,
    pub created_at: String,
}

/// The fields a new history record is made of.
pub struct CreateConsoleHistory {
    pub endpoint_id: i64,
    pub method: String,
    pub path: String,
    pub body: Option<String>,
    pub response_status: Option<i32>,
    pub response_body: Option<String>,
}

/// The fields a new saved query is made of.
pub struct CreateSavedQuery {
    pub name: String,
    pub query_type: String,
    pub query_body: String,
    pub indices: Option<Vec<String>>,
    pub description: Option<String>,
}

/// The uppercase of the letters the method words are spelled with; anything
/// else is left alone (and then matches no method word either way).
pub open spec fn upper_method_char(c: char) -> char {
    if c == 'g' {
        'G'
    } else if c == 'e' {
        'E'
    } else if c == 't' {
        'T'
    } else if c == 'h' {
        'H'
    } else if c == 'a' {
        'A'
    } else if c == 'd' {
        'D'
    } else if c == 'p' {
        'P'
    } else if c == 'o' {
        'O'
    } else if c == 's' {
        'S'
    } else if c == 'u' {
        'U'
    } else if c == 'l' {
        'L'
    } else {
        c
    }
}

/// A method string uppercased.
pub open spec fn upper_method(s: Seq<char>) -> Seq<char>
    decreases s.len(),
{
    if s.len() == 0 {
        Seq::empty()
    } else {
        upper_method(s.drop_last()).push(upper_method_char(s.last()))
    }
}

/// Which verb a typed method names, read case-insensitively; a `HEAD` is
/// served as a bodyless `GET`.  An unknown method is refused.
pub open spec fn method_of(m: Seq<char>) -> Option<HttpMethod> {
    let u = upper_method(m);
    if u == "GET"@ || u == "HEAD"@ {
        Some(HttpMethod::Get)
    } else if u == "POST"@ {
        Some(HttpMethod::Post)
    } else if u == "PUT"@ {
        Some(HttpMethod::Put)
    } else if u == "DELETE"@ {
        Some(HttpMethod::Delete)
    } else {
        None
    }
}

/// Exec twin of [`upper_method_char`].
fn upper_method_char_exec(c: char) -> (r: char)
    ensures
        r == upper_method_char(c),
{
    if c == 'g' {
        'G'
    } else if c == 'e' {
        'E'
    } else if c == 't' {
        'T'
    } else if c == 'h' {
        'H'
    } else if c == 'a' {
        'A'
    } else if c == 'd' {
        'D'
    } else if c == 'p' {
        'P'
    } else if c == 'o' {
        'O'
    } else if c == 's' {
        'S'
    } else if c == 'u' {
        'U'
    } else if c == 'l' {
        'L'
    } else {
        c
    }
}

/// Classify a typed method.
pub fn parse_method(method: &str) -> (r: Option<HttpMethod>)
    ensures
        r == method_of(method@),
{
    let n = method.unicode_len();
    let mut upper = String::new();
    let mut i: usize = 0;
    proof {
        assert(method@.take(0) =~= Seq::<char>::empty());
        assert(upper@ =~= upper_method(method@.take(0)));
    }
    #[verifier::loop_isolation(false)]
    while i < n
        invariant
            0 <= i <= n,
            upper@ == upper_method(method@.take(i as int)),
        decreases n - i,
    {
        let c = method.get_char(i);
        proof {
            assert(method@.take(i as int + 1).drop_last() =~= method@.take(i as int));
            assert(method@.take(i as int + 1).last() == c);
        }
        crate::text::push_char(&mut upper, upper_method_char_exec(c));
        i = i + 1;
    }
    proof {
        assert(method@.take(n as int) =~= method@);
    }
    if str_equal(upper.as_str(), "GET") || str_equal(upper.as_str(), "HEAD") {
        Some(HttpMethod::Get)
    } else if str_equal(upper.as_str(), "POST") {
        Some(HttpMethod::Post)
    } else if str_equal(upper.as_str(), "PUT") {
        Some(HttpMethod::Put)
    } else if str_equal(upper.as_str(), "DELETE") {
        Some(HttpMethod::Delete)
    } else {
        None
    }
}

/// Whether a response body reads as a structured document: its first
/// non-blank character opens an object or an array.
pub fn looks_like_json(body: &str) -> (r: bool)
    ensures
        r == (trim_spec(body@).len() > 0 && (trim_spec(body@)[0] == '{' || trim_spec(body@)[0]
            == '[')),
{
    let trimmed = trim_spaces(body);
    if trimmed.unicode_len() == 0 {
        false
    } else {
        let c = trimmed.get_char(0);
        c == '{' || c == '['
    }
}

/// The history record of one executed request: an empty request body is
/// recorded as absent, the response is kept whole.
pub fn console_history_entry(
    endpoint_id: i64,
    method: String,
    path: String,
    body: String,
    status: u16,
    response_body: String,
) -> (r: CreateConsoleHistory)
    ensures
        r.endpoint_id == endpoint_id,
        r.method == method,
        r.path == path,
        body@.len() == 0 ==> r.body is None,
        body@.len() > 0 ==> r.body == Some(body),
        r.response_status == Some(status as i32),
        r.response_body == Some(response_body),
{
    let body_field = if body.as_str().is_empty() {
        None
    } else {
        Some(body)
    };
    CreateConsoleHistory {
        endpoint_id,
        method,
        path,
        body: body_field,
        response_status: Some(status as i32),
        response_body: Some(response_body),
    }
}

} // verus!
