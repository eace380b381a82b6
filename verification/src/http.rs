//! What the client sends and what it shows of the answer: the URL, method,
//! query parameters, headers and body built from a request's text, and the
//! status line, timing and body of a response.
use vstd::prelude::*;
use vstd::utf8::encode_utf8;

use crate::text::{
    append_chars, char_vec_views, chars_of, decimal_spec, find_char_spec, lines_of, lines_spec,
    push_decimal, string_from_chars, trim, trim_spec,
};
use crate::vars::{split_trimmed_at, VarPair};

verus! {

// ---------------------------------------------------------------------
// Trusted calls into reqwest and serde_json
// ---------------------------------------------------------------------

/// A byte that may stand in a header name (a token character): an ASCII
/// letter of either case, a digit, or one of ``! # $ % & ' * + - . ^ _ ` | ~``.
pub open spec fn header_name_byte(b: u8) -> bool {
    ||| 65 <= b <= 90
    ||| 97 <= b <= 122
    ||| 48 <= b <= 57
    ||| b == 33
    ||| 35 <= b <= 39
    ||| b == 42
    ||| b == 43
    ||| b == 45
    ||| b == 46
    ||| 94 <= b <= 96
    ||| b == 124
    ||| b == 126
}

/// Whether `reqwest::header::HeaderName::from_bytes` accepts the UTF-8
/// bytes of `name`: 1 to 65535 bytes, each a token character.
pub open spec fn header_name_accepted(name: Seq<char>) -> bool {
    let bytes = encode_utf8(name);
    &&& 1 <= bytes.len() <= 65535
    &&& forall|i: int| 0 <= i < bytes.len() ==> header_name_byte(#[trigger] bytes[i])
}

/// Calls `reqwest::header::HeaderName::from_bytes` on the bytes of `name`.
/// Trusted: it accepts exactly the names of 1 to 65535 token characters
/// (its table `HEADER_CHARS` and its length limit, as its source shows).
#[verifier::external_body]
fn header_name_ok(name: &str) -> (ok: bool)
    ensures
        ok == header_name_accepted(name@),
{
    reqwest::header::HeaderName::from_bytes(name.as_bytes()).is_ok()
}

/// A byte that `HeaderValue::from_str` admits: visible ASCII, a tab, or
/// any byte from 128 up.
pub open spec fn header_value_byte(b: u8) -> bool {
    (b >= 32 && b != 127) || b == 9
}

/// Every UTF-8 byte of `value` is admitted in a header value.
pub open spec fn header_value_accepted(value: Seq<char>) -> bool {
    forall|i: int|
        0 <= i < encode_utf8(value).len() ==> header_value_byte(#[trigger] encode_utf8(value)[i])
}

/// Calls `reqwest::header::HeaderValue::from_str`. Trusted: it accepts
/// `value` exactly when every byte of it is admitted (as its source shows).
#[verifier::external_body]
fn header_value_ok(value: &str) -> (ok: bool)
    ensures
        ok == header_value_accepted(value@),
{
    reqwest::header::HeaderValue::from_str(value).is_ok()
}

/// The text that `serde_json` pretty-prints for `text`, where `text` is JSON
/// (`None` where it is not).
pub uninterp spec fn json_pretty(text: Seq<char>) -> Option<Seq<char>>;

/// Calls `serde_json::to_string_pretty` on `text` read as a
/// `serde_json::Value` (`serde_json::from_str`, which fails where `text` is
/// not JSON). Trusted: the result is `json_pretty(text@)`, a function of
/// `text` alone (object keys come out sorted, as the `preserve_order`
/// feature is not enabled); what the pretty text looks like is not
/// restated here.
#[verifier::external_body]
fn pretty_json(text: &str) -> (r: Option<String>)
    ensures
        match r {
            Some(s) => json_pretty(text@) == Some(s@),
            None => json_pretty(text@) is None,
        },
{
    match serde_json::from_str::<serde_json::Value>(text) {
        Ok(v) => serde_json::to_string_pretty(&v).ok(),
        Err(_) => None,
    }
}

// ---------------------------------------------------------------------
// The request
// ---------------------------------------------------------------------

/// The HTTP method a request is sent with.
#[derive(Clone, Copy, PartialEq, Eq, Debug, Structural)]
pub enum HttpMethod {
    Get,
    Post,
    Put,
    Delete,
    Patch,
}

/// The method sent for a request's method text: GET for any text that
/// names none of the five.
pub open spec fn http_method_of(m: Seq<char>) -> HttpMethod {
    if m == "POST"@ {
        HttpMethod::Post
    } else if m == "PUT"@ {
        HttpMethod::Put
    } else if m == "DELETE"@ {
        HttpMethod::Delete
    } else if m == "PATCH"@ {
        HttpMethod::Patch
    } else {
        HttpMethod::Get
    }
}

/// The URL sent: the trimmed text, with `https://` put in front unless it
/// starts with `http://` or `https://`.
pub open spec fn final_url_spec(url: Seq<char>) -> Seq<char> {
    let t = trim_spec(url);
    if "http://"@.is_prefix_of(t) || "https://"@.is_prefix_of(t) {
        t
    } else {
        "https://"@ + t
    }
}

/// The query parameter one line of the parameters defines: none for a
/// blank line; the trimmed line cut at its first `=` (both sides trimmed);
/// a line without `=` is a key with an empty value.
pub open spec fn query_pair_of_line(line: Seq<char>) -> Option<(Seq<char>, Seq<char>)> {
    let l = trim_spec(line);
    if l.len() == 0 {
        None
    } else {
        match find_char_spec(l, '=') {
            Some(p) => Some((trim_spec(l.take(p)), trim_spec(l.skip(p + 1)))),
            None => Some((l, Seq::empty())),
        }
    }
}

/// The query parameters of a request, in the order of its lines.
pub open spec fn query_spec(params: Seq<char>) -> Seq<(Seq<char>, Seq<char>)> {
    lines_spec(params).filter_map(|l: Seq<char>| query_pair_of_line(l))
}

/// The header one line of the headers defines: the trimmed line cut at
/// its first `:`, both sides trimmed, kept where reqwest accepts both name
/// and value; none for a line without `:`.
pub open spec fn header_of_line(line: Seq<char>) -> Option<(Seq<char>, Seq<char>)> {
    let l = trim_spec(line);
    match find_char_spec(l, ':') {
        Some(p) => {
            let name = trim_spec(l.take(p));
            let value = trim_spec(l.skip(p + 1));
            if header_name_accepted(name) && header_value_accepted(value) {
                Some((name, value))
            } else {
                None
            }
        },
        None => None,
    }
}

/// The headers of a request, in the order of its lines.
pub open spec fn headers_spec(headers: Seq<char>) -> Seq<(Seq<char>, Seq<char>)> {
    lines_spec(headers).filter_map(|l: Seq<char>| header_of_line(l))
}

/// The body sent: the body text, unless the method text is `GET` or the
/// body is empty.
pub open spec fn body_spec(method: Seq<char>, body: Seq<char>) -> Option<Seq<char>> {
    if method != "GET"@ && body.len() > 0 {
        Some(body)
    } else {
        None
    }
}

/// A request ready to go out.
pub struct PreparedRequest {
    pub url: String,
    pub method: HttpMethod,
    pub query: Vec<(String, String)>,
    pub headers: Vec<(String, String)>,
    pub body: Option<String>,
}

/// The characters of each name and value.
pub open spec fn string_pair_views(v: Seq<(String, String)>) -> Seq<(Seq<char>, Seq<char>)> {
    v.map_values(|p: (String, String)| (p.0@, p.1@))
}

/// Whether `s` starts with `p`.
fn starts_with(s: &[char], p: &str) -> (b: bool)
    ensures
        b == p@.is_prefix_of(s@),
{
    let pc = chars_of(p);
    if pc.len() > s.len() {
        return false;
    }
    let mut k: usize = 0;
    while k < pc.len()
        invariant
            k <= pc.len() <= s.len(),
            pc@ == p@,
            forall|j: int| 0 <= j < k ==> s@[j] == pc@[j],
        decreases pc.len() - k,
    {
        if s[k] != pc[k] {
            return false;
        }
        k += 1;
    }
    true
}

/// The URL to send for `url` (see `final_url_spec`).
pub fn final_url(url: &str) -> (r: String)
    ensures
        r@ == final_url_spec(url@),
        "http://"@.is_prefix_of(r@) || "https://"@.is_prefix_of(r@),
{
    proof {
        reveal_strlit("https://");
        let t = trim_spec(url@);
        assert(("https://"@ + t).subrange(0, 8) =~= "https://"@);
    }
    let t = trim(chars_of(url).as_slice());
    if starts_with(t.as_slice(), "http://") || starts_with(t.as_slice(), "https://") {
        string_from_chars(t.as_slice())
    } else {
        let mut out = chars_of("https://");
        append_chars(&mut out, t.as_slice());
        string_from_chars(out.as_slice())
    }
}

/// The method to send for a method text.
pub fn http_method_for(method: &str) -> (m: HttpMethod)
    ensures
        m == http_method_of(method@),
{
    let s = String::from_str(method);
    if s == String::from_str("POST") {
        HttpMethod::Post
    } else if s == String::from_str("PUT") {
        HttpMethod::Put
    } else if s == String::from_str("DELETE") {
        HttpMethod::Delete
    } else if s == String::from_str("PATCH") {
        HttpMethod::Patch
    } else {
        HttpMethod::Get
    }
}

/// Converts a parsed pair into strings.
fn pair_strings(kv: &VarPair) -> (r: (String, String))
    ensures
        r.0@ == kv.0@,
        r.1@ == kv.1@,
{
    (string_from_chars(kv.0.as_slice()), string_from_chars(kv.1.as_slice()))
}

/// The query parameter of one line, if any.
fn parse_query_line(line: &[char]) -> (r: Option<(String, String)>)
    ensures
        match query_pair_of_line(line@) {
            Some(kv) => r matches Some(p) && p.0@ == kv.0 && p.1@ == kv.1,
            None => r is None,
        },
{
    let l = trim(line);
    if l.len() == 0 {
        return None;
    }
    match split_trimmed_at(l.as_slice(), '=') {
        Some(kv) => Some(pair_strings(&kv)),
        None => Some((string_from_chars(l.as_slice()), String::new())),
    }
}

/// The query parameters of a request's parameter text.
pub fn parse_query(params: &str) -> (r: Vec<(String, String)>)
    ensures
        string_pair_views(r@) == query_spec(params@),
{
    let lines = lines_of(chars_of(params).as_slice());
    let ghost ls = char_vec_views(lines@);
    let mut r: Vec<(String, String)> = Vec::new();
    let mut i: usize = 0;
    while i < lines.len()
        invariant
            i <= lines.len(),
            ls == char_vec_views(lines@),
            ls == lines_spec(params@),
            string_pair_views(r@) == ls.take(i as int).filter_map(
                |l: Seq<char>| query_pair_of_line(l),
            ),
        decreases lines.len() - i,
    {
        assert(ls.take(i + 1).drop_last() =~= ls.take(i as int));
        assert(ls.take(i + 1).last() == lines@[i as int]@);
        match parse_query_line(lines[i].as_slice()) {
            Some(kv) => {
                r.push(kv);
                assert(string_pair_views(r@) =~= ls.take(i + 1).filter_map(
                    |l: Seq<char>| query_pair_of_line(l),
                ));
            },
            None => {},
        }
        i += 1;
    }
    assert(ls.take(lines.len() as int) =~= ls);
    r
}

/// The header of one line, if any.
fn parse_header_line(line: &[char]) -> (r: Option<(String, String)>)
    ensures
        match header_of_line(line@) {
            Some(kv) => r matches Some(p) && p.0@ == kv.0 && p.1@ == kv.1,
            None => r is None,
        },
{
    let l = trim(line);
    match split_trimmed_at(l.as_slice(), ':') {
        Some(kv) => {
            let (name, value) = pair_strings(&kv);
            if header_name_ok(name.as_str()) && header_value_ok(value.as_str()) {
                Some((name, value))
            } else {
                None
            }
        },
        None => None,
    }
}

/// The headers of a request's header text that reqwest accepts.
pub fn parse_headers(headers: &str) -> (r: Vec<(String, String)>)
    ensures
        string_pair_views(r@) == headers_spec(headers@),
{
    let lines = lines_of(chars_of(headers).as_slice());
    let ghost ls = char_vec_views(lines@);
    let mut r: Vec<(String, String)> = Vec::new();
    let mut i: usize = 0;
    while i < lines.len()
        invariant
            i <= lines.len(),
            ls == char_vec_views(lines@),
            ls == lines_spec(headers@),
            string_pair_views(r@) == ls.take(i as int).filter_map(
                |l: Seq<char>| header_of_line(l),
            ),
        decreases lines.len() - i,
    {
        assert(ls.take(i + 1).drop_last() =~= ls.take(i as int));
        assert(ls.take(i + 1).last() == lines@[i as int]@);
        match parse_header_line(lines[i].as_slice()) {
            Some(kv) => {
                r.push(kv);
                assert(string_pair_views(r@) =~= ls.take(i + 1).filter_map(
                    |l: Seq<char>| header_of_line(l),
                ));
            },
            None => {},
        }
        i += 1;
    }
    assert(ls.take(lines.len() as int) =~= ls);
    r
}

/// Builds what is sent for a request's texts: URL, method, query
/// parameters, headers and body (see the spec functions above).
pub fn prepare_request(
    url: &str,
    method: &str,
    headers: &str,
    params: &str,
    body: &str,
) -> (r: PreparedRequest)
    ensures
        r.url@ == final_url_spec(url@),
        r.method == http_method_of(method@),
        string_pair_views(r.query@) == query_spec(params@),
        string_pair_views(r.headers@) == headers_spec(headers@),
        match body_spec(method@, body@) {
            Some(b) => r.body matches Some(s) && s@ == b,
            None => r.body is None,
        },
        "http://"@.is_prefix_of(r.url@) || "https://"@.is_prefix_of(r.url@),
        method@ != "GET"@ && body@.len() > 0 ==> (r.body matches Some(s) && s@ == body@),
        method@ == "GET"@ || body@.len() == 0 ==> r.body is None,
{
    let is_get = String::from_str(method) == String::from_str("GET");
    let body_out = if !is_get && !body.is_empty() {
        Some(String::from_str(body))
    } else {
        None
    };
    PreparedRequest {
        url: final_url(url),
        method: http_method_for(method),
        query: parse_query(params),
        headers: parse_headers(headers),
        body: body_out,
    }
}

// ---------------------------------------------------------------------
// The response
// ---------------------------------------------------------------------

/// What the request task reports.
#[derive(Debug)]
pub enum HttpResponseEvent {
    Start,
    Success { body: String, status: String, time_ms: u128, size_bytes: usize },
    Error(String),
}

/// The status line shown: the code, a space, and the reason phrase (empty
/// where there is none).
pub open spec fn status_text_spec(code: u16, reason: Option<Seq<char>>) -> Seq<char> {
    decimal_spec(code as nat) + seq![' '] + match reason {
        Some(r) => r,
        None => Seq::empty(),
    }
}

/// The status line for a response's code and reason phrase.
pub fn status_text(code: u16, reason: Option<&str>) -> (s: String)
    ensures
        s@ == status_text_spec(
            code,
            match reason {
                Some(r) => Some(r@),
                None => None,
            },
        ),
{
    let mut out: Vec<char> = Vec::new();
    push_decimal(&mut out, code as u128);
    out.push(' ');
    match reason {
        Some(r) => append_chars(&mut out, chars_of(r).as_slice()),
        None => {},
    }
    assert(out@ =~= status_text_spec(
        code,
        match reason {
            Some(r) => Some(r@),
            None => None,
        },
    ));
    string_from_chars(out.as_slice())
}

/// The duration shown: the milliseconds in decimal, then `ms`.
pub open spec fn time_text_spec(ms: u128) -> Seq<char> {
    decimal_spec(ms as nat) + seq!['m', 's']
}

/// The duration shown for `ms` milliseconds.
pub fn time_text(ms: u128) -> (s: String)
    ensures
        s@ == time_text_spec(ms),
{
    let mut out: Vec<char> = Vec::new();
    push_decimal(&mut out, ms);
    out.push('m');
    out.push('s');
    assert(out@ =~= decimal_spec(ms as nat) + seq!['m', 's']);
    string_from_chars(out.as_slice())
}

/// The body shown for a response text and what pretty-printing gave for
/// it: the pretty-printed JSON where there is one, else the text as it
/// came.
pub fn choose_response_body(text: String, pretty: Option<String>) -> (r: String)
    ensures
        r@ == match pretty {
            Some(p) => p@,
            None => text@,
        },
{
    match pretty {
        Some(p) => p,
        None => text,
    }
}

/// The body shown for a response text: pretty-printed where it is JSON.
pub fn format_response_body(text: String) -> (r: String)
    ensures
        r@ == match json_pretty(text@) {
            Some(p) => p,
            None => text@,
        },
{
    let pretty = pretty_json(text.as_str());
    choose_response_body(text, pretty)
}

} // verus!
