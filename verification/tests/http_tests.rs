use restdeck::app::App;
use restdeck::http::{
    choose_response_body, final_url, format_response_body, http_method_for, parse_headers,
    parse_query, prepare_request, status_text, time_text, HttpMethod, HttpResponseEvent,
};

fn pairs(v: &[(String, String)]) -> Vec<(&str, &str)> {
    v.iter().map(|(a, b)| (a.as_str(), b.as_str())).collect()
}

#[test]
fn final_url_adds_https_where_no_scheme() {
    assert_eq!(final_url("  example.com/x "), "https://example.com/x");
    assert_eq!(final_url("http://a.test"), "http://a.test");
    assert_eq!(final_url("https://a.test"), "https://a.test");
    assert_eq!(final_url("ftp://a.test"), "https://ftp://a.test");
    assert_eq!(final_url(""), "https://");
}

#[test]
fn methods_map_with_get_as_fallback() {
    assert_eq!(http_method_for("POST"), HttpMethod::Post);
    assert_eq!(http_method_for("PUT"), HttpMethod::Put);
    assert_eq!(http_method_for("DELETE"), HttpMethod::Delete);
    assert_eq!(http_method_for("PATCH"), HttpMethod::Patch);
    assert_eq!(http_method_for("GET"), HttpMethod::Get);
    assert_eq!(http_method_for("get"), HttpMethod::Get);
}

#[test]
fn query_lines_become_pairs() {
    let q = parse_query(" limit = 10 \n\nflag\npage=1=2\n");
    assert_eq!(pairs(&q), vec![("limit", "10"), ("flag", ""), ("page", "1=2")]);
    assert!(parse_query("").is_empty());
}

#[test]
fn header_lines_are_checked_by_reqwest() {
    let h = parse_headers("Accept: application/json\nno colon here\nBad Name: x\nX-Ok:  v:w \nX-Ctl: a\u{7f}b\nX-Utf: héllo");
    assert_eq!(pairs(&h), vec![("Accept", "application/json"), ("X-Ok", "v:w"), ("X-Utf", "héllo")]);
}

#[test]
fn body_goes_out_except_for_get_or_empty() {
    let r = prepare_request("a.test", "POST", "", "", "{}");
    assert_eq!(r.body.as_deref(), Some("{}"));
    assert_eq!(r.method, HttpMethod::Post);
    let r = prepare_request("a.test", "GET", "", "", "{}");
    assert_eq!(r.body, None);
    let r = prepare_request("a.test", "PUT", "", "", "");
    assert_eq!(r.body, None);
    let r = prepare_request("a.test", "TRACE", "", "q=1", "x");
    assert_eq!(r.method, HttpMethod::Get);
    assert_eq!(r.body.as_deref(), Some("x"));
    assert_eq!(pairs(&r.query), vec![("q", "1")]);
    assert_eq!(r.url, "https://a.test");
}

#[test]
fn status_and_time_texts() {
    assert_eq!(status_text(200, Some("OK")), "200 OK");
    assert_eq!(status_text(599, None), "599 ");
    assert_eq!(time_text(0), "0ms");
    assert_eq!(time_text(1234), "1234ms");
}

#[test]
fn response_body_is_pretty_printed_when_json() {
    assert_eq!(format_response_body("{\"b\":1,\"a\":[true]}".to_string()), "{\n  \"a\": [\n    true\n  ],\n  \"b\": 1\n}");
    assert_eq!(format_response_body("not json".to_string()), "not json");
    assert_eq!(choose_response_body("raw".to_string(), None), "raw");
    assert_eq!(choose_response_body("raw".to_string(), Some("p".to_string())), "p");
}

#[test]
fn http_events_update_response_pane() {
    let mut app = App::new(None);
    app.response_scroll = 3;
    app.apply_http_event(HttpResponseEvent::Start);
    assert!(app.is_loading);
    assert_eq!(app.response_content, "");
    assert_eq!(app.response_status, None);
    assert_eq!(app.response_scroll, 0);
    app.apply_http_event(HttpResponseEvent::Success {
        body: "{}".to_string(),
        status: "200 OK".to_string(),
        time_ms: 42,
        size_bytes: 2,
    });
    assert!(!app.is_loading);
    assert_eq!(app.response_content, "{}");
    assert_eq!(app.response_status.as_deref(), Some("200 OK"));
    assert_eq!(app.response_time.as_deref(), Some("42ms"));
    app.apply_http_event(HttpResponseEvent::Error("boom".to_string()));
    assert_eq!(app.response_content, "boom");
    assert_eq!(app.response_status.as_deref(), Some("Error"));
    assert_eq!(app.response_time.as_deref(), Some("42ms"));
}

#[test]
fn header_names_are_token_characters() {
    let h = parse_headers("X_Y!#$%&'*+-.^`|~: 1\n: empty name\na b: 2\nX(Y): 3\nX/Y: 4\nÄ: 5");
    assert_eq!(pairs(&h), vec![("X_Y!#$%&'*+-.^`|~", "1")]);
    let longest = "a".repeat(65535);
    let h = parse_headers(&format!("{}: v", longest));
    assert_eq!(h.len(), 1);
    assert_eq!(h[0].0.len(), 65535);
    let too_long = "a".repeat(65536);
    assert!(parse_headers(&format!("{}: v", too_long)).is_empty());
}
