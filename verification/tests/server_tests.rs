use shortener::server::{
    code_from_path, get_client_host, http_error, is_valid_http_url, redirect_response, Handled,
    HttpResponse, PendingCreate, Request, RequestStep,
};
use shortener::{Config, Shortener};

fn config(auth: bool) -> Config {
    Config {
        auth,
        listen_port: 8080,
        url_prefix: "https://s.example/".to_owned(),
        main_page: None,
        code_length: 6,
        database: ":memory:".to_owned(),
        log_file: "access.log".to_owned(),
        trust_proxy: false,
    }
}

fn request(method: &str, path: &str) -> Request {
    Request {
        method: method.to_owned(),
        uri: path.to_owned(),
        path: path.to_owned(),
        remote_ip: "10.0.0.1".to_owned(),
        forwarded_for: None,
        authorization: None,
    }
}

fn done(step: RequestStep) -> Handled {
    match step {
        RequestStep::Done(h) => h,
        RequestStep::ReadBody(_) => panic!("expected a finished request"),
    }
}

fn pending(step: RequestStep) -> PendingCreate {
    match step {
        RequestStep::ReadBody(p) => p,
        RequestStep::Done(_) => panic!("expected a request waiting for its body"),
    }
}

fn post(shortener: &Shortener, path: &str, body: &str) -> Handled {
    let p = pending(shortener.handle(&request("POST", path)));
    shortener.finish_create(p, Some(body.as_bytes().to_vec()))
}

#[test]
fn homepage_greets_without_main_page() {
    let s = Shortener::new(config(false)).unwrap();
    let h = done(s.handle(&request("GET", "/")));
    assert_eq!(h.response.status, 200);
    assert_eq!(h.response.body, "hello, world\n");
    assert!(h.response.location.is_none());
    assert_eq!(h.log_lines, vec!["10.0.0.1 GET /".to_owned()]);
}

#[test]
fn homepage_redirects_to_main_page() {
    let mut c = config(false);
    c.main_page = Some("https://example.com/home".to_owned());
    let s = Shortener::new(c).unwrap();
    let h = done(s.handle(&request("GET", "")));
    assert_eq!(h.response.status, 302);
    assert_eq!(h.response.location.as_deref(), Some("https://example.com/home"));
    assert_eq!(h.response.body, "https://example.com/home\n");
}

#[test]
fn other_methods_are_not_allowed() {
    let s = Shortener::new(config(false)).unwrap();
    let h = done(s.handle(&request("PUT", "/abc")));
    assert_eq!(h.response.status, 405);
    assert_eq!(h.response.body, "Method not allowed\n");
    assert!(h.response.plain_text);
    assert_eq!(h.log_lines, vec!["10.0.0.1 PUT /abc Method not allowed".to_owned()]);
    let h = done(s.handle(&request("get", "/abc")));
    assert_eq!(h.response.status, 405);
}

#[test]
fn create_and_follow_generated_code() {
    let s = Shortener::new(config(false)).unwrap();
    let h = post(&s, "/", "  https://example.com/some/long/path\n");
    assert_eq!(h.response.status, 200);
    let body = h.response.body.clone();
    assert!(body.starts_with("https://s.example/"));
    assert!(body.ends_with('\n'));
    let code = body["https://s.example/".len()..body.len() - 1].to_owned();
    assert_eq!(code.len(), 6);
    assert!(code.chars().all(|c| c.is_ascii_alphanumeric()));
    assert_eq!(
        h.log_lines.last().unwrap(),
        &format!(
            "10.0.0.1 POST / (https://example.com/some/long/path) => https://s.example/{code}"
        )
    );
    let h = done(s.handle(&request("GET", &format!("/{code}"))));
    assert_eq!(h.response.status, 302);
    assert_eq!(
        h.response.location.as_deref(),
        Some("https://example.com/some/long/path")
    );
    let info = s.database.get_url_info(&code).unwrap();
    assert_eq!(info.hits, 1);
    assert_eq!(info.created_by, "10.0.0.1");
}

#[test]
fn create_custom_code_and_conflict() {
    let s = Shortener::new(config(false)).unwrap();
    let h = post(&s, "/docs", "https://example.com/docs");
    assert_eq!(h.response.status, 200);
    assert_eq!(h.response.body, "https://s.example/docs\n");
    let h = post(&s, "/docs", "https://example.com/other");
    assert_eq!(h.response.status, 409);
    assert_eq!(h.response.body, "Code already in use\n");
    assert_eq!(h.log_lines, vec!["10.0.0.1 POST /docs [Code already in use]".to_owned()]);
}

#[test]
fn unknown_code_is_not_found() {
    let s = Shortener::new(config(false)).unwrap();
    let h = done(s.handle(&request("GET", "/nope")));
    assert_eq!(h.response.status, 404);
    assert_eq!(h.response.body, "Not found\n");
    assert_eq!(h.log_lines, vec!["10.0.0.1 GET /nope [Not found]".to_owned()]);
}

#[test]
fn invalid_url_and_invalid_code_are_bad_requests() {
    let s = Shortener::new(config(false)).unwrap();
    let h = post(&s, "/", "ftp://example.com/file");
    assert_eq!(h.response.status, 400);
    assert_eq!(h.response.body, "Invalid URL\n");
    let h = post(&s, "/", "not a url");
    assert_eq!(h.response.status, 400);
    let h = post(&s, "/bad.code", "https://example.com");
    assert_eq!(h.response.status, 400);
    assert_eq!(h.response.body, "Invalid code\n");
    // The URL is checked before the code.
    let h = post(&s, "/bad.code", "nope");
    assert_eq!(h.response.body, "Invalid URL\n");
}

#[test]
fn oversized_body_is_refused() {
    let s = Shortener::new(config(false)).unwrap();
    let p = pending(s.handle(&request("POST", "/")));
    let h = s.finish_create(p, None);
    assert_eq!(h.response.status, 413);
    assert_eq!(h.response.body, "Request body too large\n");
    assert_eq!(h.log_lines, vec!["10.0.0.1 POST / [Request body too large]".to_owned()]);
}

#[test]
fn authentication_is_required_when_enabled() {
    let s = Shortener::new(config(true)).unwrap();
    let h = done(s.handle(&request("POST", "/")));
    assert_eq!(h.response.status, 401);
    assert_eq!(h.response.body, "Unauthorized\n");
    assert_eq!(h.log_lines, vec!["10.0.0.1 POST / [Missing credentials]".to_owned()]);

    let mut r = request("POST", "/");
    r.authorization = Some("Basic abc".to_owned());
    let h = done(s.handle(&r));
    assert_eq!(h.log_lines, vec!["10.0.0.1 POST / [Missing credentials]".to_owned()]);

    r.authorization = Some("Bearer not!valid!base64".to_owned());
    let h = done(s.handle(&r));
    assert_eq!(h.response.status, 401);
    assert_eq!(h.log_lines, vec!["10.0.0.1 POST / [Invalid credentials]".to_owned()]);

    r.authorization = Some("Bearer AAAAAAAAAAAAAAAAAAAAAAAAAAAAAAAAAAAAAAAAAAA=".to_owned());
    let h = done(s.handle(&r));
    assert_eq!(h.response.status, 401);
    assert_eq!(h.log_lines, vec!["10.0.0.1 POST / [Invalid credentials]".to_owned()]);

    s.database.create_user("alice").unwrap();
    let key = s.database.create_api_key("alice").unwrap();
    r.authorization = Some(format!("Bearer {key}"));
    let p = pending(s.handle(&r));
    assert_eq!(p.created_by, "alice");
    let h = s.finish_create(p, Some(b"https://example.com".to_vec()));
    assert_eq!(h.response.status, 200);

    // Redirects stay open to everyone.
    let code = h.response.body.trim().rsplit('/').next().unwrap().to_owned();
    let h = done(s.handle(&request("GET", &format!("/{code}"))));
    assert_eq!(h.response.status, 302);
}

#[test]
fn client_host_uses_proxy_header_only_when_trusted() {
    assert_eq!(get_client_host(false, "1.2.3.4", Some("5.6.7.8")), "1.2.3.4");
    assert_eq!(get_client_host(true, "1.2.3.4", Some(" 5.6.7.8 , 9.9.9.9")), "5.6.7.8");
    assert_eq!(get_client_host(true, "1.2.3.4", Some("  ,9.9.9.9")), "1.2.3.4");
    assert_eq!(get_client_host(true, "1.2.3.4", None), "1.2.3.4");
}

#[test]
fn trusted_proxy_host_is_logged_and_recorded() {
    let mut c = config(false);
    c.trust_proxy = true;
    let s = Shortener::new(c).unwrap();
    let mut r = request("POST", "/x1");
    r.forwarded_for = Some("203.0.113.9, 10.0.0.2".to_owned());
    let p = pending(s.handle(&r));
    assert_eq!(p.created_by, "203.0.113.9");
    assert_eq!(p.request_line, "203.0.113.9 POST /x1");
}

#[test]
fn code_from_path_strips_one_slash_and_decodes() {
    assert_eq!(code_from_path("/abc"), "abc");
    assert_eq!(code_from_path("abc"), "abc");
    assert_eq!(code_from_path("//abc"), "/abc");
    assert_eq!(code_from_path("/a%20b"), "a b");
    assert_eq!(code_from_path("/%E2%9C%93"), "\u{2713}");
    assert_eq!(code_from_path("/%FF"), "\u{FFFD}");
}

#[test]
fn percent_encoded_custom_code_is_checked_after_decoding() {
    let s = Shortener::new(config(false)).unwrap();
    let h = post(&s, "/a%2Db", "https://example.com");
    assert_eq!(h.response.body, "https://s.example/a-b\n");
    let h = post(&s, "/a%20b", "https://example.com");
    assert_eq!(h.response.body, "Invalid code\n");
}

#[test]
fn http_url_check() {
    assert!(is_valid_http_url("http://example.com"));
    assert!(is_valid_http_url("HTTPS://example.com/x?y=1"));
    assert!(!is_valid_http_url("mailto:a@example.com"));
    assert!(!is_valid_http_url("example.com"));
    assert!(!is_valid_http_url(""));
}

#[test]
fn response_builders() {
    let e: HttpResponse = http_error(404, "Not found");
    assert_eq!(e.status, 404);
    assert!(e.plain_text);
    assert_eq!(e.body, "Not found\n");
    let r = redirect_response("https://example.com");
    assert_eq!(r.status, 302);
    assert_eq!(r.location.as_deref(), Some("https://example.com"));
    assert_eq!(r.body, "https://example.com\n");
    assert!(!r.plain_text);
}

#[test]
fn zero_length_codes_cannot_be_generated() {
    let mut c = config(false);
    c.code_length = 0;
    let s = Shortener::new(c).unwrap();
    let h = post(&s, "/", "https://example.com");
    assert_eq!(h.response.status, 500);
    assert_eq!(h.response.body, "Internal server error\n");
    assert_eq!(
        h.log_lines.last().unwrap(),
        "10.0.0.1 POST / [Could not generate code]"
    );
}
