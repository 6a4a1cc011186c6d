use minirps::context::Context;
use minirps::error::EngineError;
use minirps::directive::{DecodeIssue, Field, Modify};
use minirps::engine::{
    assemble, content_type_for, finish, resolve, Directive, Proxy, Redirect, Resolution, Upstream,
};
use minirps::value::{StateBag, Val};

fn s(t: &str) -> String {
    t.to_string()
}

fn object(entries: Vec<(&str, Val)>) -> Val {
    Val::Object(entries.into_iter().map(|(k, v)| (s(k), v)).collect())
}

fn text_map(entries: Vec<(&str, &str)>) -> Val {
    Val::Object(entries.into_iter().map(|(k, v)| (s(k), Val::Str(s(v)))).collect())
}

fn bag(entries: Vec<(&str, Val)>) -> StateBag {
    StateBag { entries: entries.into_iter().map(|(k, v)| (s(k), v)).collect() }
}

fn request(method: &str, headers: Vec<(&str, &[u8])>, body: &[u8]) -> Context {
    Context::new(
        s("/items"),
        vec![],
        vec![(s("limit"), s("10"))],
        s(method),
        s("/items?limit=10"),
        s("/items"),
        Some(s("limit=10")),
        headers.into_iter().map(|(k, v)| (s(k), v.to_vec())).collect(),
        body.to_vec(),
    )
}

fn header<'a>(headers: &'a [(String, String)], name: &str) -> Option<&'a str> {
    headers.iter().find(|(k, _)| k == name).map(|(_, v)| v.as_str())
}

fn reply(r: Result<Resolution, EngineError>) -> minirps::engine::Reply {
    match r {
        Ok(Resolution::Reply(rep)) => rep,
        _ => panic!("expected a direct reply"),
    }
}

fn forward(r: Result<Resolution, EngineError>) -> (Directive, minirps::engine::Outbound) {
    match r {
        Ok(Resolution::Forward(k, o)) => (k, o),
        Ok(_) => panic!("expected a forward"),
        Err(e) => panic!("expected a forward, got {}", e.message()),
    }
}

#[test]
fn empty_bag_gives_direct_reply_with_content_type() {
    let ctx = request("GET", vec![], b"");
    let ct = content_type_for("index.html");
    assert_eq!(ct.as_deref(), Some("text/html"));
    let rep = reply(resolve(&ctx, b"hello".to_vec(), &ct, &StateBag::new()));
    assert_eq!(rep.status, 200);
    assert_eq!(header(&rep.headers, "content-type"), Some("text/html"));
    assert_eq!(header(&rep.headers, "server"), Some("minirps"));
    assert_eq!(rep.body, b"hello".to_vec());
}

#[test]
fn empty_bag_without_content_type() {
    let ctx = request("GET", vec![], b"");
    let ct = content_type_for("page");
    assert_eq!(ct, None);
    let rep = reply(resolve(&ctx, vec![], &ct, &StateBag::new()));
    assert_eq!(rep.status, 200);
    assert_eq!(header(&rep.headers, "content-type"), None);
    assert_eq!(rep.headers.len(), 1);
}

#[test]
fn proxy_inbound_header_wins() {
    let ctx = request("GET", vec![("x-a", b"2")], b"");
    let b = bag(vec![(
        "proxy",
        object(vec![("url", Val::Str(s("http://upstream.test/x"))), ("headers", text_map(vec![("X-A", "1")]))]),
    )]);
    let (k, o) = forward(resolve(&ctx, vec![], &None, &b));
    assert_eq!(k, Directive::Proxy);
    assert_eq!(header(&o.headers, "x-a"), Some("2"));
    assert_eq!(o.headers.len(), 1);
}

#[test]
fn redirect_directive_header_wins() {
    let ctx = request("GET", vec![("x-a", b"2")], b"");
    let b = bag(vec![(
        "redirect",
        object(vec![("url", Val::Str(s("http://upstream.test/x"))), ("headers", text_map(vec![("X-A", "1")]))]),
    )]);
    let (k, o) = forward(resolve(&ctx, vec![], &None, &b));
    assert_eq!(k, Directive::Redirect);
    assert_eq!(header(&o.headers, "x-a"), Some("1"));
}

#[test]
fn headers_set_by_one_side_only_are_kept() {
    let ctx = request("GET", vec![("accept", b"*/*")], b"");
    let v = object(vec![("url", Val::Str(s("http://upstream.test/x"))), ("headers", text_map(vec![("X-Token", "t")]))]);
    let o = Proxy::new(&ctx.method, &ctx.headers, &ctx.body, &v).ok().unwrap();
    assert_eq!(header(&o.headers, "accept"), Some("*/*"));
    assert_eq!(header(&o.headers, "x-token"), Some("t"));
    let o = Redirect::new(&ctx.method, &ctx.headers, &ctx.body, &v).ok().unwrap();
    assert_eq!(header(&o.headers, "accept"), Some("*/*"));
    assert_eq!(header(&o.headers, "x-token"), Some("t"));
}

#[test]
fn modify_status_404() {
    let ctx = request("GET", vec![], b"");
    let b = bag(vec![("modify", object(vec![("status", Val::Int(404))]))]);
    let rep = reply(resolve(&ctx, vec![], &None, &b));
    assert_eq!(rep.status, 404);
}

#[test]
fn modify_status_out_of_range_keeps_200() {
    let ctx = request("GET", vec![], b"");
    let b = bag(vec![("modify", object(vec![("status", Val::Int(70000))]))]);
    let rep = reply(resolve(&ctx, vec![], &None, &b));
    assert_eq!(rep.status, 200);
    let b = bag(vec![("modify", object(vec![("status", Val::Int(1000))]))]);
    assert_eq!(reply(resolve(&ctx, vec![], &None, &b)).status, 200);
    let b = bag(vec![("modify", object(vec![("status", Val::Int(99))]))]);
    assert_eq!(reply(resolve(&ctx, vec![], &None, &b)).status, 200);
}

#[test]
fn modify_headers_override_content_type_but_not_server() {
    let ctx = request("GET", vec![], b"");
    let b = bag(vec![(
        "modify",
        object(vec![(
            "headers",
            text_map(vec![("Content-Type", "application/json"), ("Server", "other"), ("bad name", "x"), ("X-Ok", "yes")]),
        )]),
    )]);
    let rep = reply(resolve(&ctx, b"{}".to_vec(), &Some(s("text/html")), &b));
    assert_eq!(header(&rep.headers, "content-type"), Some("application/json"));
    assert_eq!(header(&rep.headers, "server"), Some("minirps"));
    assert_eq!(header(&rep.headers, "x-ok"), Some("yes"));
    assert_eq!(header(&rep.headers, "bad name"), None);
    assert_eq!(rep.headers.len(), 3);
}

#[test]
fn modify_with_bad_value_is_ignored() {
    let ctx = request("GET", vec![], b"");
    let b = bag(vec![("modify", object(vec![("status", Val::Int(404)), ("headers", Val::Str(s("x")))]))]);
    let rep = reply(resolve(&ctx, vec![], &None, &b));
    assert_eq!(rep.status, 200);
}

#[test]
fn modify_header_value_that_cannot_be_sent_is_skipped() {
    let md = Modify::new(&object(vec![("headers", text_map(vec![("x-a", "a\nb"), ("x-b", "ok")]))])).ok().unwrap();
    let rep = assemble(vec![], &None, &Some(md));
    assert_eq!(header(&rep.headers, "x-a"), None);
    assert_eq!(header(&rep.headers, "x-b"), Some("ok"));
}

#[test]
fn context_echoes_method_path_and_query() {
    let ctx = request("GET", vec![], b"");
    assert_eq!(ctx.method, "GET");
    assert_eq!(ctx.path, "/items");
    assert_eq!(ctx.query, "limit=10");
    assert_eq!(ctx.url, "/items?limit=10");
    let value = minijinja::Value::from_iter(vec![
        ("method", minijinja::Value::from(ctx.method.clone())),
        ("path", minijinja::Value::from(ctx.path.clone())),
        ("query", minijinja::Value::from(ctx.query.clone())),
    ]);
    let env = minijinja::Environment::new();
    let out = env.render_str("{{ method }} {{ path }}?{{ query }}", value).unwrap();
    assert_eq!(out, "GET /items?limit=10");
}

#[test]
fn context_without_query_has_empty_query() {
    let ctx = Context::new(s("/"), vec![], vec![], s("POST"), s("/"), s("/"), None, vec![], vec![]);
    assert_eq!(ctx.query, "");
    assert_eq!(ctx.method, "POST");
}

#[test]
fn context_drops_headers_that_are_not_utf8() {
    let ctx = request("GET", vec![("x-good", b"caf\xc3\xa9"), ("x-bad", b"\xff\xfe"), ("x-good", b"second")], b"");
    assert_eq!(header(&ctx.headers, "x-good"), Some("second"));
    assert_eq!(header(&ctx.headers, "x-bad"), None);
    assert_eq!(ctx.headers.len(), 1);
    let ctx = request("GET", vec![("x-good", b"caf\xc3\xa9")], b"");
    assert_eq!(header(&ctx.headers, "x-good"), Some("café"));
}

#[test]
fn proxy_without_method_or_body_uses_inbound_ones() {
    let ctx = request("PUT", vec![], b"payload");
    let b = bag(vec![("proxy", object(vec![("url", Val::Str(s("http://upstream.test/x")))]))]);
    let (_, o) = forward(resolve(&ctx, vec![], &None, &b));
    assert_eq!(o.method, "PUT");
    assert_eq!(o.url, "http://upstream.test/x");
    assert_eq!(o.body, b"payload".to_vec());
    let up = Upstream { status: 201, headers: vec![(s("x-up"), vec![0xff, 1])], body: b"answer".to_vec() };
    let out = finish(Directive::Proxy, Ok(up)).ok().unwrap();
    assert_eq!(out.status, 201);
    assert_eq!(out.headers, vec![(s("x-up"), vec![0xff, 1])]);
    assert_eq!(out.body, b"answer".to_vec());
}

#[test]
fn proxy_own_method_and_body_replace_inbound() {
    let ctx = request("GET", vec![], b"payload");
    let v = object(vec![
        ("url", Val::Str(s("http://upstream.test/x"))),
        ("method", Val::Str(s("POST"))),
        ("body", Val::Bytes(vec![1, 2, 3])),
    ]);
    let o = Proxy::new(&ctx.method, &ctx.headers, &ctx.body, &v).ok().unwrap();
    assert_eq!(o.method, "POST");
    assert_eq!(o.body, vec![1, 2, 3]);
    let v = object(vec![("url", Val::Str(s("http://u.test/"))), ("body", Val::Str(s("hé")))]);
    let o = Redirect::new(&ctx.method, &ctx.headers, &ctx.body, &v).ok().unwrap();
    assert_eq!(o.body, "hé".as_bytes().to_vec());
    assert_eq!(o.method, "GET");
}

#[test]
fn invalid_utf8_body_fails_with_decode_error() {
    let ctx = request("POST", vec![], &[0x66, 0xff, 0x6f]);
    let r = ctx.body_text();
    assert!(matches!(r, Err(EngineError::BodyDecode)));
    assert_eq!(r.err().unwrap().message(), "Request body is not valid UTF-8!");
    let ctx = request("POST", vec![], b"ok");
    assert_eq!(ctx.body_text().ok().unwrap(), "ok");
}

#[test]
fn proxy_without_url_is_fatal() {
    let ctx = request("GET", vec![], b"");
    let b = bag(vec![("proxy", object(vec![("method", Val::Str(s("GET")))]))]);
    let r = resolve(&ctx, vec![], &None, &b);
    assert!(matches!(
        r,
        Err(EngineError::DirectiveDecode(Directive::Proxy, DecodeIssue::MissingField(Field::Url)))
    ));
    assert_eq!(r.err().unwrap().message(), "Invalid proxy directive: missing field url");
}

#[test]
fn malformed_directives_are_fatal() {
    let ctx = request("GET", vec![], b"");
    let b = bag(vec![("redirect", Val::Str(s("http://x.test")))]);
    assert!(matches!(
        resolve(&ctx, vec![], &None, &b),
        Err(EngineError::DirectiveDecode(Directive::Redirect, DecodeIssue::NotAnObject))
    ));
    let b = bag(vec![("proxy", object(vec![("url", Val::Int(3))]))]);
    assert!(matches!(
        resolve(&ctx, vec![], &None, &b),
        Err(EngineError::DirectiveDecode(Directive::Proxy, DecodeIssue::WrongType(Field::Url)))
    ));
    let b = bag(vec![("proxy", object(vec![("url", Val::Str(s("http://x"))), ("headers", Val::List(vec![]))]))]);
    assert!(matches!(
        resolve(&ctx, vec![], &None, &b),
        Err(EngineError::DirectiveDecode(Directive::Proxy, DecodeIssue::WrongType(Field::Headers)))
    ));
    let b = bag(vec![("proxy", object(vec![("url", Val::Str(s("http://x"))), ("body", Val::Int(1))]))]);
    assert!(matches!(
        resolve(&ctx, vec![], &None, &b),
        Err(EngineError::DirectiveDecode(Directive::Proxy, DecodeIssue::WrongType(Field::Body)))
    ));
    let b = bag(vec![("proxy", object(vec![("url", Val::Str(s("http://x"))), ("method", Val::Bool(true))]))]);
    assert!(matches!(
        resolve(&ctx, vec![], &None, &b),
        Err(EngineError::DirectiveDecode(Directive::Proxy, DecodeIssue::WrongType(Field::Method)))
    ));
}

#[test]
fn proxy_wins_over_redirect_and_absent_values_are_skipped() {
    let ctx = request("GET", vec![], b"");
    let target = object(vec![("url", Val::Str(s("http://r.test/")))]);
    let b = bag(vec![("redirect", target), ("proxy", object(vec![("url", Val::Str(s("http://p.test/")))]))]);
    let (k, o) = forward(resolve(&ctx, vec![], &None, &b));
    assert_eq!(k, Directive::Proxy);
    assert_eq!(o.url, "http://p.test/");
    let b = bag(vec![("proxy", Val::Null), ("redirect", object(vec![("url", Val::Str(s("http://r.test/")))]))]);
    let (k, _) = forward(resolve(&ctx, vec![], &None, &b));
    assert_eq!(k, Directive::Redirect);
    let b = bag(vec![("proxy", Val::Undefined), ("other", Val::Int(1))]);
    assert_eq!(reply(resolve(&ctx, vec![], &None, &b)).status, 200);
}

#[test]
fn proxy_with_header_that_cannot_be_sent_fails() {
    let ctx = request("GET", vec![], b"");
    let b = bag(vec![(
        "proxy",
        object(vec![("url", Val::Str(s("http://x.test"))), ("headers", text_map(vec![("bad name", "1")]))]),
    )]);
    let r = resolve(&ctx, vec![], &None, &b);
    assert!(matches!(r, Err(EngineError::ProxyDispatch(_))));
    assert_eq!(r.err().unwrap().message(), "Proxy request failed!\nrequest has a header that cannot be sent");
    let b = bag(vec![(
        "redirect",
        object(vec![("url", Val::Str(s("http://x.test"))), ("headers", text_map(vec![("x-a", "a\u{7f}")]))]),
    )]);
    assert!(matches!(resolve(&ctx, vec![], &None, &b), Err(EngineError::RedirectDispatch(_))));
}

#[test]
fn transport_failure_becomes_dispatch_error() {
    let r = finish(Directive::Redirect, Err(s("connection refused")));
    assert!(matches!(&r, Err(EngineError::RedirectDispatch(m)) if m == "connection refused"));
    assert_eq!(r.err().unwrap().message(), "Redirect request failed!\nconnection refused");
    let r = finish(Directive::Proxy, Err(s("timeout")));
    assert_eq!(r.err().unwrap().message(), "Proxy request failed!\ntimeout");
}

#[test]
fn render_error_lists_causes() {
    let e = EngineError::render("outer", &vec![s("first"), s("second")]);
    assert_eq!(e.message(), "Fail to render template!\nouter\n\nfirst\n\nsecond");
    let e = EngineError::render("only", &vec![]);
    assert_eq!(e.message(), "Fail to render template!\nonly");
}

#[test]
fn proxy_body_as_list_of_bytes() {
    let ctx = request("POST", vec![], b"in");
    let v = object(vec![
        ("url", Val::Str(s("http://u.test/"))),
        ("body", Val::List(vec![Val::Int(104), Val::Int(105)])),
    ]);
    let o = Proxy::new(&ctx.method, &ctx.headers, &ctx.body, &v).ok().unwrap();
    assert_eq!(o.body, b"hi".to_vec());
    let v = object(vec![("url", Val::Str(s("http://u.test/"))), ("body", Val::List(vec![Val::Int(300)]))]);
    assert!(matches!(
        Proxy::new(&ctx.method, &ctx.headers, &ctx.body, &v),
        Err(EngineError::DirectiveDecode(Directive::Proxy, DecodeIssue::WrongType(Field::Body)))
    ));
    let d = Redirect::decode(&object(vec![("url", Val::Str(s("http://r.test/")))])).ok().unwrap();
    assert_eq!(d.target.url, "http://r.test/");
    assert!(d.target.method.is_none());
    assert!(matches!(Proxy::decode(&Val::Int(1)), Err(DecodeIssue::NotAnObject)));
}

#[test]
fn modify_status_bounds() {
    let ctx = request("GET", vec![], b"");
    for (given, expected) in [(100, 100), (999, 999), (65535, 200), (65536, 200), (-1, 200), (0, 200)] {
        let b = bag(vec![("modify", object(vec![("status", Val::Int(given))]))]);
        assert_eq!(reply(resolve(&ctx, vec![], &None, &b)).status, expected);
    }
    let b = bag(vec![("modify", object(vec![("status", Val::Str(s("404")))]))]);
    assert_eq!(reply(resolve(&ctx, vec![], &None, &b)).status, 200);
    let b = bag(vec![("modify", object(vec![("status", Val::Null), ("headers", text_map(vec![("x-a", "1")]))]))]);
    let rep = reply(resolve(&ctx, vec![], &None, &b));
    assert_eq!(rep.status, 200);
    assert_eq!(header(&rep.headers, "x-a"), Some("1"));
}

#[test]
fn modify_is_not_read_on_a_forward() {
    let ctx = request("GET", vec![], b"");
    let b = bag(vec![
        ("modify", object(vec![("status", Val::Int(404))])),
        ("proxy", object(vec![("url", Val::Str(s("http://u.test/")))])),
    ]);
    let (k, o) = forward(resolve(&ctx, vec![], &None, &b));
    assert_eq!(k, Directive::Proxy);
    assert!(o.headers.is_empty());
    assert!(Modify::new(&Val::Str(s("x"))).is_err());
}
