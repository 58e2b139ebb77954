use ureq::AsBody;
use ureq::Error;
use ureq::Method;
use ureq::Target;
use ureq::Version;

fn drain(body: &mut ureq::Body) -> Vec<u8> {
    let mut all = Vec::new();
    let mut buf = [0u8; 16];
    while !body.is_ended() {
        let n = body.read(&mut buf).unwrap();
        all.extend_from_slice(&buf[..n]);
    }
    all
}

fn fields(request: &ureq::Request) -> Vec<(String, String)> {
    request
        .headers()
        .iter()
        .map(|h| (h.name().to_string(), h.value().to_string()))
        .collect()
}

#[test]
fn disallow_empty_host() {
    let err = ureq::get("file:///some/path").call().err().unwrap();
    assert_eq!(err.to_string(), "http: invalid format");
    assert!(matches!(err, Error::Http(_)));
}

#[test]
fn post_with_content_type_sends_the_text() {
    let mut data = "hello";
    let prepared = ureq::post("http://example.test/post")
        .content_type("text/plain")
        .send(&mut data)
        .unwrap();
    let request = &prepared.request;
    assert_eq!(request.method(), Method::Post);
    assert_eq!(request.uri(), "http://example.test/post");
    assert_eq!(request.version(), Version::Http11);
    assert_eq!(
        fields(request),
        vec![("content-type".to_string(), "text/plain".to_string())]
    );
    let mut body = prepared.body;
    assert_eq!(body.known_len(), Some(5));
    assert!(!body.is_ended());
    assert_eq!(drain(&mut body), b"hello");
}

#[test]
fn get_with_header_calls_with_the_empty_body() {
    let prepared = ureq::get("https://example.test/")
        .header("X-Test", "1")
        .call()
        .unwrap();
    let request = &prepared.request;
    assert_eq!(request.method(), Method::Get);
    assert_eq!(request.uri(), "https://example.test/");
    assert_eq!(
        fields(request),
        vec![("x-test".to_string(), "1".to_string())]
    );
    assert!(request.headers().iter().all(|h| h.name() != "content-type"));
    assert!(request.target().has_scheme());
    assert!(request.target().has_host());
    assert_eq!(request.target().scheme(), Some("https"));
    assert_eq!(request.target().authority(), Some("example.test"));
    let mut body = prepared.body;
    assert_eq!(body.known_len(), Some(0));
    let mut buf = [0u8; 8];
    assert_eq!(body.read(&mut buf).unwrap(), 0);
    assert!(body.is_ended());
}

#[test]
fn header_appends_and_never_replaces() {
    let prepared = ureq::get("http://example.test/")
        .header("Accept", "text/html")
        .header("accept", "application/json")
        .header("X-Other", "")
        .call()
        .unwrap();
    assert_eq!(
        fields(&prepared.request),
        vec![
            ("accept".to_string(), "text/html".to_string()),
            ("accept".to_string(), "application/json".to_string()),
            ("x-other".to_string(), "".to_string()),
        ]
    );
}

#[test]
fn header_name_is_kept_in_lower_case() {
    let prepared = ureq::get("http://example.test/")
        .header("X-MiXeD_Case.09!#$%&'*+^`|~", "v")
        .call()
        .unwrap();
    assert_eq!(
        prepared.request.headers()[0].name(),
        "x-mixed_case.09!#$%&'*+^`|~"
    );
}

#[test]
fn refused_header_name_fails_the_call() {
    for name in ["", "has space", "colon:", "süß", "a(b)", "a\"b", "a/b", "a@b"] {
        let err = ureq::get("http://example.test/")
            .header(name, "v")
            .call()
            .err().unwrap();
        assert_eq!(err.to_string(), "http: invalid HTTP header name");
        assert!(matches!(err, Error::Http(_)));
    }
}

#[test]
fn header_name_may_have_65535_characters_and_no_more() {
    let longest = "a".repeat(65535);
    let prepared = ureq::get("http://example.test/")
        .header(&longest, "v")
        .call()
        .unwrap();
    assert_eq!(prepared.request.headers()[0].name(), longest);

    let too_long = "a".repeat(65536);
    let err = ureq::get("http://example.test/")
        .header(&too_long, "v")
        .call()
        .err().unwrap();
    assert_eq!(err.to_string(), "http: invalid HTTP header name");

    let long_mixed = format!("{}Z", "a".repeat(100));
    let prepared = ureq::get("http://example.test/")
        .header(&long_mixed, "v")
        .call()
        .unwrap();
    assert_eq!(
        prepared.request.headers()[0].name(),
        format!("{}z", "a".repeat(100))
    );
}

#[test]
fn refused_header_value_fails_the_call() {
    for value in ["line\nbreak", "nul\0", "del\x7f", "cr\r"] {
        let err = ureq::get("http://example.test/")
            .header("x-test", value)
            .call()
            .err().unwrap();
        assert_eq!(err.to_string(), "http: failed to parse header value");
        assert!(matches!(err, Error::Http(_)));
    }
}

#[test]
fn header_value_may_hold_tabs_and_text_beyond_ascii() {
    let prepared = ureq::get("http://example.test/")
        .header("x-test", "a\tb ü ~")
        .call()
        .unwrap();
    assert_eq!(prepared.request.headers()[0].value(), "a\tb ü ~");
}

#[test]
fn first_refusal_is_the_one_reported() {
    let err = ureq::get("http://example.test/")
        .header("bad name", "bad\nvalue")
        .call()
        .err().unwrap();
    assert_eq!(err.to_string(), "http: invalid HTTP header name");

    let err = ureq::get("http://example.test/")
        .header("x-test", "bad\nvalue")
        .header("bad name", "v")
        .uri("file:///nowhere")
        .call()
        .err().unwrap();
    assert_eq!(err.to_string(), "http: failed to parse header value");

    let err = ureq::get("file:///nowhere")
        .header("bad name", "v")
        .uri("http://example.test/")
        .call()
        .err().unwrap();
    assert_eq!(err.to_string(), "http: invalid format");
}

#[test]
fn uri_overrides_the_target() {
    let prepared = ureq::get("http://first.test/")
        .uri("https://second.test/path?q=1")
        .call()
        .unwrap();
    assert_eq!(prepared.request.uri(), "https://second.test/path?q=1");
}

#[test]
fn refused_uri_fails_the_call() {
    let err = ureq::get("http://example.test/")
        .uri("")
        .call()
        .err().unwrap();
    assert_eq!(err.to_string(), "http: empty string");
    assert!(matches!(err, Error::Http(_)));
}

#[test]
fn target_without_scheme_is_a_bad_uri() {
    let err = ureq::get("/some/path").call().err().unwrap();
    assert_eq!(err.to_string(), "bad uri: /some/path is missing scheme");
    assert!(matches!(err, Error::BadUri(_)));

    let err = ureq::get("example.test").call().err().unwrap();
    assert_eq!(err.to_string(), "bad uri: example.test is missing scheme");
    assert!(matches!(err, Error::BadUri(_)));

    let mut data = "payload";
    let err = ureq::post("/some/path").send(&mut data).err().unwrap();
    assert!(matches!(err, Error::BadUri(_)));
}

#[test]
fn target_shows_its_scheme_and_authority() {
    let prepared = ureq::get("http://user@example.test:8080/path?q=1")
        .call()
        .unwrap();
    let target = prepared.request.target();
    assert_eq!(target.scheme(), Some("http"));
    assert_eq!(target.authority(), Some("user@example.test:8080"));
    assert_eq!(prepared.request.uri(), "http://user@example.test:8080/path?q=1");
}

#[test]
fn target_says_what_it_lacks() {
    let nothing = Target::new(None, None);
    assert_eq!(
        nothing.lack("/path"),
        Some("/path is missing scheme".to_string())
    );
    assert!(!nothing.has_scheme());
    assert!(!nothing.has_host());

    let no_scheme = Target::new(None, Some("example.test".to_string()));
    assert_eq!(
        no_scheme.lack("example.test"),
        Some("example.test is missing scheme".to_string())
    );

    let no_host = Target::new(Some("http".to_string()), None);
    assert_eq!(
        no_host.lack("http:"),
        Some("http: is missing host".to_string())
    );

    let whole = Target::new(Some("http".to_string()), Some("example.test".to_string()));
    assert_eq!(whole.lack("http://example.test"), None);
    assert!(whole.has_scheme());
    assert!(whole.has_host());
}

#[test]
fn version_is_set() {
    let prepared = ureq::get("http://example.test/")
        .version(Version::Http10)
        .call()
        .unwrap();
    assert_eq!(prepared.request.version(), Version::Http10);
}

#[test]
fn every_method_has_its_factory() {
    let uri = "http://example.test/";
    assert_eq!(ureq::get(uri).method_ref(), Some(Method::Get));
    assert_eq!(ureq::head(uri).method_ref(), Some(Method::Head));
    assert_eq!(ureq::delete(uri).method_ref(), Some(Method::Delete));
    assert_eq!(ureq::options(uri).method_ref(), Some(Method::Options));
    assert_eq!(ureq::connect(uri).method_ref(), Some(Method::Connect));
    assert_eq!(ureq::trace(uri).method_ref(), Some(Method::Trace));
    assert_eq!(ureq::post(uri).method_ref(), Some(Method::Post));
    assert_eq!(ureq::put(uri).method_ref(), Some(Method::Put));
    assert_eq!(ureq::patch(uri).method_ref(), Some(Method::Patch));
}

#[test]
fn payload_goes_with_the_method() {
    let uri = "http://example.test/";
    for prepared in [
        ureq::get(uri).call().unwrap(),
        ureq::head(uri).call().unwrap(),
        ureq::delete(uri).call().unwrap(),
        ureq::options(uri).call().unwrap(),
        ureq::connect(uri).call().unwrap(),
        ureq::trace(uri).call().unwrap(),
    ] {
        assert!(!prepared.request.method().has_payload());
        assert_eq!(prepared.body.known_len(), Some(0));
    }
    let mut data = "payload";
    assert!(ureq::post(uri).send(&mut data).unwrap().request.method().has_payload());
    assert!(ureq::put(uri).send(&mut data).unwrap().request.method().has_payload());
    assert!(ureq::patch(uri).send(&mut data).unwrap().request.method().has_payload());
}

#[test]
fn builder_shows_what_it_holds() {
    let builder = ureq::put("http://example.test/put")
        .header("x-a", "1")
        .version(Version::Http10);
    assert_eq!(builder.method_ref(), Some(Method::Put));
    assert_eq!(builder.uri_ref(), Some("http://example.test/put"));
    assert_eq!(builder.version_ref(), Some(Version::Http10));
    assert_eq!(builder.headers_ref().unwrap().len(), 1);
    assert_eq!(builder.headers_ref().unwrap()[0].name(), "x-a");

    let failed = builder.header("bad name", "v");
    assert_eq!(failed.method_ref(), None);
    assert_eq!(failed.uri_ref(), None);
    assert_eq!(failed.version_ref(), None);
    assert!(failed.headers_ref().is_none());
}

#[test]
fn send_takes_every_kind_of_buffer() {
    let mut bytes: &[u8] = b"slice";
    let prepared = ureq::put("http://example.test/").send(&mut bytes).unwrap();
    let mut body = prepared.body;
    assert_eq!(drain(&mut body), b"slice");

    let mut owned = vec![1u8, 2, 3];
    let prepared = ureq::patch("http://example.test/").send(&mut owned).unwrap();
    let mut body = prepared.body;
    assert_eq!(drain(&mut body), vec![1u8, 2, 3]);
}

#[test]
fn send_does_not_touch_the_payload_when_the_request_is_refused() {
    let mut device = std::io::Cursor::new(b"unread".to_vec());
    let mut body = ureq::Body::from_reader(&mut device);
    drop(body.known_len());
    let mut data = "unread";
    let err = ureq::post("file:///nowhere")
        .content_type("text/plain")
        .send(&mut data)
        .err().unwrap();
    assert!(matches!(err, Error::Http(_)));
    assert_eq!(data, "unread");
    let mut again = data.as_body();
    assert_eq!(drain(&mut again), b"unread");
    assert_eq!(drain(&mut body), b"unread");
}

#[test]
fn send_json_sends_the_text() {
    let mut json = String::from("{\"thing\":\"yo\"}");
    let prepared = ureq::post("http://example.test/post")
        .send_json(&mut json)
        .unwrap();
    assert!(prepared.request.headers().is_empty());
    let mut body = prepared.body;
    assert_eq!(body.known_len(), Some(14));
    assert_eq!(drain(&mut body), b"{\"thing\":\"yo\"}");
}

#[test]
fn content_type_with_a_refused_value_fails_the_send() {
    let mut data = "hello";
    let err = ureq::post("http://example.test/post")
        .content_type("text/plain\n")
        .send(&mut data)
        .err().unwrap();
    assert_eq!(err.to_string(), "http: failed to parse header value");
}
