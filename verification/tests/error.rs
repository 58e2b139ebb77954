use ureq::Error;
use ureq::TimeoutReason;

fn refused_uri() -> http::Error {
    http::Request::builder()
        .uri("file:///some/path")
        .body(())
        .unwrap_err()
}

#[test]
fn ensure_error_size() {
    // This is platform dependent, so we can't be too strict or precise.
    let size = std::mem::size_of::<Error>();
    println!("Error size: {}", size);
    assert!(size < 100); // 40 on Macbook M1
}

#[test]
fn timeout_reason_text() {
    assert_eq!(TimeoutReason::Global.to_string(), "global");
    assert_eq!(TimeoutReason::Resolver.to_string(), "resolver");
    assert_eq!(TimeoutReason::OpenConnection.to_string(), "open connection");
    assert_eq!(TimeoutReason::SendRequest.to_string(), "send request");
    assert_eq!(TimeoutReason::SendBody.to_string(), "send body");
    assert_eq!(TimeoutReason::Await100.to_string(), "await 100");
    assert_eq!(TimeoutReason::RecvResponse.to_string(), "receive response");
    assert_eq!(TimeoutReason::RecvBody.to_string(), "receive body");
    assert_eq!(TimeoutReason::RecvBody.as_str(), "receive body");
}

#[test]
fn timeout_reason_is_plain_data() {
    let reason = TimeoutReason::SendBody;
    let copy = reason;
    assert_eq!(reason, copy);
    assert_ne!(reason, TimeoutReason::RecvBody);
}

#[test]
fn display_of_cases_without_cause() {
    assert_eq!(Error::HostNotFound.to_string(), "host not found");
    assert_eq!(Error::RedirectFailed.to_string(), "redirect failed");
    assert_eq!(Error::InvalidProxyUrl.to_string(), "invalid proxy url");
    assert_eq!(Error::ConnectionFailed.to_string(), "connection failed");
    assert_eq!(
        Error::BodyExceedsLimit.to_string(),
        "the response body is larger than request limit"
    );
}

#[test]
fn display_of_cases_with_own_text() {
    assert_eq!(
        Error::BadUri("/path is missing scheme".to_string()).to_string(),
        "bad uri: /path is missing scheme"
    );
    assert_eq!(
        Error::Timeout(TimeoutReason::OpenConnection).to_string(),
        "timeout: open connection"
    );
    assert_eq!(Error::Tls("no certificate").to_string(), "no certificate");
    assert_eq!(Error::CookieValue("bad value").to_string(), "bad value");
    assert_eq!(
        Error::CookieJar("jar is read-only".to_string()).to_string(),
        "cookie: jar is read-only"
    );
    assert_eq!(
        Error::UnknownCharset("klingon".to_string()).to_string(),
        "unknown character set: klingon"
    );
}

#[test]
fn display_of_http_case() {
    let err = Error::Http(refused_uri());
    assert_eq!(err.to_string(), "http: invalid format");
    assert_eq!(err.cause_text(), "invalid format");
}

#[test]
fn display_of_protocol_case() {
    let err = Error::Protocol(hoot::Error::UnsupportedVersion);
    assert_eq!(err.to_string(), "protocol: unsupported http version");
}

#[test]
fn display_of_io_case() {
    let cause = std::io::Error::new(std::io::ErrorKind::NotFound, "gone");
    assert_eq!(Error::Io(cause).to_string(), "io: gone");
}

#[test]
fn display_of_pem_case() {
    let cause = rustls_pemfile::Error::Base64Decode("x".to_string());
    assert_eq!(Error::Pem(cause).to_string(), "PEM: Base64Decode(\"x\")");
}

#[test]
fn display_of_rustls_case() {
    let cause = rustls::Error::General("boom".to_string());
    assert_eq!(Error::Rustls(cause).to_string(), "rustls: unexpected error: boom");
}

#[test]
fn display_of_native_tls_case() {
    let cause = match native_tls::Certificate::from_pem(b"not a certificate") {
        Ok(_) => panic!("garbage was read as a certificate"),
        Err(cause) => cause,
    };
    let expected = format!("native-tls: {}", cause);
    assert_eq!(Error::NativeTls(cause).to_string(), expected);
}

#[test]
fn display_of_der_case() {
    let cause = der::Error::from(der::ErrorKind::Failed);
    assert_eq!(Error::Der(cause).to_string(), "der: operation failed");
}

#[test]
fn display_of_cookie_case() {
    let cause = cookie_store::CookieError::Expired;
    assert_eq!(
        Error::Cookie(cause).to_string(),
        "cookie: attempted to utilize an Expired Cookie"
    );
}

#[test]
fn render_puts_the_fixed_words_around_the_cause() {
    let err = Error::Http(refused_uri());
    assert_eq!(err.render("anything"), "http: anything");
    assert_eq!(Error::HostNotFound.render("ignored"), "host not found");
    assert_eq!(
        Error::Timeout(TimeoutReason::Global).render("ignored"),
        "timeout: global"
    );
}

#[test]
fn cause_text_is_empty_without_outside_cause() {
    assert_eq!(Error::HostNotFound.cause_text(), "");
    assert_eq!(Error::BadUri("x".to_string()).cause_text(), "");
}

#[test]
fn into_io_unwraps_the_io_case() {
    let cause = std::io::Error::new(std::io::ErrorKind::BrokenPipe, "pipe is gone");
    let io = Error::Io(cause).into_io();
    assert_eq!(io.kind(), std::io::ErrorKind::BrokenPipe);
    assert_eq!(io.to_string(), "pipe is gone");
}

#[test]
fn into_io_keeps_an_os_error_as_it_is() {
    let cause = std::io::Error::from_raw_os_error(2);
    let text = cause.to_string();
    let io = Error::Io(cause).into_io();
    assert_eq!(io.raw_os_error(), Some(2));
    assert_eq!(io.to_string(), text);
}

#[test]
fn into_io_wraps_every_other_case_with_its_display_text() {
    let io = Error::HostNotFound.into_io();
    assert_eq!(io.kind(), std::io::ErrorKind::Other);
    assert_eq!(io.to_string(), "host not found");

    let io = Error::Http(refused_uri()).into_io();
    assert_eq!(io.kind(), std::io::ErrorKind::Other);
    assert_eq!(io.to_string(), "http: invalid format");

    let io = Error::Timeout(TimeoutReason::RecvResponse).into_io();
    assert_eq!(io.kind(), std::io::ErrorKind::Other);
    assert_eq!(io.to_string(), "timeout: receive response");
    assert_eq!(
        io.get_ref().unwrap().to_string(),
        "timeout: receive response"
    );
}

#[test]
fn disconnected_is_an_unexpected_end_of_stream() {
    let err = Error::disconnected();
    assert_eq!(err.to_string(), "io: Peer disconnected");
    match err {
        Error::Io(cause) => {
            assert_eq!(cause.kind(), std::io::ErrorKind::UnexpectedEof);
            assert_eq!(cause.to_string(), "Peer disconnected");
        }
        _ => panic!("not an io failure"),
    }
}

#[test]
fn causes_are_put_in_their_cases() {
    assert!(matches!(Error::from(refused_uri()), Error::Http(_)));
    assert!(matches!(
        Error::from(hoot::Error::BadHostHeader),
        Error::Protocol(hoot::Error::BadHostHeader)
    ));
    let io = std::io::Error::new(std::io::ErrorKind::TimedOut, "late");
    match Error::from(io) {
        Error::Io(cause) => assert_eq!(cause.kind(), std::io::ErrorKind::TimedOut),
        _ => panic!("not an io failure"),
    }
    assert!(matches!(
        Error::from(rustls::Error::DecryptError),
        Error::Rustls(rustls::Error::DecryptError)
    ));
    assert!(matches!(
        Error::from(der::Error::from(der::ErrorKind::Failed)),
        Error::Der(_)
    ));
    assert!(matches!(
        Error::from(cookie_store::CookieError::Expired),
        Error::Cookie(cookie_store::CookieError::Expired)
    ));
    let tls = match native_tls::Certificate::from_pem(b"not a certificate") {
        Ok(_) => panic!("garbage was read as a certificate"),
        Err(cause) => cause,
    };
    assert!(matches!(Error::from(tls), Error::NativeTls(_)));
}
