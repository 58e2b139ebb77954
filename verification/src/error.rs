//! The failures of the client, each with the cause it wraps.

use vstd::prelude::*;
use vstd::string::to_string_from_display_ensures;
use vstd::string::StringExecFns;
use cookie_store::CookieError;
use der::Error as DerError;
use hoot::Error as ProtocolError;
use http::Error as HttpError;
use native_tls::Error as NativeTlsError;
use rustls::Error as RustlsError;
use rustls_pemfile::Error as PemError;

verus! {

/// `std::io::Error`, a failure of reading or writing.
#[verifier::external_type_specification]
#[verifier::external_body]
pub struct ExIoError(std::io::Error);

/// `std::io::ErrorKind`, the kinds of such a failure.
#[verifier::external_type_specification]
pub struct ExIoErrorKind(std::io::ErrorKind);

/// `http::Error`, the refusal of a part of a request or a response.
#[verifier::external_type_specification]
#[verifier::external_body]
pub struct ExHttpError(HttpError);

/// `hoot::Error`, a breach of the framing of HTTP/1.x.
#[verifier::external_type_specification]
#[verifier::external_body]
pub struct ExProtocolError(ProtocolError);

/// `rustls_pemfile::Error`, a fault in a PEM file.
#[verifier::external_type_specification]
#[verifier::external_body]
pub struct ExPemError(PemError);

/// `rustls::Error`, a failure of rustls.
#[verifier::external_type_specification]
#[verifier::external_body]
pub struct ExRustlsError(RustlsError);

/// `native_tls::Error`, a failure of native-tls.
#[verifier::external_type_specification]
#[verifier::external_body]
pub struct ExNativeTlsError(NativeTlsError);

/// `der::Error`, a fault in DER data.
#[verifier::external_type_specification]
#[verifier::external_body]
pub struct ExDerError(DerError);

/// `cookie_store::CookieError`, the refusal of a cookie.
#[verifier::external_type_specification]
#[verifier::external_body]
pub struct ExCookieError(CookieError);

/// The kind that `std::io::Error::kind` reports for an I/O error.
pub uninterp spec fn io_error_kind(e: std::io::Error) -> std::io::ErrorKind;

/// The text of the payload that an I/O error carries, if it carries one:
/// what `std::io::Error::get_ref` hands out, shown with `Display`.
pub uninterp spec fn io_error_payload(e: std::io::Error) -> Option<Seq<char>>;

/// Calls `std::io::Error::new` with a text as the payload. The error it makes
/// reports the kind it was given and carries the text unchanged.
#[verifier::external_body]
fn new_io_error(kind: std::io::ErrorKind, message: String) -> (e: std::io::Error)
    ensures
        io_error_kind(e) == kind,
        io_error_payload(e) == Some(message@),
{
    std::io::Error::new(kind, message)
}

/// Writes a `rustls_pemfile::Error` in its `Debug` form, the only text it
/// has.
#[verifier::external_body]
fn pem_debug_text(e: &PemError) -> (text: String) {
    format!("{:?}", e)
}

/// The phase of a call in which a deadline elapsed.
#[derive(Debug, Clone, Copy, PartialEq, Eq)]
#[non_exhaustive]
pub enum TimeoutReason {
    /// The deadline for the entire call.
    Global,
    /// The deadline of the resolver.
    Resolver,
    /// The deadline for opening the connection.
    OpenConnection,
    /// The deadline for sending the request headers.
    SendRequest,
    /// The deadline for sending the request body.
    SendBody,
    /// The wait for an interim `100 Continue`, which is expected to run out.
    Await100,
    /// The deadline for receiving the response headers.
    RecvResponse,
    /// The deadline for receiving the response body.
    RecvBody,
}

impl TimeoutReason {
    /// The words that name this phase.
    pub open spec fn text(self) -> Seq<char> {
        match self {
            TimeoutReason::Global => "global"@,
            TimeoutReason::Resolver => "resolver"@,
            TimeoutReason::OpenConnection => "open connection"@,
            TimeoutReason::SendRequest => "send request"@,
            TimeoutReason::SendBody => "send body"@,
            TimeoutReason::Await100 => "await 100"@,
            TimeoutReason::RecvResponse => "receive response"@,
            TimeoutReason::RecvBody => "receive body"@,
        }
    }

    /// The words that name this phase, as a static string.
    pub fn as_str(&self) -> (s: &'static str)
        ensures
            s@ == self.text(),
    {
        match self {
            TimeoutReason::Global => "global",
            TimeoutReason::Resolver => "resolver",
            TimeoutReason::OpenConnection => "open connection",
            TimeoutReason::SendRequest => "send request",
            TimeoutReason::SendBody => "send body",
            TimeoutReason::Await100 => "await 100",
            TimeoutReason::RecvResponse => "receive response",
            TimeoutReason::RecvBody => "receive body",
        }
    }

    /// The display form of the reason.
    pub fn to_string(&self) -> (s: String)
        ensures
            s@ == self.text(),
    {
        String::from_str(self.as_str())
    }
}

/// A failure of the client.
///
/// Each case carries the cause it wraps. The cases raised by the engine's own
/// policy checks carry none.
#[derive(Debug)]
#[non_exhaustive]
pub enum Error {
    /// The request's metadata is malformed: a header name, a header value or
    /// the target was refused before any network activity.
    Http(HttpError),
    /// The target lacks a scheme or a host.
    BadUri(String),
    /// The peer broke the framing of HTTP/1.x, such as a missing version or an
    /// invalid chunked transfer.
    Protocol(ProtocolError),
    /// A fault of the underlying transport, such as the TCP socket.
    Io(std::io::Error),
    /// A configured deadline elapsed in the phase named.
    Timeout(TimeoutReason),
    /// Resolving the host name failed.
    HostNotFound,
    /// A redirect arrived for a request whose body cannot be sent again.
    RedirectFailed,
    /// The proxy settings do not hold a usable address.
    InvalidProxyUrl,
    /// A connection could not be made.
    ConnectionFailed,
    /// The body sent is larger than the length that was declared for it.
    BodyExceedsLimit,
    /// A failure of the TLS layer, in fixed words.
    Tls(&'static str),
    /// A certificate or a private key in PEM form could not be read.
    Pem(PemError),
    /// A failure reported by rustls.
    Rustls(RustlsError),
    /// A failure reported by native-tls.
    NativeTls(NativeTlsError),
    /// A certificate or a private key in DER form could not be handed to
    /// native-tls.
    Der(DerError),
    /// A cookie was refused.
    Cookie(CookieError),
    /// A cookie value could not be parsed, in fixed words.
    CookieValue(&'static str),
    /// A failure of the cookie store, by its message.
    CookieJar(String),
    /// The character set is not a known one.
    UnknownCharset(String),
}

impl Error {
    /// Whether the case wraps a cause of an outside type, whose text only that
    /// type can give.
    pub open spec fn has_outside_cause(&self) -> bool {
        match self {
            Error::Http(_) => true,
            Error::Protocol(_) => true,
            Error::Io(_) => true,
            Error::Pem(_) => true,
            Error::Rustls(_) => true,
            Error::NativeTls(_) => true,
            Error::Der(_) => true,
            Error::Cookie(_) => true,
            _ => false,
        }
    }

    /// Whether `cause` is a text that the wrapped outside cause showed itself
    /// with. For a case without such a cause only the empty text is.
    pub open spec fn shows_cause(&self, cause: Seq<char>) -> bool {
        match self {
            Error::Http(e) => exists|t: String| #[trigger]
                to_string_from_display_ensures::<HttpError>(e, t) && t@ == cause,
            Error::Protocol(e) => exists|t: String| #[trigger]
                to_string_from_display_ensures::<ProtocolError>(e, t) && t@ == cause,
            Error::Io(e) => exists|t: String| #[trigger]
                to_string_from_display_ensures::<std::io::Error>(e, t) && t@ == cause,
            Error::Pem(_) => true,
            Error::Rustls(e) => exists|t: String| #[trigger]
                to_string_from_display_ensures::<RustlsError>(e, t) && t@ == cause,
            Error::NativeTls(e) => exists|t: String| #[trigger]
                to_string_from_display_ensures::<NativeTlsError>(e, t) && t@ == cause,
            Error::Der(e) => exists|t: String| #[trigger]
                to_string_from_display_ensures::<DerError>(e, t) && t@ == cause,
            Error::Cookie(e) => exists|t: String| #[trigger]
                to_string_from_display_ensures::<CookieError>(e, t) && t@ == cause,
            _ => cause == Seq::<char>::empty(),
        }
    }

    /// The display text of the case, given the text of its outside cause.
    /// A case without an outside cause does not look at `cause`.
    pub open spec fn display_text(&self, cause: Seq<char>) -> Seq<char> {
        match self {
            Error::Http(_) => "http: "@ + cause,
            Error::BadUri(s) => "bad uri: "@ + s@,
            Error::Protocol(_) => "protocol: "@ + cause,
            Error::Io(_) => "io: "@ + cause,
            Error::Timeout(reason) => "timeout: "@ + reason.text(),
            Error::HostNotFound => "host not found"@,
            Error::RedirectFailed => "redirect failed"@,
            Error::InvalidProxyUrl => "invalid proxy url"@,
            Error::ConnectionFailed => "connection failed"@,
            Error::BodyExceedsLimit => "the response body is larger than request limit"@,
            Error::Tls(s) => s@,
            Error::Pem(_) => "PEM: "@ + cause,
            Error::Rustls(_) => "rustls: "@ + cause,
            Error::NativeTls(_) => "native-tls: "@ + cause,
            Error::Der(_) => "der: "@ + cause,
            Error::Cookie(_) => "cookie: "@ + cause,
            Error::CookieValue(s) => s@,
            Error::CookieJar(s) => "cookie: "@ + s@,
            Error::UnknownCharset(s) => "unknown character set: "@ + s@,
        }
    }

    /// The text of the outside cause that the case wraps, and the empty text
    /// for a case that wraps none.
    pub fn cause_text(&self) -> (text: String)
        ensures
            self.shows_cause(text@),
    {
        match self {
            Error::Http(e) => e.to_string(),
            Error::Protocol(e) => e.to_string(),
            Error::Io(e) => e.to_string(),
            Error::Pem(e) => pem_debug_text(e),
            Error::Rustls(e) => e.to_string(),
            Error::NativeTls(e) => e.to_string(),
            Error::Der(e) => e.to_string(),
            Error::Cookie(e) => e.to_string(),
            _ => String::new(),
        }
    }

    /// The display text of the case around a given text of its cause.
    pub fn render(&self, cause: &str) -> (text: String)
        ensures
            text@ == self.display_text(cause@),
    {
        match self {
            Error::Http(_) => String::from_str("http: ").concat(cause),
            Error::BadUri(s) => String::from_str("bad uri: ").concat(s.as_str()),
            Error::Protocol(_) => String::from_str("protocol: ").concat(cause),
            Error::Io(_) => String::from_str("io: ").concat(cause),
            Error::Timeout(reason) => String::from_str("timeout: ").concat(reason.as_str()),
            Error::HostNotFound => String::from_str("host not found"),
            Error::RedirectFailed => String::from_str("redirect failed"),
            Error::InvalidProxyUrl => String::from_str("invalid proxy url"),
            Error::ConnectionFailed => String::from_str("connection failed"),
            Error::BodyExceedsLimit => String::from_str(
                "the response body is larger than request limit",
            ),
            Error::Tls(s) => String::from_str(s),
            Error::Pem(_) => String::from_str("PEM: ").concat(cause),
            Error::Rustls(_) => String::from_str("rustls: ").concat(cause),
            Error::NativeTls(_) => String::from_str("native-tls: ").concat(cause),
            Error::Der(_) => String::from_str("der: ").concat(cause),
            Error::Cookie(_) => String::from_str("cookie: ").concat(cause),
            Error::CookieValue(s) => String::from_str(s),
            Error::CookieJar(s) => String::from_str("cookie: ").concat(s.as_str()),
            Error::UnknownCharset(s) => String::from_str("unknown character set: ").concat(
                s.as_str(),
            ),
        }
    }

    /// The display text of the case: its fixed words around the text of the
    /// cause it wraps.
    pub fn to_string(&self) -> (text: String)
        ensures
            exists|cause: Seq<char>| #[trigger]
                self.shows_cause(cause) && text@ == self.display_text(cause),
            !self.has_outside_cause() ==> text@ == self.display_text(Seq::<char>::empty()),
    {
        let cause = self.cause_text();
        self.render(cause.as_str())
    }

    /// Turns the failure into an I/O error.
    ///
    /// An `Io` case gives back the cause it wraps, untouched. Every other case
    /// becomes an error of kind `Other` whose payload is the display text of
    /// the case.
    pub fn into_io(self) -> (e: std::io::Error)
        ensures
            self matches Error::Io(inner) ==> e == inner,
            !(self is Io) ==> io_error_kind(e) == std::io::ErrorKind::Other,
            !(self is Io) ==> exists|cause: Seq<char>| #[trigger]
                self.shows_cause(cause) && io_error_payload(e) == Some(
                    self.display_text(cause),
                ),
            !(self is Io) && !self.has_outside_cause() ==> io_error_payload(e) == Some(
                self.display_text(Seq::<char>::empty()),
            ),
    {
        match self {
            Error::Io(inner) => inner,
            other => {
                let text = other.to_string();
                new_io_error(std::io::ErrorKind::Other, text)
            },
        }
    }

    /// The failure that stands for a peer that closed the connection: an I/O
    /// error that reports an unexpected end of the stream.
    pub fn disconnected() -> (e: Error)
        ensures
            e matches Error::Io(inner) && io_error_kind(inner)
                == std::io::ErrorKind::UnexpectedEof && io_error_payload(inner) == Some(
                "Peer disconnected"@,
            ),
    {
        Error::from(
            new_io_error(std::io::ErrorKind::UnexpectedEof, String::from_str("Peer disconnected")),
        )
    }
}

/// A refusal by `http` is a malformed request.
impl From<HttpError> for Error {
    fn from(cause: HttpError) -> (failure: Error) {
        Error::Http(cause)
    }
}

impl vstd::std_specs::convert::FromSpecImpl<HttpError> for Error {
    open spec fn obeys_from_spec() -> bool {
        true
    }

    open spec fn from_spec(cause: HttpError) -> Error {
        Error::Http(cause)
    }
}

/// A breach of the framing is a protocol failure.
impl From<ProtocolError> for Error {
    fn from(cause: ProtocolError) -> (failure: Error) {
        Error::Protocol(cause)
    }
}

impl vstd::std_specs::convert::FromSpecImpl<ProtocolError> for Error {
    open spec fn obeys_from_spec() -> bool {
        true
    }

    open spec fn from_spec(cause: ProtocolError) -> Error {
        Error::Protocol(cause)
    }
}

/// A fault of reading or writing is an I/O failure.
impl From<std::io::Error> for Error {
    fn from(cause: std::io::Error) -> (failure: Error) {
        Error::Io(cause)
    }
}

impl vstd::std_specs::convert::FromSpecImpl<std::io::Error> for Error {
    open spec fn obeys_from_spec() -> bool {
        true
    }

    open spec fn from_spec(cause: std::io::Error) -> Error {
        Error::Io(cause)
    }
}

/// A failure of rustls is kept as such.
impl From<RustlsError> for Error {
    fn from(cause: RustlsError) -> (failure: Error) {
        Error::Rustls(cause)
    }
}

impl vstd::std_specs::convert::FromSpecImpl<RustlsError> for Error {
    open spec fn obeys_from_spec() -> bool {
        true
    }

    open spec fn from_spec(cause: RustlsError) -> Error {
        Error::Rustls(cause)
    }
}

/// A failure of native-tls is kept as such.
impl From<NativeTlsError> for Error {
    fn from(cause: NativeTlsError) -> (failure: Error) {
        Error::NativeTls(cause)
    }
}

impl vstd::std_specs::convert::FromSpecImpl<NativeTlsError> for Error {
    open spec fn obeys_from_spec() -> bool {
        true
    }

    open spec fn from_spec(cause: NativeTlsError) -> Error {
        Error::NativeTls(cause)
    }
}

/// A fault in DER data is kept as such.
impl From<DerError> for Error {
    fn from(cause: DerError) -> (failure: Error) {
        Error::Der(cause)
    }
}

impl vstd::std_specs::convert::FromSpecImpl<DerError> for Error {
    open spec fn obeys_from_spec() -> bool {
        true
    }

    open spec fn from_spec(cause: DerError) -> Error {
        Error::Der(cause)
    }
}

/// A refused cookie is a cookie failure.
impl From<CookieError> for Error {
    fn from(cause: CookieError) -> (failure: Error) {
        Error::Cookie(cause)
    }
}

impl vstd::std_specs::convert::FromSpecImpl<CookieError> for Error {
    open spec fn obeys_from_spec() -> bool {
        true
    }

    open spec fn from_spec(cause: CookieError) -> Error {
        Error::Cookie(cause)
    }
}

} // verus!
