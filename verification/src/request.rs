//! Building a request, in two phases: one for the methods that send no
//! payload and one for those that do.

use crate::body::fresh;
use crate::body::AsBody;
use crate::body::Body;
use crate::body::BodyState;
use crate::body::Source;
use crate::error::Error;
use crate::header::header_name;
use crate::header::header_name_refusal;
use crate::header::header_value;
use crate::header::header_value_refusal;
use crate::header::lemma_lower_case_is_a_name;
use crate::header::lower_case;
use crate::header::valid_header_name;
use crate::header::valid_header_value;
use crate::header::views;
use crate::header::Header;
use crate::header::HeaderView;
use crate::private::Private;
use crate::target::lacking;
use crate::target::parse_target;
use crate::target::target_of;
use crate::target::Target;
use crate::target::TargetView;
use http::Error as HttpError;
use std::marker::PhantomData;
use vstd::prelude::*;
use vstd::string::StringExecFns;

verus! {

/// The method of a request.
#[derive(Debug, Clone, Copy, PartialEq, Eq)]
pub enum Method {
    Get,
    Head,
    Delete,
    Options,
    Connect,
    Trace,
    Post,
    Put,
    Patch,
}

impl Method {
    /// Whether a request with this method is sent with a payload.
    pub open spec fn takes_body(self) -> bool {
        self is Post || self is Put || self is Patch
    }

    /// Whether a request with this method is sent with a payload.
    pub fn has_payload(self) -> (has: bool)
        ensures
            has == self.takes_body(),
    {
        match self {
            Method::Post => true,
            Method::Put => true,
            Method::Patch => true,
            _ => false,
        }
    }
}

/// The version of the protocol that a request asks for.
#[derive(Debug, Clone, Copy, PartialEq, Eq)]
pub enum Version {
    Http09,
    Http10,
    Http11,
    Http2,
    Http3,
}

/// The metadata of a request: method, target, version and header fields.
#[derive(Debug)]
pub struct Request {
    method: Method,
    uri: String,
    target: Target,
    version: Version,
    headers: Vec<Header>,
}

/// The metadata of a request as plain values.
pub struct RequestView {
    pub method: Method,
    pub uri: Seq<char>,
    pub target: TargetView,
    pub version: Version,
    pub headers: Seq<HeaderView>,
}

impl View for Request {
    type V = RequestView;

    closed spec fn view(&self) -> RequestView {
        RequestView {
            method: self.method,
            uri: self.uri@,
            target: self.target@,
            version: self.version,
            headers: views(self.headers@),
        }
    }
}

impl Request {
    #[verifier::type_invariant]
    spec fn accepted(&self) -> bool {
        self@.well_formed()
    }

    /// The method of the request.
    pub fn method(&self) -> (method: Method)
        ensures
            method == self@.method,
    {
        self.method
    }

    /// The target of the request, as the text it was given as.
    pub fn uri(&self) -> (uri: &str)
        ensures
            uri@ == self@.uri,
    {
        self.uri.as_str()
    }

    /// The scheme and the authority that the target names.
    pub fn target(&self) -> (target: &Target)
        ensures
            target@ == self@.target,
    {
        &self.target
    }

    /// The version of the protocol that the request asks for.
    pub fn version(&self) -> (version: Version)
        ensures
            version == self@.version,
    {
        self.version
    }

    /// The header fields of the request, in the order in which they were
    /// added.
    pub fn headers(&self) -> (headers: &Vec<Header>)
        ensures
            views(headers@) == self@.headers,
            self@.well_formed(),
    {
        proof {
            use_type_invariant(self);
        }
        &self.headers
    }
}

impl RequestView {
    /// Whether the request holds only what was accepted: its target is what
    /// its text reads as, and each of its header fields is well formed.
    pub open spec fn well_formed(self) -> bool {
        &&& target_of(self.uri) matches Ok(target) && target == self.target
        &&& forall|i: int|
            0 <= i < self.headers.len() ==> (#[trigger] self.headers[i]).well_formed()
    }

    /// The same request with one more header field, after those it has.
    pub open spec fn and_header(self, name: Seq<char>, value: Seq<char>) -> RequestView {
        RequestView { headers: self.headers.push(HeaderView { name, value }), ..self }
    }
}

/// What a builder holds: the request as far as it is built, or the error of
/// the first step that was refused.
pub type Built = Result<RequestView, HttpError>;

/// The builder that a method and a target start: version 1.1 and no header
/// field, or the refusal of the target.
pub open spec fn started(method: Method, uri: Seq<char>) -> Built {
    match target_of(uri) {
        Ok(target) => Ok(
            RequestView { method, uri, target, version: Version::Http11, headers: Seq::empty() },
        ),
        Err(refusal) => Err(refusal),
    }
}

/// The builder after a header field is added. A builder that holds an error
/// keeps it. A name that is refused puts its error in, then a value that is
/// refused does; else the field is put after those that are there, the name
/// in lower case.
pub open spec fn with_header(built: Built, name: Seq<char>, value: Seq<char>) -> Built {
    match built {
        Err(refusal) => Err(refusal),
        Ok(request) => if !valid_header_name(name) {
            Err(header_name_refusal(name))
        } else if !valid_header_value(value) {
            Err(header_value_refusal(value))
        } else {
            Ok(request.and_header(lower_case(name), value))
        },
    }
}

/// The builder after its target is set anew. A builder that holds an error
/// keeps it; a target that is refused puts its error in.
pub open spec fn with_uri(built: Built, uri: Seq<char>) -> Built {
    match built {
        Err(refusal) => Err(refusal),
        Ok(request) => match target_of(uri) {
            Ok(target) => Ok(RequestView { uri, target, ..request }),
            Err(refusal) => Err(refusal),
        },
    }
}

/// The builder after its version is set. A builder that holds an error keeps
/// it.
pub open spec fn with_version(built: Built, version: Version) -> Built {
    match built {
        Err(refusal) => Err(refusal),
        Ok(request) => Ok(RequestView { version, ..request }),
    }
}

/// How building ends.
pub enum Finished {
    /// The request is complete.
    Ready(RequestView),
    /// A step was refused; this is the error of the first such step.
    Refused(HttpError),
    /// The target lacks a scheme or a host; this is the message.
    BadUri(Seq<char>),
}

/// How a builder ends. The error it holds comes first; then what the
/// target lacks; else the request is ready.
pub open spec fn finished(built: Built) -> Finished {
    match built {
        Err(refusal) => Finished::Refused(refusal),
        Ok(request) => match lacking(request.uri, request.target) {
            Some(message) => Finished::BadUri(message),
            None => Finished::Ready(request),
        },
    }
}

/// A request that is ready for the engine, with the payload to send.
pub struct Prepared<'a> {
    pub request: Request,
    pub body: Body<'a>,
}

/// Whether `outcome` is what a terminal step returns for a builder that ends
/// as `end`, with a payload in the state `body`.
pub open spec fn hands_over(
    outcome: Result<Prepared<'_>, Error>,
    end: Finished,
    body: BodyState,
) -> bool {
    match end {
        Finished::Ready(request) => outcome matches Ok(prepared) && prepared.request@ == request
            && prepared.body@ == body,
        Finished::Refused(refusal) => outcome matches Err(Error::Http(error)) && error == refusal,
        Finished::BadUri(message) => outcome matches Err(Error::BadUri(text)) && text@ == message,
    }
}

/// The phase of a builder. There are two, and no type outside this crate is
/// one.
pub trait Phase: Private {
    /// Whether the builders of this phase are for the methods that send a
    /// payload.
    spec fn sends_payload() -> bool;
}

/// The phase of a builder for a method that sends no payload.
pub struct WithoutBody(());

impl Private for WithoutBody {

}

impl Phase for WithoutBody {
    open spec fn sends_payload() -> bool {
        false
    }
}

/// The phase of a builder for a method that sends a payload.
pub struct WithBody(());

impl Private for WithBody {

}

impl Phase for WithBody {
    open spec fn sends_payload() -> bool {
        true
    }
}

/// A request in the making.
///
/// The phase `B` is fixed by the method that the builder was made for, and
/// decides which terminal step the builder has: `call` without a payload,
/// `send` and `send_json` with one.
#[derive(Debug)]
pub struct RequestBuilder<B: Phase> {
    built: Result<Request, HttpError>,
    _ph: PhantomData<B>,
}

impl<B: Phase> View for RequestBuilder<B> {
    type V = Built;

    closed spec fn view(&self) -> Built {
        match self.built {
            Ok(request) => Ok(request@),
            Err(refusal) => Err(refusal),
        }
    }
}

impl<Any: Phase> RequestBuilder<Any> {
    #[verifier::type_invariant]
    spec fn in_phase(&self) -> bool {
        self.built matches Ok(request) ==> request@.method.takes_body() == Any::sends_payload()
    }

    fn start(method: Method, uri: &str) -> (builder: Self)
        requires
            method.takes_body() == Any::sends_payload(),
        ensures
            builder@ == started(method, uri@),
    {
        let built = match parse_target(uri) {
            Ok(target) => {
                let headers: Vec<Header> = Vec::new();
                assert(views(headers@) =~= Seq::<HeaderView>::empty());
                Ok(
                    Request {
                        method,
                        uri: String::from_str(uri),
                        target,
                        version: Version::Http11,
                        headers,
                    },
                )
            },
            Err(refusal) => Err(refusal),
        };
        RequestBuilder { built, _ph: PhantomData }
    }

    /// Appends a header field to the request. It does not replace a field
    /// of the same name.
    pub fn header(self, key: &str, value: &str) -> (builder: Self)
        ensures
            builder@ == with_header(self@, key@, value@),
    {
        proof {
            use_type_invariant(&self);
        }
        let built = match self.built {
            Err(refusal) => Err(refusal),
            Ok(request) => match header_name(key) {
                Err(refusal) => Err(refusal),
                Ok(name) => match header_value(value) {
                    Err(refusal) => Err(refusal),
                    Ok(_) => {
                        proof {
                            use_type_invariant(&request);
                            lemma_lower_case_is_a_name(key@);
                        }
                        let Request { method, uri, target, version, headers } = request;
                        let mut headers = headers;
                        let ghost before = headers@;
                        let field = Header::new(name, String::from_str(value));
                        headers.push(field);
                        assert(views(headers@) =~= views(before).push(field@));
                        Ok(Request { method, uri, target, version, headers })
                    },
                },
            },
        };
        RequestBuilder { built, _ph: PhantomData }
    }

    /// Sets the target of the request anew.
    pub fn uri(self, uri: &str) -> (builder: Self)
        ensures
            builder@ == with_uri(self@, uri@),
    {
        proof {
            use_type_invariant(&self);
        }
        let built = match self.built {
            Err(refusal) => Err(refusal),
            Ok(request) => match parse_target(uri) {
                Err(refusal) => Err(refusal),
                Ok(target) => {
                    proof {
                        use_type_invariant(&request);
                    }
                    let Request { method, uri: _, target: _, version, headers } = request;
                    Ok(Request { method, uri: String::from_str(uri), target, version, headers })
                },
            },
        };
        RequestBuilder { built, _ph: PhantomData }
    }

    /// Sets the version of the protocol. It is 1.1 where none is set.
    pub fn version(self, version: Version) -> (builder: Self)
        ensures
            builder@ == with_version(self@, version),
    {
        proof {
            use_type_invariant(&self);
        }
        let built = match self.built {
            Err(refusal) => Err(refusal),
            Ok(request) => {
                proof {
                    use_type_invariant(&request);
                }
                let Request { method, uri, target, version: _, headers } = request;
                Ok(Request { method, uri, target, version, headers })
            },
        };
        RequestBuilder { built, _ph: PhantomData }
    }

    /// The method of the request, unless the builder holds an error.
    pub fn method_ref(&self) -> (method: Option<Method>)
        ensures
            match self@ {
                Ok(request) => method == Some(request.method),
                Err(_) => method is None,
            },
    {
        match &self.built {
            Ok(request) => Some(request.method()),
            Err(_) => None,
        }
    }

    /// The target of the request, unless the builder holds an error.
    pub fn uri_ref(&self) -> (uri: Option<&str>)
        ensures
            match self@ {
                Ok(request) => uri matches Some(text) && text@ == request.uri,
                Err(_) => uri is None,
            },
    {
        match &self.built {
            Ok(request) => Some(request.uri()),
            Err(_) => None,
        }
    }

    /// The version of the protocol, unless the builder holds an error.
    pub fn version_ref(&self) -> (version: Option<Version>)
        ensures
            match self@ {
                Ok(request) => version == Some(request.version),
                Err(_) => version is None,
            },
    {
        match &self.built {
            Ok(request) => Some(request.version()),
            Err(_) => None,
        }
    }

    /// The header fields added so far, unless the builder holds an error.
    pub fn headers_ref(&self) -> (headers: Option<&Vec<Header>>)
        ensures
            match self@ {
                Ok(request) => headers matches Some(fields) && views(fields@) == request.headers,
                Err(_) => headers is None,
            },
    {
        match &self.built {
            Ok(request) => Some(request.headers()),
            Err(_) => None,
        }
    }

    /// Ends the building: the request, or the failure that stands in its
    /// way.
    fn finish(self) -> (outcome: Result<Request, Error>)
        ensures
            match finished(self@) {
                Finished::Ready(request) => outcome matches Ok(ready) && ready@ == request,
                Finished::Refused(refusal) => outcome matches Err(Error::Http(error)) && error
                    == refusal,
                Finished::BadUri(message) => outcome matches Err(Error::BadUri(text)) && text@
                    == message,
            },
            outcome matches Ok(ready) ==> ready@.well_formed() && ready@.method.takes_body()
                == Any::sends_payload(),
    {
        proof {
            use_type_invariant(&self);
        }
        match self.built {
            Err(refusal) => Err(Error::from(refusal)),
            Ok(request) => {
                proof {
                    use_type_invariant(&request);
                }
                match request.target.lack(request.uri.as_str()) {
                    Some(message) => Err(Error::BadUri(message)),
                    None => Ok(request),
                }
            },
        }
    }
}

impl RequestBuilder<WithoutBody> {
    pub(crate) fn new(method: Method, uri: &str) -> (builder: Self)
        requires
            !method.takes_body(),
        ensures
            builder@ == started(method, uri@),
    {
        Self::start(method, uri)
    }

    /// Ends the building of a request that has no payload.
    ///
    /// The request comes with the empty body. Where a step of the building
    /// was refused, or the target names no scheme or no host, the failure
    /// comes instead, and there is nothing to hand to the engine.
    pub fn call(self) -> (outcome: Result<Prepared<'static>, Error>)
        ensures
            hands_over(outcome, finished(self@), fresh(Source::Bytes(Seq::empty()))),
            outcome matches Ok(prepared) ==> prepared.request@.well_formed(),
            outcome matches Ok(prepared) ==> !prepared.request@.method.takes_body(),
    {
        match self.finish() {
            Ok(request) => Ok(Prepared { request, body: Body::empty() }),
            Err(failure) => Err(failure),
        }
    }
}

impl RequestBuilder<WithBody> {
    pub(crate) fn new(method: Method, uri: &str) -> (builder: Self)
        requires
            method.takes_body(),
        ensures
            builder@ == started(method, uri@),
    {
        Self::start(method, uri)
    }

    /// Sets the type of the payload: appends the header field
    /// `content-type`. Only the value can be refused.
    pub fn content_type(self, content_type: &str) -> (builder: Self)
        ensures
            builder@ == with_header(self@, "content-type"@, content_type@),
            builder@ == match self@ {
                Err(refusal) => Err(refusal),
                Ok(request) => if valid_header_value(content_type@) {
                    Ok(request.and_header("content-type"@, content_type@))
                } else {
                    Err(header_value_refusal(content_type@))
                },
            },
    {
        proof {
            reveal_strlit("content-type");
            assert(lower_case("content-type"@) =~= "content-type"@);
        }
        self.header("content-type", content_type)
    }

    /// Ends the building of a request that sends `data` as its payload.
    ///
    /// The request comes with `data` as a body of which nothing is read
    /// yet. Where a step of the building was refused, or the target names
    /// no scheme or no host, the failure comes instead.
    pub fn send<'a, T: AsBody>(self, data: &'a mut T) -> (outcome: Result<Prepared<'a>, Error>)
        ensures
            hands_over(outcome, finished(self@), fresh(old(data).payload())),
            outcome matches Ok(prepared) ==> prepared.request@.well_formed(),
            outcome matches Ok(prepared) ==> prepared.request@.method.takes_body(),
            outcome is Err ==> *final(data) == *old(data),
            final(data).payload() == old(data).payload(),
    {
        match self.finish() {
            Ok(request) => Ok(Prepared { request, body: data.as_body() }),
            Err(failure) => Err(failure),
        }
    }

    /// Ends the building of a request that sends a JSON text as its
    /// payload, by the same path as `send`.
    pub fn send_json<'a>(self, json: &'a mut String) -> (outcome: Result<Prepared<'a>, Error>)
        ensures
            hands_over(
                outcome,
                finished(self@),
                fresh(Source::Bytes(vstd::utf8::encode_utf8(old(json)@))),
            ),
            outcome matches Ok(prepared) ==> prepared.request@.well_formed(),
            outcome matches Ok(prepared) ==> prepared.request@.method.takes_body(),
    {
        self.send(json)
    }
}

/// Starts a request with the method GET.
pub fn get(uri: &str) -> (builder: RequestBuilder<WithoutBody>)
    ensures
        builder@ == started(Method::Get, uri@),
{
    RequestBuilder::<WithoutBody>::new(Method::Get, uri)
}

/// Starts a request with the method HEAD.
pub fn head(uri: &str) -> (builder: RequestBuilder<WithoutBody>)
    ensures
        builder@ == started(Method::Head, uri@),
{
    RequestBuilder::<WithoutBody>::new(Method::Head, uri)
}

/// Starts a request with the method DELETE.
pub fn delete(uri: &str) -> (builder: RequestBuilder<WithoutBody>)
    ensures
        builder@ == started(Method::Delete, uri@),
{
    RequestBuilder::<WithoutBody>::new(Method::Delete, uri)
}

/// Starts a request with the method OPTIONS.
pub fn options(uri: &str) -> (builder: RequestBuilder<WithoutBody>)
    ensures
        builder@ == started(Method::Options, uri@),
{
    RequestBuilder::<WithoutBody>::new(Method::Options, uri)
}

/// Starts a request with the method CONNECT.
pub fn connect(uri: &str) -> (builder: RequestBuilder<WithoutBody>)
    ensures
        builder@ == started(Method::Connect, uri@),
{
    RequestBuilder::<WithoutBody>::new(Method::Connect, uri)
}

/// Starts a request with the method TRACE.
pub fn trace(uri: &str) -> (builder: RequestBuilder<WithoutBody>)
    ensures
        builder@ == started(Method::Trace, uri@),
{
    RequestBuilder::<WithoutBody>::new(Method::Trace, uri)
}

/// Starts a request with the method POST.
pub fn post(uri: &str) -> (builder: RequestBuilder<WithBody>)
    ensures
        builder@ == started(Method::Post, uri@),
{
    RequestBuilder::<WithBody>::new(Method::Post, uri)
}

/// Starts a request with the method PUT.
pub fn put(uri: &str) -> (builder: RequestBuilder<WithBody>)
    ensures
        builder@ == started(Method::Put, uri@),
{
    RequestBuilder::<WithBody>::new(Method::Put, uri)
}

/// Starts a request with the method PATCH.
pub fn patch(uri: &str) -> (builder: RequestBuilder<WithBody>)
    ensures
        builder@ == started(Method::Patch, uri@),
{
    RequestBuilder::<WithBody>::new(Method::Patch, uri)
}

/// A builder whose target names no host does not come to a request. Its
/// terminal step returns a failure: of the case `Http` where a step of the
/// building was refused, of the case `BadUri` otherwise.
pub proof fn lemma_no_host_no_request(
    built: Built,
    outcome: Result<Prepared<'_>, Error>,
    body: BodyState,
)
    requires
        built matches Ok(request) ==> request.target.authority is None,
        hands_over(outcome, finished(built), body),
    ensures
        outcome matches Err(failure) && (failure is Http || failure is BadUri),
        built is Err <==> (outcome matches Err(failure) && failure is Http),
{
}

} // verus!
