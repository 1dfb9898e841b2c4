//! What the API layer decides about requests and responses: error bodies,
//! response headers, and the body that a client is sent.

use vstd::prelude::*;
use vstd::string::*;
use crate::api_version::{version_text, ApiVersion};
use crate::document::{distinct_names, field_map, Document, Field};
use crate::html::{make_html_response_body, response_html};
use crate::text::{chars_of, contains, contains_text, str_eq};

verus! {

/// The body of an error response.
#[derive(Debug, Clone, PartialEq, Eq)]
pub struct ErrorBody {
    pub code: u16,
    pub error: String,
    pub debug: String,
}

/// The standard reason phrase of a status code, for the codes that have one.
pub uninterp spec fn reason_phrase(code: u16) -> Option<Seq<char>>;

/// Looks up the standard reason phrase of a status code.
///
/// Calls `StatusCode::from_u16` and `StatusCode::canonical_reason` of the crate
/// `http`. A number that is no status code, and a status code without a
/// standard phrase, give `None`. The result depends on the code alone; the
/// contract gives it its name and claims nothing more of it.
#[verifier::external_body]
pub(crate) fn canonical_reason(code: u16) -> (r: Option<&'static str>)
    ensures
        r is Some == reason_phrase(code) is Some,
        r is Some ==> r->0@ == reason_phrase(code)->0,
{
    match http::StatusCode::from_u16(code) {
        Ok(status) => status.canonical_reason(),
        Err(_) => None,
    }
}

/// The error text of an error body: the text given, or the reason phrase of
/// the code where no text is given, or nothing where the code has none either.
pub open spec fn error_text(error: Seq<char>, reason: Option<Seq<char>>) -> Seq<char> {
    if error.len() > 0 {
        error
    } else {
        match reason {
            Some(phrase) => phrase,
            None => Seq::empty(),
        }
    }
}

/// Makes an error body from the code, the error text, the debug text and the
/// reason phrase of the code.
pub fn error_body(code: u16, error: &str, debug: Option<&str>, reason: Option<&str>) -> (r:
    ErrorBody)
    ensures
        r.code == code,
        r.error@ == error_text(
            error@,
            match reason {
                Some(phrase) => Some(phrase@),
                None => None,
            },
        ),
        r.debug@ == match debug {
            Some(text) => text@,
            None => Seq::empty(),
        },
{
    let error = if !error.is_empty() {
        error.to_owned()
    } else {
        match reason {
            Some(phrase) => phrase.to_owned(),
            None => String::new(),
        }
    };
    let debug = match debug {
        Some(text) => text.to_owned(),
        None => String::new(),
    };
    ErrorBody { code, error, debug }
}

/// Constructs a standard error body, with the reason phrase of the code where
/// no error text is given.
pub fn make_error_response_body(code: u16, error: &str, debug: Option<&str>) -> (r: ErrorBody)
    ensures
        r.code == code,
        r.error@ == error_text(error@, reason_phrase(code)),
        r.debug@ == match debug {
            Some(text) => text@,
            None => Seq::empty(),
        },
{
    error_body(code, error, debug, canonical_reason(code))
}

/// The headers of a response to a preflight request: the allowed methods move
/// from `allow` to `access-control-allow-methods`, the headers that the request
/// asks for are allowed, and the answer may be kept for a day.
pub open spec fn cors_preflight_headers(
    req: Map<Seq<char>, Seq<char>>,
    res: Map<Seq<char>, Seq<char>>,
) -> Map<Seq<char>, Seq<char>> {
    let moved = if res.dom().contains("allow"@) {
        res.insert("access-control-allow-methods"@, res["allow"@]).remove("allow"@)
    } else {
        res
    };
    let allowed = if req.dom().contains("access-control-request-headers"@) {
        moved.insert("access-control-allow-headers"@, req["access-control-request-headers"@])
    } else {
        moved
    };
    allowed.insert("access-control-max-age"@, "86400"@)
}

/// Adds the headers of a response to a preflight request. Header names are in
/// lower case.
pub fn add_cors_preflight_headers(req: &Document, res: &mut Document)
    ensures
        final(res)@ == cors_preflight_headers(req@, old(res)@),
{
    match res.remove("allow") {
        Some(methods) => {
            res.insert("access-control-allow-methods".to_owned(), methods);
            assert(res@ =~= old(res)@.insert("access-control-allow-methods"@, old(res)@["allow"@]).remove(
                "allow"@,
            )) by {
                reveal_strlit("allow");
                reveal_strlit("access-control-allow-methods");
                assert("allow"@.len() != "access-control-allow-methods"@.len());
            }
        },
        None => {},
    }
    match req.get("access-control-request-headers") {
        Some(headers) => {
            res.insert("access-control-allow-headers".to_owned(), headers.clone());
        },
        None => {},
    }
    res.insert("access-control-max-age".to_owned(), "86400".to_owned());
}

/// The texts of a list of versions.
pub open spec fn version_texts(versions: Seq<ApiVersion>) -> Seq<Seq<char>> {
    Seq::new(versions.len(), |i: int| version_text(versions[i]))
}

/// The characters of a list of strings.
pub open spec fn texts_of(strings: Seq<String>) -> Seq<Seq<char>> {
    Seq::new(strings.len(), |i: int| strings[i]@)
}

/// Constructs the sub-routes for the given API versions: the text of each.
pub fn make_api_version_sub_routes(versions: &Vec<ApiVersion>) -> (r: Vec<String>)
    ensures
        texts_of(r@) == version_texts(versions@),
{
    let mut routes: Vec<String> = Vec::new();
    let mut i: usize = 0;
    while i < versions.len()
        invariant
            i <= versions@.len(),
            routes@.len() == i,
            forall|k: int| 0 <= k < i ==> (#[trigger] routes@[k])@ == version_text(versions@[k]),
        decreases versions@.len() - i,
    {
        routes.push(versions[i].to_string());
        i = i + 1;
    }
    assert(texts_of(routes@) =~= version_texts(versions@));
    routes
}

/// Whether a client that sent this `Accept` header takes HTML.
pub fn accepts_html(accept: &str) -> (r: bool)
    ensures
        r == contains_text(accept@, "text/html"@),
{
    let text = chars_of(accept);
    let html = chars_of("text/html");
    contains(&text, &html)
}

/// What is wrong with the content type of a message, if anything: a message
/// without content type is taken as JSON, one of another type than
/// `application/json` is refused.
pub open spec fn content_type_error(content_type: Option<Seq<char>>) -> Option<Seq<char>> {
    match content_type {
        None => None,
        Some(mime) => if mime == "application/json"@ {
            None
        } else {
            Some("Incorrect Content-Type: "@ + mime)
        },
    }
}

/// Checks the content type of a message before its body is read as JSON.
pub fn check_content_type(content_type: Option<&str>) -> (r: Result<(), String>)
    ensures
        match content_type_error(
            match content_type {
                Some(mime) => Some(mime@),
                None => None,
            },
        ) {
            None => r is Ok,
            Some(text) => r is Err && r->Err_0@ == text,
        },
{
    match content_type {
        None => Ok(()),
        Some(mime) => {
            if str_eq(mime, "application/json") {
                Ok(())
            } else {
                let mut text = "Incorrect Content-Type: ".to_owned();
                text.append(mime);
                Err(text)
            }
        },
    }
}

/// An error that a handler answers a request with.
#[derive(Debug, Clone, PartialEq, Eq)]
pub struct ApiError {
    pub status_code: u16,
    pub message: String,
}

impl ApiError {
    /// An error with the given status code and message.
    pub fn new(status_code: u16, message: &str) -> (r: ApiError)
        ensures
            r.status_code == status_code,
            r.message@ == message@,
    {
        ApiError { status_code, message: message.to_owned() }
    }
}

/// Turns a rejection into the status code and the error text of the
/// response: those of the error that caused it, or an internal server error
/// where it was caused by something else.
pub fn handle_rejection(err: Option<&ApiError>) -> (r: (u16, String))
    ensures
        match err {
            Some(e) => r.0 == e.status_code && r.1@ == e.message@,
            None => r.0 == 500 && r.1@ == "Internal Server Error"@,
        },
{
    match err {
        Some(e) => (e.status_code, e.message.clone()),
        None => (500, "Internal Server Error".to_owned()),
    }
}

/// The challenge that a request without valid authorization is answered with.
pub open spec fn bearer_challenge_text(
    realm: Seq<char>,
    error: Seq<char>,
    description: Seq<char>,
) -> Seq<char> {
    "Bearer realm=\""@ + realm + "\", error=\""@ + error + "\", error_description=\""@
        + description + "\""@
}

/// Makes the value of the `WWW-Authenticate` header of a refused request. The
/// realm is the host that the request names, or else the host of this node.
pub fn make_bearer_challenge(
    request_host: Option<&str>,
    node_host: &str,
    error: &str,
    description: &str,
) -> (r: String)
    ensures
        r@ == bearer_challenge_text(
            match request_host {
                Some(host) => host@,
                None => node_host@,
            },
            error@,
            description@,
        ),
{
    let realm = match request_host {
        Some(host) => host,
        None => node_host,
    };
    let mut text = "Bearer realm=\"".to_owned();
    text.append(realm);
    text.append("\", error=\"");
    text.append(error);
    text.append("\", error_description=\"");
    text.append(description);
    text.append("\"");
    assert(text@ =~= bearer_challenge_text(realm@, error@, description@));
    text
}

/// The content type of the files of the admin UI, by the extension of the
/// file name. Other files are not served.
pub open spec fn extension_content_type(extension: Seq<char>) -> Option<Seq<char>> {
    if extension == "ico"@ {
        Some("image/x-icon"@)
    } else if extension == "html"@ {
        Some("text/html"@)
    } else if extension == "js"@ {
        Some("application/javascript"@)
    } else if extension == "map"@ {
        Some("application/json"@)
    } else if extension == "json"@ {
        Some("application/json"@)
    } else if extension == "css"@ {
        Some("text/css"@)
    } else if extension == "png"@ {
        Some("image/png"@)
    } else {
        None
    }
}

/// The content type with which a file of the admin UI is served.
pub fn content_type_for_extension(extension: &str) -> (r: Option<&'static str>)
    ensures
        r is Some == extension_content_type(extension@) is Some,
        r is Some ==> r->0@ == extension_content_type(extension@)->0,
{
    if str_eq(extension, "ico") {
        Some("image/x-icon")
    } else if str_eq(extension, "html") {
        Some("text/html")
    } else if str_eq(extension, "js") {
        Some("application/javascript")
    } else if str_eq(extension, "map") {
        Some("application/json")
    } else if str_eq(extension, "json") {
        Some("application/json")
    } else if str_eq(extension, "css") {
        Some("text/css")
    } else if str_eq(extension, "png") {
        Some("image/png")
    } else {
        None
    }
}

/// The body of a response.
#[derive(Debug, Clone, PartialEq, Eq)]
pub enum Body {
    /// No body has been set.
    Absent,
    /// The body has been set, and it is empty.
    Empty,
    /// JSON text.
    Json(String),
    /// An HTML page.
    Html(String),
    /// An error body.
    Error(ErrorBody),
}

/// What the API layer looks at in a request. Header names are in lower case.
#[derive(Debug, Clone, PartialEq, Eq)]
pub struct Request {
    pub method: String,
    pub headers: Document,
}

/// What the API layer sets in a response. Header names are in lower case. A
/// response whose status is `None` has not been given one yet.
#[derive(Debug, Clone, PartialEq, Eq)]
pub struct Response {
    pub status: Option<u16>,
    pub headers: Document,
    pub body: Body,
}

/// The body of a response as contracts speak of it.
pub enum BodyView {
    Absent,
    Empty,
    Json(Seq<char>),
    Html(Seq<char>),
    Error { code: u16, error: Seq<char>, debug: Seq<char> },
}

/// A request as contracts speak of it.
pub struct RequestView {
    pub method: Seq<char>,
    pub headers: Map<Seq<char>, Seq<char>>,
}

/// A response as contracts speak of it.
pub struct ResponseView {
    pub status: Option<u16>,
    pub headers: Map<Seq<char>, Seq<char>>,
    pub body: BodyView,
}

impl View for Body {
    type V = BodyView;

    open spec fn view(&self) -> BodyView {
        match *self {
            Body::Absent => BodyView::Absent,
            Body::Empty => BodyView::Empty,
            Body::Json(text) => BodyView::Json(text@),
            Body::Html(text) => BodyView::Html(text@),
            Body::Error(e) => BodyView::Error { code: e.code, error: e.error@, debug: e.debug@ },
        }
    }
}

impl View for Request {
    type V = RequestView;

    open spec fn view(&self) -> RequestView {
        RequestView { method: self.method@, headers: self.headers@ }
    }
}

impl View for Response {
    type V = ResponseView;

    open spec fn view(&self) -> ResponseView {
        ResponseView { status: self.status, headers: self.headers@, body: self.body@ }
    }
}

/// A request and the response to it.
pub struct Exchange {
    pub request: RequestView,
    pub response: ResponseView,
}

/// The time of receipt moves from the request into the timing headers of the
/// response.
pub open spec fn with_timing(x: Exchange) -> Exchange {
    if x.request.headers.dom().contains("received-time"@) {
        Exchange {
            request: RequestView {
                method: x.request.method,
                headers: x.request.headers.remove("received-time"@),
            },
            response: ResponseView {
                status: x.response.status,
                headers: x.response.headers.insert(
                    "server-timing"@,
                    x.request.headers["received-time"@],
                ).insert("timing-allow-origin"@, "*"@),
                body: x.response.body,
            },
        }
    } else {
        x
    }
}

/// The response tells the client to keep to secure transport, where the node
/// is set up to say so.
pub open spec fn with_hsts(x: Exchange, hsts: Option<Seq<char>>) -> Exchange {
    match hsts {
        Some(value) => Exchange {
            request: x.request,
            response: ResponseView {
                status: x.response.status,
                headers: x.response.headers.insert("strict-transport-security"@, value),
                body: x.response.body,
            },
        },
        None => x,
    }
}

/// A request that was a `HEAD` request gets its method back, and the response
/// to it loses the content of its body.
pub open spec fn with_head_restored(x: Exchange) -> Exchange {
    if x.request.headers.dom().contains("actual-method"@) && x.request.headers["actual-method"@]
        == "HEAD"@ {
        Exchange {
            request: RequestView {
                method: "HEAD"@,
                headers: x.request.headers.remove("actual-method"@),
            },
            response: ResponseView {
                status: x.response.status,
                headers: x.response.headers,
                body: if x.response.body is Absent {
                    BodyView::Absent
                } else {
                    BodyView::Empty
                },
            },
        }
    } else {
        x
    }
}

/// A response without status says that nothing was found. A response that
/// says that the method is not allowed allows `OPTIONS`; to an `OPTIONS`
/// request it becomes a success, with the preflight headers where the request
/// asks for them.
pub open spec fn with_status_settled(x: Exchange) -> Exchange {
    let status: u16 = match x.response.status {
        Some(code) => code,
        None => 404,
    };
    if status == 405 {
        let allowing = x.response.headers.insert("allow"@, "OPTIONS"@);
        if x.request.method == "OPTIONS"@ {
            Exchange {
                request: x.request,
                response: ResponseView {
                    status: Some(200),
                    headers: if x.request.headers.dom().contains(
                        "access-control-request-method"@,
                    ) {
                        cors_preflight_headers(x.request.headers, allowing)
                    } else {
                        allowing
                    },
                    body: x.response.body,
                },
            }
        } else {
            Exchange {
                request: x.request,
                response: ResponseView {
                    status: Some(status),
                    headers: allowing,
                    body: x.response.body,
                },
            }
        }
    } else {
        Exchange {
            request: x.request,
            response: ResponseView {
                status: Some(status),
                headers: x.response.headers,
                body: x.response.body,
            },
        }
    }
}

/// A server error without body gets the standard error body, and every
/// response says that it varies with what the client accepts.
pub open spec fn with_error_body(x: Exchange) -> Exchange {
    let code: u16 = x.response.status.unwrap_or(0);
    Exchange {
        request: x.request,
        response: ResponseView {
            status: x.response.status,
            headers: x.response.headers.insert("vary"@, "accept"@),
            body: if 500 <= code && code <= 599 && x.response.body is Absent {
                BodyView::Error {
                    code,
                    error: error_text(Seq::empty(), reason_phrase(code)),
                    debug: Seq::empty(),
                }
            } else {
                x.response.body
            },
        },
    }
}

/// The request and the response as they leave the API layer.
pub open spec fn finalized(x: Exchange, hsts: Option<Seq<char>>) -> Exchange {
    with_error_body(with_status_settled(with_head_restored(with_hsts(with_timing(x), hsts))))
}

/// Sets the headers, the status and the error body of a response before it is
/// sent, and restores the request as the client made it.
pub fn finalize_response(request: &mut Request, response: &mut Response, hsts: Option<&str>)
    ensures
        (Exchange { request: final(request)@, response: final(response)@ }) == finalized(
            Exchange { request: old(request)@, response: old(response)@ },
            match hsts {
                Some(value) => Some(value@),
                None => None,
            },
        ),
{
    let ghost start = Exchange { request: request@, response: response@ };
    let ghost hsts_text: Option<Seq<char>> = match hsts {
        Some(value) => Some(value@),
        None => None,
    };
    match request.headers.remove("received-time") {
        Some(received_time) => {
            response.headers.insert("server-timing".to_owned(), received_time);
            response.headers.insert("timing-allow-origin".to_owned(), "*".to_owned());
        },
        None => {
            assert(request.headers@ =~= start.request.headers);
        },
    }
    assert((Exchange { request: request@, response: response@ }) == with_timing(start));
    let ghost timed = with_timing(start);
    match hsts {
        Some(value) => {
            response.headers.insert("strict-transport-security".to_owned(), value.to_owned());
        },
        None => {},
    }
    assert((Exchange { request: request@, response: response@ }) == with_hsts(timed, hsts_text));
    let ghost secured = with_hsts(timed, hsts_text);
    let was_head = match request.headers.get("actual-method") {
        Some(method) => str_eq(method.as_str(), "HEAD"),
        None => false,
    };
    if was_head {
        request.method = "HEAD".to_owned();
        request.headers.remove("actual-method");
        match &response.body {
            Body::Absent => {},
            _ => {
                response.body = Body::Empty;
            },
        }
    }
    assert((Exchange { request: request@, response: response@ }) == with_head_restored(secured));
    let ghost restored = with_head_restored(secured);
    let status: u16 = match response.status {
        Some(code) => code,
        None => 404,
    };
    response.status = Some(status);
    if status == 405 {
        response.headers.insert("allow".to_owned(), "OPTIONS".to_owned());
        if str_eq(request.method.as_str(), "OPTIONS") {
            response.status = Some(200);
            if request.headers.contains_key("access-control-request-method") {
                add_cors_preflight_headers(&request.headers, &mut response.headers);
            }
        }
    }
    assert((Exchange { request: request@, response: response@ }) == with_status_settled(restored));
    let ghost settled = with_status_settled(restored);
    let code: u16 = match response.status {
        Some(code) => code,
        None => 0,
    };
    if 500 <= code && code <= 599 {
        if let Body::Absent = &response.body {
            proof {
                reveal_strlit("");
                assert(""@ =~= Seq::<char>::empty());
            }
            response.body = Body::Error(make_error_response_body(code, "", None));
        }
    }
    response.headers.insert("vary".to_owned(), "accept".to_owned());
    assert((Exchange { request: request@, response: response@ }) == with_error_body(settled));
}

/// Whether a text is a JSON array.
pub uninterp spec fn json_array(text: Seq<char>) -> bool;

/// Tells whether a text is a JSON array.
///
/// Calls `from_str` of the crate `serde_json` for a list of JSON values and
/// reports whether it succeeded. The result depends on the text alone; the
/// contract gives it its name and claims nothing more of it.
#[verifier::external_body]
pub(crate) fn is_json_array(text: &str) -> (r: bool)
    ensures
        r == json_array(text@),
{
    serde_json::from_str::<Vec<serde_json::Value>>(text).is_ok()
}

/// Replaces the body of a response by an HTML page that shows its headers,
/// where `wanted` says so, and leaves the response alone otherwise. The page
/// lists the headers in the order in which the response holds them.
pub fn render_html(response: &mut Response, wanted: bool)
    ensures
        !wanted ==> *final(response) == *old(response),
        wanted ==> final(response).status == old(response).status
            && final(response).headers@ == old(response).headers@.insert(
            "content-type"@,
            "text/html"@,
        ) && exists|headers: Seq<Field>|
            distinct_names(headers) && field_map(headers) == old(response).headers@
                && final(response).body@ == BodyView::Html(response_html(headers)),
{
    if wanted {
        let page = make_html_response_body(response.headers.fields());
        response.body = Body::Html(page);
        response.headers.insert("content-type".to_owned(), "text/html".to_owned());
    }
}

/// A client that takes HTML gets a JSON array as a page.
pub open spec fn html_wanted(accept: Option<Seq<char>>, body: BodyView) -> bool {
    accept is Some && contains_text(accept->0, "text/html"@) && body is Json && json_array(
        body->Json_0,
    )
}

/// Renders the response as an HTML page for a client that takes HTML, where
/// its body is a JSON array.
pub fn make_html_response(accept: Option<&str>, response: &mut Response)
    ensures
        !html_wanted(
            match accept {
                Some(a) => Some(a@),
                None => None,
            },
            old(response).body@,
        ) ==> *final(response) == *old(response),
        html_wanted(
            match accept {
                Some(a) => Some(a@),
                None => None,
            },
            old(response).body@,
        ) ==> final(response).status == old(response).status && final(response).headers@ == old(
            response,
        ).headers@.insert("content-type"@, "text/html"@) && exists|headers: Seq<Field>|
            distinct_names(headers) && field_map(headers) == old(response).headers@
                && final(response).body@ == BodyView::Html(response_html(headers)),
{
    let wanted = match accept {
        Some(a) => accepts_html(a) && match &response.body {
            Body::Json(text) => is_json_array(text.as_str()),
            _ => false,
        },
        None => false,
    };
    render_html(response, wanted);
}

/// An entry of a list of child resources.
#[derive(Debug, Clone, PartialEq, Eq)]
pub enum SubRoute {
    /// An entry as it is sent to a client that takes JSON: a JSON value as text.
    Plain(String),
    /// An entry for a client that takes HTML: the address and the name of the child.
    Link { href: String, name: String },
}

/// An entry of a list of child resources as contracts speak of it.
pub enum SubRouteView {
    Plain(Seq<char>),
    Link { href: Seq<char>, name: Seq<char> },
}

impl View for SubRoute {
    type V = SubRouteView;

    open spec fn view(&self) -> SubRouteView {
        match *self {
            SubRoute::Plain(text) => SubRouteView::Plain(text@),
            SubRoute::Link { href, name } => SubRouteView::Link { href: href@, name: name@ },
        }
    }
}

/// The list holds an entry with this view.
pub open spec fn holds_route(routes: Seq<SubRoute>, route: SubRouteView) -> bool {
    exists|i: int| 0 <= i < routes.len() && (#[trigger] routes[i])@ == route
}

/// No two entries of the list have the same view.
pub open spec fn distinct_routes(routes: Seq<SubRoute>) -> bool {
    forall|i: int, j: int| 0 <= i < j < routes.len() ==> routes[i]@ != routes[j]@
}

/// One of the sub-routes, as a link below `uri`.
pub open spec fn is_link_below(uri: Seq<char>, sub_routes: Seq<String>, route: SubRouteView) -> bool {
    exists|i: int|
        0 <= i < sub_routes.len() && route == (SubRouteView::Link {
            href: uri + (#[trigger] sub_routes[i])@,
            name: sub_routes[i]@,
        })
}

impl SubRoute {
    /// Whether two entries are of the same kind and hold the same texts.
    pub fn same_as(&self, other: &SubRoute) -> (r: bool)
        ensures
            r == (self@ == other@),
    {
        match (self, other) {
            (SubRoute::Plain(a), SubRoute::Plain(b)) => str_eq(a.as_str(), b.as_str()),
            (
                SubRoute::Link { href: a_href, name: a_name },
                SubRoute::Link { href: b_href, name: b_name },
            ) => str_eq(a_href.as_str(), b_href.as_str()) && str_eq(
                a_name.as_str(),
                b_name.as_str(),
            ),
            _ => false,
        }
    }
}

/// Adds an entry to the list unless the list holds it already.
fn insert_route(routes: &mut Vec<SubRoute>, route: SubRoute)
    requires
        distinct_routes(old(routes)@),
    ensures
        distinct_routes(final(routes)@),
        forall|x: SubRouteView|
            holds_route(final(routes)@, x) <==> holds_route(old(routes)@, x) || x == route@,
{
    let mut i: usize = 0;
    while i < routes.len()
        invariant
            i <= routes@.len(),
            routes@ == old(routes)@,
            distinct_routes(routes@),
            forall|k: int| 0 <= k < i ==> (#[trigger] routes@[k])@ != route@,
        decreases routes@.len() - i,
    {
        if routes[i].same_as(&route) {
            assert(holds_route(routes@, route@));
            return;
        }
        i = i + 1;
    }
    let ghost before = routes@;
    routes.push(route);
    proof {
        assert forall|x: SubRouteView|
            holds_route(routes@, x) <==> holds_route(before, x) || x == route@ by {
            if holds_route(before, x) {
                let k = choose|k: int| 0 <= k < before.len() && (#[trigger] before[k])@ == x;
                assert(routes@[k]@ == x);
            }
            if x == route@ {
                assert(routes@[before.len() as int]@ == x);
            }
            if holds_route(routes@, x) {
                let k = choose|k: int| 0 <= k < routes@.len() && (#[trigger] routes@[k])@ == x;
                if k < before.len() {
                    assert(before[k]@ == x);
                }
            }
        }
    }
}

/// Constructs the list of child resources of a response: the entries that the
/// response holds already and, for a client that takes HTML, a link below
/// `uri` for each sub-route. No entry is listed twice.
pub fn make_sub_routes_body(
    sub_routes: &Vec<String>,
    uri: &str,
    accept: Option<&str>,
    existing: Vec<SubRoute>,
) -> (r: Vec<SubRoute>)
    ensures
        distinct_routes(r@),
        forall|x: SubRouteView|
            holds_route(r@, x) <==> holds_route(existing@, x) || (accept is Some && contains_text(
                accept->0@,
                "text/html"@,
            ) && is_link_below(uri@, sub_routes@, x)),
{
    let mut results: Vec<SubRoute> = Vec::new();
    let mut i: usize = 0;
    while i < existing.len()
        invariant
            i <= existing@.len(),
            distinct_routes(results@),
            forall|x: SubRouteView|
                holds_route(results@, x) <==> holds_route(existing@.take(i as int), x),
        decreases existing@.len() - i,
    {
        let ghost before = results@;
        insert_route(&mut results, existing[i].clone_route());
        proof {
            assert forall|x: SubRouteView|
                holds_route(results@, x) <==> holds_route(existing@.take(i + 1), x) by {
                if holds_route(existing@.take(i as int), x) {
                    let k = choose|k: int|
                        0 <= k < i && (#[trigger] existing@.take(i as int)[k])@ == x;
                    assert(existing@.take(i + 1)[k]@ == x);
                }
                if x == existing@[i as int]@ {
                    assert(existing@.take(i + 1)[i as int]@ == x);
                }
                if holds_route(existing@.take(i + 1), x) {
                    let k = choose|k: int|
                        0 <= k < i + 1 && (#[trigger] existing@.take(i + 1)[k])@ == x;
                    if k < i {
                        assert(existing@.take(i as int)[k]@ == x);
                    }
                }
            }
        }
        i = i + 1;
    }
    assert(existing@.take(existing@.len() as int) =~= existing@);
    let html = match accept {
        Some(a) => accepts_html(a),
        None => false,
    };
    if html {
        let mut j: usize = 0;
        while j < sub_routes.len()
            invariant
                j <= sub_routes@.len(),
                distinct_routes(results@),
                forall|x: SubRouteView|
                    holds_route(results@, x) <==> holds_route(existing@, x) || is_link_below(
                        uri@,
                        sub_routes@.take(j as int),
                        x,
                    ),
            decreases sub_routes@.len() - j,
        {
            let mut href = uri.to_owned();
            href.append(sub_routes[j].as_str());
            let link = SubRoute::Link { href, name: sub_routes[j].clone() };
            let ghost view = link@;
            insert_route(&mut results, link);
            proof {
                assert forall|x: SubRouteView|
                    is_link_below(uri@, sub_routes@.take(j + 1), x) <==> is_link_below(
                        uri@,
                        sub_routes@.take(j as int),
                        x,
                    ) || x == view by {
                    if is_link_below(uri@, sub_routes@.take(j as int), x) {
                        let k = choose|k: int|
                            0 <= k < j && x == (SubRouteView::Link {
                                href: uri@ + (#[trigger] sub_routes@.take(j as int)[k])@,
                                name: sub_routes@.take(j as int)[k]@,
                            });
                        assert(sub_routes@.take(j + 1)[k] == sub_routes@.take(j as int)[k]);
                    }
                    if x == view {
                        assert(sub_routes@.take(j + 1)[j as int] == sub_routes@[j as int]);
                    }
                    if is_link_below(uri@, sub_routes@.take(j + 1), x) {
                        let k = choose|k: int|
                            0 <= k < j + 1 && x == (SubRouteView::Link {
                                href: uri@ + (#[trigger] sub_routes@.take(j + 1)[k])@,
                                name: sub_routes@.take(j + 1)[k]@,
                            });
                        if k < j {
                            assert(sub_routes@.take(j as int)[k] == sub_routes@.take(j + 1)[k]);
                        }
                    }
                }
            }
            j = j + 1;
        }
        assert(sub_routes@.take(sub_routes@.len() as int) =~= sub_routes@);
    }
    results
}

impl SubRoute {
    /// A copy of the entry.
    pub fn clone_route(&self) -> (r: SubRoute)
        ensures
            r@ == self@,
    {
        match self {
            SubRoute::Plain(text) => SubRoute::Plain(text.clone()),
            SubRoute::Link { href, name } => SubRoute::Link {
                href: href.clone(),
                name: name.clone(),
            },
        }
    }
}

} // verus!
