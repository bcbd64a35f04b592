//! The gateway to the monitoring API: how a request is made ready, and what
//! a response means. The exchange itself is the caller's.

use vstd::prelude::*;
use vstd::utf8::encode_utf8;
use crate::ask::{Ask, Method};
use crate::codec::{
    decode,
    decoded_view,
    json_parsed,
    object_text,
    text_view,
    utf8_decoded,
    utf8_text,
    write_object,
};
use crate::err::{ErrorView, SensuError};
use crate::json::{Json, JsonView};
use crate::notice;
use crate::payload::{PayloadView, SensuPayload};
use crate::uri::{has_authority, inherit, parse_uri, uri_inherited, uri_parsed, uri_parts, UriParts};
use crate::reply::reply_view;

verus! {

/// The status that says "no such thing".
pub const NOT_FOUND: u16 = 404;

/// A request that is ready to be sent.
#[derive(Debug, PartialEq, Eq)]
pub struct HttpRequest {
    pub method: Method,
    pub uri: hyper::Uri,
    /// The `Content-Type` header, set where there is a body.
    pub content_type: Option<String>,
    /// The `Content-Length` header, set where there is a body.
    pub content_length: Option<usize>,
    pub body: Option<String>,
}

/// The mathematical model of an [`HttpRequest`].
pub struct HttpRequestView {
    pub method: Method,
    pub uri: UriParts,
    pub content_type: Option<Seq<char>>,
    pub content_length: Option<usize>,
    pub body: Option<Seq<char>>,
}

impl View for HttpRequest {
    type V = HttpRequestView;

    open spec fn view(&self) -> HttpRequestView {
        HttpRequestView {
            method: self.method,
            uri: uri_parts(self.uri),
            content_type: match self.content_type {
                Some(t) => Some(t@),
                None => None,
            },
            content_length: self.content_length,
            body: match self.body {
                Some(b) => Some(b@),
                None => None,
            },
        }
    }
}

impl HttpRequestView {
    /// The request with the given method, URI and body. A body is JSON text:
    /// it sets the content type, and the content length to its length in
    /// bytes.
    pub open spec fn assemble(method: Method, uri: UriParts, body: Option<Seq<char>>) -> HttpRequestView {
        match body {
            Some(text) => HttpRequestView {
                method,
                uri,
                content_type: Some("application/json"@),
                content_length: Some(encode_utf8(text).len() as usize),
                body: Some(text),
            },
            None => HttpRequestView {
                method,
                uri,
                content_type: None,
                content_length: None,
                body: None,
            },
        }
    }
}

impl HttpRequest {
    /// The request with the given method, URI and body.
    pub fn assemble(method: Method, uri: hyper::Uri, body: Option<String>) -> (request: HttpRequest)
        ensures
            request@ == HttpRequestView::assemble(
                method,
                uri_parts(uri),
                match body {
                    Some(b) => Some(b@),
                    None => None,
                },
            ),
    {
        match body {
            Some(text) => {
                let length: usize = text.as_str().len();
                HttpRequest {
                    method,
                    uri,
                    content_type: Some(String::from_str("application/json")),
                    content_length: Some(length),
                    body: Some(text),
                }
            },
            None => HttpRequest { method, uri, content_type: None, content_length: None, body: None },
        }
    }
}

/// What a response means, with the notice that goes with it.
#[derive(Debug, PartialEq, Eq)]
pub struct Response {
    pub reply: Result<Option<Json>, SensuError>,
    pub notice: Option<String>,
}

/// The mathematical model of a [`Response`].
pub struct ResponseView {
    pub reply: Result<Option<JsonView>, ErrorView>,
    pub notice: Option<Seq<char>>,
}

impl View for Response {
    type V = ResponseView;

    open spec fn view(&self) -> ResponseView {
        ResponseView {
            reply: reply_view(self.reply),
            notice: match self.notice {
                Some(n) => Some(n@),
                None => None,
            },
        }
    }
}

/// What a response with the given status and body means, `decoded` being the
/// body parsed as JSON and `text` the body decoded as UTF-8:
/// - status 404 is the definitive "not found";
/// - an empty body is a success without a document;
/// - a body that parses is a success with its document;
/// - a body that does not parse fails with the parser's message, after a
///   notice that shows the body; where the body is no text either, it fails
///   with the decoder's message instead, without a notice.
pub open spec fn interpret_view(
    status: u16,
    empty: bool,
    decoded: Result<JsonView, Seq<char>>,
    text: Result<Seq<char>, Seq<char>>,
) -> ResponseView {
    if status == NOT_FOUND {
        ResponseView { reply: Err(ErrorView::NotFound), notice: None }
    } else if empty {
        ResponseView { reply: Ok(None), notice: None }
    } else {
        match decoded {
            Ok(document) => ResponseView { reply: Ok(Some(document)), notice: None },
            Err(message) => match text {
                Ok(shown) => ResponseView {
                    reply: Err(ErrorView::Message(message)),
                    notice: Some(notice::response_body_text(shown)),
                },
                Err(undecodable) => ResponseView {
                    reply: Err(ErrorView::Message(undecodable)),
                    notice: None,
                },
            },
        }
    }
}

/// What a response with the given status and body means, from the body's
/// parse as JSON and its decoding as UTF-8.
pub fn interpret(
    status: u16,
    empty: bool,
    decoded: Result<Json, String>,
    text: Result<String, String>,
) -> (response: Response)
    ensures
        response@ == interpret_view(status, empty, decoded_view(decoded), text_view(text)),
{
    if status == NOT_FOUND {
        Response { reply: Err(SensuError::not_found()), notice: None }
    } else if empty {
        Response { reply: Ok(None), notice: None }
    } else {
        match decoded {
            Ok(document) => Response { reply: Ok(Some(document)), notice: None },
            Err(message) => match text {
                Ok(shown) => Response {
                    reply: Err(SensuError::new_string(message)),
                    notice: Some(notice::response_body(shown.as_str())),
                },
                Err(undecodable) => Response {
                    reply: Err(SensuError::new_string(undecodable)),
                    notice: None,
                },
            },
        }
    }
}

/// The URI of a request: the one that `text` writes where it names an
/// authority, else its path and query under the scheme and authority of
/// `base`.
pub open spec fn full_uri(base: UriParts, text: Seq<char>) -> Result<UriParts, Seq<char>> {
    match uri_parsed(text) {
        Ok(parts) => if parts.authority.len() > 0 {
            Ok(parts)
        } else {
            uri_inherited(parts, base)
        },
        Err(message) => Err(message),
    }
}

/// The text of a request's body.
pub open spec fn body_text(body: Option<PayloadView>) -> Result<Option<Seq<char>>, Seq<char>> {
    match body {
        Some(payload) => match object_text(payload.members()) {
            Ok(text) => Ok(Some(text)),
            Err(message) => Err(message),
        },
        None => Ok(None),
    }
}

/// The request to `uri` under `base`, or the failure that its URI or its
/// body gives, the URI's first.
pub open spec fn request_view(
    base: UriParts,
    method: Method,
    uri: Seq<char>,
    body: Option<PayloadView>,
) -> Result<HttpRequestView, ErrorView> {
    match full_uri(base, uri) {
        Err(message) => Err(ErrorView::Message(message)),
        Ok(parts) => match body_text(body) {
            Err(message) => Err(ErrorView::Message(message)),
            Ok(text) => Ok(HttpRequestView::assemble(method, parts, text)),
        },
    }
}

/// The client's side of the gateway: it knows the base URI of the service.
#[derive(Debug)]
pub struct SensuClient {
    base: hyper::Uri,
}

impl SensuClient {
    /// The components of the base URI.
    pub closed spec fn base(&self) -> UriParts {
        uri_parts(self.base)
    }

    /// A client for the service at `base_url`; a failure where that is no
    /// URI.
    pub fn new(base_url: String) -> (made: Result<SensuClient, SensuError>)
        ensures
            match uri_parsed(base_url@) {
                Ok(parts) => made is Ok && made->Ok_0.base() == parts,
                Err(message) => made is Err && made->Err_0@ == ErrorView::Message(message),
            },
    {
        match parse_uri(base_url.as_str()) {
            Ok(base) => Ok(SensuClient { base }),
            Err(message) => Err(SensuError::new_string(message)),
        }
    }

    /// Makes a request ready: completes `uri` from the base where it names no
    /// authority, and writes the payload, if there is one, as JSON with its
    /// content headers.
    pub fn request(&self, method: Method, uri: &str, body: Option<SensuPayload>) -> (made: Result<
        HttpRequest,
        SensuError,
    >)
        ensures
            match request_view(
                self.base(),
                method,
                uri@,
                match body {
                    Some(p) => Some(p@),
                    None => None,
                },
            ) {
                Ok(request) => made is Ok && made->Ok_0@ == request,
                Err(e) => made is Err && made->Err_0@ == e,
            },
            made matches Ok(request) ==> uri_parsed(uri@) matches Ok(parts) && request@.uri == (
            if parts.authority.len() > 0 {
                parts
            } else {
                UriParts {
                    scheme: self.base().scheme,
                    authority: self.base().authority,
                    path_and_query: parts.path_and_query,
                }
            }),
    {
        let parsed = match parse_uri(uri) {
            Ok(parsed) => parsed,
            Err(message) => {
                return Err(SensuError::new_string(message));
            },
        };
        let full = if has_authority(&parsed) {
            parsed
        } else {
            match inherit(parsed, &self.base) {
                Ok(full) => full,
                Err(message) => {
                    return Err(SensuError::new_string(message));
                },
            }
        };
        let text = match body {
            Some(payload) => match write_object(&payload.members()) {
                Ok(text) => Some(text),
                Err(message) => {
                    return Err(SensuError::new_string(message));
                },
            },
            None => None,
        };
        Ok(HttpRequest::assemble(method, full, text))
    }

    /// Makes the request for `ask` ready: the request to the path of its
    /// endpoint.
    pub fn prepare(&self, ask: Ask) -> (made: Result<HttpRequest, SensuError>)
        ensures
            match request_view(self.base(), ask@.method, ask@.endpoint.path(), ask@.body) {
                Ok(request) => made is Ok && made->Ok_0@ == request,
                Err(e) => made is Err && made->Err_0@ == e,
            },
            made matches Ok(request) ==> uri_parsed(ask@.endpoint.path()) matches Ok(parts)
                && request@.uri == (if parts.authority.len() > 0 {
                parts
            } else {
                UriParts {
                    scheme: self.base().scheme,
                    authority: self.base().authority,
                    path_and_query: parts.path_and_query,
                }
            }),
    {
        let path = ask.endpoint.path();
        self.request(ask.method, path.as_str(), ask.body)
    }

    /// Whether the body of a response with this status is read at all: a
    /// 404 is answered from the status alone.
    pub fn reads_body(status: u16) -> (read: bool)
        ensures
            read == (status != NOT_FOUND),
            !read ==> forall|
                empty: bool,
                decoded: Result<JsonView, Seq<char>>,
                text: Result<Seq<char>, Seq<char>>,
            |
                (#[trigger] interpret_view(status, empty, decoded, text)) == (ResponseView {
                    reply: Err(ErrorView::NotFound),
                    notice: None,
                }),
    {
        status != NOT_FOUND
    }

    /// Reads a response: its status and the bytes of its body.
    pub fn response(status: u16, body: &[u8]) -> (response: Response)
        ensures
            response@ == interpret_view(
                status,
                body@.len() == 0,
                json_parsed(body@),
                utf8_decoded(body@),
            ),
    {
        if status == NOT_FOUND {
            Response { reply: Err(SensuError::not_found()), notice: None }
        } else if body.len() < 1 {
            Response { reply: Ok(None), notice: None }
        } else {
            let decoded = decode(body);
            match decoded {
                Ok(document) => Response { reply: Ok(Some(document)), notice: None },
                Err(message) => interpret(
                    status,
                    false,
                    Err(message),
                    utf8_text(body),
                ),
            }
        }
    }
}

} // verus!
