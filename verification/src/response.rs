//! The canonical response and the reply envelopes.
//!
//! A handler answers with anything that can be turned into a `Response`.
//! `LambdaResponse::from_response` then writes the reply in the shape that the
//! origin of the request expects: headers collapsed where the origin carries one
//! value for each name, the body as text where it is text and as base64 where it
//! is not.

use vstd::prelude::*;
use vstd::string::*;
use vstd::utf8::*;
use crate::encoding::{base64_encode, base64_encoding, lowercase, utf8_text};
use crate::headers::Headers;
use crate::request::{decoded_body, text_of, ReplyContext, ReplyContextView, RequestOrigin};
use crate::strmap::{collapse_last, Pairs, StrMap};

verus! {

/// The canonical response: status, headers and the bytes of the body.
#[derive(Debug)]
pub struct Response {
    status: u16,
    headers: Headers,
    body: Vec<u8>,
}

/// The model of a canonical response.
#[verifier::ext_equal]
pub struct ResponseView {
    /// The status code.
    pub status: u16,
    /// The header lines in order, names in lower case.
    pub headers: Pairs,
    /// The bytes of the body.
    pub body: Seq<u8>,
}

impl View for Response {
    type V = ResponseView;

    closed spec fn view(&self) -> ResponseView {
        ResponseView { status: self.status, headers: self.headers@, body: self.body@ }
    }
}

/// The model of a response that says nothing but its body: status 200, no headers.
pub open spec fn plain_response(body: Seq<u8>) -> ResponseView {
    ResponseView { status: 200, headers: Seq::empty(), body }
}

impl Response {
    /// A response with the given status, headers and body.
    pub fn new(status: u16, headers: Headers, body: Vec<u8>) -> (r: Response)
        ensures
            r@ == (ResponseView { status, headers: headers@, body: body@ }),
    {
        Response { status, headers, body }
    }

    /// A response with status 200, no headers and the given bytes as its body.
    pub fn from_bytes(body: Vec<u8>) -> (r: Response)
        ensures
            r@ == plain_response(body@),
    {
        Response { status: 200, headers: Headers::new(), body }
    }

    /// A response with status 200, no headers and the given text as its body.
    pub fn from_text(text: &str) -> (r: Response)
        ensures
            r@ == plain_response(encode_utf8(text@)),
    {
        Response { status: 200, headers: Headers::new(), body: text.as_bytes_vec() }
    }

    /// A response with status 200 whose body is the given JSON text, marked as
    /// such by its content type.
    pub fn json(text: &str) -> (r: Response)
        ensures
            r@ == (ResponseView {
                status: 200,
                headers: seq![("content-type"@, "application/json"@)],
                body: encode_utf8(text@),
            }),
    {
        let mut headers = Headers::new();
        proof {
            reveal_strlit("content-type");
            assert(lowercase("content-type"@) =~= "content-type"@);
        }
        headers.append("content-type", "application/json");
        let r = Response { status: 200, headers, body: text.as_bytes_vec() };
        assert(r@.headers =~= seq![("content-type"@, "application/json"@)]);
        r
    }

    /// The response with its status replaced.
    pub fn with_status(self, status: u16) -> (r: Response)
        ensures
            r@ == (ResponseView { status, ..self@ }),
    {
        Response { status, headers: self.headers, body: self.body }
    }

    /// The response with one more header line; earlier lines of the same name stay.
    pub fn with_header(self, name: &str, value: &str) -> (r: Response)
        ensures
            r@ == (ResponseView {
                headers: self@.headers.push((lowercase(name@), value@)),
                ..self@
            }),
    {
        let mut headers = self.headers;
        headers.append(name, value);
        Response { status: self.status, headers, body: self.body }
    }

    /// The status code.
    pub fn status(&self) -> (r: u16)
        ensures
            r == self@.status,
    {
        self.status
    }

    /// The headers.
    pub fn headers(&self) -> (r: &Headers)
        ensures
            r@ == self@.headers,
    {
        &self.headers
    }

    /// The bytes of the body.
    pub fn body(&self) -> (r: &Vec<u8>)
        ensures
            r@ == self@.body,
    {
        &self.body
    }
}

/// A value that a handler may answer with.
pub trait IntoResponse: Sized {
    /// The response that the value stands for.
    spec fn response(self) -> ResponseView;

    /// Turns the value into the response that it stands for.
    fn into_response(self) -> (r: Response)
        ensures
            r@ == self.response(),
    ;
}

impl IntoResponse for Response {
    open spec fn response(self) -> ResponseView {
        self@
    }

    fn into_response(self) -> (r: Response) {
        self
    }
}

impl IntoResponse for String {
    open spec fn response(self) -> ResponseView {
        plain_response(encode_utf8(self@))
    }

    fn into_response(self) -> (r: Response) {
        Response::from_text(self.as_str())
    }
}

impl<'a> IntoResponse for &'a str {
    open spec fn response(self) -> ResponseView {
        plain_response(encode_utf8(self@))
    }

    fn into_response(self) -> (r: Response) {
        Response::from_text(self)
    }
}

impl IntoResponse for Vec<u8> {
    open spec fn response(self) -> ResponseView {
        plain_response(self@)
    }

    fn into_response(self) -> (r: Response) {
        Response::from_bytes(self)
    }
}

/// How a body goes into a reply envelope: no text for an empty body, the text
/// itself and no flag for valid UTF-8, else the base64 text and the flag. The
/// choice depends on the bytes alone.
pub open spec fn encoded_body(body: Seq<u8>) -> (Option<Seq<char>>, bool) {
    if body.len() == 0 {
        (None, false)
    } else if valid_utf8(body) {
        (Some(decode_utf8(body)), false)
    } else {
        (Some(base64_encoding(body)), true)
    }
}

/// The text and the base64 flag under which `body` goes into a reply envelope.
/// Decoding the text under the flag gives `body` back.
pub fn encode_body(body: &Vec<u8>) -> (r: (Option<String>, bool))
    ensures
        (text_of(r.0), r.1) == encoded_body(body@),
        r.1 == !valid_utf8(body@),
        decoded_body(text_of(r.0), r.1) == Some(body@),
{
    broadcast use {encode_utf8_decode_utf8, decode_utf8_encode_utf8};

    if body.len() == 0 {
        return (None, false);
    }
    match utf8_text(body.as_slice()) {
        Some(text) => {
            assert(decode_utf8(encode_utf8(text@)) == text@);
            (Some(text.to_owned()), false)
        },
        None => (Some(base64_encode(body.as_slice())), true),
    }
}

/// A reply to the load balancer.
#[derive(Debug)]
pub struct AlbResponse {
    pub status_code: u16,
    pub headers: StrMap,
    pub multi_value_headers: StrMap,
    pub body: Option<String>,
    pub is_base64_encoded: bool,
}

/// A reply to the REST-style gateway.
#[derive(Debug)]
pub struct ApiGatewayV1Response {
    pub status_code: u16,
    pub headers: StrMap,
    pub multi_value_headers: StrMap,
    pub body: Option<String>,
    pub is_base64_encoded: bool,
}

/// A reply to the HTTP-style gateway.
#[derive(Debug)]
pub struct ApiGatewayV2Response {
    pub status_code: u16,
    pub headers: StrMap,
    pub body: Option<String>,
    pub is_base64_encoded: bool,
}

/// A reply to the websocket gateway.
#[derive(Debug)]
pub struct WebSocketResponse {
    pub connection_id: Option<String>,
    pub status_code: u16,
    pub headers: StrMap,
    pub body: Option<String>,
    pub is_base64_encoded: bool,
}

/// A reply envelope, in the shape of one of the four origins.
#[derive(Debug)]
pub enum LambdaResponse {
    ApiGatewayV1(ApiGatewayV1Response),
    ApiGatewayV2(ApiGatewayV2Response),
    Alb(AlbResponse),
    WebSocket(WebSocketResponse),
}

/// The model of a reply envelope: its shape and what it holds. A field that the
/// shape does not have is `None`.
#[verifier::ext_equal]
pub struct ReplyView {
    /// The origin whose shape the envelope has.
    pub origin: RequestOrigin,
    /// The status code.
    pub status_code: u16,
    /// The headers, one value for each name.
    pub headers: Pairs,
    /// The headers with every value; only in the shape of an origin that carries
    /// several values under one name.
    pub multi_value_headers: Option<Pairs>,
    /// The body text.
    pub body: Option<Seq<char>>,
    /// Whether the body text is base64.
    pub is_base64_encoded: bool,
    /// The websocket connection that the reply goes to.
    pub connection_id: Option<Seq<char>>,
}

impl View for LambdaResponse {
    type V = ReplyView;

    open spec fn view(&self) -> ReplyView {
        match *self {
            LambdaResponse::ApiGatewayV1(e) => ReplyView {
                origin: RequestOrigin::ApiGatewayV1,
                status_code: e.status_code,
                headers: e.headers@,
                multi_value_headers: Some(e.multi_value_headers@),
                body: text_of(e.body),
                is_base64_encoded: e.is_base64_encoded,
                connection_id: None,
            },
            LambdaResponse::ApiGatewayV2(e) => ReplyView {
                origin: RequestOrigin::ApiGatewayV2,
                status_code: e.status_code,
                headers: e.headers@,
                multi_value_headers: None,
                body: text_of(e.body),
                is_base64_encoded: e.is_base64_encoded,
                connection_id: None,
            },
            LambdaResponse::Alb(e) => ReplyView {
                origin: RequestOrigin::Alb,
                status_code: e.status_code,
                headers: e.headers@,
                multi_value_headers: Some(e.multi_value_headers@),
                body: text_of(e.body),
                is_base64_encoded: e.is_base64_encoded,
                connection_id: None,
            },
            LambdaResponse::WebSocket(e) => ReplyView {
                origin: RequestOrigin::WebSocket,
                status_code: e.status_code,
                headers: e.headers@,
                multi_value_headers: None,
                body: text_of(e.body),
                is_base64_encoded: e.is_base64_encoded,
                connection_id: text_of(e.connection_id),
            },
        }
    }
}

/// The reply envelope for `response` to a request with the reply context
/// `context`: in the shape of the origin of the request; every header name with
/// its last value; all header lines beside that where the origin carries several
/// values under one name; the body as its bytes say; the connection only in a
/// websocket reply.
pub open spec fn denormalized(context: ReplyContextView, response: ResponseView) -> ReplyView {
    ReplyView {
        origin: context.origin,
        status_code: response.status,
        headers: collapse_last(response.headers),
        multi_value_headers: if context.origin.multi_value() {
            Some(response.headers)
        } else {
            None
        },
        body: encoded_body(response.body).0,
        is_base64_encoded: encoded_body(response.body).1,
        connection_id: if context.origin == RequestOrigin::WebSocket {
            context.connection_id
        } else {
            None
        },
    }
}

impl LambdaResponse {
    /// The origin whose shape the envelope has.
    pub fn origin(&self) -> (r: RequestOrigin)
        ensures
            r == self@.origin,
    {
        match self {
            LambdaResponse::ApiGatewayV1(_) => RequestOrigin::ApiGatewayV1,
            LambdaResponse::ApiGatewayV2(_) => RequestOrigin::ApiGatewayV2,
            LambdaResponse::Alb(_) => RequestOrigin::Alb,
            LambdaResponse::WebSocket(_) => RequestOrigin::WebSocket,
        }
    }

    /// The status code.
    pub fn status_code(&self) -> (r: u16)
        ensures
            r == self@.status_code,
    {
        match self {
            LambdaResponse::ApiGatewayV1(e) => e.status_code,
            LambdaResponse::ApiGatewayV2(e) => e.status_code,
            LambdaResponse::Alb(e) => e.status_code,
            LambdaResponse::WebSocket(e) => e.status_code,
        }
    }

    /// The headers, one value for each name.
    pub fn headers(&self) -> (r: &StrMap)
        ensures
            r@ == self@.headers,
    {
        match self {
            LambdaResponse::ApiGatewayV1(e) => &e.headers,
            LambdaResponse::ApiGatewayV2(e) => &e.headers,
            LambdaResponse::Alb(e) => &e.headers,
            LambdaResponse::WebSocket(e) => &e.headers,
        }
    }

    /// The headers with every value, where the shape of the envelope has them.
    pub fn multi_value_headers(&self) -> (r: Option<&StrMap>)
        ensures
            match r {
                Some(headers) => self@.multi_value_headers == Some(headers@),
                None => self@.multi_value_headers is None,
            },
    {
        match self {
            LambdaResponse::ApiGatewayV1(e) => Some(&e.multi_value_headers),
            LambdaResponse::ApiGatewayV2(_) => None,
            LambdaResponse::Alb(e) => Some(&e.multi_value_headers),
            LambdaResponse::WebSocket(_) => None,
        }
    }

    /// The body text.
    pub fn body(&self) -> (r: &Option<String>)
        ensures
            text_of(*r) == self@.body,
    {
        match self {
            LambdaResponse::ApiGatewayV1(e) => &e.body,
            LambdaResponse::ApiGatewayV2(e) => &e.body,
            LambdaResponse::Alb(e) => &e.body,
            LambdaResponse::WebSocket(e) => &e.body,
        }
    }

    /// Whether the body text is base64.
    pub fn is_base64_encoded(&self) -> (r: bool)
        ensures
            r == self@.is_base64_encoded,
    {
        match self {
            LambdaResponse::ApiGatewayV1(e) => e.is_base64_encoded,
            LambdaResponse::ApiGatewayV2(e) => e.is_base64_encoded,
            LambdaResponse::Alb(e) => e.is_base64_encoded,
            LambdaResponse::WebSocket(e) => e.is_base64_encoded,
        }
    }

    /// Writes the reply envelope for `response` in the shape that the origin in
    /// `context` expects. The body text, decoded under its flag, is the body of
    /// `response`; the flag is set exactly for a body that is not valid UTF-8.
    pub fn from_response(context: &ReplyContext, response: Response) -> (r: LambdaResponse)
        ensures
            r@ == denormalized(context@, response@),
            r@.origin == context@.origin,
            r@.is_base64_encoded == !valid_utf8(response@.body),
            decoded_body(r@.body, r@.is_base64_encoded) == Some(response@.body),
    {
        let status_code = response.status;
        let (body, is_base64_encoded) = encode_body(&response.body);
        let headers = response.headers.as_map().collapse_last();
        match context.origin() {
            RequestOrigin::ApiGatewayV1 => LambdaResponse::ApiGatewayV1(
                ApiGatewayV1Response {
                    status_code,
                    headers,
                    multi_value_headers: response.headers.as_map().duplicate(),
                    body,
                    is_base64_encoded,
                },
            ),
            RequestOrigin::ApiGatewayV2 => LambdaResponse::ApiGatewayV2(
                ApiGatewayV2Response { status_code, headers, body, is_base64_encoded },
            ),
            RequestOrigin::Alb => LambdaResponse::Alb(
                AlbResponse {
                    status_code,
                    headers,
                    multi_value_headers: response.headers.as_map().duplicate(),
                    body,
                    is_base64_encoded,
                },
            ),
            RequestOrigin::WebSocket => {
                let connection_id = match context.connection_id() {
                    Some(id) => Some(id.to_owned()),
                    None => None,
                };
                LambdaResponse::WebSocket(
                    WebSocketResponse {
                        connection_id,
                        status_code,
                        headers,
                        body,
                        is_base64_encoded,
                    },
                )
            },
        }
    }
}

} // verus!
