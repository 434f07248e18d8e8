//! Trigger envelopes and the canonical request.
//!
//! An invocation arrives as an envelope in one of four shapes, told apart by the
//! fields that only one shape has. `LambdaRequest::from_raw` finds the shape and
//! `LambdaRequest::into_request` turns the envelope into the canonical `Request`,
//! which records where it came from for the way back.

use vstd::prelude::*;
use vstd::string::*;
use vstd::utf8::*;
use crate::encoding::{base64_decode, base64_decoding, form_encode, form_encoding};
use crate::headers::{lowercase_names, Headers};
use crate::strmap::{merge, Pairs, StrMap};
use lambda_runtime::Context;

verus! {

/// The execution context of an invocation: request id, deadline and function
/// metadata. The library carries it from the caller to the handler and never
/// looks inside.
#[verifier::external_type_specification]
#[verifier::external_body]
pub struct ExContext(lambda_runtime::Context);

/// The trigger that produced an invocation.
#[derive(Clone, Copy, Debug, PartialEq, Eq, Structural)]
pub enum RequestOrigin {
    /// A REST-style API gateway.
    ApiGatewayV1,
    /// An HTTP-style API gateway.
    ApiGatewayV2,
    /// An application load balancer.
    Alb,
    /// A websocket gateway.
    WebSocket,
}

impl RequestOrigin {
    /// Whether envelopes of this origin carry several values under one header or
    /// query parameter name.
    pub open spec fn multi_value(self) -> bool {
        self == RequestOrigin::Alb || self == RequestOrigin::ApiGatewayV1
    }

    /// Whether envelopes of this origin carry several values under one header or
    /// query parameter name.
    pub fn supports_multi_value(&self) -> (r: bool)
        ensures
            r == self.multi_value(),
    {
        match self {
            RequestOrigin::Alb => true,
            RequestOrigin::ApiGatewayV1 => true,
            RequestOrigin::ApiGatewayV2 => false,
            RequestOrigin::WebSocket => false,
        }
    }
}

/// Why an envelope could not be turned into a request.
#[derive(Clone, Copy, Debug, PartialEq, Eq, Structural)]
pub enum StructuralParseError {
    /// The envelope has the shape of none of the four origins, or of several.
    UnknownShape,
    /// The body is flagged as base64 and is not well-formed base64.
    InvalidBody,
}

impl StructuralParseError {
    /// A sentence that says what went wrong.
    pub fn message(&self) -> (r: String)
        ensures
            r@ == match *self {
                StructuralParseError::UnknownShape => "envelope matches no known trigger shape"@,
                StructuralParseError::InvalidBody => "body is flagged base64 but does not decode"@,
            },
    {
        match self {
            StructuralParseError::UnknownShape => "envelope matches no known trigger shape".to_owned(),
            StructuralParseError::InvalidBody => "body is flagged base64 but does not decode".to_owned(),
        }
    }
}

/// An envelope as it arrives, before its shape is known: every field that some
/// origin defines, absent where the payload did not hold it.
#[derive(Debug)]
pub struct RawEnvelope {
    /// `httpMethod`.
    pub http_method: Option<String>,
    /// `path`.
    pub path: Option<String>,
    /// `rawPath`; only the HTTP-style gateway sends it.
    pub raw_path: Option<String>,
    /// `resource`, the path template; only the REST-style gateway sends it.
    pub resource: Option<String>,
    /// `routeKey`.
    pub route_key: Option<String>,
    /// `requestContext.stage`.
    pub stage: Option<String>,
    /// `requestContext.elb.targetGroupArn`; only the load balancer sends it.
    pub elb_target_group_arn: Option<String>,
    /// `requestContext.http.method`.
    pub context_http_method: Option<String>,
    /// `requestContext.connectionId`; only the websocket gateway sends it.
    pub connection_id: Option<String>,
    /// `headers`.
    pub headers: StrMap,
    /// `multiValueHeaders`.
    pub multi_value_headers: StrMap,
    /// `queryStringParameters`.
    pub query_string_parameters: StrMap,
    /// `multiValueQueryStringParameters`.
    pub multi_value_query_string_parameters: StrMap,
    /// `pathParameters`.
    pub path_parameters: StrMap,
    /// `body`.
    pub body: Option<String>,
    /// `isBase64Encoded`.
    pub is_base64_encoded: bool,
}

/// An envelope of the load balancer.
#[derive(Debug)]
pub struct AlbRequest {
    pub http_method: String,
    pub path: Option<String>,
    pub query_string_parameters: StrMap,
    pub multi_value_query_string_parameters: StrMap,
    pub headers: StrMap,
    pub multi_value_headers: StrMap,
    pub target_group_arn: String,
    pub is_base64_encoded: bool,
    pub body: Option<String>,
}

/// An envelope of the REST-style gateway.
#[derive(Debug)]
pub struct ApiGatewayV1Request {
    pub resource: String,
    pub path: Option<String>,
    pub http_method: String,
    pub query_string_parameters: StrMap,
    pub multi_value_query_string_parameters: StrMap,
    pub headers: StrMap,
    pub multi_value_headers: StrMap,
    pub path_parameters: StrMap,
    pub stage: Option<String>,
    pub is_base64_encoded: bool,
    pub body: Option<String>,
}

/// An envelope of the HTTP-style gateway.
#[derive(Debug)]
pub struct ApiGatewayV2Request {
    pub route_key: Option<String>,
    pub raw_path: String,
    pub http_method: String,
    pub query_string_parameters: StrMap,
    pub headers: StrMap,
    pub path_parameters: StrMap,
    pub stage: Option<String>,
    pub is_base64_encoded: bool,
    pub body: Option<String>,
}

/// An envelope of the websocket gateway.
#[derive(Debug)]
pub struct WebSocketRequest {
    pub connection_id: String,
    pub route_key: Option<String>,
    pub http_method: Option<String>,
    pub path: Option<String>,
    pub query_string_parameters: StrMap,
    pub headers: StrMap,
    pub stage: Option<String>,
    pub is_base64_encoded: bool,
    pub body: Option<String>,
}

/// An envelope whose origin is known.
#[derive(Debug)]
pub enum LambdaRequest {
    ApiGatewayV1(ApiGatewayV1Request),
    ApiGatewayV2(ApiGatewayV2Request),
    Alb(AlbRequest),
    WebSocket(WebSocketRequest),
}

/// The model of an optional text.
pub open spec fn text_of(text: Option<String>) -> Option<Seq<char>> {
    match text {
        Some(s) => Some(s@),
        None => None,
    }
}

/// The origin whose shape `raw` has. Each origin is known by one field that no
/// other origin sends, and needs its method: the load balancer by its target
/// group, the REST-style gateway by its resource template, the HTTP-style gateway
/// by its raw path, the websocket gateway by its connection id. An envelope with
/// none of the four marks, with more than one, or without the method of its
/// origin has no shape.
pub open spec fn shape_of(raw: RawEnvelope) -> Option<RequestOrigin> {
    let alb = raw.elb_target_group_arn is Some;
    let v1 = raw.resource is Some;
    let v2 = raw.raw_path is Some;
    let socket = raw.connection_id is Some;
    if alb && !v1 && !v2 && !socket && raw.http_method is Some {
        Some(RequestOrigin::Alb)
    } else if v1 && !alb && !v2 && !socket && raw.http_method is Some {
        Some(RequestOrigin::ApiGatewayV1)
    } else if v2 && !alb && !v1 && !socket && raw.context_http_method is Some {
        Some(RequestOrigin::ApiGatewayV2)
    } else if socket && !alb && !v1 && !v2 {
        Some(RequestOrigin::WebSocket)
    } else {
        None
    }
}

/// The envelope of origin `origin` that holds the fields of `raw`.
pub open spec fn envelope_of(raw: RawEnvelope, origin: RequestOrigin) -> LambdaRequest {
    match origin {
        RequestOrigin::Alb => LambdaRequest::Alb(
            AlbRequest {
                http_method: raw.http_method->0,
                path: raw.path,
                query_string_parameters: raw.query_string_parameters,
                multi_value_query_string_parameters: raw.multi_value_query_string_parameters,
                headers: raw.headers,
                multi_value_headers: raw.multi_value_headers,
                target_group_arn: raw.elb_target_group_arn->0,
                is_base64_encoded: raw.is_base64_encoded,
                body: raw.body,
            },
        ),
        RequestOrigin::ApiGatewayV1 => LambdaRequest::ApiGatewayV1(
            ApiGatewayV1Request {
                resource: raw.resource->0,
                path: raw.path,
                http_method: raw.http_method->0,
                query_string_parameters: raw.query_string_parameters,
                multi_value_query_string_parameters: raw.multi_value_query_string_parameters,
                headers: raw.headers,
                multi_value_headers: raw.multi_value_headers,
                path_parameters: raw.path_parameters,
                stage: raw.stage,
                is_base64_encoded: raw.is_base64_encoded,
                body: raw.body,
            },
        ),
        RequestOrigin::ApiGatewayV2 => LambdaRequest::ApiGatewayV2(
            ApiGatewayV2Request {
                route_key: raw.route_key,
                raw_path: raw.raw_path->0,
                http_method: raw.context_http_method->0,
                query_string_parameters: raw.query_string_parameters,
                headers: raw.headers,
                path_parameters: raw.path_parameters,
                stage: raw.stage,
                is_base64_encoded: raw.is_base64_encoded,
                body: raw.body,
            },
        ),
        RequestOrigin::WebSocket => LambdaRequest::WebSocket(
            WebSocketRequest {
                connection_id: raw.connection_id->0,
                route_key: raw.route_key,
                http_method: raw.http_method,
                path: raw.path,
                query_string_parameters: raw.query_string_parameters,
                headers: raw.headers,
                stage: raw.stage,
                is_base64_encoded: raw.is_base64_encoded,
                body: raw.body,
            },
        ),
    }
}

impl RawEnvelope {
    /// An envelope in which every field is absent or empty.
    pub fn new() -> (r: RawEnvelope)
        ensures
            r.http_method is None,
            r.path is None,
            r.raw_path is None,
            r.resource is None,
            r.route_key is None,
            r.stage is None,
            r.elb_target_group_arn is None,
            r.context_http_method is None,
            r.connection_id is None,
            r.headers@.len() == 0,
            r.multi_value_headers@.len() == 0,
            r.query_string_parameters@.len() == 0,
            r.multi_value_query_string_parameters@.len() == 0,
            r.path_parameters@.len() == 0,
            r.body is None,
            !r.is_base64_encoded,
            shape_of(r) is None,
    {
        RawEnvelope {
            http_method: None,
            path: None,
            raw_path: None,
            resource: None,
            route_key: None,
            stage: None,
            elb_target_group_arn: None,
            context_http_method: None,
            connection_id: None,
            headers: StrMap::new(),
            multi_value_headers: StrMap::new(),
            query_string_parameters: StrMap::new(),
            multi_value_query_string_parameters: StrMap::new(),
            path_parameters: StrMap::new(),
            body: None,
            is_base64_encoded: false,
        }
    }

    /// The origin whose shape the envelope has, if it has the shape of exactly one.
    pub fn request_origin(&self) -> (r: Option<RequestOrigin>)
        ensures
            r == shape_of(*self),
    {
        let alb = self.elb_target_group_arn.is_some();
        let v1 = self.resource.is_some();
        let v2 = self.raw_path.is_some();
        let socket = self.connection_id.is_some();
        if alb && !v1 && !v2 && !socket && self.http_method.is_some() {
            Some(RequestOrigin::Alb)
        } else if v1 && !alb && !v2 && !socket && self.http_method.is_some() {
            Some(RequestOrigin::ApiGatewayV1)
        } else if v2 && !alb && !v1 && !socket && self.context_http_method.is_some() {
            Some(RequestOrigin::ApiGatewayV2)
        } else if socket && !alb && !v1 && !v2 {
            Some(RequestOrigin::WebSocket)
        } else {
            None
        }
    }
}

impl LambdaRequest {
    /// The origin of the envelope.
    pub open spec fn origin(self) -> RequestOrigin {
        match self {
            LambdaRequest::ApiGatewayV1(_) => RequestOrigin::ApiGatewayV1,
            LambdaRequest::ApiGatewayV2(_) => RequestOrigin::ApiGatewayV2,
            LambdaRequest::Alb(_) => RequestOrigin::Alb,
            LambdaRequest::WebSocket(_) => RequestOrigin::WebSocket,
        }
    }

    /// The origin of the envelope.
    pub fn request_origin(&self) -> (r: RequestOrigin)
        ensures
            r == self.origin(),
    {
        match self {
            LambdaRequest::ApiGatewayV1(_) => RequestOrigin::ApiGatewayV1,
            LambdaRequest::ApiGatewayV2(_) => RequestOrigin::ApiGatewayV2,
            LambdaRequest::Alb(_) => RequestOrigin::Alb,
            LambdaRequest::WebSocket(_) => RequestOrigin::WebSocket,
        }
    }

    /// Finds the shape of `raw` and gives the envelope of that origin with the
    /// fields of `raw`. Fails exactly when `raw` has the shape of no origin.
    pub fn from_raw(raw: RawEnvelope) -> (r: Result<LambdaRequest, StructuralParseError>)
        ensures
            match r {
                Ok(envelope) => shape_of(raw) == Some(envelope.origin()) && envelope == envelope_of(
                    raw,
                    envelope.origin(),
                ),
                Err(error) => shape_of(raw) is None && error == StructuralParseError::UnknownShape,
            },
    {
        let origin = match raw.request_origin() {
            Some(origin) => origin,
            None => {
                return Err(StructuralParseError::UnknownShape);
            },
        };
        match origin {
            RequestOrigin::Alb => {
                match (raw.http_method, raw.elb_target_group_arn) {
                    (Some(http_method), Some(target_group_arn)) => Ok(
                        LambdaRequest::Alb(
                            AlbRequest {
                                http_method,
                                path: raw.path,
                                query_string_parameters: raw.query_string_parameters,
                                multi_value_query_string_parameters: raw.multi_value_query_string_parameters,
                                headers: raw.headers,
                                multi_value_headers: raw.multi_value_headers,
                                target_group_arn,
                                is_base64_encoded: raw.is_base64_encoded,
                                body: raw.body,
                            },
                        ),
                    ),
                    _ => Err(StructuralParseError::UnknownShape),
                }
            },
            RequestOrigin::ApiGatewayV1 => {
                match (raw.http_method, raw.resource) {
                    (Some(http_method), Some(resource)) => Ok(
                        LambdaRequest::ApiGatewayV1(
                            ApiGatewayV1Request {
                                resource,
                                path: raw.path,
                                http_method,
                                query_string_parameters: raw.query_string_parameters,
                                multi_value_query_string_parameters: raw.multi_value_query_string_parameters,
                                headers: raw.headers,
                                multi_value_headers: raw.multi_value_headers,
                                path_parameters: raw.path_parameters,
                                stage: raw.stage,
                                is_base64_encoded: raw.is_base64_encoded,
                                body: raw.body,
                            },
                        ),
                    ),
                    _ => Err(StructuralParseError::UnknownShape),
                }
            },
            RequestOrigin::ApiGatewayV2 => {
                match (raw.context_http_method, raw.raw_path) {
                    (Some(http_method), Some(raw_path)) => Ok(
                        LambdaRequest::ApiGatewayV2(
                            ApiGatewayV2Request {
                                route_key: raw.route_key,
                                raw_path,
                                http_method,
                                query_string_parameters: raw.query_string_parameters,
                                headers: raw.headers,
                                path_parameters: raw.path_parameters,
                                stage: raw.stage,
                                is_base64_encoded: raw.is_base64_encoded,
                                body: raw.body,
                            },
                        ),
                    ),
                    _ => Err(StructuralParseError::UnknownShape),
                }
            },
            RequestOrigin::WebSocket => {
                match raw.connection_id {
                    Some(connection_id) => Ok(
                        LambdaRequest::WebSocket(
                            WebSocketRequest {
                                connection_id,
                                route_key: raw.route_key,
                                http_method: raw.http_method,
                                path: raw.path,
                                query_string_parameters: raw.query_string_parameters,
                                headers: raw.headers,
                                stage: raw.stage,
                                is_base64_encoded: raw.is_base64_encoded,
                                body: raw.body,
                            },
                        ),
                    ),
                    None => Err(StructuralParseError::UnknownShape),
                }
            },
        }
    }
}

/// The bytes of an envelope body: nothing for an absent body, the decoded bytes
/// for a body flagged as base64, else the text as it is. `None` where the flag is
/// set and the text is not well-formed base64.
pub open spec fn decoded_body(body: Option<Seq<char>>, is_base64: bool) -> Option<Seq<u8>> {
    match body {
        None => Some(Seq::empty()),
        Some(text) => if is_base64 {
            base64_decoding(text)
        } else {
            Some(encode_utf8(text))
        },
    }
}

/// One query parameter as it stands in a URI: name and value form-urlencoded,
/// with `=` between them.
pub open spec fn query_pair(e: (Seq<char>, Seq<char>)) -> Seq<char> {
    form_encoding(encode_utf8(e.0)) + "="@ + form_encoding(encode_utf8(e.1))
}

/// The query string of the parameters `q`: the pairs in order, with `&` between them.
pub open spec fn query_string(q: Pairs) -> Seq<char>
    decreases q.len(),
{
    if q.len() == 0 {
        Seq::empty()
    } else if q.len() == 1 {
        query_pair(q.last())
    } else {
        query_string(q.drop_last()) + "&"@ + query_pair(q.last())
    }
}

/// The URI of a request: the path alone where there are no query parameters,
/// else the path, `?` and the query string.
pub open spec fn uri_of(path: Seq<char>, q: Pairs) -> Seq<char> {
    if q.len() == 0 {
        path
    } else {
        path + "?"@ + query_string(q)
    }
}

/// The bytes of an envelope body, or the error for a body that is flagged base64
/// and does not decode.
pub fn decode_body(body: &Option<String>, is_base64: bool) -> (r: Result<
    Vec<u8>,
    StructuralParseError,
>)
    ensures
        match r {
            Ok(bytes) => decoded_body(text_of(*body), is_base64) == Some(bytes@),
            Err(error) => decoded_body(text_of(*body), is_base64) is None && error
                == StructuralParseError::InvalidBody,
        },
{
    match body {
        None => Ok(Vec::new()),
        Some(text) => {
            if is_base64 {
                match base64_decode(text.as_str()) {
                    Ok(bytes) => Ok(bytes),
                    Err(_) => Err(StructuralParseError::InvalidBody),
                }
            } else {
                Ok(text.as_str().as_bytes_vec())
            }
        },
    }
}

/// The URI made of `path` and the query parameters `query`.
pub fn build_uri(path: &str, query: &StrMap) -> (r: String)
    ensures
        r@ == uri_of(path@, query@),
{
    let mut uri = path.to_owned();
    if query.len() == 0 {
        return uri;
    }
    uri.append("?");
    let mut i: usize = 0;
    while i < query.len()
        invariant
            i <= query@.len(),
            query@.len() > 0,
            uri@ == path@ + "?"@ + query_string(query@.take(i as int)),
        decreases query@.len() - i,
    {
        proof {
            let next = query@.take(i + 1);
            assert(next.drop_last() =~= query@.take(i as int));
            assert(next.last() == query@[i as int]);
        }
        if i > 0 {
            uri.append("&");
        }
        if let Some((name, value)) = query.get(i) {
            uri.append(form_encode(name).as_str());
            uri.append("=");
            uri.append(form_encode(value).as_str());
        }
        assert(uri@ =~= path@ + "?"@ + query_string(query@.take(i + 1)));
        i += 1;
    }
    assert(query@.take(i as int) =~= query@);
    uri
}

impl LambdaRequest {
    /// The method of the request. The websocket gateway may leave it out: `GET` then.
    pub open spec fn method_text(self) -> Seq<char> {
        match self {
            LambdaRequest::ApiGatewayV1(e) => e.http_method@,
            LambdaRequest::ApiGatewayV2(e) => e.http_method@,
            LambdaRequest::Alb(e) => e.http_method@,
            LambdaRequest::WebSocket(e) => match e.http_method {
                Some(method) => method@,
                None => "GET"@,
            },
        }
    }

    /// The path of the request; empty where the envelope holds none.
    pub open spec fn path_text(self) -> Seq<char> {
        match self {
            LambdaRequest::ApiGatewayV1(e) => match e.path {
                Some(path) => path@,
                None => Seq::empty(),
            },
            LambdaRequest::ApiGatewayV2(e) => e.raw_path@,
            LambdaRequest::Alb(e) => match e.path {
                Some(path) => path@,
                None => Seq::empty(),
            },
            LambdaRequest::WebSocket(e) => match e.path {
                Some(path) => path@,
                None => Seq::empty(),
            },
        }
    }

    /// The query parameters of the request, single-valued and multi-valued
    /// renderings merged into one collection.
    pub open spec fn query_pairs(self) -> Pairs {
        match self {
            LambdaRequest::ApiGatewayV1(e) => merge(
                e.multi_value_query_string_parameters@,
                e.query_string_parameters@,
            ),
            LambdaRequest::ApiGatewayV2(e) => e.query_string_parameters@,
            LambdaRequest::Alb(e) => merge(
                e.multi_value_query_string_parameters@,
                e.query_string_parameters@,
            ),
            LambdaRequest::WebSocket(e) => e.query_string_parameters@,
        }
    }

    /// The headers of the request with names in lower case, single-valued and
    /// multi-valued renderings merged into one collection.
    pub open spec fn header_pairs(self) -> Pairs {
        match self {
            LambdaRequest::ApiGatewayV1(e) => merge(
                lowercase_names(e.multi_value_headers@),
                lowercase_names(e.headers@),
            ),
            LambdaRequest::ApiGatewayV2(e) => lowercase_names(e.headers@),
            LambdaRequest::Alb(e) => merge(
                lowercase_names(e.multi_value_headers@),
                lowercase_names(e.headers@),
            ),
            LambdaRequest::WebSocket(e) => lowercase_names(e.headers@),
        }
    }

    /// The named path segments that the routing layer of the origin found; none
    /// for an origin without such a layer.
    pub open spec fn path_parameter_pairs(self) -> Pairs {
        match self {
            LambdaRequest::ApiGatewayV1(e) => e.path_parameters@,
            LambdaRequest::ApiGatewayV2(e) => e.path_parameters@,
            LambdaRequest::Alb(_) => Seq::empty(),
            LambdaRequest::WebSocket(_) => Seq::empty(),
        }
    }

    /// The body text of the envelope.
    pub open spec fn body_text(self) -> Option<Seq<char>> {
        match self {
            LambdaRequest::ApiGatewayV1(e) => text_of(e.body),
            LambdaRequest::ApiGatewayV2(e) => text_of(e.body),
            LambdaRequest::Alb(e) => text_of(e.body),
            LambdaRequest::WebSocket(e) => text_of(e.body),
        }
    }

    /// Whether the body text is flagged as base64.
    pub open spec fn body_is_base64(self) -> bool {
        match self {
            LambdaRequest::ApiGatewayV1(e) => e.is_base64_encoded,
            LambdaRequest::ApiGatewayV2(e) => e.is_base64_encoded,
            LambdaRequest::Alb(e) => e.is_base64_encoded,
            LambdaRequest::WebSocket(e) => e.is_base64_encoded,
        }
    }

    /// The connection that a websocket envelope belongs to.
    pub open spec fn connection_text(self) -> Option<Seq<char>> {
        match self {
            LambdaRequest::WebSocket(e) => Some(e.connection_id@),
            _ => None,
        }
    }

    /// The path template under which the REST-style gateway routed the request.
    pub open spec fn resource_text(self) -> Option<Seq<char>> {
        match self {
            LambdaRequest::ApiGatewayV1(e) => Some(e.resource@),
            _ => None,
        }
    }

    /// The canonical request that stands for the envelope, given the bytes of its body.
    pub open spec fn normalized(self, context: Context, body: Seq<u8>) -> RequestView {
        RequestView {
            method: self.method_text(),
            uri: uri_of(self.path_text(), self.query_pairs()),
            headers: self.header_pairs(),
            body,
            origin: self.origin(),
            context,
            query: self.query_pairs(),
            path_parameters: self.path_parameter_pairs(),
            connection_id: self.connection_text(),
            resource: self.resource_text(),
        }
    }

    /// Turns the envelope into the canonical request and attaches `context` and
    /// the origin to it. Fails exactly when the body is flagged as base64 and
    /// does not decode.
    pub fn into_request(self, context: Context) -> (r: Result<Request, StructuralParseError>)
        ensures
            match r {
                Ok(request) => decoded_body(self.body_text(), self.body_is_base64()) matches Some(
                    body,
                ) && request@ == self.normalized(context, body),
                Err(error) => decoded_body(self.body_text(), self.body_is_base64()) is None
                    && error == StructuralParseError::InvalidBody,
            },
    {
        match self {
            LambdaRequest::ApiGatewayV1(e) => {
                let body = decode_body(&e.body, e.is_base64_encoded)?;
                let query = e.multi_value_query_string_parameters.merged_with(
                    &e.query_string_parameters,
                );
                let path = match e.path {
                    Some(path) => path,
                    None => String::new(),
                };
                Ok(
                    Request {
                        method: e.http_method,
                        uri: build_uri(path.as_str(), &query),
                        headers: Headers::merged(&e.multi_value_headers, &e.headers),
                        body,
                        origin: RequestOrigin::ApiGatewayV1,
                        context,
                        query,
                        path_parameters: e.path_parameters,
                        connection_id: None,
                        resource: Some(e.resource),
                    },
                )
            },
            LambdaRequest::ApiGatewayV2(e) => {
                let body = decode_body(&e.body, e.is_base64_encoded)?;
                Ok(
                    Request {
                        method: e.http_method,
                        uri: build_uri(e.raw_path.as_str(), &e.query_string_parameters),
                        headers: Headers::from_map(&e.headers),
                        body,
                        origin: RequestOrigin::ApiGatewayV2,
                        context,
                        query: e.query_string_parameters,
                        path_parameters: e.path_parameters,
                        connection_id: None,
                        resource: None,
                    },
                )
            },
            LambdaRequest::Alb(e) => {
                let body = decode_body(&e.body, e.is_base64_encoded)?;
                let query = e.multi_value_query_string_parameters.merged_with(
                    &e.query_string_parameters,
                );
                let path = match e.path {
                    Some(path) => path,
                    None => String::new(),
                };
                Ok(
                    Request {
                        method: e.http_method,
                        uri: build_uri(path.as_str(), &query),
                        headers: Headers::merged(&e.multi_value_headers, &e.headers),
                        body,
                        origin: RequestOrigin::Alb,
                        context,
                        query,
                        path_parameters: StrMap::new(),
                        connection_id: None,
                        resource: None,
                    },
                )
            },
            LambdaRequest::WebSocket(e) => {
                let body = decode_body(&e.body, e.is_base64_encoded)?;
                let path = match e.path {
                    Some(path) => path,
                    None => String::new(),
                };
                let method = match e.http_method {
                    Some(method) => method,
                    None => "GET".to_owned(),
                };
                Ok(
                    Request {
                        method,
                        uri: build_uri(path.as_str(), &e.query_string_parameters),
                        headers: Headers::from_map(&e.headers),
                        body,
                        origin: RequestOrigin::WebSocket,
                        context,
                        query: e.query_string_parameters,
                        path_parameters: StrMap::new(),
                        connection_id: Some(e.connection_id),
                        resource: None,
                    },
                )
            },
        }
    }
}

/// What turning `raw` into a request gives: the request that stands for the
/// envelope of the one origin whose shape `raw` has, or the reason why there is none.
pub open spec fn normalization(raw: RawEnvelope, context: Context) -> Result<
    RequestView,
    StructuralParseError,
> {
    match shape_of(raw) {
        None => Err(StructuralParseError::UnknownShape),
        Some(origin) => {
            let envelope = envelope_of(raw, origin);
            match decoded_body(envelope.body_text(), envelope.body_is_base64()) {
                None => Err(StructuralParseError::InvalidBody),
                Some(body) => Ok(envelope.normalized(context, body)),
            }
        },
    }
}

/// Turns an envelope as it arrived into the canonical request: finds its origin
/// by its shape, decodes the body, merges parameters and headers, builds the URI
/// and attaches the origin and `context`. Fails when the envelope has the shape
/// of no origin, and when its body is flagged as base64 and does not decode.
pub fn normalize(raw: RawEnvelope, context: Context) -> (r: Result<Request, StructuralParseError>)
    ensures
        match r {
            Ok(request) => normalization(raw, context) is Ok && normalization(raw, context)->Ok_0
                == request@,
            Err(error) => normalization(raw, context) is Err && normalization(raw, context)->Err_0
                == error,
        },
{
    match LambdaRequest::from_raw(raw) {
        Ok(envelope) => envelope.into_request(context),
        Err(error) => Err(error),
    }
}

/// The canonical request: what a handler sees, whatever the trigger. Beside the
/// HTTP data it holds what was attached when the envelope was turned into it: the
/// origin, the execution context, the parsed parameters and what the reply to
/// the origin needs. Nothing of it can be changed afterwards.
#[derive(Debug)]
pub struct Request {
    method: String,
    uri: String,
    headers: Headers,
    body: Vec<u8>,
    origin: RequestOrigin,
    context: Context,
    query: StrMap,
    path_parameters: StrMap,
    connection_id: Option<String>,
    resource: Option<String>,
}

/// The model of a canonical request.
#[verifier::ext_equal]
pub struct RequestView {
    /// The HTTP method.
    pub method: Seq<char>,
    /// The path, and the query string where there are query parameters.
    pub uri: Seq<char>,
    /// The header lines in order, names in lower case.
    pub headers: Pairs,
    /// The bytes of the body.
    pub body: Seq<u8>,
    /// The trigger that the request came from.
    pub origin: RequestOrigin,
    /// The execution context of the invocation.
    pub context: Context,
    /// The query parameters in order.
    pub query: Pairs,
    /// The named path segments.
    pub path_parameters: Pairs,
    /// The websocket connection that a reply goes to.
    pub connection_id: Option<Seq<char>>,
    /// The path template under which the request was routed.
    pub resource: Option<Seq<char>>,
}

impl View for Request {
    type V = RequestView;

    closed spec fn view(&self) -> RequestView {
        RequestView {
            method: self.method@,
            uri: self.uri@,
            headers: self.headers@,
            body: self.body@,
            origin: self.origin,
            context: self.context,
            query: self.query@,
            path_parameters: self.path_parameters@,
            connection_id: text_of(self.connection_id),
            resource: text_of(self.resource),
        }
    }
}

/// What the reply to an invocation needs from its request: the origin, the
/// connection of a websocket request and the path template of a request that
/// the REST-style gateway routed.
#[derive(Debug)]
pub struct ReplyContext {
    origin: RequestOrigin,
    connection_id: Option<String>,
    resource: Option<String>,
}

/// The model of a `ReplyContext`.
#[verifier::ext_equal]
pub struct ReplyContextView {
    /// The trigger that the request came from.
    pub origin: RequestOrigin,
    /// The websocket connection that the reply goes to.
    pub connection_id: Option<Seq<char>>,
    /// The path template under which the request was routed.
    pub resource: Option<Seq<char>>,
}

impl View for ReplyContext {
    type V = ReplyContextView;

    closed spec fn view(&self) -> ReplyContextView {
        ReplyContextView {
            origin: self.origin,
            connection_id: text_of(self.connection_id),
            resource: text_of(self.resource),
        }
    }
}

/// What the reply to `request` needs.
pub open spec fn reply_context_of(request: RequestView) -> ReplyContextView {
    ReplyContextView {
        origin: request.origin,
        connection_id: request.connection_id,
        resource: request.resource,
    }
}

impl ReplyContext {
    /// The trigger that the request came from.
    pub fn origin(&self) -> (r: RequestOrigin)
        ensures
            r == self@.origin,
    {
        self.origin
    }

    /// The websocket connection that the reply goes to.
    pub fn connection_id(&self) -> (r: Option<&str>)
        ensures
            match r {
                Some(id) => self@.connection_id == Some(id@),
                None => self@.connection_id is None,
            },
    {
        match &self.connection_id {
            Some(id) => Some(id.as_str()),
            None => None,
        }
    }

    /// The path template under which the request was routed.
    pub fn resource(&self) -> (r: Option<&str>)
        ensures
            match r {
                Some(template) => self@.resource == Some(template@),
                None => self@.resource is None,
            },
    {
        match &self.resource {
            Some(template) => Some(template.as_str()),
            None => None,
        }
    }
}

impl Request {
    /// The HTTP method.
    pub fn method(&self) -> (r: &str)
        ensures
            r@ == self@.method,
    {
        self.method.as_str()
    }

    /// The path, and the query string where there are query parameters.
    pub fn uri(&self) -> (r: &str)
        ensures
            r@ == self@.uri,
    {
        self.uri.as_str()
    }

    /// The headers.
    pub fn headers(&self) -> (r: &Headers)
        ensures
            r@ == self@.headers,
    {
        &self.headers
    }

    /// The bytes of the body.
    pub fn body(&self) -> (r: &Vec<u8>)
        ensures
            r@ == self@.body,
    {
        &self.body
    }

    /// The trigger that the request came from.
    pub fn request_origin(&self) -> (r: RequestOrigin)
        ensures
            r == self@.origin,
    {
        self.origin
    }

    /// The query parameters, whether or not there are any.
    pub fn query_string_parameters(&self) -> (r: &StrMap)
        ensures
            r@ == self@.query,
    {
        &self.query
    }

    /// The named path segments; empty for an origin that finds none.
    pub fn path_parameters(&self) -> (r: &StrMap)
        ensures
            r@ == self@.path_parameters,
    {
        &self.path_parameters
    }

    /// The execution context that was attached when the envelope was turned into
    /// the request.
    pub fn lambda_context(&self) -> (r: &Context)
        ensures
            *r == self@.context,
    {
        &self.context
    }

    /// The path template under which the REST-style gateway routed the request;
    /// `None` for a request of another origin.
    pub fn resource(&self) -> (r: Option<&str>)
        ensures
            match r {
                Some(template) => self@.resource == Some(template@),
                None => self@.resource is None,
            },
    {
        match &self.resource {
            Some(template) => Some(template.as_str()),
            None => None,
        }
    }

    /// What the reply to this request needs.
    pub fn reply_context(&self) -> (r: ReplyContext)
        ensures
            r@ == reply_context_of(self@),
    {
        let connection_id = match &self.connection_id {
            Some(id) => Some(id.clone()),
            None => None,
        };
        let resource = match &self.resource {
            Some(template) => Some(template.clone()),
            None => None,
        };
        ReplyContext { origin: self.origin, connection_id, resource }
    }
}

} // verus!
