use lambda_http::headers::Headers;
use lambda_http::request::{
    decode_body, normalize, RawEnvelope, ReplyContext, Request, RequestOrigin,
};
use lambda_http::response::{IntoResponse, LambdaResponse, Response};
use lambda_http::strmap::StrMap;
use lambda_runtime::Context;

fn map_of(pairs: &[(&str, &str)]) -> StrMap {
    let mut map = StrMap::new();
    for (name, value) in pairs {
        map.append(name, value);
    }
    map
}

fn text(value: &str) -> Option<String> {
    Some(value.to_string())
}

fn envelope(origin: RequestOrigin) -> RawEnvelope {
    let mut raw = RawEnvelope::new();
    match origin {
        RequestOrigin::Alb => {
            raw.http_method = text("GET");
            raw.path = text("/");
            raw.elb_target_group_arn = text("arn");
        }
        RequestOrigin::ApiGatewayV1 => {
            raw.http_method = text("GET");
            raw.path = text("/");
            raw.resource = text("/");
        }
        RequestOrigin::ApiGatewayV2 => {
            raw.raw_path = text("/");
            raw.context_http_method = text("GET");
        }
        RequestOrigin::WebSocket => {
            raw.connection_id = text("conn-9");
        }
    }
    raw
}

fn request_of(raw: RawEnvelope) -> Request {
    normalize(raw, Context::default()).expect("the envelope has a known shape")
}

fn reply_context(origin: RequestOrigin) -> ReplyContext {
    request_of(envelope(origin)).reply_context()
}

fn headers_of(pairs: &[(&str, &str)]) -> Headers {
    let mut headers = Headers::new();
    for (name, value) in pairs {
        headers.append(name, value);
    }
    headers
}

const ORIGINS: [RequestOrigin; 4] = [
    RequestOrigin::Alb,
    RequestOrigin::ApiGatewayV1,
    RequestOrigin::ApiGatewayV2,
    RequestOrigin::WebSocket,
];

#[test]
fn reply_has_the_shape_of_the_origin() {
    for origin in ORIGINS {
        let reply =
            LambdaResponse::from_response(&reply_context(origin), Response::from_text("ok"));
        assert_eq!(reply.origin(), origin);
        let matches_origin = match (&reply, origin) {
            (LambdaResponse::Alb(_), RequestOrigin::Alb) => true,
            (LambdaResponse::ApiGatewayV1(_), RequestOrigin::ApiGatewayV1) => true,
            (LambdaResponse::ApiGatewayV2(_), RequestOrigin::ApiGatewayV2) => true,
            (LambdaResponse::WebSocket(_), RequestOrigin::WebSocket) => true,
            _ => false,
        };
        assert!(matches_origin);
    }
}

#[test]
fn header_collapse_keeps_the_last_value() {
    for origin in [RequestOrigin::ApiGatewayV2, RequestOrigin::WebSocket] {
        let response = Response::new(200, headers_of(&[("X", "a"), ("X", "b")]), vec![]);
        let reply = LambdaResponse::from_response(&reply_context(origin), response);
        assert_eq!(reply.headers(), &map_of(&[("x", "b")]));
        assert_eq!(reply.headers().all("x"), Some(vec!["b"]));
        assert!(reply.multi_value_headers().is_none());
    }
}

#[test]
fn origins_with_several_values_get_every_header_line() {
    for origin in [RequestOrigin::Alb, RequestOrigin::ApiGatewayV1] {
        let response = Response::new(
            200,
            headers_of(&[("Set-Cookie", "a=1"), ("Content-Type", "text/plain"), ("set-cookie", "b=2")]),
            vec![],
        );
        let reply = LambdaResponse::from_response(&reply_context(origin), response);
        assert_eq!(
            reply.multi_value_headers(),
            Some(&map_of(&[
                ("set-cookie", "a=1"),
                ("content-type", "text/plain"),
                ("set-cookie", "b=2"),
            ]))
        );
        assert_eq!(
            reply.headers(),
            &map_of(&[("set-cookie", "b=2"), ("content-type", "text/plain")])
        );
    }
}

#[test]
fn text_body_is_written_as_text() {
    for origin in ORIGINS {
        let response = Response::from_text("Hello, Foo!");
        let reply = LambdaResponse::from_response(&reply_context(origin), response);
        assert_eq!(reply.status_code(), 200);
        assert_eq!(reply.body(), &text("Hello, Foo!"));
        assert!(!reply.is_base64_encoded());
    }
}

#[test]
fn binary_body_is_written_as_base64() {
    for origin in ORIGINS {
        let body = vec![0x89, b'P', b'N', b'G', 0xff];
        let response = Response::from_bytes(body.clone());
        let reply = LambdaResponse::from_response(&reply_context(origin), response);
        assert!(reply.is_base64_encoded());
        assert_eq!(reply.body(), &text("iVBOR/8="));
        assert_eq!(decode_body(reply.body(), reply.is_base64_encoded()), Ok(body));
    }
}

#[test]
fn empty_body_is_left_out() {
    let reply = LambdaResponse::from_response(
        &reply_context(RequestOrigin::ApiGatewayV1),
        Response::new(204, Headers::new(), vec![]),
    );
    assert_eq!(reply.status_code(), 204);
    assert_eq!(reply.body(), &None);
    assert!(!reply.is_base64_encoded());
}

#[test]
fn encoding_is_derived_from_the_response_not_the_request() {
    let mut raw = envelope(RequestOrigin::ApiGatewayV2);
    raw.body = text("aGVsbG8=");
    raw.is_base64_encoded = true;
    let request = request_of(raw);
    let context = request.reply_context();
    let response = Response::from_bytes(request.body().clone());
    let reply = LambdaResponse::from_response(&context, response);
    assert!(!reply.is_base64_encoded());
    assert_eq!(reply.body(), &text("hello"));
}

#[test]
fn websocket_reply_carries_the_connection() {
    let reply = LambdaResponse::from_response(
        &reply_context(RequestOrigin::WebSocket),
        Response::from_text("pong"),
    );
    match reply {
        LambdaResponse::WebSocket(reply) => {
            assert_eq!(reply.connection_id, text("conn-9"));
            assert_eq!(reply.status_code, 200);
            assert_eq!(reply.body, text("pong"));
            assert!(!reply.is_base64_encoded);
            assert!(reply.headers.is_empty());
        }
        other => panic!("wrong shape: {:?}", other),
    }
}

#[test]
fn status_defaults_to_200() {
    assert_eq!("hello".into_response().status(), 200);
    assert_eq!(String::from("hello").into_response().status(), 200);
    assert_eq!(vec![1u8, 2, 3].into_response().status(), 200);
    assert_eq!(Response::json("{}").status(), 200);
}

#[test]
fn values_that_become_responses() {
    let response = "hello".into_response();
    assert_eq!(response.body(), &b"hello".to_vec());
    assert_eq!(response.headers().len(), 0);

    let response = String::from("\u{1f44b} world!").into_response();
    assert_eq!(response.body(), &"\u{1f44b} world!".as_bytes().to_vec());

    let response = vec![0u8, 159, 146, 150].into_response();
    assert_eq!(response.body(), &vec![0u8, 159, 146, 150]);
    assert_eq!(response.headers().len(), 0);

    let response = Response::new(404, headers_of(&[("A", "b")]), b"gone".to_vec()).into_response();
    assert_eq!(response.status(), 404);
    assert_eq!(response.headers().get("a"), Some("b"));
    assert_eq!(response.body(), &b"gone".to_vec());
}

#[test]
fn json_response_is_marked_by_its_content_type() {
    let response = Response::json("{\"ok\":true}");
    assert_eq!(response.headers().as_map(), &map_of(&[("content-type", "application/json")]));
    assert_eq!(response.body(), &b"{\"ok\":true}".to_vec());
}

#[test]
fn builders_replace_status_and_add_headers() {
    let response = Response::from_text("x")
        .with_status(418)
        .with_header("X-A", "1")
        .with_header("x-a", "2");
    assert_eq!(response.status(), 418);
    assert_eq!(response.headers().as_map(), &map_of(&[("x-a", "1"), ("x-a", "2")]));
    assert_eq!(response.body(), &b"x".to_vec());
}

#[test]
fn echo_round_trip_for_every_origin() {
    for origin in ORIGINS {
        let mut raw = envelope(origin);
        raw.headers.append("Host", "example.org");
        raw.headers.append("X-Trace", "t");
        raw.body = text("payload \u{e4}");
        let request = request_of(raw);
        let context = request.reply_context();
        let response = Response::new(200, request.headers().duplicate(), request.body().clone());
        let reply = LambdaResponse::from_response(&context, response);
        assert_eq!(reply.origin(), origin);
        assert_eq!(reply.status_code(), 200);
        assert_eq!(reply.headers(), &map_of(&[("host", "example.org"), ("x-trace", "t")]));
        assert_eq!(reply.body(), &text("payload \u{e4}"));
        assert!(!reply.is_base64_encoded());
        assert_eq!(reply.multi_value_headers().is_some(), origin.supports_multi_value());
    }
}

#[test]
fn echo_round_trip_of_a_binary_body() {
    for origin in ORIGINS {
        let mut raw = envelope(origin);
        raw.body = text("/wD+gA==");
        raw.is_base64_encoded = true;
        let request = request_of(raw);
        assert_eq!(request.body(), &vec![0xff, 0x00, 0xfe, 0x80]);
        let context = request.reply_context();
        let response = Response::new(200, request.headers().duplicate(), request.body().clone());
        let reply = LambdaResponse::from_response(&context, response);
        assert!(reply.is_base64_encoded());
        assert_eq!(reply.body(), &text("/wD+gA=="));
        assert_eq!(
            decode_body(reply.body(), reply.is_base64_encoded()),
            Ok(vec![0xff, 0x00, 0xfe, 0x80])
        );
    }
}

#[test]
fn echo_round_trip_of_repeated_headers() {
    let mut raw = envelope(RequestOrigin::Alb);
    raw.multi_value_headers.append("Accept", "a");
    raw.multi_value_headers.append("Accept", "b");
    raw.headers.append("Accept", "b");
    let request = request_of(raw);
    let context = request.reply_context();
    let response = Response::new(200, request.headers().duplicate(), vec![]);
    let reply = LambdaResponse::from_response(&context, response);
    assert_eq!(reply.multi_value_headers(), Some(&map_of(&[("accept", "a"), ("accept", "b")])));
    assert_eq!(reply.headers(), &map_of(&[("accept", "b")]));
}
