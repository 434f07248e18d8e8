use lambda_http::request::{
    normalize, LambdaRequest, RawEnvelope, Request, RequestOrigin, StructuralParseError,
};
use lambda_http::strmap::StrMap;
use lambda_runtime::Context;

fn map_of(pairs: &[(&str, &str)]) -> StrMap {
    let mut map = StrMap::new();
    for (name, value) in pairs {
        map.append(name, value);
    }
    map
}

fn text(value: &str) -> Option<String> {
    Some(value.to_string())
}

fn alb_envelope() -> RawEnvelope {
    let mut raw = RawEnvelope::new();
    raw.http_method = text("GET");
    raw.path = text("/items");
    raw.elb_target_group_arn = text("arn:aws:elasticloadbalancing:region:1:targetgroup/t/1");
    raw
}

fn v1_envelope() -> RawEnvelope {
    let mut raw = RawEnvelope::new();
    raw.http_method = text("POST");
    raw.path = text("/prod/items/7");
    raw.resource = text("/items/{id}");
    raw.stage = text("prod");
    raw
}

fn v2_envelope() -> RawEnvelope {
    let mut raw = RawEnvelope::new();
    raw.raw_path = text("/hello");
    raw.route_key = text("GET /hello");
    raw.context_http_method = text("GET");
    raw
}

fn socket_envelope() -> RawEnvelope {
    let mut raw = RawEnvelope::new();
    raw.connection_id = text("conn-1");
    raw.route_key = text("$default");
    raw
}

fn request_of(raw: RawEnvelope) -> Request {
    normalize(raw, Context::default()).expect("the envelope has a known shape")
}

#[test]
fn each_shape_is_recognized() {
    assert_eq!(alb_envelope().request_origin(), Some(RequestOrigin::Alb));
    assert_eq!(v1_envelope().request_origin(), Some(RequestOrigin::ApiGatewayV1));
    assert_eq!(v2_envelope().request_origin(), Some(RequestOrigin::ApiGatewayV2));
    assert_eq!(socket_envelope().request_origin(), Some(RequestOrigin::WebSocket));
}

#[test]
fn typed_envelope_has_the_origin_of_its_shape() {
    let cases = [
        (alb_envelope(), RequestOrigin::Alb),
        (v1_envelope(), RequestOrigin::ApiGatewayV1),
        (v2_envelope(), RequestOrigin::ApiGatewayV2),
        (socket_envelope(), RequestOrigin::WebSocket),
    ];
    for (raw, origin) in cases {
        let envelope = LambdaRequest::from_raw(raw).unwrap();
        assert_eq!(envelope.request_origin(), origin);
        assert_eq!(envelope.into_request(Context::default()).unwrap().request_origin(), origin);
    }
}

#[test]
fn typed_envelope_holds_the_fields_of_the_raw_one() {
    let mut raw = v1_envelope();
    raw.headers.append("Host", "example.org");
    raw.path_parameters.append("id", "7");
    raw.body = text("{}");
    match LambdaRequest::from_raw(raw).unwrap() {
        LambdaRequest::ApiGatewayV1(envelope) => {
            assert_eq!(envelope.http_method, "POST");
            assert_eq!(envelope.path, text("/prod/items/7"));
            assert_eq!(envelope.resource, "/items/{id}");
            assert_eq!(envelope.stage, text("prod"));
            assert_eq!(envelope.headers, map_of(&[("Host", "example.org")]));
            assert_eq!(envelope.path_parameters, map_of(&[("id", "7")]));
            assert_eq!(envelope.body, text("{}"));
            assert!(!envelope.is_base64_encoded);
        }
        other => panic!("wrong shape: {:?}", other),
    }
}

#[test]
fn envelope_of_no_shape_is_rejected() {
    let raw = RawEnvelope::new();
    assert_eq!(raw.request_origin(), None);
    assert_eq!(
        normalize(raw, Context::default()).unwrap_err(),
        StructuralParseError::UnknownShape
    );
    let mut raw = RawEnvelope::new();
    raw.http_method = text("GET");
    raw.path = text("/");
    raw.body = text("command");
    assert_eq!(
        LambdaRequest::from_raw(raw).unwrap_err(),
        StructuralParseError::UnknownShape
    );
}

#[test]
fn envelope_of_two_shapes_is_rejected() {
    let mut raw = alb_envelope();
    raw.connection_id = text("conn-1");
    assert_eq!(raw.request_origin(), None);
    assert_eq!(
        normalize(raw, Context::default()).unwrap_err(),
        StructuralParseError::UnknownShape
    );
    let mut raw = v1_envelope();
    raw.raw_path = text("/hello");
    raw.context_http_method = text("GET");
    assert_eq!(
        normalize(raw, Context::default()).unwrap_err(),
        StructuralParseError::UnknownShape
    );
}

#[test]
fn envelope_without_its_method_is_rejected() {
    let mut raw = alb_envelope();
    raw.http_method = None;
    assert_eq!(
        normalize(raw, Context::default()).unwrap_err(),
        StructuralParseError::UnknownShape
    );
    let mut raw = v1_envelope();
    raw.http_method = None;
    assert_eq!(
        normalize(raw, Context::default()).unwrap_err(),
        StructuralParseError::UnknownShape
    );
    let mut raw = v2_envelope();
    raw.context_http_method = None;
    raw.http_method = text("GET");
    assert_eq!(
        normalize(raw, Context::default()).unwrap_err(),
        StructuralParseError::UnknownShape
    );
}

#[test]
fn body_that_does_not_decode_is_rejected() {
    let mut raw = v2_envelope();
    raw.body = text("not base64!");
    raw.is_base64_encoded = true;
    assert_eq!(
        normalize(raw, Context::default()).unwrap_err(),
        StructuralParseError::InvalidBody
    );
}

#[test]
fn error_messages() {
    assert_eq!(
        StructuralParseError::UnknownShape.message(),
        "envelope matches no known trigger shape"
    );
    assert_eq!(
        StructuralParseError::InvalidBody.message(),
        "body is flagged base64 but does not decode"
    );
}

#[test]
fn gateway_v2_request_with_query() {
    let mut raw = v2_envelope();
    raw.query_string_parameters.append("first_name", "Foo");
    raw.headers.append("Host", "example.org");
    let request = request_of(raw);
    assert_eq!(request.method(), "GET");
    assert_eq!(request.uri(), "/hello?first_name=Foo");
    assert_eq!(request.request_origin(), RequestOrigin::ApiGatewayV2);
    assert_eq!(request.headers().get("host"), Some("example.org"));
    assert_eq!(request.body(), &Vec::<u8>::new());
    assert_eq!(request.query_parameter("first_name"), Some("Foo"));
    assert_eq!(request.query_parameter("last_name"), None);
    assert_eq!(request.query_parameter_values("last_name"), None);
}

#[test]
fn query_lookup_returns_first_value_and_all_values() {
    let mut raw = alb_envelope();
    raw.multi_value_headers.append("Accept", "a");
    raw.multi_value_headers.append("Accept", "b");
    raw.multi_value_query_string_parameters.append("tag", "x");
    raw.multi_value_query_string_parameters.append("tag", "y");
    raw.query_string_parameters.append("tag", "y");
    raw.headers.append("accept", "b");
    let request = request_of(raw);
    assert_eq!(request.request_origin(), RequestOrigin::Alb);
    assert_eq!(request.query_parameter_values("tag"), Some(vec!["x", "y"]));
    assert_eq!(request.query_parameter("tag"), Some("x"));
    assert_eq!(request.headers().get_all("accept"), Some(vec!["a", "b"]));
    assert_eq!(request.headers().get("Accept"), Some("a"));
    assert_eq!(request.uri(), "/items?tag=x&tag=y");
}

#[test]
fn single_valued_rendering_fills_in_missing_names() {
    let mut raw = v1_envelope();
    raw.multi_value_query_string_parameters.append("tag", "x");
    raw.query_string_parameters.append("tag", "x");
    raw.query_string_parameters.append("page", "2");
    raw.multi_value_headers.append("Accept", "a");
    raw.headers.append("Host", "example.org");
    let request = request_of(raw);
    assert_eq!(
        request.query_string_parameters(),
        &map_of(&[("tag", "x"), ("page", "2")])
    );
    assert_eq!(
        request.headers().as_map(),
        &map_of(&[("accept", "a"), ("host", "example.org")])
    );
    assert_eq!(request.uri(), "/prod/items/7?tag=x&page=2");
}

#[test]
fn query_parameters_ref_is_none_without_parameters() {
    let request = request_of(v2_envelope());
    assert!(request.query_string_parameters_ref().is_none());
    assert!(request.query_string_parameters().is_empty());
    assert_eq!(request.uri(), "/hello");
    let mut raw = v2_envelope();
    raw.query_string_parameters.append("a", "1");
    let request = request_of(raw);
    assert_eq!(request.query_string_parameters_ref(), Some(&map_of(&[("a", "1")])));
}

#[test]
fn path_parameters_come_from_the_gateways_only() {
    let mut raw = v1_envelope();
    raw.path_parameters.append("id", "7");
    let request = request_of(raw);
    assert_eq!(request.path_parameter("id"), Some("7"));
    assert_eq!(request.path_parameter("name"), None);
    assert_eq!(request.path_parameters_ref(), Some(&map_of(&[("id", "7")])));

    let mut raw = v2_envelope();
    raw.path_parameters.append("proxy", "a/b");
    assert_eq!(request_of(raw).path_parameter("proxy"), Some("a/b"));

    let mut raw = alb_envelope();
    raw.path_parameters.append("id", "7");
    let request = request_of(raw);
    assert_eq!(request.path_parameter("id"), None);
    assert!(request.path_parameters_ref().is_none());

    let mut raw = socket_envelope();
    raw.path_parameters.append("id", "7");
    assert!(request_of(raw).path_parameters().is_empty());
}

#[test]
fn execution_context_is_attached_unchanged() {
    let mut context = Context::default();
    context.request_id = "ID".to_string();
    context.deadline = 1_524_000;
    context.invoked_function_arn = "arn:aws:lambda:region:1:function:f".to_string();
    let request = normalize(v2_envelope(), context.clone()).unwrap();
    assert_eq!(request.lambda_context(), &context);
    assert_eq!(request.lambda_context().request_id, "ID");
}

#[test]
fn plain_body_is_taken_as_bytes() {
    let mut raw = v1_envelope();
    raw.body = text("{\"a\": \"\u{e4}\"}");
    assert_eq!(request_of(raw).body(), &"{\"a\": \"\u{e4}\"}".as_bytes().to_vec());
}

#[test]
fn flagged_body_is_decoded() {
    let mut raw = alb_envelope();
    raw.body = text("//79");
    raw.is_base64_encoded = true;
    assert_eq!(request_of(raw).body(), &vec![0xff, 0xfe, 0xfd]);
    let mut raw = socket_envelope();
    raw.body = text("aGVsbG8=");
    raw.is_base64_encoded = true;
    assert_eq!(request_of(raw).body(), &b"hello".to_vec());
}

#[test]
fn websocket_request_defaults_to_get() {
    let request = request_of(socket_envelope());
    assert_eq!(request.method(), "GET");
    assert_eq!(request.uri(), "");
    assert_eq!(request.request_origin(), RequestOrigin::WebSocket);
    let mut raw = socket_envelope();
    raw.http_method = text("POST");
    raw.path = text("/chat");
    let request = request_of(raw);
    assert_eq!(request.method(), "POST");
    assert_eq!(request.uri(), "/chat");
}

#[test]
fn reply_context_records_origin_and_connection() {
    let context = request_of(socket_envelope()).reply_context();
    assert_eq!(context.origin(), RequestOrigin::WebSocket);
    assert_eq!(context.connection_id(), Some("conn-1"));
    assert_eq!(context.resource(), None);
    let context = request_of(alb_envelope()).reply_context();
    assert_eq!(context.origin(), RequestOrigin::Alb);
    assert_eq!(context.connection_id(), None);
    assert_eq!(context.resource(), None);
    let context = request_of(v1_envelope()).reply_context();
    assert_eq!(context.origin(), RequestOrigin::ApiGatewayV1);
    assert_eq!(context.connection_id(), None);
    assert_eq!(context.resource(), Some("/items/{id}"));
}

#[test]
fn resource_template_is_attached_for_the_rest_gateway_only() {
    assert_eq!(request_of(v1_envelope()).resource(), Some("/items/{id}"));
    assert_eq!(request_of(v2_envelope()).resource(), None);
    assert_eq!(request_of(alb_envelope()).resource(), None);
    assert_eq!(request_of(socket_envelope()).resource(), None);
}

#[test]
fn gateway_v2_ignores_multi_valued_fields() {
    let mut raw = v2_envelope();
    raw.multi_value_headers.append("Accept", "a");
    raw.multi_value_query_string_parameters.append("tag", "x");
    raw.headers.append("Accept", "b");
    let request = request_of(raw);
    assert_eq!(request.headers().get_all("accept"), Some(vec!["b"]));
    assert_eq!(request.query_parameter("tag"), None);
}

#[test]
fn absent_path_is_empty() {
    let mut raw = alb_envelope();
    raw.path = None;
    raw.query_string_parameters.append("a", "b c");
    assert_eq!(request_of(raw).uri(), "?a=b+c");
}

#[test]
fn origins_that_carry_several_values() {
    assert!(RequestOrigin::Alb.supports_multi_value());
    assert!(RequestOrigin::ApiGatewayV1.supports_multi_value());
    assert!(!RequestOrigin::ApiGatewayV2.supports_multi_value());
    assert!(!RequestOrigin::WebSocket.supports_multi_value());
}
