use lambda_http::request::{build_uri, decode_body, StructuralParseError};
use lambda_http::response::encode_body;
use lambda_http::strmap::StrMap;

fn map_of(pairs: &[(&str, &str)]) -> StrMap {
    let mut map = StrMap::new();
    for (name, value) in pairs {
        map.append(name, value);
    }
    map
}

#[test]
fn uri_without_query_is_the_path() {
    assert_eq!(build_uri("/hello", &StrMap::new()), "/hello");
    assert_eq!(build_uri("", &StrMap::new()), "");
}

#[test]
fn uri_with_one_parameter() {
    assert_eq!(build_uri("/hello", &map_of(&[("first_name", "Foo")])), "/hello?first_name=Foo");
}

#[test]
fn uri_joins_parameters_with_ampersand() {
    let query = map_of(&[("tag", "x"), ("tag", "y"), ("page", "2")]);
    assert_eq!(build_uri("/list", &query), "/list?tag=x&tag=y&page=2");
}

#[test]
fn uri_encodes_space_as_plus() {
    assert_eq!(build_uri("/s", &map_of(&[("q", "a b")])), "/s?q=a+b");
}

#[test]
fn uri_percent_encodes_reserved_bytes_in_upper_case_hex() {
    assert_eq!(build_uri("/s", &map_of(&[("x&y", "1=2")])), "/s?x%26y=1%3D2");
    assert_eq!(build_uri("/s", &map_of(&[("q", "+%/?#~")])), "/s?q=%2B%25%2F%3F%23%7E");
    assert_eq!(build_uri("/s", &map_of(&[("q", "\n\u{7f}")])), "/s?q=%0A%7F");
}

#[test]
fn uri_percent_encodes_each_byte_of_a_character() {
    assert_eq!(build_uri("/s", &map_of(&[("q", "\u{e4}")])), "/s?q=%C3%A4");
    assert_eq!(build_uri("/s", &map_of(&[("q", "\u{1f44b}")])), "/s?q=%F0%9F%91%8B");
}

#[test]
fn uri_leaves_unreserved_bytes() {
    let value = "*-._0123456789ABCDEFGHIJKLMNOPQRSTUVWXYZabcdefghijklmnopqrstuvwxyz";
    assert_eq!(build_uri("/s", &map_of(&[("q", value)])), format!("/s?q={}", value));
}

#[test]
fn uri_with_empty_name_and_value() {
    assert_eq!(build_uri("/s", &map_of(&[("", "")])), "/s?=");
    assert_eq!(build_uri("/s", &map_of(&[("a", ""), ("", "b")])), "/s?a=&=b");
}

#[test]
fn uri_does_not_touch_the_path() {
    assert_eq!(build_uri("/a b/\u{e4}", &map_of(&[("k", "v")])), "/a b/\u{e4}?k=v");
}

#[test]
fn absent_body_is_empty() {
    assert_eq!(decode_body(&None, false), Ok(vec![]));
    assert_eq!(decode_body(&None, true), Ok(vec![]));
}

#[test]
fn plain_body_is_its_bytes() {
    assert_eq!(decode_body(&Some("hello".to_string()), false), Ok(b"hello".to_vec()));
    assert_eq!(decode_body(&Some("aGVsbG8=".to_string()), false), Ok(b"aGVsbG8=".to_vec()));
    assert_eq!(decode_body(&Some("\u{e4}".to_string()), false), Ok(vec![0xc3, 0xa4]));
}

#[test]
fn flagged_body_is_decoded_from_base64() {
    assert_eq!(decode_body(&Some("aGVsbG8=".to_string()), true), Ok(b"hello".to_vec()));
    assert_eq!(decode_body(&Some("//79".to_string()), true), Ok(vec![0xff, 0xfe, 0xfd]));
    assert_eq!(decode_body(&Some("".to_string()), true), Ok(vec![]));
}

#[test]
fn flagged_body_may_leave_out_padding() {
    assert_eq!(decode_body(&Some("aGVsbG8".to_string()), true), Ok(b"hello".to_vec()));
}

#[test]
fn flagged_body_that_is_not_base64_is_an_error() {
    for text in ["not base64!", "a", "aGVs*G8=", "/x==", "=aGV", "aGVsbG8= "] {
        assert_eq!(
            decode_body(&Some(text.to_string()), true),
            Err(StructuralParseError::InvalidBody)
        );
    }
}

#[test]
fn empty_body_is_encoded_as_no_text() {
    assert_eq!(encode_body(&vec![]), (None, false));
}

#[test]
fn text_body_is_encoded_as_itself() {
    assert_eq!(encode_body(&b"Hello, Foo!".to_vec()), (Some("Hello, Foo!".to_string()), false));
    assert_eq!(encode_body(&vec![0xc3, 0xa4]), (Some("\u{e4}".to_string()), false));
    assert_eq!(encode_body(&b"aGVsbG8=".to_vec()), (Some("aGVsbG8=".to_string()), false));
}

#[test]
fn binary_body_is_encoded_as_base64() {
    assert_eq!(encode_body(&vec![0xff, 0xfe, 0xfd]), (Some("//79".to_string()), true));
    assert_eq!(encode_body(&vec![0xff]), (Some("/w==".to_string()), true));
    assert_eq!(encode_body(&vec![b'h', b'i', 0x80]), (Some("aGmA".to_string()), true));
    assert_eq!(encode_body(&vec![0xc3]), (Some("ww==".to_string()), true));
}

#[test]
fn base64_round_trip() {
    let bodies: Vec<Vec<u8>> = vec![
        vec![],
        vec![0],
        vec![0xff],
        vec![0xff, 0x00],
        vec![0x80, 0x81, 0x82],
        (0..=255).collect(),
        b"plain text".to_vec(),
        vec![0xe4, b'a', b'b', b'c'],
    ];
    for body in bodies {
        let (text, flag) = encode_body(&body);
        assert_eq!(flag, std::str::from_utf8(&body).is_err());
        assert_eq!(decode_body(&text, flag), Ok(body));
    }
}

#[test]
fn encoding_choice_depends_on_the_bytes_alone() {
    let body = vec![0xde, 0xad, 0xbe, 0xef];
    assert_eq!(encode_body(&body), encode_body(&body.clone()));
    assert_eq!(encode_body(&body), (Some("3q2+7w==".to_string()), true));
}
