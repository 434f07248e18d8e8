//! Text encodings at the edge of the canonical model: base64 bodies, UTF-8 text,
//! form-urlencoded query components and ASCII case folding. Each executable
//! function here hands the work to the crate or std function that its doc comment
//! names; its contract is taken on trust from that function's documentation.

use vstd::prelude::*;
use vstd::string::*;
use vstd::utf8::*;

verus! {

/// The bytes that a text stands for when it is read as base64 in the standard
/// alphabet; `None` for a text that cannot be read so.
pub uninterp spec fn base64_decoding(text: Seq<char>) -> Option<Seq<u8>>;

/// The base64 text of a byte string, in the standard alphabet and with padding.
pub uninterp spec fn base64_encoding(bytes: Seq<u8>) -> Seq<char>;

/// The error of `base64::decode`. The library tells it apart from success and
/// reads nothing in it.
#[verifier::external_type_specification]
#[verifier::external_body]
pub struct ExDecodeError(base64::DecodeError);

/// Calls `base64::decode`. Trusted: whether the call succeeds, and the bytes that
/// it then returns, depend on the text alone.
#[verifier::external_body]
pub(crate) fn base64_decode(text: &str) -> (r: Result<Vec<u8>, base64::DecodeError>)
    ensures
        match r {
            Ok(bytes) => base64_decoding(text@) == Some(bytes@),
            Err(_) => base64_decoding(text@) is None,
        },
{
    base64::decode(text)
}

/// Calls `base64::encode`. Trusted: the text that the call returns depends on the
/// bytes alone, and `base64::decode` reads the same bytes from it.
#[verifier::external_body]
pub(crate) fn base64_encode(bytes: &[u8]) -> (r: String)
    ensures
        r@ == base64_encoding(bytes@),
        base64_decoding(r@) == Some(bytes@),
{
    base64::encode(bytes)
}

/// Calls `std::str::from_utf8`. Trusted: the call succeeds exactly on valid UTF-8,
/// and the text it returns has `bytes` as its encoding.
#[verifier::external_body]
pub(crate) fn utf8_text(bytes: &[u8]) -> (r: Option<&str>)
    ensures
        r is Some <==> valid_utf8(bytes@),
        r matches Some(text) ==> text.spec_bytes() == bytes@,
{
    std::str::from_utf8(bytes).ok()
}

/// Bytes that the form-urlencoded serializer leaves as they are:
/// `*`, `-`, `.`, `_`, the ASCII digits and the ASCII letters.
pub open spec fn form_unreserved(byte: u8) -> bool {
    ||| byte == 0x2A
    ||| byte == 0x2D
    ||| byte == 0x2E
    ||| byte == 0x5F
    ||| 0x30 <= byte <= 0x39
    ||| 0x41 <= byte <= 0x5A
    ||| 0x61 <= byte <= 0x7A
}

/// The upper-case hexadecimal digit of a value below sixteen.
pub open spec fn hex_upper(nibble: u8) -> char {
    if nibble < 10 {
        (0x30 + nibble) as u8 as char
    } else {
        (0x37 + nibble) as u8 as char
    }
}

/// What the form-urlencoded serializer writes for one byte: the byte itself, `+`
/// for a space, or `%` and two upper-case hexadecimal digits.
pub open spec fn form_encoded_byte(byte: u8) -> Seq<char> {
    if form_unreserved(byte) {
        seq![byte as char]
    } else if byte == 0x20 {
        seq!['+']
    } else {
        seq!['%', hex_upper(byte / 16), hex_upper(byte % 16)]
    }
}

/// The form-urlencoded serialization of a byte string.
pub open spec fn form_encoding(bytes: Seq<u8>) -> Seq<char>
    decreases bytes.len(),
{
    if bytes.len() == 0 {
        Seq::empty()
    } else {
        form_encoded_byte(bytes.first()) + form_encoding(bytes.drop_first())
    }
}

/// Calls `form_urlencoded::byte_serialize` on the UTF-8 bytes of `text` and joins
/// the pieces. Trusted: the result is the byte-by-byte serialization above.
#[verifier::external_body]
pub(crate) fn form_encode(text: &str) -> (r: String)
    ensures
        r@ == form_encoding(text.spec_bytes()),
{
    form_urlencoded::byte_serialize(text.as_bytes()).collect()
}

/// The value of a hexadecimal digit in upper case; zero for any other character.
pub open spec fn hex_value(digit: char) -> u8 {
    if '0' <= digit <= '9' {
        ((digit as u32) - 0x30) as u8
    } else if 'A' <= digit <= 'F' {
        ((digit as u32) - 0x37) as u8
    } else {
        0
    }
}

/// The bytes that a form-urlencoded text stands for: `+` is a space, `%` and two
/// hexadecimal digits are the byte with that value, any other character is itself.
pub open spec fn form_decoding(text: Seq<char>) -> Seq<u8>
    decreases text.len(),
{
    if text.len() == 0 {
        Seq::empty()
    } else if text[0] == '+' {
        seq![0x20u8] + form_decoding(text.skip(1))
    } else if text[0] == '%' && text.len() >= 3 {
        seq![(hex_value(text[1]) * 16 + hex_value(text[2])) as u8] + form_decoding(text.skip(3))
    } else {
        seq![text[0] as u8] + form_decoding(text.skip(1))
    }
}

/// Nothing is lost in a query component: the serialization of a byte string,
/// read back, is the byte string.
pub proof fn lemma_form_encoding_round_trip(bytes: Seq<u8>)
    ensures
        form_decoding(form_encoding(bytes)) == bytes,
    decreases bytes.len(),
{
    if bytes.len() > 0 {
        let byte = bytes.first();
        let rest = form_encoding(bytes.drop_first());
        let head = form_encoded_byte(byte);
        let text = form_encoding(bytes);
        lemma_form_encoding_round_trip(bytes.drop_first());
        assert(text == head + rest);
        if form_unreserved(byte) {
            assert(text[0] == byte as char);
            assert(text.skip(1) =~= rest);
            assert((byte as char) as u8 == byte);
        } else if byte == 0x20 {
            assert(text[0] == '+');
            assert(text.skip(1) =~= rest);
        } else {
            let high: u8 = byte / 16;
            let low: u8 = byte % 16;
            assert(text[0] == '%' && text[1] == hex_upper(high) && text[2] == hex_upper(low));
            assert(text.skip(3) =~= rest);
            lemma_hex_value_of_digit(high);
            lemma_hex_value_of_digit(low);
            assert(high * 16 + low == byte);
        }
        assert(form_decoding(text) =~= seq![byte] + form_decoding(rest));
        assert(bytes =~= seq![byte] + bytes.drop_first());
    }
}

/// The value of the digit of a number below sixteen is the number.
pub proof fn lemma_hex_value_of_digit(nibble: u8)
    requires
        nibble < 16,
    ensures
        hex_value(hex_upper(nibble)) == nibble,
{
    let digit = hex_upper(nibble);
    if nibble < 10 {
        let code: u8 = (0x30 + nibble) as u8;
        assert(digit == code as char);
        assert(digit as u32 == code);
    } else {
        let code: u8 = (0x37 + nibble) as u8;
        assert(digit == code as char);
        assert(digit as u32 == code);
    }
}

/// The ASCII lower-case form of a character: `A` to `Z` become `a` to `z`, every
/// other character stays.
pub open spec fn lower_char(c: char) -> char {
    if 'A' <= c <= 'Z' {
        ((c as u32) + 32) as u32 as char
    } else {
        c
    }
}

/// The ASCII lower-case form of a text.
pub open spec fn lowercase(text: Seq<char>) -> Seq<char> {
    text.map_values(|c: char| lower_char(c))
}

/// Calls `str::to_ascii_lowercase`. Trusted: every ASCII upper-case letter is
/// replaced by its lower-case form and nothing else changes.
#[verifier::external_body]
pub(crate) fn ascii_lowercase(text: &str) -> (r: String)
    ensures
        r@ == lowercase(text@),
{
    text.to_ascii_lowercase()
}

/// Folding case twice is folding it once.
pub proof fn lemma_lowercase_idempotent(text: Seq<char>)
    ensures
        lowercase(lowercase(text)) == lowercase(text),
{
    broadcast use char_u32_cast;
    assert forall|c: char| lower_char(lower_char(c)) == #[trigger] lower_char(c) by {
        if 'A' <= c <= 'Z' {
            let u: u32 = ((c as u32) + 32) as u32;
            assert(97 <= u <= 122);
        }
    }
    assert(lowercase(lowercase(text)) =~= lowercase(text));
}

} // verus!
