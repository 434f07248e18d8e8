//! What comes back when a request is answered with its own content.

use vstd::prelude::*;
use vstd::utf8::*;
use lambda_runtime::Context;
use crate::request::{decoded_body, reply_context_of, LambdaRequest};
use crate::response::{denormalized, encoded_body, ResponseView};
use crate::strmap::{collapse_last, lemma_collapse_of_unique, unique_names};

verus! {

/// The reply to the request that stands for `envelope`, where the handler answers
/// with `status` and with the headers and the body of the request itself.
pub open spec fn echo(envelope: LambdaRequest, context: Context, body: Seq<u8>, status: u16)
    -> crate::response::ReplyView {
    let request = envelope.normalized(context, body);
    denormalized(
        reply_context_of(request),
        ResponseView { status, headers: request.headers, body: request.body },
    )
}

/// An envelope of any origin, turned into a request and answered with the
/// headers and the body of that request, comes back as a reply of the same
/// origin that holds what the envelope held, as far as the origin can carry it:
/// the status of the answer; every header name with its last value, which is
/// every header line where no name occurs twice; all header lines beside that
/// where the origin carries several values under one name; the websocket
/// connection; and the body, as plain text from which the same bytes are read
/// where the bytes are valid UTF-8, else as their base64 text under the flag.
pub proof fn lemma_echo_round_trip(
    envelope: LambdaRequest,
    context: Context,
    body: Seq<u8>,
    status: u16,
)
    ensures
        echo(envelope, context, body, status).origin == envelope.origin(),
        echo(envelope, context, body, status).status_code == status,
        echo(envelope, context, body, status).headers == collapse_last(envelope.header_pairs()),
        unique_names(envelope.header_pairs()) ==> echo(envelope, context, body, status).headers
            == envelope.header_pairs(),
        envelope.origin().multi_value() ==> echo(envelope, context, body, status).multi_value_headers
            == Some(envelope.header_pairs()),
        !envelope.origin().multi_value() ==> echo(
            envelope,
            context,
            body,
            status,
        ).multi_value_headers is None,
        echo(envelope, context, body, status).connection_id == envelope.connection_text(),
        echo(envelope, context, body, status).is_base64_encoded == !valid_utf8(body),
        (echo(envelope, context, body, status).body, echo(
            envelope,
            context,
            body,
            status,
        ).is_base64_encoded) == encoded_body(body),
        valid_utf8(body) ==> decoded_body(echo(envelope, context, body, status).body, false)
            == Some(body),
{
    broadcast use decode_utf8_encode_utf8;

    if unique_names(envelope.header_pairs()) {
        lemma_collapse_of_unique(envelope.header_pairs());
    }
    if valid_utf8(body) && body.len() > 0 {
        assert(encode_utf8(decode_utf8(body)) == body);
    }
}

} // verus!
