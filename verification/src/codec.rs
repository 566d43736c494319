//! Byte encoding of the message protocol.
//!
//! Every message family is framed as a flat byte string: integers as eight
//! little-endian bytes, text as a length-prefixed UTF-8 byte string, options
//! and payload variants as a leading tag byte. Decoding fails cleanly (it
//! returns nothing) on malformed input and accepts only byte strings that
//! the corresponding encoder produces.

use vstd::prelude::*;
use vstd::bytes::{
    lemma_auto_spec_u64_to_from_le_bytes, spec_u64_from_le_bytes, spec_u64_to_le_bytes,
    u64_from_le_bytes, u64_to_le_bytes,
};
use vstd::slice::{slice_subrange, slice_to_vec};
use vstd::utf8::{decode_utf8, encode_utf8, valid_utf8};

use crate::messages::{
    AppRequest, AppRequestPayload, AppRequestPayloadView, AppResponse, AppResponsePayload,
    AppResponsePayloadView, PortRequest, PortRequestPayload, PortRequestPayloadView, PortResponse,
    PortResponsePayload, PortResponsePayloadView, Request, RequestHeader, RequestHeaderView,
    RequestView, Response, ResponseHeader, ResponseHeaderView, ResponseView,
    StreamingFinishedStatus, StreamingFinishedStatusView, StreamingResponsePayload,
    StreamingResponsePayloadView, StreamingStartedStatus, StreamingStartedStatusView,
};

verus! {

// ---------------------------------------------------------------------------
// Primitive encoders and decoders.
//
// A decoder takes the not-yet-consumed bytes and yields the decoded value
// together with the bytes that follow it.
// ---------------------------------------------------------------------------

/// Encoding of an unsigned integer: eight little-endian bytes.
pub open spec fn enc_u64(x: u64) -> Seq<u8> {
    spec_u64_to_le_bytes(x)
}

/// Decodes an unsigned integer from the front of `b`.
pub open spec fn dec_u64(b: Seq<u8>) -> Option<(u64, Seq<u8>)> {
    if b.len() >= 8 {
        Some((spec_u64_from_le_bytes(b.subrange(0, 8)), b.subrange(8, b.len() as int)))
    } else {
        None
    }
}

/// Decoding undoes encoding of an unsigned integer, leaving the rest.
pub proof fn lemma_dec_u64_enc(x: u64, rest: Seq<u8>)
    ensures
        dec_u64(enc_u64(x) + rest) == Some((x, rest)),
{
    lemma_auto_spec_u64_to_from_le_bytes();
    let b = enc_u64(x) + rest;
    assert(b.subrange(0, 8) =~= enc_u64(x));
    assert(b.subrange(8, b.len() as int) =~= rest);
}

/// Only encodings decode: when an unsigned integer decodes from `b`, the
/// input began with exactly its encoding.
pub proof fn lemma_enc_u64_dec(b: Seq<u8>, x: u64, rest: Seq<u8>)
    requires
        dec_u64(b) == Some((x, rest)),
    ensures
        b == enc_u64(x) + rest,
{
    lemma_auto_spec_u64_to_from_le_bytes();
    assert(b =~= b.subrange(0, 8) + b.subrange(8, b.len() as int));
}

/// Text whose UTF-8 encoding fits behind the length prefix of the wire
/// format (always true of text held in memory).
pub open spec fn wf_text(s: Seq<char>) -> bool {
    encode_utf8(s).len() <= u64::MAX
}

/// Encoding of text: the byte length of its UTF-8 encoding, then that
/// encoding itself.
pub open spec fn enc_text(s: Seq<char>) -> Seq<u8> {
    enc_u64(encode_utf8(s).len() as u64) + encode_utf8(s)
}

/// Decodes text from the front of `b`: reads the length, takes that many
/// bytes, and accepts them only as valid UTF-8.
pub open spec fn dec_text(b: Seq<u8>) -> Option<(Seq<char>, Seq<u8>)> {
    match dec_u64(b) {
        Some((len, after_len)) => {
            if after_len.len() >= len {
                let payload = after_len.subrange(0, len as int);
                if valid_utf8(payload) {
                    Some((decode_utf8(payload), after_len.subrange(len as int, after_len.len() as int)))
                } else {
                    None
                }
            } else {
                None
            }
        },
        None => None,
    }
}

/// Decoding undoes encoding of text, leaving the rest.
pub proof fn lemma_dec_text_enc(s: Seq<char>, rest: Seq<u8>)
    requires
        wf_text(s),
    ensures
        dec_text(enc_text(s) + rest) == Some((s, rest)),
{
    broadcast use vstd::utf8::encode_utf8_valid_utf8;

    let utf8 = encode_utf8(s);
    let len = utf8.len() as u64;
    let b = enc_text(s) + rest;
    assert(b =~= enc_u64(len) + (utf8 + rest));
    lemma_dec_u64_enc(len, utf8 + rest);
    let after_len = (utf8 + rest);
    assert((utf8 + rest).subrange(0, len as int) =~= utf8);
    assert((utf8 + rest).subrange(len as int, after_len.len() as int) =~= rest);
    vstd::utf8::encode_utf8_decode_utf8(s);
}

/// Only encodings decode: when text decodes from `b`, the input began with
/// exactly its encoding, and the text fits the wire format.
pub proof fn lemma_enc_text_dec(b: Seq<u8>, s: Seq<char>, rest: Seq<u8>)
    requires
        dec_text(b) == Some((s, rest)),
    ensures
        wf_text(s),
        b == enc_text(s) + rest,
{
    let (len, after_len) = dec_u64(b)->0;
    lemma_enc_u64_dec(b, len, after_len);
    let payload = after_len.subrange(0, len as int);
    vstd::utf8::decode_utf8_encode_utf8(payload);
    assert(after_len =~= payload + after_len.subrange(len as int, after_len.len() as int));
    assert(b =~= enc_text(s) + rest);
}

/// Optional text that the wire format can carry.
pub open spec fn wf_opt_text(t: Option<Seq<char>>) -> bool {
    t matches Some(s) ==> wf_text(s)
}

/// Encoding of optional text: a tag byte, then the text if present.
pub open spec fn enc_opt_text(t: Option<Seq<char>>) -> Seq<u8> {
    match t {
        None => seq![0u8],
        Some(s) => seq![1u8] + enc_text(s),
    }
}

/// Decodes optional text from the front of `b`.
pub open spec fn dec_opt_text(b: Seq<u8>) -> Option<(Option<Seq<char>>, Seq<u8>)> {
    if b.len() >= 1 {
        if b[0] == 0u8 {
            Some((None, b.subrange(1, b.len() as int)))
        } else if b[0] == 1u8 {
            match dec_text(b.subrange(1, b.len() as int)) {
                Some((s, after_text)) => Some((Some(s), after_text)),
                None => None,
            }
        } else {
            None
        }
    } else {
        None
    }
}

/// Decoding undoes encoding of optional text, leaving the rest.
pub proof fn lemma_dec_opt_text_enc(t: Option<Seq<char>>, rest: Seq<u8>)
    requires
        wf_opt_text(t),
    ensures
        dec_opt_text(enc_opt_text(t) + rest) == Some((t, rest)),
{
    let b = enc_opt_text(t) + rest;
    match t {
        None => {
            assert(b.subrange(1, b.len() as int) =~= rest);
        },
        Some(s) => {
            assert(b.subrange(1, b.len() as int) =~= enc_text(s) + rest);
            lemma_dec_text_enc(s, rest);
        },
    }
}

/// Only encodings decode: when optional text decodes from `b`, the input
/// began with exactly its encoding, and the text fits the wire format.
pub proof fn lemma_enc_opt_text_dec(b: Seq<u8>, t: Option<Seq<char>>, rest: Seq<u8>)
    requires
        dec_opt_text(b) == Some((t, rest)),
    ensures
        wf_opt_text(t),
        b == enc_opt_text(t) + rest,
{
    let tail = b.subrange(1, b.len() as int);
    if b[0] == 0u8 {
        assert(b =~= seq![0u8] + rest);
    } else {
        let (s, after_text) = dec_text(tail)->0;
        lemma_enc_text_dec(tail, s, after_text);
        assert(b =~= seq![1u8] + (enc_text(s) + rest));
        assert(seq![1u8] + (enc_text(s) + rest) =~= (seq![1u8] + enc_text(s)) + rest);
    }
}

// ---------------------------------------------------------------------------
// Headers, payload variants and whole messages.
//
// Variants are framed by a leading tag byte. A whole message is a header
// followed by a payload, and its decoder accepts a byte string only when it
// is consumed completely.
// ---------------------------------------------------------------------------

/// Encoding of a request header.
pub open spec fn enc_req_header(h: RequestHeaderView) -> Seq<u8> {
    enc_opt_text(h.client_token)
}

/// Decodes a request header from the front of `b`.
pub open spec fn dec_req_header(b: Seq<u8>) -> Option<(RequestHeaderView, Seq<u8>)> {
    match dec_opt_text(b) {
        Some((token, rest)) => Some((RequestHeaderView { client_token: token }, rest)),
        None => None,
    }
}

/// A request header that the wire format can carry.
pub open spec fn wf_req_header(h: RequestHeaderView) -> bool {
    wf_opt_text(h.client_token)
}

/// Decoding undoes encoding of a request header, leaving the rest.
pub proof fn lemma_dec_req_header_enc(h: RequestHeaderView, rest: Seq<u8>)
    requires
        wf_req_header(h),
    ensures
        dec_req_header(enc_req_header(h) + rest) == Some((h, rest)),
{
    lemma_dec_opt_text_enc(h.client_token, rest);
}

/// Only encodings decode: when a request header decodes from `b`, the input
/// began with exactly its encoding, and the header fits the wire format.
pub proof fn lemma_enc_req_header_dec(b: Seq<u8>, h: RequestHeaderView, rest: Seq<u8>)
    requires
        dec_req_header(b) == Some((h, rest)),
    ensures
        wf_req_header(h),
        b == enc_req_header(h) + rest,
{
    lemma_enc_opt_text_dec(b, h.client_token, rest);
}

/// Encoding of a response header.
pub open spec fn enc_resp_header(h: ResponseHeaderView) -> Seq<u8> {
    enc_opt_text(h.client_token) + enc_u64(h.request_id)
}

/// Decodes a response header from the front of `b`.
pub open spec fn dec_resp_header(b: Seq<u8>) -> Option<(ResponseHeaderView, Seq<u8>)> {
    match dec_opt_text(b) {
        Some((token, after_token)) => match dec_u64(after_token) {
            Some((request_id, rest)) => Some(
                (ResponseHeaderView { client_token: token, request_id }, rest),
            ),
            None => None,
        },
        None => None,
    }
}

/// A response header that the wire format can carry.
pub open spec fn wf_resp_header(h: ResponseHeaderView) -> bool {
    wf_opt_text(h.client_token)
}

/// Decoding undoes encoding of a response header, leaving the rest.
pub proof fn lemma_dec_resp_header_enc(h: ResponseHeaderView, rest: Seq<u8>)
    requires
        wf_resp_header(h),
    ensures
        dec_resp_header(enc_resp_header(h) + rest) == Some((h, rest)),
{
    assert(enc_resp_header(h) + rest =~= enc_opt_text(h.client_token) + (enc_u64(h.request_id)
        + rest));
    lemma_dec_opt_text_enc(h.client_token, enc_u64(h.request_id) + rest);
    lemma_dec_u64_enc(h.request_id, rest);
}

/// Only encodings decode: when a response header decodes from `b`, the
/// input began with exactly its encoding, and the header fits the wire
/// format.
pub proof fn lemma_enc_resp_header_dec(b: Seq<u8>, h: ResponseHeaderView, rest: Seq<u8>)
    requires
        dec_resp_header(b) == Some((h, rest)),
    ensures
        wf_resp_header(h),
        b == enc_resp_header(h) + rest,
{
    let (token, after_token) = dec_opt_text(b)->0;
    lemma_enc_opt_text_dec(b, token, after_token);
    lemma_enc_u64_dec(after_token, h.request_id, rest);
    assert(b =~= (enc_opt_text(token) + enc_u64(h.request_id)) + rest);
}

/// Encoding of an app-scoped request payload.
pub open spec fn enc_app_request_payload(p: AppRequestPayloadView) -> Seq<u8> {
    match p {
        AppRequestPayloadView::GetOptionsInfo => seq![0u8],
    }
}

/// Decodes an app-scoped request payload from the front of `b`.
pub open spec fn dec_app_request_payload(b: Seq<u8>) -> Option<(AppRequestPayloadView, Seq<u8>)> {
    if b.len() >= 1 && b[0] == 0u8 {
        Some((AppRequestPayloadView::GetOptionsInfo, b.subrange(1, b.len() as int)))
    } else {
        None
    }
}

/// Decoding undoes encoding of an app-scoped request payload.
pub proof fn lemma_dec_app_request_payload_enc(p: AppRequestPayloadView, rest: Seq<u8>)
    ensures
        dec_app_request_payload(enc_app_request_payload(p) + rest) == Some((p, rest)),
{
    let b = enc_app_request_payload(p) + rest;
    assert(b.subrange(1, b.len() as int) =~= rest);
}

/// Only encodings decode, for app-scoped request payloads.
pub proof fn lemma_enc_app_request_payload_dec(b: Seq<u8>, p: AppRequestPayloadView, rest: Seq<u8>)
    requires
        dec_app_request_payload(b) == Some((p, rest)),
    ensures
        b == enc_app_request_payload(p) + rest,
{
    assert(b =~= seq![0u8] + rest);
}

/// Encoding of an app-scoped response payload.
pub open spec fn enc_app_response_payload(p: AppResponsePayloadView) -> Seq<u8> {
    match p {
        AppResponsePayloadView::OptionsInfo { version } => seq![0u8] + enc_text(version),
    }
}

/// Decodes an app-scoped response payload from the front of `b`.
pub open spec fn dec_app_response_payload(b: Seq<u8>) -> Option<(AppResponsePayloadView, Seq<u8>)> {
    if b.len() >= 1 && b[0] == 0u8 {
        match dec_text(b.subrange(1, b.len() as int)) {
            Some((version, rest)) => Some((AppResponsePayloadView::OptionsInfo { version }, rest)),
            None => None,
        }
    } else {
        None
    }
}

/// An app-scoped response payload that the wire format can carry.
pub open spec fn wf_app_response_payload(p: AppResponsePayloadView) -> bool {
    match p {
        AppResponsePayloadView::OptionsInfo { version } => wf_text(version),
    }
}

/// Decoding undoes encoding of an app-scoped response payload.
pub proof fn lemma_dec_app_response_payload_enc(p: AppResponsePayloadView, rest: Seq<u8>)
    requires
        wf_app_response_payload(p),
    ensures
        dec_app_response_payload(enc_app_response_payload(p) + rest) == Some((p, rest)),
{
    match p {
        AppResponsePayloadView::OptionsInfo { version } => {
            let b = enc_app_response_payload(p) + rest;
            assert(b.subrange(1, b.len() as int) =~= enc_text(version) + rest);
            lemma_dec_text_enc(version, rest);
        },
    }
}

/// Only encodings decode, for app-scoped response payloads.
pub proof fn lemma_enc_app_response_payload_dec(
    b: Seq<u8>,
    p: AppResponsePayloadView,
    rest: Seq<u8>,
)
    requires
        dec_app_response_payload(b) == Some((p, rest)),
    ensures
        wf_app_response_payload(p),
        b == enc_app_response_payload(p) + rest,
{
    let tail = b.subrange(1, b.len() as int);
    let (version, after_text) = dec_text(tail)->0;
    lemma_enc_text_dec(tail, version, after_text);
    assert(b =~= seq![0u8] + (enc_text(version) + rest));
    assert(seq![0u8] + (enc_text(version) + rest) =~= (seq![0u8] + enc_text(version)) + rest);
}

/// Encoding of a channel-scoped request payload.
pub open spec fn enc_port_request_payload(p: PortRequestPayloadView) -> Seq<u8> {
    match p {
        PortRequestPayloadView::Ping => seq![0u8],
        PortRequestPayloadView::StartStreaming { num_items } => seq![1u8] + enc_u64(num_items),
    }
}

/// Decodes a channel-scoped request payload from the front of `b`.
pub open spec fn dec_port_request_payload(b: Seq<u8>) -> Option<(PortRequestPayloadView, Seq<u8>)> {
    if b.len() >= 1 {
        if b[0] == 0u8 {
            Some((PortRequestPayloadView::Ping, b.subrange(1, b.len() as int)))
        } else if b[0] == 1u8 {
            match dec_u64(b.subrange(1, b.len() as int)) {
                Some((num_items, rest)) => Some(
                    (PortRequestPayloadView::StartStreaming { num_items }, rest),
                ),
                None => None,
            }
        } else {
            None
        }
    } else {
        None
    }
}

/// Decoding undoes encoding of a channel-scoped request payload.
pub proof fn lemma_dec_port_request_payload_enc(p: PortRequestPayloadView, rest: Seq<u8>)
    ensures
        dec_port_request_payload(enc_port_request_payload(p) + rest) == Some((p, rest)),
{
    let b = enc_port_request_payload(p) + rest;
    match p {
        PortRequestPayloadView::Ping => {
            assert(b.subrange(1, b.len() as int) =~= rest);
        },
        PortRequestPayloadView::StartStreaming { num_items } => {
            assert(b.subrange(1, b.len() as int) =~= enc_u64(num_items) + rest);
            lemma_dec_u64_enc(num_items, rest);
        },
    }
}

/// Only encodings decode, for channel-scoped request payloads.
pub proof fn lemma_enc_port_request_payload_dec(
    b: Seq<u8>,
    p: PortRequestPayloadView,
    rest: Seq<u8>,
)
    requires
        dec_port_request_payload(b) == Some((p, rest)),
    ensures
        b == enc_port_request_payload(p) + rest,
{
    let tail = b.subrange(1, b.len() as int);
    if b[0] == 0u8 {
        assert(b =~= seq![0u8] + rest);
    } else {
        let (num_items, after_count) = dec_u64(tail)->0;
        lemma_enc_u64_dec(tail, num_items, after_count);
        assert(b =~= seq![1u8] + (enc_u64(num_items) + rest));
        assert(seq![1u8] + (enc_u64(num_items) + rest) =~= (seq![1u8] + enc_u64(num_items))
            + rest);
    }
}

/// Encoding of the status of a `Started` streaming response.
pub open spec fn enc_started_status(s: StreamingStartedStatusView) -> Seq<u8> {
    match s {
        StreamingStartedStatusView::Accepted => seq![0u8],
        StreamingStartedStatusView::Rejected { reason } => seq![1u8] + enc_opt_text(reason),
    }
}

/// Decodes the status of a `Started` streaming response from the front of `b`.
pub open spec fn dec_started_status(b: Seq<u8>) -> Option<(StreamingStartedStatusView, Seq<u8>)> {
    if b.len() >= 1 {
        if b[0] == 0u8 {
            Some((StreamingStartedStatusView::Accepted, b.subrange(1, b.len() as int)))
        } else if b[0] == 1u8 {
            match dec_opt_text(b.subrange(1, b.len() as int)) {
                Some((reason, rest)) => Some(
                    (StreamingStartedStatusView::Rejected { reason }, rest),
                ),
                None => None,
            }
        } else {
            None
        }
    } else {
        None
    }
}

/// A `Started` status that the wire format can carry.
pub open spec fn wf_started_status(s: StreamingStartedStatusView) -> bool {
    match s {
        StreamingStartedStatusView::Accepted => true,
        StreamingStartedStatusView::Rejected { reason } => wf_opt_text(reason),
    }
}

/// Decoding undoes encoding of a `Started` status.
pub proof fn lemma_dec_started_status_enc(s: StreamingStartedStatusView, rest: Seq<u8>)
    requires
        wf_started_status(s),
    ensures
        dec_started_status(enc_started_status(s) + rest) == Some((s, rest)),
{
    let b = enc_started_status(s) + rest;
    match s {
        StreamingStartedStatusView::Accepted => {
            assert(b.subrange(1, b.len() as int) =~= rest);
        },
        StreamingStartedStatusView::Rejected { reason } => {
            assert(b.subrange(1, b.len() as int) =~= enc_opt_text(reason) + rest);
            lemma_dec_opt_text_enc(reason, rest);
        },
    }
}

/// Only encodings decode, for `Started` statuses.
pub proof fn lemma_enc_started_status_dec(
    b: Seq<u8>,
    s: StreamingStartedStatusView,
    rest: Seq<u8>,
)
    requires
        dec_started_status(b) == Some((s, rest)),
    ensures
        wf_started_status(s),
        b == enc_started_status(s) + rest,
{
    let tail = b.subrange(1, b.len() as int);
    if b[0] == 0u8 {
        assert(b =~= seq![0u8] + rest);
    } else {
        let (reason, after_reason) = dec_opt_text(tail)->0;
        lemma_enc_opt_text_dec(tail, reason, after_reason);
        assert(b =~= seq![1u8] + (enc_opt_text(reason) + rest));
        assert(seq![1u8] + (enc_opt_text(reason) + rest) =~= (seq![1u8] + enc_opt_text(reason))
            + rest);
    }
}

/// Encoding of the status of a `Finished` streaming response.
pub open spec fn enc_finished_status(s: StreamingFinishedStatusView) -> Seq<u8> {
    match s {
        StreamingFinishedStatusView::Completed => seq![0u8],
        StreamingFinishedStatusView::Aborted { reason } => seq![1u8] + enc_opt_text(reason),
    }
}

/// Decodes the status of a `Finished` streaming response from the front of `b`.
pub open spec fn dec_finished_status(b: Seq<u8>) -> Option<(StreamingFinishedStatusView, Seq<u8>)> {
    if b.len() >= 1 {
        if b[0] == 0u8 {
            Some((StreamingFinishedStatusView::Completed, b.subrange(1, b.len() as int)))
        } else if b[0] == 1u8 {
            match dec_opt_text(b.subrange(1, b.len() as int)) {
                Some((reason, rest)) => Some(
                    (StreamingFinishedStatusView::Aborted { reason }, rest),
                ),
                None => None,
            }
        } else {
            None
        }
    } else {
        None
    }
}

/// A `Finished` status that the wire format can carry.
pub open spec fn wf_finished_status(s: StreamingFinishedStatusView) -> bool {
    match s {
        StreamingFinishedStatusView::Completed => true,
        StreamingFinishedStatusView::Aborted { reason } => wf_opt_text(reason),
    }
}

/// Decoding undoes encoding of a `Finished` status.
pub proof fn lemma_dec_finished_status_enc(s: StreamingFinishedStatusView, rest: Seq<u8>)
    requires
        wf_finished_status(s),
    ensures
        dec_finished_status(enc_finished_status(s) + rest) == Some((s, rest)),
{
    let b = enc_finished_status(s) + rest;
    match s {
        StreamingFinishedStatusView::Completed => {
            assert(b.subrange(1, b.len() as int) =~= rest);
        },
        StreamingFinishedStatusView::Aborted { reason } => {
            assert(b.subrange(1, b.len() as int) =~= enc_opt_text(reason) + rest);
            lemma_dec_opt_text_enc(reason, rest);
        },
    }
}

/// Only encodings decode, for `Finished` statuses.
pub proof fn lemma_enc_finished_status_dec(
    b: Seq<u8>,
    s: StreamingFinishedStatusView,
    rest: Seq<u8>,
)
    requires
        dec_finished_status(b) == Some((s, rest)),
    ensures
        wf_finished_status(s),
        b == enc_finished_status(s) + rest,
{
    let tail = b.subrange(1, b.len() as int);
    if b[0] == 0u8 {
        assert(b =~= seq![0u8] + rest);
    } else {
        let (reason, after_reason) = dec_opt_text(tail)->0;
        lemma_enc_opt_text_dec(tail, reason, after_reason);
        assert(b =~= seq![1u8] + (enc_opt_text(reason) + rest));
        assert(seq![1u8] + (enc_opt_text(reason) + rest) =~= (seq![1u8] + enc_opt_text(reason))
            + rest);
    }
}

/// Encoding of a streaming response payload.
pub open spec fn enc_streaming_payload(p: StreamingResponsePayloadView) -> Seq<u8> {
    match p {
        StreamingResponsePayloadView::Started { status } => seq![0u8] + enc_started_status(status),
        StreamingResponsePayloadView::Item { item_count } => seq![1u8] + enc_u64(item_count),
        StreamingResponsePayloadView::Finished { status, item_count } => seq![2u8]
            + enc_finished_status(status) + enc_u64(item_count),
    }
}

/// Decodes a streaming response payload from the front of `b`.
pub open spec fn dec_streaming_payload(b: Seq<u8>) -> Option<
    (StreamingResponsePayloadView, Seq<u8>),
> {
    if b.len() >= 1 {
        if b[0] == 0u8 {
            match dec_started_status(b.subrange(1, b.len() as int)) {
                Some((status, rest)) => Some(
                    (StreamingResponsePayloadView::Started { status }, rest),
                ),
                None => None,
            }
        } else if b[0] == 1u8 {
            match dec_u64(b.subrange(1, b.len() as int)) {
                Some((item_count, rest)) => Some(
                    (StreamingResponsePayloadView::Item { item_count }, rest),
                ),
                None => None,
            }
        } else if b[0] == 2u8 {
            match dec_finished_status(b.subrange(1, b.len() as int)) {
                Some((status, after_status)) => match dec_u64(after_status) {
                    Some((item_count, rest)) => Some(
                        (StreamingResponsePayloadView::Finished { status, item_count }, rest),
                    ),
                    None => None,
                },
                None => None,
            }
        } else {
            None
        }
    } else {
        None
    }
}

/// A streaming response payload that the wire format can carry.
pub open spec fn wf_streaming_payload(p: StreamingResponsePayloadView) -> bool {
    match p {
        StreamingResponsePayloadView::Started { status } => wf_started_status(status),
        StreamingResponsePayloadView::Item { item_count } => true,
        StreamingResponsePayloadView::Finished { status, item_count } => wf_finished_status(
            status,
        ),
    }
}

/// Decoding undoes encoding of a streaming response payload.
pub proof fn lemma_dec_streaming_payload_enc(p: StreamingResponsePayloadView, rest: Seq<u8>)
    requires
        wf_streaming_payload(p),
    ensures
        dec_streaming_payload(enc_streaming_payload(p) + rest) == Some((p, rest)),
{
    let b = enc_streaming_payload(p) + rest;
    match p {
        StreamingResponsePayloadView::Started { status } => {
            assert(b.subrange(1, b.len() as int) =~= enc_started_status(status) + rest);
            lemma_dec_started_status_enc(status, rest);
        },
        StreamingResponsePayloadView::Item { item_count } => {
            assert(b.subrange(1, b.len() as int) =~= enc_u64(item_count) + rest);
            lemma_dec_u64_enc(item_count, rest);
        },
        StreamingResponsePayloadView::Finished { status, item_count } => {
            assert(b.subrange(1, b.len() as int) =~= enc_finished_status(status) + (enc_u64(
                item_count,
            ) + rest));
            lemma_dec_finished_status_enc(status, enc_u64(item_count) + rest);
            lemma_dec_u64_enc(item_count, rest);
        },
    }
}

/// Only encodings decode, for streaming response payloads.
pub proof fn lemma_enc_streaming_payload_dec(
    b: Seq<u8>,
    p: StreamingResponsePayloadView,
    rest: Seq<u8>,
)
    requires
        dec_streaming_payload(b) == Some((p, rest)),
    ensures
        wf_streaming_payload(p),
        b == enc_streaming_payload(p) + rest,
{
    let tail = b.subrange(1, b.len() as int);
    if b[0] == 0u8 {
        let (status, after_status) = dec_started_status(tail)->0;
        lemma_enc_started_status_dec(tail, status, after_status);
        assert(b =~= seq![0u8] + (enc_started_status(status) + rest));
        assert(seq![0u8] + (enc_started_status(status) + rest) =~= (seq![0u8]
            + enc_started_status(status)) + rest);
    } else if b[0] == 1u8 {
        let (item_count, after_count) = dec_u64(tail)->0;
        lemma_enc_u64_dec(tail, item_count, after_count);
        assert(b =~= seq![1u8] + (enc_u64(item_count) + rest));
        assert(seq![1u8] + (enc_u64(item_count) + rest) =~= (seq![1u8] + enc_u64(item_count))
            + rest);
    } else {
        let (status, after_status) = dec_finished_status(tail)->0;
        let (item_count, after_count) = dec_u64(after_status)->0;
        lemma_enc_finished_status_dec(tail, status, after_status);
        lemma_enc_u64_dec(after_status, item_count, after_count);
        assert(b =~= seq![2u8] + (enc_finished_status(status) + (enc_u64(item_count) + rest)));
        assert(seq![2u8] + (enc_finished_status(status) + (enc_u64(item_count) + rest)) =~= (
        seq![2u8] + enc_finished_status(status) + enc_u64(item_count)) + rest);
    }
}

/// Encoding of a channel-scoped response payload.
pub open spec fn enc_port_response_payload(p: PortResponsePayloadView) -> Seq<u8> {
    match p {
        PortResponsePayloadView::Pong => seq![0u8],
        PortResponsePayloadView::Streaming(streaming) => seq![1u8] + enc_streaming_payload(
            streaming,
        ),
    }
}

/// Decodes a channel-scoped response payload from the front of `b`.
pub open spec fn dec_port_response_payload(b: Seq<u8>) -> Option<
    (PortResponsePayloadView, Seq<u8>),
> {
    if b.len() >= 1 {
        if b[0] == 0u8 {
            Some((PortResponsePayloadView::Pong, b.subrange(1, b.len() as int)))
        } else if b[0] == 1u8 {
            match dec_streaming_payload(b.subrange(1, b.len() as int)) {
                Some((streaming, rest)) => Some(
                    (PortResponsePayloadView::Streaming(streaming), rest),
                ),
                None => None,
            }
        } else {
            None
        }
    } else {
        None
    }
}

/// A channel-scoped response payload that the wire format can carry.
pub open spec fn wf_port_response_payload(p: PortResponsePayloadView) -> bool {
    match p {
        PortResponsePayloadView::Pong => true,
        PortResponsePayloadView::Streaming(streaming) => wf_streaming_payload(streaming),
    }
}

/// Decoding undoes encoding of a channel-scoped response payload.
pub proof fn lemma_dec_port_response_payload_enc(p: PortResponsePayloadView, rest: Seq<u8>)
    requires
        wf_port_response_payload(p),
    ensures
        dec_port_response_payload(enc_port_response_payload(p) + rest) == Some((p, rest)),
{
    let b = enc_port_response_payload(p) + rest;
    match p {
        PortResponsePayloadView::Pong => {
            assert(b.subrange(1, b.len() as int) =~= rest);
        },
        PortResponsePayloadView::Streaming(streaming) => {
            assert(b.subrange(1, b.len() as int) =~= enc_streaming_payload(streaming) + rest);
            lemma_dec_streaming_payload_enc(streaming, rest);
        },
    }
}

/// Only encodings decode, for channel-scoped response payloads.
pub proof fn lemma_enc_port_response_payload_dec(
    b: Seq<u8>,
    p: PortResponsePayloadView,
    rest: Seq<u8>,
)
    requires
        dec_port_response_payload(b) == Some((p, rest)),
    ensures
        wf_port_response_payload(p),
        b == enc_port_response_payload(p) + rest,
{
    let tail = b.subrange(1, b.len() as int);
    if b[0] == 0u8 {
        assert(b =~= seq![0u8] + rest);
    } else {
        let (streaming, after_streaming) = dec_streaming_payload(tail)->0;
        lemma_enc_streaming_payload_dec(tail, streaming, after_streaming);
        assert(b =~= seq![1u8] + (enc_streaming_payload(streaming) + rest));
        assert(seq![1u8] + (enc_streaming_payload(streaming) + rest) =~= (seq![1u8]
            + enc_streaming_payload(streaming)) + rest);
    }
}

// ---------------------------------------------------------------------------
// Whole messages.
// ---------------------------------------------------------------------------

/// Encoding of an app-scoped request.
pub open spec fn enc_app_request(r: RequestView<AppRequestPayloadView>) -> Seq<u8> {
    enc_req_header(r.header) + enc_app_request_payload(r.payload)
}

/// Decodes an app-scoped request; the byte string must be consumed whole.
pub open spec fn dec_app_request(b: Seq<u8>) -> Option<RequestView<AppRequestPayloadView>> {
    match dec_req_header(b) {
        Some((header, after_header)) => match dec_app_request_payload(after_header) {
            Some((payload, rest)) => if rest.len() == 0 {
                Some(RequestView { header, payload })
            } else {
                None
            },
            None => None,
        },
        None => None,
    }
}

/// An app-scoped request that the wire format can carry.
pub open spec fn wf_app_request(r: RequestView<AppRequestPayloadView>) -> bool {
    wf_req_header(r.header)
}

/// Round trip: decoding an encoded app-scoped request yields it back.
pub proof fn lemma_app_request_round_trip(r: RequestView<AppRequestPayloadView>)
    requires
        wf_app_request(r),
    ensures
        dec_app_request(enc_app_request(r)) == Some(r),
{
    lemma_dec_req_header_enc(r.header, enc_app_request_payload(r.payload));
    lemma_dec_app_request_payload_enc(r.payload, Seq::<u8>::empty());
    assert(enc_app_request_payload(r.payload) + Seq::<u8>::empty() =~= enc_app_request_payload(
        r.payload,
    ));
}

/// Only encodings decode: when a byte string decodes as an app-scoped
/// request, it is exactly the encoding of what it decodes to.
pub proof fn lemma_app_request_canonical(b: Seq<u8>, r: RequestView<AppRequestPayloadView>)
    requires
        dec_app_request(b) == Some(r),
    ensures
        wf_app_request(r),
        b == enc_app_request(r),
{
    let (header, after_header) = dec_req_header(b)->0;
    let (payload, rest) = dec_app_request_payload(after_header)->0;
    lemma_enc_req_header_dec(b, header, after_header);
    lemma_enc_app_request_payload_dec(after_header, payload, rest);
    assert(enc_app_request_payload(payload) + rest =~= enc_app_request_payload(payload));
    assert(b =~= enc_app_request(r));
}

/// Encoding of an app-scoped response.
pub open spec fn enc_app_response(r: ResponseView<AppResponsePayloadView>) -> Seq<u8> {
    enc_resp_header(r.header) + enc_app_response_payload(r.payload)
}

/// Decodes an app-scoped response; the byte string must be consumed whole.
pub open spec fn dec_app_response(b: Seq<u8>) -> Option<ResponseView<AppResponsePayloadView>> {
    match dec_resp_header(b) {
        Some((header, after_header)) => match dec_app_response_payload(after_header) {
            Some((payload, rest)) => if rest.len() == 0 {
                Some(ResponseView { header, payload })
            } else {
                None
            },
            None => None,
        },
        None => None,
    }
}

/// An app-scoped response that the wire format can carry.
pub open spec fn wf_app_response(r: ResponseView<AppResponsePayloadView>) -> bool {
    wf_resp_header(r.header) && wf_app_response_payload(r.payload)
}

/// Round trip: decoding an encoded app-scoped response yields it back.
pub proof fn lemma_app_response_round_trip(r: ResponseView<AppResponsePayloadView>)
    requires
        wf_app_response(r),
    ensures
        dec_app_response(enc_app_response(r)) == Some(r),
{
    lemma_dec_resp_header_enc(r.header, enc_app_response_payload(r.payload));
    lemma_dec_app_response_payload_enc(r.payload, Seq::<u8>::empty());
    assert(enc_app_response_payload(r.payload) + Seq::<u8>::empty() =~= enc_app_response_payload(
        r.payload,
    ));
}

/// Only encodings decode: when a byte string decodes as an app-scoped
/// response, it is exactly the encoding of what it decodes to.
pub proof fn lemma_app_response_canonical(b: Seq<u8>, r: ResponseView<AppResponsePayloadView>)
    requires
        dec_app_response(b) == Some(r),
    ensures
        wf_app_response(r),
        b == enc_app_response(r),
{
    let (header, after_header) = dec_resp_header(b)->0;
    let (payload, rest) = dec_app_response_payload(after_header)->0;
    lemma_enc_resp_header_dec(b, header, after_header);
    lemma_enc_app_response_payload_dec(after_header, payload, rest);
    assert(enc_app_response_payload(payload) + rest =~= enc_app_response_payload(payload));
    assert(b =~= enc_app_response(r));
}

/// Encoding of a channel-scoped request.
pub open spec fn enc_port_request(r: RequestView<PortRequestPayloadView>) -> Seq<u8> {
    enc_req_header(r.header) + enc_port_request_payload(r.payload)
}

/// Decodes a channel-scoped request; the byte string must be consumed whole.
pub open spec fn dec_port_request(b: Seq<u8>) -> Option<RequestView<PortRequestPayloadView>> {
    match dec_req_header(b) {
        Some((header, after_header)) => match dec_port_request_payload(after_header) {
            Some((payload, rest)) => if rest.len() == 0 {
                Some(RequestView { header, payload })
            } else {
                None
            },
            None => None,
        },
        None => None,
    }
}

/// A channel-scoped request that the wire format can carry.
pub open spec fn wf_port_request(r: RequestView<PortRequestPayloadView>) -> bool {
    wf_req_header(r.header)
}

/// Round trip: decoding an encoded channel-scoped request yields it back.
pub proof fn lemma_port_request_round_trip(r: RequestView<PortRequestPayloadView>)
    requires
        wf_port_request(r),
    ensures
        dec_port_request(enc_port_request(r)) == Some(r),
{
    lemma_dec_req_header_enc(r.header, enc_port_request_payload(r.payload));
    lemma_dec_port_request_payload_enc(r.payload, Seq::<u8>::empty());
    assert(enc_port_request_payload(r.payload) + Seq::<u8>::empty() =~= enc_port_request_payload(
        r.payload,
    ));
}

/// Only encodings decode: when a byte string decodes as a channel-scoped
/// request, it is exactly the encoding of what it decodes to.
pub proof fn lemma_port_request_canonical(b: Seq<u8>, r: RequestView<PortRequestPayloadView>)
    requires
        dec_port_request(b) == Some(r),
    ensures
        wf_port_request(r),
        b == enc_port_request(r),
{
    let (header, after_header) = dec_req_header(b)->0;
    let (payload, rest) = dec_port_request_payload(after_header)->0;
    lemma_enc_req_header_dec(b, header, after_header);
    lemma_enc_port_request_payload_dec(after_header, payload, rest);
    assert(enc_port_request_payload(payload) + rest =~= enc_port_request_payload(payload));
    assert(b =~= enc_port_request(r));
}

/// Encoding of a channel-scoped response.
pub open spec fn enc_port_response(r: ResponseView<PortResponsePayloadView>) -> Seq<u8> {
    enc_resp_header(r.header) + enc_port_response_payload(r.payload)
}

/// Decodes a channel-scoped response; the byte string must be consumed whole.
pub open spec fn dec_port_response(b: Seq<u8>) -> Option<ResponseView<PortResponsePayloadView>> {
    match dec_resp_header(b) {
        Some((header, after_header)) => match dec_port_response_payload(after_header) {
            Some((payload, rest)) => if rest.len() == 0 {
                Some(ResponseView { header, payload })
            } else {
                None
            },
            None => None,
        },
        None => None,
    }
}

/// A channel-scoped response that the wire format can carry.
pub open spec fn wf_port_response(r: ResponseView<PortResponsePayloadView>) -> bool {
    wf_resp_header(r.header) && wf_port_response_payload(r.payload)
}

/// Round trip: decoding an encoded channel-scoped response yields it back.
pub proof fn lemma_port_response_round_trip(r: ResponseView<PortResponsePayloadView>)
    requires
        wf_port_response(r),
    ensures
        dec_port_response(enc_port_response(r)) == Some(r),
{
    lemma_dec_resp_header_enc(r.header, enc_port_response_payload(r.payload));
    lemma_dec_port_response_payload_enc(r.payload, Seq::<u8>::empty());
    assert(enc_port_response_payload(r.payload) + Seq::<u8>::empty() =~= enc_port_response_payload(
        r.payload,
    ));
}

/// Only encodings decode: when a byte string decodes as a channel-scoped
/// response, it is exactly the encoding of what it decodes to.
pub proof fn lemma_port_response_canonical(b: Seq<u8>, r: ResponseView<PortResponsePayloadView>)
    requires
        dec_port_response(b) == Some(r),
    ensures
        wf_port_response(r),
        b == enc_port_response(r),
{
    let (header, after_header) = dec_resp_header(b)->0;
    let (payload, rest) = dec_port_response_payload(after_header)->0;
    lemma_enc_resp_header_dec(b, header, after_header);
    lemma_enc_port_response_payload_dec(after_header, payload, rest);
    assert(enc_port_response_payload(payload) + rest =~= enc_port_response_payload(payload));
    assert(b =~= enc_port_response(r));
}

// ---------------------------------------------------------------------------
// Executable counterparts of the primitives.
// ---------------------------------------------------------------------------

/// Appends the encoding of an unsigned integer.
fn push_u64(out: &mut Vec<u8>, x: u64)
    ensures
        final(out)@ == old(out)@ + enc_u64(x),
{
    let mut bytes = u64_to_le_bytes(x);
    out.append(&mut bytes);
}

/// Appends the encoding of text.
fn push_text(out: &mut Vec<u8>, s: &str)
    ensures
        final(out)@ == old(out)@ + enc_text(s@),
{
    let bytes = s.as_bytes();
    push_u64(out, bytes.len() as u64);
    let mut tail = slice_to_vec(bytes);
    out.append(&mut tail);
}

/// Appends the encoding of optional text.
fn push_opt_text(out: &mut Vec<u8>, t: &Option<String>)
    ensures
        final(out)@ == old(out)@ + enc_opt_text(crate::messages::opt_string_view(t)),
{
    match t {
        None => {
            out.push(0u8);
            assert(final(out)@ =~= old(out)@ + seq![0u8]);
        },
        Some(s) => {
            out.push(1u8);
            push_text(out, s.as_str());
            assert(final(out)@ =~= old(out)@ + (seq![1u8] + enc_text(s@)));
        },
    }
}

/// Reads an unsigned integer from the front of `input`.
fn read_u64<'a>(input: &'a [u8]) -> (r: Option<(u64, &'a [u8])>)
    ensures
        r is Some <==> dec_u64(input@) is Some,
        r matches Some(p) ==> dec_u64(input@) matches Some(q) && p.0 == q.0 && p.1@ == q.1,
{
    if input.len() < 8 {
        None
    } else {
        let (head, tail) = input.split_at(8);
        let x = u64_from_le_bytes(head);
        Some((x, tail))
    }
}

/// Reads length-prefixed UTF-8 text from the front of `input`.
fn read_text<'a>(input: &'a [u8]) -> (r: Option<(String, &'a [u8])>)
    ensures
        r is Some <==> dec_text(input@) is Some,
        r matches Some(p) ==> dec_text(input@) matches Some(q) && p.0@ == q.0 && p.1@ == q.1,
{
    match read_u64(input) {
        None => None,
        Some((len, after_len)) => {
            if (after_len.len() as u64) < len {
                None
            } else {
                let len_usize = len as usize;
                let payload = slice_subrange(after_len, 0, len_usize);
                let tail = slice_subrange(after_len, len_usize, after_len.len());
                match string_from_utf8(slice_to_vec(payload)) {
                    Some(s) => Some((s, tail)),
                    None => None,
                }
            }
        },
    }
}

/// Reads optional text from the front of `input`.
fn read_opt_text<'a>(input: &'a [u8]) -> (r: Option<(Option<String>, &'a [u8])>)
    ensures
        r is Some <==> dec_opt_text(input@) is Some,
        r matches Some(p) ==> dec_opt_text(input@) matches Some(q)
            && crate::messages::opt_string_view(&p.0) == q.0 && p.1@ == q.1,
{
    if input.len() < 1 {
        None
    } else {
        let tag = input[0];
        let after_tag = slice_subrange(input, 1, input.len());
        if tag == 0 {
            Some((None, after_tag))
        } else if tag == 1 {
            match read_text(after_tag) {
                Some((s, tail)) => Some((Some(s), tail)),
                None => None,
            }
        } else {
            None
        }
    }
}

/// Relies on `String::from_utf8`: it succeeds exactly on valid UTF-8 input
/// and yields the characters that the bytes encode.
#[verifier::external_body]
fn string_from_utf8(bytes: Vec<u8>) -> (r: Option<String>)
    ensures
        r is Some <==> valid_utf8(bytes@),
        r matches Some(s) ==> s@ == decode_utf8(bytes@),
{
    String::from_utf8(bytes).ok()
}

// ---------------------------------------------------------------------------
// Executable encoders.
// ---------------------------------------------------------------------------

/// Appends the encoding of a request header.
fn push_req_header(out: &mut Vec<u8>, h: &RequestHeader)
    ensures
        final(out)@ == old(out)@ + enc_req_header(h@),
{
    push_opt_text(out, &h.client_token);
}

/// Appends the encoding of a response header.
fn push_resp_header(out: &mut Vec<u8>, h: &ResponseHeader)
    ensures
        final(out)@ == old(out)@ + enc_resp_header(h@),
{
    push_opt_text(out, &h.client_token);
    push_u64(out, h.request_id);
    assert(final(out)@ =~= old(out)@ + enc_resp_header(h@));
}

/// Appends the encoding of an app-scoped request payload.
fn push_app_request_payload(out: &mut Vec<u8>, p: &AppRequestPayload)
    ensures
        final(out)@ == old(out)@ + enc_app_request_payload(p@),
{
    match p {
        AppRequestPayload::GetOptionsInfo => {
            out.push(0u8);
            assert(final(out)@ =~= old(out)@ + seq![0u8]);
        },
    }
}

/// Appends the encoding of an app-scoped response payload.
fn push_app_response_payload(out: &mut Vec<u8>, p: &AppResponsePayload)
    ensures
        final(out)@ == old(out)@ + enc_app_response_payload(p@),
{
    match p {
        AppResponsePayload::OptionsInfo { version } => {
            out.push(0u8);
            push_text(out, version.as_str());
            assert(final(out)@ =~= old(out)@ + (seq![0u8] + enc_text(version@)));
        },
    }
}

/// Appends the encoding of a channel-scoped request payload.
fn push_port_request_payload(out: &mut Vec<u8>, p: &PortRequestPayload)
    ensures
        final(out)@ == old(out)@ + enc_port_request_payload(p@),
{
    match p {
        PortRequestPayload::Ping => {
            out.push(0u8);
            assert(final(out)@ =~= old(out)@ + seq![0u8]);
        },
        PortRequestPayload::StartStreaming { num_items } => {
            out.push(1u8);
            push_u64(out, *num_items);
            assert(final(out)@ =~= old(out)@ + (seq![1u8] + enc_u64(*num_items)));
        },
    }
}

/// Appends the encoding of a `Started` status.
fn push_started_status(out: &mut Vec<u8>, s: &StreamingStartedStatus)
    ensures
        final(out)@ == old(out)@ + enc_started_status(s@),
{
    match s {
        StreamingStartedStatus::Accepted => {
            out.push(0u8);
            assert(final(out)@ =~= old(out)@ + seq![0u8]);
        },
        StreamingStartedStatus::Rejected { reason } => {
            out.push(1u8);
            push_opt_text(out, reason);
            assert(final(out)@ =~= old(out)@ + (seq![1u8] + enc_opt_text(
                crate::messages::opt_string_view(reason),
            )));
        },
    }
}

/// Appends the encoding of a `Finished` status.
fn push_finished_status(out: &mut Vec<u8>, s: &StreamingFinishedStatus)
    ensures
        final(out)@ == old(out)@ + enc_finished_status(s@),
{
    match s {
        StreamingFinishedStatus::Completed => {
            out.push(0u8);
            assert(final(out)@ =~= old(out)@ + seq![0u8]);
        },
        StreamingFinishedStatus::Aborted { reason } => {
            out.push(1u8);
            push_opt_text(out, reason);
            assert(final(out)@ =~= old(out)@ + (seq![1u8] + enc_opt_text(
                crate::messages::opt_string_view(reason),
            )));
        },
    }
}

/// Appends the encoding of a streaming response payload.
fn push_streaming_payload(out: &mut Vec<u8>, p: &StreamingResponsePayload)
    ensures
        final(out)@ == old(out)@ + enc_streaming_payload(p@),
{
    match p {
        StreamingResponsePayload::Started { status } => {
            out.push(0u8);
            push_started_status(out, status);
            assert(final(out)@ =~= old(out)@ + (seq![0u8] + enc_started_status(status@)));
        },
        StreamingResponsePayload::Item { item_count } => {
            out.push(1u8);
            push_u64(out, *item_count);
            assert(final(out)@ =~= old(out)@ + (seq![1u8] + enc_u64(*item_count)));
        },
        StreamingResponsePayload::Finished { status, item_count } => {
            out.push(2u8);
            push_finished_status(out, status);
            push_u64(out, *item_count);
            assert(final(out)@ =~= old(out)@ + (seq![2u8] + enc_finished_status(status@)
                + enc_u64(*item_count)));
        },
    }
}

/// Appends the encoding of a channel-scoped response payload.
fn push_port_response_payload(out: &mut Vec<u8>, p: &PortResponsePayload)
    ensures
        final(out)@ == old(out)@ + enc_port_response_payload(p@),
{
    match p {
        PortResponsePayload::Pong => {
            out.push(0u8);
            assert(final(out)@ =~= old(out)@ + seq![0u8]);
        },
        PortResponsePayload::Streaming(streaming) => {
            out.push(1u8);
            push_streaming_payload(out, streaming);
            assert(final(out)@ =~= old(out)@ + (seq![1u8] + enc_streaming_payload(streaming@)));
        },
    }
}

/// Encodes an app-scoped request as bytes.
pub fn encode_app_request(r: &AppRequest) -> (out: Vec<u8>)
    ensures
        out@ == enc_app_request(r@),
{
    let mut out: Vec<u8> = Vec::new();
    push_req_header(&mut out, &r.header);
    push_app_request_payload(&mut out, &r.payload);
    assert(out@ =~= enc_app_request(r@));
    out
}

/// Encodes an app-scoped response as bytes.
pub fn encode_app_response(r: &AppResponse) -> (out: Vec<u8>)
    ensures
        out@ == enc_app_response(r@),
{
    let mut out: Vec<u8> = Vec::new();
    push_resp_header(&mut out, &r.header);
    push_app_response_payload(&mut out, &r.payload);
    assert(out@ =~= enc_app_response(r@));
    out
}

/// Encodes a channel-scoped request as bytes.
pub fn encode_port_request(r: &PortRequest) -> (out: Vec<u8>)
    ensures
        out@ == enc_port_request(r@),
{
    let mut out: Vec<u8> = Vec::new();
    push_req_header(&mut out, &r.header);
    push_port_request_payload(&mut out, &r.payload);
    assert(out@ =~= enc_port_request(r@));
    out
}

/// Encodes a channel-scoped response as bytes.
pub fn encode_port_response(r: &PortResponse) -> (out: Vec<u8>)
    ensures
        out@ == enc_port_response(r@),
{
    let mut out: Vec<u8> = Vec::new();
    push_resp_header(&mut out, &r.header);
    push_port_response_payload(&mut out, &r.payload);
    assert(out@ =~= enc_port_response(r@));
    out
}

// ---------------------------------------------------------------------------
// Executable decoders.
// ---------------------------------------------------------------------------

/// Reads a request header from the front of `input`.
fn read_req_header<'a>(input: &'a [u8]) -> (r: Option<(RequestHeader, &'a [u8])>)
    ensures
        r is Some <==> dec_req_header(input@) is Some,
        r matches Some(p) ==> dec_req_header(input@) matches Some(q) && p.0@ == q.0 && p.1@ == q.1,
{
    match read_opt_text(input) {
        Some((client_token, tail)) => Some((RequestHeader { client_token }, tail)),
        None => None,
    }
}

/// Reads a response header from the front of `input`.
fn read_resp_header<'a>(input: &'a [u8]) -> (r: Option<(ResponseHeader, &'a [u8])>)
    ensures
        r is Some <==> dec_resp_header(input@) is Some,
        r matches Some(p) ==> dec_resp_header(input@) matches Some(q) && p.0@ == q.0 && p.1@ == q.1,
{
    match read_opt_text(input) {
        Some((client_token, after_token)) => match read_u64(after_token) {
            Some((request_id, tail)) => Some((ResponseHeader { client_token, request_id }, tail)),
            None => None,
        },
        None => None,
    }
}

/// Reads an app-scoped request payload from the front of `input`.
fn read_app_request_payload<'a>(input: &'a [u8]) -> (r: Option<(AppRequestPayload, &'a [u8])>)
    ensures
        r is Some <==> dec_app_request_payload(input@) is Some,
        r matches Some(p) ==> dec_app_request_payload(input@) matches Some(q) && p.0@ == q.0
            && p.1@ == q.1,
{
    if input.len() < 1 {
        None
    } else if input[0] == 0 {
        let tail = slice_subrange(input, 1, input.len());
        Some((AppRequestPayload::GetOptionsInfo, tail))
    } else {
        None
    }
}

/// Reads an app-scoped response payload from the front of `input`.
fn read_app_response_payload<'a>(input: &'a [u8]) -> (r: Option<(AppResponsePayload, &'a [u8])>)
    ensures
        r is Some <==> dec_app_response_payload(input@) is Some,
        r matches Some(p) ==> dec_app_response_payload(input@) matches Some(q) && p.0@ == q.0
            && p.1@ == q.1,
{
    if input.len() < 1 {
        None
    } else if input[0] == 0 {
        let after_tag = slice_subrange(input, 1, input.len());
        match read_text(after_tag) {
            Some((version, tail)) => Some((AppResponsePayload::OptionsInfo { version }, tail)),
            None => None,
        }
    } else {
        None
    }
}

/// Reads a channel-scoped request payload from the front of `input`.
fn read_port_request_payload<'a>(input: &'a [u8]) -> (r: Option<(PortRequestPayload, &'a [u8])>)
    ensures
        r is Some <==> dec_port_request_payload(input@) is Some,
        r matches Some(p) ==> dec_port_request_payload(input@) matches Some(q) && p.0@ == q.0
            && p.1@ == q.1,
{
    if input.len() < 1 {
        None
    } else {
        let tag = input[0];
        let after_tag = slice_subrange(input, 1, input.len());
        if tag == 0 {
            Some((PortRequestPayload::Ping, after_tag))
        } else if tag == 1 {
            match read_u64(after_tag) {
                Some((num_items, tail)) => Some(
                    (PortRequestPayload::StartStreaming { num_items }, tail),
                ),
                None => None,
            }
        } else {
            None
        }
    }
}

/// Reads a `Started` status from the front of `input`.
fn read_started_status<'a>(input: &'a [u8]) -> (r: Option<(StreamingStartedStatus, &'a [u8])>)
    ensures
        r is Some <==> dec_started_status(input@) is Some,
        r matches Some(p) ==> dec_started_status(input@) matches Some(q) && p.0@ == q.0
            && p.1@ == q.1,
{
    if input.len() < 1 {
        None
    } else {
        let tag = input[0];
        let after_tag = slice_subrange(input, 1, input.len());
        if tag == 0 {
            Some((StreamingStartedStatus::Accepted, after_tag))
        } else if tag == 1 {
            match read_opt_text(after_tag) {
                Some((reason, tail)) => Some((StreamingStartedStatus::Rejected { reason }, tail)),
                None => None,
            }
        } else {
            None
        }
    }
}

/// Reads a `Finished` status from the front of `input`.
fn read_finished_status<'a>(input: &'a [u8]) -> (r: Option<(StreamingFinishedStatus, &'a [u8])>)
    ensures
        r is Some <==> dec_finished_status(input@) is Some,
        r matches Some(p) ==> dec_finished_status(input@) matches Some(q) && p.0@ == q.0
            && p.1@ == q.1,
{
    if input.len() < 1 {
        None
    } else {
        let tag = input[0];
        let after_tag = slice_subrange(input, 1, input.len());
        if tag == 0 {
            Some((StreamingFinishedStatus::Completed, after_tag))
        } else if tag == 1 {
            match read_opt_text(after_tag) {
                Some((reason, tail)) => Some((StreamingFinishedStatus::Aborted { reason }, tail)),
                None => None,
            }
        } else {
            None
        }
    }
}

/// Reads a streaming response payload from the front of `input`.
fn read_streaming_payload<'a>(input: &'a [u8]) -> (r: Option<
    (StreamingResponsePayload, &'a [u8]),
>)
    ensures
        r is Some <==> dec_streaming_payload(input@) is Some,
        r matches Some(p) ==> dec_streaming_payload(input@) matches Some(q) && p.0@ == q.0
            && p.1@ == q.1,
{
    if input.len() < 1 {
        None
    } else {
        let tag = input[0];
        let after_tag = slice_subrange(input, 1, input.len());
        if tag == 0 {
            match read_started_status(after_tag) {
                Some((status, tail)) => Some((StreamingResponsePayload::Started { status }, tail)),
                None => None,
            }
        } else if tag == 1 {
            match read_u64(after_tag) {
                Some((item_count, tail)) => Some(
                    (StreamingResponsePayload::Item { item_count }, tail),
                ),
                None => None,
            }
        } else if tag == 2 {
            match read_finished_status(after_tag) {
                Some((status, after_status)) => match read_u64(after_status) {
                    Some((item_count, tail)) => Some(
                        (StreamingResponsePayload::Finished { status, item_count }, tail),
                    ),
                    None => None,
                },
                None => None,
            }
        } else {
            None
        }
    }
}

/// Reads a channel-scoped response payload from the front of `input`.
fn read_port_response_payload<'a>(input: &'a [u8]) -> (r: Option<(PortResponsePayload, &'a [u8])>)
    ensures
        r is Some <==> dec_port_response_payload(input@) is Some,
        r matches Some(p) ==> dec_port_response_payload(input@) matches Some(q) && p.0@ == q.0
            && p.1@ == q.1,
{
    if input.len() < 1 {
        None
    } else {
        let tag = input[0];
        let after_tag = slice_subrange(input, 1, input.len());
        if tag == 0 {
            Some((PortResponsePayload::Pong, after_tag))
        } else if tag == 1 {
            match read_streaming_payload(after_tag) {
                Some((streaming, tail)) => Some(
                    (PortResponsePayload::Streaming(streaming), tail),
                ),
                None => None,
            }
        } else {
            None
        }
    }
}

/// Decodes an app-scoped request; fails cleanly on malformed input.
pub fn decode_app_request(input: &[u8]) -> (r: Option<AppRequest>)
    ensures
        r is Some <==> dec_app_request(input@) is Some,
        r matches Some(m) ==> dec_app_request(input@) == Some(m@),
{
    match read_req_header(input) {
        Some((header, after_header)) => match read_app_request_payload(after_header) {
            Some((payload, tail)) => if tail.len() == 0 {
                Some(Request { header, payload })
            } else {
                None
            },
            None => None,
        },
        None => None,
    }
}

/// Decodes an app-scoped response; fails cleanly on malformed input.
pub fn decode_app_response(input: &[u8]) -> (r: Option<AppResponse>)
    ensures
        r is Some <==> dec_app_response(input@) is Some,
        r matches Some(m) ==> dec_app_response(input@) == Some(m@),
{
    match read_resp_header(input) {
        Some((header, after_header)) => match read_app_response_payload(after_header) {
            Some((payload, tail)) => if tail.len() == 0 {
                Some(Response { header, payload })
            } else {
                None
            },
            None => None,
        },
        None => None,
    }
}

/// Decodes a channel-scoped request; fails cleanly on malformed input.
pub fn decode_port_request(input: &[u8]) -> (r: Option<PortRequest>)
    ensures
        r is Some <==> dec_port_request(input@) is Some,
        r matches Some(m) ==> dec_port_request(input@) == Some(m@),
{
    match read_req_header(input) {
        Some((header, after_header)) => match read_port_request_payload(after_header) {
            Some((payload, tail)) => if tail.len() == 0 {
                Some(Request { header, payload })
            } else {
                None
            },
            None => None,
        },
        None => None,
    }
}

/// Decodes a channel-scoped response; fails cleanly on malformed input.
pub fn decode_port_response(input: &[u8]) -> (r: Option<PortResponse>)
    ensures
        r is Some <==> dec_port_response(input@) is Some,
        r matches Some(m) ==> dec_port_response(input@) == Some(m@),
{
    match read_resp_header(input) {
        Some((header, after_header)) => match read_port_response_payload(after_header) {
            Some((payload, tail)) => if tail.len() == 0 {
                Some(Response { header, payload })
            } else {
                None
            },
            None => None,
        },
        None => None,
    }
}

} // verus!
