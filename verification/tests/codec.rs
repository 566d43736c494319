use channel_coordinator::codec::{
    decode_app_request, decode_app_response, decode_port_request, decode_port_response,
    encode_app_request, encode_app_response, encode_port_request, encode_port_response,
};
use channel_coordinator::messages::{
    AppRequestPayload, AppResponsePayload, PortRequestPayload, PortResponsePayload, Request,
    RequestHeader, Response, ResponseHeader, StreamingFinishedStatus, StreamingResponsePayload,
    StreamingStartedStatus,
};

fn request_header(token: Option<&str>) -> RequestHeader {
    RequestHeader { client_token: token.map(String::from) }
}

fn response_header(token: Option<&str>, request_id: u64) -> ResponseHeader {
    ResponseHeader { client_token: token.map(String::from), request_id }
}

#[test]
fn app_request_round_trip() {
    let requests = vec![
        Request { header: request_header(None), payload: AppRequestPayload::GetOptionsInfo },
        Request {
            header: request_header(Some("client token")),
            payload: AppRequestPayload::GetOptionsInfo,
        },
    ];
    for request in requests {
        let bytes = encode_app_request(&request);
        assert_eq!(decode_app_request(&bytes), Some(request));
    }
}

#[test]
fn app_response_round_trip() {
    let responses = vec![
        Response {
            header: response_header(None, 1),
            payload: AppResponsePayload::OptionsInfo { version: String::from("0.1.0") },
        },
        Response {
            header: response_header(Some("tok"), 99),
            payload: AppResponsePayload::OptionsInfo { version: String::new() },
        },
    ];
    for response in responses {
        let bytes = encode_app_response(&response);
        assert_eq!(decode_app_response(&bytes), Some(response));
    }
}

#[test]
fn port_request_round_trip() {
    let requests = vec![
        Request { header: request_header(None), payload: PortRequestPayload::Ping },
        Request {
            header: request_header(Some("t")),
            payload: PortRequestPayload::StartStreaming { num_items: 5 },
        },
        Request {
            header: request_header(None),
            payload: PortRequestPayload::StartStreaming { num_items: u64::MAX },
        },
    ];
    for request in requests {
        let bytes = encode_port_request(&request);
        assert_eq!(decode_port_request(&bytes), Some(request));
    }
}

#[test]
fn port_response_round_trip() {
    let payloads = vec![
        PortResponsePayload::Pong,
        PortResponsePayload::Streaming(StreamingResponsePayload::Started {
            status: StreamingStartedStatus::Accepted,
        }),
        PortResponsePayload::Streaming(StreamingResponsePayload::Started {
            status: StreamingStartedStatus::Rejected { reason: None },
        }),
        PortResponsePayload::Streaming(StreamingResponsePayload::Started {
            status: StreamingStartedStatus::Rejected {
                reason: Some(String::from("no items requested")),
            },
        }),
        PortResponsePayload::Streaming(StreamingResponsePayload::Item { item_count: 3 }),
        PortResponsePayload::Streaming(StreamingResponsePayload::Finished {
            status: StreamingFinishedStatus::Completed,
            item_count: 3,
        }),
        PortResponsePayload::Streaming(StreamingResponsePayload::Finished {
            status: StreamingFinishedStatus::Aborted {
                reason: Some(String::from("timeout expired")),
            },
            item_count: 1,
        }),
        PortResponsePayload::Streaming(StreamingResponsePayload::Finished {
            status: StreamingFinishedStatus::Aborted { reason: None },
            item_count: 0,
        }),
    ];
    for payload in payloads {
        let response = Response { header: response_header(Some("token"), 12), payload };
        let bytes = encode_port_response(&response);
        assert_eq!(decode_port_response(&bytes), Some(response));
    }
}

#[test]
fn round_trip_keeps_non_ascii_token() {
    let request = Request {
        header: request_header(Some("jalape\u{f1}o \u{1f980}")),
        payload: PortRequestPayload::Ping,
    };
    let bytes = encode_port_request(&request);
    assert_eq!(decode_port_request(&bytes), Some(request));
}

#[test]
fn ping_without_token_has_exact_bytes() {
    let request = Request { header: request_header(None), payload: PortRequestPayload::Ping };
    // One tag byte for the missing token, one for the Ping variant.
    assert_eq!(encode_port_request(&request), vec![0u8, 0u8]);
}

#[test]
fn start_streaming_encoding_has_exact_bytes() {
    let request = Request {
        header: request_header(None),
        payload: PortRequestPayload::StartStreaming { num_items: 1 },
    };
    // Missing token, the StartStreaming tag, then the count as eight
    // little-endian bytes.
    assert_eq!(encode_port_request(&request), vec![0u8, 1, 1, 0, 0, 0, 0, 0, 0, 0]);
}

#[test]
fn token_is_length_prefixed_utf8() {
    let request = Request { header: request_header(Some("ab")), payload: PortRequestPayload::Ping };
    assert_eq!(
        encode_port_request(&request),
        vec![1u8, 2, 0, 0, 0, 0, 0, 0, 0, b'a', b'b', 0],
    );
}

#[test]
fn decoding_then_encoding_reproduces_the_bytes() {
    // StartStreaming{3} under client token "ab", written out by hand.
    let bytes = vec![
        1u8, 2, 0, 0, 0, 0, 0, 0, 0, b'a', b'b', 1, 3, 0, 0, 0, 0, 0, 0, 0,
    ];
    let decoded = decode_port_request(&bytes).expect("valid wire bytes");
    assert_eq!(
        decoded.payload,
        PortRequestPayload::StartStreaming { num_items: 3 },
    );
    assert_eq!(encode_port_request(&decoded), bytes);
}

#[test]
fn decode_rejects_empty_input() {
    assert_eq!(decode_app_request(&[]), None);
    assert_eq!(decode_app_response(&[]), None);
    assert_eq!(decode_port_request(&[]), None);
    assert_eq!(decode_port_response(&[]), None);
}

#[test]
fn decode_rejects_truncated_input() {
    let request = Request {
        header: request_header(Some("client token")),
        payload: PortRequestPayload::StartStreaming { num_items: 4 },
    };
    let bytes = encode_port_request(&request);
    for len in 0..bytes.len() {
        assert_eq!(decode_port_request(&bytes[..len]), None);
    }
}

#[test]
fn decode_rejects_trailing_bytes() {
    let request = Request { header: request_header(None), payload: PortRequestPayload::Ping };
    let mut bytes = encode_port_request(&request);
    bytes.push(0);
    assert_eq!(decode_port_request(&bytes), None);
}

#[test]
fn decode_rejects_unknown_tags() {
    // Unknown option tag.
    assert_eq!(decode_port_request(&[9, 0]), None);
    // Unknown payload variant tag.
    assert_eq!(decode_port_request(&[0, 9]), None);
}

#[test]
fn decode_rejects_invalid_utf8_token() {
    // Token present, length 1, but the byte is no valid UTF-8 sequence.
    assert_eq!(decode_port_request(&[1, 1, 0, 0, 0, 0, 0, 0, 0, 0xff, 0]), None);
}

#[test]
fn decode_rejects_overlong_length_prefix() {
    // Token length claims more bytes than the input holds.
    assert_eq!(decode_port_request(&[1, 200, 0, 0, 0, 0, 0, 0, 0, b'a', 0]), None);
}
