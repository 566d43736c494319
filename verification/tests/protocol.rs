use channel_coordinator::messages::{
    next_request_id, AppRequestPayload, PortRequestPayload, Request, RequestHeader,
    FIRST_REQUEST_ID, INITIAL_REQUEST_ID,
};

#[test]
fn next_request_id_counts_up() {
    assert_eq!(next_request_id(INITIAL_REQUEST_ID), FIRST_REQUEST_ID);
    assert_eq!(next_request_id(1), 2);
    assert_eq!(next_request_id(5), 6);
    assert_eq!(next_request_id(41), 42);
}

#[test]
fn next_request_id_never_yields_zero_on_wraparound() {
    assert_eq!(next_request_id(u64::MAX), FIRST_REQUEST_ID);
    assert_ne!(next_request_id(u64::MAX), 0);
}

#[test]
fn next_request_id_strictly_increasing_until_wraparound() {
    let mut last: u64 = INITIAL_REQUEST_ID;
    for _ in 0..100 {
        let issued = next_request_id(last);
        assert!(issued > last);
        assert_ne!(issued, 0);
        last = issued;
    }
    assert!(next_request_id(u64::MAX - 1) > u64::MAX - 1);
}

#[test]
fn into_response_echoes_token_and_records_id() {
    let header = RequestHeader { client_token: Some(String::from("opaque token")) };
    let response_header = header.into_response(7);
    assert_eq!(response_header.client_token, Some(String::from("opaque token")));
    assert_eq!(response_header.request_id, 7);
}

#[test]
fn into_response_keeps_missing_token_missing() {
    let header = RequestHeader { client_token: None };
    let response_header = header.into_response(3);
    assert_eq!(response_header.client_token, None);
    assert_eq!(response_header.request_id, 3);
}

#[test]
fn request_new_has_no_token() {
    let request = Request::new(AppRequestPayload::GetOptionsInfo);
    assert_eq!(request.header.client_token, None);

    let request = Request::new(PortRequestPayload::Ping);
    assert_eq!(request.header.client_token, None);
    assert_eq!(request.payload, PortRequestPayload::Ping);
}

#[test]
fn duplicate_header_carries_same_token() {
    let header = RequestHeader { client_token: Some(String::from("tok")) };
    let copy = header.duplicate();
    assert_eq!(copy, header);
}
