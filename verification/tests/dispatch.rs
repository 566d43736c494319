use channel_coordinator::codec::{
    decode_app_response, encode_app_request, encode_port_request,
};
use channel_coordinator::dispatch::{
    handle_app_message, handle_port_message, handle_port_request, App, MAX_STREAMING_NUM_ITEMS,
};
use channel_coordinator::messages::{
    AppRequestPayload, AppResponsePayload, PortRequestPayload, PortResponsePayload, Request,
    RequestHeader, StreamingFinishedStatus, StreamingResponsePayload, StreamingStartedStatus,
};
use channel_coordinator::registry::PortError;
use channel_coordinator::streaming::{run_producer, StreamingTaskError};

fn port_request(token: Option<&str>, payload: PortRequestPayload) -> Vec<u8> {
    let request = Request {
        header: RequestHeader { client_token: token.map(String::from) },
        payload,
    };
    encode_port_request(&request)
}

#[test]
fn get_options_info_replies_with_version() {
    let mut app = App::new();
    let bytes = encode_app_request(&Request {
        header: RequestHeader { client_token: Some(String::from("tok")) },
        payload: AppRequestPayload::GetOptionsInfo,
    });
    let reply = handle_app_message(&mut app, &bytes, "1.2.3").expect("a response is owed");
    let response = decode_app_response(&reply).expect("the reply decodes");
    assert_eq!(response.header.client_token, Some(String::from("tok")));
    assert_eq!(response.header.request_id, 1);
    assert_eq!(
        response.payload,
        AppResponsePayload::OptionsInfo { version: String::from("1.2.3") },
    );
}

#[test]
fn malformed_app_message_gets_no_response_but_consumes_an_id() {
    let mut app = App::new();
    assert!(handle_app_message(&mut app, &[7, 7, 7], "1.0.0").is_none());
    // The identifier allocated for the dropped message is not reused.
    let bytes = encode_app_request(&Request::new(AppRequestPayload::GetOptionsInfo));
    let reply = handle_app_message(&mut app, &bytes, "1.0.0").unwrap();
    let response = decode_app_response(&reply).unwrap();
    assert_eq!(response.header.request_id, 2);
}

#[test]
fn ping_is_answered_with_pong_on_the_channel() {
    let mut app = App::new();
    let port_id = app.connect_port().unwrap();
    let task = handle_port_message(&mut app, port_id, &port_request(None, PortRequestPayload::Ping));
    assert!(task.is_none());
    let msgs = app.connected_ports.take_outbox(port_id).unwrap();
    assert_eq!(msgs.len(), 1);
    assert_eq!(msgs[0].payload, PortResponsePayload::Pong);
    assert_eq!(msgs[0].header.request_id, 1);
}

#[test]
fn start_streaming_zero_items_is_rejected() {
    let mut app = App::new();
    let port_id = app.connect_port().unwrap();
    let bytes = port_request(None, PortRequestPayload::StartStreaming { num_items: 0 });
    let task = handle_port_message(&mut app, port_id, &bytes);
    assert!(task.is_none(), "no task is spawned");
    let msgs = app.connected_ports.take_outbox(port_id).unwrap();
    assert_eq!(msgs.len(), 1);
    assert_eq!(
        msgs[0].payload,
        PortResponsePayload::Streaming(StreamingResponsePayload::Started {
            status: StreamingStartedStatus::Rejected {
                reason: Some(String::from("no items requested")),
            },
        }),
    );
    // No further messages follow.
    assert_eq!(app.connected_ports.take_outbox(port_id).unwrap(), vec![]);
}

#[test]
fn start_streaming_at_the_bound_is_rejected() {
    let mut app = App::new();
    let port_id = app.connect_port().unwrap();
    for num_items in [MAX_STREAMING_NUM_ITEMS, MAX_STREAMING_NUM_ITEMS + 1, u64::MAX] {
        let bytes = port_request(None, PortRequestPayload::StartStreaming { num_items });
        let task = handle_port_message(&mut app, port_id, &bytes);
        assert!(task.is_none());
        let msgs = app.connected_ports.take_outbox(port_id).unwrap();
        assert_eq!(msgs.len(), 1);
        assert_eq!(
            msgs[0].payload,
            PortResponsePayload::Streaming(StreamingResponsePayload::Started {
                status: StreamingStartedStatus::Rejected {
                    reason: Some(String::from("too many items requested")),
                },
            }),
        );
    }
}

#[test]
fn start_streaming_three_items_is_accepted_synchronously() {
    let mut app = App::new();
    let port_id = app.connect_port().unwrap();
    let bytes = port_request(Some("tok"), PortRequestPayload::StartStreaming { num_items: 3 });
    let task = handle_port_message(&mut app, port_id, &bytes).expect("a task is spawned");
    // The Started response is queued before any streaming work begins.
    let msgs = app.connected_ports.take_outbox(port_id).unwrap();
    assert_eq!(msgs.len(), 1);
    assert_eq!(
        msgs[0].payload,
        PortResponsePayload::Streaming(StreamingResponsePayload::Started {
            status: StreamingStartedStatus::Accepted,
        }),
    );
    assert_eq!(task.port_id, port_id);
    assert_eq!(task.request_id, 1);
    assert_eq!(task.request_header.client_token, Some(String::from("tok")));
    assert_eq!(task.item_count, 0);
}

#[test]
fn accepted_stream_emits_exactly_its_items_then_one_finished() {
    let mut app = App::new();
    let port_id = app.connect_port().unwrap();
    let bytes = port_request(None, PortRequestPayload::StartStreaming { num_items: 3 });
    let mut task = handle_port_message(&mut app, port_id, &bytes).unwrap();
    run_producer(&mut task, &mut app.connected_ports, 3);
    let msgs = app.connected_ports.take_outbox(port_id).unwrap();
    assert_eq!(msgs.len(), 5);
    assert_eq!(
        msgs[0].payload,
        PortResponsePayload::Streaming(StreamingResponsePayload::Started {
            status: StreamingStartedStatus::Accepted,
        }),
    );
    for i in 1..=3u64 {
        assert_eq!(
            msgs[i as usize].payload,
            PortResponsePayload::Streaming(StreamingResponsePayload::Item { item_count: i }),
        );
    }
    assert_eq!(
        msgs[4].payload,
        PortResponsePayload::Streaming(StreamingResponsePayload::Finished {
            status: StreamingFinishedStatus::Completed,
            item_count: 3,
        }),
    );
    // A late watchdog abort is informational and emits nothing further.
    assert_eq!(
        task.abort(&mut app.connected_ports, Some(String::from("timeout expired"))),
        Err(StreamingTaskError::NotPending),
    );
    assert_eq!(app.connected_ports.take_outbox(port_id).unwrap(), vec![]);
}

#[test]
fn message_on_unknown_channel_is_dropped() {
    let mut app = App::new();
    let task = handle_port_message(&mut app, 3, &port_request(None, PortRequestPayload::Ping));
    assert!(task.is_none());
    assert!(app.disconnect_port(3).is_none());
}

#[test]
fn malformed_port_message_gets_no_response_but_consumes_an_id() {
    let mut app = App::new();
    let port_id = app.connect_port().unwrap();
    assert!(handle_port_message(&mut app, port_id, &[0xff]).is_none());
    assert_eq!(app.connected_ports.take_outbox(port_id).unwrap(), vec![]);
    // The channel's next request gets the second identifier.
    handle_port_message(&mut app, port_id, &port_request(None, PortRequestPayload::Ping));
    let msgs = app.connected_ports.take_outbox(port_id).unwrap();
    assert_eq!(msgs[0].header.request_id, 2);
}

#[test]
fn channel_disconnect_mid_stream_stops_delivery_not_the_task() {
    let mut app = App::new();
    let port_id = app.connect_port().unwrap();
    let bytes = port_request(None, PortRequestPayload::StartStreaming { num_items: 2 });
    let mut task = handle_port_message(&mut app, port_id, &bytes).unwrap();
    assert_eq!(task.next_item(&mut app.connected_ports), Ok(1));
    app.disconnect_port(port_id);
    // The remaining sends fail, the iteration bound is still exhausted, and
    // the task finishes internally although nothing more is delivered.
    assert_eq!(
        task.next_item(&mut app.connected_ports),
        Err(StreamingTaskError::Port(PortError::NotConnected)),
    );
    assert_eq!(task.item_count, 2);
    assert!(task.finish(&mut app.connected_ports, StreamingFinishedStatus::Completed).is_err());
    assert_eq!(
        task.next_item(&mut app.connected_ports),
        Err(StreamingTaskError::NotPending),
    );
}

#[test]
fn handle_port_request_echoes_token_into_started_reply() {
    let request = Request {
        header: RequestHeader { client_token: Some(String::from("opaque")) },
        payload: PortRequestPayload::StartStreaming { num_items: 2 },
    };
    let (response, task) = handle_port_request(7, 42, request);
    assert_eq!(response.header.client_token, Some(String::from("opaque")));
    assert_eq!(response.header.request_id, 42);
    let task = task.unwrap();
    assert_eq!(task.port_id, 7);
    assert_eq!(task.request_id, 42);
}
